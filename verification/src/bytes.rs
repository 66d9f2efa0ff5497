//! The byte view: a run of pixels with integer channels seen as the bytes of
//! its flat view, in the byte order of the machine.
//!
//! The view is a copy, as the flat view is: `as_bytes` copies the bytes out,
//! and `copy_from_bytes` writes a byte view back into the pixels.
use crate::flat::{flat_run, ComponentSlice};
use crate::pixel::hom_pixel::HomPixel;
use crate::pixel::meta_traits::PixelComponent;
use vstd::prelude::*;
use vstd::slice::slice_to_vec;

verus! {

/// 256 to the power of `k`: the weight of byte `k` of a number.
pub open spec fn pow256(k: nat) -> nat
    decreases k,
{
    if k == 0 {
        1
    } else {
        256 * pow256((k - 1) as nat)
    }
}

/// An integer of `width` bytes as the number that its bits spell: the value
/// itself, or, for a negative value, its two's complement.
pub open spec fn bits_of(v: int, width: nat) -> nat {
    if v >= 0 {
        v as nat
    } else {
        (v + pow256(width)) as nat
    }
}

/// Byte `k` of a number, byte 0 being the lowest.
pub open spec fn byte_at(bits: nat, k: nat) -> u8 {
    ((bits / pow256(k)) % 256) as u8
}

/// The bytes of numbers of `width` bytes each, the lowest byte of each number
/// first.
pub open spec fn low_first(bits: Seq<nat>, width: nat) -> Seq<u8> {
    Seq::new(
        bits.len() * width,
        |i: int| byte_at(bits[i / (width as int)], (i % (width as int)) as nat),
    )
}

/// The bytes of numbers of `width` bytes each, the highest byte of each
/// number first.
pub open spec fn high_first(bits: Seq<nat>, width: nat) -> Seq<u8> {
    Seq::new(
        bits.len() * width,
        |i: int| byte_at(bits[i / (width as int)], (width - 1 - i % (width as int)) as nat),
    )
}

/// `bytes` is what numbers of `width` bytes each look like in memory: `width`
/// bytes for each number, in one byte order throughout. Which of the two
/// orders it is depends on the machine.
pub open spec fn in_memory(bits: Seq<nat>, width: nat, bytes: Seq<u8>) -> bool {
    bytes == low_first(bits, width) || bytes == high_first(bits, width)
}

/// A channel type that is plain data: an integer of a fixed number of bytes,
/// every bit pattern of which is a value.
pub trait ByteComponent: PixelComponent {
    /// The number of bytes of one value.
    spec fn width() -> nat;

    /// The number that the bits of the value spell.
    spec fn bits(self) -> nat;

    /// The numbers that the bits of a run of values spell.
    spec fn bits_all(flat: Seq<Self>) -> Seq<nat>;

    /// `bits_all` is `bits` of each value.
    proof fn lemma_bits_all(flat: Seq<Self>)
        ensures
            Self::bits_all(flat).len() == flat.len(),
            forall|i: int|
                0 <= i < flat.len() ==> #[trigger] Self::bits_all(flat)[i] == flat[i].bits(),
    ;

    /// The number of bytes of one value.
    fn byte_width() -> (w: usize)
        ensures
            w == Self::width(),
            w >= 1,
    ;

    /// The values as they lie in memory.
    fn channel_bytes(flat: &[Self]) -> (out: &[u8])
        ensures
            in_memory(Self::bits_all(flat@), Self::width(), out@),
    ;

    /// The memory of the values, lent out as bytes: what is written through
    /// the reference is what the values hold afterwards.
    fn channel_bytes_mut(flat: &mut [Self]) -> (out: &mut [u8])
        ensures
            in_memory(Self::bits_all(old(flat)@), Self::width(), out@),
            final(flat)@.len() == old(flat)@.len(),
            in_memory(Self::bits_all(final(flat)@), Self::width(), final(out)@),
    ;
}

/// Calls `bytemuck::cast_slice` from `u8` to `u8`. The cast keeps the address
/// and the size in bytes, so the result shows the values as they lie in
/// memory, 1 byte each. It cannot fail: the target's alignment is 1 and
/// every length in bytes is a whole number of `u8`.
#[verifier::external_body]
fn cast_u8_to_bytes(flat: &[u8]) -> (out: &[u8])
    ensures
        in_memory(u8::bits_all(flat@), 1, out@),
{
    bytemuck::cast_slice::<u8, u8>(flat)
}

/// Calls `bytemuck::cast_slice_mut` from `u8` to `u8`. The cast keeps the
/// address and the size in bytes, so the bytes lent out are the memory of the
/// values: first they show the values as they are, and what they hold in the
/// end is what the values hold. It cannot fail, for the reasons given for
/// `cast_slice`.
#[verifier::external_body]
fn cast_u8_to_bytes_mut(flat: &mut [u8]) -> (out: &mut [u8])
    ensures
        in_memory(u8::bits_all(old(flat)@), 1, out@),
        final(flat)@.len() == old(flat)@.len(),
        in_memory(u8::bits_all(final(flat)@), 1, final(out)@),
{
    bytemuck::cast_slice_mut::<u8, u8>(flat)
}

impl ByteComponent for u8 {
    open spec fn width() -> nat {
        1
    }

    open spec fn bits(self) -> nat {
        bits_of(self as int, 1)
    }

    open spec fn bits_all(flat: Seq<u8>) -> Seq<nat> {
        Seq::new(flat.len(), |i: int| bits_of(flat[i] as int, 1))
    }

    proof fn lemma_bits_all(flat: Seq<u8>) {
    }

    fn byte_width() -> (w: usize) {
        1
    }

    fn channel_bytes(flat: &[u8]) -> (out: &[u8]) {
        cast_u8_to_bytes(flat)
    }

    fn channel_bytes_mut(flat: &mut [u8]) -> (out: &mut [u8]) {
        cast_u8_to_bytes_mut(flat)
    }
}

/// Calls `bytemuck::cast_slice` from `u16` to `u8`. The cast keeps the address
/// and the size in bytes, so the result shows the values as they lie in
/// memory, 2 bytes each. It cannot fail: the target's alignment is 1 and
/// every length in bytes is a whole number of `u8`.
#[verifier::external_body]
fn cast_u16_to_bytes(flat: &[u16]) -> (out: &[u8])
    ensures
        in_memory(u16::bits_all(flat@), 2, out@),
{
    bytemuck::cast_slice::<u16, u8>(flat)
}

/// Calls `bytemuck::cast_slice_mut` from `u16` to `u8`. The cast keeps the
/// address and the size in bytes, so the bytes lent out are the memory of the
/// values: first they show the values as they are, and what they hold in the
/// end is what the values hold. It cannot fail, for the reasons given for
/// `cast_slice`.
#[verifier::external_body]
fn cast_u16_to_bytes_mut(flat: &mut [u16]) -> (out: &mut [u8])
    ensures
        in_memory(u16::bits_all(old(flat)@), 2, out@),
        final(flat)@.len() == old(flat)@.len(),
        in_memory(u16::bits_all(final(flat)@), 2, final(out)@),
{
    bytemuck::cast_slice_mut::<u16, u8>(flat)
}

impl ByteComponent for u16 {
    open spec fn width() -> nat {
        2
    }

    open spec fn bits(self) -> nat {
        bits_of(self as int, 2)
    }

    open spec fn bits_all(flat: Seq<u16>) -> Seq<nat> {
        Seq::new(flat.len(), |i: int| bits_of(flat[i] as int, 2))
    }

    proof fn lemma_bits_all(flat: Seq<u16>) {
    }

    fn byte_width() -> (w: usize) {
        2
    }

    fn channel_bytes(flat: &[u16]) -> (out: &[u8]) {
        cast_u16_to_bytes(flat)
    }

    fn channel_bytes_mut(flat: &mut [u16]) -> (out: &mut [u8]) {
        cast_u16_to_bytes_mut(flat)
    }
}

/// Calls `bytemuck::cast_slice` from `u32` to `u8`. The cast keeps the address
/// and the size in bytes, so the result shows the values as they lie in
/// memory, 4 bytes each. It cannot fail: the target's alignment is 1 and
/// every length in bytes is a whole number of `u8`.
#[verifier::external_body]
fn cast_u32_to_bytes(flat: &[u32]) -> (out: &[u8])
    ensures
        in_memory(u32::bits_all(flat@), 4, out@),
{
    bytemuck::cast_slice::<u32, u8>(flat)
}

/// Calls `bytemuck::cast_slice_mut` from `u32` to `u8`. The cast keeps the
/// address and the size in bytes, so the bytes lent out are the memory of the
/// values: first they show the values as they are, and what they hold in the
/// end is what the values hold. It cannot fail, for the reasons given for
/// `cast_slice`.
#[verifier::external_body]
fn cast_u32_to_bytes_mut(flat: &mut [u32]) -> (out: &mut [u8])
    ensures
        in_memory(u32::bits_all(old(flat)@), 4, out@),
        final(flat)@.len() == old(flat)@.len(),
        in_memory(u32::bits_all(final(flat)@), 4, final(out)@),
{
    bytemuck::cast_slice_mut::<u32, u8>(flat)
}

impl ByteComponent for u32 {
    open spec fn width() -> nat {
        4
    }

    open spec fn bits(self) -> nat {
        bits_of(self as int, 4)
    }

    open spec fn bits_all(flat: Seq<u32>) -> Seq<nat> {
        Seq::new(flat.len(), |i: int| bits_of(flat[i] as int, 4))
    }

    proof fn lemma_bits_all(flat: Seq<u32>) {
    }

    fn byte_width() -> (w: usize) {
        4
    }

    fn channel_bytes(flat: &[u32]) -> (out: &[u8]) {
        cast_u32_to_bytes(flat)
    }

    fn channel_bytes_mut(flat: &mut [u32]) -> (out: &mut [u8]) {
        cast_u32_to_bytes_mut(flat)
    }
}

/// Calls `bytemuck::cast_slice` from `u64` to `u8`. The cast keeps the address
/// and the size in bytes, so the result shows the values as they lie in
/// memory, 8 bytes each. It cannot fail: the target's alignment is 1 and
/// every length in bytes is a whole number of `u8`.
#[verifier::external_body]
fn cast_u64_to_bytes(flat: &[u64]) -> (out: &[u8])
    ensures
        in_memory(u64::bits_all(flat@), 8, out@),
{
    bytemuck::cast_slice::<u64, u8>(flat)
}

/// Calls `bytemuck::cast_slice_mut` from `u64` to `u8`. The cast keeps the
/// address and the size in bytes, so the bytes lent out are the memory of the
/// values: first they show the values as they are, and what they hold in the
/// end is what the values hold. It cannot fail, for the reasons given for
/// `cast_slice`.
#[verifier::external_body]
fn cast_u64_to_bytes_mut(flat: &mut [u64]) -> (out: &mut [u8])
    ensures
        in_memory(u64::bits_all(old(flat)@), 8, out@),
        final(flat)@.len() == old(flat)@.len(),
        in_memory(u64::bits_all(final(flat)@), 8, final(out)@),
{
    bytemuck::cast_slice_mut::<u64, u8>(flat)
}

impl ByteComponent for u64 {
    open spec fn width() -> nat {
        8
    }

    open spec fn bits(self) -> nat {
        bits_of(self as int, 8)
    }

    open spec fn bits_all(flat: Seq<u64>) -> Seq<nat> {
        Seq::new(flat.len(), |i: int| bits_of(flat[i] as int, 8))
    }

    proof fn lemma_bits_all(flat: Seq<u64>) {
    }

    fn byte_width() -> (w: usize) {
        8
    }

    fn channel_bytes(flat: &[u64]) -> (out: &[u8]) {
        cast_u64_to_bytes(flat)
    }

    fn channel_bytes_mut(flat: &mut [u64]) -> (out: &mut [u8]) {
        cast_u64_to_bytes_mut(flat)
    }
}

/// Calls `bytemuck::cast_slice` from `u128` to `u8`. The cast keeps the address
/// and the size in bytes, so the result shows the values as they lie in
/// memory, 16 bytes each. It cannot fail: the target's alignment is 1 and
/// every length in bytes is a whole number of `u8`.
#[verifier::external_body]
fn cast_u128_to_bytes(flat: &[u128]) -> (out: &[u8])
    ensures
        in_memory(u128::bits_all(flat@), 16, out@),
{
    bytemuck::cast_slice::<u128, u8>(flat)
}

/// Calls `bytemuck::cast_slice_mut` from `u128` to `u8`. The cast keeps the
/// address and the size in bytes, so the bytes lent out are the memory of the
/// values: first they show the values as they are, and what they hold in the
/// end is what the values hold. It cannot fail, for the reasons given for
/// `cast_slice`.
#[verifier::external_body]
fn cast_u128_to_bytes_mut(flat: &mut [u128]) -> (out: &mut [u8])
    ensures
        in_memory(u128::bits_all(old(flat)@), 16, out@),
        final(flat)@.len() == old(flat)@.len(),
        in_memory(u128::bits_all(final(flat)@), 16, final(out)@),
{
    bytemuck::cast_slice_mut::<u128, u8>(flat)
}

impl ByteComponent for u128 {
    open spec fn width() -> nat {
        16
    }

    open spec fn bits(self) -> nat {
        bits_of(self as int, 16)
    }

    open spec fn bits_all(flat: Seq<u128>) -> Seq<nat> {
        Seq::new(flat.len(), |i: int| bits_of(flat[i] as int, 16))
    }

    proof fn lemma_bits_all(flat: Seq<u128>) {
    }

    fn byte_width() -> (w: usize) {
        16
    }

    fn channel_bytes(flat: &[u128]) -> (out: &[u8]) {
        cast_u128_to_bytes(flat)
    }

    fn channel_bytes_mut(flat: &mut [u128]) -> (out: &mut [u8]) {
        cast_u128_to_bytes_mut(flat)
    }
}

/// Calls `bytemuck::cast_slice` from `i8` to `u8`. The cast keeps the address
/// and the size in bytes, so the result shows the values as they lie in
/// memory, 1 byte each. It cannot fail: the target's alignment is 1 and
/// every length in bytes is a whole number of `u8`.
#[verifier::external_body]
fn cast_i8_to_bytes(flat: &[i8]) -> (out: &[u8])
    ensures
        in_memory(i8::bits_all(flat@), 1, out@),
{
    bytemuck::cast_slice::<i8, u8>(flat)
}

/// Calls `bytemuck::cast_slice_mut` from `i8` to `u8`. The cast keeps the
/// address and the size in bytes, so the bytes lent out are the memory of the
/// values: first they show the values as they are, and what they hold in the
/// end is what the values hold. It cannot fail, for the reasons given for
/// `cast_slice`.
#[verifier::external_body]
fn cast_i8_to_bytes_mut(flat: &mut [i8]) -> (out: &mut [u8])
    ensures
        in_memory(i8::bits_all(old(flat)@), 1, out@),
        final(flat)@.len() == old(flat)@.len(),
        in_memory(i8::bits_all(final(flat)@), 1, final(out)@),
{
    bytemuck::cast_slice_mut::<i8, u8>(flat)
}

impl ByteComponent for i8 {
    open spec fn width() -> nat {
        1
    }

    open spec fn bits(self) -> nat {
        bits_of(self as int, 1)
    }

    open spec fn bits_all(flat: Seq<i8>) -> Seq<nat> {
        Seq::new(flat.len(), |i: int| bits_of(flat[i] as int, 1))
    }

    proof fn lemma_bits_all(flat: Seq<i8>) {
    }

    fn byte_width() -> (w: usize) {
        1
    }

    fn channel_bytes(flat: &[i8]) -> (out: &[u8]) {
        cast_i8_to_bytes(flat)
    }

    fn channel_bytes_mut(flat: &mut [i8]) -> (out: &mut [u8]) {
        cast_i8_to_bytes_mut(flat)
    }
}

/// Calls `bytemuck::cast_slice` from `i16` to `u8`. The cast keeps the address
/// and the size in bytes, so the result shows the values as they lie in
/// memory, 2 bytes each. It cannot fail: the target's alignment is 1 and
/// every length in bytes is a whole number of `u8`.
#[verifier::external_body]
fn cast_i16_to_bytes(flat: &[i16]) -> (out: &[u8])
    ensures
        in_memory(i16::bits_all(flat@), 2, out@),
{
    bytemuck::cast_slice::<i16, u8>(flat)
}

/// Calls `bytemuck::cast_slice_mut` from `i16` to `u8`. The cast keeps the
/// address and the size in bytes, so the bytes lent out are the memory of the
/// values: first they show the values as they are, and what they hold in the
/// end is what the values hold. It cannot fail, for the reasons given for
/// `cast_slice`.
#[verifier::external_body]
fn cast_i16_to_bytes_mut(flat: &mut [i16]) -> (out: &mut [u8])
    ensures
        in_memory(i16::bits_all(old(flat)@), 2, out@),
        final(flat)@.len() == old(flat)@.len(),
        in_memory(i16::bits_all(final(flat)@), 2, final(out)@),
{
    bytemuck::cast_slice_mut::<i16, u8>(flat)
}

impl ByteComponent for i16 {
    open spec fn width() -> nat {
        2
    }

    open spec fn bits(self) -> nat {
        bits_of(self as int, 2)
    }

    open spec fn bits_all(flat: Seq<i16>) -> Seq<nat> {
        Seq::new(flat.len(), |i: int| bits_of(flat[i] as int, 2))
    }

    proof fn lemma_bits_all(flat: Seq<i16>) {
    }

    fn byte_width() -> (w: usize) {
        2
    }

    fn channel_bytes(flat: &[i16]) -> (out: &[u8]) {
        cast_i16_to_bytes(flat)
    }

    fn channel_bytes_mut(flat: &mut [i16]) -> (out: &mut [u8]) {
        cast_i16_to_bytes_mut(flat)
    }
}

/// Calls `bytemuck::cast_slice` from `i32` to `u8`. The cast keeps the address
/// and the size in bytes, so the result shows the values as they lie in
/// memory, 4 bytes each. It cannot fail: the target's alignment is 1 and
/// every length in bytes is a whole number of `u8`.
#[verifier::external_body]
fn cast_i32_to_bytes(flat: &[i32]) -> (out: &[u8])
    ensures
        in_memory(i32::bits_all(flat@), 4, out@),
{
    bytemuck::cast_slice::<i32, u8>(flat)
}

/// Calls `bytemuck::cast_slice_mut` from `i32` to `u8`. The cast keeps the
/// address and the size in bytes, so the bytes lent out are the memory of the
/// values: first they show the values as they are, and what they hold in the
/// end is what the values hold. It cannot fail, for the reasons given for
/// `cast_slice`.
#[verifier::external_body]
fn cast_i32_to_bytes_mut(flat: &mut [i32]) -> (out: &mut [u8])
    ensures
        in_memory(i32::bits_all(old(flat)@), 4, out@),
        final(flat)@.len() == old(flat)@.len(),
        in_memory(i32::bits_all(final(flat)@), 4, final(out)@),
{
    bytemuck::cast_slice_mut::<i32, u8>(flat)
}

impl ByteComponent for i32 {
    open spec fn width() -> nat {
        4
    }

    open spec fn bits(self) -> nat {
        bits_of(self as int, 4)
    }

    open spec fn bits_all(flat: Seq<i32>) -> Seq<nat> {
        Seq::new(flat.len(), |i: int| bits_of(flat[i] as int, 4))
    }

    proof fn lemma_bits_all(flat: Seq<i32>) {
    }

    fn byte_width() -> (w: usize) {
        4
    }

    fn channel_bytes(flat: &[i32]) -> (out: &[u8]) {
        cast_i32_to_bytes(flat)
    }

    fn channel_bytes_mut(flat: &mut [i32]) -> (out: &mut [u8]) {
        cast_i32_to_bytes_mut(flat)
    }
}

/// Calls `bytemuck::cast_slice` from `i64` to `u8`. The cast keeps the address
/// and the size in bytes, so the result shows the values as they lie in
/// memory, 8 bytes each. It cannot fail: the target's alignment is 1 and
/// every length in bytes is a whole number of `u8`.
#[verifier::external_body]
fn cast_i64_to_bytes(flat: &[i64]) -> (out: &[u8])
    ensures
        in_memory(i64::bits_all(flat@), 8, out@),
{
    bytemuck::cast_slice::<i64, u8>(flat)
}

/// Calls `bytemuck::cast_slice_mut` from `i64` to `u8`. The cast keeps the
/// address and the size in bytes, so the bytes lent out are the memory of the
/// values: first they show the values as they are, and what they hold in the
/// end is what the values hold. It cannot fail, for the reasons given for
/// `cast_slice`.
#[verifier::external_body]
fn cast_i64_to_bytes_mut(flat: &mut [i64]) -> (out: &mut [u8])
    ensures
        in_memory(i64::bits_all(old(flat)@), 8, out@),
        final(flat)@.len() == old(flat)@.len(),
        in_memory(i64::bits_all(final(flat)@), 8, final(out)@),
{
    bytemuck::cast_slice_mut::<i64, u8>(flat)
}

impl ByteComponent for i64 {
    open spec fn width() -> nat {
        8
    }

    open spec fn bits(self) -> nat {
        bits_of(self as int, 8)
    }

    open spec fn bits_all(flat: Seq<i64>) -> Seq<nat> {
        Seq::new(flat.len(), |i: int| bits_of(flat[i] as int, 8))
    }

    proof fn lemma_bits_all(flat: Seq<i64>) {
    }

    fn byte_width() -> (w: usize) {
        8
    }

    fn channel_bytes(flat: &[i64]) -> (out: &[u8]) {
        cast_i64_to_bytes(flat)
    }

    fn channel_bytes_mut(flat: &mut [i64]) -> (out: &mut [u8]) {
        cast_i64_to_bytes_mut(flat)
    }
}

/// Calls `bytemuck::cast_slice` from `i128` to `u8`. The cast keeps the address
/// and the size in bytes, so the result shows the values as they lie in
/// memory, 16 bytes each. It cannot fail: the target's alignment is 1 and
/// every length in bytes is a whole number of `u8`.
#[verifier::external_body]
fn cast_i128_to_bytes(flat: &[i128]) -> (out: &[u8])
    ensures
        in_memory(i128::bits_all(flat@), 16, out@),
{
    bytemuck::cast_slice::<i128, u8>(flat)
}

/// Calls `bytemuck::cast_slice_mut` from `i128` to `u8`. The cast keeps the
/// address and the size in bytes, so the bytes lent out are the memory of the
/// values: first they show the values as they are, and what they hold in the
/// end is what the values hold. It cannot fail, for the reasons given for
/// `cast_slice`.
#[verifier::external_body]
fn cast_i128_to_bytes_mut(flat: &mut [i128]) -> (out: &mut [u8])
    ensures
        in_memory(i128::bits_all(old(flat)@), 16, out@),
        final(flat)@.len() == old(flat)@.len(),
        in_memory(i128::bits_all(final(flat)@), 16, final(out)@),
{
    bytemuck::cast_slice_mut::<i128, u8>(flat)
}

impl ByteComponent for i128 {
    open spec fn width() -> nat {
        16
    }

    open spec fn bits(self) -> nat {
        bits_of(self as int, 16)
    }

    open spec fn bits_all(flat: Seq<i128>) -> Seq<nat> {
        Seq::new(flat.len(), |i: int| bits_of(flat[i] as int, 16))
    }

    proof fn lemma_bits_all(flat: Seq<i128>) {
    }

    fn byte_width() -> (w: usize) {
        16
    }

    fn channel_bytes(flat: &[i128]) -> (out: &[u8]) {
        cast_i128_to_bytes(flat)
    }

    fn channel_bytes_mut(flat: &mut [i128]) -> (out: &mut [u8]) {
        cast_i128_to_bytes_mut(flat)
    }
}

/// Copies `src` over `dst`, byte by byte.
fn fill(dst: &mut [u8], src: &[u8])
    requires
        old(dst)@.len() == src@.len(),
    ensures
        final(dst)@ == src@,
{
    let mut i: usize = 0;
    while i < src.len()
        invariant
            i <= src@.len(),
            dst@.len() == src@.len(),
            dst@.take(i as int) == src@.take(i as int),
        decreases src.len() - i,
    {
        dst[i] = src[i];
        i += 1;
        assert(dst@.take(i as int) =~= src@.take(i as int));
    }
    assert(dst@ =~= dst@.take(i as int));
    assert(src@ =~= src@.take(i as int));
}

/// A run of pixels whose channels of type `T` are plain data, so that the run
/// can be read and written as raw bytes.
pub trait ComponentBytes<T>: ComponentSlice<T> {
    /// The number of bytes of the byte view.
    spec fn byte_len(&self) -> nat;

    /// `bytes` is the byte view of this run.
    spec fn shown_as(&self, bytes: Seq<u8>) -> bool;

    /// The byte view, copied out.
    fn as_bytes(&self) -> (out: Vec<u8>)
        ensures
            out@.len() == self.byte_len(),
            self.shown_as(out@),
    ;

    /// Writes a byte view back: where `bytes` has a byte for each byte of the
    /// run, the pixels are set so that `bytes` is their byte view, and `true`
    /// is returned; where it has not, the run is left as it is and `false` is
    /// returned.
    fn copy_from_bytes(&mut self, bytes: &[u8]) -> (done: bool)
        ensures
            done <==> bytes@.len() == old(self).byte_len(),
            final(self).byte_len() == old(self).byte_len(),
            done ==> final(self).shown_as(bytes@),
            !done ==> final(self).flat() == old(self).flat(),
    ;
}

impl<P: HomPixel> ComponentBytes<P::ColorComponent> for [P] where P::ColorComponent: ByteComponent {
    /// Each element of the flat view takes the bytes of its type.
    open spec fn byte_len(&self) -> nat {
        flat_run(self@).len() * <P::ColorComponent as ByteComponent>::width()
    }

    /// The byte view holds the bytes of each element of the flat view, in the
    /// machine's byte order.
    open spec fn shown_as(&self, bytes: Seq<u8>) -> bool {
        in_memory(
            <P::ColorComponent as ByteComponent>::bits_all(flat_run(self@)),
            <P::ColorComponent as ByteComponent>::width(),
            bytes,
        )
    }

    fn as_bytes(&self) -> (out: Vec<u8>) {
        let flat = self.as_slice();
        proof {
            <P::ColorComponent as ByteComponent>::lemma_bits_all(flat@);
        }
        slice_to_vec(<P::ColorComponent as ByteComponent>::channel_bytes(flat.as_slice()))
    }

    fn copy_from_bytes(&mut self, bytes: &[u8]) -> (done: bool) {
        let mut flat = self.as_slice();
        let w = <P::ColorComponent as ByteComponent>::byte_width();
        proof {
            <P::ColorComponent as ByteComponent>::lemma_bits_all(flat@);
        }
        if bytes.len() % w == 0 && bytes.len() / w == flat.len() {
            assert(bytes@.len() == flat@.len() * w) by (nonlinear_arith)
                requires
                    w >= 1,
                    bytes@.len() % (w as nat) == 0,
                    bytes@.len() / (w as nat) == flat@.len(),
            ;
            let dst = <P::ColorComponent as ByteComponent>::channel_bytes_mut(flat.as_mut_slice());
            fill(dst, bytes);
            let stored = self.write_flat(flat.as_slice());
            true
        } else {
            assert(bytes@.len() != flat@.len() * w) by (nonlinear_arith)
                requires
                    w >= 1,
                    !(bytes@.len() % (w as nat) == 0 && bytes@.len() / (w as nat) == flat@.len()),
            ;
            false
        }
    }
}

/// With 8-bit unsigned channels the byte view is the flat view itself.
pub proof fn lemma_bytes_of_u8(flat: Seq<u8>, bytes: Seq<u8>)
    ensures
        in_memory(u8::bits_all(flat), 1, bytes) <==> bytes == flat,
{
    reveal_with_fuel(pow256, 2);
    assert forall|i: int| 0 <= i < flat.len() implies low_first(u8::bits_all(flat), 1)[i]
        == flat[i] && high_first(u8::bits_all(flat), 1)[i] == flat[i] by {
        assert(i / 1 == i && i % 1 == 0);
        let v = flat[i] as nat;
        assert(pow256(0) == 1);
        assert(v / 1 == v && v % 256 == v);
        assert(byte_at(v, 0) == flat[i]);
    }
    assert(low_first(u8::bits_all(flat), 1) =~= flat);
    assert(high_first(u8::bits_all(flat), 1) =~= flat);
}

/// With 16-bit unsigned channels the byte view holds the low and the high
/// byte of each element of the flat view, low byte first or high byte first
/// throughout.
pub proof fn lemma_bytes_of_u16(flat: Seq<u16>, bytes: Seq<u8>, i: int)
    requires
        in_memory(u16::bits_all(flat), 2, bytes),
        0 <= i < flat.len(),
    ensures
        bytes.len() == 2 * flat.len(),
        (bytes[2 * i] == flat[i] % 256 && bytes[2 * i + 1] == flat[i] / 256) || (bytes[2 * i]
            == flat[i] / 256 && bytes[2 * i + 1] == flat[i] % 256),
{
    reveal_with_fuel(pow256, 3);
    let v = flat[i] as nat;
    let bits = u16::bits_all(flat);
    assert(bits[i] == v);
    assert(pow256(0) == 1 && pow256(1) == 256);
    assert(byte_at(v, 0) == v % 256) by {
        assert(v / 1 == v);
    }
    assert(byte_at(v, 1) == v / 256) by {
        assert((v / 256) % 256 == v / 256);
    }
    assert((2 * i) / 2 == i && (2 * i) % 2 == 0);
    assert((2 * i + 1) / 2 == i && (2 * i + 1) % 2 == 1);
    if bytes == low_first(bits, 2) {
        assert(bytes[2 * i] == byte_at(bits[i], 0));
        assert(bytes[2 * i + 1] == byte_at(bits[i], 1));
    } else {
        assert(bytes[2 * i] == byte_at(bits[i], 1));
        assert(bytes[2 * i + 1] == byte_at(bits[i], 0));
    }
}

} // verus!
