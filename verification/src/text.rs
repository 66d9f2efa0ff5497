//! Pixels with 8-bit channels as text: the name of the channel order, then
//! the channels in declared order between brackets, as decimal numbers with
//! commas between them or as two hexadecimal digits each behind a `#`.
use crate::flat::ComponentSlice;
use crate::formats::bgr::Bgr;
use crate::formats::bgra::Bgra;
use crate::formats::rgb::Rgb;
use crate::formats::rgba::Rgba;
use crate::pixel::hom_pixel::HomPixel;
use vstd::prelude::*;
use vstd::string::StringExecFns;

verus! {

/// The character for one digit below sixteen; the letters are capitals where
/// `upper` is set.
pub open spec fn digit(d: int, upper: bool) -> char {
    if d < 10 {
        (48 + d) as char
    } else if upper {
        (55 + d) as char
    } else {
        (87 + d) as char
    }
}

/// The decimal digits of `v`, without leading zeros.
pub open spec fn decimal(v: nat) -> Seq<char>
    decreases v,
{
    if v < 10 {
        seq![digit(v as int, false)]
    } else {
        decimal(v / 10).push(digit((v % 10) as int, false))
    }
}

/// The two hexadecimal digits of `v`.
pub open spec fn hex_pair(v: u8, upper: bool) -> Seq<char> {
    seq![digit(v as int / 16, upper), digit(v as int % 16, upper)]
}

/// The channels as decimal numbers with a comma between each two.
pub open spec fn decimal_list(channels: Seq<u8>) -> Seq<char>
    decreases channels.len(),
{
    if channels.len() == 0 {
        Seq::empty()
    } else if channels.len() == 1 {
        decimal(channels[0] as nat)
    } else {
        decimal_list(channels.drop_last()) + seq![','] + decimal(channels.last() as nat)
    }
}

/// The channels as two hexadecimal digits each, with nothing between them.
pub open spec fn hex_run(channels: Seq<u8>, upper: bool) -> Seq<char>
    decreases channels.len(),
{
    if channels.len() == 0 {
        Seq::empty()
    } else {
        hex_run(channels.drop_last(), upper) + hex_pair(channels.last(), upper)
    }
}

/// A pixel in decimal: `rgb(255,1,0)`.
pub open spec fn decimal_text(name: Seq<char>, channels: Seq<u8>) -> Seq<char> {
    name + seq!['('] + decimal_list(channels) + seq![')']
}

/// A pixel in hexadecimal: `rgb(#ff0100)`.
pub open spec fn hex_text(name: Seq<char>, channels: Seq<u8>, upper: bool) -> Seq<char> {
    name + seq!['(', '#'] + hex_run(channels, upper) + seq![')']
}

/// Calls `String::push`, which appends the character to the end of the
/// string.
#[verifier::external_body]
fn push_char(text: &mut String, c: char)
    ensures
        final(text)@ == old(text)@.push(c),
{
    text.push(c)
}

/// The character for one digit below sixteen.
pub fn digit_char(d: u8, upper: bool) -> (out: char)
    requires
        d < 16,
    ensures
        out == digit(d as int, upper),
{
    match d {
        0 => '0',
        1 => '1',
        2 => '2',
        3 => '3',
        4 => '4',
        5 => '5',
        6 => '6',
        7 => '7',
        8 => '8',
        9 => '9',
        10 => if upper { 'A' } else { 'a' },
        11 => if upper { 'B' } else { 'b' },
        12 => if upper { 'C' } else { 'c' },
        13 => if upper { 'D' } else { 'd' },
        14 => if upper { 'E' } else { 'e' },
        _ => if upper { 'F' } else { 'f' },
    }
}

/// Appends the decimal digits of `v` to `text`.
pub fn push_decimal(text: &mut String, v: u8)
    ensures
        final(text)@ == old(text)@ + decimal(v as nat),
{
    if v >= 100 {
        push_char(text, digit_char(v / 100, false));
    }
    if v >= 10 {
        push_char(text, digit_char((v / 10) % 10, false));
    }
    push_char(text, digit_char(v % 10, false));
    proof {
        let n = v as nat;
        reveal_with_fuel(decimal, 3);
        if v >= 100 {
            assert((n / 10) / 10 == n / 100);
            assert((n / 10) % 10 == (v / 10) % 10);
            assert(decimal(n) =~= seq![
                digit((v / 100) as int, false),
                digit(((v / 10) % 10) as int, false),
                digit((v % 10) as int, false),
            ]);
        } else if v >= 10 {
            assert(decimal(n)
                =~= seq![digit((v / 10) as int, false), digit((v % 10) as int, false)]);
        }
        assert(final(text)@ =~= old(text)@ + decimal(n));
    }
}

/// Appends the two hexadecimal digits of `v` to `text`.
pub fn push_hex_pair(text: &mut String, v: u8, upper: bool)
    ensures
        final(text)@ == old(text)@ + hex_pair(v, upper),
{
    push_char(text, digit_char(v / 16, upper));
    push_char(text, digit_char(v % 16, upper));
    assert(text@ =~= old(text)@ + hex_pair(v, upper));
}

/// The text of a pixel in decimal, from the name of its channel order and its
/// flat view.
pub fn format_decimal(name: &str, channels: &[u8]) -> (out: String)
    ensures
        out@ == decimal_text(name@, channels@),
{
    let mut out = String::from_str(name);
    push_char(&mut out, '(');
    let mut i: usize = 0;
    while i < channels.len()
        invariant
            i <= channels.len(),
            out@ == name@ + seq!['('] + decimal_list(channels@.take(i as int)),
        decreases channels.len() - i,
    {
        let ghost before = out@;
        if i > 0 {
            push_char(&mut out, ',');
        }
        push_decimal(&mut out, channels[i]);
        proof {
            let done = channels@.take(i as int);
            let next = channels@.take(i + 1);
            assert(next.drop_last() =~= done);
            assert(next.last() == channels@[i as int]);
            if i == 0 {
                assert(decimal_list(done) =~= Seq::<char>::empty());
                assert(out@ =~= name@ + seq!['('] + decimal_list(next));
            } else {
                assert(out@ =~= name@ + seq!['('] + decimal_list(next));
            }
        }
        i += 1;
    }
    assert(channels@.take(i as int) =~= channels@);
    push_char(&mut out, ')');
    assert(out@ =~= decimal_text(name@, channels@));
    out
}

/// The text of a pixel in hexadecimal, from the name of its channel order and
/// its flat view.
pub fn format_hex(name: &str, channels: &[u8], upper: bool) -> (out: String)
    ensures
        out@ == hex_text(name@, channels@, upper),
{
    let mut out = String::from_str(name);
    push_char(&mut out, '(');
    push_char(&mut out, '#');
    let mut i: usize = 0;
    assert(out@ =~= name@ + seq!['(', '#'] + hex_run(channels@.take(0), upper));
    while i < channels.len()
        invariant
            i <= channels.len(),
            out@ == name@ + seq!['(', '#'] + hex_run(channels@.take(i as int), upper),
        decreases channels.len() - i,
    {
        push_hex_pair(&mut out, channels[i], upper);
        proof {
            let done = channels@.take(i as int);
            let next = channels@.take(i + 1);
            assert(next.drop_last() =~= done);
            assert(next.last() == channels@[i as int]);
            assert(out@ =~= name@ + seq!['(', '#'] + hex_run(next, upper));
        }
        i += 1;
    }
    assert(channels@.take(i as int) =~= channels@);
    push_char(&mut out, ')');
    assert(out@ =~= hex_text(name@, channels@, upper));
    out
}

impl Rgb<u8> {
    /// The pixel in decimal, as in `rgb(255,1,0)`.
    pub fn to_string(&self) -> (out: String)
        ensures
            out@ == decimal_text("rgb"@, self.components()),
    {
        let channels = self.as_slice();
        format_decimal("rgb", channels.as_slice())
    }

    /// The pixel in hexadecimal with small letters, as in `rgb(#ff0100)`.
    pub fn to_lower_hex(&self) -> (out: String)
        ensures
            out@ == hex_text("rgb"@, self.components(), false),
    {
        let channels = self.as_slice();
        format_hex("rgb", channels.as_slice(), false)
    }

    /// The pixel in hexadecimal with capital letters, as in `rgb(#FF0100)`.
    pub fn to_upper_hex(&self) -> (out: String)
        ensures
            out@ == hex_text("rgb"@, self.components(), true),
    {
        let channels = self.as_slice();
        format_hex("rgb", channels.as_slice(), true)
    }
}

impl Bgr<u8> {
    /// The pixel in decimal, as in `bgr(0,1,255)`.
    pub fn to_string(&self) -> (out: String)
        ensures
            out@ == decimal_text("bgr"@, self.components()),
    {
        let channels = self.as_slice();
        format_decimal("bgr", channels.as_slice())
    }

    /// The pixel in hexadecimal with small letters, as in `bgr(#0001ff)`.
    pub fn to_lower_hex(&self) -> (out: String)
        ensures
            out@ == hex_text("bgr"@, self.components(), false),
    {
        let channels = self.as_slice();
        format_hex("bgr", channels.as_slice(), false)
    }

    /// The pixel in hexadecimal with capital letters, as in `bgr(#0001FF)`.
    pub fn to_upper_hex(&self) -> (out: String)
        ensures
            out@ == hex_text("bgr"@, self.components(), true),
    {
        let channels = self.as_slice();
        format_hex("bgr", channels.as_slice(), true)
    }
}

impl Rgba<u8> {
    /// The pixel in decimal, as in `rgba(255,1,0,128)`.
    pub fn to_string(&self) -> (out: String)
        ensures
            out@ == decimal_text("rgba"@, self.components()),
    {
        let channels = self.as_slice();
        format_decimal("rgba", channels.as_slice())
    }

    /// The pixel in hexadecimal with small letters, as in `rgba(#ff010080)`.
    pub fn to_lower_hex(&self) -> (out: String)
        ensures
            out@ == hex_text("rgba"@, self.components(), false),
    {
        let channels = self.as_slice();
        format_hex("rgba", channels.as_slice(), false)
    }

    /// The pixel in hexadecimal with capital letters, as in `rgba(#FF010080)`.
    pub fn to_upper_hex(&self) -> (out: String)
        ensures
            out@ == hex_text("rgba"@, self.components(), true),
    {
        let channels = self.as_slice();
        format_hex("rgba", channels.as_slice(), true)
    }
}

impl Bgra<u8> {
    /// The pixel in decimal, as in `bgra(0,1,255,128)`.
    pub fn to_string(&self) -> (out: String)
        ensures
            out@ == decimal_text("bgra"@, self.components()),
    {
        let channels = self.as_slice();
        format_decimal("bgra", channels.as_slice())
    }

    /// The pixel in hexadecimal with small letters, as in `bgra(#0001ff80)`.
    pub fn to_lower_hex(&self) -> (out: String)
        ensures
            out@ == hex_text("bgra"@, self.components(), false),
    {
        let channels = self.as_slice();
        format_hex("bgra", channels.as_slice(), false)
    }

    /// The pixel in hexadecimal with capital letters, as in `bgra(#0001FF80)`.
    pub fn to_upper_hex(&self) -> (out: String)
        ensures
            out@ == hex_text("bgra"@, self.components(), true),
    {
        let channels = self.as_slice();
        format_hex("bgra", channels.as_slice(), true)
    }
}

} // verus!
