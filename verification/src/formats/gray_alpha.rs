use crate::formats::gray::Gray;
use crate::pixel::het_pixel::HetPixel;
use crate::pixel::hom_pixel::HomPixel;
use crate::pixel::meta_traits::PixelComponent;
use vstd::prelude::*;

verus! {

/// A grayscale pixel with an alpha channel after its brightness. The alpha
/// channel may have a type of its own.
#[derive(Clone, Copy, Debug, PartialEq, Eq, Hash, Ord, Structural)]
pub struct GrayAlpha<T, A = T>(pub T, pub A);

impl<T, A> GrayAlpha<T, A> {
    /// A pixel from its channels in declared order.
    pub fn new(v: T, a: A) -> (out: Self)
        ensures
            out == (GrayAlpha(v, a)),
    {
        GrayAlpha(v, a)
    }
}

impl<T: Default, A: Default> Default for GrayAlpha<T, A> {
    /// Every channel is its type's default.
    fn default() -> (out: Self)
        ensures
            call_ensures(T::default, (), out.0),
            call_ensures(A::default, (), out.1),
    {
        GrayAlpha(T::default(), A::default())
    }
}

impl<T: PixelComponent, A: PixelComponent> HetPixel for GrayAlpha<T, A> {
    type ColorComponent = T;

    type AlphaComponent = A;

    type ColorArray = [T; 1];

    const NUM_COMPONENTS: u8 = 2;

    const NUM_COLOR_COMPONENTS: u8 = 1;

    open spec fn num_components() -> nat {
        2
    }

    open spec fn num_color_components() -> nat {
        1
    }

    proof fn lemma_counts() {
    }

    open spec fn colors(self) -> Seq<T> {
        seq![self.0]
    }

    open spec fn opacity(self) -> Option<A> {
        Some(self.1)
    }

    proof fn lemma_shape(self) {
    }

    proof fn lemma_channels_determine(self, other: Self) {
        assert(self.0 == self.colors()[0]);
    }

    fn color_array(&self) -> (out: [T; 1]) {
        let out = [self.0];
        assert(out@ =~= self.colors());
        out
    }

    fn alpha_opt(&self) -> (out: Option<A>) {
        Some(self.1)
    }

    fn alpha_opt_mut(&mut self) -> (out: Option<&mut A>) {
        Some(&mut self.1)
    }

    fn try_from_colors_alpha(colors: [T; 1], alpha: Option<A>) -> (out: Option<Self>) {
        match alpha {
            Some(a) => {
                let out = GrayAlpha(colors[0], a);
                assert(out.colors() =~= colors@.take(1));
                Some(out)
            },
            None => None,
        }
    }

    fn map_colors_same<F: FnMut(T) -> T>(&self, mut f: F) -> (out: Self) {
        assert(self.colors()[0] == self.0);
        let out = GrayAlpha(f(self.0), self.1);
        assert(out.colors()[0] == out.0);
        out
    }

    fn map_alpha_same<F: FnMut(A) -> A>(&self, mut f: F) -> (out: Self) {
        let out = GrayAlpha(self.0, f(self.1));
        assert(out.colors() =~= self.colors());
        out
    }
}

impl<T: PixelComponent> HomPixel for GrayAlpha<T> {
    type ComponentArray = [T; 2];

    open spec fn components(self) -> Seq<T> {
        seq![self.0, self.1]
    }

    open spec fn from_flat(flat: Seq<T>) -> Self {
        GrayAlpha(flat[0], flat[1])
    }

    open spec fn alpha_leads() -> bool {
        false
    }

    proof fn lemma_layout(self) {
        assert(self.components() =~= self.colors().push(self.1));
    }

    proof fn lemma_from_flat(flat: Seq<T>) {
        assert(Self::from_flat(flat).components() =~= flat.take(2));
    }

    fn component_array(&self) -> (out: [T; 2]) {
        let out = [self.0, self.1];
        assert(out@ =~= self.components());
        out
    }

    fn component_mut(&mut self, i: usize) -> (out: &mut T) {
        if i == 0 {
            assert(forall|v: T|
                #[trigger] self.components().update(0, v) =~= (GrayAlpha(v, self.1)).components());
            &mut self.0
        } else {
            assert(forall|v: T|
                #[trigger] self.components().update(1, v) =~= (GrayAlpha(self.0, v)).components());
            &mut self.1
        }
    }

    fn checked_component_mut(&mut self, i: usize) -> (out: Option<&mut T>) {
        if i < 2 {
            Some(self.component_mut(i))
        } else {
            None
        }
    }

    fn try_from_components(flat: &[T]) -> (out: Option<Self>) {
        if flat.len() >= 2 {
            Some(GrayAlpha(flat[0], flat[1]))
        } else {
            None
        }
    }

    fn map_same<F: FnMut(T) -> T>(&self, mut f: F) -> (out: Self) {
        assert(self.components()[0] == self.0);
        assert(self.components()[1] == self.1);
        let out = GrayAlpha(f(self.0), f(self.1));
        assert(out.components()[0] == out.0);
        assert(out.components()[1] == out.1);
        out
    }
}

impl<T: PixelComponent> GrayAlpha<T> {
    /// The flat view lists the fields in declared order, and to write one
    /// position of it is to write the field that stands there.
    pub proof fn lemma_flat_view(self, v: T)
        ensures
            self.components().len() == 2,
            self.components()[0] == self.0,
            self.components()[1] == self.1,
            self.components().update(0, v) == (GrayAlpha(v, self.1)).components(),
            self.components().update(1, v) == (GrayAlpha(self.0, v)).components(),
    {
        assert(self.components().update(0, v) =~= (GrayAlpha(v, self.1)).components());
        assert(self.components().update(1, v) =~= (GrayAlpha(self.0, v)).components());
    }
}

impl<T: Clone, A> GrayAlpha<T, A> {
    /// The brightness without alpha.
    pub fn gray(&self) -> (out: Gray<T>)
        ensures
            cloned(self.0, out.0),
    {
        Gray(self.0.clone())
    }
}

impl<T, A> GrayAlpha<T, A> {
    /// The brightness borrowed in place, alpha left out: what is written
    /// through the reference becomes the pixel's brightness, and alpha stays.
    pub fn gray_mut(&mut self) -> (out: &mut T)
        ensures
            *out == old(self).0,
            *final(self) == GrayAlpha(*final(out), old(self).1),
    {
        &mut self.0
    }
}

impl<T: Copy, A: Clone> GrayAlpha<T, A> {
    /// The same brightness with the alpha value `a`: another name of
    /// `with_alpha`.
    pub fn alpha(&self, a: A) -> (out: Self)
        ensures
            out == GrayAlpha(self.0, a),
    {
        self.with_alpha(a)
    }

    /// The same brightness with the alpha value `a`.
    pub fn with_alpha(&self, a: A) -> (out: Self)
        ensures
            out == GrayAlpha(self.0, a),
    {
        GrayAlpha(self.0, a)
    }

    /// The same brightness with the alpha value that `f` makes of this one.
    pub fn map_alpha<F, B>(&self, f: F) -> (out: GrayAlpha<T, B>) where F: FnOnce(A) -> B
        requires
            forall|a: A| cloned(self.1, a) ==> call_requires(f, (a,)),
        ensures
            out.0 == self.0,
            exists|a: A| cloned(self.1, a) && call_ensures(f, (a,), out.1),
    {
        let a = self.1.clone();
        assert(cloned(self.1, a));
        GrayAlpha(self.0, f(a))
    }

    /// The brightness that `f` makes of this one, with the same alpha value,
    /// converted to the alpha type asked for.
    pub fn map_gray<F, U, B>(&self, f: F) -> (out: GrayAlpha<U, B>) where
        F: FnOnce(T) -> U,
        U: Clone,
        B: From<A> + Clone,

        requires
            call_requires(f, (self.0,)),
        ensures
            call_ensures(f, (self.0,), out.0),
            exists|a: A| cloned(self.1, a) && call_ensures(B::from, (a,), out.1),
    {
        let a = self.1.clone();
        assert(cloned(self.1, a));
        GrayAlpha(f(self.0), a.into())
    }
}

/// Where `map_gray` keeps the alpha type, it keeps the alpha value: the
/// conversion of a value to its own type hands it back. This holds as far as
/// a clone of the alpha value is that value, which is so for every `Copy` type
/// whose `Clone` is derived.
pub proof fn lemma_map_gray_keeps_alpha<A: Clone>(alpha: A, out: A)
    requires
        exists|a: A| cloned(alpha, a) && call_ensures(A::from, (a,), out),
        forall|a: A| cloned(alpha, a) ==> a == alpha,
    ensures
        out == alpha,
{
}

} // verus!
