use crate::formats::bgr::Bgr;
use crate::pixel::het_pixel::HetPixel;
use crate::pixel::hom_pixel::HomPixel;
use crate::pixel::meta_traits::PixelComponent;
use vstd::prelude::*;

verus! {

/// A pixel of three colour channels, declared blue, green, red, and an alpha
/// channel after them. The alpha channel may have a type of its own.
#[derive(Clone, Copy, Debug, PartialEq, Eq, Hash, Ord, Structural)]
pub struct Bgra<T, A = T> {
    pub b: T,
    pub g: T,
    pub r: T,
    pub a: A,
}

impl<T, A> Bgra<T, A> {
    /// A pixel from its channels in declared order.
    pub fn new_bgra(b: T, g: T, r: T, a: A) -> (out: Self)
        ensures
            out == (Bgra { b, g, r, a }),
    {
        Bgra { b, g, r, a }
    }
}

impl<T: Default, A: Default> Default for Bgra<T, A> {
    /// Every channel is its type's default.
    fn default() -> (out: Self)
        ensures
            call_ensures(T::default, (), out.b),
            call_ensures(T::default, (), out.g),
            call_ensures(T::default, (), out.r),
            call_ensures(A::default, (), out.a),
    {
        Bgra { b: T::default(), g: T::default(), r: T::default(), a: A::default() }
    }
}

impl<T: PixelComponent, A: PixelComponent> HetPixel for Bgra<T, A> {
    type ColorComponent = T;

    type AlphaComponent = A;

    type ColorArray = [T; 3];

    const NUM_COMPONENTS: u8 = 4;

    const NUM_COLOR_COMPONENTS: u8 = 3;

    open spec fn num_components() -> nat {
        4
    }

    open spec fn num_color_components() -> nat {
        3
    }

    proof fn lemma_counts() {
    }

    open spec fn colors(self) -> Seq<T> {
        seq![self.b, self.g, self.r]
    }

    open spec fn opacity(self) -> Option<A> {
        Some(self.a)
    }

    proof fn lemma_shape(self) {
    }

    proof fn lemma_channels_determine(self, other: Self) {
        assert(self.b == self.colors()[0]);
        assert(self.g == self.colors()[1]);
        assert(self.r == self.colors()[2]);
    }

    fn color_array(&self) -> (out: [T; 3]) {
        let out = [self.b, self.g, self.r];
        assert(out@ =~= self.colors());
        out
    }

    fn alpha_opt(&self) -> (out: Option<A>) {
        Some(self.a)
    }

    fn alpha_opt_mut(&mut self) -> (out: Option<&mut A>) {
        Some(&mut self.a)
    }

    fn try_from_colors_alpha(colors: [T; 3], alpha: Option<A>) -> (out: Option<Self>) {
        match alpha {
            Some(a) => {
                let out = Bgra { b: colors[0], g: colors[1], r: colors[2], a };
                assert(out.colors() =~= colors@.take(3));
                Some(out)
            },
            None => None,
        }
    }

    fn map_colors_same<F: FnMut(T) -> T>(&self, mut f: F) -> (out: Self) {
        assert(self.colors()[0] == self.b);
        assert(self.colors()[1] == self.g);
        assert(self.colors()[2] == self.r);
        let out = Bgra { b: f(self.b), g: f(self.g), r: f(self.r), a: self.a };
        assert(out.colors()[0] == out.b);
        assert(out.colors()[1] == out.g);
        assert(out.colors()[2] == out.r);
        out
    }

    fn map_alpha_same<F: FnMut(A) -> A>(&self, mut f: F) -> (out: Self) {
        let out = Bgra { b: self.b, g: self.g, r: self.r, a: f(self.a) };
        assert(out.colors() =~= self.colors());
        out
    }
}

impl<T: PixelComponent> HomPixel for Bgra<T> {
    type ComponentArray = [T; 4];

    open spec fn components(self) -> Seq<T> {
        seq![self.b, self.g, self.r, self.a]
    }

    open spec fn from_flat(flat: Seq<T>) -> Self {
        Bgra { b: flat[0], g: flat[1], r: flat[2], a: flat[3] }
    }

    open spec fn alpha_leads() -> bool {
        false
    }

    proof fn lemma_layout(self) {
        assert(self.components() =~= self.colors().push(self.a));
    }

    proof fn lemma_from_flat(flat: Seq<T>) {
        assert(Self::from_flat(flat).components() =~= flat.take(4));
    }

    fn component_array(&self) -> (out: [T; 4]) {
        let out = [self.b, self.g, self.r, self.a];
        assert(out@ =~= self.components());
        out
    }

    fn component_mut(&mut self, i: usize) -> (out: &mut T) {
        if i == 0 {
            assert(forall|v: T|
                #[trigger] self.components().update(0, v)
                    =~= (Bgra { b: v, ..*self }).components());
            &mut self.b
        } else if i == 1 {
            assert(forall|v: T|
                #[trigger] self.components().update(1, v)
                    =~= (Bgra { g: v, ..*self }).components());
            &mut self.g
        } else if i == 2 {
            assert(forall|v: T|
                #[trigger] self.components().update(2, v)
                    =~= (Bgra { r: v, ..*self }).components());
            &mut self.r
        } else {
            assert(forall|v: T|
                #[trigger] self.components().update(3, v)
                    =~= (Bgra { a: v, ..*self }).components());
            &mut self.a
        }
    }

    fn checked_component_mut(&mut self, i: usize) -> (out: Option<&mut T>) {
        if i < 4 {
            Some(self.component_mut(i))
        } else {
            None
        }
    }

    fn try_from_components(flat: &[T]) -> (out: Option<Self>) {
        if flat.len() >= 4 {
            Some(Bgra { b: flat[0], g: flat[1], r: flat[2], a: flat[3] })
        } else {
            None
        }
    }

    fn map_same<F: FnMut(T) -> T>(&self, mut f: F) -> (out: Self) {
        assert(self.components()[0] == self.b);
        assert(self.components()[1] == self.g);
        assert(self.components()[2] == self.r);
        assert(self.components()[3] == self.a);
        let out = Bgra { b: f(self.b), g: f(self.g), r: f(self.r), a: f(self.a) };
        assert(out.components()[0] == out.b);
        assert(out.components()[1] == out.g);
        assert(out.components()[2] == out.r);
        assert(out.components()[3] == out.a);
        out
    }
}

impl<T: PixelComponent> Bgra<T> {
    /// The flat view lists the fields in declared order, and to write one
    /// position of it is to write the field that stands there.
    pub proof fn lemma_flat_view(self, v: T)
        ensures
            self.components().len() == 4,
            self.components()[0] == self.b,
            self.components()[1] == self.g,
            self.components()[2] == self.r,
            self.components()[3] == self.a,
            self.components().update(0, v)
                == (Bgra { b: v, g: self.g, r: self.r, a: self.a }).components(),
            self.components().update(1, v)
                == (Bgra { b: self.b, g: v, r: self.r, a: self.a }).components(),
            self.components().update(2, v)
                == (Bgra { b: self.b, g: self.g, r: v, a: self.a }).components(),
            self.components().update(3, v)
                == (Bgra { b: self.b, g: self.g, r: self.r, a: v }).components(),
    {
        assert(self.components().update(0, v)
            =~= (Bgra { b: v, g: self.g, r: self.r, a: self.a }).components());
        assert(self.components().update(1, v)
            =~= (Bgra { b: self.b, g: v, r: self.r, a: self.a }).components());
        assert(self.components().update(2, v)
            =~= (Bgra { b: self.b, g: self.g, r: v, a: self.a }).components());
        assert(self.components().update(3, v)
            =~= (Bgra { b: self.b, g: self.g, r: self.r, a: v }).components());
    }
}

impl<T: Clone, A> Bgra<T, A> {
    /// The colour channels without alpha.
    pub fn bgr(&self) -> (out: Bgr<T>)
        ensures
            cloned(self.b, out.b),
            cloned(self.g, out.g),
            cloned(self.r, out.r),
    {
        Bgr { b: self.b.clone(), g: self.g.clone(), r: self.r.clone() }
    }
}

impl<T: Copy, A: Clone> Bgra<T, A> {
    /// The same colour with the alpha value `a`.
    pub fn with_alpha(&self, a: A) -> (out: Self)
        ensures
            out == (Bgra { b: self.b, g: self.g, r: self.r, a }),
    {
        Bgra { b: self.b, g: self.g, r: self.r, a }
    }

    /// The same colour with the alpha value that `f` makes of this one.
    pub fn map_alpha<F, B>(&self, f: F) -> (out: Bgra<T, B>) where F: FnOnce(A) -> B
        requires
            forall|a: A| cloned(self.a, a) ==> call_requires(f, (a,)),
        ensures
            out.b == self.b,
            out.g == self.g,
            out.r == self.r,
            exists|a: A| cloned(self.a, a) && call_ensures(f, (a,), out.a),
    {
        let a = self.a.clone();
        assert(cloned(self.a, a));
        Bgra { b: self.b, g: self.g, r: self.r, a: f(a) }
    }
}

} // verus!
