use crate::formats::rgb::Rgb;
use crate::pixel::het_pixel::HetPixel;
use crate::pixel::hom_pixel::HomPixel;
use crate::pixel::meta_traits::PixelComponent;
use vstd::prelude::*;

verus! {

/// A pixel whose alpha channel is declared first, before the colour channels
/// red, green, blue. The alpha channel may have a type of its own.
#[derive(Clone, Copy, Debug, PartialEq, Eq, Hash, Ord, Structural)]
pub struct Argb<T, A = T> {
    pub a: A,
    pub r: T,
    pub g: T,
    pub b: T,
}

impl<T, A> Argb<T, A> {
    /// A pixel from its channels in declared order.
    pub fn new_argb(a: A, r: T, g: T, b: T) -> (out: Self)
        ensures
            out == (Argb { a, r, g, b }),
    {
        Argb { a, r, g, b }
    }
}

impl<T: Default, A: Default> Default for Argb<T, A> {
    /// Every channel is its type's default.
    fn default() -> (out: Self)
        ensures
            call_ensures(A::default, (), out.a),
            call_ensures(T::default, (), out.r),
            call_ensures(T::default, (), out.g),
            call_ensures(T::default, (), out.b),
    {
        Argb { a: A::default(), r: T::default(), g: T::default(), b: T::default() }
    }
}

impl<T: PixelComponent, A: PixelComponent> HetPixel for Argb<T, A> {
    type ColorComponent = T;

    type AlphaComponent = A;

    type ColorArray = [T; 3];

    const NUM_COMPONENTS: u8 = 4;

    const NUM_COLOR_COMPONENTS: u8 = 3;

    open spec fn num_components() -> nat {
        4
    }

    open spec fn num_color_components() -> nat {
        3
    }

    proof fn lemma_counts() {
    }

    open spec fn colors(self) -> Seq<T> {
        seq![self.r, self.g, self.b]
    }

    open spec fn opacity(self) -> Option<A> {
        Some(self.a)
    }

    proof fn lemma_shape(self) {
    }

    proof fn lemma_channels_determine(self, other: Self) {
        assert(self.r == self.colors()[0]);
        assert(self.g == self.colors()[1]);
        assert(self.b == self.colors()[2]);
    }

    fn color_array(&self) -> (out: [T; 3]) {
        let out = [self.r, self.g, self.b];
        assert(out@ =~= self.colors());
        out
    }

    fn alpha_opt(&self) -> (out: Option<A>) {
        Some(self.a)
    }

    fn alpha_opt_mut(&mut self) -> (out: Option<&mut A>) {
        Some(&mut self.a)
    }

    fn try_from_colors_alpha(colors: [T; 3], alpha: Option<A>) -> (out: Option<Self>) {
        match alpha {
            Some(a) => {
                let out = Argb { a, r: colors[0], g: colors[1], b: colors[2] };
                assert(out.colors() =~= colors@.take(3));
                Some(out)
            },
            None => None,
        }
    }

    fn map_colors_same<F: FnMut(T) -> T>(&self, mut f: F) -> (out: Self) {
        assert(self.colors()[0] == self.r);
        assert(self.colors()[1] == self.g);
        assert(self.colors()[2] == self.b);
        let out = Argb { a: self.a, r: f(self.r), g: f(self.g), b: f(self.b) };
        assert(out.colors()[0] == out.r);
        assert(out.colors()[1] == out.g);
        assert(out.colors()[2] == out.b);
        out
    }

    fn map_alpha_same<F: FnMut(A) -> A>(&self, mut f: F) -> (out: Self) {
        let out = Argb { a: f(self.a), r: self.r, g: self.g, b: self.b };
        assert(out.colors() =~= self.colors());
        out
    }
}

impl<T: PixelComponent> HomPixel for Argb<T> {
    type ComponentArray = [T; 4];

    open spec fn components(self) -> Seq<T> {
        seq![self.a, self.r, self.g, self.b]
    }

    open spec fn from_flat(flat: Seq<T>) -> Self {
        Argb { a: flat[0], r: flat[1], g: flat[2], b: flat[3] }
    }

    open spec fn alpha_leads() -> bool {
        true
    }

    proof fn lemma_layout(self) {
        assert(self.components() =~= seq![self.a] + self.colors());
    }

    proof fn lemma_from_flat(flat: Seq<T>) {
        assert(Self::from_flat(flat).components() =~= flat.take(4));
    }

    fn component_array(&self) -> (out: [T; 4]) {
        let out = [self.a, self.r, self.g, self.b];
        assert(out@ =~= self.components());
        out
    }

    fn component_mut(&mut self, i: usize) -> (out: &mut T) {
        if i == 0 {
            assert(forall|v: T|
                #[trigger] self.components().update(0, v)
                    =~= (Argb { a: v, ..*self }).components());
            &mut self.a
        } else if i == 1 {
            assert(forall|v: T|
                #[trigger] self.components().update(1, v)
                    =~= (Argb { r: v, ..*self }).components());
            &mut self.r
        } else if i == 2 {
            assert(forall|v: T|
                #[trigger] self.components().update(2, v)
                    =~= (Argb { g: v, ..*self }).components());
            &mut self.g
        } else {
            assert(forall|v: T|
                #[trigger] self.components().update(3, v)
                    =~= (Argb { b: v, ..*self }).components());
            &mut self.b
        }
    }

    fn checked_component_mut(&mut self, i: usize) -> (out: Option<&mut T>) {
        if i < 4 {
            Some(self.component_mut(i))
        } else {
            None
        }
    }

    fn try_from_components(flat: &[T]) -> (out: Option<Self>) {
        if flat.len() >= 4 {
            Some(Argb { a: flat[0], r: flat[1], g: flat[2], b: flat[3] })
        } else {
            None
        }
    }

    fn map_same<F: FnMut(T) -> T>(&self, mut f: F) -> (out: Self) {
        assert(self.components()[0] == self.a);
        assert(self.components()[1] == self.r);
        assert(self.components()[2] == self.g);
        assert(self.components()[3] == self.b);
        let out = Argb { a: f(self.a), r: f(self.r), g: f(self.g), b: f(self.b) };
        assert(out.components()[0] == out.a);
        assert(out.components()[1] == out.r);
        assert(out.components()[2] == out.g);
        assert(out.components()[3] == out.b);
        out
    }
}

impl<T: PixelComponent> Argb<T> {
    /// The flat view lists the fields in declared order, and to write one
    /// position of it is to write the field that stands there.
    pub proof fn lemma_flat_view(self, v: T)
        ensures
            self.components().len() == 4,
            self.components()[0] == self.a,
            self.components()[1] == self.r,
            self.components()[2] == self.g,
            self.components()[3] == self.b,
            self.components().update(0, v)
                == (Argb { a: v, r: self.r, g: self.g, b: self.b }).components(),
            self.components().update(1, v)
                == (Argb { a: self.a, r: v, g: self.g, b: self.b }).components(),
            self.components().update(2, v)
                == (Argb { a: self.a, r: self.r, g: v, b: self.b }).components(),
            self.components().update(3, v)
                == (Argb { a: self.a, r: self.r, g: self.g, b: v }).components(),
    {
        assert(self.components().update(0, v)
            =~= (Argb { a: v, r: self.r, g: self.g, b: self.b }).components());
        assert(self.components().update(1, v)
            =~= (Argb { a: self.a, r: v, g: self.g, b: self.b }).components());
        assert(self.components().update(2, v)
            =~= (Argb { a: self.a, r: self.r, g: v, b: self.b }).components());
        assert(self.components().update(3, v)
            =~= (Argb { a: self.a, r: self.r, g: self.g, b: v }).components());
    }
}

impl<T: Clone, A> Argb<T, A> {
    /// The colour channels without alpha.
    pub fn rgb(&self) -> (out: Rgb<T>)
        ensures
            cloned(self.r, out.r),
            cloned(self.g, out.g),
            cloned(self.b, out.b),
    {
        Rgb { r: self.r.clone(), g: self.g.clone(), b: self.b.clone() }
    }
}

impl<T: Copy, A: Clone> Argb<T, A> {
    /// The same colour with the alpha value `a`.
    pub fn with_alpha(&self, a: A) -> (out: Self)
        ensures
            out == (Argb { a, r: self.r, g: self.g, b: self.b }),
    {
        Argb { a, r: self.r, g: self.g, b: self.b }
    }

    /// The same colour with the alpha value that `f` makes of this one.
    pub fn map_alpha<F, B>(&self, f: F) -> (out: Argb<T, B>) where F: FnOnce(A) -> B
        requires
            forall|a: A| cloned(self.a, a) ==> call_requires(f, (a,)),
        ensures
            out.r == self.r,
            out.g == self.g,
            out.b == self.b,
            exists|a: A| cloned(self.a, a) && call_ensures(f, (a,), out.a),
    {
        let a = self.a.clone();
        assert(cloned(self.a, a));
        Argb { a: f(a), r: self.r, g: self.g, b: self.b }
    }
}

} // verus!
