use crate::formats::bgra::Bgra;
use crate::pixel::het_pixel::HetPixel;
use crate::pixel::hom_pixel::HomPixel;
use crate::pixel::meta_traits::PixelComponent;
use vstd::prelude::*;

verus! {

/// A pixel of three colour channels, declared blue, green, red.
#[derive(Clone, Copy, Debug, PartialEq, Eq, Hash, Ord, Structural)]
pub struct Bgr<T> {
    pub b: T,
    pub g: T,
    pub r: T,
}

impl<T> Bgr<T> {
    /// A pixel from its channels in declared order.
    pub fn new_bgr(b: T, g: T, r: T) -> (out: Self)
        ensures
            out == (Bgr { b, g, r }),
    {
        Bgr { b, g, r }
    }
}

impl<T: Default> Default for Bgr<T> {
    /// Every channel is its type's default.
    fn default() -> (out: Self)
        ensures
            call_ensures(T::default, (), out.b),
            call_ensures(T::default, (), out.g),
            call_ensures(T::default, (), out.r),
    {
        Bgr { b: T::default(), g: T::default(), r: T::default() }
    }
}

impl<T: PixelComponent> HetPixel for Bgr<T> {
    type ColorComponent = T;

    type AlphaComponent = T;

    type ColorArray = [T; 3];

    const NUM_COMPONENTS: u8 = 3;

    const NUM_COLOR_COMPONENTS: u8 = 3;

    open spec fn num_components() -> nat {
        3
    }

    open spec fn num_color_components() -> nat {
        3
    }

    proof fn lemma_counts() {
    }

    open spec fn colors(self) -> Seq<T> {
        seq![self.b, self.g, self.r]
    }

    open spec fn opacity(self) -> Option<T> {
        None
    }

    proof fn lemma_shape(self) {
    }

    proof fn lemma_channels_determine(self, other: Self) {
        assert(self.b == self.colors()[0]);
        assert(self.g == self.colors()[1]);
        assert(self.r == self.colors()[2]);
    }

    fn color_array(&self) -> (out: [T; 3]) {
        let out = [self.b, self.g, self.r];
        assert(out@ =~= self.colors());
        out
    }

    fn alpha_opt(&self) -> (out: Option<T>) {
        None
    }

    fn alpha_opt_mut(&mut self) -> (out: Option<&mut T>) {
        None
    }

    fn try_from_colors_alpha(colors: [T; 3], alpha: Option<T>) -> (out: Option<Self>) {
        let out = Bgr { b: colors[0], g: colors[1], r: colors[2] };
        assert(out.colors() =~= colors@.take(3));
        Some(out)
    }

    fn map_colors_same<F: FnMut(T) -> T>(&self, mut f: F) -> (out: Self) {
        assert(self.colors()[0] == self.b);
        assert(self.colors()[1] == self.g);
        assert(self.colors()[2] == self.r);
        let out = Bgr { b: f(self.b), g: f(self.g), r: f(self.r) };
        assert(out.colors()[0] == out.b);
        assert(out.colors()[1] == out.g);
        assert(out.colors()[2] == out.r);
        out
    }

    fn map_alpha_same<F: FnMut(T) -> T>(&self, f: F) -> (out: Self) {
        *self
    }
}

impl<T: PixelComponent> HomPixel for Bgr<T> {
    type ComponentArray = [T; 3];

    open spec fn components(self) -> Seq<T> {
        seq![self.b, self.g, self.r]
    }

    open spec fn from_flat(flat: Seq<T>) -> Self {
        Bgr { b: flat[0], g: flat[1], r: flat[2] }
    }

    open spec fn alpha_leads() -> bool {
        false
    }

    proof fn lemma_layout(self) {
        assert(self.components() =~= self.colors());
    }

    proof fn lemma_from_flat(flat: Seq<T>) {
        assert(Self::from_flat(flat).components() =~= flat.take(3));
    }

    fn component_array(&self) -> (out: [T; 3]) {
        let out = [self.b, self.g, self.r];
        assert(out@ =~= self.components());
        out
    }

    fn component_mut(&mut self, i: usize) -> (out: &mut T) {
        if i == 0 {
            assert(forall|v: T|
                #[trigger] self.components().update(0, v) =~= (Bgr { b: v, ..*self }).components());
            &mut self.b
        } else if i == 1 {
            assert(forall|v: T|
                #[trigger] self.components().update(1, v) =~= (Bgr { g: v, ..*self }).components());
            &mut self.g
        } else {
            assert(forall|v: T|
                #[trigger] self.components().update(2, v) =~= (Bgr { r: v, ..*self }).components());
            &mut self.r
        }
    }

    fn checked_component_mut(&mut self, i: usize) -> (out: Option<&mut T>) {
        if i < 3 {
            Some(self.component_mut(i))
        } else {
            None
        }
    }

    fn try_from_components(flat: &[T]) -> (out: Option<Self>) {
        if flat.len() >= 3 {
            Some(Bgr { b: flat[0], g: flat[1], r: flat[2] })
        } else {
            None
        }
    }

    fn map_same<F: FnMut(T) -> T>(&self, mut f: F) -> (out: Self) {
        assert(self.components()[0] == self.b);
        assert(self.components()[1] == self.g);
        assert(self.components()[2] == self.r);
        let out = Bgr { b: f(self.b), g: f(self.g), r: f(self.r) };
        assert(out.components()[0] == out.b);
        assert(out.components()[1] == out.g);
        assert(out.components()[2] == out.r);
        out
    }
}

impl<T: PixelComponent> Bgr<T> {
    /// The flat view lists the fields in declared order, and to write one
    /// position of it is to write the field that stands there.
    pub proof fn lemma_flat_view(self, v: T)
        ensures
            self.components().len() == 3,
            self.components()[0] == self.b,
            self.components()[1] == self.g,
            self.components()[2] == self.r,
            self.components().update(0, v) == (Bgr { b: v, g: self.g, r: self.r }).components(),
            self.components().update(1, v) == (Bgr { b: self.b, g: v, r: self.r }).components(),
            self.components().update(2, v) == (Bgr { b: self.b, g: self.g, r: v }).components(),
    {
        assert(self.components().update(0, v)
            =~= (Bgr { b: v, g: self.g, r: self.r }).components());
        assert(self.components().update(1, v)
            =~= (Bgr { b: self.b, g: v, r: self.r }).components());
        assert(self.components().update(2, v)
            =~= (Bgr { b: self.b, g: self.g, r: v }).components());
    }
}

impl<T: Clone> Bgr<T> {
    /// The channels, cloned one by one in declared order.
    pub fn iter(&self) -> (out: Vec<T>)
        ensures
            out@.len() == 3,
            cloned(self.b, out@[0]),
            cloned(self.g, out@[1]),
            cloned(self.r, out@[2]),
    {
        let mut out: Vec<T> = Vec::new();
        out.push(self.b.clone());
        out.push(self.g.clone());
        out.push(self.r.clone());
        out
    }

    /// The same colour with the alpha value `a`: another name of `with_alpha`.
    pub fn alpha(&self, a: T) -> (out: Bgra<T>)
        ensures
            cloned(self.b, out.b),
            cloned(self.g, out.g),
            cloned(self.r, out.r),
            out.a == a,
    {
        self.with_alpha(a)
    }

    /// The same colour with the alpha value `a`.
    pub fn with_alpha(&self, a: T) -> (out: Bgra<T>)
        ensures
            cloned(self.b, out.b),
            cloned(self.g, out.g),
            cloned(self.r, out.r),
            out.a == a,
    {
        Bgra { b: self.b.clone(), g: self.g.clone(), r: self.r.clone(), a }
    }

    /// The same colour with the alpha value `a`, whose type may differ from
    /// the colour channels'.
    pub fn new_alpha<A>(&self, a: A) -> (out: Bgra<T, A>)
        ensures
            cloned(self.b, out.b),
            cloned(self.g, out.g),
            cloned(self.r, out.r),
            out.a == a,
    {
        Bgra { b: self.b.clone(), g: self.g.clone(), r: self.r.clone(), a }
    }
}

} // verus!
