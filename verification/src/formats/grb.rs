use crate::pixel::het_pixel::HetPixel;
use crate::pixel::hom_pixel::HomPixel;
use crate::pixel::meta_traits::PixelComponent;
use vstd::prelude::*;

verus! {

/// A pixel of three colour channels, declared green, red, blue.
#[derive(Clone, Copy, Debug, PartialEq, Eq, Hash, Ord, Structural)]
pub struct Grb<T> {
    pub g: T,
    pub r: T,
    pub b: T,
}

impl<T> Grb<T> {
    /// A pixel from its channels in declared order.
    pub fn new_grb(g: T, r: T, b: T) -> (out: Self)
        ensures
            out == (Grb { g, r, b }),
    {
        Grb { g, r, b }
    }
}

impl<T: Default> Default for Grb<T> {
    /// Every channel is its type's default.
    fn default() -> (out: Self)
        ensures
            call_ensures(T::default, (), out.g),
            call_ensures(T::default, (), out.r),
            call_ensures(T::default, (), out.b),
    {
        Grb { g: T::default(), r: T::default(), b: T::default() }
    }
}

impl<T: PixelComponent> HetPixel for Grb<T> {
    type ColorComponent = T;

    type AlphaComponent = T;

    type ColorArray = [T; 3];

    const NUM_COMPONENTS: u8 = 3;

    const NUM_COLOR_COMPONENTS: u8 = 3;

    open spec fn num_components() -> nat {
        3
    }

    open spec fn num_color_components() -> nat {
        3
    }

    proof fn lemma_counts() {
    }

    open spec fn colors(self) -> Seq<T> {
        seq![self.g, self.r, self.b]
    }

    open spec fn opacity(self) -> Option<T> {
        None
    }

    proof fn lemma_shape(self) {
    }

    proof fn lemma_channels_determine(self, other: Self) {
        assert(self.g == self.colors()[0]);
        assert(self.r == self.colors()[1]);
        assert(self.b == self.colors()[2]);
    }

    fn color_array(&self) -> (out: [T; 3]) {
        let out = [self.g, self.r, self.b];
        assert(out@ =~= self.colors());
        out
    }

    fn alpha_opt(&self) -> (out: Option<T>) {
        None
    }

    fn alpha_opt_mut(&mut self) -> (out: Option<&mut T>) {
        None
    }

    fn try_from_colors_alpha(colors: [T; 3], alpha: Option<T>) -> (out: Option<Self>) {
        let out = Grb { g: colors[0], r: colors[1], b: colors[2] };
        assert(out.colors() =~= colors@.take(3));
        Some(out)
    }

    fn map_colors_same<F: FnMut(T) -> T>(&self, mut f: F) -> (out: Self) {
        assert(self.colors()[0] == self.g);
        assert(self.colors()[1] == self.r);
        assert(self.colors()[2] == self.b);
        let out = Grb { g: f(self.g), r: f(self.r), b: f(self.b) };
        assert(out.colors()[0] == out.g);
        assert(out.colors()[1] == out.r);
        assert(out.colors()[2] == out.b);
        out
    }

    fn map_alpha_same<F: FnMut(T) -> T>(&self, f: F) -> (out: Self) {
        *self
    }
}

impl<T: PixelComponent> HomPixel for Grb<T> {
    type ComponentArray = [T; 3];

    open spec fn components(self) -> Seq<T> {
        seq![self.g, self.r, self.b]
    }

    open spec fn from_flat(flat: Seq<T>) -> Self {
        Grb { g: flat[0], r: flat[1], b: flat[2] }
    }

    open spec fn alpha_leads() -> bool {
        false
    }

    proof fn lemma_layout(self) {
        assert(self.components() =~= self.colors());
    }

    proof fn lemma_from_flat(flat: Seq<T>) {
        assert(Self::from_flat(flat).components() =~= flat.take(3));
    }

    fn component_array(&self) -> (out: [T; 3]) {
        let out = [self.g, self.r, self.b];
        assert(out@ =~= self.components());
        out
    }

    fn component_mut(&mut self, i: usize) -> (out: &mut T) {
        if i == 0 {
            assert(forall|v: T|
                #[trigger] self.components().update(0, v) =~= (Grb { g: v, ..*self }).components());
            &mut self.g
        } else if i == 1 {
            assert(forall|v: T|
                #[trigger] self.components().update(1, v) =~= (Grb { r: v, ..*self }).components());
            &mut self.r
        } else {
            assert(forall|v: T|
                #[trigger] self.components().update(2, v) =~= (Grb { b: v, ..*self }).components());
            &mut self.b
        }
    }

    fn checked_component_mut(&mut self, i: usize) -> (out: Option<&mut T>) {
        if i < 3 {
            Some(self.component_mut(i))
        } else {
            None
        }
    }

    fn try_from_components(flat: &[T]) -> (out: Option<Self>) {
        if flat.len() >= 3 {
            Some(Grb { g: flat[0], r: flat[1], b: flat[2] })
        } else {
            None
        }
    }

    fn map_same<F: FnMut(T) -> T>(&self, mut f: F) -> (out: Self) {
        assert(self.components()[0] == self.g);
        assert(self.components()[1] == self.r);
        assert(self.components()[2] == self.b);
        let out = Grb { g: f(self.g), r: f(self.r), b: f(self.b) };
        assert(out.components()[0] == out.g);
        assert(out.components()[1] == out.r);
        assert(out.components()[2] == out.b);
        out
    }
}

impl<T: PixelComponent> Grb<T> {
    /// The flat view lists the fields in declared order, and to write one
    /// position of it is to write the field that stands there.
    pub proof fn lemma_flat_view(self, v: T)
        ensures
            self.components().len() == 3,
            self.components()[0] == self.g,
            self.components()[1] == self.r,
            self.components()[2] == self.b,
            self.components().update(0, v) == (Grb { g: v, r: self.r, b: self.b }).components(),
            self.components().update(1, v) == (Grb { g: self.g, r: v, b: self.b }).components(),
            self.components().update(2, v) == (Grb { g: self.g, r: self.r, b: v }).components(),
    {
        assert(self.components().update(0, v)
            =~= (Grb { g: v, r: self.r, b: self.b }).components());
        assert(self.components().update(1, v)
            =~= (Grb { g: self.g, r: v, b: self.b }).components());
        assert(self.components().update(2, v)
            =~= (Grb { g: self.g, r: self.r, b: v }).components());
    }
}

impl<T: Clone> Grb<T> {
    /// The channels, cloned one by one in declared order.
    pub fn iter(&self) -> (out: Vec<T>)
        ensures
            out@.len() == 3,
            cloned(self.g, out@[0]),
            cloned(self.r, out@[1]),
            cloned(self.b, out@[2]),
    {
        let mut out: Vec<T> = Vec::new();
        out.push(self.g.clone());
        out.push(self.r.clone());
        out.push(self.b.clone());
        out
    }
}

} // verus!
