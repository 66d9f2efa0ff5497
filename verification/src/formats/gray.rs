use crate::pixel::het_pixel::HetPixel;
use crate::pixel::hom_pixel::HomPixel;
use crate::pixel::meta_traits::PixelComponent;
use vstd::prelude::*;

verus! {

/// A grayscale pixel: one channel, its brightness.
#[derive(Clone, Copy, Debug, PartialEq, Eq, Hash, Ord, Structural)]
pub struct Gray<T>(pub T);

impl<T> Gray<T> {
    /// A pixel from its channels in declared order.
    pub fn new(v: T) -> (out: Self)
        ensures
            out == (Gray(v)),
    {
        Gray(v)
    }
}

impl<T: Default> Default for Gray<T> {
    /// Every channel is its type's default.
    fn default() -> (out: Self)
        ensures
            call_ensures(T::default, (), out.0),
    {
        Gray(T::default())
    }
}

impl<T: PixelComponent> HetPixel for Gray<T> {
    type ColorComponent = T;

    type AlphaComponent = T;

    type ColorArray = [T; 1];

    const NUM_COMPONENTS: u8 = 1;

    const NUM_COLOR_COMPONENTS: u8 = 1;

    open spec fn num_components() -> nat {
        1
    }

    open spec fn num_color_components() -> nat {
        1
    }

    proof fn lemma_counts() {
    }

    open spec fn colors(self) -> Seq<T> {
        seq![self.0]
    }

    open spec fn opacity(self) -> Option<T> {
        None
    }

    proof fn lemma_shape(self) {
    }

    proof fn lemma_channels_determine(self, other: Self) {
        assert(self.0 == self.colors()[0]);
    }

    fn color_array(&self) -> (out: [T; 1]) {
        let out = [self.0];
        assert(out@ =~= self.colors());
        out
    }

    fn alpha_opt(&self) -> (out: Option<T>) {
        None
    }

    fn alpha_opt_mut(&mut self) -> (out: Option<&mut T>) {
        None
    }

    fn try_from_colors_alpha(colors: [T; 1], alpha: Option<T>) -> (out: Option<Self>) {
        let out = Gray(colors[0]);
        assert(out.colors() =~= colors@.take(1));
        Some(out)
    }

    fn map_colors_same<F: FnMut(T) -> T>(&self, mut f: F) -> (out: Self) {
        assert(self.colors()[0] == self.0);
        let out = Gray(f(self.0));
        assert(out.colors()[0] == out.0);
        out
    }

    fn map_alpha_same<F: FnMut(T) -> T>(&self, f: F) -> (out: Self) {
        *self
    }
}

impl<T: PixelComponent> HomPixel for Gray<T> {
    type ComponentArray = [T; 1];

    open spec fn components(self) -> Seq<T> {
        seq![self.0]
    }

    open spec fn from_flat(flat: Seq<T>) -> Self {
        Gray(flat[0])
    }

    open spec fn alpha_leads() -> bool {
        false
    }

    proof fn lemma_layout(self) {
        assert(self.components() =~= self.colors());
    }

    proof fn lemma_from_flat(flat: Seq<T>) {
        assert(Self::from_flat(flat).components() =~= flat.take(1));
    }

    fn component_array(&self) -> (out: [T; 1]) {
        let out = [self.0];
        assert(out@ =~= self.components());
        out
    }

    fn component_mut(&mut self, i: usize) -> (out: &mut T) {
        assert(forall|v: T|
            #[trigger] self.components().update(0, v) =~= (Gray(v)).components());
        &mut self.0
    }

    fn checked_component_mut(&mut self, i: usize) -> (out: Option<&mut T>) {
        if i < 1 {
            Some(self.component_mut(i))
        } else {
            None
        }
    }

    fn try_from_components(flat: &[T]) -> (out: Option<Self>) {
        if flat.len() >= 1 {
            Some(Gray(flat[0]))
        } else {
            None
        }
    }

    fn map_same<F: FnMut(T) -> T>(&self, mut f: F) -> (out: Self) {
        assert(self.components()[0] == self.0);
        let out = Gray(f(self.0));
        assert(out.components()[0] == out.0);
        out
    }
}

impl<T: PixelComponent> Gray<T> {
    /// The flat view lists the fields in declared order, and to write one
    /// position of it is to write the field that stands there.
    pub proof fn lemma_flat_view(self, v: T)
        ensures
            self.components().len() == 1,
            self.components()[0] == self.0,
            self.components().update(0, v) == (Gray(v)).components(),
    {
        assert(self.components().update(0, v) =~= (Gray(v)).components());
    }
}

} // verus!
