use crate::formats::rgba::Rgba;
use crate::pixel::het_pixel::HetPixel;
use crate::pixel::hom_pixel::HomPixel;
use crate::pixel::meta_traits::PixelComponent;
use vstd::prelude::*;
use vstd::std_specs::iter::IteratorSpec;

verus! {

/// A pixel of three colour channels, declared red, green, blue.
#[derive(Clone, Copy, Debug, PartialEq, Eq, Hash, Ord, Structural)]
pub struct Rgb<T> {
    pub r: T,
    pub g: T,
    pub b: T,
}

impl<T> Rgb<T> {
    /// A pixel from its channels in declared order.
    pub fn new(r: T, g: T, b: T) -> (out: Self)
        ensures
            out == (Rgb { r, g, b }),
    {
        Rgb { r, g, b }
    }
}

impl<T: Default> Default for Rgb<T> {
    /// Every channel is its type's default.
    fn default() -> (out: Self)
        ensures
            call_ensures(T::default, (), out.r),
            call_ensures(T::default, (), out.g),
            call_ensures(T::default, (), out.b),
    {
        Rgb { r: T::default(), g: T::default(), b: T::default() }
    }
}

impl<T: PixelComponent> HetPixel for Rgb<T> {
    type ColorComponent = T;

    type AlphaComponent = T;

    type ColorArray = [T; 3];

    const NUM_COMPONENTS: u8 = 3;

    const NUM_COLOR_COMPONENTS: u8 = 3;

    open spec fn num_components() -> nat {
        3
    }

    open spec fn num_color_components() -> nat {
        3
    }

    proof fn lemma_counts() {
    }

    open spec fn colors(self) -> Seq<T> {
        seq![self.r, self.g, self.b]
    }

    open spec fn opacity(self) -> Option<T> {
        None
    }

    proof fn lemma_shape(self) {
    }

    proof fn lemma_channels_determine(self, other: Self) {
        assert(self.r == self.colors()[0]);
        assert(self.g == self.colors()[1]);
        assert(self.b == self.colors()[2]);
    }

    fn color_array(&self) -> (out: [T; 3]) {
        let out = [self.r, self.g, self.b];
        assert(out@ =~= self.colors());
        out
    }

    fn alpha_opt(&self) -> (out: Option<T>) {
        None
    }

    fn alpha_opt_mut(&mut self) -> (out: Option<&mut T>) {
        None
    }

    fn try_from_colors_alpha(colors: [T; 3], alpha: Option<T>) -> (out: Option<Self>) {
        let out = Rgb { r: colors[0], g: colors[1], b: colors[2] };
        assert(out.colors() =~= colors@.take(3));
        Some(out)
    }

    fn map_colors_same<F: FnMut(T) -> T>(&self, mut f: F) -> (out: Self) {
        assert(self.colors()[0] == self.r);
        assert(self.colors()[1] == self.g);
        assert(self.colors()[2] == self.b);
        let out = Rgb { r: f(self.r), g: f(self.g), b: f(self.b) };
        assert(out.colors()[0] == out.r);
        assert(out.colors()[1] == out.g);
        assert(out.colors()[2] == out.b);
        out
    }

    fn map_alpha_same<F: FnMut(T) -> T>(&self, f: F) -> (out: Self) {
        *self
    }
}

impl<T: PixelComponent> HomPixel for Rgb<T> {
    type ComponentArray = [T; 3];

    open spec fn components(self) -> Seq<T> {
        seq![self.r, self.g, self.b]
    }

    open spec fn from_flat(flat: Seq<T>) -> Self {
        Rgb { r: flat[0], g: flat[1], b: flat[2] }
    }

    open spec fn alpha_leads() -> bool {
        false
    }

    proof fn lemma_layout(self) {
        assert(self.components() =~= self.colors());
    }

    proof fn lemma_from_flat(flat: Seq<T>) {
        assert(Self::from_flat(flat).components() =~= flat.take(3));
    }

    fn component_array(&self) -> (out: [T; 3]) {
        let out = [self.r, self.g, self.b];
        assert(out@ =~= self.components());
        out
    }

    fn component_mut(&mut self, i: usize) -> (out: &mut T) {
        if i == 0 {
            assert(forall|v: T|
                #[trigger] self.components().update(0, v) =~= (Rgb { r: v, ..*self }).components());
            &mut self.r
        } else if i == 1 {
            assert(forall|v: T|
                #[trigger] self.components().update(1, v) =~= (Rgb { g: v, ..*self }).components());
            &mut self.g
        } else {
            assert(forall|v: T|
                #[trigger] self.components().update(2, v) =~= (Rgb { b: v, ..*self }).components());
            &mut self.b
        }
    }

    fn checked_component_mut(&mut self, i: usize) -> (out: Option<&mut T>) {
        if i < 3 {
            Some(self.component_mut(i))
        } else {
            None
        }
    }

    fn try_from_components(flat: &[T]) -> (out: Option<Self>) {
        if flat.len() >= 3 {
            Some(Rgb { r: flat[0], g: flat[1], b: flat[2] })
        } else {
            None
        }
    }

    fn map_same<F: FnMut(T) -> T>(&self, mut f: F) -> (out: Self) {
        assert(self.components()[0] == self.r);
        assert(self.components()[1] == self.g);
        assert(self.components()[2] == self.b);
        let out = Rgb { r: f(self.r), g: f(self.g), b: f(self.b) };
        assert(out.components()[0] == out.r);
        assert(out.components()[1] == out.g);
        assert(out.components()[2] == out.b);
        out
    }
}

impl<T: PixelComponent> Rgb<T> {
    /// The flat view lists the fields in declared order, and to write one
    /// position of it is to write the field that stands there.
    pub proof fn lemma_flat_view(self, v: T)
        ensures
            self.components().len() == 3,
            self.components()[0] == self.r,
            self.components()[1] == self.g,
            self.components()[2] == self.b,
            self.components().update(0, v) == (Rgb { r: v, g: self.g, b: self.b }).components(),
            self.components().update(1, v) == (Rgb { r: self.r, g: v, b: self.b }).components(),
            self.components().update(2, v) == (Rgb { r: self.r, g: self.g, b: v }).components(),
    {
        assert(self.components().update(0, v)
            =~= (Rgb { r: v, g: self.g, b: self.b }).components());
        assert(self.components().update(1, v)
            =~= (Rgb { r: self.r, g: v, b: self.b }).components());
        assert(self.components().update(2, v)
            =~= (Rgb { r: self.r, g: self.g, b: v }).components());
    }
}

impl<T: Clone> Rgb<T> {
    /// The channels, cloned one by one in declared order.
    pub fn iter(&self) -> (out: Vec<T>)
        ensures
            out@.len() == 3,
            cloned(self.r, out@[0]),
            cloned(self.g, out@[1]),
            cloned(self.b, out@[2]),
    {
        let mut out: Vec<T> = Vec::new();
        out.push(self.r.clone());
        out.push(self.g.clone());
        out.push(self.b.clone());
        out
    }

    /// The same colour with the alpha value `a`: another name of `with_alpha`.
    pub fn alpha(&self, a: T) -> (out: Rgba<T>)
        ensures
            cloned(self.r, out.r),
            cloned(self.g, out.g),
            cloned(self.b, out.b),
            out.a == a,
    {
        self.with_alpha(a)
    }

    /// The same colour with the alpha value `a`.
    pub fn with_alpha(&self, a: T) -> (out: Rgba<T>)
        ensures
            cloned(self.r, out.r),
            cloned(self.g, out.g),
            cloned(self.b, out.b),
            out.a == a,
    {
        Rgba { r: self.r.clone(), g: self.g.clone(), b: self.b.clone(), a }
    }

    /// The same colour with the alpha value `a`, whose type may differ from
    /// the colour channels'.
    pub fn new_alpha<A>(&self, a: A) -> (out: Rgba<T, A>)
        ensures
            cloned(self.r, out.r),
            cloned(self.g, out.g),
            cloned(self.b, out.b),
            out.a == a,
    {
        Rgba { r: self.r.clone(), g: self.g.clone(), b: self.b.clone(), a }
    }
}

impl<T> Rgb<T> {
    /// A pixel from the next three items of `iter`, in declared order. The
    /// iterator is advanced by exactly these three and can be used further.
    /// An iterator that ends before the third is the caller's fault.
    pub fn from_iter_mut<I: Iterator<Item = T>>(iter: &mut I) -> (out: Self)
        requires
            (*old(iter)).obeys_prophetic_iter_laws(),
            (*old(iter)).remaining().len() >= 3,
        ensures
            out == (Rgb {
                r: (*old(iter)).remaining()[0],
                g: (*old(iter)).remaining()[1],
                b: (*old(iter)).remaining()[2],
            }),
            (*final(iter)).obeys_prophetic_iter_laws(),
            (*final(iter)).remaining() == (*old(iter)).remaining().skip(3),
    {
        let ghost all = (*iter).remaining();
        let r = iter.next().unwrap();
        assert((*iter).remaining() =~= all.skip(1));
        let g = iter.next().unwrap();
        assert((*iter).remaining() =~= all.skip(2));
        let b = iter.next().unwrap();
        assert((*iter).remaining() =~= all.skip(3));
        Rgb { r, g, b }
    }

    /// A pixel from the first three items of `iter`, in declared order; what
    /// follows them is dropped with the iterator. An iterator that ends
    /// before the third is the caller's fault.
    pub fn from_iter<I: Iterator<Item = T>>(iter: I) -> (out: Self)
        requires
            iter.obeys_prophetic_iter_laws(),
            iter.remaining().len() >= 3,
        ensures
            out == (Rgb { r: iter.remaining()[0], g: iter.remaining()[1], b: iter.remaining()[2] }),
    {
        let mut iter = iter;
        Self::from_iter_mut(&mut iter)
    }
}

} // verus!
