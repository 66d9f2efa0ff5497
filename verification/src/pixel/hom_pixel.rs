use crate::pixel::het_pixel::{accepts, mapped, HetPixel};
use crate::pixel::meta_traits::ArrayLike;
use vstd::prelude::*;

verus! {

/// A pixel all of whose channels, alpha included, have one type.
///
/// Its model is `components`, the flat view: every channel in declared field
/// order, with no gap.
pub trait HomPixel: HetPixel<AlphaComponent = <Self as HetPixel>::ColorComponent> {
    /// The array that holds all channels.
    type ComponentArray: ArrayLike<Self::ColorComponent>;

    /// The flat view: every channel in declared field order.
    spec fn components(self) -> Seq<Self::ColorComponent>;

    /// The pixel whose flat view is the first `num_components` elements of `flat`.
    spec fn from_flat(flat: Seq<Self::ColorComponent>) -> Self;

    /// Whether alpha is declared before the colour channels.
    spec fn alpha_leads() -> bool;

    /// The flat view holds the colour channels in their order, with alpha, if
    /// there is one, after them or before them.
    proof fn lemma_layout(self)
        ensures
            self.components().len() == Self::num_components(),
            self.components() == (match self.opacity() {
                Some(a) => if Self::alpha_leads() {
                    seq![a] + self.colors()
                } else {
                    self.colors().push(a)
                },
                None => self.colors(),
            }),
    ;

    /// `from_flat` reads the channels back in the order in which the flat view
    /// lists them.
    proof fn lemma_from_flat(flat: Seq<Self::ColorComponent>)
        requires
            flat.len() >= Self::num_components(),
        ensures
            Self::from_flat(flat).components() == flat.take(Self::num_components() as int),
    ;

    /// All channels in declared order.
    fn component_array(&self) -> (out: Self::ComponentArray)
        ensures
            out.elements() == self.components(),
    ;

    /// The channel at position `i` of the flat view, borrowed in place: what
    /// is written through the reference becomes that channel, and the others
    /// stay. A position past the last channel is the caller's fault; a caller
    /// that cannot rule it out asks `checked_component_mut`.
    fn component_mut(&mut self, i: usize) -> (out: &mut Self::ColorComponent)
        requires
            i < Self::num_components(),
        ensures
            *out == old(self).components()[i as int],
            final(self).components() == old(self).components().update(i as int, *final(out)),
    ;

    /// The channel at position `i` of the flat view, borrowed in place as
    /// `component_mut` lends it, or `None` where `i` is past the last channel;
    /// the pixel is then left as it is.
    fn checked_component_mut(&mut self, i: usize) -> (out: Option<&mut Self::ColorComponent>)
        ensures
            match out {
                Some(c) => {
                    &&& i < Self::num_components()
                    &&& *c == old(self).components()[i as int]
                    &&& final(self).components() == old(self).components().update(
                        i as int,
                        *final(c),
                    )
                },
                None => i >= Self::num_components() && *final(self) == *old(self),
            },
    ;

    /// Builds a pixel from the first `num_components` elements of `flat`, or
    /// `None` where `flat` is shorter than that.
    fn try_from_components(flat: &[Self::ColorComponent]) -> (out: Option<Self>)
        ensures
            out == (if flat@.len() >= Self::num_components() {
                Some(Self::from_flat(flat@))
            } else {
                None
            }),
    ;

    /// Applies `f` to every channel, alpha included.
    fn map_same<F: FnMut(Self::ColorComponent) -> Self::ColorComponent>(&self, f: F) -> (out: Self)
        requires
            accepts(f, self.components()),
        ensures
            mapped(f, self.components(), out.components()),
    ;
}

/// Two pixels with the same flat view are the same pixel.
pub proof fn lemma_flat_determines<P: HomPixel>(p: P, q: P)
    requires
        p.components() == q.components(),
    ensures
        p == q,
{
    P::lemma_counts();
    p.lemma_shape();
    q.lemma_shape();
    p.lemma_layout();
    q.lemma_layout();
    match (p.opacity(), q.opacity()) {
        (Some(a), Some(b)) => {
            if P::alpha_leads() {
                assert(p.colors() =~= p.components().skip(1));
                assert(q.colors() =~= q.components().skip(1));
                assert(a == p.components()[0]);
                assert(b == q.components()[0]);
            } else {
                assert(p.colors() =~= p.components().drop_last());
                assert(q.colors() =~= q.components().drop_last());
                assert(a == p.components().last());
                assert(b == q.components().last());
            }
        },
        (None, None) => {},
        _ => {},
    }
    p.lemma_channels_determine(q);
}

/// Reading the flat view of a pixel and building a pixel from it gives the
/// pixel back.
pub proof fn lemma_round_trip<P: HomPixel>(p: P)
    ensures
        P::from_flat(p.components()) == p,
{
    p.lemma_layout();
    P::lemma_from_flat(p.components());
    assert(p.components().take(P::num_components() as int) =~= p.components());
    lemma_flat_determines(P::from_flat(p.components()), p);
}

} // verus!
