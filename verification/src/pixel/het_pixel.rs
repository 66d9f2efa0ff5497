use crate::pixel::meta_traits::{ArrayLike, PixelComponent};
use vstd::prelude::*;

verus! {

/// `f` may be called on every element of `src`.
pub open spec fn accepts<S, D, F: FnMut(S) -> D>(f: F, src: Seq<S>) -> bool {
    forall|i: int| 0 <= i < src.len() ==> call_requires(f, (#[trigger] src[i],))
}

/// `dst` is what `f` can return for `src`, element by element.
pub open spec fn mapped<S, D, F: FnMut(S) -> D>(f: F, src: Seq<S>, dst: Seq<D>) -> bool {
    &&& dst.len() == src.len()
    &&& forall|i: int| 0 <= i < src.len() ==> call_ensures(f, (src[i],), #[trigger] dst[i])
}

/// A pixel whose colour channels have one type and whose alpha channel, if it
/// has one, may have another.
///
/// The model of a pixel is the pair of `colors`, its colour channels in
/// declared field order, and `opacity`, its alpha channel. A type has an alpha
/// channel where `num_components` counts one more than
/// `num_color_components`.
pub trait HetPixel: Copy {
    /// The type of each colour channel.
    type ColorComponent: PixelComponent;

    /// The type of the alpha channel. A type without alpha names its colour
    /// type here, and no value of it is ever held.
    type AlphaComponent: PixelComponent;

    /// The array that holds the colour channels alone.
    type ColorArray: ArrayLike<Self::ColorComponent>;

    /// The number of channels, alpha included.
    const NUM_COMPONENTS: u8;

    /// The number of colour channels.
    const NUM_COLOR_COMPONENTS: u8;

    /// The number of channels, alpha included, as contracts speak of it.
    spec fn num_components() -> nat;

    /// The number of colour channels, as contracts speak of it.
    spec fn num_color_components() -> nat;

    /// The colour channels in declared field order.
    spec fn colors(self) -> Seq<Self::ColorComponent>;

    /// The alpha channel, or `None` for a type without one.
    spec fn opacity(self) -> Option<Self::AlphaComponent>;

    /// The two constants hold the channel counts.
    proof fn lemma_counts()
        ensures
            Self::NUM_COMPONENTS == Self::num_components(),
            Self::NUM_COLOR_COMPONENTS == Self::num_color_components(),
            Self::num_color_components() >= 1,
            Self::num_components() >= Self::num_color_components(),
    ;

    /// The channel counts describe every pixel of the type: it has
    /// `num_color_components` colour channels, and an alpha channel exactly
    /// where `num_components` counts one more.
    proof fn lemma_shape(self)
        ensures
            self.colors().len() == Self::num_color_components(),
            self.opacity() is Some ==> Self::num_components() == Self::num_color_components() + 1,
            self.opacity() is None ==> Self::num_components() == Self::num_color_components(),
    ;

    /// A pixel is nothing more than its channels.
    proof fn lemma_channels_determine(self, other: Self)
        requires
            self.colors() == other.colors(),
            self.opacity() == other.opacity(),
        ensures
            self == other,
    ;

    /// The colour channels in declared order.
    fn color_array(&self) -> (out: Self::ColorArray)
        ensures
            out.elements() == self.colors(),
    ;

    /// The alpha channel, or `None` for a type without one.
    fn alpha_opt(&self) -> (out: Option<Self::AlphaComponent>)
        ensures
            out == self.opacity(),
    ;

    /// The alpha channel borrowed in place: what is written through the
    /// reference becomes the pixel's alpha, and its colours stay.
    fn alpha_opt_mut(&mut self) -> (out: Option<&mut Self::AlphaComponent>)
        ensures
            match out {
                Some(a) => {
                    &&& old(self).opacity() == Some(*a)
                    &&& final(self).opacity() == Some(*final(a))
                    &&& final(self).colors() == old(self).colors()
                },
                None => old(self).opacity() is None && *final(self) == *old(self),
            },
    ;

    /// Builds a pixel from its colour channels and its alpha channel. A type
    /// with alpha needs one; a type without ignores what it is given.
    fn try_from_colors_alpha(
        colors: Self::ColorArray,
        alpha: Option<Self::AlphaComponent>,
    ) -> (out: Option<Self>)
        ensures
            out is Some <==> {
                &&& colors.elements().len() >= Self::num_color_components()
                &&& Self::num_components() > Self::num_color_components() ==> alpha is Some
            },
            out is Some ==> {
                &&& out.unwrap().colors() == colors.elements().take(
                    Self::num_color_components() as int,
                )
                &&& out.unwrap().opacity() == (if Self::num_components()
                    > Self::num_color_components() {
                    alpha
                } else {
                    None
                })
            },
    ;

    /// Applies `f` to each colour channel and keeps alpha.
    fn map_colors_same<F: FnMut(Self::ColorComponent) -> Self::ColorComponent>(
        &self,
        f: F,
    ) -> (out: Self)
        requires
            accepts(f, self.colors()),
        ensures
            mapped(f, self.colors(), out.colors()),
            out.opacity() == self.opacity(),
    ;

    /// Applies `f` to the alpha channel, if there is one, and keeps the colours.
    fn map_alpha_same<F: FnMut(Self::AlphaComponent) -> Self::AlphaComponent>(
        &self,
        f: F,
    ) -> (out: Self)
        requires
            self.opacity() is Some ==> call_requires(f, (self.opacity().unwrap(),)),
        ensures
            out.colors() == self.colors(),
            match self.opacity() {
                Some(a) => out.opacity() is Some && call_ensures(f, (a,), out.opacity().unwrap()),
                None => out.opacity() is None,
            },
    ;
}

/// A function that hands every value back maps a sequence to itself.
pub proof fn lemma_mapped_identity<S, F: FnMut(S) -> S>(f: F, src: Seq<S>, dst: Seq<S>)
    requires
        mapped(f, src, dst),
        forall|x: S, y: S| call_ensures(f, (x,), y) ==> y == x,
    ensures
        dst == src,
{
    assert(dst =~= src);
}

} // verus!
