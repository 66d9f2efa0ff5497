//! Per-channel transforms that may change the channel type: `map` over every
//! channel of a homogeneous pixel, `map_c` over the colour channels alone.
//!
//! Each transform reads every source channel once, calls the function on it,
//! and builds a new pixel; the source is left as it was.
use crate::formats::abgr::Abgr;
use crate::formats::argb::Argb;
use crate::formats::bgr::Bgr;
use crate::formats::bgra::Bgra;
use crate::formats::gray::Gray;
use crate::formats::gray_alpha::GrayAlpha;
use crate::formats::grb::Grb;
use crate::formats::rgb::Rgb;
use crate::formats::rgba::Rgba;
use crate::pixel::het_pixel::{accepts, lemma_mapped_identity, mapped, HetPixel};
use crate::pixel::hom_pixel::{lemma_flat_determines, HomPixel};
use crate::pixel::meta_traits::PixelComponent;
use vstd::prelude::*;

verus! {

/// Applying one function to every channel, alpha included. The result has the
/// shape of the source, and at each position of its flat view what the function
/// returned for the channel that stands there in the source.
pub trait ComponentMap<DestPixel, SrcComponent, DestComponent>: HomPixel<
    ColorComponent = SrcComponent,
> where DestPixel: HomPixel<ColorComponent = DestComponent> {
    fn map<Callback: FnMut(SrcComponent) -> DestComponent>(&self, f: Callback) -> (out: DestPixel)
        requires
            accepts(f, self.components()),
        ensures
            mapped(f, self.components(), out.components()),
    ;
}

/// Applying one function to the colour channels and to them alone: the alpha
/// channel of a pixel that has one is carried over as it is.
pub trait ColorComponentMap<DestPixel, SrcComponent, DestComponent>: HetPixel<
    ColorComponent = SrcComponent,
> where DestPixel: HetPixel<ColorComponent = DestComponent> {
    /// `dest` has the alpha channel of `self`, or neither has one.
    spec fn alpha_carried(&self, dest: DestPixel) -> bool;

    fn map_c<Callback: FnMut(SrcComponent) -> DestComponent>(&self, f: Callback) -> (out: DestPixel)
        requires
            accepts(f, self.colors()),
        ensures
            mapped(f, self.colors(), out.colors()),
            self.alpha_carried(out),
    ;
}

impl<T: PixelComponent, B: PixelComponent> ComponentMap<Rgb<B>, T, B> for Rgb<T> {
    fn map<Callback: FnMut(T) -> B>(&self, mut f: Callback) -> (out: Rgb<B>) {
        assert(self.components()[0] == self.r);
        assert(self.components()[1] == self.g);
        assert(self.components()[2] == self.b);
        let out = Rgb { r: f(self.r), g: f(self.g), b: f(self.b) };
        assert(out.components()[0] == out.r);
        assert(out.components()[1] == out.g);
        assert(out.components()[2] == out.b);
        out
    }
}

impl<T: PixelComponent, B: PixelComponent> ColorComponentMap<Rgb<B>, T, B> for Rgb<T> {
    open spec fn alpha_carried(&self, dest: Rgb<B>) -> bool {
        true
    }

    fn map_c<Callback: FnMut(T) -> B>(&self, mut f: Callback) -> (out: Rgb<B>) {
        assert(self.colors()[0] == self.r);
        assert(self.colors()[1] == self.g);
        assert(self.colors()[2] == self.b);
        let out = Rgb { r: f(self.r), g: f(self.g), b: f(self.b) };
        assert(out.colors()[0] == out.r);
        assert(out.colors()[1] == out.g);
        assert(out.colors()[2] == out.b);
        out
    }
}

impl<T: PixelComponent, B: PixelComponent> ComponentMap<Bgr<B>, T, B> for Bgr<T> {
    fn map<Callback: FnMut(T) -> B>(&self, mut f: Callback) -> (out: Bgr<B>) {
        assert(self.components()[0] == self.b);
        assert(self.components()[1] == self.g);
        assert(self.components()[2] == self.r);
        let out = Bgr { b: f(self.b), g: f(self.g), r: f(self.r) };
        assert(out.components()[0] == out.b);
        assert(out.components()[1] == out.g);
        assert(out.components()[2] == out.r);
        out
    }
}

impl<T: PixelComponent, B: PixelComponent> ColorComponentMap<Bgr<B>, T, B> for Bgr<T> {
    open spec fn alpha_carried(&self, dest: Bgr<B>) -> bool {
        true
    }

    fn map_c<Callback: FnMut(T) -> B>(&self, mut f: Callback) -> (out: Bgr<B>) {
        assert(self.colors()[0] == self.b);
        assert(self.colors()[1] == self.g);
        assert(self.colors()[2] == self.r);
        let out = Bgr { b: f(self.b), g: f(self.g), r: f(self.r) };
        assert(out.colors()[0] == out.b);
        assert(out.colors()[1] == out.g);
        assert(out.colors()[2] == out.r);
        out
    }
}

impl<T: PixelComponent, B: PixelComponent> ComponentMap<Grb<B>, T, B> for Grb<T> {
    fn map<Callback: FnMut(T) -> B>(&self, mut f: Callback) -> (out: Grb<B>) {
        assert(self.components()[0] == self.g);
        assert(self.components()[1] == self.r);
        assert(self.components()[2] == self.b);
        let out = Grb { g: f(self.g), r: f(self.r), b: f(self.b) };
        assert(out.components()[0] == out.g);
        assert(out.components()[1] == out.r);
        assert(out.components()[2] == out.b);
        out
    }
}

impl<T: PixelComponent, B: PixelComponent> ColorComponentMap<Grb<B>, T, B> for Grb<T> {
    open spec fn alpha_carried(&self, dest: Grb<B>) -> bool {
        true
    }

    fn map_c<Callback: FnMut(T) -> B>(&self, mut f: Callback) -> (out: Grb<B>) {
        assert(self.colors()[0] == self.g);
        assert(self.colors()[1] == self.r);
        assert(self.colors()[2] == self.b);
        let out = Grb { g: f(self.g), r: f(self.r), b: f(self.b) };
        assert(out.colors()[0] == out.g);
        assert(out.colors()[1] == out.r);
        assert(out.colors()[2] == out.b);
        out
    }
}

impl<T: PixelComponent, B: PixelComponent> ComponentMap<Rgba<B>, T, B> for Rgba<T> {
    fn map<Callback: FnMut(T) -> B>(&self, mut f: Callback) -> (out: Rgba<B>) {
        assert(self.components()[0] == self.r);
        assert(self.components()[1] == self.g);
        assert(self.components()[2] == self.b);
        assert(self.components()[3] == self.a);
        let out = Rgba { r: f(self.r), g: f(self.g), b: f(self.b), a: f(self.a) };
        assert(out.components()[0] == out.r);
        assert(out.components()[1] == out.g);
        assert(out.components()[2] == out.b);
        assert(out.components()[3] == out.a);
        out
    }
}

impl<T: PixelComponent, A: PixelComponent, B: PixelComponent> ColorComponentMap<
    Rgba<B, A>,
    T,
    B,
> for Rgba<T, A> {
    open spec fn alpha_carried(&self, dest: Rgba<B, A>) -> bool {
        dest.a == self.a
    }

    fn map_c<Callback: FnMut(T) -> B>(&self, mut f: Callback) -> (out: Rgba<B, A>) {
        assert(self.colors()[0] == self.r);
        assert(self.colors()[1] == self.g);
        assert(self.colors()[2] == self.b);
        let out = Rgba { r: f(self.r), g: f(self.g), b: f(self.b), a: self.a };
        assert(out.colors()[0] == out.r);
        assert(out.colors()[1] == out.g);
        assert(out.colors()[2] == out.b);
        out
    }
}

impl<T: PixelComponent, B: PixelComponent> ComponentMap<Bgra<B>, T, B> for Bgra<T> {
    fn map<Callback: FnMut(T) -> B>(&self, mut f: Callback) -> (out: Bgra<B>) {
        assert(self.components()[0] == self.b);
        assert(self.components()[1] == self.g);
        assert(self.components()[2] == self.r);
        assert(self.components()[3] == self.a);
        let out = Bgra { b: f(self.b), g: f(self.g), r: f(self.r), a: f(self.a) };
        assert(out.components()[0] == out.b);
        assert(out.components()[1] == out.g);
        assert(out.components()[2] == out.r);
        assert(out.components()[3] == out.a);
        out
    }
}

impl<T: PixelComponent, A: PixelComponent, B: PixelComponent> ColorComponentMap<
    Bgra<B, A>,
    T,
    B,
> for Bgra<T, A> {
    open spec fn alpha_carried(&self, dest: Bgra<B, A>) -> bool {
        dest.a == self.a
    }

    fn map_c<Callback: FnMut(T) -> B>(&self, mut f: Callback) -> (out: Bgra<B, A>) {
        assert(self.colors()[0] == self.b);
        assert(self.colors()[1] == self.g);
        assert(self.colors()[2] == self.r);
        let out = Bgra { b: f(self.b), g: f(self.g), r: f(self.r), a: self.a };
        assert(out.colors()[0] == out.b);
        assert(out.colors()[1] == out.g);
        assert(out.colors()[2] == out.r);
        out
    }
}

impl<T: PixelComponent, B: PixelComponent> ComponentMap<Argb<B>, T, B> for Argb<T> {
    fn map<Callback: FnMut(T) -> B>(&self, mut f: Callback) -> (out: Argb<B>) {
        assert(self.components()[0] == self.a);
        assert(self.components()[1] == self.r);
        assert(self.components()[2] == self.g);
        assert(self.components()[3] == self.b);
        let out = Argb { a: f(self.a), r: f(self.r), g: f(self.g), b: f(self.b) };
        assert(out.components()[0] == out.a);
        assert(out.components()[1] == out.r);
        assert(out.components()[2] == out.g);
        assert(out.components()[3] == out.b);
        out
    }
}

impl<T: PixelComponent, A: PixelComponent, B: PixelComponent> ColorComponentMap<
    Argb<B, A>,
    T,
    B,
> for Argb<T, A> {
    open spec fn alpha_carried(&self, dest: Argb<B, A>) -> bool {
        dest.a == self.a
    }

    fn map_c<Callback: FnMut(T) -> B>(&self, mut f: Callback) -> (out: Argb<B, A>) {
        assert(self.colors()[0] == self.r);
        assert(self.colors()[1] == self.g);
        assert(self.colors()[2] == self.b);
        let out = Argb { a: self.a, r: f(self.r), g: f(self.g), b: f(self.b) };
        assert(out.colors()[0] == out.r);
        assert(out.colors()[1] == out.g);
        assert(out.colors()[2] == out.b);
        out
    }
}

impl<T: PixelComponent, B: PixelComponent> ComponentMap<Abgr<B>, T, B> for Abgr<T> {
    fn map<Callback: FnMut(T) -> B>(&self, mut f: Callback) -> (out: Abgr<B>) {
        assert(self.components()[0] == self.a);
        assert(self.components()[1] == self.b);
        assert(self.components()[2] == self.g);
        assert(self.components()[3] == self.r);
        let out = Abgr { a: f(self.a), b: f(self.b), g: f(self.g), r: f(self.r) };
        assert(out.components()[0] == out.a);
        assert(out.components()[1] == out.b);
        assert(out.components()[2] == out.g);
        assert(out.components()[3] == out.r);
        out
    }
}

impl<T: PixelComponent, A: PixelComponent, B: PixelComponent> ColorComponentMap<
    Abgr<B, A>,
    T,
    B,
> for Abgr<T, A> {
    open spec fn alpha_carried(&self, dest: Abgr<B, A>) -> bool {
        dest.a == self.a
    }

    fn map_c<Callback: FnMut(T) -> B>(&self, mut f: Callback) -> (out: Abgr<B, A>) {
        assert(self.colors()[0] == self.b);
        assert(self.colors()[1] == self.g);
        assert(self.colors()[2] == self.r);
        let out = Abgr { a: self.a, b: f(self.b), g: f(self.g), r: f(self.r) };
        assert(out.colors()[0] == out.b);
        assert(out.colors()[1] == out.g);
        assert(out.colors()[2] == out.r);
        out
    }
}

impl<T: PixelComponent, B: PixelComponent> ComponentMap<Gray<B>, T, B> for Gray<T> {
    fn map<Callback: FnMut(T) -> B>(&self, mut f: Callback) -> (out: Gray<B>) {
        assert(self.components()[0] == self.0);
        let out = Gray(f(self.0));
        assert(out.components()[0] == out.0);
        out
    }
}

impl<T: PixelComponent, B: PixelComponent> ColorComponentMap<Gray<B>, T, B> for Gray<T> {
    open spec fn alpha_carried(&self, dest: Gray<B>) -> bool {
        true
    }

    fn map_c<Callback: FnMut(T) -> B>(&self, mut f: Callback) -> (out: Gray<B>) {
        assert(self.colors()[0] == self.0);
        let out = Gray(f(self.0));
        assert(out.colors()[0] == out.0);
        out
    }
}

impl<T: PixelComponent, B: PixelComponent> ComponentMap<GrayAlpha<B>, T, B> for GrayAlpha<T> {
    fn map<Callback: FnMut(T) -> B>(&self, mut f: Callback) -> (out: GrayAlpha<B>) {
        assert(self.components()[0] == self.0);
        assert(self.components()[1] == self.1);
        let out = GrayAlpha(f(self.0), f(self.1));
        assert(out.components()[0] == out.0);
        assert(out.components()[1] == out.1);
        out
    }
}

impl<T: PixelComponent, A: PixelComponent, B: PixelComponent> ColorComponentMap<
    GrayAlpha<B, A>,
    T,
    B,
> for GrayAlpha<T, A> {
    open spec fn alpha_carried(&self, dest: GrayAlpha<B, A>) -> bool {
        dest.1 == self.1
    }

    fn map_c<Callback: FnMut(T) -> B>(&self, mut f: Callback) -> (out: GrayAlpha<B, A>) {
        assert(self.colors()[0] == self.0);
        let out = GrayAlpha(f(self.0), self.1);
        assert(out.colors()[0] == out.0);
        out
    }
}

/// Mapping with a function that hands every value back gives the pixel back:
/// whatever `map` or `map_same` returns for such a function is the source.
pub proof fn lemma_map_identity<P: HomPixel, F: FnMut(P::ColorComponent) -> P::ColorComponent>(
    p: P,
    f: F,
    out: P,
)
    requires
        mapped(f, p.components(), out.components()),
        forall|x: P::ColorComponent, y: P::ColorComponent| call_ensures(f, (x,), y) ==> y == x,
    ensures
        out == p,
{
    lemma_mapped_identity(f, p.components(), out.components());
    lemma_flat_determines(out, p);
}

/// `map_alpha` hands `f` a clone of the alpha value. Where a clone of that
/// value is the value, which is so for every `Copy` type whose `Clone` is
/// derived, the new alpha is what `f` returns for the alpha of the source.
pub proof fn lemma_map_alpha_of_alpha<A: Clone, B, F: FnOnce(A) -> B>(alpha: A, f: F, out: B)
    requires
        exists|a: A| cloned(alpha, a) && call_ensures(f, (a,), out),
        forall|a: A| cloned(alpha, a) ==> a == alpha,
    ensures
        call_ensures(f, (alpha,), out),
{
}

/// Mapping the colour channels with a function that hands every value back
/// gives the pixel back, alpha included.
pub proof fn lemma_map_colors_identity<
    P: HetPixel,
    F: FnMut(P::ColorComponent) -> P::ColorComponent,
>(
    p: P,
    f: F,
    out: P,
)
    requires
        mapped(f, p.colors(), out.colors()),
        out.opacity() == p.opacity(),
        forall|x: P::ColorComponent, y: P::ColorComponent| call_ensures(f, (x,), y) ==> y == x,
    ensures
        out == p,
{
    lemma_mapped_identity(f, p.colors(), out.colors());
    out.lemma_channels_determine(p);
}

} // verus!
