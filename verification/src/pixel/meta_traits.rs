use crate::pixel::het_pixel::HetPixel;
use core::borrow::Borrow;
use core::ops::{Index, IndexMut};
use vstd::prelude::*;

verus! {

/// A scalar that can serve as a channel: it is copied freely and has a default
/// value. Nothing is asked of its range.
pub trait PixelComponent: Copy + Default {

}

impl<T: Copy + Default> PixelComponent for T {

}

/// A channel scalar that generic arithmetic can be written over: it can be
/// copied, compared and defaulted.
pub trait MathTraits: Copy + PartialOrd + Default {

}

impl<T> MathTraits for T where T: Copy + PartialOrd + Default {

}

/// A fixed-size container of channel values, returned where a trait hands out
/// "the N channels" of a pixel without naming N.
///
/// `elements` is what the container holds, first element first.
pub trait ArrayLike<T>: Copy + Index<usize, Output = T> + IndexMut<usize> + Borrow<
    [T],
> + IntoIterator {
    spec fn elements(&self) -> Seq<T>;

    /// The number of elements.
    fn count(&self) -> (n: usize)
        ensures
            n == self.elements().len(),
    ;

    /// The element at `i`. An index past the end is the caller's fault.
    fn at(&self, i: usize) -> (out: T)
        requires
            i < self.elements().len(),
        ensures
            out == self.elements()[i as int],
    ;

    /// The element at `i`, or `None` where `i` is past the end.
    fn checked_at(&self, i: usize) -> (out: Option<T>)
        ensures
            out == (if i < self.elements().len() {
                Some(self.elements()[i as int])
            } else {
                None
            }),
    ;
}

impl<T: PixelComponent, const N: usize> ArrayLike<T> for [T; N] {
    open spec fn elements(&self) -> Seq<T> {
        self@
    }

    fn count(&self) -> (n: usize) {
        N
    }

    fn at(&self, i: usize) -> (out: T) {
        self[i]
    }

    fn checked_at(&self, i: usize) -> (out: Option<T>) {
        if i < N {
            Some(self[i])
        } else {
            None
        }
    }
}

/// What a homogeneous pixel is built on: a pixel whose colour channels and
/// alpha channel share the one type `T`.
pub trait HomPixelSuper<T>: HetPixel<ColorComponent = T, AlphaComponent = T> {

}

impl<M, T> HomPixelSuper<T> for M where M: HetPixel<ColorComponent = T, AlphaComponent = T> {

}

/// What a heterogeneous pixel is built on: a plain value that is copied on
/// every operation.
pub trait HetPixelSuper<T, A>: Copy {

}

impl<M, T, A> HetPixelSuper<T, A> for M where M: Copy + Default {

}

} // verus!
