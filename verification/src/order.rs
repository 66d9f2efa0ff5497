//! The order of pixels: lexicographic over the channels in declared field
//! order, the first channel weighing most.
use crate::formats::abgr::Abgr;
use crate::formats::argb::Argb;
use crate::formats::bgr::Bgr;
use crate::formats::bgra::Bgra;
use crate::formats::gray::Gray;
use crate::formats::gray_alpha::GrayAlpha;
use crate::formats::grb::Grb;
use crate::formats::rgb::Rgb;
use crate::formats::rgba::Rgba;
use core::cmp::Ordering;
use vstd::prelude::*;
use vstd::std_specs::cmp::{PartialOrdSpec, PartialOrdSpecImpl};

pub mod lemmas;

verus! {

/// Two comparisons in a row: the first decides unless it finds its operands
/// equal, and then the second does.
pub open spec fn then_with(first: Option<Ordering>, rest: Option<Ordering>) -> Option<Ordering> {
    match first {
        Some(Ordering::Equal) => rest,
        _ => first,
    }
}

impl<T: PartialOrd> PartialOrd for Rgb<T> {
    fn partial_cmp(&self, other: &Self) -> (out: Option<Ordering>) {
        match self.r.partial_cmp(&other.r) {
            Some(Ordering::Equal) => match self.g.partial_cmp(&other.g) {
                Some(Ordering::Equal) => self.b.partial_cmp(&other.b),
                decided => decided,
            },
            decided => decided,
        }
    }
}

impl<T: PartialOrd> PartialOrdSpecImpl for Rgb<T> {
    open spec fn obeys_partial_cmp_spec() -> bool {
        T::obeys_partial_cmp_spec()
    }

    open spec fn partial_cmp_spec(&self, other: &Self) -> Option<Ordering> {
        then_with(
            self.r.partial_cmp_spec(&other.r),
            then_with(self.g.partial_cmp_spec(&other.g), self.b.partial_cmp_spec(&other.b)),
        )
    }
}

impl<T: PartialOrd> PartialOrd for Bgr<T> {
    fn partial_cmp(&self, other: &Self) -> (out: Option<Ordering>) {
        match self.b.partial_cmp(&other.b) {
            Some(Ordering::Equal) => match self.g.partial_cmp(&other.g) {
                Some(Ordering::Equal) => self.r.partial_cmp(&other.r),
                decided => decided,
            },
            decided => decided,
        }
    }
}

impl<T: PartialOrd> PartialOrdSpecImpl for Bgr<T> {
    open spec fn obeys_partial_cmp_spec() -> bool {
        T::obeys_partial_cmp_spec()
    }

    open spec fn partial_cmp_spec(&self, other: &Self) -> Option<Ordering> {
        then_with(
            self.b.partial_cmp_spec(&other.b),
            then_with(self.g.partial_cmp_spec(&other.g), self.r.partial_cmp_spec(&other.r)),
        )
    }
}

impl<T: PartialOrd> PartialOrd for Grb<T> {
    fn partial_cmp(&self, other: &Self) -> (out: Option<Ordering>) {
        match self.g.partial_cmp(&other.g) {
            Some(Ordering::Equal) => match self.r.partial_cmp(&other.r) {
                Some(Ordering::Equal) => self.b.partial_cmp(&other.b),
                decided => decided,
            },
            decided => decided,
        }
    }
}

impl<T: PartialOrd> PartialOrdSpecImpl for Grb<T> {
    open spec fn obeys_partial_cmp_spec() -> bool {
        T::obeys_partial_cmp_spec()
    }

    open spec fn partial_cmp_spec(&self, other: &Self) -> Option<Ordering> {
        then_with(
            self.g.partial_cmp_spec(&other.g),
            then_with(self.r.partial_cmp_spec(&other.r), self.b.partial_cmp_spec(&other.b)),
        )
    }
}

impl<T: PartialOrd, A: PartialOrd> PartialOrd for Rgba<T, A> {
    fn partial_cmp(&self, other: &Self) -> (out: Option<Ordering>) {
        match self.r.partial_cmp(&other.r) {
            Some(Ordering::Equal) => match self.g.partial_cmp(&other.g) {
                Some(Ordering::Equal) => match self.b.partial_cmp(&other.b) {
                    Some(Ordering::Equal) => self.a.partial_cmp(&other.a),
                    decided => decided,
                },
                decided => decided,
            },
            decided => decided,
        }
    }
}

impl<T: PartialOrd, A: PartialOrd> PartialOrdSpecImpl for Rgba<T, A> {
    open spec fn obeys_partial_cmp_spec() -> bool {
        T::obeys_partial_cmp_spec() && A::obeys_partial_cmp_spec()
    }

    open spec fn partial_cmp_spec(&self, other: &Self) -> Option<Ordering> {
        then_with(
            self.r.partial_cmp_spec(&other.r),
            then_with(
                self.g.partial_cmp_spec(&other.g),
                then_with(self.b.partial_cmp_spec(&other.b), self.a.partial_cmp_spec(&other.a)),
            ),
        )
    }
}

impl<T: PartialOrd, A: PartialOrd> PartialOrd for Bgra<T, A> {
    fn partial_cmp(&self, other: &Self) -> (out: Option<Ordering>) {
        match self.b.partial_cmp(&other.b) {
            Some(Ordering::Equal) => match self.g.partial_cmp(&other.g) {
                Some(Ordering::Equal) => match self.r.partial_cmp(&other.r) {
                    Some(Ordering::Equal) => self.a.partial_cmp(&other.a),
                    decided => decided,
                },
                decided => decided,
            },
            decided => decided,
        }
    }
}

impl<T: PartialOrd, A: PartialOrd> PartialOrdSpecImpl for Bgra<T, A> {
    open spec fn obeys_partial_cmp_spec() -> bool {
        T::obeys_partial_cmp_spec() && A::obeys_partial_cmp_spec()
    }

    open spec fn partial_cmp_spec(&self, other: &Self) -> Option<Ordering> {
        then_with(
            self.b.partial_cmp_spec(&other.b),
            then_with(
                self.g.partial_cmp_spec(&other.g),
                then_with(self.r.partial_cmp_spec(&other.r), self.a.partial_cmp_spec(&other.a)),
            ),
        )
    }
}

impl<T: PartialOrd, A: PartialOrd> PartialOrd for Argb<T, A> {
    fn partial_cmp(&self, other: &Self) -> (out: Option<Ordering>) {
        match self.a.partial_cmp(&other.a) {
            Some(Ordering::Equal) => match self.r.partial_cmp(&other.r) {
                Some(Ordering::Equal) => match self.g.partial_cmp(&other.g) {
                    Some(Ordering::Equal) => self.b.partial_cmp(&other.b),
                    decided => decided,
                },
                decided => decided,
            },
            decided => decided,
        }
    }
}

impl<T: PartialOrd, A: PartialOrd> PartialOrdSpecImpl for Argb<T, A> {
    open spec fn obeys_partial_cmp_spec() -> bool {
        T::obeys_partial_cmp_spec() && A::obeys_partial_cmp_spec()
    }

    open spec fn partial_cmp_spec(&self, other: &Self) -> Option<Ordering> {
        then_with(
            self.a.partial_cmp_spec(&other.a),
            then_with(
                self.r.partial_cmp_spec(&other.r),
                then_with(self.g.partial_cmp_spec(&other.g), self.b.partial_cmp_spec(&other.b)),
            ),
        )
    }
}

impl<T: PartialOrd, A: PartialOrd> PartialOrd for Abgr<T, A> {
    fn partial_cmp(&self, other: &Self) -> (out: Option<Ordering>) {
        match self.a.partial_cmp(&other.a) {
            Some(Ordering::Equal) => match self.b.partial_cmp(&other.b) {
                Some(Ordering::Equal) => match self.g.partial_cmp(&other.g) {
                    Some(Ordering::Equal) => self.r.partial_cmp(&other.r),
                    decided => decided,
                },
                decided => decided,
            },
            decided => decided,
        }
    }
}

impl<T: PartialOrd, A: PartialOrd> PartialOrdSpecImpl for Abgr<T, A> {
    open spec fn obeys_partial_cmp_spec() -> bool {
        T::obeys_partial_cmp_spec() && A::obeys_partial_cmp_spec()
    }

    open spec fn partial_cmp_spec(&self, other: &Self) -> Option<Ordering> {
        then_with(
            self.a.partial_cmp_spec(&other.a),
            then_with(
                self.b.partial_cmp_spec(&other.b),
                then_with(self.g.partial_cmp_spec(&other.g), self.r.partial_cmp_spec(&other.r)),
            ),
        )
    }
}

impl<T: PartialOrd> PartialOrd for Gray<T> {
    fn partial_cmp(&self, other: &Self) -> (out: Option<Ordering>) {
        self.0.partial_cmp(&other.0)
    }
}

impl<T: PartialOrd> PartialOrdSpecImpl for Gray<T> {
    open spec fn obeys_partial_cmp_spec() -> bool {
        T::obeys_partial_cmp_spec()
    }

    open spec fn partial_cmp_spec(&self, other: &Self) -> Option<Ordering> {
        self.0.partial_cmp_spec(&other.0)
    }
}

impl<T: PartialOrd, A: PartialOrd> PartialOrd for GrayAlpha<T, A> {
    fn partial_cmp(&self, other: &Self) -> (out: Option<Ordering>) {
        match self.0.partial_cmp(&other.0) {
            Some(Ordering::Equal) => self.1.partial_cmp(&other.1),
            decided => decided,
        }
    }
}

impl<T: PartialOrd, A: PartialOrd> PartialOrdSpecImpl for GrayAlpha<T, A> {
    open spec fn obeys_partial_cmp_spec() -> bool {
        T::obeys_partial_cmp_spec() && A::obeys_partial_cmp_spec()
    }

    open spec fn partial_cmp_spec(&self, other: &Self) -> Option<Ordering> {
        then_with(self.0.partial_cmp_spec(&other.0), self.1.partial_cmp_spec(&other.1))
    }
}

} // verus!
