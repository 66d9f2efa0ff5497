//! Adding a scalar to a colour pixel: the scalar is added to every channel.
//!
//! The sum is owed where each channel's own sum is: for integer channels,
//! where none of them overflows.
use crate::formats::bgr::Bgr;
use crate::formats::grb::Grb;
use crate::formats::rgb::Rgb;
use core::ops::Add;
use vstd::prelude::*;
use vstd::std_specs::ops::{AddSpec, AddSpecImpl};

verus! {

impl<T: Add<Output = T> + Copy> Add<T> for Rgb<T> {
    type Output = Rgb<T>;

    fn add(self, rhs: T) -> (out: Rgb<T>) {
        Rgb { r: self.r + rhs, g: self.g + rhs, b: self.b + rhs }
    }
}

impl<T: Add<Output = T> + Copy> AddSpecImpl<T> for Rgb<T> {
    open spec fn obeys_add_spec() -> bool {
        T::obeys_add_spec()
    }

    open spec fn add_req(self, rhs: T) -> bool {
        self.r.add_req(rhs) && self.g.add_req(rhs) && self.b.add_req(rhs)
    }

    open spec fn add_spec(self, rhs: T) -> Rgb<T> {
        Rgb { r: self.r.add_spec(rhs), g: self.g.add_spec(rhs), b: self.b.add_spec(rhs) }
    }
}

impl<T: Add<Output = T> + Copy> Add<T> for Bgr<T> {
    type Output = Bgr<T>;

    fn add(self, rhs: T) -> (out: Bgr<T>) {
        Bgr { b: self.b + rhs, g: self.g + rhs, r: self.r + rhs }
    }
}

impl<T: Add<Output = T> + Copy> AddSpecImpl<T> for Bgr<T> {
    open spec fn obeys_add_spec() -> bool {
        T::obeys_add_spec()
    }

    open spec fn add_req(self, rhs: T) -> bool {
        self.b.add_req(rhs) && self.g.add_req(rhs) && self.r.add_req(rhs)
    }

    open spec fn add_spec(self, rhs: T) -> Bgr<T> {
        Bgr { b: self.b.add_spec(rhs), g: self.g.add_spec(rhs), r: self.r.add_spec(rhs) }
    }
}

impl<T: Add<Output = T> + Copy> Add<T> for Grb<T> {
    type Output = Grb<T>;

    fn add(self, rhs: T) -> (out: Grb<T>) {
        Grb { g: self.g + rhs, r: self.r + rhs, b: self.b + rhs }
    }
}

impl<T: Add<Output = T> + Copy> AddSpecImpl<T> for Grb<T> {
    open spec fn obeys_add_spec() -> bool {
        T::obeys_add_spec()
    }

    open spec fn add_req(self, rhs: T) -> bool {
        self.g.add_req(rhs) && self.r.add_req(rhs) && self.b.add_req(rhs)
    }

    open spec fn add_spec(self, rhs: T) -> Grb<T> {
        Grb { g: self.g.add_spec(rhs), r: self.r.add_spec(rhs), b: self.b.add_spec(rhs) }
    }
}

} // verus!
