//! Unit-tagged durations. A `Duration` stores its value scaled by the
//! unit's factor, so converting between units never loses the stored
//! magnitude; construction saturates instead of overflowing.

use core::marker::PhantomData;
use vstd::prelude::*;

verus! {

#[derive(Clone, Copy, Debug)]
pub struct Milliseconds;

#[derive(Clone, Copy, Debug)]
pub struct Seconds;

#[derive(Clone, Copy, Debug)]
pub struct Decaseconds;

/// A unit of time, given by its scale factor relative to the common base.
pub trait TimeUnit {
    spec fn spec_factor() -> u32;

    /// Every unit's factor is at least one, so scaling down never
    /// divides by zero.
    proof fn factor_positive()
        ensures
            Self::spec_factor() >= 1,
    ;

    fn factor() -> (r: u32)
        ensures
            r == Self::spec_factor(),
    ;
}

impl TimeUnit for Milliseconds {
    open spec fn spec_factor() -> u32 {
        1
    }

    proof fn factor_positive() {
    }

    fn factor() -> u32 {
        1
    }
}

impl TimeUnit for Seconds {
    open spec fn spec_factor() -> u32 {
        1000
    }

    proof fn factor_positive() {
    }

    fn factor() -> u32 {
        1000
    }
}

impl TimeUnit for Decaseconds {
    open spec fn spec_factor() -> u32 {
        10000
    }

    proof fn factor_positive() {
    }

    fn factor() -> u32 {
        10000
    }
}

/// A duration in the unit `T`; the view is the stored value in the
/// common base scale.
#[derive(Debug)]
pub struct Duration<T: TimeUnit> {
    value: u32,
    marker: PhantomData<T>,
}

impl<T: TimeUnit> View for Duration<T> {
    type V = u32;

    closed spec fn view(&self) -> u32 {
        self.value
    }
}

impl<T: TimeUnit> Clone for Duration<T> {
    fn clone(&self) -> (r: Self)
        ensures
            r == *self,
    {
        Duration { value: self.value, marker: PhantomData }
    }
}

impl<T: TimeUnit> Copy for Duration<T> {

}

impl<T: TimeUnit> Default for Duration<T> {
    /// The zero duration.
    fn default() -> (r: Self)
        ensures
            r@ == 0,
    {
        Duration { value: 0, marker: PhantomData }
    }
}

impl<T: TimeUnit> Duration<T> {
    /// Scale `value` into the common base, saturating at `u32::MAX`.
    pub fn new(value: u32) -> (r: Self)
        ensures
            value * T::spec_factor() <= u32::MAX ==> r@ == value * T::spec_factor(),
            value * T::spec_factor() > u32::MAX ==> r@ == u32::MAX,
    {
        let scaled = match value.checked_mul(T::factor()) {
            Some(v) => v,
            None => u32::MAX,
        };
        Duration { value: scaled, marker: PhantomData }
    }

    /// The duration expressed in its own unit, rounding down.
    pub fn as_unit(&self) -> (r: u32)
        ensures
            r == self@ / T::spec_factor(),
    {
        proof {
            T::factor_positive();
        }
        self.value / T::factor()
    }

    /// Reinterpret the stored magnitude in another unit; the stored
    /// value is unchanged.
    pub fn convert<U: TimeUnit>(self) -> (r: Duration<U>)
        ensures
            r@ == self@,
    {
        Duration { value: self.value, marker: PhantomData }
    }

}

} // verus!
