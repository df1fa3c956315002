//! RGB colours. Channels are unbounded: nothing here clamps them.

use vstd::prelude::*;
use crate::encoding;
use crate::near_zero;
use crate::negligible;

verus! {

/// A colour: three single-precision channels, each held by its encoding.
#[derive(Debug, Clone, Copy)]
pub struct Color {
    pub red: u32,
    pub green: u32,
    pub blue: u32,
}

impl Color {
    /// Black, `(0, 0, 0)`.
    pub open spec fn black_spec() -> Color {
        Color { red: encoding::ZERO, green: encoding::ZERO, blue: encoding::ZERO }
    }

    /// Pure red, `(1, 0, 0)`.
    pub open spec fn red_spec() -> Color {
        Color { red: encoding::ONE, green: encoding::ZERO, blue: encoding::ZERO }
    }

    /// All three channels are below the tolerance in magnitude.
    pub open spec fn near_zero(self) -> bool {
        near_zero(self.red) && near_zero(self.green) && near_zero(self.blue)
    }

    pub fn new(red: u32, green: u32, blue: u32) -> (c: Color)
        ensures
            c == (Color { red, green, blue }),
    {
        Color { red, green, blue }
    }

    /// Black, `(0, 0, 0)`.
    #[verifier::when_used_as_spec(black_spec)]
    pub fn black() -> (c: Color)
        ensures
            c == Color::black(),
    {
        Color { red: encoding::ZERO, green: encoding::ZERO, blue: encoding::ZERO }
    }

    /// Pure red, `(1, 0, 0)`.
    #[verifier::when_used_as_spec(red_spec)]
    pub fn red() -> (c: Color)
        ensures
            c == Color::red(),
    {
        Color { red: encoding::ONE, green: encoding::ZERO, blue: encoding::ZERO }
    }

    /// Tolerance test for two colours, on their channelwise difference
    /// `self`: every channel must be within tolerance.
    pub fn negligible(self) -> (r: bool)
        ensures
            r == self.near_zero(),
    {
        negligible(self.red) && negligible(self.green) && negligible(self.blue)
    }
}

impl PartialEq for Color {
    /// Channelwise numeric equality: `0.0` equals `-0.0`, and a colour with a
    /// NaN channel equals nothing, itself included.
    fn eq(&self, other: &Color) -> (r: bool) {
        encoding::equals(self.red, other.red) && encoding::equals(self.green, other.green)
            && encoding::equals(self.blue, other.blue)
    }
}

impl vstd::std_specs::cmp::PartialEqSpecImpl for Color {
    open spec fn obeys_eq_spec() -> bool {
        true
    }

    open spec fn eq_spec(&self, other: &Color) -> bool {
        encoding::same(self.red, other.red) && encoding::same(self.green, other.green)
            && encoding::same(self.blue, other.blue)
    }
}

} // verus!
