//! A transformation with its own input and output types, and two of them on
//! integers.

use vstd::prelude::*;

verus! {

/// Something that turns an input into an output.
pub trait Transformer {
    type Input;

    type Output;

    /// The inputs that can be transformed.
    spec fn accepts(&self, input: Self::Input) -> bool;

    /// What an input is turned into.
    spec fn transformed(&self, input: Self::Input) -> Self::Output;

    fn transform(&self, input: Self::Input) -> (out: Self::Output)
        requires
            self.accepts(input),
        ensures
            out == self.transformed(input),
    ;
}

/// Doubles a number.
pub struct DoubleT;

/// Squares a number.
pub struct SquareT;

impl Transformer for DoubleT {
    type Input = i32;

    type Output = i32;

    open spec fn accepts(&self, input: i32) -> bool {
        i32::MIN <= input * 2 <= i32::MAX
    }

    open spec fn transformed(&self, input: i32) -> i32 {
        (input * 2) as i32
    }

    fn transform(&self, input: i32) -> (out: i32) {
        input * 2
    }
}

impl Transformer for SquareT {
    type Input = i32;

    type Output = i32;

    open spec fn accepts(&self, input: i32) -> bool {
        input * input <= i32::MAX
    }

    open spec fn transformed(&self, input: i32) -> i32 {
        (input * input) as i32
    }

    fn transform(&self, input: i32) -> (out: i32) {
        assert(input * input >= 0) by (nonlinear_arith);
        input * input
    }
}

} // verus!
