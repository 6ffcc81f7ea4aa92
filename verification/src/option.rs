//! Payoff kind of a vanilla option.

use vstd::prelude::*;

verus! {

/// Call or put.
#[derive(Clone, Copy, Debug, PartialEq, Eq, Structural)]
pub enum OptionType {
    Call,
    Put,
}

} // verus!
