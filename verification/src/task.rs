//! The result of a single poll.

use std::task::Poll;
use vstd::prelude::*;

verus! {

/// `std::task::Poll`, made known to the verifier with its two variants,
/// `Ready` with the finished value and `Pending`. Nothing is claimed of any of
/// its methods.
#[verifier::external_type_specification]
#[verifier::reject_recursive_types(T)]
pub struct ExPoll<T>(Poll<T>);

} // verus!
