//! Double-sided two-way ranging: arithmetic and frame format.
use vstd::prelude::*;

pub mod math;
pub mod message;
pub mod initiator;
pub mod responder;

verus! {

} // verus!
