//! The offspring's business state.

use vstd::prelude::*;

verus! {

/// State of the offspring contract's toy counter.
#[derive(Debug, PartialEq, Eq)]
pub struct State {
    /// Label used when initializing the offspring.
    pub label: String,
    /// Optional text description of this offspring.
    pub description: Option<String>,
    /// The count for the counter.
    pub count: i32,
}

} // verus!
