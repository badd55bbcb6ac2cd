//! A delivery target: an endpoint interested in a subset of subscriptions.

use vstd::prelude::*;

verus! {

/// A delivery target. The `id` is unique for the process lifetime and keys
/// the supervisor's worker registry; `interval` is part of the configuration
/// but unused by the worker logic.
#[derive(Debug, Clone)]
pub struct Target {
    pub id: usize,
    pub name: String,
    pub url: String,
    pub interval: u64,
}

} // verus!
