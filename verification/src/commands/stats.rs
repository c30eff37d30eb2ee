//! The stats command: its arguments. The counting itself is
//! [`crate::queue::Queue::stats`]; printing the counts is a process
//! concern outside this crate.

use vstd::prelude::*;

verus! {

/// The stats command's arguments: none.
#[derive(Debug)]
pub struct Args {}

} // verus!
