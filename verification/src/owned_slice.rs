//! The sequence type used for bound lists in the syntax tree.
//!
//! The tree only ever builds these once and then reads them, so a plain
//! vector serves as the owned, immutable slice.

use vstd::prelude::*;

verus! {

/// An owned, append-once sequence of syntax-tree pieces.
pub type OwnedSlice<T> = Vec<T>;

} // verus!
