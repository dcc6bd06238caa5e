//! Calling conventions that a function item can name.

use vstd::prelude::*;

verus! {

/// The calling convention of a function or foreign module.
#[derive(Clone, Copy, PartialEq, Eq, Structural, Debug)]
pub enum Abi {
    Rust,
    C,
    System,
    RustIntrinsic,
    RustCall,
}

} // verus!
