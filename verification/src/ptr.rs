//! The owned syntax-tree pointer.
//!
//! `P<T>` is a frozen owned pointer: every node of the tree has exactly one
//! owner and is never mutated in place, only consumed and rebuilt. It is
//! backed by a plain box, so a `P<T>` denotes the pointed-to value itself in
//! every contract.

use vstd::prelude::*;

verus! {

/// An owned smart pointer to a syntax-tree node.
pub type P<T> = Box<T>;

/// Construct a `P<T>` from a `T` value.
#[allow(non_snake_case)]
pub fn P<T>(value: T) -> (r: P<T>)
    ensures
        r == value,
{
    Box::new(value)
}

/// The transformations a frozen pointer offers: the pointed-to value can be
/// consumed, possibly rebuilding a new pointer around the result.
pub trait PointerMap<T>: Sized {
    /// The pointed-to value.
    spec fn pointee(self) -> T;

    /// Move out of the pointer and hand the value to `f`.
    /// Intended for chaining transformations not covered by `map`.
    fn and_then<U, F: FnOnce(T) -> U>(self, f: F) -> (r: U)
        requires
            f.requires((self.pointee(),)),
        ensures
            f.ensures((self.pointee(),), r),
    ;

    /// Transform the inner value, consuming `self` and producing a new
    /// pointer.
    fn map<F: FnOnce(T) -> T>(self, f: F) -> (r: Self)
        requires
            f.requires((self.pointee(),)),
        ensures
            f.ensures((self.pointee(),), r.pointee()),
    ;

    /// Move the pointed-to value out of the pointer.
    fn into_inner(self) -> (r: T)
        ensures
            r == self.pointee(),
    ;
}

impl<T> PointerMap<T> for P<T> {
    open spec fn pointee(self) -> T {
        *self
    }

    fn and_then<U, F: FnOnce(T) -> U>(self, f: F) -> (r: U) {
        f(*self)
    }

    fn map<F: FnOnce(T) -> T>(self, f: F) -> (r: P<T>) {
        P(f(*self))
    }

    fn into_inner(self) -> (r: T) {
        *self
    }
}

} // verus!
