//! A vector type optimized for the common case of holding zero or one
//! element, used by the rewriting machinery for folds that may turn one
//! node into several.

use vstd::prelude::*;

verus! {

/// An ordered collection of rewritten nodes; most folds produce exactly
/// one.
pub struct SmallVector<T> {
    vec: Vec<T>,
}

impl<T> View for SmallVector<T> {
    type V = Seq<T>;

    closed spec fn view(&self) -> Seq<T> {
        self.vec@
    }
}

impl<T> SmallVector<T> {
    /// The empty collection.
    pub fn zero() -> (r: SmallVector<T>)
        ensures
            r@ == Seq::<T>::empty(),
    {
        SmallVector { vec: Vec::new() }
    }

    /// A collection of exactly one node.
    pub fn one(v: T) -> (r: SmallVector<T>)
        ensures
            r@ == seq![v],
    {
        let mut vec: Vec<T> = Vec::new();
        vec.push(v);
        SmallVector { vec: vec }
    }

    /// A collection of any number of nodes.
    pub fn many(vs: Vec<T>) -> (r: SmallVector<T>)
        ensures
            r@ == vs@,
    {
        SmallVector { vec: vs }
    }

    pub fn len(&self) -> (r: usize)
        ensures
            r == self@.len(),
    {
        self.vec.len()
    }

    pub fn push(&mut self, v: T)
        ensures
            final(self)@ == old(self)@.push(v),
    {
        self.vec.push(v);
    }

    /// Take the single node out of a collection known to hold exactly one.
    pub fn expect_one(self) -> (r: T)
        requires
            self@.len() == 1,
        ensures
            r == self@[0],
    {
        let mut vec = self.vec;
        let r = vec.pop().unwrap();
        r
    }

    /// The nodes as a plain vector, in order.
    pub fn into_vec(self) -> (r: Vec<T>)
        ensures
            r@ == self@,
    {
        self.vec
    }
}

} // verus!
