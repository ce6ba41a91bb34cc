//! The arena in which the machine allocates its terms, values and frames.
use vstd::prelude::*;

use crate::uplc::constant::Integer;

verus! {

#[verifier::external_type_specification]
#[verifier::external_body]
pub struct ExBump<const MIN_ALIGN: usize>(bumpalo::Bump<MIN_ALIGN>);

#[verifier::external_type_specification]
#[verifier::external_body]
#[verifier::reject_recursive_types(T)]
pub struct ExAppendOnlyVec<T>(append_only_vec::AppendOnlyVec<T>);

/// A bump allocator for the machine's data, with a separate store for
/// integers (which own heap memory and so must be dropped).
pub struct Arena {
    bump: bumpalo::Bump,
    integers: append_only_vec::AppendOnlyVec<Integer>,
}

/// `bumpalo::Bump::new`: a fresh, empty bump allocator.
#[verifier::external_body]
fn new_bump() -> bumpalo::Bump {
    bumpalo::Bump::new()
}

/// `append_only_vec::AppendOnlyVec::new`: a fresh, empty store.
#[verifier::external_body]
fn new_integer_store() -> append_only_vec::AppendOnlyVec<Integer> {
    append_only_vec::AppendOnlyVec::new()
}

impl Arena {
    pub fn new() -> (a: Self) {
        Arena { bump: new_bump(), integers: new_integer_store() }
    }

    /// An arena that allocates in the given bump allocator, with an empty
    /// integer store.
    pub fn from_bump(bump: bumpalo::Bump) -> (a: Self)
        ensures
            a.bump() == bump,
    {
        Arena { bump, integers: new_integer_store() }
    }

    /// `bumpalo::Bump::alloc`: moves `value` into the arena and hands back a
    /// reference to it, valid as long as the arena. Claimed: the reference
    /// points at the value that was moved in.
    #[verifier::external_body]
    pub fn allocate<T>(&self, value: T) -> (r: &mut T)
        ensures
            *r == value,
    {
        self.bump.alloc(value)
    }

    /// `append_only_vec::AppendOnlyVec::push` then `Index::index` at the index
    /// it returns: stores an integer and hands back a reference to it.
    /// Claimed: `push` returns the index at which the value was stored, so the
    /// reference points at the value that was pushed.
    #[verifier::external_body]
    pub fn alloc_integer(&self, value: Integer) -> (r: &Integer)
        ensures
            *r == value,
    {
        let idx = self.integers.push(value);
        &self.integers[idx]
    }

    /// The bump allocator that the arena allocates in.
    pub closed spec fn bump(&self) -> bumpalo::Bump {
        self.bump
    }

    /// The bump allocator underneath.
    pub(crate) fn as_bump(&self) -> (b: &bumpalo::Bump)
        ensures
            *b == self.bump(),
    {
        &self.bump
    }

    /// Drops every integer and frees every allocation of the arena.
    pub fn reset(&mut self) {
        self.integers = new_integer_store();
        reset_bump(&mut self.bump);
    }
}

/// `bumpalo::Bump::reset`: frees every allocation, keeping the memory for reuse.
#[verifier::external_body]
fn reset_bump(bump: &mut bumpalo::Bump) {
    bump.reset()
}

impl Default for Arena {
    fn default() -> (a: Self) {
        Self::new()
    }
}

} // verus!
