//! The machine's environment: the values bound to De Bruijn indices.
use vstd::prelude::*;

use crate::uplc::arena::Arena;

verus! {

/// A linked list of bound values, the most recently bound first.
#[derive(Debug)]
pub enum Env<'a, W> {
    Empty,
    Cons { data: &'a W, next: &'a Env<'a, W> },
}

impl<'a, W> Env<'a, W> {
    /// The bound values, the most recently bound first.
    pub open spec fn values(&self) -> Seq<W>
        decreases self,
    {
        match self {
            Env::Empty => Seq::empty(),
            Env::Cons { data, next } => seq![**data] + next.values(),
        }
    }

    /// An empty environment, allocated in the arena.
    pub fn new_in(arena: &'a Arena) -> (e: &'a Self)
        ensures
            *e == Env::<W>::Empty,
            e.values() == Seq::<W>::empty(),
    {
        arena.allocate(Self::Empty)
    }

    /// This environment with `arg` bound in front, allocated in the arena.
    pub fn push(&'a self, arena: &'a Arena, arg: &'a W) -> (e: &'a Self)
        ensures
            *e == (Env::Cons { data: arg, next: self }),
            e.values() == seq![*arg] + self.values(),
    {
        arena.allocate(Self::Cons { data: arg, next: self })
    }

    /// The value bound to a De Bruijn index. Indices are 1-based: index 1 is
    /// the most recently bound value; index 0, and an index past the bound
    /// values, find nothing.
    pub fn lookup(&self, index: usize) -> (r: Option<&'a W>)
        ensures
            r == (if 1 <= index <= self.values().len() {
                Some(&self.values()[index - 1])
            } else {
                None::<&W>
            }),
        decreases index,
    {
        if index == 0 {
            return None;
        }
        match self {
            Env::Empty => None,
            Env::Cons { data, next: parent } => {
                if index == 1 {
                    return Some(data);
                }
                proof {
                    assert(self.values().drop_first() == parent.values());
                }
                parent.lookup(index - 1)
            },
        }
    }
}

} // verus!
