//! The states of the CEK machine.
use vstd::prelude::*;

use crate::uplc::{arena::Arena, context::Context, env::Env};

verus! {

/// A machine state over terms `T` and values `W`.
pub enum MachineState<'a, T, W> {
    /// A value is returned to the context.
    Return(&'a Context<'a, T, W>, &'a W),
    /// A term is computed in an environment, for the context.
    Compute(&'a Context<'a, T, W>, &'a Env<'a, W>, &'a T),
    /// The machine has finished with this term.
    Done(&'a T),
}

impl<'a, T, W> MachineState<'a, T, W> {
    pub fn compute(
        arena: &'a Arena,
        context: &'a Context<'a, T, W>,
        env: &'a Env<'a, W>,
        term: &'a T,
    ) -> (s: &'a mut MachineState<'a, T, W>)
        ensures
            *s == MachineState::Compute(context, env, term),
    {
        arena.allocate(MachineState::Compute(context, env, term))
    }

    pub fn return_(arena: &'a Arena, context: &'a Context<'a, T, W>, value: &'a W) -> (s: &'a mut MachineState<'a, T, W>)
        ensures
            *s == MachineState::Return(context, value),
    {
        arena.allocate(MachineState::Return(context, value))
    }

    pub fn done(arena: &'a Arena, term: &'a T) -> (s: &'a mut MachineState<'a, T, W>)
        ensures
            *s == MachineState::<T, W>::Done(term),
    {
        arena.allocate(MachineState::Done(term))
    }
}

} // verus!
