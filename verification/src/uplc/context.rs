//! The machine's continuation: what to do with the value being computed.
use vstd::prelude::*;

use crate::uplc::{arena::Arena, env::Env};

verus! {

/// A stack of frames over terms `T` and values `W`, innermost first.
pub enum Context<'a, T, W> {
    /// A function value is waiting for its argument.
    FrameAwaitArg(&'a W, &'a Context<'a, T, W>),
    /// The argument term is still to be computed in its environment, before the function.
    FrameAwaitFunTerm(&'a Env<'a, W>, &'a T, &'a Context<'a, T, W>),
    /// An argument value is waiting for its function.
    FrameAwaitFunValue(&'a W, &'a Context<'a, T, W>),
    /// The value is to be forced.
    FrameForce(&'a Context<'a, T, W>),
    /// A constructor with its tag, the fields still to compute and those computed.
    FrameConstr(&'a Env<'a, W>, usize, &'a [&'a T], &'a [&'a W], &'a Context<'a, T, W>),
    /// The value is scrutinised by these case branches.
    FrameCases(&'a Env<'a, W>, &'a [&'a T], &'a Context<'a, T, W>),
    /// No frame: the value is the result.
    NoFrame,
}

impl<'a, T, W> Context<'a, T, W> {
    pub fn no_frame(arena: &'a Arena) -> (c: &'a Context<'a, T, W>)
        ensures
            *c == Context::<T, W>::NoFrame,
    {
        arena.allocate(Context::NoFrame)
    }

    pub fn frame_await_arg(
        arena: &'a Arena,
        function: &'a W,
        context: &'a Context<'a, T, W>,
    ) -> (c: &'a Context<'a, T, W>)
        ensures
            *c == Context::FrameAwaitArg(function, context),
    {
        arena.allocate(Context::FrameAwaitArg(function, context))
    }

    pub fn frame_await_fun_term(
        arena: &'a Arena,
        arg_env: &'a Env<'a, W>,
        argument: &'a T,
        context: &'a Context<'a, T, W>,
    ) -> (c: &'a Context<'a, T, W>)
        ensures
            *c == Context::FrameAwaitFunTerm(arg_env, argument, context),
    {
        arena.allocate(Context::FrameAwaitFunTerm(arg_env, argument, context))
    }

    pub fn frame_await_fun_value(
        arena: &'a Arena,
        argument: &'a W,
        context: &'a Context<'a, T, W>,
    ) -> (c: &'a Context<'a, T, W>)
        ensures
            *c == Context::FrameAwaitFunValue(argument, context),
    {
        arena.allocate(Context::FrameAwaitFunValue(argument, context))
    }

    pub fn frame_force(arena: &'a Arena, context: &'a Context<'a, T, W>) -> (c: &'a Context<
        'a,
        T,
        W,
    >)
        ensures
            *c == Context::FrameForce(context),
    {
        arena.allocate(Context::FrameForce(context))
    }

    /// A constructor frame with no field computed yet.
    pub fn frame_constr_empty(
        arena: &'a Arena,
        env: &'a Env<'a, W>,
        index: usize,
        terms: &'a [&'a T],
        context: &'a Context<'a, T, W>,
    ) -> (c: &'a Context<'a, T, W>)
        ensures
            c matches Context::FrameConstr(e, i, ts, vs, k) && *e == *env && i == index && ts@
                == terms@ && vs@.len() == 0 && *k == *context,
    {
        let empty: &'a [&'a W] = &[];
        arena.allocate(Context::FrameConstr(env, index, terms, empty, context))
    }

    pub fn frame_constr(
        arena: &'a Arena,
        env: &'a Env<'a, W>,
        index: usize,
        terms: &'a [&'a T],
        values: &'a [&'a W],
        context: &'a Context<'a, T, W>,
    ) -> (c: &'a Context<'a, T, W>)
        ensures
            *c == Context::FrameConstr(env, index, terms, values, context),
    {
        arena.allocate(Context::FrameConstr(env, index, terms, values, context))
    }

    pub fn frame_cases(
        arena: &'a Arena,
        env: &'a Env<'a, W>,
        terms: &'a [&'a T],
        context: &'a Context<'a, T, W>,
    ) -> (c: &'a Context<'a, T, W>)
        ensures
            *c == Context::FrameCases(env, terms, context),
    {
        arena.allocate(Context::FrameCases(env, terms, context))
    }
}

} // verus!
