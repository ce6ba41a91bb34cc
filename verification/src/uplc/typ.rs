//! The types of Plutus constants.
use vstd::prelude::*;

use crate::uplc::arena::Arena;

verus! {

/// The type of a constant, allocated in the machine's arena.
#[derive(Debug, PartialEq)]
pub enum Type<'a> {
    Bool,
    Integer,
    String,
    ByteString,
    Unit,
    List(&'a Type<'a>),
    Array(&'a Type<'a>),
    Pair(&'a Type<'a>, &'a Type<'a>),
    Data,
    Bls12_381G1Element,
    Bls12_381G2Element,
    Bls12_381MlResult,
    Value,
}

/// The shape of a type, as a tree of values.
pub enum TypeShape {
    Bool,
    Integer,
    String,
    ByteString,
    Unit,
    List(Box<TypeShape>),
    Array(Box<TypeShape>),
    Pair(Box<TypeShape>, Box<TypeShape>),
    Data,
    Bls12_381G1Element,
    Bls12_381G2Element,
    Bls12_381MlResult,
    Value,
}

impl<'a> Type<'a> {
    /// The shape of this type.
    pub open spec fn shape(&self) -> TypeShape
        decreases self,
    {
        match self {
            Type::Bool => TypeShape::Bool,
            Type::Integer => TypeShape::Integer,
            Type::String => TypeShape::String,
            Type::ByteString => TypeShape::ByteString,
            Type::Unit => TypeShape::Unit,
            Type::List(t) => TypeShape::List(Box::new(t.shape())),
            Type::Array(t) => TypeShape::Array(Box::new(t.shape())),
            Type::Pair(a, b) => TypeShape::Pair(Box::new(a.shape()), Box::new(b.shape())),
            Type::Data => TypeShape::Data,
            Type::Bls12_381G1Element => TypeShape::Bls12_381G1Element,
            Type::Bls12_381G2Element => TypeShape::Bls12_381G2Element,
            Type::Bls12_381MlResult => TypeShape::Bls12_381MlResult,
            Type::Value => TypeShape::Value,
        }
    }

    pub fn integer(arena: &'a Arena) -> (t: &'a Type<'a>)
        ensures
            *t == Type::Integer,
    {
        arena.allocate(Type::Integer)
    }

    pub fn bool(arena: &'a Arena) -> (t: &'a Type<'a>)
        ensures
            *t == Type::Bool,
    {
        arena.allocate(Type::Bool)
    }

    pub fn string(arena: &'a Arena) -> (t: &'a Type<'a>)
        ensures
            *t == Type::String,
    {
        arena.allocate(Type::String)
    }

    pub fn byte_string(arena: &'a Arena) -> (t: &'a Type<'a>)
        ensures
            *t == Type::ByteString,
    {
        arena.allocate(Type::ByteString)
    }

    pub fn unit(arena: &'a Arena) -> (t: &'a Type<'a>)
        ensures
            *t == Type::Unit,
    {
        arena.allocate(Type::Unit)
    }

    pub fn data(arena: &'a Arena) -> (t: &'a Type<'a>)
        ensures
            *t == Type::Data,
    {
        arena.allocate(Type::Data)
    }

    pub fn list(arena: &'a Arena, inner: &'a Type<'a>) -> (t: &'a Type<'a>)
        ensures
            *t == Type::List(inner),
    {
        arena.allocate(Type::List(inner))
    }

    pub fn array(arena: &'a Arena, inner: &'a Type<'a>) -> (t: &'a Type<'a>)
        ensures
            *t == Type::Array(inner),
    {
        arena.allocate(Type::Array(inner))
    }

    pub fn pair(arena: &'a Arena, fst: &'a Type<'a>, snd: &'a Type<'a>) -> (t: &'a Type<'a>)
        ensures
            *t == Type::Pair(fst, snd),
    {
        arena.allocate(Type::Pair(fst, snd))
    }

    pub fn g1(arena: &'a Arena) -> (t: &'a Type<'a>)
        ensures
            *t == Type::Bls12_381G1Element,
    {
        arena.allocate(Type::Bls12_381G1Element)
    }

    pub fn g2(arena: &'a Arena) -> (t: &'a Type<'a>)
        ensures
            *t == Type::Bls12_381G2Element,
    {
        arena.allocate(Type::Bls12_381G2Element)
    }

    pub fn ml_result(arena: &'a Arena) -> (t: &'a Type<'a>)
        ensures
            *t == Type::Bls12_381MlResult,
    {
        arena.allocate(Type::Bls12_381MlResult)
    }

    pub fn value(arena: &'a Arena) -> (t: &'a Type<'a>)
        ensures
            *t == Type::Value,
    {
        arena.allocate(Type::Value)
    }
}

/// A type has the shape of a type without parameters exactly when it is that
/// type: its shape names its own kind.
pub proof fn lemma_atom_shapes(t: Type)
    ensures
        (t.shape() == TypeShape::Bool) == (t == Type::Bool),
        (t.shape() == TypeShape::Integer) == (t == Type::Integer),
        (t.shape() == TypeShape::String) == (t == Type::String),
        (t.shape() == TypeShape::ByteString) == (t == Type::ByteString),
        (t.shape() == TypeShape::Unit) == (t == Type::Unit),
        (t.shape() == TypeShape::Data) == (t == Type::Data),
        (t.shape() == TypeShape::Bls12_381G1Element) == (t == Type::Bls12_381G1Element),
        (t.shape() == TypeShape::Bls12_381G2Element) == (t == Type::Bls12_381G2Element),
        (t.shape() == TypeShape::Bls12_381MlResult) == (t == Type::Bls12_381MlResult),
        (t.shape() == TypeShape::Value) == (t == Type::Value),
{
}

} // verus!
