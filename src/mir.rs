//! The source IR: places, operands, rvalues, statements, terminators and bodies.

use vstd::prelude::*;
use crate::ty::Ty;

verus! {

/// One step of a place's path from its base local.
#[derive(Debug, Clone, Copy, PartialEq, Eq, Structural)]
pub enum PlaceElem {
    /// Follows the pointer held by the place.
    Deref,
    /// The field with the given index.
    Field(u32),
    /// The element whose index is held by the given local.
    Index(u32),
    /// The element at a constant offset, counted from the end when `from_end` holds.
    ConstantIndex { offset: u64, min_length: u64, from_end: bool },
    /// The place seen as the enum variant with the given index.
    Downcast(u32),
}

/// An addressable location: a local and a path of projections from it.
#[derive(Debug, PartialEq, Eq)]
pub struct Place {
    pub local: u32,
    pub projection: Vec<PlaceElem>,
}

/// A scalar literal: its type and its bits, zero-extended.
#[derive(Debug, PartialEq, Eq)]
pub struct Constant {
    pub ty: Ty,
    pub bits: u128,
}

/// A value read by an rvalue or a terminator.
#[derive(Debug, PartialEq, Eq)]
pub enum Operand {
    Copy(Place),
    Move(Place),
    Constant(Constant),
}

#[derive(Debug, Clone, Copy, PartialEq, Eq, Structural)]
pub enum BinOp {
    Add,
    Sub,
    Mul,
    Div,
    Rem,
    BitAnd,
    BitOr,
    BitXor,
    Shl,
    Shr,
    Eq,
    Lt,
    Gt,
    Ne,
    Le,
    Ge,
}

#[derive(Debug, Clone, Copy, PartialEq, Eq, Structural)]
pub enum UnOp {
    Not,
    Neg,
}

#[derive(Debug, Clone, Copy, PartialEq, Eq, Structural)]
pub enum CastKind {
    IntToInt,
    FloatToInt,
    IntToFloat,
    FloatToFloat,
    PtrToPtr,
    MutToConstPointer,
    PointerExposeAddress,
    PointerFromExposedAddress,
    /// A pointer to an array made a pointer to a slice.
    Unsize,
    Transmute,
}

#[derive(Debug, Clone, Copy, PartialEq, Eq, Structural)]
pub enum NullOp {
    SizeOf,
    AlignOf,
}

/// What an aggregate builds.
#[derive(Debug, PartialEq, Eq)]
pub enum AggregateKind {
    /// An array of the given element type.
    Array(Ty),
    Tuple,
    /// The variant of a data type, with the type's generic arguments.
    Adt(u32, u32, Vec<Ty>),
}

/// How a value is computed.
#[derive(Debug, PartialEq, Eq)]
pub enum Rvalue {
    Use(Operand),
    CopyForDeref(Place),
    Ref(Place),
    AddressOf(Place),
    BinaryOp(BinOp, Operand, Operand),
    CheckedBinaryOp(BinOp, Operand, Operand),
    UnaryOp(UnOp, Operand),
    Cast(CastKind, Operand, Ty),
    NullaryOp(NullOp, Ty),
    Aggregate(AggregateKind, Vec<Operand>),
    Discriminant(Place),
    Len(Place),
}

#[derive(Debug, PartialEq, Eq)]
pub enum StatementKind {
    Assign(Place, Rvalue),
    StorageLive(u32),
    StorageDead(u32),
    /// Copies `count` values of the pointee type from `src` to `dst`.
    CopyNonOverlapping { src: Operand, dst: Operand, count: Operand },
    Nop,
}

#[derive(Debug, PartialEq, Eq)]
pub struct Statement {
    pub kind: StatementKind,
}

/// How a basic block ends.
#[derive(Debug, PartialEq, Eq)]
pub enum Terminator {
    Return,
    Goto(u32),
    /// Jumps to `targets[i]` when `discr` equals `values[i]`, else to the last target.
    SwitchInt { discr: Operand, values: Vec<u128>, targets: Vec<u32> },
}

#[derive(Debug, PartialEq, Eq)]
pub struct BasicBlock {
    pub statements: Vec<Statement>,
    pub terminator: Terminator,
}

/// The body of a function: its argument count, the types of its locals
/// (local 0 is the return value, then the arguments) and its blocks.
#[derive(Debug, PartialEq, Eq)]
pub struct Body {
    pub arg_count: usize,
    pub local_decls: Vec<Ty>,
    pub blocks: Vec<BasicBlock>,
}

} // verus!
