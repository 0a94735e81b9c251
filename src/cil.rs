//! The target instruction set and the stack effect of each instruction.

use vstd::prelude::*;
use crate::clr_type::{FieldDescriptor, FieldModel, Type, TypeModel};

verus! {

/// An instruction of the target stack machine.
#[derive(Debug, PartialEq, Eq)]
pub enum CILOp {
    /// Pushes the value of a local variable.
    LDLoc(u32),
    /// Pushes the address of a local variable.
    LDLocA(u32),
    /// Pops a value into a local variable.
    STLoc(u32),
    /// Pushes the value of an argument.
    LDArg(u32),
    /// Pushes the address of an argument.
    LDArgA(u32),
    /// Pops a value into an argument.
    STArg(u32),
    /// Marks the start of a basic block.
    Label(u32),
    /// Jumps to the start of a basic block.
    GoTo(u32),
    /// Pops two values and jumps to a basic block when they are equal.
    BEq(u32),
    /// Returns the value on top of the stack.
    Ret,
    /// Pushes a 32-bit constant.
    LdcI32(i32),
    /// Pushes a 64-bit constant.
    LdcI64(i64),
    Add,
    Sub,
    Mul,
    Div,
    Rem,
    And,
    Or,
    XOr,
    Shl,
    Shr,
    Eq,
    Lt,
    Gt,
    Not,
    Neg,
    /// Converts the top of the stack; the flag asks for an overflow check.
    ConvI8(bool),
    ConvI16(bool),
    ConvI32(bool),
    ConvI64(bool),
    ConvU8(bool),
    ConvU16(bool),
    ConvU32(bool),
    ConvU64(bool),
    ConvISize(bool),
    ConvUSize(bool),
    ConvF32(bool),
    ConvF64(bool),
    /// Replaces an object or its address by the value of one of its fields.
    LDField(FieldDescriptor),
    /// Replaces the address of an object by the address of one of its fields.
    LDFieldAdress(FieldDescriptor),
    /// Pops a value and an object address and stores the value in a field.
    STField(FieldDescriptor),
    /// Replaces an address by the value it points to.
    LDIndI8,
    LDIndI16,
    LDIndI32,
    LDIndI64,
    LDIndISize,
    LDIndF32,
    LDIndF64,
    LdObj(Type),
    /// Pops a value and an address and stores the value there.
    STIndI8,
    STIndI16,
    STIndI32,
    STIndI64,
    STIndISize,
    STIndF32,
    STIndF64,
    STObj(Type),
    /// Pushes the size of a type.
    SizeOf(Type),
    /// Pops a destination, a source and a byte count and copies the bytes.
    CpBlk,
    Pop,
    Dup,
    /// Allocates a scratch local; scratch locals form a stack.
    NewTMPLocal(Type),
    /// Releases the most recent scratch local.
    FreeTMPLocal,
    /// Pops a value into the most recent scratch local.
    SetTMPLocal,
    /// Pushes the value of the most recent scratch local.
    LoadTMPLocal,
    /// Pushes the address of the most recent scratch local.
    LoadAddresOfTMPLocal,
    /// Pushes the value of the scratch local that many places below the most recent one.
    LoadUnderTMPLocal(u8),
}

/// The model of a `CILOp`.
pub enum OpModel {
    LDLoc(u32),
    LDLocA(u32),
    STLoc(u32),
    LDArg(u32),
    LDArgA(u32),
    STArg(u32),
    Label(u32),
    GoTo(u32),
    BEq(u32),
    Ret,
    LdcI32(i32),
    LdcI64(i64),
    Add,
    Sub,
    Mul,
    Div,
    Rem,
    And,
    Or,
    XOr,
    Shl,
    Shr,
    Eq,
    Lt,
    Gt,
    Not,
    Neg,
    ConvI8(bool),
    ConvI16(bool),
    ConvI32(bool),
    ConvI64(bool),
    ConvU8(bool),
    ConvU16(bool),
    ConvU32(bool),
    ConvU64(bool),
    ConvISize(bool),
    ConvUSize(bool),
    ConvF32(bool),
    ConvF64(bool),
    LDField(FieldModel),
    LDFieldAdress(FieldModel),
    STField(FieldModel),
    LDIndI8,
    LDIndI16,
    LDIndI32,
    LDIndI64,
    LDIndISize,
    LDIndF32,
    LDIndF64,
    LdObj(TypeModel),
    STIndI8,
    STIndI16,
    STIndI32,
    STIndI64,
    STIndISize,
    STIndF32,
    STIndF64,
    STObj(TypeModel),
    SizeOf(TypeModel),
    CpBlk,
    Pop,
    Dup,
    NewTMPLocal(TypeModel),
    FreeTMPLocal,
    SetTMPLocal,
    LoadTMPLocal,
    LoadAddresOfTMPLocal,
    LoadUnderTMPLocal(u8),
}

pub open spec fn op_view(op: CILOp) -> OpModel {
    match op {
        CILOp::LDLoc(x) => OpModel::LDLoc(x),
        CILOp::LDLocA(x) => OpModel::LDLocA(x),
        CILOp::STLoc(x) => OpModel::STLoc(x),
        CILOp::LDArg(x) => OpModel::LDArg(x),
        CILOp::LDArgA(x) => OpModel::LDArgA(x),
        CILOp::STArg(x) => OpModel::STArg(x),
        CILOp::Label(x) => OpModel::Label(x),
        CILOp::GoTo(x) => OpModel::GoTo(x),
        CILOp::BEq(x) => OpModel::BEq(x),
        CILOp::Ret => OpModel::Ret,
        CILOp::LdcI32(x) => OpModel::LdcI32(x),
        CILOp::LdcI64(x) => OpModel::LdcI64(x),
        CILOp::Add => OpModel::Add,
        CILOp::Sub => OpModel::Sub,
        CILOp::Mul => OpModel::Mul,
        CILOp::Div => OpModel::Div,
        CILOp::Rem => OpModel::Rem,
        CILOp::And => OpModel::And,
        CILOp::Or => OpModel::Or,
        CILOp::XOr => OpModel::XOr,
        CILOp::Shl => OpModel::Shl,
        CILOp::Shr => OpModel::Shr,
        CILOp::Eq => OpModel::Eq,
        CILOp::Lt => OpModel::Lt,
        CILOp::Gt => OpModel::Gt,
        CILOp::Not => OpModel::Not,
        CILOp::Neg => OpModel::Neg,
        CILOp::ConvI8(x) => OpModel::ConvI8(x),
        CILOp::ConvI16(x) => OpModel::ConvI16(x),
        CILOp::ConvI32(x) => OpModel::ConvI32(x),
        CILOp::ConvI64(x) => OpModel::ConvI64(x),
        CILOp::ConvU8(x) => OpModel::ConvU8(x),
        CILOp::ConvU16(x) => OpModel::ConvU16(x),
        CILOp::ConvU32(x) => OpModel::ConvU32(x),
        CILOp::ConvU64(x) => OpModel::ConvU64(x),
        CILOp::ConvISize(x) => OpModel::ConvISize(x),
        CILOp::ConvUSize(x) => OpModel::ConvUSize(x),
        CILOp::ConvF32(x) => OpModel::ConvF32(x),
        CILOp::ConvF64(x) => OpModel::ConvF64(x),
        CILOp::LDField(x) => OpModel::LDField(x@),
        CILOp::LDFieldAdress(x) => OpModel::LDFieldAdress(x@),
        CILOp::STField(x) => OpModel::STField(x@),
        CILOp::LDIndI8 => OpModel::LDIndI8,
        CILOp::LDIndI16 => OpModel::LDIndI16,
        CILOp::LDIndI32 => OpModel::LDIndI32,
        CILOp::LDIndI64 => OpModel::LDIndI64,
        CILOp::LDIndISize => OpModel::LDIndISize,
        CILOp::LDIndF32 => OpModel::LDIndF32,
        CILOp::LDIndF64 => OpModel::LDIndF64,
        CILOp::LdObj(x) => OpModel::LdObj(x@),
        CILOp::STIndI8 => OpModel::STIndI8,
        CILOp::STIndI16 => OpModel::STIndI16,
        CILOp::STIndI32 => OpModel::STIndI32,
        CILOp::STIndI64 => OpModel::STIndI64,
        CILOp::STIndISize => OpModel::STIndISize,
        CILOp::STIndF32 => OpModel::STIndF32,
        CILOp::STIndF64 => OpModel::STIndF64,
        CILOp::STObj(x) => OpModel::STObj(x@),
        CILOp::SizeOf(x) => OpModel::SizeOf(x@),
        CILOp::CpBlk => OpModel::CpBlk,
        CILOp::Pop => OpModel::Pop,
        CILOp::Dup => OpModel::Dup,
        CILOp::NewTMPLocal(x) => OpModel::NewTMPLocal(x@),
        CILOp::FreeTMPLocal => OpModel::FreeTMPLocal,
        CILOp::SetTMPLocal => OpModel::SetTMPLocal,
        CILOp::LoadTMPLocal => OpModel::LoadTMPLocal,
        CILOp::LoadAddresOfTMPLocal => OpModel::LoadAddresOfTMPLocal,
        CILOp::LoadUnderTMPLocal(x) => OpModel::LoadUnderTMPLocal(x),
    }
}

impl View for CILOp {
    type V = OpModel;

    open spec fn view(&self) -> OpModel {
        op_view(*self)
    }
}

/// The model of an instruction sequence.
pub open spec fn ops_view(ops: Seq<CILOp>) -> Seq<OpModel> {
    ops.map_values(|o: CILOp| o@)
}

/// How many values an instruction leaves on the stack, less how many it takes.
pub open spec fn stack_diff(op: OpModel) -> int {
    match op {
        OpModel::CpBlk => -3,
        OpModel::BEq(_)
        | OpModel::STField(_)
        | OpModel::STIndI8
        | OpModel::STIndI16
        | OpModel::STIndI32
        | OpModel::STIndI64
        | OpModel::STIndISize
        | OpModel::STIndF32
        | OpModel::STIndF64
        | OpModel::STObj(_) => -2,
        OpModel::STLoc(_)
        | OpModel::STArg(_)
        | OpModel::Ret
        | OpModel::Add
        | OpModel::Sub
        | OpModel::Mul
        | OpModel::Div
        | OpModel::Rem
        | OpModel::And
        | OpModel::Or
        | OpModel::XOr
        | OpModel::Shl
        | OpModel::Shr
        | OpModel::Eq
        | OpModel::Lt
        | OpModel::Gt
        | OpModel::Pop
        | OpModel::SetTMPLocal => -1,
        OpModel::Label(_)
        | OpModel::GoTo(_)
        | OpModel::Not
        | OpModel::Neg
        | OpModel::ConvI8(_)
        | OpModel::ConvI16(_)
        | OpModel::ConvI32(_)
        | OpModel::ConvI64(_)
        | OpModel::ConvU8(_)
        | OpModel::ConvU16(_)
        | OpModel::ConvU32(_)
        | OpModel::ConvU64(_)
        | OpModel::ConvISize(_)
        | OpModel::ConvUSize(_)
        | OpModel::ConvF32(_)
        | OpModel::ConvF64(_)
        | OpModel::LDField(_)
        | OpModel::LDFieldAdress(_)
        | OpModel::LDIndI8
        | OpModel::LDIndI16
        | OpModel::LDIndI32
        | OpModel::LDIndI64
        | OpModel::LDIndISize
        | OpModel::LDIndF32
        | OpModel::LDIndF64
        | OpModel::LdObj(_)
        | OpModel::NewTMPLocal(_)
        | OpModel::FreeTMPLocal => 0,
        OpModel::LDLoc(_)
        | OpModel::LDLocA(_)
        | OpModel::LDArg(_)
        | OpModel::LDArgA(_)
        | OpModel::LdcI32(_)
        | OpModel::LdcI64(_)
        | OpModel::SizeOf(_)
        | OpModel::Dup
        | OpModel::LoadTMPLocal
        | OpModel::LoadAddresOfTMPLocal
        | OpModel::LoadUnderTMPLocal(_) => 1,
    }
}

/// The net stack effect of a sequence of instructions.
pub open spec fn stack_net(ops: Seq<OpModel>) -> int
    decreases ops.len(),
{
    if ops.len() == 0 {
        0
    } else {
        stack_net(ops.drop_last()) + stack_diff(ops.last())
    }
}

pub broadcast proof fn lemma_stack_net_concat(a: Seq<OpModel>, b: Seq<OpModel>)
    ensures
        #[trigger] stack_net(a + b) == stack_net(a) + stack_net(b),
    decreases b.len(),
{
    if b.len() == 0 {
        assert(a + b =~= a);
    } else {
        assert((a + b).drop_last() =~= a + b.drop_last());
        lemma_stack_net_concat(a, b.drop_last());
    }
}

pub broadcast proof fn lemma_stack_net_push(a: Seq<OpModel>, o: OpModel)
    ensures
        #[trigger] stack_net(a.push(o)) == stack_net(a) + stack_diff(o),
{
    assert(a.push(o).drop_last() =~= a);
}

pub broadcast proof fn lemma_stack_net_single(o: OpModel)
    ensures
        #[trigger] stack_net(seq![o]) == stack_diff(o),
{
    assert(seq![o].drop_last() =~= Seq::<OpModel>::empty());
    assert(stack_net(Seq::<OpModel>::empty()) == 0);
    assert(seq![o].last() == o);
}

pub broadcast proof fn lemma_ops_view_concat(a: Seq<CILOp>, b: Seq<CILOp>)
    ensures
        #[trigger] ops_view(a + b) == ops_view(a) + ops_view(b),
{
    assert(ops_view(a + b) =~= ops_view(a) + ops_view(b));
}

pub broadcast proof fn lemma_ops_view_push(a: Seq<CILOp>, o: CILOp)
    ensures
        #[trigger] ops_view(a.push(o)) == ops_view(a).push(o@),
{
    assert(ops_view(a.push(o)) =~= ops_view(a).push(o@));
}

pub broadcast group group_ops {
    lemma_stack_net_concat,
    lemma_stack_net_push,
    lemma_stack_net_single,
    lemma_ops_view_concat,
    lemma_ops_view_push,
}

impl CILOp {
    /// How many values this instruction leaves on the stack, less how many it takes.
    pub fn stack_diff(&self) -> (r: i64)
        ensures
            r == stack_diff(self@),
    {
        match self {
            CILOp::CpBlk => -3,
            CILOp::BEq(_)
            | CILOp::STField(_)
            | CILOp::STIndI8
            | CILOp::STIndI16
            | CILOp::STIndI32
            | CILOp::STIndI64
            | CILOp::STIndISize
            | CILOp::STIndF32
            | CILOp::STIndF64
            | CILOp::STObj(_) => -2,
            CILOp::STLoc(_)
            | CILOp::STArg(_)
            | CILOp::Ret
            | CILOp::Add
            | CILOp::Sub
            | CILOp::Mul
            | CILOp::Div
            | CILOp::Rem
            | CILOp::And
            | CILOp::Or
            | CILOp::XOr
            | CILOp::Shl
            | CILOp::Shr
            | CILOp::Eq
            | CILOp::Lt
            | CILOp::Gt
            | CILOp::Pop
            | CILOp::SetTMPLocal => -1,
            CILOp::Label(_)
            | CILOp::GoTo(_)
            | CILOp::Not
            | CILOp::Neg
            | CILOp::ConvI8(_)
            | CILOp::ConvI16(_)
            | CILOp::ConvI32(_)
            | CILOp::ConvI64(_)
            | CILOp::ConvU8(_)
            | CILOp::ConvU16(_)
            | CILOp::ConvU32(_)
            | CILOp::ConvU64(_)
            | CILOp::ConvISize(_)
            | CILOp::ConvUSize(_)
            | CILOp::ConvF32(_)
            | CILOp::ConvF64(_)
            | CILOp::LDField(_)
            | CILOp::LDFieldAdress(_)
            | CILOp::LDIndI8
            | CILOp::LDIndI16
            | CILOp::LDIndI32
            | CILOp::LDIndI64
            | CILOp::LDIndISize
            | CILOp::LDIndF32
            | CILOp::LDIndF64
            | CILOp::LdObj(_)
            | CILOp::NewTMPLocal(_)
            | CILOp::FreeTMPLocal => 0,
            CILOp::LDLoc(_)
            | CILOp::LDLocA(_)
            | CILOp::LDArg(_)
            | CILOp::LDArgA(_)
            | CILOp::LdcI32(_)
            | CILOp::LdcI64(_)
            | CILOp::SizeOf(_)
            | CILOp::Dup
            | CILOp::LoadTMPLocal
            | CILOp::LoadAddresOfTMPLocal
            | CILOp::LoadUnderTMPLocal(_) => 1,
        }
    }

    /// Returns a copy of this instruction.
    pub fn copy(&self) -> (r: CILOp)
        ensures
            r@ == self@,
    {
        match self {
            CILOp::LDLoc(x) => CILOp::LDLoc(*x),
            CILOp::LDLocA(x) => CILOp::LDLocA(*x),
            CILOp::STLoc(x) => CILOp::STLoc(*x),
            CILOp::LDArg(x) => CILOp::LDArg(*x),
            CILOp::LDArgA(x) => CILOp::LDArgA(*x),
            CILOp::STArg(x) => CILOp::STArg(*x),
            CILOp::Label(x) => CILOp::Label(*x),
            CILOp::GoTo(x) => CILOp::GoTo(*x),
            CILOp::BEq(x) => CILOp::BEq(*x),
            CILOp::Ret => CILOp::Ret,
            CILOp::LdcI32(x) => CILOp::LdcI32(*x),
            CILOp::LdcI64(x) => CILOp::LdcI64(*x),
            CILOp::Add => CILOp::Add,
            CILOp::Sub => CILOp::Sub,
            CILOp::Mul => CILOp::Mul,
            CILOp::Div => CILOp::Div,
            CILOp::Rem => CILOp::Rem,
            CILOp::And => CILOp::And,
            CILOp::Or => CILOp::Or,
            CILOp::XOr => CILOp::XOr,
            CILOp::Shl => CILOp::Shl,
            CILOp::Shr => CILOp::Shr,
            CILOp::Eq => CILOp::Eq,
            CILOp::Lt => CILOp::Lt,
            CILOp::Gt => CILOp::Gt,
            CILOp::Not => CILOp::Not,
            CILOp::Neg => CILOp::Neg,
            CILOp::ConvI8(x) => CILOp::ConvI8(*x),
            CILOp::ConvI16(x) => CILOp::ConvI16(*x),
            CILOp::ConvI32(x) => CILOp::ConvI32(*x),
            CILOp::ConvI64(x) => CILOp::ConvI64(*x),
            CILOp::ConvU8(x) => CILOp::ConvU8(*x),
            CILOp::ConvU16(x) => CILOp::ConvU16(*x),
            CILOp::ConvU32(x) => CILOp::ConvU32(*x),
            CILOp::ConvU64(x) => CILOp::ConvU64(*x),
            CILOp::ConvISize(x) => CILOp::ConvISize(*x),
            CILOp::ConvUSize(x) => CILOp::ConvUSize(*x),
            CILOp::ConvF32(x) => CILOp::ConvF32(*x),
            CILOp::ConvF64(x) => CILOp::ConvF64(*x),
            CILOp::LDField(x) => CILOp::LDField(x.copy()),
            CILOp::LDFieldAdress(x) => CILOp::LDFieldAdress(x.copy()),
            CILOp::STField(x) => CILOp::STField(x.copy()),
            CILOp::LDIndI8 => CILOp::LDIndI8,
            CILOp::LDIndI16 => CILOp::LDIndI16,
            CILOp::LDIndI32 => CILOp::LDIndI32,
            CILOp::LDIndI64 => CILOp::LDIndI64,
            CILOp::LDIndISize => CILOp::LDIndISize,
            CILOp::LDIndF32 => CILOp::LDIndF32,
            CILOp::LDIndF64 => CILOp::LDIndF64,
            CILOp::LdObj(x) => CILOp::LdObj(x.copy()),
            CILOp::STIndI8 => CILOp::STIndI8,
            CILOp::STIndI16 => CILOp::STIndI16,
            CILOp::STIndI32 => CILOp::STIndI32,
            CILOp::STIndI64 => CILOp::STIndI64,
            CILOp::STIndISize => CILOp::STIndISize,
            CILOp::STIndF32 => CILOp::STIndF32,
            CILOp::STIndF64 => CILOp::STIndF64,
            CILOp::STObj(x) => CILOp::STObj(x.copy()),
            CILOp::SizeOf(x) => CILOp::SizeOf(x.copy()),
            CILOp::CpBlk => CILOp::CpBlk,
            CILOp::Pop => CILOp::Pop,
            CILOp::Dup => CILOp::Dup,
            CILOp::NewTMPLocal(x) => CILOp::NewTMPLocal(x.copy()),
            CILOp::FreeTMPLocal => CILOp::FreeTMPLocal,
            CILOp::SetTMPLocal => CILOp::SetTMPLocal,
            CILOp::LoadTMPLocal => CILOp::LoadTMPLocal,
            CILOp::LoadAddresOfTMPLocal => CILOp::LoadAddresOfTMPLocal,
            CILOp::LoadUnderTMPLocal(x) => CILOp::LoadUnderTMPLocal(*x),
        }
    }
}

/// Appends `b` to `a`.
pub fn append_ops(a: &mut Vec<CILOp>, b: Vec<CILOp>)
    ensures
        ops_view(final(a)@) == ops_view(old(a)@) + ops_view(b@),
{
    let mut b = b;
    a.append(&mut b);
    proof {
        broadcast use group_ops;
    }
}

} // verus!
