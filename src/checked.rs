//! Arithmetic that also reports whether it overflowed.

use vstd::prelude::*;
use crate::cil::{append_ops, group_ops, ops_view, stack_net, CILOp, OpModel};
use crate::clr_type::{Type, TypeModel};
use crate::codegen_error::CodegenError;
use crate::mir::{BinOp, Body, Operand};
use crate::operand::{handle_operand, operand_ops, operand_ty, operand_ty_spec};
use crate::rvalue::int_conv;
use crate::ty::{tys_view, Ty, TyCtxt, TyModel};
use crate::type_cache::{resolve, resolve_ty};
use crate::utilis::{field_desc, field_descrptor};

verus! {

broadcast use group_ops;

/// The conversion to 64 bits that keeps every value of `t`, an integer type of at most 32 bits.
pub open spec fn widen_op(t: TypeModel) -> Option<OpModel> {
    match t {
        TypeModel::I8 | TypeModel::I16 | TypeModel::I32 => Some(OpModel::ConvI64(false)),
        TypeModel::U8 | TypeModel::U16 | TypeModel::U32 => Some(OpModel::ConvU64(false)),
        _ => None,
    }
}

/// The operations that have a checked form.
pub open spec fn checked_arith(op: BinOp) -> Option<OpModel> {
    match op {
        BinOp::Add => Some(OpModel::Add),
        BinOp::Sub => Some(OpModel::Sub),
        BinOp::Mul => Some(OpModel::Mul),
        _ => None,
    }
}

/// The instructions of a checked operation on operands of type `t`: both
/// operands are widened to 64 bits, where the exact result fits, and kept in a
/// scratch local; the pair `(result, overflowed)` is then built in a second
/// one, the flag set when narrowing the exact result to `t` changes it.
pub open spec fn checked_tail(ctx: TyCtxt, t: TyModel, a: Seq<OpModel>, b: Seq<OpModel>, op: OpModel) -> Option<
    Seq<OpModel>,
> {
    let tt = resolve(ctx, t);
    match (widen_op(tt), int_conv(tt)) {
        (Some(w), Some(n)) => {
            let pair = TyModel::Tuple(seq![t, TyModel::Bool]);
            let value = field_desc(ctx, pair, 0)->0;
            let flag = field_desc(ctx, pair, 1)->0;
            Some(
                seq![OpModel::NewTMPLocal(TypeModel::I64)] + a + seq![w] + b + seq![
                    w,
                    op,
                    OpModel::SetTMPLocal,
                    OpModel::NewTMPLocal(resolve(ctx, pair)),
                    OpModel::LoadAddresOfTMPLocal,
                    OpModel::LoadUnderTMPLocal(1),
                    n,
                    OpModel::STField(value),
                    OpModel::LoadAddresOfTMPLocal,
                    OpModel::LoadUnderTMPLocal(1),
                    n,
                    w,
                    OpModel::LoadUnderTMPLocal(1),
                    OpModel::Eq,
                    OpModel::LdcI32(0),
                    OpModel::Eq,
                    OpModel::STField(flag),
                    OpModel::LoadTMPLocal,
                    OpModel::FreeTMPLocal,
                    OpModel::FreeTMPLocal,
                ],
            )
        },
        _ => None,
    }
}

/// The instructions of a checked binary operation, which pushes the pair of
/// the wrapped result and whether it overflowed.
#[verifier::opaque]
pub open spec fn checked_binary_ops(
    ctx: TyCtxt,
    body: Body,
    args: Seq<TyModel>,
    op: BinOp,
    a: Operand,
    b: Operand,
) -> Option<Seq<OpModel>> {
    match (
        operand_ops(ctx, body, args, a),
        operand_ops(ctx, body, args, b),
        operand_ty_spec(ctx, body, args, a),
        checked_arith(op),
    ) {
        (Some(x), Some(y), Some(t), Some(o)) => checked_tail(ctx, t, x, y, o),
        _ => None,
    }
}

fn widen_exec(t: &Type) -> (r: Option<CILOp>)
    ensures
        r is Some <==> widen_op(t@) is Some,
        r is Some ==> r->0@ == widen_op(t@)->0,
{
    match t {
        Type::I8 | Type::I16 | Type::I32 => Some(CILOp::ConvI64(false)),
        Type::U8 | Type::U16 | Type::U32 => Some(CILOp::ConvU64(false)),
        _ => None,
    }
}

fn narrow_exec(t: &Type) -> (r: Option<CILOp>)
    ensures
        r is Some <==> int_conv(t@) is Some,
        r is Some ==> r->0@ == int_conv(t@)->0,
{
    match t {
        Type::I8 => Some(CILOp::ConvI8(false)),
        Type::I16 => Some(CILOp::ConvI16(false)),
        Type::I32 => Some(CILOp::ConvI32(false)),
        Type::I64 => Some(CILOp::ConvI64(false)),
        Type::ISize => Some(CILOp::ConvISize(false)),
        Type::U8 => Some(CILOp::ConvU8(false)),
        Type::U16 => Some(CILOp::ConvU16(false)),
        Type::U32 | Type::Char => Some(CILOp::ConvU32(false)),
        Type::U64 => Some(CILOp::ConvU64(false)),
        Type::USize => Some(CILOp::ConvUSize(false)),
        _ => None,
    }
}

fn arith_exec(op: BinOp) -> (r: Option<CILOp>)
    ensures
        r is Some <==> checked_arith(op) is Some,
        r is Some ==> r->0@ == checked_arith(op)->0,
{
    match op {
        BinOp::Add => Some(CILOp::Add),
        BinOp::Sub => Some(CILOp::Sub),
        BinOp::Mul => Some(CILOp::Mul),
        _ => None,
    }
}

/// The instructions of a checked operation that follow its second operand.
fn pair_tail(w: CILOp, n: CILOp, o: CILOp, pair_type: Type, value: crate::clr_type::FieldDescriptor, flag: crate::clr_type::FieldDescriptor) -> (r: Vec<CILOp>)
    requires
        w@ is ConvI64 || w@ is ConvU64,
        n@ is ConvI8 || n@ is ConvI16 || n@ is ConvI32 || n@ is ConvI64 || n@ is ConvISize || n@ is ConvU8
            || n@ is ConvU16 || n@ is ConvU32 || n@ is ConvU64 || n@ is ConvUSize,
        o@ is Add || o@ is Sub || o@ is Mul,
    ensures
        ops_view(r@) == seq![
            w@,
            o@,
            OpModel::SetTMPLocal,
            OpModel::NewTMPLocal(pair_type@),
            OpModel::LoadAddresOfTMPLocal,
            OpModel::LoadUnderTMPLocal(1),
            n@,
            OpModel::STField(value@),
            OpModel::LoadAddresOfTMPLocal,
            OpModel::LoadUnderTMPLocal(1),
            n@,
            w@,
            OpModel::LoadUnderTMPLocal(1),
            OpModel::Eq,
            OpModel::LdcI32(0),
            OpModel::Eq,
            OpModel::STField(flag@),
            OpModel::LoadTMPLocal,
            OpModel::FreeTMPLocal,
            OpModel::FreeTMPLocal,
        ],
        stack_net(ops_view(r@)) == -1,
{
    let mut r: Vec<CILOp> = Vec::new();
    assert(ops_view(r@) =~= Seq::<OpModel>::empty());
    r.push(w.copy());
    r.push(o);
    r.push(CILOp::SetTMPLocal);
    r.push(CILOp::NewTMPLocal(pair_type));
    r.push(CILOp::LoadAddresOfTMPLocal);
    r.push(CILOp::LoadUnderTMPLocal(1));
    r.push(n.copy());
    r.push(CILOp::STField(value));
    r.push(CILOp::LoadAddresOfTMPLocal);
    r.push(CILOp::LoadUnderTMPLocal(1));
    r.push(n);
    r.push(w);
    r.push(CILOp::LoadUnderTMPLocal(1));
    r.push(CILOp::Eq);
    r.push(CILOp::LdcI32(0));
    r.push(CILOp::Eq);
    r.push(CILOp::STField(flag));
    r.push(CILOp::LoadTMPLocal);
    r.push(CILOp::FreeTMPLocal);
    r.push(CILOp::FreeTMPLocal);
    r
}

/// Pushes the pair of the wrapped result of `op` on `a` and `b` and whether it overflowed.
pub fn binop_checked(ctx: &TyCtxt, body: &Body, args: &Vec<Ty>, op: BinOp, a: &Operand, b: &Operand) -> (r:
    Result<Vec<CILOp>, CodegenError>)
    requires
        body.arg_count <= u32::MAX,
    ensures
        r is Ok <==> checked_binary_ops(*ctx, *body, tys_view(args@), op, *a, *b) is Some,
        r is Ok ==> ops_view(r->Ok_0@) == checked_binary_ops(*ctx, *body, tys_view(args@), op, *a, *b)->0,
        r is Ok ==> stack_net(ops_view(r->Ok_0@)) == 1,
{
    reveal(checked_binary_ops);
    let x = handle_operand(ctx, body, args, a)?;
    let y = handle_operand(ctx, body, args, b)?;
    let t = operand_ty(ctx, body, args, a)?;
    let o = match arith_exec(op) {
        Some(o) => o,
        None => {
            return Err(CodegenError::unsupported("checked form of this operation"));
        },
    };
    let tt = resolve_ty(ctx, &t);
    let (w, n) = match (widen_exec(&tt), narrow_exec(&tt)) {
        (Some(w), Some(n)) => (w, n),
        _ => {
            return Err(CodegenError::unsupported("checked operation on this type"));
        },
    };
    let elems = vec![crate::ty::copy_ty(&t), Ty::Bool];
    proof {
        let s = elems@;
        crate::ty::lemma_tys_view(s);
        assert(tys_view(s)[0] == t@);
        assert(tys_view(s)[1] == TyModel::Bool);
        assert(tys_view(s) =~= seq![t@, TyModel::Bool]);
    }
    let pair = Ty::Tuple(elems);
    let value = match field_descrptor(ctx, &pair, 0) {
        Ok(d) => d,
        Err(e) => {
            return Err(e);
        },
    };
    let flag = match field_descrptor(ctx, &pair, 1) {
        Ok(d) => d,
        Err(e) => {
            return Err(e);
        },
    };
    let pair_type = resolve_ty(ctx, &pair);
    let tail = pair_tail(w.copy(), n, o, pair_type, value, flag);
    let mut r = vec![CILOp::NewTMPLocal(Type::I64)];
    proof {
        assert(ops_view(r@) =~= seq![OpModel::NewTMPLocal(TypeModel::I64)]);
    }
    append_ops(&mut r, x);
    r.push(w);
    append_ops(&mut r, y);
    append_ops(&mut r, tail);
    proof {
        assert(ops_view(r@) =~= checked_binary_ops(*ctx, *body, tys_view(args@), op, *a, *b)->0);
    }
    Ok(r)
}

} // verus!
