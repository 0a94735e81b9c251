//! Lowering of statements.

use vstd::prelude::*;
use crate::cil::{append_ops, group_ops, ops_view, stack_net, CILOp, OpModel};
use crate::codegen_error::CodegenError;
use crate::mir::{Body, Operand, Statement, StatementKind};
use crate::operand::{handle_operand, operand_ops, operand_ty, operand_ty_spec};
use crate::place::{is_thin_ptr, place_set, place_set_ops};
use crate::rvalue::{handle_rvalue, rvalue_ops};
use crate::ty::{tys_view, Ty, TyCtxt, TyModel};
use crate::type_cache::{resolve, resolve_ty};

verus! {

broadcast use group_ops;

/// The type that a plain pointer type `t` points to.
pub open spec fn thin_pointee(t: TyModel) -> Option<TyModel> {
    if is_thin_ptr(t) {
        match t {
            TyModel::RawPtr(e) => Some(*e),
            TyModel::Ref(e) => Some(*e),
            _ => None,
        }
    } else {
        None
    }
}

/// The instructions that copy `count` values from `src` to `dst`.
#[verifier::opaque]
pub open spec fn copy_ops(
    ctx: TyCtxt,
    body: Body,
    args: Seq<TyModel>,
    src: Operand,
    dst: Operand,
    count: Operand,
) -> Option<Seq<OpModel>> {
    match (
        operand_ops(ctx, body, args, dst),
        operand_ops(ctx, body, args, src),
        operand_ops(ctx, body, args, count),
        operand_ty_spec(ctx, body, args, src),
    ) {
        (Some(d), Some(s), Some(c), Some(t)) => match thin_pointee(t) {
            Some(p) => Some(
                d + s + c + seq![OpModel::SizeOf(resolve(ctx, p)), OpModel::Mul, OpModel::CpBlk],
            ),
            None => None,
        },
        _ => None,
    }
}

/// The instructions of `statement`: an assignment computes its value, then
/// stores it; liveness markers emit nothing.
pub open spec fn statement_ops(ctx: TyCtxt, body: Body, args: Seq<TyModel>, statement: Statement) -> Option<
    Seq<OpModel>,
> {
    match statement.kind {
        StatementKind::Assign(place, rv) => match rvalue_ops(ctx, body, args, rv) {
            Some(value) => place_set_ops(ctx, body, args, place, value),
            None => None,
        },
        StatementKind::StorageLive(_) | StatementKind::StorageDead(_) | StatementKind::Nop => Some(
            Seq::empty(),
        ),
        StatementKind::CopyNonOverlapping { src, dst, count } => copy_ops(
            ctx,
            body,
            args,
            src,
            dst,
            count,
        ),
    }
}

fn thin_pointee_exec(t: &Ty) -> (r: Option<&Ty>)
    ensures
        r is Some <==> thin_pointee(t@) is Some,
        r is Some ==> r->0@ == thin_pointee(t@)->0,
{
    match t {
        Ty::RawPtr(e) => pointee_unless_slice(e),
        Ty::Ref(e) => pointee_unless_slice(e),
        _ => None,
    }
}

fn pointee_unless_slice(e: &Ty) -> (r: Option<&Ty>)
    ensures
        r is Some <==> !(e@ is Slice),
        r is Some ==> r->0 == e,
{
    match e {
        Ty::Slice(_) => None,
        _ => Some(e),
    }
}

fn handle_copy(ctx: &TyCtxt, body: &Body, args: &Vec<Ty>, src: &Operand, dst: &Operand, count: &Operand) -> (r:
    Result<Vec<CILOp>, CodegenError>)
    requires
        body.arg_count <= u32::MAX,
    ensures
        r is Ok <==> copy_ops(*ctx, *body, tys_view(args@), *src, *dst, *count) is Some,
        r is Ok ==> ops_view(r->Ok_0@) == copy_ops(*ctx, *body, tys_view(args@), *src, *dst, *count)->0,
        r is Ok ==> stack_net(ops_view(r->Ok_0@)) == 0,
{
    reveal(copy_ops);
    let mut ops = handle_operand(ctx, body, args, dst)?;
    let s = handle_operand(ctx, body, args, src)?;
    let c = handle_operand(ctx, body, args, count)?;
    let t = operand_ty(ctx, body, args, src)?;
    let pointee = match thin_pointee_exec(&t) {
        Some(p) => p,
        None => {
            return Err(CodegenError::unsupported("copy through a value that is not a plain pointer"));
        },
    };
    append_ops(&mut ops, s);
    append_ops(&mut ops, c);
    let tail = vec![CILOp::SizeOf(resolve_ty(ctx, pointee)), CILOp::Mul, CILOp::CpBlk];
    proof {
        let v = ops_view(tail@);
        assert(v =~= seq![v[0]].push(v[1]).push(v[2]));
    }
    append_ops(&mut ops, tail);
    Ok(ops)
}

/// Lowers `statement`. The instructions leave the stack as they found it.
pub fn handle_statement(ctx: &TyCtxt, body: &Body, args: &Vec<Ty>, statement: &Statement) -> (r:
    Result<Vec<CILOp>, CodegenError>)
    requires
        body.arg_count <= u32::MAX,
    ensures
        r is Ok <==> statement_ops(*ctx, *body, tys_view(args@), *statement) is Some,
        r is Ok ==> ops_view(r->Ok_0@) == statement_ops(*ctx, *body, tys_view(args@), *statement)->0,
        r is Ok ==> stack_net(ops_view(r->Ok_0@)) == 0,
        r is Ok && (statement.kind matches StatementKind::Assign(p, _) && p.projection@.len() == 0) ==> ops_view(r->Ok_0@).last()
            == crate::place::local_set_op(body.arg_count as nat, statement.kind->Assign_0.local as nat),
{
    match &statement.kind {
        StatementKind::Assign(place, rv) => {
            let value = handle_rvalue(ctx, body, args, rv)?;
            place_set(ctx, body, args, place, value)
        },
        StatementKind::StorageLive(_) | StatementKind::StorageDead(_) | StatementKind::Nop => {
            let r: Vec<CILOp> = Vec::new();
            assert(ops_view(r@) =~= Seq::<OpModel>::empty());
            Ok(r)
        },
        StatementKind::CopyNonOverlapping { src, dst, count } => handle_copy(ctx, body, args, src, dst, count),
    }
}

} // verus!
