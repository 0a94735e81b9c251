//! Construction of arrays, tuples, structs and enum variants in a scratch local.

use vstd::prelude::*;
use crate::cil::{append_ops, group_ops, ops_view, stack_net, CILOp, OpModel};
use crate::clr_type::Type;
use crate::codegen_error::CodegenError;
use crate::mir::{AggregateKind, Body, Operand};
use crate::operand::{handle_operand, operand_ops, operand_ty, operand_ty_spec};
use crate::place::{store_op, ptr_set_op_spec};
use crate::rvalue::lemma_net_five;
use crate::ty::{monomorphize, monomorphize_all, subst, substs, tys_view, AdtKind, Ty, TyCtxt, TyModel};
use crate::type_cache::{resolve, resolve_ty};
use crate::utilis::{enum_field_descriptor, field_desc, field_descrptor, tag_desc, tag_descriptor, variant_field_desc};

verus! {

broadcast use group_ops;

// ---------------------------------------------------------------- aggregates

/// The types of the values that `ops` read.
pub open spec fn operand_tys(ctx: TyCtxt, body: Body, args: Seq<TyModel>, ops: Seq<Operand>) -> Option<
    Seq<TyModel>,
>
    decreases ops.len(),
{
    if ops.len() == 0 {
        Some(Seq::empty())
    } else {
        match (
            operand_tys(ctx, body, args, ops.drop_last()),
            operand_ty_spec(ctx, body, args, ops.last()),
        ) {
            (Some(ts), Some(t)) => Some(ts.push(t)),
            _ => None,
        }
    }
}

/// The type of the value an aggregate of `kind` builds from `ops`.
pub open spec fn aggregate_ty(
    ctx: TyCtxt,
    body: Body,
    args: Seq<TyModel>,
    kind: AggregateKind,
    ops: Seq<Operand>,
) -> Option<TyModel> {
    match kind {
        AggregateKind::Array(e) => Some(TyModel::Array(Box::new(subst(e@, args)), ops.len() as u64)),
        AggregateKind::Tuple => match operand_tys(ctx, body, args, ops) {
            Some(ts) => Some(TyModel::Tuple(ts)),
            None => None,
        },
        AggregateKind::Adt(id, _, gargs) => Some(TyModel::Adt(id, substs(tys_view(gargs@), args))),
    }
}

/// The instructions that store the `i`-th value of an aggregate of `kind`,
/// which `value` pushes, into the scratch local of type `owner`.
#[verifier::opaque]
pub open spec fn aggregate_field_ops(
    ctx: TyCtxt,
    kind: AggregateKind,
    owner: TyModel,
    i: nat,
    value: Seq<OpModel>,
) -> Option<Seq<OpModel>> {
    match kind {
        AggregateKind::Array(_) => {
            let e = match owner {
                TyModel::Array(e, _) => *e,
                _ => owner,
            };
            Some(
                seq![
                    OpModel::LoadAddresOfTMPLocal,
                    OpModel::LdcI64(i as i64),
                    OpModel::SizeOf(resolve(ctx, e)),
                    OpModel::Mul,
                    OpModel::Add,
                ] + value.push(ptr_set_op_spec(resolve(ctx, e))),
            )
        },
        AggregateKind::Adt(id, v, _) => {
            let d = if (id as int) < ctx.adts@.len() && ctx.adts@[id as int].kind
                == AdtKind::Enum {
                variant_field_desc(ctx, owner, v, i as u32)
            } else {
                field_desc(ctx, owner, i as u32)
            };
            match d {
                Some(d) => Some(seq![OpModel::LoadAddresOfTMPLocal] + value.push(OpModel::STField(d))),
                None => None,
            }
        },
        AggregateKind::Tuple => match field_desc(ctx, owner, i as u32) {
            Some(d) => Some(seq![OpModel::LoadAddresOfTMPLocal] + value.push(OpModel::STField(d))),
            None => None,
        },
    }
}

/// The instructions that store the first `k` values of `ops` into the scratch local.
#[verifier::opaque]
pub open spec fn aggregate_fields(
    ctx: TyCtxt,
    body: Body,
    args: Seq<TyModel>,
    kind: AggregateKind,
    owner: TyModel,
    ops: Seq<Operand>,
    k: nat,
) -> Option<Seq<OpModel>>
    decreases k,
{
    if k == 0 {
        Some(Seq::empty())
    } else {
        match (
            aggregate_fields(ctx, body, args, kind, owner, ops, (k - 1) as nat),
            operand_ops(ctx, body, args, ops[k - 1]),
        ) {
            (Some(prev), Some(value)) => match aggregate_field_ops(
                ctx,
                kind,
                owner,
                (k - 1) as nat,
                value,
            ) {
                Some(f) => Some(prev + f),
                None => None,
            },
            _ => None,
        }
    }
}

/// The instructions that set the tag of the enum variant an aggregate builds.
#[verifier::opaque]
pub open spec fn aggregate_tag_ops(ctx: TyCtxt, kind: AggregateKind, owner: TyModel) -> Option<
    Seq<OpModel>,
> {
    match kind {
        AggregateKind::Adt(id, v, _) => if (id as int) < ctx.adts@.len() && ctx.adts@[id as int].kind
            == AdtKind::Enum {
            let d = tag_desc(ctx, owner)->0;
            if (v as int) >= ctx.adts@[id as int].variants@.len() || v > i32::MAX as u32 {
                None
            } else if d.tpe is Void {
                Some(Seq::empty())
            } else {
                Some(
                    seq![
                        OpModel::LoadAddresOfTMPLocal,
                        OpModel::LdcI32(v as i32),
                        OpModel::STField(d),
                    ],
                )
            }
        } else {
            Some(Seq::empty())
        },
        _ => Some(Seq::empty()),
    }
}

/// The instructions that build an aggregate of `kind` from `ops` in a scratch
/// local, the enum tag first, then each value in order, and push it.
#[verifier::opaque]
pub open spec fn aggregate_ops(
    ctx: TyCtxt,
    body: Body,
    args: Seq<TyModel>,
    kind: AggregateKind,
    ops: Seq<Operand>,
) -> Option<Seq<OpModel>> {
    match aggregate_ty(ctx, body, args, kind, ops) {
        Some(owner) => if crate::mangle::has_param(owner) || ops.len() > u32::MAX {
            None
        } else {
            match (
                aggregate_tag_ops(ctx, kind, owner),
                aggregate_fields(ctx, body, args, kind, owner, ops, ops.len()),
            ) {
                (Some(tag), Some(fields)) => Some(
                    seq![OpModel::NewTMPLocal(resolve(ctx, owner))] + tag + fields + seq![
                        OpModel::LoadTMPLocal,
                        OpModel::FreeTMPLocal,
                    ],
                ),
                _ => None,
            }
        },
        None => None,
    }
}

proof fn lemma_aggregate_fields_none(
    ctx: TyCtxt,
    body: Body,
    args: Seq<TyModel>,
    kind: AggregateKind,
    owner: TyModel,
    ops: Seq<Operand>,
    i: nat,
    j: nat,
)
    requires
        i <= j,
        aggregate_fields(ctx, body, args, kind, owner, ops, i) is None,
    ensures
        aggregate_fields(ctx, body, args, kind, owner, ops, j) is None,
    decreases j - i,
{
    reveal(aggregate_fields);
    if i < j {
        lemma_aggregate_fields_none(ctx, body, args, kind, owner, ops, i, (j - 1) as nat);
    }
}

proof fn lemma_operand_tys_none(ctx: TyCtxt, body: Body, args: Seq<TyModel>, ops: Seq<Operand>, i: int)
    requires
        0 <= i <= ops.len(),
        operand_tys(ctx, body, args, ops.subrange(0, i)) is None,
    ensures
        operand_tys(ctx, body, args, ops) is None,
    decreases ops.len() - i,
{
    if i < ops.len() {
        assert(ops.subrange(0, i + 1).drop_last() =~= ops.subrange(0, i));
        lemma_operand_tys_none(ctx, body, args, ops, i + 1);
    } else {
        assert(ops.subrange(0, i) =~= ops);
    }
}

/// The types of the values that `operands` read.
fn operand_types(ctx: &TyCtxt, body: &Body, args: &Vec<Ty>, operands: &Vec<Operand>) -> (r: Result<
    Vec<Ty>,
    CodegenError,
>)
    requires
        body.arg_count <= u32::MAX,
    ensures
        r is Ok <==> operand_tys(*ctx, *body, tys_view(args@), operands@) is Some,
        r is Ok ==> tys_view(r->Ok_0@) == operand_tys(*ctx, *body, tys_view(args@), operands@)->0,
{
    let mut r: Vec<Ty> = Vec::new();
    let mut i: usize = 0;
    assert(operands@.subrange(0, 0) =~= Seq::<Operand>::empty());
    while i < operands.len()
        invariant
            body.arg_count <= u32::MAX,
            i <= operands@.len(),
            operand_tys(*ctx, *body, tys_view(args@), operands@.subrange(0, i as int)) == Some(
                tys_view(r@),
            ),
        decreases operands@.len() - i,
    {
        proof {
            assert(operands@.subrange(0, i + 1).drop_last() =~= operands@.subrange(0, i as int));
            assert(operands@.subrange(0, i + 1).last() == operands@[i as int]);
        }
        let t = match operand_ty(ctx, body, args, &operands[i]) {
            Ok(t) => t,
            Err(e) => {
                proof {
                    lemma_operand_tys_none(*ctx, *body, tys_view(args@), operands@, i + 1);
                }
                return Err(e);
            },
        };
        proof {
            crate::ty::lemma_tys_view_push(r@, t);
        }
        r.push(t);
        i += 1;
    }
    assert(operands@.subrange(0, operands@.len() as int) =~= operands@);
    Ok(r)
}

fn aggregate_type(ctx: &TyCtxt, body: &Body, args: &Vec<Ty>, kind: &AggregateKind, operands: &Vec<Operand>) -> (r: Result<
    Ty,
    CodegenError,
>)
    requires
        body.arg_count <= u32::MAX,
    ensures
        r is Ok <==> aggregate_ty(*ctx, *body, tys_view(args@), *kind, operands@) is Some,
        r is Ok ==> r->Ok_0@ == aggregate_ty(*ctx, *body, tys_view(args@), *kind, operands@)->0,
{
    match kind {
        AggregateKind::Array(e) => {
            let n = operands.len() as u64;
            Ok(Ty::Array(Box::new(monomorphize(args, e)), n))
        },
        AggregateKind::Tuple => Ok(Ty::Tuple(operand_types(ctx, body, args, operands)?)),
        AggregateKind::Adt(id, _, gargs) => Ok(Ty::Adt(*id, monomorphize_all(args, gargs))),
    }
}

proof fn lemma_seq_net_3(s: Seq<OpModel>)
    requires
        s.len() == 3,
    ensures
        stack_net(s) == crate::cil::stack_diff(s[0]) + crate::cil::stack_diff(s[1])
            + crate::cil::stack_diff(s[2]),
{
    assert(s =~= seq![s[0]].push(s[1]).push(s[2]));
}

fn aggregate_field(
    ctx: &TyCtxt,
    kind: &AggregateKind,
    owner: &Ty,
    i: usize,
    value: Vec<CILOp>,
) -> (r: Result<Vec<CILOp>, CodegenError>)
    requires
        i <= u32::MAX,
        i <= i64::MAX,
        stack_net(ops_view(value@)) == 1,
    ensures
        r is Ok <==> aggregate_field_ops(*ctx, *kind, owner@, i as nat, ops_view(value@)) is Some,
        r is Ok ==> ops_view(r->Ok_0@) == aggregate_field_ops(
            *ctx,
            *kind,
            owner@,
            i as nat,
            ops_view(value@),
        )->0,
        r is Ok ==> stack_net(ops_view(r->Ok_0@)) == 0,
{
    reveal(aggregate_field_ops);
    let ghost v = ops_view(value@);
    match kind {
        AggregateKind::Array(_) => {
            let e = match owner {
                Ty::Array(e, _) => &**e,
                _ => owner,
            };
            let et = resolve_ty(ctx, e);
            let mut r = vec![
                CILOp::LoadAddresOfTMPLocal,
                CILOp::LdcI64(i as i64),
                CILOp::SizeOf(et.copy()),
                CILOp::Mul,
                CILOp::Add,
            ];
            proof {
                lemma_net_five(ops_view(r@));
            }
            let mut value = value;
            value.push(store_op(&et));
            append_ops(&mut r, value);
            assert(ops_view(r@) =~= aggregate_field_ops(*ctx, *kind, owner@, i as nat, v)->0);
            Ok(r)
        },
        AggregateKind::Adt(id, v_idx, _) => {
            let is_enum = (*id as usize) < ctx.adts.len() && ctx.adts[*id as usize].kind
                == AdtKind::Enum;
            let d = if is_enum {
                enum_field_descriptor(ctx, owner, i as u32, *v_idx)?
            } else {
                field_descrptor(ctx, owner, i as u32)?
            };
            let mut r = vec![CILOp::LoadAddresOfTMPLocal];
            let mut value = value;
            value.push(CILOp::STField(d));
            append_ops(&mut r, value);
            assert(ops_view(r@) =~= aggregate_field_ops(*ctx, *kind, owner@, i as nat, v)->0);
            Ok(r)
        },
        AggregateKind::Tuple => {
            let d = field_descrptor(ctx, owner, i as u32)?;
            let mut r = vec![CILOp::LoadAddresOfTMPLocal];
            let mut value = value;
            value.push(CILOp::STField(d));
            append_ops(&mut r, value);
            assert(ops_view(r@) =~= aggregate_field_ops(*ctx, *kind, owner@, i as nat, v)->0);
            Ok(r)
        },
    }
}

fn aggregate_tag(ctx: &TyCtxt, kind: &AggregateKind, owner: &Ty) -> (r: Result<
    Vec<CILOp>,
    CodegenError,
>)
    requires
        kind is Adt ==> owner@ is Adt && owner@->Adt_0 == kind->Adt_0,
    ensures
        r is Ok <==> aggregate_tag_ops(*ctx, *kind, owner@) is Some,
        r is Ok ==> ops_view(r->Ok_0@) == aggregate_tag_ops(*ctx, *kind, owner@)->0,
        r is Ok ==> stack_net(ops_view(r->Ok_0@)) == 0,
{
    reveal(aggregate_tag_ops);
    match kind {
        AggregateKind::Adt(id, v, _) => {
            if (*id as usize) < ctx.adts.len() && ctx.adts[*id as usize].kind
                == AdtKind::Enum {
                if (*v as usize) >= ctx.adts[*id as usize].variants.len() || *v > i32::MAX as u32 {
                    return Err(CodegenError::unsupported("no enum variant with such index"));
                }
                let d = match tag_descriptor(ctx, owner) {
                    Ok(d) => d,
                    Err(e) => {
                        assert(false);
                        return Err(e);
                    },
                };
                match d.tpe {
                    Type::Void => {
                        let r: Vec<CILOp> = Vec::new();
                        assert(ops_view(r@) =~= Seq::<OpModel>::empty());
                        Ok(r)
                    },
                    _ => {
                        let r = vec![CILOp::LoadAddresOfTMPLocal, CILOp::LdcI32(*v as i32), CILOp::STField(d)];
                        proof {
                            assert(ops_view(r@) =~= aggregate_tag_ops(*ctx, *kind, owner@)->0);
                            lemma_seq_net_3(ops_view(r@));
                        }
                        Ok(r)
                    },
                }
            } else {
                let r: Vec<CILOp> = Vec::new();
                assert(ops_view(r@) =~= Seq::<OpModel>::empty());
                Ok(r)
            }
        },
        _ => {
            let r: Vec<CILOp> = Vec::new();
            assert(ops_view(r@) =~= Seq::<OpModel>::empty());
            Ok(r)
        },
    }
}

fn aggregate_step(
    ctx: &TyCtxt,
    body: &Body,
    args: &Vec<Ty>,
    kind: &AggregateKind,
    owner: &Ty,
    operands: &Vec<Operand>,
    i: usize,
    fields: &mut Vec<CILOp>,
) -> (r: Result<(), CodegenError>)
    requires
        body.arg_count <= u32::MAX,
        i < operands@.len() <= u32::MAX,
        aggregate_fields(*ctx, *body, tys_view(args@), *kind, owner@, operands@, i as nat) == Some(
            ops_view(old(fields)@),
        ),
        stack_net(ops_view(old(fields)@)) == 0,
    ensures
        r is Ok ==> aggregate_fields(*ctx, *body, tys_view(args@), *kind, owner@, operands@, (i + 1) as nat)
            == Some(ops_view(final(fields)@)),
        r is Ok ==> stack_net(ops_view(final(fields)@)) == 0,
        r is Err ==> aggregate_fields(*ctx, *body, tys_view(args@), *kind, owner@, operands@, (i + 1) as nat) is None,
{
    reveal(aggregate_fields);
    let value = handle_operand(ctx, body, args, &operands[i])?;
    let f = aggregate_field(ctx, kind, owner, i, value)?;
    append_ops(fields, f);
    Ok(())
}

/// Builds the aggregate of `kind` from `operands` in a scratch local and pushes it.
pub fn handle_aggregate(
    ctx: &TyCtxt,
    body: &Body,
    args: &Vec<Ty>,
    kind: &AggregateKind,
    operands: &Vec<Operand>,
) -> (r: Result<Vec<CILOp>, CodegenError>)
    requires
        body.arg_count <= u32::MAX,
    ensures
        r is Ok <==> aggregate_ops(*ctx, *body, tys_view(args@), *kind, operands@) is Some,
        r is Ok ==> ops_view(r->Ok_0@) == aggregate_ops(
            *ctx,
            *body,
            tys_view(args@),
            *kind,
            operands@,
        )->0,
        r is Ok ==> stack_net(ops_view(r->Ok_0@)) == 1,
{
    reveal(aggregate_ops);
    let ghost gargs = tys_view(args@);
    let owner = aggregate_type(ctx, body, args, kind, operands)?;
    if crate::mangle::ty_has_param(&owner) {
        return Err(CodegenError::UnresolvedGeneric);
    }
    if operands.len() > u32::MAX as usize {
        return Err(CodegenError::unsupported("aggregate with too many values"));
    }
    let tag = aggregate_tag(ctx, kind, &owner)?;
    let mut fields: Vec<CILOp> = Vec::new();
    let mut i: usize = 0;
    assert(ops_view(fields@) =~= Seq::<OpModel>::empty());
    assert(aggregate_fields(*ctx, *body, gargs, *kind, owner@, operands@, 0) == Some(
        Seq::<OpModel>::empty(),
    )) by {
        reveal(aggregate_fields);
    }
    while i < operands.len()
        invariant
            gargs == tys_view(args@),
            aggregate_ty(*ctx, *body, gargs, *kind, operands@) == Some(owner@),
            !crate::mangle::has_param(owner@),
            aggregate_tag_ops(*ctx, *kind, owner@) == Some(ops_view(tag@)),
            stack_net(ops_view(tag@)) == 0,
            body.arg_count <= u32::MAX,
            operands@.len() <= u32::MAX,
            i <= operands@.len(),
            aggregate_fields(*ctx, *body, gargs, *kind, owner@, operands@, i as nat) == Some(
                ops_view(fields@),
            ),
            stack_net(ops_view(fields@)) == 0,
        decreases operands@.len() - i,
    {
        match aggregate_step(ctx, body, args, kind, &owner, operands, i, &mut fields) {
            Ok(()) => {},
            Err(e) => {
                proof {
                    lemma_aggregate_fields_none(*ctx, *body, gargs, *kind, owner@, operands@, (i + 1) as nat, operands@.len() as nat);
                    reveal(aggregate_ops);
                    assert(aggregate_ops(*ctx, *body, gargs, *kind, operands@) is None);
                }
                return Err(e);
            },
        }
        i += 1;
    }
    let mut r = vec![CILOp::NewTMPLocal(resolve_ty(ctx, &owner))];
    proof {
        assert(ops_view(r@) =~= seq![OpModel::NewTMPLocal(resolve(*ctx, owner@))]);
    }
    let ghost t0 = ops_view(tag@);
    let ghost f0 = ops_view(fields@);
    append_ops(&mut r, tag);
    append_ops(&mut r, fields);
    append_ops(&mut r, vec![CILOp::LoadTMPLocal, CILOp::FreeTMPLocal]);
    proof {
        assert(operands@.len() as nat == operands@.len());
        let tail = seq![OpModel::LoadTMPLocal, OpModel::FreeTMPLocal];
        let head = seq![OpModel::NewTMPLocal(resolve(*ctx, owner@))];
        assert(stack_net(head) == 0);
        assert(stack_net(tail) == 1) by {
            assert(tail =~= seq![tail[0]].push(tail[1]));
        }
        assert(ops_view(r@) == head + t0 + f0 + tail);
        assert(stack_net(ops_view(r@)) == stack_net(head) + stack_net(t0) + stack_net(f0) + stack_net(tail));
        assert(tail =~= seq![tail[0]].push(tail[1]));
        assert(ops_view(seq![CILOp::LoadTMPLocal, CILOp::FreeTMPLocal]) =~= tail);
    }
    Ok(r)
}

} // verus!
