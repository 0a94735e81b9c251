//! Operands and literals.

use vstd::prelude::*;
use crate::cil::{group_ops, ops_view, stack_net, CILOp, OpModel};
use crate::clr_type::{Type, TypeModel};
use crate::codegen_error::CodegenError;
use crate::mir::{Body, Constant, Operand, Place};
use crate::place::{place_get, place_get_ops, place_prefix, PlaceTy, PlaceTyModel};
use crate::place::place_prefix_exec;
use crate::ty::{monomorphize, subst, tys_view, Ty, TyCtxt, TyModel};
use crate::mangle::{has_param, ty_has_param};
use crate::type_cache::{resolve, resolve_ty};

verus! {

broadcast use group_ops;

/// `bits` read as a two's-complement number of `width` bits.
pub open spec fn signed_of(bits: int, width: nat) -> int {
    let m = bits % pow2(width);
    if m >= pow2((width - 1) as nat) {
        m - pow2(width)
    } else {
        m
    }
}

/// `bits` read as an unsigned number of `width` bits.
pub open spec fn unsigned_of(bits: int, width: nat) -> int {
    bits % pow2(width)
}

pub open spec fn pow2(width: nat) -> int {
    if width == 8 {
        0x100
    } else if width == 16 {
        0x1_0000
    } else if width == 32 {
        0x1_0000_0000
    } else if width == 64 {
        0x1_0000_0000_0000_0000
    } else if width == 7 {
        0x80
    } else if width == 15 {
        0x8000
    } else if width == 31 {
        0x8000_0000
    } else {
        0x8000_0000_0000_0000
    }
}

/// The instructions that push a literal of type `t` whose bits are `bits`.
pub open spec fn constant_ops(t: TypeModel, bits: u128) -> Option<Seq<OpModel>> {
    match t {
        TypeModel::I8 => Some(seq![OpModel::LdcI32(signed_of(bits as int, 8) as i32)]),
        TypeModel::I16 => Some(seq![OpModel::LdcI32(signed_of(bits as int, 16) as i32)]),
        TypeModel::I32 => Some(seq![OpModel::LdcI32(signed_of(bits as int, 32) as i32)]),
        TypeModel::I64 => Some(seq![OpModel::LdcI64(signed_of(bits as int, 64) as i64)]),
        TypeModel::U8 => Some(seq![OpModel::LdcI32(unsigned_of(bits as int, 8) as i32)]),
        TypeModel::U16 => Some(seq![OpModel::LdcI32(unsigned_of(bits as int, 16) as i32)]),
        TypeModel::U32 | TypeModel::Char => Some(
            seq![OpModel::LdcI32(signed_of(bits as int, 32) as i32)],
        ),
        TypeModel::U64 => Some(seq![OpModel::LdcI64(signed_of(bits as int, 64) as i64)]),
        TypeModel::ISize => Some(
            seq![
                OpModel::LdcI64(signed_of(bits as int, 64) as i64),
                OpModel::ConvISize(false),
            ],
        ),
        TypeModel::USize => Some(
            seq![
                OpModel::LdcI64(signed_of(bits as int, 64) as i64),
                OpModel::ConvUSize(false),
            ],
        ),
        TypeModel::Bool => Some(
            seq![
                OpModel::LdcI32(
                    if bits != 0 {
                        1
                    } else {
                        0
                    },
                ),
            ],
        ),
        _ => None,
    }
}

fn signed8(bits: u128) -> (r: i32)
    ensures
        r == signed_of(bits as int, 8),
{
    let m = (bits % 0x100) as i32;
    if m >= 0x80 {
        m - 0x100
    } else {
        m
    }
}

fn signed16(bits: u128) -> (r: i32)
    ensures
        r == signed_of(bits as int, 16),
{
    let m = (bits % 0x1_0000) as i32;
    if m >= 0x8000 {
        m - 0x1_0000
    } else {
        m
    }
}

fn signed32(bits: u128) -> (r: i32)
    ensures
        r == signed_of(bits as int, 32),
{
    let m = (bits % 0x1_0000_0000) as i64;
    if m >= 0x8000_0000 {
        (m - 0x1_0000_0000) as i32
    } else {
        m as i32
    }
}

fn signed64(bits: u128) -> (r: i64)
    ensures
        r == signed_of(bits as int, 64),
{
    let m = (bits % 0x1_0000_0000_0000_0000) as i128;
    if m >= 0x8000_0000_0000_0000 {
        (m - 0x1_0000_0000_0000_0000) as i64
    } else {
        m as i64
    }
}

/// Pushes a literal of type `var_type` whose bits, zero-extended, are `value`.
pub fn load_constant_primitive(var_type: &Type, value: u128) -> (r: Result<Vec<CILOp>, CodegenError>)
    ensures
        r is Ok <==> constant_ops(var_type@, value) is Some,
        r is Ok ==> ops_view(r->Ok_0@) == constant_ops(var_type@, value)->0,
        r is Ok ==> stack_net(ops_view(r->Ok_0@)) == 1,
        r is Err ==> r->Err_0 is Unsupported,
{
    let r = match var_type {
        Type::I8 => vec![CILOp::LdcI32(signed8(value))],
        Type::I16 => vec![CILOp::LdcI32(signed16(value))],
        Type::I32 => vec![CILOp::LdcI32(signed32(value))],
        Type::I64 => vec![CILOp::LdcI64(signed64(value))],
        Type::U8 => vec![CILOp::LdcI32((value % 0x100) as i32)],
        Type::U16 => vec![CILOp::LdcI32((value % 0x1_0000) as i32)],
        Type::U32 | Type::Char => vec![CILOp::LdcI32(signed32(value))],
        Type::U64 => vec![CILOp::LdcI64(signed64(value))],
        Type::ISize => vec![CILOp::LdcI64(signed64(value)), CILOp::ConvISize(false)],
        Type::USize => vec![CILOp::LdcI64(signed64(value)), CILOp::ConvUSize(false)],
        Type::Bool => vec![CILOp::LdcI32(if value != 0 { 1 } else { 0 })],
        _ => {
            return Err(CodegenError::unsupported("literal of this type"));
        },
    };
    proof {
        let v = ops_view(r@);
        assert(v =~= constant_ops(var_type@, value)->0);
        if v.len() == 2 {
            assert(v =~= seq![v[0]].push(v[1]));
        } else {
            assert(v =~= seq![v[0]]);
        }
    }
    Ok(r)
}

/// The type of `place`, when its path can be followed.
pub open spec fn place_ty_spec(ctx: TyCtxt, body: Body, args: Seq<TyModel>, place: Place) -> Option<
    TyModel,
> {
    match place_prefix(ctx, body, args, place, place.projection@.len()) {
        Some(p) => match p.1 {
            PlaceTyModel::Ty(t) => Some(t),
            _ => None,
        },
        None => None,
    }
}

/// The type of `place`.
pub fn place_ty(ctx: &TyCtxt, body: &Body, args: &Vec<Ty>, place: &Place) -> (r: Result<
    Ty,
    CodegenError,
>)
    requires
        body.arg_count <= u32::MAX,
    ensures
        r is Ok <==> place_ty_spec(*ctx, *body, tys_view(args@), *place) is Some,
        r is Ok ==> r->Ok_0@ == place_ty_spec(*ctx, *body, tys_view(args@), *place)->0,
{
    let (_ops, pt) = place_prefix_exec(ctx, body, args, place, place.projection.len())?;
    match pt {
        PlaceTy::Ty(t) => Ok(t),
        PlaceTy::EnumVariant(..) => Err(CodegenError::unsupported("enum variant as a value")),
    }
}

/// The type of the value that `op` reads.
pub open spec fn operand_ty_spec(ctx: TyCtxt, body: Body, args: Seq<TyModel>, op: Operand) -> Option<
    TyModel,
> {
    match op {
        Operand::Copy(p) => place_ty_spec(ctx, body, args, p),
        Operand::Move(p) => place_ty_spec(ctx, body, args, p),
        Operand::Constant(c) => if has_param(subst(c.ty@, args)) {
            None
        } else {
            Some(subst(c.ty@, args))
        },
    }
}

/// The type of the value that `op` reads.
pub fn operand_ty(ctx: &TyCtxt, body: &Body, args: &Vec<Ty>, op: &Operand) -> (r: Result<
    Ty,
    CodegenError,
>)
    requires
        body.arg_count <= u32::MAX,
    ensures
        r is Ok <==> operand_ty_spec(*ctx, *body, tys_view(args@), *op) is Some,
        r is Ok ==> r->Ok_0@ == operand_ty_spec(*ctx, *body, tys_view(args@), *op)->0,
{
    match op {
        Operand::Copy(p) | Operand::Move(p) => place_ty(ctx, body, args, p),
        Operand::Constant(c) => {
            let t = monomorphize(args, &c.ty);
            if ty_has_param(&t) {
                Err(CodegenError::UnresolvedGeneric)
            } else {
                Ok(t)
            }
        },
    }
}

/// The instructions that push the value of `op`; a move reads like a copy.
pub open spec fn operand_ops(ctx: TyCtxt, body: Body, args: Seq<TyModel>, op: Operand) -> Option<
    Seq<OpModel>,
> {
    match op {
        Operand::Copy(p) => place_get_ops(ctx, body, args, p),
        Operand::Move(p) => place_get_ops(ctx, body, args, p),
        Operand::Constant(c) => if has_param(subst(c.ty@, args)) {
            None
        } else {
            constant_ops(resolve(ctx, subst(c.ty@, args)), c.bits)
        },
    }
}

/// Pushes the value of `operand`.
pub fn handle_operand(ctx: &TyCtxt, body: &Body, args: &Vec<Ty>, operand: &Operand) -> (r: Result<
    Vec<CILOp>,
    CodegenError,
>)
    requires
        body.arg_count <= u32::MAX,
    ensures
        operand matches Operand::Constant(c) && has_param(subst(c.ty@, tys_view(args@))) ==> r matches Err(
            CodegenError::UnresolvedGeneric,
        ),
        r is Ok <==> operand_ops(*ctx, *body, tys_view(args@), *operand) is Some,
        r is Ok ==> ops_view(r->Ok_0@) == operand_ops(*ctx, *body, tys_view(args@), *operand)->0,
        r is Ok ==> stack_net(ops_view(r->Ok_0@)) == 1,
{
    match operand {
        Operand::Copy(p) | Operand::Move(p) => place_get(ctx, body, args, p),
        Operand::Constant(c) => {
            let t = monomorphize(args, &c.ty);
            if ty_has_param(&t) {
                return Err(CodegenError::UnresolvedGeneric);
            }
            load_constant_primitive(&resolve_ty(ctx, &t), c.bits)
        },
    }
}

} // verus!
