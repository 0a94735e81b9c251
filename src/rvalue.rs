//! Casts, operators, alignment and the lowering of rvalues.

use vstd::prelude::*;
use crate::cil::{append_ops, group_ops, ops_view, stack_net, CILOp, OpModel};
use crate::clr_type::{FieldDescriptor, FieldModel, Type, TypeModel};
use crate::codegen_error::CodegenError;
use crate::mir::{BinOp, Body, CastKind, NullOp, Operand, Rvalue, UnOp};
use crate::operand::{handle_operand, operand_ops, operand_ty, operand_ty_spec, place_ty, place_ty_spec, signed_of, unsigned_of};
use crate::place::{deref_op, deref_op_spec, place_adress, place_adress_ops, place_get, place_get_ops};
use crate::ty::{monomorphize, subst, tys_view, FloatTy, IntTy, Ty, TyCtxt, TyModel, UintTy};
use crate::type_cache::{resolve, resolve_ty, slice_ref, slice_type};
use crate::utilis::{tag_desc, tag_descriptor};




verus! {

broadcast use group_ops;

// ---------------------------------------------------------------- casts

/// Whether `t` is an integer type, or a type that converts like one (`bool`, `char`).
pub open spec fn is_int_like(t: TypeModel) -> bool {
    match t {
        TypeModel::I8 | TypeModel::I16 | TypeModel::I32 | TypeModel::I64 | TypeModel::ISize
        | TypeModel::U8 | TypeModel::U16 | TypeModel::U32 | TypeModel::U64 | TypeModel::USize
        | TypeModel::Bool | TypeModel::Char => true,
        _ => false,
    }
}

pub open spec fn is_float(t: TypeModel) -> bool {
    t is F32 || t is F64
}

/// The conversion to the integer type `t`, if it is one the target can convert to.
pub open spec fn int_conv(t: TypeModel) -> Option<OpModel> {
    match t {
        TypeModel::I8 => Some(OpModel::ConvI8(false)),
        TypeModel::I16 => Some(OpModel::ConvI16(false)),
        TypeModel::I32 => Some(OpModel::ConvI32(false)),
        TypeModel::I64 => Some(OpModel::ConvI64(false)),
        TypeModel::ISize => Some(OpModel::ConvISize(false)),
        TypeModel::U8 => Some(OpModel::ConvU8(false)),
        TypeModel::U16 => Some(OpModel::ConvU16(false)),
        TypeModel::U32 | TypeModel::Char => Some(OpModel::ConvU32(false)),
        TypeModel::U64 => Some(OpModel::ConvU64(false)),
        TypeModel::USize => Some(OpModel::ConvUSize(false)),
        _ => None,
    }
}

/// The conversion to the float type `t`.
pub open spec fn float_conv(t: TypeModel) -> Option<OpModel> {
    match t {
        TypeModel::F32 => Some(OpModel::ConvF32(false)),
        TypeModel::F64 => Some(OpModel::ConvF64(false)),
        _ => None,
    }
}

/// The instructions of a numeric cast of `kind` from `src` to `dst`; every
/// pair outside the table is refused, never approximated.
pub open spec fn numeric_cast_ops(kind: CastKind, src: TypeModel, dst: TypeModel) -> Option<
    Seq<OpModel>,
> {
    match kind {
        CastKind::IntToInt => if is_int_like(src) && int_conv(dst) is Some {
            Some(seq![int_conv(dst)->0])
        } else {
            None
        },
        CastKind::FloatToInt => if is_float(src) && int_conv(dst) is Some {
            Some(seq![int_conv(dst)->0])
        } else {
            None
        },
        CastKind::IntToFloat => if is_int_like(src) && float_conv(dst) is Some {
            Some(seq![float_conv(dst)->0])
        } else {
            None
        },
        CastKind::FloatToFloat => if is_float(src) && float_conv(dst) is Some {
            Some(seq![float_conv(dst)->0])
        } else {
            None
        },
        _ => None,
    }
}

fn int_conv_exec(t: &Type) -> (r: Option<CILOp>)
    ensures
        r is Some <==> int_conv(t@) is Some,
        r is Some ==> r->0@ == int_conv(t@)->0,
{
    match t {
        Type::I8 => Some(CILOp::ConvI8(false)),
        Type::I16 => Some(CILOp::ConvI16(false)),
        Type::I32 => Some(CILOp::ConvI32(false)),
        Type::I64 => Some(CILOp::ConvI64(false)),
        Type::ISize => Some(CILOp::ConvISize(false)),
        Type::U8 => Some(CILOp::ConvU8(false)),
        Type::U16 => Some(CILOp::ConvU16(false)),
        Type::U32 | Type::Char => Some(CILOp::ConvU32(false)),
        Type::U64 => Some(CILOp::ConvU64(false)),
        Type::USize => Some(CILOp::ConvUSize(false)),
        _ => None,
    }
}

fn float_conv_exec(t: &Type) -> (r: Option<CILOp>)
    ensures
        r is Some <==> float_conv(t@) is Some,
        r is Some ==> r->0@ == float_conv(t@)->0,
{
    match t {
        Type::F32 => Some(CILOp::ConvF32(false)),
        Type::F64 => Some(CILOp::ConvF64(false)),
        _ => None,
    }
}

fn int_like(t: &Type) -> (r: bool)
    ensures
        r == is_int_like(t@),
{
    match t {
        Type::I8 | Type::I16 | Type::I32 | Type::I64 | Type::ISize | Type::U8 | Type::U16
        | Type::U32 | Type::U64 | Type::USize | Type::Bool | Type::Char => true,
        _ => false,
    }
}

fn float_like(t: &Type) -> (r: bool)
    ensures
        r == is_float(t@),
{
    match t {
        Type::F32 | Type::F64 => true,
        _ => false,
    }
}

/// The instructions of a numeric cast of `kind` from `src` to `dest`.
pub fn convert(kind: CastKind, src: &Type, dest: &Type) -> (r: Result<Vec<CILOp>, CodegenError>)
    ensures
        r is Ok <==> numeric_cast_ops(kind, src@, dest@) is Some,
        r is Ok ==> ops_view(r->Ok_0@) == numeric_cast_ops(kind, src@, dest@)->0,
        r is Err ==> r->Err_0 is Unsupported,
{
    let (src_ok, conv) = match kind {
        CastKind::IntToInt => (int_like(src), int_conv_exec(dest)),
        CastKind::FloatToInt => (float_like(src), int_conv_exec(dest)),
        CastKind::IntToFloat => (int_like(src), float_conv_exec(dest)),
        CastKind::FloatToFloat => (float_like(src), float_conv_exec(dest)),
        _ => (false, None),
    };
    match conv {
        Some(op) => if src_ok {
            let r = vec![op];
            assert(ops_view(r@) =~= numeric_cast_ops(kind, src@, dest@)->0);
            Ok(r)
        } else {
            Err(CodegenError::unsupported("cast between these types"))
        },
        None => Err(CodegenError::unsupported("cast between these types")),
    }
}

/// The value an integer conversion leaves, given the value `v` it converts.
pub open spec fn conv_value(op: OpModel, v: int) -> int {
    match op {
        OpModel::ConvI8(_) => signed_of(v, 8),
        OpModel::ConvI16(_) => signed_of(v, 16),
        OpModel::ConvI32(_) => signed_of(v, 32),
        OpModel::ConvI64(_) | OpModel::ConvISize(_) => signed_of(v, 64),
        OpModel::ConvU8(_) => unsigned_of(v, 8),
        OpModel::ConvU16(_) => unsigned_of(v, 16),
        OpModel::ConvU32(_) => unsigned_of(v, 32),
        OpModel::ConvU64(_) | OpModel::ConvUSize(_) => unsigned_of(v, 64),
        _ => v,
    }
}

/// Narrowing an `i64` to `u8` and widening it back keeps the value modulo 256,
/// not the value: the cast truncates.
pub proof fn lemma_narrow_then_widen(x: i64)
    ensures
        ({
            let narrow = numeric_cast_ops(CastKind::IntToInt, TypeModel::I64, TypeModel::U8)->0;
            let widen = numeric_cast_ops(CastKind::IntToInt, TypeModel::U8, TypeModel::I64)->0;
            &&& narrow == seq![OpModel::ConvU8(false)]
            &&& widen == seq![OpModel::ConvI64(false)]
            &&& conv_value(widen[0], conv_value(narrow[0], x as int)) == (x as int) % 256
        }),
{
    let m = (x as int) % 256;
    assert(0 <= m < 256);
    assert(unsigned_of(x as int, 8) == m);
    assert(m % 0x1_0000_0000_0000_0000 == m);
    assert(signed_of(m, 64) == m);
}

// ---------------------------------------------------------------- operators

/// The instructions that combine the two values on top of the stack.
pub open spec fn binop_ops(op: BinOp) -> Seq<OpModel> {
    match op {
        BinOp::Add => seq![OpModel::Add],
        BinOp::Sub => seq![OpModel::Sub],
        BinOp::Mul => seq![OpModel::Mul],
        BinOp::Div => seq![OpModel::Div],
        BinOp::Rem => seq![OpModel::Rem],
        BinOp::BitAnd => seq![OpModel::And],
        BinOp::BitOr => seq![OpModel::Or],
        BinOp::BitXor => seq![OpModel::XOr],
        BinOp::Shl => seq![OpModel::Shl],
        BinOp::Shr => seq![OpModel::Shr],
        BinOp::Eq => seq![OpModel::Eq],
        BinOp::Lt => seq![OpModel::Lt],
        BinOp::Gt => seq![OpModel::Gt],
        BinOp::Ne => seq![OpModel::Eq, OpModel::LdcI32(0), OpModel::Eq],
        BinOp::Le => seq![OpModel::Gt, OpModel::LdcI32(0), OpModel::Eq],
        BinOp::Ge => seq![OpModel::Lt, OpModel::LdcI32(0), OpModel::Eq],
    }
}

fn binop_exec(op: BinOp) -> (r: Vec<CILOp>)
    ensures
        ops_view(r@) == binop_ops(op),
        stack_net(ops_view(r@)) == -1,
{
    let r = match op {
        BinOp::Add => vec![CILOp::Add],
        BinOp::Sub => vec![CILOp::Sub],
        BinOp::Mul => vec![CILOp::Mul],
        BinOp::Div => vec![CILOp::Div],
        BinOp::Rem => vec![CILOp::Rem],
        BinOp::BitAnd => vec![CILOp::And],
        BinOp::BitOr => vec![CILOp::Or],
        BinOp::BitXor => vec![CILOp::XOr],
        BinOp::Shl => vec![CILOp::Shl],
        BinOp::Shr => vec![CILOp::Shr],
        BinOp::Eq => vec![CILOp::Eq],
        BinOp::Lt => vec![CILOp::Lt],
        BinOp::Gt => vec![CILOp::Gt],
        BinOp::Ne => vec![CILOp::Eq, CILOp::LdcI32(0), CILOp::Eq],
        BinOp::Le => vec![CILOp::Gt, CILOp::LdcI32(0), CILOp::Eq],
        BinOp::Ge => vec![CILOp::Lt, CILOp::LdcI32(0), CILOp::Eq],
    };
    let ghost s = ops_view(r@);
    proof {
        assert(s =~= binop_ops(op));
        if s.len() == 3 {
            assert(s =~= seq![s[0]].push(s[1]).push(s[2]));
        } else {
            assert(s =~= seq![s[0]]);
        }
    }
    r
}

/// The instructions that apply `op` to the value on top of the stack, of type `t`.
pub open spec fn unop_ops(op: UnOp, t: TypeModel) -> Seq<OpModel> {
    match op {
        UnOp::Not => if t is Bool {
            seq![OpModel::LdcI32(0), OpModel::Eq]
        } else {
            seq![OpModel::Not]
        },
        UnOp::Neg => seq![OpModel::Neg],
    }
}

fn unop_exec(op: UnOp, t: &Type) -> (r: Vec<CILOp>)
    ensures
        ops_view(r@) == unop_ops(op, t@),
        stack_net(ops_view(r@)) == 0,
{
    let r = match op {
        UnOp::Not => match t {
            Type::Bool => vec![CILOp::LdcI32(0), CILOp::Eq],
            _ => vec![CILOp::Not],
        },
        UnOp::Neg => vec![CILOp::Neg],
    };
    let ghost s = ops_view(r@);
    proof {
        assert(s =~= unop_ops(op, t@));
        if s.len() == 2 {
            assert(s =~= seq![s[0]].push(s[1]));
        } else {
            assert(s =~= seq![s[0]]);
        }
    }
    r
}


// ---------------------------------------------------------------- alignment

/// The alignment in bytes of `t` on a 64-bit target; pointers and data types
/// are taken as 8-byte aligned.
pub open spec fn align_of_spec(t: TyModel) -> u64
    decreases t,
{
    match t {
        TyModel::Int(IntTy::I8) | TyModel::Uint(UintTy::U8) | TyModel::Bool => 1,
        TyModel::Int(IntTy::I16) | TyModel::Uint(UintTy::U16) => 2,
        TyModel::Int(IntTy::I32) | TyModel::Uint(UintTy::U32) | TyModel::Char => 4,
        TyModel::Float(FloatTy::F32) => 4,
        TyModel::Int(IntTy::I128) | TyModel::Uint(UintTy::U128) => 16,
        TyModel::Tuple(es) => max_align(es),
        TyModel::Array(e, _) => align_of_spec(*e),
        TyModel::Slice(e) => align_of_spec(*e),
        _ => 8,
    }
}

/// The largest alignment of `ts`, and 1 for none.
pub open spec fn max_align(ts: Seq<TyModel>) -> u64
    decreases ts,
{
    if ts.len() == 0 {
        1
    } else {
        let a = max_align(ts.drop_last());
        let b = align_of_spec(ts.last());
        if a >= b {
            a
        } else {
            b
        }
    }
}

/// The alignment in bytes of `ty`.
pub fn align_of(ty: &Ty) -> (r: u64)
    ensures
        r == align_of_spec(ty@),
    decreases ty,
{
    match ty {
        Ty::Int(IntTy::I8) | Ty::Uint(UintTy::U8) | Ty::Bool => 1,
        Ty::Int(IntTy::I16) | Ty::Uint(UintTy::U16) => 2,
        Ty::Int(IntTy::I32) | Ty::Uint(UintTy::U32) | Ty::Char => 4,
        Ty::Float(FloatTy::F32) => 4,
        Ty::Int(IntTy::I128) | Ty::Uint(UintTy::U128) => 16,
        Ty::Tuple(es) => max_align_all(es),
        Ty::Array(e, _) => align_of(e),
        Ty::Slice(e) => align_of(e),
        Ty::Float(FloatTy::F64) => 8,
        _ => 8,
    }
}

/// The largest alignment of `ts`, and 1 for none.
fn max_align_all(ts: &Vec<Ty>) -> (r: u64)
    ensures
        r == max_align(tys_view(ts@)),
    decreases ts,
{
    let mut a: u64 = 1;
    let mut i: usize = 0;
    while i < ts.len()
        invariant
            i <= ts@.len(),
            a == max_align(tys_view(ts@.subrange(0, i as int))),
        decreases ts@.len() - i,
    {
        proof {
            assert(decreases_to!(ts => ts@[i as int]));
        }
        let b = align_of(&ts[i]);
        proof {
            crate::ty::lemma_tys_view_push(ts@.subrange(0, i as int), ts@[i as int]);
            assert(ts@.subrange(0, i as int).push(ts@[i as int]) =~= ts@.subrange(0, i + 1));
            let v = tys_view(ts@.subrange(0, i + 1));
            assert(v.drop_last() =~= tys_view(ts@.subrange(0, i as int)));
        }
        if b > a {
            a = b;
        }
        i += 1;
    }
    assert(ts@.subrange(0, ts@.len() as int) =~= ts@);
    a
}

// ---------------------------------------------------------------- rvalues

/// The field of a slice value that holds its length.
pub open spec fn slice_len_desc(ctx: TyCtxt, elem: TyModel) -> FieldModel {
    FieldModel { owner: slice_ref(ctx, elem), tpe: TypeModel::USize, name: "metadata"@ }
}

/// The instructions that make the array pointer on top of the stack, whose
/// type is `src`, a slice value of `len` elements of `elem`.
pub open spec fn unsize_ops(ctx: TyCtxt, src: TyModel, elem: TyModel, len: u64) -> Seq<OpModel> {
    let slice = TypeModel::DotnetType(slice_ref(ctx, elem));
    seq![
        OpModel::NewTMPLocal(resolve(ctx, src)),
        OpModel::SetTMPLocal,
        OpModel::NewTMPLocal(slice),
        OpModel::LoadAddresOfTMPLocal,
        OpModel::LoadUnderTMPLocal(1),
        OpModel::STField(
            FieldModel {
                owner: slice_ref(ctx, elem),
                tpe: TypeModel::Ptr(Box::new(TypeModel::Void)),
                name: "data_address"@,
            },
        ),
        OpModel::LoadAddresOfTMPLocal,
        OpModel::LdcI64(len as i64),
        OpModel::ConvUSize(false),
        OpModel::STField(slice_len_desc(ctx, elem)),
        OpModel::LoadTMPLocal,
        OpModel::FreeTMPLocal,
        OpModel::FreeTMPLocal,
    ]
}

/// The array type behind the pointer type `t`, as element and length.
pub open spec fn pointee_array(t: TyModel) -> Option<(TyModel, u64)> {
    match t {
        TyModel::RawPtr(p) => match *p {
            TyModel::Array(e, n) => Some((*e, n)),
            _ => None,
        },
        TyModel::Ref(p) => match *p {
            TyModel::Array(e, n) => Some((*e, n)),
            _ => None,
        },
        _ => None,
    }
}

/// Whether two target types are both pointer-sized integers or pointers.
pub open spec fn is_pointer_like(t: TypeModel) -> bool {
    t is ISize || t is USize || t is Ptr
}

/// The instructions that reinterpret the bits of the value on top of the
/// stack, of type `src`, as a value of type `dst`: pointer-sized pairs and a
/// `u16` read as a runtime character are kept as they are; any other pair is
/// stored in a scratch local and read back through its address as `dst`.
pub open spec fn transmute_ops(src: TypeModel, dst: TypeModel) -> Seq<OpModel> {
    if (is_pointer_like(src) && is_pointer_like(dst)) || (src is U16 && dst is DotnetChar) {
        Seq::empty()
    } else {
        seq![
            OpModel::NewTMPLocal(src),
            OpModel::SetTMPLocal,
            OpModel::LoadAddresOfTMPLocal,
            deref_op_spec(dst),
            OpModel::FreeTMPLocal,
        ]
    }
}

/// The instructions of a cast of `kind` of `op` to `target`; `None` where the
/// target keeps a generic parameter or the pair of types has no rule.
#[verifier::opaque]
pub open spec fn cast_ops(
    ctx: TyCtxt,
    body: Body,
    args: Seq<TyModel>,
    kind: CastKind,
    op: Operand,
    target: TyModel,
) -> Option<Seq<OpModel>> {
    match (operand_ops(ctx, body, args, op), operand_ty_spec(ctx, body, args, op)) {
        (Some(a), Some(src)) => {
            let dst = subst(target, args);
            if crate::mangle::has_param(dst) {
                None
            } else {
                match kind {
                    CastKind::PtrToPtr | CastKind::MutToConstPointer
                    | CastKind::PointerExposeAddress | CastKind::PointerFromExposedAddress => Some(a),
                    CastKind::Unsize => match pointee_array(src) {
                        Some((e, n)) => if n <= i64::MAX as u64 {
                            Some(a + unsize_ops(ctx, src, e, n))
                        } else {
                            None
                        },
                        None => None,
                    },
                    CastKind::Transmute => Some(
                        a + transmute_ops(resolve(ctx, src), resolve(ctx, dst)),
                    ),
                    _ => match numeric_cast_ops(kind, resolve(ctx, src), resolve(ctx, dst)) {
                        Some(c) => Some(a + c),
                        None => None,
                    },
                }
            }
        },
        _ => None,
    }
}

/// The instructions that push the discriminant of the enum place `p`.
#[verifier::opaque]
pub open spec fn discriminant_ops(ctx: TyCtxt, body: Body, args: Seq<TyModel>, p: crate::mir::Place) -> Option<
    Seq<OpModel>,
> {
    match (place_adress_ops(ctx, body, args, p), place_ty_spec(ctx, body, args, p)) {
        (Some(a), Some(t)) => match tag_desc(ctx, t) {
            Some(d) => if d.tpe is Void {
                Some(seq![OpModel::LdcI32(0)])
            } else {
                Some(a.push(OpModel::LDField(d)))
            },
            None => None,
        },
        _ => None,
    }
}

/// The instructions that push the length of the slice place `p`.
#[verifier::opaque]
pub open spec fn len_ops(ctx: TyCtxt, body: Body, args: Seq<TyModel>, p: crate::mir::Place) -> Option<
    Seq<OpModel>,
> {
    match (place_adress_ops(ctx, body, args, p), place_ty_spec(ctx, body, args, p)) {
        (Some(a), Some(TyModel::Slice(e))) => Some(a.push(OpModel::LDField(slice_len_desc(ctx, *e)))),
        _ => None,
    }
}

/// The instructions of a binary operation: both operands left to right, then the operator.
#[verifier::opaque]
pub open spec fn binary_ops(
    ctx: TyCtxt,
    body: Body,
    args: Seq<TyModel>,
    op: BinOp,
    a: Operand,
    b: Operand,
) -> Option<Seq<OpModel>> {
    match (operand_ops(ctx, body, args, a), operand_ops(ctx, body, args, b)) {
        (Some(x), Some(y)) => Some(x + y + binop_ops(op)),
        _ => None,
    }
}

/// The instructions of a unary operation: the operand, then the operator.
#[verifier::opaque]
pub open spec fn unary_ops(ctx: TyCtxt, body: Body, args: Seq<TyModel>, op: UnOp, a: Operand) -> Option<
    Seq<OpModel>,
> {
    match (operand_ops(ctx, body, args, a), operand_ty_spec(ctx, body, args, a)) {
        (Some(x), Some(t)) => Some(x + unop_ops(op, resolve(ctx, t))),
        _ => None,
    }
}

/// The instructions of a size or alignment query: the size is left to the
/// runtime, the alignment is a constant.
#[verifier::opaque]
pub open spec fn nullary_ops(ctx: TyCtxt, args: Seq<TyModel>, op: NullOp, t: TyModel) -> Option<
    Seq<OpModel>,
> {
    let t = subst(t, args);
    if crate::mangle::has_param(t) {
        None
    } else {
        match op {
            NullOp::SizeOf => Some(seq![OpModel::SizeOf(resolve(ctx, t))]),
            NullOp::AlignOf => Some(
                seq![OpModel::LdcI64(align_of_spec(t) as i64), OpModel::ConvUSize(false)],
            ),
        }
    }
}

/// The instructions that push the value of `rv`; `None` where there is no lowering rule.
pub open spec fn rvalue_ops(ctx: TyCtxt, body: Body, args: Seq<TyModel>, rv: Rvalue) -> Option<
    Seq<OpModel>,
> {
    match rv {
        Rvalue::Use(op) => operand_ops(ctx, body, args, op),
        Rvalue::CopyForDeref(p) => place_get_ops(ctx, body, args, p),
        Rvalue::Ref(p) => place_adress_ops(ctx, body, args, p),
        Rvalue::AddressOf(p) => place_adress_ops(ctx, body, args, p),
        Rvalue::BinaryOp(op, a, b) => binary_ops(ctx, body, args, op, a, b),
        Rvalue::CheckedBinaryOp(op, a, b) => crate::checked::checked_binary_ops(ctx, body, args, op, a, b),
        Rvalue::UnaryOp(op, a) => unary_ops(ctx, body, args, op, a),
        Rvalue::Cast(kind, op, target) => cast_ops(ctx, body, args, kind, op, target@),
        Rvalue::NullaryOp(op, t) => nullary_ops(ctx, args, op, t@),
        Rvalue::Aggregate(kind, ops) => crate::aggregate::aggregate_ops(ctx, body, args, kind, ops@),
        Rvalue::Discriminant(p) => discriminant_ops(ctx, body, args, p),
        Rvalue::Len(p) => len_ops(ctx, body, args, p),
    }
}

pub proof fn lemma_net_five(s: Seq<OpModel>)
    requires
        s.len() == 5,
    ensures
        stack_net(s) == crate::cil::stack_diff(s[0]) + crate::cil::stack_diff(s[1])
            + crate::cil::stack_diff(s[2]) + crate::cil::stack_diff(s[3]) + crate::cil::stack_diff(
            s[4],
        ),
{
    assert(s =~= seq![s[0]].push(s[1]).push(s[2]).push(s[3]).push(s[4]));
}

fn transmute_exec(src: &Type, dst: &Type) -> (r: Vec<CILOp>)
    ensures
        ops_view(r@) == transmute_ops(src@, dst@),
        stack_net(ops_view(r@)) == 0,
{
    let src_ptr = match src {
        Type::ISize | Type::USize | Type::Ptr(_) => true,
        _ => false,
    };
    let dst_ptr = match dst {
        Type::ISize | Type::USize | Type::Ptr(_) => true,
        _ => false,
    };
    let char_pair = match (src, dst) {
        (Type::U16, Type::DotnetChar) => true,
        _ => false,
    };
    let r = if (src_ptr && dst_ptr) || char_pair {
        Vec::new()
    } else {
        vec![
            CILOp::NewTMPLocal(src.copy()),
            CILOp::SetTMPLocal,
            CILOp::LoadAddresOfTMPLocal,
            deref_op(dst),
            CILOp::FreeTMPLocal,
        ]
    };
    proof {
        assert(ops_view(r@) =~= transmute_ops(src@, dst@));
        if r@.len() == 5 {
            lemma_net_five(ops_view(r@));
        }
    }
    r
}

fn unsize_exec(ctx: &TyCtxt, src: &Ty, elem: &Ty, len: u64) -> (r: Vec<CILOp>)
    requires
        len <= i64::MAX,
    ensures
        ops_view(r@) == unsize_ops(*ctx, src@, elem@, len),
        stack_net(ops_view(r@)) == 0,
{
    let slice = slice_type(ctx, elem);
    let data = FieldDescriptor {
        owner: slice.copy(),
        tpe: Type::Ptr(Box::new(Type::Void)),
        name: String::from_str("data_address"),
    };
    let meta = FieldDescriptor {
        owner: slice.copy(),
        tpe: Type::USize,
        name: String::from_str("metadata"),
    };
    let r = vec![
        CILOp::NewTMPLocal(resolve_ty(ctx, src)),
        CILOp::SetTMPLocal,
        CILOp::NewTMPLocal(Type::DotnetType(slice)),
        CILOp::LoadAddresOfTMPLocal,
        CILOp::LoadUnderTMPLocal(1),
        CILOp::STField(data),
        CILOp::LoadAddresOfTMPLocal,
        CILOp::LdcI64(len as i64),
        CILOp::ConvUSize(false),
        CILOp::STField(meta),
        CILOp::LoadTMPLocal,
        CILOp::FreeTMPLocal,
        CILOp::FreeTMPLocal,
    ];
    proof {
        assert(crate::clr_type::type_view(Type::Void) == TypeModel::Void);
        let s = ops_view(r@);
        assert(s =~= unsize_ops(*ctx, src@, elem@, len));
        let a = s.subrange(0, 5);
        let b = s.subrange(5, 10);
        let c = s.subrange(10, 13);
        assert(s =~= a + b + c);
        lemma_net_five(a);
        lemma_net_five(b);
        assert(c =~= seq![c[0]].push(c[1]).push(c[2]));
    }
    r
}

fn pointee_array_exec(t: &Ty) -> (r: Option<(&Ty, u64)>)
    ensures
        r is Some <==> pointee_array(t@) is Some,
        r is Some ==> pointee_array(t@) == Some(((r->0).0@, (r->0).1)),
{
    match t {
        Ty::RawPtr(p) => array_parts(p),
        Ty::Ref(p) => array_parts(p),
        _ => None,
    }
}

fn array_parts(t: &Ty) -> (r: Option<(&Ty, u64)>)
    ensures
        r is Some <==> t@ is Array,
        r is Some ==> t@ == TyModel::Array(Box::new((r->0).0@), (r->0).1),
{
    match t {
        Ty::Array(e, n) => Some((&**e, *n)),
        _ => None,
    }
}


fn handle_cast(ctx: &TyCtxt, body: &Body, args: &Vec<Ty>, kind: CastKind, op: &Operand, target: &Ty) -> (r:
    Result<Vec<CILOp>, CodegenError>)
    requires
        body.arg_count <= u32::MAX,
    ensures
        r is Ok <==> cast_ops(*ctx, *body, tys_view(args@), kind, *op, target@) is Some,
        r is Ok ==> ops_view(r->Ok_0@) == cast_ops(*ctx, *body, tys_view(args@), kind, *op, target@)->0,
        r is Ok ==> stack_net(ops_view(r->Ok_0@)) == 1,
{
    reveal(cast_ops);
    let mut ops = handle_operand(ctx, body, args, op)?;
    let src = operand_ty(ctx, body, args, op)?;
    let dst_ty = monomorphize(args, target);
    if crate::mangle::ty_has_param(&dst_ty) {
        return Err(CodegenError::UnresolvedGeneric);
    }
    match kind {
        CastKind::PtrToPtr | CastKind::MutToConstPointer | CastKind::PointerExposeAddress
        | CastKind::PointerFromExposedAddress => Ok(ops),
        CastKind::Unsize => match pointee_array_exec(&src) {
            Some((e, n)) => if n <= i64::MAX as u64 {
                append_ops(&mut ops, unsize_exec(ctx, &src, e, n));
                Ok(ops)
            } else {
                Err(CodegenError::unsupported("array too long for a slice"))
            },
            None => Err(CodegenError::unsupported("unsizing cast of a value that is not an array pointer")),
        },
        CastKind::Transmute => {
            let dst = resolve_ty(ctx, &monomorphize(args, target));
            append_ops(&mut ops, transmute_exec(&resolve_ty(ctx, &src), &dst));
            Ok(ops)
        },
        _ => {
            let dst = resolve_ty(ctx, &monomorphize(args, target));
            let c = convert(kind, &resolve_ty(ctx, &src), &dst)?;
            proof {
                let s = ops_view(c@);
                assert(s =~= seq![s[0]]);
            }
            append_ops(&mut ops, c);
            Ok(ops)
        },
    }
}

fn handle_binary(ctx: &TyCtxt, body: &Body, args: &Vec<Ty>, op: BinOp, a: &Operand, b: &Operand) -> (r:
    Result<Vec<CILOp>, CodegenError>)
    requires
        body.arg_count <= u32::MAX,
    ensures
        r is Ok <==> binary_ops(*ctx, *body, tys_view(args@), op, *a, *b) is Some,
        r is Ok ==> ops_view(r->Ok_0@) == binary_ops(*ctx, *body, tys_view(args@), op, *a, *b)->0,
        r is Ok ==> stack_net(ops_view(r->Ok_0@)) == 1,
{
    reveal(binary_ops);
    let mut ops = handle_operand(ctx, body, args, a)?;
    let rhs = handle_operand(ctx, body, args, b)?;
    append_ops(&mut ops, rhs);
    append_ops(&mut ops, binop_exec(op));
    Ok(ops)
}

fn handle_unary(ctx: &TyCtxt, body: &Body, args: &Vec<Ty>, op: UnOp, a: &Operand) -> (r: Result<
    Vec<CILOp>,
    CodegenError,
>)
    requires
        body.arg_count <= u32::MAX,
    ensures
        r is Ok <==> unary_ops(*ctx, *body, tys_view(args@), op, *a) is Some,
        r is Ok ==> ops_view(r->Ok_0@) == unary_ops(*ctx, *body, tys_view(args@), op, *a)->0,
        r is Ok ==> stack_net(ops_view(r->Ok_0@)) == 1,
{
    reveal(unary_ops);
    let mut ops = handle_operand(ctx, body, args, a)?;
    let t = operand_ty(ctx, body, args, a)?;
    append_ops(&mut ops, unop_exec(op, &resolve_ty(ctx, &t)));
    Ok(ops)
}

fn handle_nullary(ctx: &TyCtxt, args: &Vec<Ty>, op: NullOp, t: &Ty) -> (r: Result<
    Vec<CILOp>,
    CodegenError,
>)
    ensures
        r is Ok <==> nullary_ops(*ctx, tys_view(args@), op, t@) is Some,
        r is Ok ==> ops_view(r->Ok_0@) == nullary_ops(*ctx, tys_view(args@), op, t@)->0,
        r is Ok ==> stack_net(ops_view(r->Ok_0@)) == 1,
        r is Err ==> r->Err_0 is UnresolvedGeneric,
{
    reveal(nullary_ops);
    let t = monomorphize(args, t);
    if crate::mangle::ty_has_param(&t) {
        return Err(CodegenError::UnresolvedGeneric);
    }
    let r = match op {
        NullOp::SizeOf => vec![CILOp::SizeOf(resolve_ty(ctx, &t))],
        NullOp::AlignOf => {
            let a = align_of(&t);
            proof {
                lemma_align_small(t@);
            }
            vec![CILOp::LdcI64(a as i64), CILOp::ConvUSize(false)]
        },
    };
    proof {
        let s = ops_view(r@);
        if s.len() == 2 {
            assert(s =~= seq![s[0]].push(s[1]));
        } else {
            assert(s =~= seq![s[0]]);
        }
    }
    Ok(r)
}

fn handle_discriminant(ctx: &TyCtxt, body: &Body, args: &Vec<Ty>, p: &crate::mir::Place) -> (r:
    Result<Vec<CILOp>, CodegenError>)
    requires
        body.arg_count <= u32::MAX,
    ensures
        r is Ok <==> discriminant_ops(*ctx, *body, tys_view(args@), *p) is Some,
        r is Ok ==> ops_view(r->Ok_0@) == discriminant_ops(*ctx, *body, tys_view(args@), *p)->0,
        r is Ok ==> stack_net(ops_view(r->Ok_0@)) == 1,
{
    reveal(discriminant_ops);
    let mut ops = place_adress(ctx, body, args, p)?;
    let t = place_ty(ctx, body, args, p)?;
    let d = tag_descriptor(ctx, &t)?;
    match d.tpe {
        Type::Void => {
            let r = vec![CILOp::LdcI32(0)];
            assert(ops_view(r@) =~= seq![OpModel::LdcI32(0)]);
            Ok(r)
        },
        _ => {
            ops.push(CILOp::LDField(d));
            Ok(ops)
        },
    }
}

fn handle_len(ctx: &TyCtxt, body: &Body, args: &Vec<Ty>, p: &crate::mir::Place) -> (r: Result<
    Vec<CILOp>,
    CodegenError,
>)
    requires
        body.arg_count <= u32::MAX,
    ensures
        r is Ok <==> len_ops(*ctx, *body, tys_view(args@), *p) is Some,
        r is Ok ==> ops_view(r->Ok_0@) == len_ops(*ctx, *body, tys_view(args@), *p)->0,
        r is Ok ==> stack_net(ops_view(r->Ok_0@)) == 1,
{
    reveal(len_ops);
    let mut ops = place_adress(ctx, body, args, p)?;
    let t = place_ty(ctx, body, args, p)?;
    match &t {
        Ty::Slice(e) => {
            let d = FieldDescriptor {
                owner: slice_type(ctx, e),
                tpe: Type::USize,
                name: String::from_str("metadata"),
            };
            ops.push(CILOp::LDField(d));
            Ok(ops)
        },
        _ => Err(CodegenError::unsupported("length of a place that is not a slice")),
    }
}

/// Pushes the value that `rvalue` computes.
pub fn handle_rvalue(ctx: &TyCtxt, body: &Body, args: &Vec<Ty>, rvalue: &Rvalue) -> (r: Result<
    Vec<CILOp>,
    CodegenError,
>)
    requires
        body.arg_count <= u32::MAX,
    ensures
        r is Ok <==> rvalue_ops(*ctx, *body, tys_view(args@), *rvalue) is Some,
        r is Ok ==> ops_view(r->Ok_0@) == rvalue_ops(*ctx, *body, tys_view(args@), *rvalue)->0,
        r is Ok ==> stack_net(ops_view(r->Ok_0@)) == 1,
{
    match rvalue {
        Rvalue::Use(op) => handle_operand(ctx, body, args, op),
        Rvalue::CopyForDeref(p) => place_get(ctx, body, args, p),
        Rvalue::Ref(p) | Rvalue::AddressOf(p) => place_adress(ctx, body, args, p),
        Rvalue::BinaryOp(op, a, b) => handle_binary(ctx, body, args, *op, a, b),
        Rvalue::CheckedBinaryOp(op, a, b) => crate::checked::binop_checked(ctx, body, args, *op, a, b),
        Rvalue::UnaryOp(op, a) => handle_unary(ctx, body, args, *op, a),
        Rvalue::Cast(kind, op, target) => handle_cast(ctx, body, args, *kind, op, target),
        Rvalue::NullaryOp(op, t) => handle_nullary(ctx, args, *op, t),
        Rvalue::Aggregate(kind, operands) => crate::aggregate::handle_aggregate(ctx, body, args, kind, operands),
        Rvalue::Discriminant(p) => handle_discriminant(ctx, body, args, p),
        Rvalue::Len(p) => handle_len(ctx, body, args, p),
    }
}

proof fn lemma_align_small(t: TyModel)
    ensures
        1 <= align_of_spec(t) <= 16,
    decreases t,
{
    match t {
        TyModel::Tuple(es) => lemma_max_align_small(es),
        TyModel::Array(e, _) => lemma_align_small(*e),
        TyModel::Slice(e) => lemma_align_small(*e),
        _ => {},
    }
}

proof fn lemma_max_align_small(ts: Seq<TyModel>)
    ensures
        1 <= max_align(ts) <= 16,
    decreases ts,
{
    if ts.len() > 0 {
        lemma_max_align_small(ts.drop_last());
        lemma_align_small(ts.last());
    }
}


} // verus!

verus! {

/// Lowering a cast from `i64` to `u8`, storing the result, then lowering a
/// cast of that `u8` back to `i64` appends exactly one narrowing and one
/// widening conversion to the operands' instructions, and the value that comes
/// out is the input modulo 256, not the input.
pub proof fn lemma_cast_round_trip(
    ctx: TyCtxt,
    body: Body,
    args: Seq<TyModel>,
    wide: Operand,
    narrow_ty: Ty,
    narrow: Operand,
    wide_ty: Ty,
    x: i64,
)
    requires
        narrow_ty@ == TyModel::Uint(UintTy::U8),
        wide_ty@ == TyModel::Int(IntTy::I64),
        operand_ty_spec(ctx, body, args, wide) == Some(TyModel::Int(IntTy::I64)),
        operand_ty_spec(ctx, body, args, narrow) == Some(TyModel::Uint(UintTy::U8)),
        operand_ops(ctx, body, args, wide) is Some,
        operand_ops(ctx, body, args, narrow) is Some,
    ensures
        rvalue_ops(ctx, body, args, Rvalue::Cast(CastKind::IntToInt, wide, narrow_ty)) == Some(
            operand_ops(ctx, body, args, wide)->0 + seq![OpModel::ConvU8(false)],
        ),
        rvalue_ops(ctx, body, args, Rvalue::Cast(CastKind::IntToInt, narrow, wide_ty)) == Some(
            operand_ops(ctx, body, args, narrow)->0 + seq![OpModel::ConvI64(false)],
        ),
        conv_value(OpModel::ConvI64(false), conv_value(OpModel::ConvU8(false), x as int)) == (x as int)
            % 256,
{
    reveal(cast_ops);
    assert(subst(TyModel::Uint(UintTy::U8), args) == TyModel::Uint(UintTy::U8));
    assert(subst(TyModel::Int(IntTy::I64), args) == TyModel::Int(IntTy::I64));
    lemma_narrow_then_widen(x);
}

} // verus!
