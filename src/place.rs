//! Local slots and the addressing of places: reads, writes and addresses.

use vstd::prelude::*;
use crate::cil::{append_ops, group_ops, ops_view, stack_net, CILOp, OpModel};
use crate::clr_type::{DotnetTypeRef, FieldDescriptor, FieldModel, Type, TypeModel};
use crate::codegen_error::CodegenError;
use crate::mir::{Body, Place, PlaceElem};
use crate::ty::{copy_ty, lemma_tys_view, monomorphize, subst, tys_view, AdtKind, Ty, TyCtxt, TyModel};
use crate::mangle::{has_param, ty_has_param};
use crate::type_cache::{resolve, resolve_ty, slice_ref, slice_type};
use crate::utilis::{enum_field_descriptor, field_desc, field_descrptor, is_struct_field, is_variant_field, variant_field_desc};

verus! {

broadcast use group_ops;

// ---------------------------------------------------------------- local slots

/// Where a local of the source IR lives in the target method.
#[derive(Debug, Clone, Copy, PartialEq, Eq, Structural)]
pub enum LocalPlacement {
    Arg(u32),
    Var(u32),
}

/// Local 0 is the return value and lives in variable 0; locals `1..=argc` are
/// the arguments; the locals above them are the variables from 1 on.
pub open spec fn placement(argc: nat, local: nat) -> LocalPlacement {
    if local == 0 {
        LocalPlacement::Var(0)
    } else if local <= argc {
        LocalPlacement::Arg((local - 1) as u32)
    } else {
        LocalPlacement::Var((local - argc) as u32)
    }
}

/// Where `local` lives in a method with `argc` arguments.
pub fn local_id_placement(argc: usize, local: u32) -> (r: LocalPlacement)
    requires
        argc <= u32::MAX,
    ensures
        r == placement(argc as nat, local as nat),
{
    if local == 0 {
        LocalPlacement::Var(0)
    } else if (local as usize) <= argc {
        LocalPlacement::Arg(local - 1)
    } else {
        LocalPlacement::Var(local - argc as u32)
    }
}

/// Each local of a body with `argc` arguments and `nlocals` locals (return
/// value and arguments included) lands on an argument below `argc` or on a
/// variable below `nlocals - argc`: lowering never names a slot out of range.
pub proof fn lemma_placement_in_range(argc: nat, nlocals: nat, local: nat)
    requires
        argc < nlocals,
        local < nlocals,
    ensures
        match placement(argc, local) {
            LocalPlacement::Arg(a) => a < argc,
            LocalPlacement::Var(v) => v < nlocals - argc,
        },
{
}

/// Distinct locals never share a slot: the return value, the arguments and
/// the variables above them are numbered apart.
pub proof fn lemma_placement_injective(argc: nat, a: nat, b: nat)
    requires
        a != b,
        a <= u32::MAX,
        b <= u32::MAX,
    ensures
        placement(argc, a) != placement(argc, b),
{
}

pub open spec fn local_get_op(argc: nat, local: nat) -> OpModel {
    match placement(argc, local) {
        LocalPlacement::Arg(a) => OpModel::LDArg(a),
        LocalPlacement::Var(v) => OpModel::LDLoc(v),
    }
}

pub open spec fn local_set_op(argc: nat, local: nat) -> OpModel {
    match placement(argc, local) {
        LocalPlacement::Arg(a) => OpModel::STArg(a),
        LocalPlacement::Var(v) => OpModel::STLoc(v),
    }
}

pub open spec fn local_addr_op(argc: nat, local: nat) -> OpModel {
    match placement(argc, local) {
        LocalPlacement::Arg(a) => OpModel::LDArgA(a),
        LocalPlacement::Var(v) => OpModel::LDLocA(v),
    }
}

/// The instruction that pushes the value of `local`.
pub fn local_get(local: u32, arg_count: usize) -> (r: CILOp)
    requires
        arg_count <= u32::MAX,
    ensures
        r@ == local_get_op(arg_count as nat, local as nat),
{
    match local_id_placement(arg_count, local) {
        LocalPlacement::Arg(a) => CILOp::LDArg(a),
        LocalPlacement::Var(v) => CILOp::LDLoc(v),
    }
}

/// The instruction that pops a value into `local`.
pub fn local_set(local: u32, arg_count: usize) -> (r: CILOp)
    requires
        arg_count <= u32::MAX,
    ensures
        r@ == local_set_op(arg_count as nat, local as nat),
{
    match local_id_placement(arg_count, local) {
        LocalPlacement::Arg(a) => CILOp::STArg(a),
        LocalPlacement::Var(v) => CILOp::STLoc(v),
    }
}

/// The instruction that pushes the address of `local`.
pub fn local_adress(local: u32, arg_count: usize) -> (r: CILOp)
    requires
        arg_count <= u32::MAX,
    ensures
        r@ == local_addr_op(arg_count as nat, local as nat),
{
    match local_id_placement(arg_count, local) {
        LocalPlacement::Arg(a) => CILOp::LDArgA(a),
        LocalPlacement::Var(v) => CILOp::LDLocA(v),
    }
}

// ---------------------------------------------------------------- loads and stores

/// The instruction that replaces an address by the value of type `t` stored there.
pub open spec fn deref_op_spec(t: TypeModel) -> OpModel {
    match t {
        TypeModel::I8 | TypeModel::U8 | TypeModel::Bool => OpModel::LDIndI8,
        TypeModel::I16 | TypeModel::U16 | TypeModel::DotnetChar => OpModel::LDIndI16,
        TypeModel::I32 | TypeModel::U32 | TypeModel::Char => OpModel::LDIndI32,
        TypeModel::I64 | TypeModel::U64 => OpModel::LDIndI64,
        TypeModel::ISize | TypeModel::USize | TypeModel::Ptr(_) => OpModel::LDIndISize,
        TypeModel::F32 => OpModel::LDIndF32,
        TypeModel::F64 => OpModel::LDIndF64,
        _ => OpModel::LdObj(t),
    }
}

/// The instruction that pops a value of type `t` and an address and stores the value there.
pub open spec fn ptr_set_op_spec(t: TypeModel) -> OpModel {
    match t {
        TypeModel::I8 | TypeModel::U8 | TypeModel::Bool => OpModel::STIndI8,
        TypeModel::I16 | TypeModel::U16 | TypeModel::DotnetChar => OpModel::STIndI16,
        TypeModel::I32 | TypeModel::U32 | TypeModel::Char => OpModel::STIndI32,
        TypeModel::I64 | TypeModel::U64 => OpModel::STIndI64,
        TypeModel::ISize | TypeModel::USize | TypeModel::Ptr(_) => OpModel::STIndISize,
        TypeModel::F32 => OpModel::STIndF32,
        TypeModel::F64 => OpModel::STIndF64,
        _ => OpModel::STObj(t),
    }
}

/// Loads a value of type `t` from the address on top of the stack.
pub fn deref_op(t: &Type) -> (r: CILOp)
    ensures
        r@ == deref_op_spec(t@),
{
    match t {
        Type::I8 | Type::U8 | Type::Bool => CILOp::LDIndI8,
        Type::I16 | Type::U16 | Type::DotnetChar => CILOp::LDIndI16,
        Type::I32 | Type::U32 | Type::Char => CILOp::LDIndI32,
        Type::I64 | Type::U64 => CILOp::LDIndI64,
        Type::ISize | Type::USize | Type::Ptr(_) => CILOp::LDIndISize,
        Type::F32 => CILOp::LDIndF32,
        Type::F64 => CILOp::LDIndF64,
        _ => CILOp::LdObj(t.copy()),
    }
}

/// Stores a value of type `t` at an address: the stack holds the address, then the value.
pub fn store_op(t: &Type) -> (r: CILOp)
    ensures
        r@ == ptr_set_op_spec(t@),
{
    match t {
        Type::I8 | Type::U8 | Type::Bool => CILOp::STIndI8,
        Type::I16 | Type::U16 | Type::DotnetChar => CILOp::STIndI16,
        Type::I32 | Type::U32 | Type::Char => CILOp::STIndI32,
        Type::I64 | Type::U64 => CILOp::STIndI64,
        Type::ISize | Type::USize | Type::Ptr(_) => CILOp::STIndISize,
        Type::F32 => CILOp::STIndF32,
        Type::F64 => CILOp::STIndF64,
        _ => CILOp::STObj(t.copy()),
    }
}


/// Whether a value can be stored through a pointer to a place of type `pt`:
/// a sized type with no generic parameter left in it.
pub open spec fn storable(pt: PlaceTyModel) -> bool {
    pt matches PlaceTyModel::Ty(t) && !has_param(t) && !(t is Slice)
}

/// The instruction that stores a value through a pointer to a place of type
/// `pointed_type`: the stack holds the pointer, then the value. A type with a
/// generic parameter left in it is refused as unresolved; an enum variant and
/// an unsized slice cannot be stored as a whole.
pub fn ptr_set_op(ctx: &TyCtxt, pointed_type: &PlaceTy) -> (r: Result<CILOp, CodegenError>)
    ensures
        r is Ok <==> storable(pointed_type@),
        r is Ok ==> r->Ok_0@ == ptr_set_op_spec(resolve(*ctx, pointed_type@->Ty_0)),
        pointed_type@ matches PlaceTyModel::Ty(t) && has_param(t) ==> r matches Err(
            CodegenError::UnresolvedGeneric,
        ),
{
    match pointed_type {
        PlaceTy::Ty(t) => {
            if ty_has_param(t) {
                Err(CodegenError::UnresolvedGeneric)
            } else if is_slice(t) {
                Err(CodegenError::unsupported("store of an unsized slice"))
            } else {
                Ok(store_op(&resolve_ty(ctx, t)))
            }
        },
        PlaceTy::EnumVariant(..) => Err(CodegenError::unsupported("store of an enum variant as a whole")),
    }
}

// ---------------------------------------------------------------- place types

/// The type of a place: a type, or an enum seen as one of its variants.
#[derive(Debug, PartialEq, Eq)]
pub enum PlaceTy {
    Ty(Ty),
    EnumVariant(Ty, u32),
}

pub enum PlaceTyModel {
    Ty(TyModel),
    EnumVariant(TyModel, u32),
}

impl View for PlaceTy {
    type V = PlaceTyModel;

    open spec fn view(&self) -> PlaceTyModel {
        match *self {
            PlaceTy::Ty(t) => PlaceTyModel::Ty(t@),
            PlaceTy::EnumVariant(t, v) => PlaceTyModel::EnumVariant(t@, v),
        }
    }
}

/// A pointer that is a plain address; a pointer to a slice also carries a length.
pub open spec fn is_thin_ptr(t: TyModel) -> bool {
    match t {
        TyModel::RawPtr(e) => !(*e is Slice),
        TyModel::Ref(e) => !(*e is Slice),
        _ => false,
    }
}

fn thin_ptr(t: &Ty) -> (r: bool)
    ensures
        r == is_thin_ptr(t@),
{
    match t {
        Ty::RawPtr(e) => !is_slice(e),
        Ty::Ref(e) => !is_slice(e),
        _ => false,
    }
}

fn is_slice(t: &Ty) -> (r: bool)
    ensures
        r == (t@ is Slice),
{
    match t {
        Ty::Slice(_) => true,
        _ => false,
    }
}

/// The type of local `l` of `body`, with the method's generic arguments `args`
/// substituted; `None` when a generic parameter is left in it.
pub open spec fn local_ty(body: Body, args: Seq<TyModel>, l: u32) -> Option<TyModel> {
    if (l as int) < body.local_decls@.len() && !has_param(
        subst(body.local_decls@[l as int]@, args),
    ) {
        Some(subst(body.local_decls@[l as int]@, args))
    } else {
        None
    }
}

/// Whether local `l` of `body` keeps a generic parameter once `args` are substituted.
pub open spec fn local_unresolved(body: Body, args: Seq<TyModel>, l: u32) -> bool {
    (l as int) < body.local_decls@.len() && has_param(subst(body.local_decls@[l as int]@, args))
}

/// Whether a generic parameter is left in the place type `pt`.
pub open spec fn place_ty_has_param(pt: PlaceTyModel) -> bool {
    match pt {
        PlaceTyModel::Ty(t) => has_param(t),
        PlaceTyModel::EnumVariant(t, _) => has_param(t),
    }
}

/// The type of the place reached by `elem` from a place of type `pt`; `None`
/// when the projection does not apply or leaves a generic parameter.
pub open spec fn elem_ty(ctx: TyCtxt, pt: PlaceTyModel, elem: PlaceElem) -> Option<PlaceTyModel> {
    match projected_ty(ctx, pt, elem) {
        Some(next) => if place_ty_has_param(next) {
            None
        } else {
            Some(next)
        },
        None => None,
    }
}

/// The type of the place reached by `elem` from a place of type `pt`, as the
/// projection gives it.
pub open spec fn projected_ty(ctx: TyCtxt, pt: PlaceTyModel, elem: PlaceElem) -> Option<PlaceTyModel> {
    match elem {
        PlaceElem::Deref => match pt {
            PlaceTyModel::Ty(TyModel::RawPtr(e)) => Some(PlaceTyModel::Ty(*e)),
            PlaceTyModel::Ty(TyModel::Ref(e)) => Some(PlaceTyModel::Ty(*e)),
            _ => None,
        },
        PlaceElem::Field(i) => match pt {
            PlaceTyModel::Ty(TyModel::Tuple(es)) => if (i as int) < es.len() && es.len()
                <= crate::utilis::MAX_TUPLE_LEN {
                Some(PlaceTyModel::Ty(es[i as int]))
            } else {
                None
            },
            PlaceTyModel::Ty(TyModel::Adt(id, args)) => if is_struct_field(ctx, id, i) {
                Some(
                    PlaceTyModel::Ty(
                        subst(ctx.adts@[id as int].variants@[0].fields@[i as int].ty@, args),
                    ),
                )
            } else {
                None
            },
            PlaceTyModel::EnumVariant(TyModel::Adt(id, args), v) => if is_variant_field(
                ctx,
                id,
                v,
                i,
            ) {
                Some(
                    PlaceTyModel::Ty(
                        subst(ctx.adts@[id as int].variants@[v as int].fields@[i as int].ty@, args),
                    ),
                )
            } else {
                None
            },
            _ => None,
        },
        PlaceElem::Index(_) | PlaceElem::ConstantIndex { .. } => match pt {
            PlaceTyModel::Ty(TyModel::Array(e, _)) => Some(PlaceTyModel::Ty(*e)),
            PlaceTyModel::Ty(TyModel::Slice(e)) => Some(PlaceTyModel::Ty(*e)),
            _ => None,
        },
        PlaceElem::Downcast(v) => match pt {
            PlaceTyModel::Ty(TyModel::Adt(id, args)) => if (id as int) < ctx.adts@.len()
                && ctx.adts@[id as int].kind == AdtKind::Enum && (v as int)
                < ctx.adts@[id as int].variants@.len() {
                Some(PlaceTyModel::EnumVariant(TyModel::Adt(id, args), v))
            } else {
                None
            },
            _ => None,
        },
    }
}

/// The type of the place reached by `elem` from a place of type `pt`; a type
/// with a generic parameter left in it is refused.
pub fn place_elem_ty(ctx: &TyCtxt, pt: &PlaceTy, elem: PlaceElem) -> (r: Result<
    PlaceTy,
    CodegenError,
>)
    ensures
        r is Ok <==> elem_ty(*ctx, pt@, elem) is Some,
        r is Ok ==> r->Ok_0@ == elem_ty(*ctx, pt@, elem)->0,
        projected_ty(*ctx, pt@, elem) is Some && place_ty_has_param(projected_ty(*ctx, pt@, elem)->0)
            ==> r matches Err(CodegenError::UnresolvedGeneric),
{
    let next = projected_place_ty(ctx, pt, elem)?;
    let generic = match &next {
        PlaceTy::Ty(t) => ty_has_param(t),
        PlaceTy::EnumVariant(t, _) => ty_has_param(t),
    };
    if generic {
        Err(CodegenError::UnresolvedGeneric)
    } else {
        Ok(next)
    }
}

fn projected_place_ty(ctx: &TyCtxt, pt: &PlaceTy, elem: PlaceElem) -> (r: Result<
    PlaceTy,
    CodegenError,
>)
    ensures
        r is Ok <==> projected_ty(*ctx, pt@, elem) is Some,
        r is Ok ==> r->Ok_0@ == projected_ty(*ctx, pt@, elem)->0,
{
    match elem {
        PlaceElem::Deref => match pt {
            PlaceTy::Ty(Ty::RawPtr(e)) | PlaceTy::Ty(Ty::Ref(e)) => Ok(PlaceTy::Ty(copy_ty(e))),
            _ => Err(CodegenError::unsupported("dereference of a value that is not a pointer")),
        },
        PlaceElem::Field(i) => match pt {
            PlaceTy::Ty(Ty::Tuple(es)) => {
                proof {
                    lemma_tys_view(es@);
                }
                if (i as usize) < es.len() && es.len() <= crate::utilis::MAX_TUPLE_LEN {
                    Ok(PlaceTy::Ty(copy_ty(&es[i as usize])))
                } else {
                    Err(CodegenError::unsupported("no tuple field with such index"))
                }
            },
            PlaceTy::Ty(Ty::Adt(id, args)) => {
                let id = *id;
                if (id as usize) < ctx.adts.len() && ctx.adts[id as usize].kind != AdtKind::Enum
                    && ctx.adts[id as usize].variants.len() > 0 && (i as usize)
                    < ctx.adts[id as usize].variants[0].fields.len() {
                    Ok(
                        PlaceTy::Ty(
                            monomorphize(args, &ctx.adts[id as usize].variants[0].fields[i as usize].ty),
                        ),
                    )
                } else {
                    Err(CodegenError::unsupported("no struct field with such index"))
                }
            },
            PlaceTy::EnumVariant(Ty::Adt(id, args), v) => {
                let id = *id;
                let v = *v;
                if (id as usize) < ctx.adts.len() && ctx.adts[id as usize].kind == AdtKind::Enum
                    && (v as usize) < ctx.adts[id as usize].variants.len() && (i as usize)
                    < ctx.adts[id as usize].variants[v as usize].fields.len() {
                    Ok(
                        PlaceTy::Ty(
                            monomorphize(
                                args,
                                &ctx.adts[id as usize].variants[v as usize].fields[i as usize].ty,
                            ),
                        ),
                    )
                } else {
                    Err(CodegenError::unsupported("no variant field with such index"))
                }
            },
            _ => Err(CodegenError::unsupported("field of a type that has no fields")),
        },
        PlaceElem::Index(_) | PlaceElem::ConstantIndex { .. } => match pt {
            PlaceTy::Ty(Ty::Array(e, _)) | PlaceTy::Ty(Ty::Slice(e)) => Ok(PlaceTy::Ty(copy_ty(e))),
            _ => Err(CodegenError::unsupported("index into a type that is not an array or slice")),
        },
        PlaceElem::Downcast(v) => match pt {
            PlaceTy::Ty(Ty::Adt(id, args)) => {
                let id = *id;
                if (id as usize) < ctx.adts.len() && ctx.adts[id as usize].kind == AdtKind::Enum
                    && (v as usize) < ctx.adts[id as usize].variants.len() {
                    Ok(PlaceTy::EnumVariant(Ty::Adt(id, crate::ty::copy_tys(args)), v))
                } else {
                    Err(CodegenError::unsupported("no enum variant with such index"))
                }
            },
            _ => Err(CodegenError::unsupported("variant of a type that is not an enum")),
        },
    }
}

// ---------------------------------------------------------------- projections

/// The field of a slice value that holds the address of its first element.
pub open spec fn slice_data_desc(ctx: TyCtxt, elem: TyModel) -> FieldModel {
    FieldModel {
        owner: slice_ref(ctx, elem),
        tpe: TypeModel::Ptr(Box::new(TypeModel::Void)),
        name: "data_address"@,
    }
}

/// Turns the address of an array, or of a slice value, into the address of
/// the element whose index `index` pushes.
pub open spec fn index_addr_ops(ctx: TyCtxt, container: TyModel, index: OpModel) -> Seq<OpModel> {
    match container {
        TyModel::Slice(e) => seq![
            OpModel::LDField(slice_data_desc(ctx, *e)),
            index,
            OpModel::SizeOf(resolve(ctx, *e)),
            OpModel::Mul,
            OpModel::Add,
        ],
        TyModel::Array(e, _) => seq![
            index,
            OpModel::SizeOf(resolve(ctx, *e)),
            OpModel::Mul,
            OpModel::Add,
        ],
        _ => Seq::empty(),
    }
}

/// The instruction that pushes the index of an `Index` or `ConstantIndex` projection.
pub open spec fn index_op(argc: nat, elem: PlaceElem) -> OpModel {
    match elem {
        PlaceElem::Index(l) => local_get_op(argc, l as nat),
        PlaceElem::ConstantIndex { offset, .. } => OpModel::LdcI64(offset as i64),
        _ => OpModel::Pop,
    }
}

/// Whether lowering supports the projection `elem` from a place of type `pt`.
pub open spec fn elem_supported(ctx: TyCtxt, pt: PlaceTyModel, elem: PlaceElem) -> bool {
    &&& elem_ty(ctx, pt, elem) is Some
    &&& !(elem matches PlaceElem::ConstantIndex { from_end, .. } && from_end)
}

/// A place of type `t` is handled by its value when it is a plain pointer, by its address otherwise.
pub open spec fn load_if_thin(t: PlaceTyModel) -> Seq<OpModel> {
    match t {
        PlaceTyModel::Ty(t) => if is_thin_ptr(t) {
            seq![OpModel::LDIndISize]
        } else {
            Seq::empty()
        },
        _ => Seq::empty(),
    }
}

/// The descriptor of the field that `Field(i)` selects from a place of type `pt`.
pub open spec fn projected_field(ctx: TyCtxt, pt: PlaceTyModel, i: u32) -> FieldModel {
    match pt {
        PlaceTyModel::Ty(owner) => field_desc(ctx, owner, i)->0,
        PlaceTyModel::EnumVariant(owner, v) => variant_field_desc(ctx, owner, v, i)->0,
    }
}

/// The instructions that turn the handle of a place of type `pt` (its value if
/// it is a plain pointer, else its address) into the handle of the place that
/// `elem` reaches.
pub open spec fn elem_body_ops(ctx: TyCtxt, argc: nat, pt: PlaceTyModel, elem: PlaceElem) -> Seq<
    OpModel,
> {
    let next = elem_ty(ctx, pt, elem)->0;
    match elem {
        PlaceElem::Deref => load_if_thin(next),
        PlaceElem::Field(i) => if (next matches PlaceTyModel::Ty(t) && is_thin_ptr(t)) {
            seq![OpModel::LDField(projected_field(ctx, pt, i))]
        } else {
            seq![OpModel::LDFieldAdress(projected_field(ctx, pt, i))]
        },
        PlaceElem::Index(_) | PlaceElem::ConstantIndex { .. } => index_addr_ops(
            ctx,
            pt->Ty_0,
            index_op(argc, elem),
        ) + load_if_thin(next),
        PlaceElem::Downcast(_) => Seq::empty(),
    }
}

/// The instructions that turn the handle of a place of type `pt` into the
/// address of the place that `elem` reaches.
pub open spec fn elem_addr_ops(ctx: TyCtxt, argc: nat, pt: PlaceTyModel, elem: PlaceElem) -> Seq<
    OpModel,
> {
    match elem {
        PlaceElem::Deref => Seq::empty(),
        PlaceElem::Field(i) => seq![OpModel::LDFieldAdress(projected_field(ctx, pt, i))],
        PlaceElem::Index(_) | PlaceElem::ConstantIndex { .. } => index_addr_ops(
            ctx,
            pt->Ty_0,
            index_op(argc, elem),
        ),
        PlaceElem::Downcast(_) => Seq::empty(),
    }
}

/// Whether a value can be stored into the place that `elem` reaches from a place of type `pt`.
pub open spec fn elem_settable(ctx: TyCtxt, pt: PlaceTyModel, elem: PlaceElem) -> bool {
    &&& elem_supported(ctx, pt, elem)
    &&& !(elem is Downcast)
    &&& !(elem is Deref && (elem_ty(ctx, pt, elem)->0 matches PlaceTyModel::Ty(t) && t is Slice))
}

/// The instructions that store the value that `value` pushes into the place
/// that `elem` reaches, given the handle of a place of type `pt`.
pub open spec fn elem_set_ops(
    ctx: TyCtxt,
    argc: nat,
    pt: PlaceTyModel,
    elem: PlaceElem,
    value: Seq<OpModel>,
) -> Seq<OpModel> {
    let next = elem_ty(ctx, pt, elem)->0->Ty_0;
    match elem {
        PlaceElem::Field(i) => value.push(OpModel::STField(projected_field(ctx, pt, i))),
        _ => elem_addr_ops(ctx, argc, pt, elem) + value.push(ptr_set_op_spec(resolve(ctx, next))),
    }
}


proof fn lemma_elem_body_net(ctx: TyCtxt, argc: nat, pt: PlaceTyModel, elem: PlaceElem)
    requires
        elem_supported(ctx, pt, elem),
    ensures
        stack_net(elem_body_ops(ctx, argc, pt, elem)) == 0,
        stack_net(elem_addr_ops(ctx, argc, pt, elem)) == 0,
{
    let next = elem_ty(ctx, pt, elem)->0;
    assert(stack_net(load_if_thin(next)) == 0);
    match elem {
        PlaceElem::Index(_) | PlaceElem::ConstantIndex { .. } => {
            let c = pt->Ty_0;
            let ops = index_addr_ops(ctx, c, index_op(argc, elem));
            if c is Slice {
                assert(ops =~= seq![ops[0]].push(ops[1]).push(ops[2]).push(ops[3]).push(ops[4]));
            } else {
                assert(ops =~= seq![ops[0]].push(ops[1]).push(ops[2]).push(ops[3]));
            }
            assert(stack_net(ops) == 0);
        },
        _ => {},
    }
}

/// Turns the address of an array, or of a slice value, into the address of
/// the element whose index `index` pushes.
fn index_addr(ctx: &TyCtxt, container: &Ty, index: CILOp) -> (r: Vec<CILOp>)
    requires
        container@ is Slice || container@ is Array,
    ensures
        ops_view(r@) == index_addr_ops(*ctx, container@, index@),
{
    let r = match container {
        Ty::Slice(e) => {
            let data = FieldDescriptor {
                owner: slice_type(ctx, e),
                tpe: Type::Ptr(Box::new(Type::Void)),
                name: String::from_str("data_address"),
            };
            assert(crate::clr_type::type_view(Type::Void) == TypeModel::Void);
            assert(data@ == slice_data_desc(*ctx, e@));
            let size = resolve_ty(ctx, e);
            let r = vec![CILOp::LDField(data), index, CILOp::SizeOf(size), CILOp::Mul, CILOp::Add];
            assert(ops_view(r@) =~= index_addr_ops(*ctx, container@, index@));
            r
        },
        Ty::Array(e, _) => {
            let size = resolve_ty(ctx, e);
            let r = vec![index, CILOp::SizeOf(size), CILOp::Mul, CILOp::Add];
            assert(ops_view(r@) =~= index_addr_ops(*ctx, container@, index@));
            r
        },
        _ => Vec::new(),
    };
    r
}

fn index_instr(argc: usize, elem: PlaceElem) -> (r: CILOp)
    requires
        argc <= u32::MAX,
    ensures
        r@ == index_op(argc as nat, elem),
{
    match elem {
        PlaceElem::Index(l) => local_get(l, argc),
        PlaceElem::ConstantIndex { offset, .. } => CILOp::LdcI64(offset as i64),
        _ => CILOp::Pop,
    }
}

fn projected_field_exec(ctx: &TyCtxt, pt: &PlaceTy, i: u32) -> (r: FieldDescriptor)
    requires
        elem_ty(*ctx, pt@, PlaceElem::Field(i)) is Some,
    ensures
        r@ == projected_field(*ctx, pt@, i),
{
    let d = match pt {
        PlaceTy::Ty(owner) => field_descrptor(ctx, owner, i),
        PlaceTy::EnumVariant(owner, v) => enum_field_descriptor(ctx, owner, i, *v),
    };
    match d {
        Ok(d) => d,
        Err(_) => {
            assert(false);
            FieldDescriptor {
                owner: DotnetTypeRef::new(None, ""),
                tpe: Type::Void,
                name: String::new(),
            }
        },
    }
}

fn check_supported(ctx: &TyCtxt, pt: &PlaceTy, elem: PlaceElem) -> (r: Result<
    PlaceTy,
    CodegenError,
>)
    ensures
        r is Ok <==> elem_supported(*ctx, pt@, elem),
        r is Ok ==> r->Ok_0@ == elem_ty(*ctx, pt@, elem)->0,
{
    match elem {
        PlaceElem::ConstantIndex { from_end: true, .. } => {
            return Err(CodegenError::unsupported("constant index counted from the end"));
        },
        _ => {},
    }
    place_elem_ty(ctx, pt, elem)
}

fn load_if_thin_exec(next: &PlaceTy) -> (r: Vec<CILOp>)
    ensures
        ops_view(r@) == load_if_thin(next@),
{
    let r = match next {
        PlaceTy::Ty(t) => if thin_ptr(t) {
            vec![CILOp::LDIndISize]
        } else {
            Vec::new()
        },
        _ => Vec::new(),
    };
    assert(ops_view(r@) =~= load_if_thin(next@));
    r
}

/// The instructions that turn the handle of a place of type `pt` into the
/// handle of the place that `elem` reaches, with that place's type.
pub fn place_elem_body(ctx: &TyCtxt, arg_count: usize, pt: &PlaceTy, elem: PlaceElem) -> (r: Result<
    (Vec<CILOp>, PlaceTy),
    CodegenError,
>)
    requires
        arg_count <= u32::MAX,
    ensures
        r is Ok <==> elem_supported(*ctx, pt@, elem),
        r is Ok ==> ops_view((r->Ok_0).0@) == elem_body_ops(*ctx, arg_count as nat, pt@, elem),
        r is Ok ==> (r->Ok_0).1@ == elem_ty(*ctx, pt@, elem)->0,
{
    let next = check_supported(ctx, pt, elem)?;
    let ops = match elem {
        PlaceElem::Deref => load_if_thin_exec(&next),
        PlaceElem::Field(i) => {
            let d = projected_field_exec(ctx, pt, i);
            let thin = match &next {
                PlaceTy::Ty(t) => thin_ptr(t),
                _ => false,
            };
            let r = if thin {
                vec![CILOp::LDField(d)]
            } else {
                vec![CILOp::LDFieldAdress(d)]
            };
            assert(ops_view(r@) =~= elem_body_ops(*ctx, arg_count as nat, pt@, elem));
            r
        },
        PlaceElem::Index(_) | PlaceElem::ConstantIndex { .. } => {
            let container = match pt {
                PlaceTy::Ty(c) => c,
                PlaceTy::EnumVariant(c, _) => c,
            };
            let mut r = index_addr(ctx, container, index_instr(arg_count, elem));
            append_ops(&mut r, load_if_thin_exec(&next));
            r
        },
        PlaceElem::Downcast(_) => {
            let r: Vec<CILOp> = Vec::new();
            assert(ops_view(r@) =~= Seq::<OpModel>::empty());
            r
        },
    };
    Ok((ops, next))
}

/// The instructions that turn the handle of a place of type `pt` into the
/// address of the place that `elem` reaches.
pub fn place_elem_adress(ctx: &TyCtxt, arg_count: usize, pt: &PlaceTy, elem: PlaceElem) -> (r:
    Result<Vec<CILOp>, CodegenError>)
    requires
        arg_count <= u32::MAX,
    ensures
        r is Ok <==> elem_supported(*ctx, pt@, elem),
        r is Ok ==> ops_view(r->Ok_0@) == elem_addr_ops(*ctx, arg_count as nat, pt@, elem),
{
    let _next = check_supported(ctx, pt, elem)?;
    let r = match elem {
        PlaceElem::Field(i) => vec![CILOp::LDFieldAdress(projected_field_exec(ctx, pt, i))],
        PlaceElem::Index(_) | PlaceElem::ConstantIndex { .. } => {
            let container = match pt {
                PlaceTy::Ty(c) => c,
                PlaceTy::EnumVariant(c, _) => c,
            };
            index_addr(ctx, container, index_instr(arg_count, elem))
        },
        _ => Vec::new(),
    };
    assert(ops_view(r@) =~= elem_addr_ops(*ctx, arg_count as nat, pt@, elem));
    Ok(r)
}

/// The instructions that store the value that `value` pushes into the place
/// that `place_elem` reaches, given the handle of a place of type `curr_type`.
pub fn place_elem_set(
    ctx: &TyCtxt,
    arg_count: usize,
    place_elem: PlaceElem,
    curr_type: &PlaceTy,
    value: Vec<CILOp>,
) -> (r: Result<Vec<CILOp>, CodegenError>)
    requires
        arg_count <= u32::MAX,
    ensures
        r is Ok <==> elem_settable(*ctx, curr_type@, place_elem),
        r is Ok ==> ops_view(r->Ok_0@) == elem_set_ops(
            *ctx,
            arg_count as nat,
            curr_type@,
            place_elem,
            ops_view(value@),
        ),
{
    let next = check_supported(ctx, curr_type, place_elem)?;
    match place_elem {
        PlaceElem::Downcast(_) => {
            return Err(CodegenError::unsupported("store into an enum variant as a whole"));
        },
        _ => {},
    }
    let next_ty = match next {
        PlaceTy::Ty(t) => t,
        PlaceTy::EnumVariant(t, _) => {
            assert(false);
            t
        },
    };
    match place_elem {
        PlaceElem::Field(i) => {
            let mut r = value;
            r.push(CILOp::STField(projected_field_exec(ctx, curr_type, i)));
            Ok(r)
        },
        _ => {
            if place_elem == PlaceElem::Deref && is_slice(&next_ty) {
                return Err(CodegenError::unsupported("store into an unsized place"));
            }
            let mut r = place_elem_adress(ctx, arg_count, curr_type, place_elem)?;
            let mut v = value;
            v.push(store_op(&resolve_ty(ctx, &next_ty)));
            append_ops(&mut r, v);
            Ok(r)
        },
    }
}


// ---------------------------------------------------------------- places

/// The instructions that push the handle of the place made of `place`'s local
/// and its first `n` projections, with that place's type.
pub open spec fn place_prefix(
    ctx: TyCtxt,
    body: Body,
    args: Seq<TyModel>,
    place: Place,
    n: nat,
) -> Option<(Seq<OpModel>, PlaceTyModel)>
    decreases n,
{
    let argc = body.arg_count as nat;
    if n == 0 {
        match local_ty(body, args, place.local) {
            Some(t) => Some(
                (
                    seq![
                        if is_thin_ptr(t) {
                            local_get_op(argc, place.local as nat)
                        } else {
                            local_addr_op(argc, place.local as nat)
                        },
                    ],
                    PlaceTyModel::Ty(t),
                ),
            ),
            None => None,
        }
    } else {
        match place_prefix(ctx, body, args, place, (n - 1) as nat) {
            Some(p) => {
                let elem = place.projection@[n - 1];
                if elem_supported(ctx, p.1, elem) {
                    Some((p.0 + elem_body_ops(ctx, argc, p.1, elem), elem_ty(ctx, p.1, elem)->0))
                } else {
                    None
                }
            },
            None => None,
        }
    }
}

/// The instructions of `place_prefix`.
pub open spec fn prefix_ops(ctx: TyCtxt, body: Body, args: Seq<TyModel>, place: Place, n: nat) -> Seq<
    OpModel,
> {
    match place_prefix(ctx, body, args, place, n) {
        Some(p) => p.0,
        None => Seq::empty(),
    }
}

/// The place type of `place_prefix`.
pub open spec fn prefix_ty(ctx: TyCtxt, body: Body, args: Seq<TyModel>, place: Place, n: nat) -> PlaceTyModel {
    match place_prefix(ctx, body, args, place, n) {
        Some(p) => p.1,
        None => PlaceTyModel::Ty(TyModel::Bool),
    }
}

/// The instructions that push the value held by `place`.
pub open spec fn place_get_ops(ctx: TyCtxt, body: Body, args: Seq<TyModel>, place: Place) -> Option<
    Seq<OpModel>,
> {
    let n = place.projection@.len();
    if n == 0 {
        if local_ty(body, args, place.local) is Some {
            Some(seq![local_get_op(body.arg_count as nat, place.local as nat)])
        } else {
            None
        }
    } else {
        match place_prefix(ctx, body, args, place, n) {
            Some((ops, PlaceTyModel::Ty(t))) => Some(
                if is_thin_ptr(t) {
                    ops
                } else {
                    ops.push(deref_op_spec(resolve(ctx, t)))
                },
            ),
            _ => None,
        }
    }
}

/// The instructions that push the address of `place`.
pub open spec fn place_adress_ops(ctx: TyCtxt, body: Body, args: Seq<TyModel>, place: Place) -> Option<
    Seq<OpModel>,
> {
    let n = place.projection@.len();
    if n == 0 {
        if local_ty(body, args, place.local) is Some {
            Some(seq![local_addr_op(body.arg_count as nat, place.local as nat)])
        } else {
            None
        }
    } else {
        match place_prefix(ctx, body, args, place, (n - 1) as nat) {
            Some((ops, pt)) => if elem_supported(ctx, pt, place.projection@[n - 1]) {
                Some(ops + elem_addr_ops(ctx, body.arg_count as nat, pt, place.projection@[n - 1]))
            } else {
                None
            },
            None => None,
        }
    }
}

/// The instructions that store the value that `value` pushes into `place`.
pub open spec fn place_set_ops(
    ctx: TyCtxt,
    body: Body,
    args: Seq<TyModel>,
    place: Place,
    value: Seq<OpModel>,
) -> Option<Seq<OpModel>> {
    let n = place.projection@.len();
    if n == 0 {
        if local_ty(body, args, place.local) is Some {
            Some(value.push(local_set_op(body.arg_count as nat, place.local as nat)))
        } else {
            None
        }
    } else {
        match place_prefix(ctx, body, args, place, (n - 1) as nat) {
            Some((ops, pt)) => if elem_settable(ctx, pt, place.projection@[n - 1]) {
                Some(
                    ops + elem_set_ops(
                        ctx,
                        body.arg_count as nat,
                        pt,
                        place.projection@[n - 1],
                        value,
                    ),
                )
            } else {
                None
            },
            None => None,
        }
    }
}

proof fn lemma_prefix_net(ctx: TyCtxt, body: Body, args: Seq<TyModel>, place: Place, n: nat)
    requires
        n <= place.projection@.len(),
        place_prefix(ctx, body, args, place, n) is Some,
    ensures
        stack_net(prefix_ops(ctx, body, args, place, n)) == 1,
    decreases n,
{
    if n > 0 {
        lemma_prefix_net(ctx, body, args, place, (n - 1) as nat);
        let p = place_prefix(ctx, body, args, place, (n - 1) as nat)->0;
        lemma_elem_body_net(ctx, body.arg_count as nat, p.1, place.projection@[n - 1]);
    }
}

fn local_decl(body: &Body, args: &Vec<Ty>, local: u32) -> (r: Result<Ty, CodegenError>)
    ensures
        local_unresolved(*body, tys_view(args@), local) ==> r matches Err(
            CodegenError::UnresolvedGeneric,
        ),
        r is Ok <==> local_ty(*body, tys_view(args@), local) is Some,
        r is Ok ==> r->Ok_0@ == local_ty(*body, tys_view(args@), local)->0,
{
    if (local as usize) < body.local_decls.len() {
        let t = monomorphize(args, &body.local_decls[local as usize]);
        if ty_has_param(&t) {
            Err(CodegenError::UnresolvedGeneric)
        } else {
            Ok(t)
        }
    } else {
        Err(CodegenError::unsupported("no local with such index"))
    }
}

/// The instructions that push the handle of the place made of `place`'s
/// local and its first `n` projections, with that place's type.
pub fn place_prefix_exec(ctx: &TyCtxt, body: &Body, args: &Vec<Ty>, place: &Place, n: usize) -> (r:
    Result<(Vec<CILOp>, PlaceTy), CodegenError>)
    requires
        body.arg_count <= u32::MAX,
        n <= place.projection@.len(),
    ensures
        local_unresolved(*body, tys_view(args@), place.local) ==> r matches Err(
            CodegenError::UnresolvedGeneric,
        ),
        r is Ok <==> place_prefix(*ctx, *body, tys_view(args@), *place, n as nat) is Some,
        r is Ok ==> ops_view((r->Ok_0).0@) == prefix_ops(
            *ctx,
            *body,
            tys_view(args@),
            *place,
            n as nat,
        ),
        r is Ok ==> (r->Ok_0).1@ == prefix_ty(*ctx, *body, tys_view(args@), *place, n as nat),
{
    let argc = body.arg_count;
    let t = match local_decl(body, args, place.local) {
        Ok(t) => t,
        Err(e) => {
            proof {
                lemma_prefix_none_grows(*ctx, *body, tys_view(args@), *place, 0, n as nat);
            }
            return Err(e);
        },
    };
    let first = if thin_ptr(&t) {
        local_get(place.local, argc)
    } else {
        local_adress(place.local, argc)
    };
    let mut ops = vec![first];
    let mut pt = PlaceTy::Ty(t);
    let mut k: usize = 0;
    assert(ops_view(ops@) =~= prefix_ops(*ctx, *body, tys_view(args@), *place, 0));
    while k < n
        invariant
            body.arg_count <= u32::MAX,
            argc == body.arg_count,
            k <= n <= place.projection@.len(),
            place_prefix(*ctx, *body, tys_view(args@), *place, k as nat) is Some,
            !local_unresolved(*body, tys_view(args@), place.local),
            ops_view(ops@) == prefix_ops(*ctx, *body, tys_view(args@), *place, k as nat),
            pt@ == prefix_ty(*ctx, *body, tys_view(args@), *place, k as nat),
        decreases n - k,
    {
        let (more, next) = match place_elem_body(ctx, argc, &pt, place.projection[k]) {
            Ok(x) => x,
            Err(e) => {
                assert(place_prefix(*ctx, *body, tys_view(args@), *place, (k + 1) as nat) is None);
                assert forall|j: nat| j > k + 1 implies #[trigger] place_prefix(
                    *ctx,
                    *body,
                    tys_view(args@),
                    *place,
                    j,
                ) is None by {
                    lemma_prefix_none_grows(*ctx, *body, tys_view(args@), *place, (k + 1) as nat, j);
                }
                return Err(e);
            },
        };
        append_ops(&mut ops, more);
        pt = next;
        k += 1;
    }
    Ok((ops, pt))
}

proof fn lemma_prefix_none_grows(
    ctx: TyCtxt,
    body: Body,
    args: Seq<TyModel>,
    place: Place,
    i: nat,
    j: nat,
)
    requires
        i <= j,
        place_prefix(ctx, body, args, place, i) is None,
    ensures
        place_prefix(ctx, body, args, place, j) is None,
    decreases j - i,
{
    if i < j {
        lemma_prefix_none_grows(ctx, body, args, place, i, (j - 1) as nat);
    }
}

/// Pushes the value held by `place`.
pub fn place_get(ctx: &TyCtxt, body: &Body, args: &Vec<Ty>, place: &Place) -> (r: Result<
    Vec<CILOp>,
    CodegenError,
>)
    requires
        body.arg_count <= u32::MAX,
    ensures
        local_unresolved(*body, tys_view(args@), place.local) ==> r matches Err(
            CodegenError::UnresolvedGeneric,
        ),
        r is Ok <==> place_get_ops(*ctx, *body, tys_view(args@), *place) is Some,
        r is Ok ==> ops_view(r->Ok_0@) == place_get_ops(*ctx, *body, tys_view(args@), *place)->0,
        r is Ok ==> stack_net(ops_view(r->Ok_0@)) == 1,
{
    let n = place.projection.len();
    if n == 0 {
        let _t = local_decl(body, args, place.local)?;
        let r = vec![local_get(place.local, body.arg_count)];
        assert(ops_view(r@) =~= seq![local_get_op(body.arg_count as nat, place.local as nat)]);
        return Ok(r);
    }
    let (mut ops, pt) = place_prefix_exec(ctx, body, args, place, n)?;
    proof {
        lemma_prefix_net(*ctx, *body, tys_view(args@), *place, n as nat);
    }
    match pt {
        PlaceTy::Ty(t) => {
            if !thin_ptr(&t) {
                ops.push(deref_op(&resolve_ty(ctx, &t)));
            }
            Ok(ops)
        },
        PlaceTy::EnumVariant(..) => Err(CodegenError::unsupported("read of an enum variant as a whole")),
    }
}

/// Pushes the address of `place`.
pub fn place_adress(ctx: &TyCtxt, body: &Body, args: &Vec<Ty>, place: &Place) -> (r: Result<
    Vec<CILOp>,
    CodegenError,
>)
    requires
        body.arg_count <= u32::MAX,
    ensures
        local_unresolved(*body, tys_view(args@), place.local) ==> r matches Err(
            CodegenError::UnresolvedGeneric,
        ),
        r is Ok <==> place_adress_ops(*ctx, *body, tys_view(args@), *place) is Some,
        r is Ok ==> ops_view(r->Ok_0@) == place_adress_ops(*ctx, *body, tys_view(args@), *place)->0,
        r is Ok ==> stack_net(ops_view(r->Ok_0@)) == 1,
{
    let n = place.projection.len();
    if n == 0 {
        let _t = local_decl(body, args, place.local)?;
        let r = vec![local_adress(place.local, body.arg_count)];
        assert(ops_view(r@) =~= seq![local_addr_op(body.arg_count as nat, place.local as nat)]);
        return Ok(r);
    }
    let (mut ops, pt) = place_prefix_exec(ctx, body, args, place, n - 1)?;
    proof {
        lemma_prefix_net(*ctx, *body, tys_view(args@), *place, (n - 1) as nat);
    }
    let last = place_elem_adress(ctx, body.arg_count, &pt, place.projection[n - 1])?;
    proof {
        lemma_elem_body_net(*ctx, body.arg_count as nat, pt@, place.projection@[n - 1]);
    }
    append_ops(&mut ops, last);
    Ok(ops)
}

/// Stores the value that `value` pushes into `place`.
pub fn place_set(ctx: &TyCtxt, body: &Body, args: &Vec<Ty>, place: &Place, value: Vec<CILOp>) -> (r:
    Result<Vec<CILOp>, CodegenError>)
    requires
        body.arg_count <= u32::MAX,
    ensures
        local_unresolved(*body, tys_view(args@), place.local) ==> r matches Err(
            CodegenError::UnresolvedGeneric,
        ),
        r is Ok <==> place_set_ops(*ctx, *body, tys_view(args@), *place, ops_view(value@)) is Some,
        r is Ok ==> ops_view(r->Ok_0@) == place_set_ops(
            *ctx,
            *body,
            tys_view(args@),
            *place,
            ops_view(value@),
        )->0,
        r is Ok ==> stack_net(ops_view(r->Ok_0@)) == stack_net(ops_view(value@)) - 1,
{
    let n = place.projection.len();
    if n == 0 {
        let _t = local_decl(body, args, place.local)?;
        let mut r = value;
        r.push(local_set(place.local, body.arg_count));
        return Ok(r);
    }
    let (mut ops, pt) = place_prefix_exec(ctx, body, args, place, n - 1)?;
    proof {
        lemma_prefix_net(*ctx, *body, tys_view(args@), *place, (n - 1) as nat);
    }
    let elem = place.projection[n - 1];
    let ghost v = ops_view(value@);
    let last = place_elem_set(ctx, body.arg_count, elem, &pt, value)?;
    proof {
        lemma_elem_body_net(*ctx, body.arg_count as nat, pt@, elem);
        let next = elem_ty(*ctx, pt@, elem)->0->Ty_0;
        match elem {
            PlaceElem::Field(i) => {},
            _ => {
                assert(ops_view(last@) == elem_addr_ops(*ctx, body.arg_count as nat, pt@, elem)
                    + v.push(ptr_set_op_spec(resolve(*ctx, next))));
            },
        }
    }
    append_ops(&mut ops, last);
    Ok(ops)
}

} // verus!
