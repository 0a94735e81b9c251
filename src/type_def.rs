//! The field layout of the named types that the type cache defines.

use vstd::prelude::*;
use crate::clr_type::{DotnetTypeRef, FieldDescriptor, FieldModel, Type, TypeModel};
use crate::mangle::{decimal, decimal_string, mangle_ty};
use crate::place::slice_data_desc;
use crate::rvalue::slice_len_desc;
use crate::ty::{lemma_tys_view, monomorphize, subst, tys_view, AdtKind, FieldDef, Ty, TyCtxt, TyModel};
use crate::type_cache::{named_ref, resolve, resolve_ty, slice_type};
use crate::utilis::{MAX_TUPLE_LEN, escape_class_name, escaped_class_name, tag_desc, tag_descriptor, tag_type};

verus! {

pub open spec fn fields_model(fs: Seq<FieldDescriptor>) -> Seq<FieldModel> {
    fs.map_values(|f: FieldDescriptor| f@)
}

/// The two fields of the value type that stands for a slice of `elem`.
pub open spec fn slice_fields(ctx: TyCtxt, elem: TyModel) -> Seq<FieldModel> {
    seq![slice_data_desc(ctx, elem), slice_len_desc(ctx, elem)]
}

/// Field `i` of the tuple type `t` whose elements are `es`.
pub open spec fn tuple_field(ctx: TyCtxt, t: TyModel, es: Seq<TyModel>, i: int) -> FieldModel {
    FieldModel {
        owner: named_ref(ctx, t),
        tpe: TypeModel::GenericArg(i as u32),
        name: "Item"@ + decimal((i + 1) as nat),
    }
}

/// The field `f` of the struct or union type `t` instantiated with `args`.
pub open spec fn struct_field(ctx: TyCtxt, t: TyModel, f: FieldDef, args: Seq<TyModel>) -> FieldModel {
    FieldModel {
        owner: named_ref(ctx, t),
        tpe: resolve(ctx, subst(f.ty@, args)),
        name: escaped_class_name(f.name@),
    }
}

/// The fields of the definition of the named type that `t` resolves to: the
/// elements of a tuple, the fields of a struct or union in declaration order,
/// the hidden tag of an enum, the address and length of a slice.
pub open spec fn def_fields(ctx: TyCtxt, t: TyModel) -> Seq<FieldModel> {
    match t {
        TyModel::Tuple(es) => if es.len() <= MAX_TUPLE_LEN {
            Seq::new(es.len(), |i: int| tuple_field(ctx, t, es, i))
        } else {
            Seq::empty()
        },
        TyModel::Adt(id, args) => if (id as int) < ctx.adts@.len()
            && ctx.adts@[id as int].variants@.len() > 0 {
            if ctx.adts@[id as int].kind == AdtKind::Enum {
                if tag_type(ctx.adts@[id as int].variants@.len() as u64) is Void {
                    Seq::empty()
                } else {
                    seq![tag_desc(ctx, t)->0]
                }
            } else {
                ctx.adts@[id as int].variants@[0].fields@.map_values(
                    |f: FieldDef| struct_field(ctx, t, f, args),
                )
            }
        } else {
            Seq::empty()
        },
        TyModel::Slice(e) => slice_fields(ctx, *e),
        TyModel::RawPtr(p) => match *p {
            TyModel::Slice(e) => slice_fields(ctx, *e),
            _ => Seq::empty(),
        },
        TyModel::Ref(p) => match *p {
            TyModel::Slice(e) => slice_fields(ctx, *e),
            _ => Seq::empty(),
        },
        _ => Seq::empty(),
    }
}

/// The fields of the value type that stands for a slice of `elem`.
pub fn slice_field_descs(ctx: &TyCtxt, elem: &Ty) -> (r: Vec<FieldDescriptor>)
    ensures
        fields_model(r@) == slice_fields(*ctx, elem@),
{
    let slice = slice_type(ctx, elem);
    let data = FieldDescriptor {
        owner: slice.copy(),
        tpe: Type::Ptr(Box::new(Type::Void)),
        name: String::from_str("data_address"),
    };
    let len = FieldDescriptor { owner: slice, tpe: Type::USize, name: String::from_str("metadata") };
    let r = vec![data, len];
    proof {
        assert(crate::clr_type::type_view(Type::Void) == TypeModel::Void);
        assert(fields_model(r@) =~= slice_fields(*ctx, elem@));
    }
    r
}

fn tuple_fields(ctx: &TyCtxt, t: &Ty, es: &Vec<Ty>) -> (r: Vec<FieldDescriptor>)
    requires
        t@ == TyModel::Tuple(tys_view(es@)),
    ensures
        fields_model(r@) == def_fields(*ctx, t@),
{
    proof {
        lemma_tys_view(es@);
    }
    let owner = DotnetTypeRef { assembly: None, name_path: mangle_ty(ctx, t), is_valuetype: true };
    let ghost all = tys_view(es@);
    proof {
        lemma_tys_view(es@);
    }
    let mut r: Vec<FieldDescriptor> = Vec::new();
    if es.len() > MAX_TUPLE_LEN {
        assert(fields_model(r@) =~= Seq::<FieldModel>::empty());
        return r;
    }
    let mut i: usize = 0;
    while i < es.len()
        invariant
            es@.len() <= MAX_TUPLE_LEN,
            all == tys_view(es@),
            all.len() == es@.len(),
            forall|k: int| 0 <= k < es@.len() ==> #[trigger] all[k] == es@[k]@,
            t@ == TyModel::Tuple(all),
            owner@ == named_ref(*ctx, t@),
            i <= es@.len(),
            fields_model(r@) == Seq::new(i as nat, |k: int| tuple_field(*ctx, t@, all, k)),
        decreases es@.len() - i,
    {
        let name = String::from_str("Item").concat(decimal_string(i as u64 + 1).as_str());
        let f = FieldDescriptor { owner: owner.copy(), tpe: Type::GenericArg(i as u32), name };
        let ghost before = r@;
        proof {
            assert(f@ == tuple_field(*ctx, t@, all, i as int));
        }
        r.push(f);
        proof {
            assert(fields_model(r@) =~= fields_model(before).push(f@));
            assert(fields_model(r@) =~= Seq::new((i + 1) as nat, |k: int| tuple_field(*ctx, t@, all, k)));
        }
        i += 1;
    }
    r
}

fn struct_fields(ctx: &TyCtxt, t: &Ty, id: u32, args: &Vec<Ty>) -> (r: Vec<FieldDescriptor>)
    requires
        t@ == TyModel::Adt(id, tys_view(args@)),
        (id as int) < ctx.adts@.len(),
        ctx.adts@[id as int].variants@.len() > 0,
    ensures
        fields_model(r@) == ctx.adts@[id as int].variants@[0].fields@.map_values(
            |f: FieldDef| struct_field(*ctx, t@, f, tys_view(args@)),
        ),
{
    let owner = DotnetTypeRef { assembly: None, name_path: mangle_ty(ctx, t), is_valuetype: true };
    let fields = &ctx.adts[id as usize].variants[0].fields;
    let ghost target = fields@.map_values(|f: FieldDef| struct_field(*ctx, t@, f, tys_view(args@)));
    let mut r: Vec<FieldDescriptor> = Vec::new();
    let mut i: usize = 0;
    while i < fields.len()
        invariant
            (id as int) < ctx.adts@.len(),
            ctx.adts@[id as int].variants@.len() > 0,
            fields == &ctx.adts@[id as int].variants@[0].fields,
            target == fields@.map_values(|f: FieldDef| struct_field(*ctx, t@, f, tys_view(args@))),
            owner@ == named_ref(*ctx, t@),
            i <= fields@.len(),
            fields_model(r@) == target.subrange(0, i as int),
        decreases fields@.len() - i,
    {
        let fty = monomorphize(args, &fields[i].ty);
        let f = FieldDescriptor {
            owner: owner.copy(),
            tpe: resolve_ty(ctx, &fty),
            name: escape_class_name(fields[i].name.as_str()),
        };
        let ghost before = r@;
        proof {
            assert(f@ == struct_field(*ctx, t@, fields@[i as int], tys_view(args@)));
            assert(f@ == target[i as int]);
        }
        r.push(f);
        proof {
            assert(fields_model(r@) =~= fields_model(before).push(f@));
            assert(fields_model(r@) =~= target.subrange(0, i + 1));
        }
        i += 1;
    }
    assert(target.subrange(0, fields@.len() as int) =~= target);
    r
}

/// The fields of the definition of the named type that `t` resolves to.
pub fn type_def_fields(ctx: &TyCtxt, t: &Ty) -> (r: Vec<FieldDescriptor>)
    ensures
        fields_model(r@) == def_fields(*ctx, t@),
{
    let empty: Vec<FieldDescriptor> = Vec::new();
    proof {
        assert(fields_model(empty@) =~= Seq::<FieldModel>::empty());
    }
    match t {
        Ty::Tuple(es) => tuple_fields(ctx, t, es),
        Ty::Adt(id, args) => {
            let id = *id;
            if (id as usize) < ctx.adts.len() && ctx.adts[id as usize].variants.len() > 0 {
                if ctx.adts[id as usize].kind == AdtKind::Enum {
                    match tag_descriptor(ctx, t) {
                        Ok(d) => match d.tpe {
                            Type::Void => empty,
                            _ => {
                                let r = vec![d];
                                assert(fields_model(r@) =~= def_fields(*ctx, t@));
                                r
                            },
                        },
                        Err(_) => empty,
                    }
                } else {
                    struct_fields(ctx, t, id, args)
                }
            } else {
                empty
            }
        },
        Ty::Slice(e) => slice_field_descs(ctx, e),
        Ty::RawPtr(p) | Ty::Ref(p) => match &**p {
            Ty::Slice(e) => {
                assert(p@ == TyModel::Slice(Box::new(e@)));
                slice_field_descs(ctx, e)
            },
            _ => {
                assert(!(p@ is Slice));
                empty
            },
        },
        _ => empty,
    }
}

} // verus!
