//! Sizes of types known while lowering.

use vstd::prelude::*;
use crate::codegen_error::CodegenError;
use crate::ty::{
    lemma_tys_view, monomorphize, subst, tys_view, AdtKind, FieldDef, FloatTy, IntTy, Ty, TyCtxt,
    TyModel, UintTy,
};

verus! {

/// The types of the fields of the struct or union `id` of `ctx` instantiated with `args`.
pub open spec fn field_tys(ctx: TyCtxt, id: u32, args: Seq<TyModel>) -> Seq<TyModel> {
    ctx.adts@[id as int].variants@[0].fields@.map_values(|f: FieldDef| subst(f.ty@, args))
}

/// The size in bytes of `t` on a 64-bit target, with fields laid out one after
/// another; `None` for a type this computation does not cover (enums, arrays,
/// slices and pointers to them) and for data types nested more than `fuel` deep.
pub open spec fn size_of_spec(ctx: TyCtxt, t: TyModel, fuel: nat) -> Option<int>
    decreases fuel, t,
{
    match t {
        TyModel::Int(IntTy::I8) | TyModel::Uint(UintTy::U8) | TyModel::Bool => Some(1),
        TyModel::Int(IntTy::I16) | TyModel::Uint(UintTy::U16) => Some(2),
        TyModel::Int(IntTy::I32) | TyModel::Uint(UintTy::U32) => Some(4),
        TyModel::Int(IntTy::I64) | TyModel::Uint(UintTy::U64) => Some(8),
        TyModel::Int(IntTy::Isize) | TyModel::Uint(UintTy::Usize) => Some(8),
        TyModel::Int(IntTy::I128) | TyModel::Uint(UintTy::U128) => Some(16),
        TyModel::Float(FloatTy::F32) => Some(4),
        TyModel::Float(FloatTy::F64) => Some(8),
        TyModel::Tuple(es) => sum_sizes(ctx, es, fuel),
        TyModel::RawPtr(e) => if *e is Slice {
            None
        } else {
            Some(8)
        },
        TyModel::Adt(id, args) => if fuel == 0 || (id as int) >= ctx.adts@.len()
            || ctx.adts@[id as int].variants@.len() == 0 {
            None
        } else {
            match ctx.adts@[id as int].kind {
                AdtKind::Struct => sum_sizes(ctx, field_tys(ctx, id, args), (fuel - 1) as nat),
                AdtKind::Union => max_sizes(ctx, field_tys(ctx, id, args), (fuel - 1) as nat),
                AdtKind::Enum => None,
            }
        },
        _ => None,
    }
}

/// The sum of the sizes of `ts`.
pub open spec fn sum_sizes(ctx: TyCtxt, ts: Seq<TyModel>, fuel: nat) -> Option<int>
    decreases fuel, ts,
{
    if ts.len() == 0 {
        Some(0)
    } else {
        match (sum_sizes(ctx, ts.drop_last(), fuel), size_of_spec(ctx, ts.last(), fuel)) {
            (Some(a), Some(b)) => Some(a + b),
            _ => None,
        }
    }
}

/// The largest size of `ts`, and 0 for none.
pub open spec fn max_sizes(ctx: TyCtxt, ts: Seq<TyModel>, fuel: nat) -> Option<int>
    decreases fuel, ts,
{
    if ts.len() == 0 {
        Some(0)
    } else {
        match (max_sizes(ctx, ts.drop_last(), fuel), size_of_spec(ctx, ts.last(), fuel)) {
            (Some(a), Some(b)) => Some(
                if a >= b {
                    a
                } else {
                    b
                },
            ),
            _ => None,
        }
    }
}

proof fn lemma_size_nonneg(ctx: TyCtxt, t: TyModel, fuel: nat)
    ensures
        size_of_spec(ctx, t, fuel) is Some ==> size_of_spec(ctx, t, fuel)->0 >= 0,
    decreases fuel, t,
{
    match t {
        TyModel::Tuple(es) => lemma_sum_nonneg(ctx, es, fuel),
        TyModel::Adt(id, args) => {
            if fuel > 0 && (id as int) < ctx.adts@.len() && ctx.adts@[id as int].variants@.len() > 0 {
                lemma_sum_nonneg(ctx, field_tys(ctx, id, args), (fuel - 1) as nat);
                lemma_max_nonneg(ctx, field_tys(ctx, id, args), (fuel - 1) as nat);
            }
        },
        _ => {},
    }
}

proof fn lemma_sum_nonneg(ctx: TyCtxt, ts: Seq<TyModel>, fuel: nat)
    ensures
        sum_sizes(ctx, ts, fuel) is Some ==> sum_sizes(ctx, ts, fuel)->0 >= 0,
    decreases fuel, ts,
{
    if ts.len() > 0 {
        lemma_sum_nonneg(ctx, ts.drop_last(), fuel);
        lemma_size_nonneg(ctx, ts.last(), fuel);
    }
}

proof fn lemma_max_nonneg(ctx: TyCtxt, ts: Seq<TyModel>, fuel: nat)
    ensures
        max_sizes(ctx, ts, fuel) is Some ==> max_sizes(ctx, ts, fuel)->0 >= 0,
    decreases fuel, ts,
{
    if ts.len() > 0 {
        lemma_max_nonneg(ctx, ts.drop_last(), fuel);
    }
}

/// A running sum or maximum over the first `i` of `ts` is no larger than over all of them.
proof fn lemma_prefix_bounded(ctx: TyCtxt, ts: Seq<TyModel>, fuel: nat, i: int, sum: bool)
    requires
        0 <= i <= ts.len(),
        sum ==> sum_sizes(ctx, ts, fuel) is Some,
        !sum ==> max_sizes(ctx, ts, fuel) is Some,
    ensures
        sum ==> sum_sizes(ctx, ts.subrange(0, i), fuel) is Some && sum_sizes(
            ctx,
            ts.subrange(0, i),
            fuel,
        )->0 <= sum_sizes(ctx, ts, fuel)->0,
        !sum ==> max_sizes(ctx, ts.subrange(0, i), fuel) is Some && max_sizes(
            ctx,
            ts.subrange(0, i),
            fuel,
        )->0 <= max_sizes(ctx, ts, fuel)->0,
    decreases ts.len() - i,
{
    if i == ts.len() {
        assert(ts.subrange(0, i) =~= ts);
    } else {
        lemma_prefix_bounded(ctx, ts, fuel, i + 1, sum);
        let p = ts.subrange(0, i + 1);
        assert(p.drop_last() =~= ts.subrange(0, i));
        lemma_size_nonneg(ctx, p.last(), fuel);
    }
}

fn field_types(ctx: &TyCtxt, id: u32, args: &Vec<Ty>) -> (r: Vec<Ty>)
    requires
        (id as int) < ctx.adts@.len(),
        ctx.adts@[id as int].variants@.len() > 0,
    ensures
        tys_view(r@) == field_tys(*ctx, id, tys_view(args@)),
{
    let fields = &ctx.adts[id as usize].variants[0].fields;
    let mut r: Vec<Ty> = Vec::new();
    let mut i: usize = 0;
    while i < fields.len()
        invariant
            fields == &ctx.adts@[id as int].variants@[0].fields,
            i <= fields@.len(),
            tys_view(r@) == field_tys(*ctx, id, tys_view(args@)).subrange(0, i as int),
        decreases fields@.len() - i,
    {
        let t = monomorphize(args, &fields[i].ty);
        proof {
            crate::ty::lemma_tys_view_push(r@, t);
        }
        r.push(t);
        i += 1;
        assert(tys_view(r@) =~= field_tys(*ctx, id, tys_view(args@)).subrange(0, i as int));
    }
    assert(field_tys(*ctx, id, tys_view(args@)).subrange(0, i as int) =~= field_tys(*ctx, id, tys_view(args@)));
    r
}

/// The size in bytes of `t`, or `None` where `size_of_spec` has none or it exceeds `u64`.
fn size_of_exec(ctx: &TyCtxt, t: &Ty, fuel: u64) -> (r: Option<u64>)
    ensures
        r is Some ==> size_of_spec(*ctx, t@, fuel as nat) == Some(r->0 as int),
        r is None ==> size_of_spec(*ctx, t@, fuel as nat) is None || size_of_spec(*ctx, t@, fuel as nat)->0 > u64::MAX,
    decreases fuel, t,
{
    match t {
        Ty::Int(IntTy::I8) | Ty::Uint(UintTy::U8) | Ty::Bool => Some(1),
        Ty::Int(IntTy::I16) | Ty::Uint(UintTy::U16) => Some(2),
        Ty::Int(IntTy::I32) | Ty::Uint(UintTy::U32) => Some(4),
        Ty::Int(IntTy::I64) | Ty::Uint(UintTy::U64) => Some(8),
        Ty::Int(IntTy::Isize) | Ty::Uint(UintTy::Usize) => Some(8),
        Ty::Int(IntTy::I128) | Ty::Uint(UintTy::U128) => Some(16),
        Ty::Float(FloatTy::F32) => Some(4),
        Ty::Float(FloatTy::F64) => Some(8),
        Ty::Tuple(es) => sizes_exec(ctx, es, fuel, true),
        Ty::RawPtr(e) => match &**e {
            Ty::Slice(inner) => {
                assert(e@ == TyModel::Slice(Box::new(inner@)));
                None
            },
            _ => Some(8),
        },
        Ty::Adt(id, args) => {
            let id = *id;
            if fuel == 0 || (id as usize) >= ctx.adts.len() || ctx.adts[id as usize].variants.len() == 0 {
                return None;
            }
            let fields = field_types(ctx, id, args);
            match ctx.adts[id as usize].kind {
                AdtKind::Struct => sizes_exec(ctx, &fields, fuel - 1, true),
                AdtKind::Union => sizes_exec(ctx, &fields, fuel - 1, false),
                AdtKind::Enum => None,
            }
        },
        _ => None,
    }
}

/// The sum (or, when `sum` is false, the maximum) of the sizes of `ts`.
fn sizes_exec(ctx: &TyCtxt, ts: &Vec<Ty>, fuel: u64, sum: bool) -> (r: Option<u64>)
    ensures
        ({
            let s = if sum {
                sum_sizes(*ctx, tys_view(ts@), fuel as nat)
            } else {
                max_sizes(*ctx, tys_view(ts@), fuel as nat)
            };
            &&& r is Some ==> s == Some(r->0 as int)
            &&& r is None ==> s is None || s->0 > u64::MAX
        }),
    decreases fuel, ts,
{
    let ghost all = tys_view(ts@);
    let mut acc: u64 = 0;
    let mut i: usize = 0;
    proof {
        lemma_tys_view(ts@);
        assert(all.subrange(0, 0) =~= Seq::<TyModel>::empty());
    }
    while i < ts.len()
        invariant
            all == tys_view(ts@),
            all.len() == ts@.len(),
            forall|k: int| 0 <= k < ts@.len() ==> #[trigger] all[k] == ts@[k]@,
            i <= ts@.len(),
            sum ==> sum_sizes(*ctx, all.subrange(0, i as int), fuel as nat) == Some(acc as int),
            !sum ==> max_sizes(*ctx, all.subrange(0, i as int), fuel as nat) == Some(acc as int),
        decreases ts@.len() - i,
    {
        proof {
            assert(decreases_to!(ts => ts@[i as int]));
            let p = all.subrange(0, i + 1);
            assert(p.drop_last() =~= all.subrange(0, i as int));
            assert(p.last() == ts@[i as int]@);
        }
        let s = match size_of_exec(ctx, &ts[i], fuel) {
            Some(s) => s,
            None => {
                proof {
                    let p = all.subrange(0, i + 1);
                    if sum && sum_sizes(*ctx, all, fuel as nat) is Some {
                        lemma_prefix_bounded(*ctx, all, fuel as nat, i + 1, true);
                        lemma_sum_nonneg(*ctx, all.subrange(0, i as int), fuel as nat);
                    }
                    if !sum && max_sizes(*ctx, all, fuel as nat) is Some {
                        lemma_prefix_bounded(*ctx, all, fuel as nat, i + 1, false);
                    }
                }
                return None;
            },
        };
        if sum {
            if s > u64::MAX - acc {
                proof {
                    if sum_sizes(*ctx, all, fuel as nat) is Some {
                        lemma_prefix_bounded(*ctx, all, fuel as nat, i + 1, true);
                    }
                }
                return None;
            }
            acc = acc + s;
        } else if s > acc {
            acc = s;
        }
        i += 1;
    }
    assert(all.subrange(0, ts@.len() as int) =~= all);
    Some(acc)
}

/// The size in bytes of `ty` on a 64-bit target, for the types whose layout is
/// fixed here: scalars, pointers to sized values, tuples, structs and unions.
/// A type of finite size nests each data type at most once, so as many levels
/// of data types as `ctx` defines are enough.
pub fn compiletime_sizeof(ctx: &TyCtxt, ty: &Ty) -> (r: Result<u64, CodegenError>)
    ensures
        r is Ok ==> size_of_spec(*ctx, ty@, ctx.adts@.len() as nat) == Some(r->Ok_0 as int),
        size_of_spec(*ctx, ty@, ctx.adts@.len() as nat) matches Some(v) && v <= u64::MAX ==> r is Ok,
{
    let fuel = ctx.adts.len() as u64;
    match size_of_exec(ctx, ty, fuel) {
        Some(s) => Ok(s),
        None => Err(CodegenError::unsupported("compile-time size of this type")),
    }
}

} // verus!
