//! The named types reachable from a type through its fields and elements, and
//! how a cache of definitions grows when they are defined in turn.

use vstd::prelude::*;
use crate::clr_type::FieldModel;
use crate::ty::{subst, AdtKind, FieldDef, TyCtxt, TyModel, VariantDef};
use crate::type_cache::defined_name;
use crate::type_def::def_fields;
use crate::utilis::{variant_field_desc, variant_ref};

verus! {

/// A definition: the name of a type and its fields.
pub type Entry = (Seq<char>, Seq<FieldModel>);

/// Whether `defs` define the name `n`.
pub open spec fn has_name(defs: Seq<Entry>, n: Seq<char>) -> bool {
    exists|k: int| 0 <= k < defs.len() && #[trigger] defs[k].0 == n
}

/// `defs` once `e` is defined: a name already defined keeps its first definition.
pub open spec fn define_one(defs: Seq<Entry>, e: Entry) -> Seq<Entry> {
    if has_name(defs, e.0) {
        defs
    } else {
        defs.push(e)
    }
}

/// `defs` once each of `es` is defined, in order.
pub open spec fn define_all(defs: Seq<Entry>, es: Seq<Entry>) -> Seq<Entry>
    decreases es.len(),
{
    if es.len() == 0 {
        defs
    } else {
        define_one(define_all(defs, es.drop_last()), es.last())
    }
}

/// The fields of the type nested in the enum `t` that holds variant `v`.
pub open spec fn variant_fields(ctx: TyCtxt, t: TyModel, v: u32) -> Seq<FieldModel> {
    let n = ctx.adts@[t->Adt_0 as int].variants@[v as int].fields@.len();
    if n <= u32::MAX {
        Seq::new(n, |i: int| variant_field_desc(ctx, t, v, i as u32)->0)
    } else {
        Seq::empty()
    }
}

/// Whether `t` is an enum of `ctx` whose variants can be numbered by `u32`.
pub open spec fn is_numbered_enum(ctx: TyCtxt, t: TyModel) -> bool {
    &&& t is Adt
    &&& (t->Adt_0 as int) < ctx.adts@.len()
    &&& ctx.adts@[t->Adt_0 as int].kind == AdtKind::Enum
    &&& ctx.adts@[t->Adt_0 as int].variants@.len() <= u32::MAX
}

/// The definitions that `t` itself brings: its own, then one nested type per enum variant.
pub open spec fn own_entries(ctx: TyCtxt, t: TyModel) -> Seq<Entry> {
    (match defined_name(ctx, t) {
        Some(n) => seq![(n, def_fields(ctx, t))],
        None => Seq::empty(),
    }) + if is_numbered_enum(ctx, t) {
        Seq::new(
            ctx.adts@[t->Adt_0 as int].variants@.len(),
            |v: int| (variant_ref(ctx, t, v as u32).name_path, variant_fields(ctx, t, v as u32)),
        )
    } else {
        Seq::empty()
    }
}

/// The types of the fields of `variant` with the generic arguments `args` substituted.
pub open spec fn variant_field_tys(variant: VariantDef, args: Seq<TyModel>) -> Seq<TyModel> {
    variant.fields@.map_values(|f: FieldDef| subst(f.ty@, args))
}

/// The definitions of `t` and of every named type reachable from it through
/// elements, pointees, generic arguments and fields, entering at most `fuel`
/// levels of data-type fields.
pub open spec fn entries(ctx: TyCtxt, t: TyModel, fuel: nat) -> Seq<Entry>
    decreases fuel, 0nat, t,
{
    own_entries(ctx, t) + match t {
        TyModel::Tuple(es) => entries_all(ctx, es, fuel),
        TyModel::Array(e, _) => entries(ctx, *e, fuel),
        TyModel::Slice(e) => entries(ctx, *e, fuel),
        TyModel::RawPtr(e) => entries(ctx, *e, fuel),
        TyModel::Ref(e) => entries(ctx, *e, fuel),
        TyModel::Adt(id, args) => entries_all(ctx, args, fuel) + if fuel > 0 && (id as int)
            < ctx.adts@.len() {
            entries_variants(ctx, args, ctx.adts@[id as int].variants@, (fuel - 1) as nat)
        } else {
            Seq::empty()
        },
        _ => Seq::empty(),
    }
}

/// The definitions reachable from each of `ts`, in order.
pub open spec fn entries_all(ctx: TyCtxt, ts: Seq<TyModel>, fuel: nat) -> Seq<Entry>
    decreases fuel, 0nat, ts,
{
    if ts.len() == 0 {
        Seq::empty()
    } else {
        entries_all(ctx, ts.drop_last(), fuel) + entries(ctx, ts.last(), fuel)
    }
}

/// The definitions reachable from the fields of each of `variants`, in order.
pub open spec fn entries_variants(ctx: TyCtxt, args: Seq<TyModel>, variants: Seq<VariantDef>, fuel: nat) -> Seq<
    Entry,
>
    decreases fuel, 1nat, variants,
{
    if variants.len() == 0 {
        Seq::empty()
    } else {
        entries_variants(ctx, args, variants.drop_last(), fuel) + entries_all(
            ctx,
            variant_field_tys(variants.last(), args),
            fuel,
        )
    }
}

pub proof fn lemma_define_one(defs: Seq<Entry>, e: Entry)
    ensures
        has_name(define_one(defs, e), e.0),
        forall|k: int| 0 <= k < defs.len() ==> #[trigger] define_one(defs, e)[k] == defs[k],
        define_one(defs, e).len() >= defs.len(),
        forall|n: Seq<char>| has_name(defs, n) ==> has_name(define_one(defs, e), n),
{
    if !has_name(defs, e.0) {
        assert(defs.push(e)[defs.len() as int].0 == e.0);
        assert forall|n: Seq<char>| has_name(defs, n) implies has_name(define_one(defs, e), n) by {
            let k = choose|k: int| 0 <= k < defs.len() && #[trigger] defs[k].0 == n;
            assert(defs.push(e)[k].0 == n);
        }
    }
}

/// Defining the entries `es` keeps what was defined, defines every name of
/// `es`, and defining them all again changes nothing.
pub proof fn lemma_define_all(defs: Seq<Entry>, es: Seq<Entry>)
    ensures
        forall|k: int| 0 <= k < defs.len() ==> #[trigger] define_all(defs, es)[k] == defs[k],
        define_all(defs, es).len() >= defs.len(),
        forall|n: Seq<char>| has_name(defs, n) ==> has_name(define_all(defs, es), n),
        forall|i: int| 0 <= i < es.len() ==> has_name(define_all(defs, es), #[trigger] es[i].0),
        define_all(define_all(defs, es), es) == define_all(defs, es),
    decreases es.len(),
{
    if es.len() > 0 {
        let prev = define_all(defs, es.drop_last());
        lemma_define_all(defs, es.drop_last());
        lemma_define_one(prev, es.last());
        assert forall|i: int| 0 <= i < es.len() implies has_name(define_all(defs, es), #[trigger] es[i].0) by {
            if i < es.len() - 1 {
                assert(es.drop_last()[i] == es[i]);
            }
        }
        lemma_define_all_noop(define_all(defs, es), es);
    }
}

proof fn lemma_define_all_noop(defs: Seq<Entry>, es: Seq<Entry>)
    requires
        forall|i: int| 0 <= i < es.len() ==> has_name(defs, #[trigger] es[i].0),
    ensures
        define_all(defs, es) == defs,
    decreases es.len(),
{
    if es.len() > 0 {
        assert forall|i: int| 0 <= i < es.drop_last().len() implies has_name(
            defs,
            #[trigger] es.drop_last()[i].0,
        ) by {
            assert(es.drop_last()[i] == es[i]);
        }
        lemma_define_all_noop(defs, es.drop_last());
        assert(has_name(defs, es[es.len() - 1].0));
    }
}

/// Defining `a`, then `b`, is defining `a + b`.
pub proof fn lemma_define_all_concat(defs: Seq<Entry>, a: Seq<Entry>, b: Seq<Entry>)
    ensures
        define_all(define_all(defs, a), b) == define_all(defs, a + b),
    decreases b.len(),
{
    if b.len() == 0 {
        assert(a + b =~= a);
    } else {
        lemma_define_all_concat(defs, a, b.drop_last());
        assert((a + b).drop_last() =~= a + b.drop_last());
        assert((a + b).last() == b.last());
    }
}

} // verus!
