//! Resolution of source types to target types, and the cache of defined types.

use vstd::prelude::*;
use crate::clr_type::{DotnetTypeRef, DotnetTypeRefModel, FieldDescriptor, FieldModel, Type, TypeModel};
use crate::type_def::{def_fields, fields_model, slice_field_descs, slice_fields, type_def_fields};
use crate::reach::{
    define_all, define_one, entries, entries_all, entries_variants, has_name, is_numbered_enum,
    lemma_define_all, lemma_define_all_concat, own_entries, variant_field_tys, variant_fields, Entry,
};
use crate::utilis::{enum_field_descriptor, variant_field_desc, variant_ref};
use crate::codegen_error::CodegenError;
use crate::mangle::{has_param, mangle_ty, mangled, ty_has_param};
use crate::ty::{lemma_tys_view, monomorphize, tys_view, AdtKind, FloatTy, IntTy, Ty, TyCtxt, TyModel, UintTy, VariantDef};

verus! {

/// The value type that stands for a slice of `elem`: a data address and a length.
pub open spec fn slice_ref(ctx: TyCtxt, elem: TyModel) -> DotnetTypeRefModel {
    DotnetTypeRefModel {
        assembly: None,
        name_path: "core.ptr.metadata.PtrComponents"@ + mangled(ctx, elem),
        is_valuetype: true,
    }
}

/// The value type of the module that stands for the source type `t`.
pub open spec fn named_ref(ctx: TyCtxt, t: TyModel) -> DotnetTypeRefModel {
    DotnetTypeRefModel { assembly: None, name_path: mangled(ctx, t), is_valuetype: true }
}

/// The target type descriptor of the source type `t`.
pub open spec fn resolve(ctx: TyCtxt, t: TyModel) -> TypeModel
    decreases t,
{
    match t {
        TyModel::Int(IntTy::I8) => TypeModel::I8,
        TyModel::Int(IntTy::I16) => TypeModel::I16,
        TyModel::Int(IntTy::I32) => TypeModel::I32,
        TyModel::Int(IntTy::I64) => TypeModel::I64,
        TyModel::Int(IntTy::I128) => TypeModel::I128,
        TyModel::Int(IntTy::Isize) => TypeModel::ISize,
        TyModel::Uint(UintTy::U8) => TypeModel::U8,
        TyModel::Uint(UintTy::U16) => TypeModel::U16,
        TyModel::Uint(UintTy::U32) => TypeModel::U32,
        TyModel::Uint(UintTy::U64) => TypeModel::U64,
        TyModel::Uint(UintTy::U128) => TypeModel::U128,
        TyModel::Uint(UintTy::Usize) => TypeModel::USize,
        TyModel::Float(FloatTy::F32) => TypeModel::F32,
        TyModel::Float(FloatTy::F64) => TypeModel::F64,
        TyModel::Bool => TypeModel::Bool,
        TyModel::Char => TypeModel::Char,
        TyModel::Adt(_, _) => TypeModel::DotnetType(named_ref(ctx, t)),
        TyModel::Tuple(es) => if es.len() == 0 {
            TypeModel::Void
        } else {
            TypeModel::DotnetType(named_ref(ctx, t))
        },
        TyModel::Array(_, _) => TypeModel::DotnetType(named_ref(ctx, t)),
        TyModel::Slice(e) => TypeModel::DotnetType(slice_ref(ctx, *e)),
        TyModel::RawPtr(e) => match *e {
            TyModel::Slice(inner) => TypeModel::DotnetType(slice_ref(ctx, *inner)),
            _ => TypeModel::Ptr(Box::new(resolve(ctx, *e))),
        },
        TyModel::Ref(e) => match *e {
            TyModel::Slice(inner) => TypeModel::DotnetType(slice_ref(ctx, *inner)),
            _ => TypeModel::Ptr(Box::new(resolve(ctx, *e))),
        },
        TyModel::Param(i) => TypeModel::GenericArg(i),
    }
}

fn named_type(ctx: &TyCtxt, t: &Ty) -> (r: DotnetTypeRef)
    ensures
        r@ == named_ref(*ctx, t@),
{
    DotnetTypeRef { assembly: None, name_path: mangle_ty(ctx, t), is_valuetype: true }
}

/// The value type that stands for a slice of `elem`.
pub fn slice_type(ctx: &TyCtxt, elem: &Ty) -> (r: DotnetTypeRef)
    ensures
        r@ == slice_ref(*ctx, elem@),
{
    let name = String::from_str("core.ptr.metadata.PtrComponents");
    let m = mangle_ty(ctx, elem);
    DotnetTypeRef { assembly: None, name_path: name.concat(m.as_str()), is_valuetype: true }
}

/// The target type descriptor of `t`, generic parameters included.
pub fn resolve_ty(ctx: &TyCtxt, t: &Ty) -> (r: Type)
    ensures
        r@ == resolve(*ctx, t@),
    decreases t,
{
    match t {
        Ty::Int(IntTy::I8) => Type::I8,
        Ty::Int(IntTy::I16) => Type::I16,
        Ty::Int(IntTy::I32) => Type::I32,
        Ty::Int(IntTy::I64) => Type::I64,
        Ty::Int(IntTy::I128) => Type::I128,
        Ty::Int(IntTy::Isize) => Type::ISize,
        Ty::Uint(UintTy::U8) => Type::U8,
        Ty::Uint(UintTy::U16) => Type::U16,
        Ty::Uint(UintTy::U32) => Type::U32,
        Ty::Uint(UintTy::U64) => Type::U64,
        Ty::Uint(UintTy::U128) => Type::U128,
        Ty::Uint(UintTy::Usize) => Type::USize,
        Ty::Float(FloatTy::F32) => Type::F32,
        Ty::Float(FloatTy::F64) => Type::F64,
        Ty::Bool => Type::Bool,
        Ty::Char => Type::Char,
        Ty::Adt(_, _) => Type::DotnetType(named_type(ctx, t)),
        Ty::Tuple(es) => {
            proof {
                lemma_tys_view(es@);
            }
            if es.len() == 0 {
                Type::Void
            } else {
                Type::DotnetType(named_type(ctx, t))
            }
        },
        Ty::Array(_, _) => Type::DotnetType(named_type(ctx, t)),
        Ty::Slice(e) => Type::DotnetType(slice_type(ctx, e)),
        Ty::RawPtr(e) => match &**e {
            Ty::Slice(inner) => {
                assert(e@ == TyModel::Slice(Box::new(inner@)));
                Type::DotnetType(slice_type(ctx, inner))
            },
            _ => Type::Ptr(Box::new(resolve_ty(ctx, e))),
        },
        Ty::Ref(e) => match &**e {
            Ty::Slice(inner) => {
                assert(e@ == TyModel::Slice(Box::new(inner@)));
                Type::DotnetType(slice_type(ctx, inner))
            },
            _ => Type::Ptr(Box::new(resolve_ty(ctx, e))),
        },
        Ty::Param(i) => Type::GenericArg(*i),
    }
}

/// A type that the cache has defined in the target's type space.
#[derive(Debug, PartialEq, Eq)]
pub struct TypeDef {
    pub name: String,
    pub fields: Vec<FieldDescriptor>,
}

/// Resolves source types to target types, and records the named types it has
/// met, each once, in the order in which they were first met.
#[derive(Debug, PartialEq, Eq)]
pub struct TyCache {
    defs: Vec<TypeDef>,
}

/// The name under which `t` is defined in the target's type space, if it is
/// a named type of the module.
pub open spec fn defined_name(ctx: TyCtxt, t: TyModel) -> Option<Seq<char>> {
    match resolve(ctx, t) {
        TypeModel::DotnetType(r) => Some(r.name_path),
        _ => None,
    }
}

/// The cache is memoized: resolving a type again defines nothing new, the
/// first definition of each name stays, and every named type reachable from
/// the type is defined.
pub proof fn lemma_resolution_memoized(ctx: TyCtxt, t: TyModel, defs: Seq<Entry>, fuel: nat)
    ensures
        define_all(define_all(defs, entries(ctx, t, fuel)), entries(ctx, t, fuel)) == define_all(
            defs,
            entries(ctx, t, fuel),
        ),
        forall|k: int| 0 <= k < defs.len() ==> #[trigger] define_all(defs, entries(ctx, t, fuel))[k]
            == defs[k],
        forall|i: int|
            0 <= i < entries(ctx, t, fuel).len() ==> has_name(
                define_all(defs, entries(ctx, t, fuel)),
                #[trigger] entries(ctx, t, fuel)[i].0,
            ),
{
    lemma_define_all(defs, entries(ctx, t, fuel));
}

impl TyCache {
    /// The names defined so far, in the order in which they were first met.
    pub closed spec fn names(&self) -> Seq<Seq<char>> {
        self.defs@.map_values(|d: TypeDef| d.name@)
    }

    /// The definitions so far: each name with its fields.
    pub closed spec fn defs_model(&self) -> Seq<Entry> {
        self.defs@.map_values(|d: TypeDef| (d.name@, fields_model(d.fields@)))
    }

    proof fn lemma_names_model(&self)
        ensures
            self.names().len() == self.defs_model().len(),
            self.layouts().len() == self.defs_model().len(),
            forall|k: int|
                0 <= k < self.names().len() ==> #[trigger] self.names()[k] == self.defs_model()[k].0
                    && self.layouts()[k] == self.defs_model()[k].1,
            forall|x: Seq<char>| self.names().contains(x) <==> has_name(self.defs_model(), x),
    {
        assert forall|x: Seq<char>| self.names().contains(x) implies has_name(self.defs_model(), x) by {
            let k = choose|k: int| 0 <= k < self.names().len() && self.names()[k] == x;
            assert(self.defs_model()[k].0 == x);
        }
        assert forall|x: Seq<char>| has_name(self.defs_model(), x) implies self.names().contains(x) by {
            let k = choose|k: int| 0 <= k < self.defs_model().len() && #[trigger] self.defs_model()[k].0 == x;
            assert(self.names()[k] == x);
        }
    }

    /// The fields of each defined type, in the order of `names`.
    pub closed spec fn layouts(&self) -> Seq<Seq<FieldModel>> {
        self.defs@.map_values(|d: TypeDef| fields_model(d.fields@))
    }

    pub fn new() -> (r: TyCache)
        ensures
            r.names() == Seq::<Seq<char>>::empty(),
            r.layouts() == Seq::<Seq<FieldModel>>::empty(),
    {
        let r = TyCache { defs: Vec::new() };
        assert(r.names() =~= Seq::<Seq<char>>::empty());
        assert(r.layouts() =~= Seq::<Seq<FieldModel>>::empty());
        r
    }

    /// The fields of the `i`-th type defined.
    pub fn fields_at(&self, i: usize) -> (r: &Vec<FieldDescriptor>)
        requires
            i < self.names().len(),
        ensures
            fields_model(r@) == self.layouts()[i as int],
    {
        &self.defs[i].fields
    }

    /// How many types have been defined.
    pub fn len(&self) -> (r: usize)
        ensures
            r == self.names().len(),
    {
        self.defs.len()
    }

    /// The name of the `i`-th type defined.
    pub fn name_at(&self, i: usize) -> (r: &str)
        requires
            i < self.names().len(),
        ensures
            r@ == self.names()[i as int],
    {
        self.defs[i].name.as_str()
    }

    /// Whether a type named `name` has been defined.
    pub fn contains(&self, name: &String) -> (r: bool)
        ensures
            r == self.names().contains(name@),
    {
        let mut i: usize = 0;
        while i < self.defs.len()
            invariant
                i <= self.defs@.len(),
                forall|k: int| 0 <= k < i ==> self.names()[k] != name@,
            decreases self.defs@.len() - i,
        {
            if self.defs[i].name == *name {
                assert(self.names()[i as int] == name@);
                return true;
            }
            i += 1;
        }
        false
    }

    /// Records `name` as defined, unless it already is: the first definition of a name stays.
    fn define(&mut self, name: String, fields: Vec<FieldDescriptor>)
        ensures
            old(self).names().contains(name@) ==> final(self).names() == old(self).names()
                && final(self).layouts() == old(self).layouts(),
            !old(self).names().contains(name@) ==> final(self).names() == old(self).names().push(
                name@,
            ) && final(self).layouts() == old(self).layouts().push(fields_model(fields@)),
            final(self).defs_model() == define_one(old(self).defs_model(), (name@, fields_model(fields@))),
    {
        proof {
            self.lemma_names_model();
        }
        if !self.contains(&name) {
            let ghost before = self.defs@;
            self.defs.push(TypeDef { name, fields });
            assert(self.names() =~= before.map_values(|d: TypeDef| d.name@).push(
                self.defs@.last().name@,
            ));
            assert(self.layouts() =~= before.map_values(|d: TypeDef| fields_model(d.fields@)).push(
                fields_model(self.defs@.last().fields@),
            ));
            assert(self.defs_model() =~= before.map_values(
                |d: TypeDef| (d.name@, fields_model(d.fields@)),
            ).push((name@, fields_model(fields@))));
        }
    }

    /// Resolves `t` to its target type. Each named type reachable from `t`
    /// (through elements, pointees, generic arguments and fields, as many
    /// levels of data types deep as `ctx` defines), and the nested type of each
    /// enum variant, is defined the first time it is met; a type with a generic
    /// parameter left in it is refused.
    pub fn type_from_cache(&mut self, ctx: &TyCtxt, t: &Ty) -> (r: Result<Type, CodegenError>)
        ensures
            has_param(t@) ==> r is Err && r->Err_0 is UnresolvedGeneric && final(self).defs_model()
                == old(self).defs_model() && final(self).names() == old(self).names(),
            !has_param(t@) ==> r is Ok && r->Ok_0@ == resolve(*ctx, t@),
            !has_param(t@) ==> final(self).defs_model() == define_all(
                old(self).defs_model(),
                entries(*ctx, t@, ctx.adts@.len() as nat),
            ),
            !has_param(t@) ==> forall|i: int|
                0 <= i < entries(*ctx, t@, ctx.adts@.len() as nat).len() ==> final(self).names().contains(#[trigger] entries(*ctx, t@, ctx.adts@.len() as nat)[i].0),
            !has_param(t@) ==> (defined_name(*ctx, t@) matches Some(n) ==> final(self).names().contains(n)),
            forall|k: int|
                0 <= k < old(self).names().len() ==> #[trigger] final(self).names()[k] == old(self).names()[k],
            forall|x: Seq<char>| old(self).names().contains(x) ==> final(self).names().contains(x),
    {
        proof {
            self.lemma_names_model();
        }
        if ty_has_param(t) {
            return Err(CodegenError::UnresolvedGeneric);
        }
        let ghost d0 = self.defs_model();
        let ghost es = entries(*ctx, t@, ctx.adts@.len() as nat);
        let tpe = resolve_ty(ctx, t);
        self.define_reachable(ctx, t, ctx.adts.len() as u64);
        proof {
            lemma_define_all(d0, es);
            self.lemma_names_model();
            old(self).lemma_names_model();
            assert forall|k: int| 0 <= k < old(self).names().len() implies #[trigger] self.names()[k]
                == old(self).names()[k] by {
                assert(self.defs_model()[k] == d0[k]);
            }
            match defined_name(*ctx, t@) {
                Some(n) => {
                    assert(es[0].0 == n);
                },
                None => {},
            }
        }
        Ok(tpe)
    }

    fn define_reachable(&mut self, ctx: &TyCtxt, t: &Ty, fuel: u64)
        ensures
            final(self).defs_model() == define_all(old(self).defs_model(), entries(*ctx, t@, fuel as nat)),
        decreases fuel, 0nat, t,
    {
        let ghost d0 = self.defs_model();
        let ghost own = own_entries(*ctx, t@);
        let ghost head: Seq<Entry> = match defined_name(*ctx, t@) {
            Some(n) => seq![(n, def_fields(*ctx, t@))],
            None => Seq::empty(),
        };
        let tpe = resolve_ty(ctx, t);
        assert(define_all(d0, Seq::<Entry>::empty()) == d0);
        match tpe {
            Type::DotnetType(r) => {
                let fields = type_def_fields(ctx, t);
                let ghost e = (r.name_path@, fields_model(fields@));
                assert(defined_name(*ctx, t@) == Some(r.name_path@));
                assert(head == seq![e]);
                self.define(r.name_path, fields);
                proof {
                    assert(head.drop_last() =~= Seq::<Entry>::empty());
                    assert(define_all(d0, head) == define_one(define_all(d0, head.drop_last()), head.last()));
                }
            },
            _ => {
                assert(head =~= Seq::<Entry>::empty());
            },
        }
        assert(self.defs_model() == define_all(d0, head));
        self.define_variant_types(ctx, t);
        proof {
            lemma_define_all_concat(d0, head, own.skip(head.len() as int));
            assert(head + own.skip(head.len() as int) =~= own);
        }
        let ghost after_own = self.defs_model();
        let ghost f = fuel as nat;
        let ghost comp: Seq<Entry> = match t@ {
            TyModel::Tuple(es) => entries_all(*ctx, es, f),
            TyModel::Array(e, _) => entries(*ctx, *e, f),
            TyModel::Slice(e) => entries(*ctx, *e, f),
            TyModel::RawPtr(e) => entries(*ctx, *e, f),
            TyModel::Ref(e) => entries(*ctx, *e, f),
            TyModel::Adt(id, args) => entries_all(*ctx, args, f) + if f > 0 && (id as int)
                < ctx.adts@.len() {
                entries_variants(*ctx, args, ctx.adts@[id as int].variants@, (f - 1) as nat)
            } else {
                Seq::empty()
            },
            _ => Seq::empty(),
        };
        assert(entries(*ctx, t@, f) == own + comp);
        match t {
            Ty::Tuple(es) => self.define_reachable_all(ctx, es, fuel),
            Ty::Array(e, _) | Ty::Slice(e) | Ty::RawPtr(e) | Ty::Ref(e) => self.define_reachable(ctx, e, fuel),
            Ty::Adt(id, args) => {
                self.define_reachable_all(ctx, args, fuel);
                let ghost mid = self.defs_model();
                if fuel > 0 && (*id as usize) < ctx.adts.len() {
                    self.define_variants_reach(ctx, args, &ctx.adts[*id as usize].variants, fuel - 1);
                    proof {
                        lemma_define_all_concat(
                            after_own,
                            entries_all(*ctx, tys_view(args@), fuel as nat),
                            entries_variants(*ctx, tys_view(args@), ctx.adts@[*id as int].variants@, (fuel - 1) as nat),
                        );
                    }
                } else {
                    proof {
                        let a = entries_all(*ctx, tys_view(args@), fuel as nat);
                        assert(a + Seq::<Entry>::empty() =~= a);
                    }
                }
            },
            _ => {},
        }
        proof {
            assert(self.defs_model() == define_all(after_own, comp));
            lemma_define_all_concat(d0, own, comp);
        }
    }

    fn define_reachable_all(&mut self, ctx: &TyCtxt, ts: &Vec<Ty>, fuel: u64)
        ensures
            final(self).defs_model() == define_all(
                old(self).defs_model(),
                entries_all(*ctx, tys_view(ts@), fuel as nat),
            ),
        decreases fuel, 0nat, ts,
    {
        let ghost d0 = self.defs_model();
        let mut i: usize = 0;
        assert(tys_view(ts@.subrange(0, 0)) =~= Seq::<TyModel>::empty());
        while i < ts.len()
            invariant
                i <= ts@.len(),
                self.defs_model() == define_all(d0, entries_all(*ctx, tys_view(ts@.subrange(0, i as int)), fuel as nat)),
            decreases ts@.len() - i,
        {
            proof {
                assert(decreases_to!(ts => ts@[i as int]));
            }
            let ghost before = self.defs_model();
            self.define_reachable(ctx, &ts[i], fuel);
            proof {
                crate::ty::lemma_tys_view_push(ts@.subrange(0, i as int), ts@[i as int]);
                assert(ts@.subrange(0, i as int).push(ts@[i as int]) =~= ts@.subrange(0, i + 1));
                let v = tys_view(ts@.subrange(0, i + 1));
                assert(v.drop_last() =~= tys_view(ts@.subrange(0, i as int)));
                lemma_define_all_concat(
                    d0,
                    entries_all(*ctx, tys_view(ts@.subrange(0, i as int)), fuel as nat),
                    entries(*ctx, ts@[i as int]@, fuel as nat),
                );
            }
            i += 1;
        }
        assert(ts@.subrange(0, ts@.len() as int) =~= ts@);
    }

    fn define_variants_reach(&mut self, ctx: &TyCtxt, args: &Vec<Ty>, variants: &Vec<VariantDef>, fuel: u64)
        ensures
            final(self).defs_model() == define_all(
                old(self).defs_model(),
                entries_variants(*ctx, tys_view(args@), variants@, fuel as nat),
            ),
        decreases fuel, 1nat, variants,
    {
        let ghost d0 = self.defs_model();
        let mut k: usize = 0;
        assert(variants@.subrange(0, 0) =~= Seq::<VariantDef>::empty());
        while k < variants.len()
            invariant
                k <= variants@.len(),
                self.defs_model() == define_all(
                    d0,
                    entries_variants(*ctx, tys_view(args@), variants@.subrange(0, k as int), fuel as nat),
                ),
            decreases variants@.len() - k,
        {
            let ftys = variant_types(args, &variants[k]);
            self.define_reachable_all(ctx, &ftys, fuel);
            proof {
                assert(variants@.subrange(0, k + 1).drop_last() =~= variants@.subrange(0, k as int));
                lemma_define_all_concat(
                    d0,
                    entries_variants(*ctx, tys_view(args@), variants@.subrange(0, k as int), fuel as nat),
                    entries_all(*ctx, variant_field_tys(variants@[k as int], tys_view(args@)), fuel as nat),
                );
            }
            k += 1;
        }
        assert(variants@.subrange(0, variants@.len() as int) =~= variants@);
    }

    /// Defines the nested type of each variant of `t`, if `t` is an enum.
    fn define_variant_types(&mut self, ctx: &TyCtxt, t: &Ty)
        ensures
            final(self).defs_model() == define_all(
                old(self).defs_model(),
                own_entries(*ctx, t@).skip(
                    match defined_name(*ctx, t@) {
                        Some(_) => 1int,
                        None => 0int,
                    },
                ),
            ),
    {
        let ghost d0 = self.defs_model();
        let ghost h: int = match defined_name(*ctx, t@) {
            Some(_) => 1int,
            None => 0int,
        };
        let ghost vs = own_entries(*ctx, t@).skip(h);
        match t {
            Ty::Adt(id, _) => {
                let id = *id;
                if (id as usize) < ctx.adts.len() && ctx.adts[id as usize].kind == AdtKind::Enum
                    && ctx.adts[id as usize].variants.len() <= u32::MAX as usize {
                    let n = ctx.adts[id as usize].variants.len();
                    let owner = mangle_ty(ctx, t);
                    let mut v: usize = 0;
                    assert(vs.subrange(0, 0) =~= Seq::<Entry>::empty());
                    while v < n
                        invariant
                            n == ctx.adts@[id as int].variants@.len(),
                            n <= u32::MAX,
                            is_numbered_enum(*ctx, t@),
                            t@ is Adt && t@->Adt_0 == id,
                            owner@ == crate::mangle::mangled(*ctx, t@),
                            vs.len() == n,
                            forall|w: int| 0 <= w < n ==> #[trigger] vs[w] == (
                                variant_ref(*ctx, t@, w as u32).name_path,
                                variant_fields(*ctx, t@, w as u32),
                            ),
                            v <= n,
                            self.defs_model() == define_all(d0, vs.subrange(0, v as int)),
                        decreases n - v,
                    {
                        let name = owner.clone().concat("/").concat(ctx.adts[id as usize].variants[v].name.as_str());
                        proof {
                            reveal_strlit("/");
                        }
                        let fields = variant_def_fields(ctx, t, v as u32);
                        self.define(name, fields);
                        proof {
                            assert(vs.subrange(0, v + 1).drop_last() =~= vs.subrange(0, v as int));
                        }
                        v += 1;
                    }
                    assert(vs.subrange(0, n as int) =~= vs);
                    return;
                }
            },
            _ => {},
        }
        assert(vs =~= Seq::<Entry>::empty());
    }
}

/// The types of the fields of `variant` with the generic arguments `args` substituted.
fn variant_types(args: &Vec<Ty>, variant: &VariantDef) -> (r: Vec<Ty>)
    ensures
        tys_view(r@) == variant_field_tys(*variant, tys_view(args@)),
{
    let mut r: Vec<Ty> = Vec::new();
    let mut i: usize = 0;
    while i < variant.fields.len()
        invariant
            i <= variant.fields@.len(),
            tys_view(r@) == variant_field_tys(*variant, tys_view(args@)).subrange(0, i as int),
        decreases variant.fields@.len() - i,
    {
        let t = monomorphize(args, &variant.fields[i].ty);
        proof {
            crate::ty::lemma_tys_view_push(r@, t);
        }
        r.push(t);
        i += 1;
        assert(tys_view(r@) =~= variant_field_tys(*variant, tys_view(args@)).subrange(0, i as int));
    }
    assert(variant_field_tys(*variant, tys_view(args@)).subrange(0, i as int) =~= variant_field_tys(
        *variant,
        tys_view(args@),
    ));
    r
}

/// The fields of the nested type of variant `v` of the enum `t`.
fn variant_def_fields(ctx: &TyCtxt, t: &Ty, v: u32) -> (r: Vec<FieldDescriptor>)
    requires
        is_numbered_enum(*ctx, t@),
        (v as int) < ctx.adts@[t@->Adt_0 as int].variants@.len(),
    ensures
        fields_model(r@) == variant_fields(*ctx, t@, v),
{
    let id = match t {
        Ty::Adt(id, _) => *id,
        _ => 0,
    };
    let n = ctx.adts[id as usize].variants[v as usize].fields.len();
    let mut r: Vec<FieldDescriptor> = Vec::new();
    if n > u32::MAX as usize {
        assert(fields_model(r@) =~= Seq::<FieldModel>::empty());
        return r;
    }
    let mut i: usize = 0;
    while i < n
        invariant
            t@ is Adt && t@->Adt_0 == id,
            is_numbered_enum(*ctx, t@),
            (v as int) < ctx.adts@[id as int].variants@.len(),
            n == ctx.adts@[id as int].variants@[v as int].fields@.len(),
            n <= u32::MAX,
            i <= n,
            fields_model(r@) == Seq::new(i as nat, |k: int| variant_field_desc(*ctx, t@, v, k as u32)->0),
        decreases n - i,
    {
        let f = match enum_field_descriptor(ctx, t, i as u32, v) {
            Ok(f) => f,
            Err(_) => {
                assert(false);
                return r;
            },
        };
        let ghost before = r@;
        r.push(f);
        proof {
            assert(fields_model(r@) =~= fields_model(before).push(f@));
            assert(fields_model(r@) =~= Seq::new((i + 1) as nat, |k: int| variant_field_desc(*ctx, t@, v, k as u32)->0));
        }
        i += 1;
    }
    r
}

impl TyCache {
    /// The value type that stands for a slice of `elem`, defined on first use.
    pub fn slice_ty(&mut self, ctx: &TyCtxt, elem: &Ty) -> (r: Result<Type, CodegenError>)
        ensures
            has_param(elem@) ==> r is Err && r->Err_0 is UnresolvedGeneric,
            !has_param(elem@) ==> r is Ok && r->Ok_0@ == TypeModel::DotnetType(
                slice_ref(*ctx, elem@),
            ),
            !has_param(elem@) ==> final(self).names().contains(slice_ref(*ctx, elem@).name_path),
            forall|k: int|
                0 <= k < old(self).names().len() ==> final(self).names()[k] == old(self).names()[k],
            !has_param(elem@) && !old(self).names().contains(slice_ref(*ctx, elem@).name_path)
                ==> final(self).layouts() == old(self).layouts().push(slice_fields(*ctx, elem@)),
    {
        if ty_has_param(elem) {
            return Err(CodegenError::UnresolvedGeneric);
        }
        let r = slice_type(ctx, elem);
        let ghost before = self.names();
        self.define(r.name_path.clone(), slice_field_descs(ctx, elem));
        proof {
            if !before.contains(r@.name_path) {
                assert(self.names()[before.len() as int] == r@.name_path);
            }
        }
        Ok(Type::DotnetType(r))
    }
}

} // verus!
