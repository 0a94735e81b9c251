//! Types of the source IR, their model and generic substitution.

use vstd::prelude::*;

verus! {

/// Width of a signed integer type of the source language.
#[derive(Debug, Clone, Copy, PartialEq, Eq, Structural)]
pub enum IntTy {
    I8,
    I16,
    I32,
    I64,
    I128,
    Isize,
}

/// Width of an unsigned integer type of the source language.
#[derive(Debug, Clone, Copy, PartialEq, Eq, Structural)]
pub enum UintTy {
    U8,
    U16,
    U32,
    U64,
    U128,
    Usize,
}

/// Width of a floating-point type of the source language.
#[derive(Debug, Clone, Copy, PartialEq, Eq, Structural)]
pub enum FloatTy {
    F32,
    F64,
}

/// A type of the source IR, as handed over by the front end.
#[derive(Debug, PartialEq, Eq)]
pub enum Ty {
    Int(IntTy),
    Uint(UintTy),
    Float(FloatTy),
    Bool,
    Char,
    /// An algebraic data type: its index in the type context and its generic arguments.
    Adt(u32, Vec<Ty>),
    Tuple(Vec<Ty>),
    Array(Box<Ty>, u64),
    Slice(Box<Ty>),
    RawPtr(Box<Ty>),
    Ref(Box<Ty>),
    /// A generic parameter that has not been substituted yet.
    Param(u32),
}

/// What kind of algebraic data type a definition is.
#[derive(Debug, Clone, Copy, PartialEq, Eq, Structural)]
pub enum AdtKind {
    Struct,
    Enum,
    Union,
}

/// A field of a struct, union or enum variant.
#[derive(Debug, PartialEq, Eq)]
pub struct FieldDef {
    pub name: String,
    /// The field's type; `Param(i)` stands for the `i`-th generic argument of the owner.
    pub ty: Ty,
}

/// A variant of an enum; a struct or a union has exactly one.
#[derive(Debug, PartialEq, Eq)]
pub struct VariantDef {
    pub name: String,
    pub fields: Vec<FieldDef>,
}

/// The definition of an algebraic data type.
#[derive(Debug, PartialEq, Eq)]
pub struct AdtDef {
    /// The fully qualified path of the type, such as `core::option::Option`.
    pub path: String,
    pub kind: AdtKind,
    pub variants: Vec<VariantDef>,
}

/// The definitions that the types of one compilation unit refer to.
#[derive(Debug, PartialEq, Eq)]
pub struct TyCtxt {
    pub adts: Vec<AdtDef>,
}

/// The mathematical model of a source type: a tree whose lists are sequences.
pub enum TyModel {
    Int(IntTy),
    Uint(UintTy),
    Float(FloatTy),
    Bool,
    Char,
    Adt(u32, Seq<TyModel>),
    Tuple(Seq<TyModel>),
    Array(Box<TyModel>, u64),
    Slice(Box<TyModel>),
    RawPtr(Box<TyModel>),
    Ref(Box<TyModel>),
    Param(u32),
}

pub open spec fn ty_view(t: Ty) -> TyModel
    decreases t,
{
    match t {
        Ty::Int(i) => TyModel::Int(i),
        Ty::Uint(u) => TyModel::Uint(u),
        Ty::Float(f) => TyModel::Float(f),
        Ty::Bool => TyModel::Bool,
        Ty::Char => TyModel::Char,
        Ty::Adt(id, args) => TyModel::Adt(id, tys_view(args@)),
        Ty::Tuple(elems) => TyModel::Tuple(tys_view(elems@)),
        Ty::Array(e, n) => TyModel::Array(Box::new(ty_view(*e)), n),
        Ty::Slice(e) => TyModel::Slice(Box::new(ty_view(*e))),
        Ty::RawPtr(e) => TyModel::RawPtr(Box::new(ty_view(*e))),
        Ty::Ref(e) => TyModel::Ref(Box::new(ty_view(*e))),
        Ty::Param(p) => TyModel::Param(p),
    }
}

pub open spec fn tys_view(ts: Seq<Ty>) -> Seq<TyModel>
    decreases ts,
{
    if ts.len() == 0 {
        Seq::empty()
    } else {
        tys_view(ts.drop_last()).push(ty_view(ts.last()))
    }
}

impl View for Ty {
    type V = TyModel;

    open spec fn view(&self) -> TyModel {
        ty_view(*self)
    }
}

pub proof fn lemma_tys_view(ts: Seq<Ty>)
    ensures
        tys_view(ts).len() == ts.len(),
        forall|i: int| 0 <= i < ts.len() ==> #[trigger] tys_view(ts)[i] == ty_view(ts[i]),
    decreases ts.len(),
{
    if ts.len() > 0 {
        lemma_tys_view(ts.drop_last());
    }
}

pub proof fn lemma_tys_view_push(ts: Seq<Ty>, t: Ty)
    ensures
        tys_view(ts.push(t)) == tys_view(ts).push(ty_view(t)),
{
    assert(ts.push(t).drop_last() =~= ts);
}

/// The `i`-th generic argument of `args`; a parameter without an argument stays one.
pub open spec fn subst_param(i: u32, args: Seq<TyModel>) -> TyModel {
    if (i as int) < args.len() {
        args[i as int]
    } else {
        TyModel::Param(i)
    }
}

/// `t` with each generic parameter replaced by its argument in `args`.
pub open spec fn subst(t: TyModel, args: Seq<TyModel>) -> TyModel
    decreases t,
{
    match t {
        TyModel::Adt(id, a) => TyModel::Adt(id, substs(a, args)),
        TyModel::Tuple(es) => TyModel::Tuple(substs(es, args)),
        TyModel::Array(e, n) => TyModel::Array(Box::new(subst(*e, args)), n),
        TyModel::Slice(e) => TyModel::Slice(Box::new(subst(*e, args))),
        TyModel::RawPtr(e) => TyModel::RawPtr(Box::new(subst(*e, args))),
        TyModel::Ref(e) => TyModel::Ref(Box::new(subst(*e, args))),
        TyModel::Param(i) => subst_param(i, args),
        _ => t,
    }
}

pub open spec fn substs(ts: Seq<TyModel>, args: Seq<TyModel>) -> Seq<TyModel>
    decreases ts,
{
    if ts.len() == 0 {
        ts
    } else {
        substs(ts.drop_last(), args).push(subst(ts.last(), args))
    }
}

/// Substitutes the generic arguments `args` into `t`.
pub fn monomorphize(args: &Vec<Ty>, t: &Ty) -> (r: Ty)
    ensures
        r@ == subst(t@, tys_view(args@)),
    decreases t,
{
    match t {
        Ty::Adt(id, a) => Ty::Adt(*id, monomorphize_all(args, a)),
        Ty::Tuple(es) => Ty::Tuple(monomorphize_all(args, es)),
        Ty::Array(e, n) => Ty::Array(Box::new(monomorphize(args, e)), *n),
        Ty::Slice(e) => Ty::Slice(Box::new(monomorphize(args, e))),
        Ty::RawPtr(e) => Ty::RawPtr(Box::new(monomorphize(args, e))),
        Ty::Ref(e) => Ty::Ref(Box::new(monomorphize(args, e))),
        Ty::Param(i) => {
            proof {
                lemma_tys_view(args@);
            }
            if (*i as usize) < args.len() {
                copy_ty(&args[*i as usize])
            } else {
                Ty::Param(*i)
            }
        },
        _ => copy_ty(t),
    }
}

/// Substitutes the generic arguments `args` into each of `ts`.
pub fn monomorphize_all(args: &Vec<Ty>, ts: &Vec<Ty>) -> (r: Vec<Ty>)
    ensures
        tys_view(r@) == substs(tys_view(ts@), tys_view(args@)),
    decreases ts,
{
    let mut r: Vec<Ty> = Vec::new();
    let mut i: usize = 0;
    while i < ts.len()
        invariant
            i <= ts@.len(),
            tys_view(r@) == substs(tys_view(ts@.subrange(0, i as int)), tys_view(args@)),
        decreases ts@.len() - i,
    {
        proof {
            assert(decreases_to!(ts => ts@[i as int]));
        }
        let c = monomorphize(args, &ts[i]);
        proof {
            lemma_tys_view_push(r@, c);
            lemma_tys_view_push(ts@.subrange(0, i as int), ts@[i as int]);
            assert(ts@.subrange(0, i as int).push(ts@[i as int]) =~= ts@.subrange(0, i + 1));
            let v = tys_view(ts@.subrange(0, i + 1));
            assert(v.drop_last() =~= tys_view(ts@.subrange(0, i as int)));
        }
        r.push(c);
        i += 1;
    }
    assert(ts@.subrange(0, ts@.len() as int) =~= ts@);
    r
}

/// Returns a copy of `t`.
pub fn copy_ty(t: &Ty) -> (r: Ty)
    ensures
        r@ == t@,
    decreases t,
{
    match t {
        Ty::Int(i) => Ty::Int(*i),
        Ty::Uint(u) => Ty::Uint(*u),
        Ty::Float(f) => Ty::Float(*f),
        Ty::Bool => Ty::Bool,
        Ty::Char => Ty::Char,
        Ty::Adt(id, args) => Ty::Adt(*id, copy_tys(args)),
        Ty::Tuple(elems) => Ty::Tuple(copy_tys(elems)),
        Ty::Array(e, n) => Ty::Array(Box::new(copy_ty(e)), *n),
        Ty::Slice(e) => Ty::Slice(Box::new(copy_ty(e))),
        Ty::RawPtr(e) => Ty::RawPtr(Box::new(copy_ty(e))),
        Ty::Ref(e) => Ty::Ref(Box::new(copy_ty(e))),
        Ty::Param(p) => Ty::Param(*p),
    }
}

/// Returns a copy of each type of `ts`.
pub fn copy_tys(ts: &Vec<Ty>) -> (r: Vec<Ty>)
    ensures
        tys_view(r@) == tys_view(ts@),
    decreases ts,
{
    let mut r: Vec<Ty> = Vec::new();
    let mut i: usize = 0;
    while i < ts.len()
        invariant
            i <= ts@.len(),
            tys_view(r@) == tys_view(ts@.subrange(0, i as int)),
        decreases ts@.len() - i,
    {
        proof {
            assert(decreases_to!(ts => ts@[i as int]));
        }
        let c = copy_ty(&ts[i]);
        let ghost old_r = r@;
        r.push(c);
        proof {
            assert(r@.drop_last() =~= old_r);
            assert(ts@.subrange(0, i + 1).drop_last() =~= ts@.subrange(0, i as int));
        }
        i += 1;
    }
    assert(ts@.subrange(0, ts@.len() as int) =~= ts@);
    r
}

} // verus!
