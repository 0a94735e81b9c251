//! Source-level names of types and their target identifiers.

use vstd::prelude::*;
use crate::text::{push_str_chars, string_of_chars};
use crate::ty::{
    copy_ty, lemma_tys_view, FloatTy, IntTy, Ty, TyCtxt, TyModel, UintTy, tys_view,
};
use crate::utilis::{escape_class_name, escaped_class_name};

verus! {

pub open spec fn digit_char(d: nat) -> char {
    if d == 0 {
        '0'
    } else if d == 1 {
        '1'
    } else if d == 2 {
        '2'
    } else if d == 3 {
        '3'
    } else if d == 4 {
        '4'
    } else if d == 5 {
        '5'
    } else if d == 6 {
        '6'
    } else if d == 7 {
        '7'
    } else if d == 8 {
        '8'
    } else {
        '9'
    }
}

/// The decimal digits of `n`.
pub open spec fn decimal(n: nat) -> Seq<char>
    decreases n,
{
    if n < 10 {
        seq![digit_char(n)]
    } else {
        decimal(n / 10).push(digit_char(n % 10))
    }
}

fn digit(d: u64) -> (r: char)
    requires
        d < 10,
    ensures
        r == digit_char(d as nat),
{
    if d == 0 {
        '0'
    } else if d == 1 {
        '1'
    } else if d == 2 {
        '2'
    } else if d == 3 {
        '3'
    } else if d == 4 {
        '4'
    } else if d == 5 {
        '5'
    } else if d == 6 {
        '6'
    } else if d == 7 {
        '7'
    } else if d == 8 {
        '8'
    } else {
        '9'
    }
}

/// Appends the decimal digits of `n` to `v`.
pub fn push_decimal(v: &mut Vec<char>, n: u64)
    ensures
        final(v)@ == old(v)@ + decimal(n as nat),
    decreases n,
{
    if n < 10 {
        v.push(digit(n));
        assert(final(v)@ =~= old(v)@ + decimal(n as nat));
    } else {
        push_decimal(v, n / 10);
        v.push(digit(n % 10));
        assert(final(v)@ =~= old(v)@ + decimal(n as nat));
    }
}

/// The decimal digits of `n`.
pub fn decimal_string(n: u64) -> (r: String)
    ensures
        r@ == decimal(n as nat),
{
    let mut v: Vec<char> = Vec::new();
    push_decimal(&mut v, n);
    assert(v@ =~= decimal(n as nat));
    string_of_chars(&v)
}

/// True when a generic parameter occurs anywhere in `t`.
pub open spec fn has_param(t: TyModel) -> bool
    decreases t,
{
    match t {
        TyModel::Param(_) => true,
        TyModel::Adt(_, args) => any_has_param(args),
        TyModel::Tuple(elems) => any_has_param(elems),
        TyModel::Array(e, _) => has_param(*e),
        TyModel::Slice(e) => has_param(*e),
        TyModel::RawPtr(e) => has_param(*e),
        TyModel::Ref(e) => has_param(*e),
        _ => false,
    }
}

pub open spec fn any_has_param(ts: Seq<TyModel>) -> bool
    decreases ts,
{
    if ts.len() == 0 {
        false
    } else {
        any_has_param(ts.drop_last()) || has_param(ts.last())
    }
}

/// Whether a generic parameter occurs in `t`.
pub fn ty_has_param(t: &Ty) -> (r: bool)
    ensures
        r == has_param(t@),
    decreases t,
{
    match t {
        Ty::Param(_) => true,
        Ty::Adt(_, args) => tys_have_param(args),
        Ty::Tuple(elems) => tys_have_param(elems),
        Ty::Array(e, _) => ty_has_param(e),
        Ty::Slice(e) => ty_has_param(e),
        Ty::RawPtr(e) => ty_has_param(e),
        Ty::Ref(e) => ty_has_param(e),
        _ => false,
    }
}

fn tys_have_param(ts: &Vec<Ty>) -> (r: bool)
    ensures
        r == any_has_param(tys_view(ts@)),
    decreases ts,
{
    let mut i: usize = 0;
    let mut found = false;
    while i < ts.len()
        invariant
            i <= ts@.len(),
            found == any_has_param(tys_view(ts@.subrange(0, i as int))),
        decreases ts@.len() - i,
    {
        proof {
            assert(decreases_to!(ts => ts@[i as int]));
        }
        let h = ty_has_param(&ts[i]);
        proof {
            crate::ty::lemma_tys_view_push(ts@.subrange(0, i as int), ts@[i as int]);
            assert(ts@.subrange(0, i as int).push(ts@[i as int]) =~= ts@.subrange(0, i + 1));
            let v = tys_view(ts@.subrange(0, i + 1));
            assert(v.drop_last() =~= tys_view(ts@.subrange(0, i as int)));
        }
        found = found || h;
        i += 1;
    }
    assert(ts@.subrange(0, ts@.len() as int) =~= ts@);
    found
}

/// The path of the data type `id` of `ctx`.
pub open spec fn adt_path(ctx: TyCtxt, id: u32) -> Seq<char> {
    if (id as int) < ctx.adts@.len() {
        ctx.adts@[id as int].path@
    } else {
        "{unknown}"@
    }
}

pub open spec fn int_name(i: IntTy) -> Seq<char> {
    match i {
        IntTy::I8 => "i8"@,
        IntTy::I16 => "i16"@,
        IntTy::I32 => "i32"@,
        IntTy::I64 => "i64"@,
        IntTy::I128 => "i128"@,
        IntTy::Isize => "isize"@,
    }
}

pub open spec fn uint_name(u: UintTy) -> Seq<char> {
    match u {
        UintTy::U8 => "u8"@,
        UintTy::U16 => "u16"@,
        UintTy::U32 => "u32"@,
        UintTy::U64 => "u64"@,
        UintTy::U128 => "u128"@,
        UintTy::Usize => "usize"@,
    }
}

/// The qualified, instantiation-aware name of `t`, written as in source code.
pub open spec fn ty_name(ctx: TyCtxt, t: TyModel) -> Seq<char>
    decreases t,
{
    match t {
        TyModel::Int(i) => int_name(i),
        TyModel::Uint(u) => uint_name(u),
        TyModel::Float(FloatTy::F32) => "f32"@,
        TyModel::Float(FloatTy::F64) => "f64"@,
        TyModel::Bool => "bool"@,
        TyModel::Char => "char"@,
        TyModel::Adt(id, args) => if args.len() == 0 {
            adt_path(ctx, id)
        } else {
            adt_path(ctx, id) + "<"@ + ty_names(ctx, args) + ">"@
        },
        TyModel::Tuple(es) => "("@ + ty_names(ctx, es) + ")"@,
        TyModel::Array(e, n) => "["@ + ty_name(ctx, *e) + ";"@ + decimal(n as nat) + "]"@,
        TyModel::Slice(e) => "["@ + ty_name(ctx, *e) + "]"@,
        TyModel::RawPtr(e) => "*"@ + ty_name(ctx, *e),
        TyModel::Ref(e) => "&"@ + ty_name(ctx, *e),
        TyModel::Param(i) => "T"@ + decimal(i as nat),
    }
}

/// The names of `ts`, separated by `,`.
pub open spec fn ty_names(ctx: TyCtxt, ts: Seq<TyModel>) -> Seq<char>
    decreases ts,
{
    if ts.len() == 0 {
        Seq::empty()
    } else if ts.len() == 1 {
        ty_name(ctx, ts[0])
    } else {
        ty_names(ctx, ts.drop_last()) + ","@ + ty_name(ctx, ts.last())
    }
}

fn push_int_name(v: &mut Vec<char>, i: IntTy)
    ensures
        final(v)@ == old(v)@ + int_name(i),
{
    match i {
        IntTy::I8 => push_str_chars(v, "i8"),
        IntTy::I16 => push_str_chars(v, "i16"),
        IntTy::I32 => push_str_chars(v, "i32"),
        IntTy::I64 => push_str_chars(v, "i64"),
        IntTy::I128 => push_str_chars(v, "i128"),
        IntTy::Isize => push_str_chars(v, "isize"),
    }
}

fn push_uint_name(v: &mut Vec<char>, u: UintTy)
    ensures
        final(v)@ == old(v)@ + uint_name(u),
{
    match u {
        UintTy::U8 => push_str_chars(v, "u8"),
        UintTy::U16 => push_str_chars(v, "u16"),
        UintTy::U32 => push_str_chars(v, "u32"),
        UintTy::U64 => push_str_chars(v, "u64"),
        UintTy::U128 => push_str_chars(v, "u128"),
        UintTy::Usize => push_str_chars(v, "usize"),
    }
}

/// Appends the name of `t` to `v`.
pub fn push_ty_name(ctx: &TyCtxt, v: &mut Vec<char>, t: &Ty)
    ensures
        final(v)@ == old(v)@ + ty_name(*ctx, t@),
    decreases t,
{
    let ghost v0 = v@;
    match t {
        Ty::Int(i) => push_int_name(v, *i),
        Ty::Uint(u) => push_uint_name(v, *u),
        Ty::Float(FloatTy::F32) => push_str_chars(v, "f32"),
        Ty::Float(FloatTy::F64) => push_str_chars(v, "f64"),
        Ty::Bool => push_str_chars(v, "bool"),
        Ty::Char => push_str_chars(v, "char"),
        Ty::Adt(id, args) => {
            if (*id as usize) < ctx.adts.len() {
                push_str_chars(v, ctx.adts[*id as usize].path.as_str());
            } else {
                push_str_chars(v, "{unknown}");
            }
            if args.len() > 0 {
                proof {
                    lemma_tys_view(args@);
                }
                push_str_chars(v, "<");
                push_ty_names(ctx, v, args);
                push_str_chars(v, ">");
            }
            proof {
                lemma_tys_view(args@);
            }
        },
        Ty::Tuple(es) => {
            push_str_chars(v, "(");
            push_ty_names(ctx, v, es);
            push_str_chars(v, ")");
        },
        Ty::Array(e, n) => {
            push_str_chars(v, "[");
            push_ty_name(ctx, v, e);
            push_str_chars(v, ";");
            push_decimal(v, *n);
            push_str_chars(v, "]");
        },
        Ty::Slice(e) => {
            push_str_chars(v, "[");
            push_ty_name(ctx, v, e);
            push_str_chars(v, "]");
        },
        Ty::RawPtr(e) => {
            push_str_chars(v, "*");
            push_ty_name(ctx, v, e);
        },
        Ty::Ref(e) => {
            push_str_chars(v, "&");
            push_ty_name(ctx, v, e);
        },
        Ty::Param(i) => {
            push_str_chars(v, "T");
            push_decimal(v, *i as u64);
        },
    }
    assert(v@ =~= v0 + ty_name(*ctx, t@));
}

/// Appends the names of `ts`, separated by `,`, to `v`.
fn push_ty_names(ctx: &TyCtxt, v: &mut Vec<char>, ts: &Vec<Ty>)
    ensures
        final(v)@ == old(v)@ + ty_names(*ctx, tys_view(ts@)),
    decreases ts,
{
    let ghost v0 = v@;
    let mut i: usize = 0;
    assert(tys_view(ts@.subrange(0, 0)) =~= Seq::<TyModel>::empty());
    assert(v@ =~= v0 + ty_names(*ctx, tys_view(ts@.subrange(0, 0))));
    while i < ts.len()
        invariant
            i <= ts@.len(),
            v@ == v0 + ty_names(*ctx, tys_view(ts@.subrange(0, i as int))),
        decreases ts@.len() - i,
    {
        proof {
            assert(decreases_to!(ts => ts@[i as int]));
            lemma_tys_view(ts@.subrange(0, i + 1));
            lemma_tys_view(ts@.subrange(0, i as int));
            assert(ts@.subrange(0, i + 1).drop_last() =~= ts@.subrange(0, i as int));
        }
        let ghost before = v@;
        if i > 0 {
            push_str_chars(v, ",");
        }
        push_ty_name(ctx, v, &ts[i]);
        proof {
            let w = tys_view(ts@.subrange(0, i + 1));
            assert(w.last() == ty_view_of(ts@[i as int]));
            if i == 0 {
                assert(v@ =~= v0 + ty_names(*ctx, w));
            } else {
                assert(w.drop_last() == tys_view(ts@.subrange(0, i as int)));
                assert(v@ =~= v0 + ty_names(*ctx, w));
            }
        }
        i += 1;
    }
    assert(ts@.subrange(0, ts@.len() as int) =~= ts@);
}

pub open spec fn ty_view_of(t: Ty) -> TyModel {
    t@
}

/// The target identifier of the type `t`.
pub open spec fn mangled(ctx: TyCtxt, t: TyModel) -> Seq<char> {
    escaped_class_name(ty_name(ctx, t))
}

/// The qualified name of `t`, written as in source code.
pub fn ty_to_string(ctx: &TyCtxt, t: &Ty) -> (r: String)
    ensures
        r@ == ty_name(*ctx, t@),
{
    let mut v: Vec<char> = Vec::new();
    push_ty_name(ctx, &mut v, t);
    assert(v@ =~= ty_name(*ctx, t@));
    string_of_chars(&v)
}

/// The target identifier of the type `t`.
pub fn mangle_ty(ctx: &TyCtxt, t: &Ty) -> (r: String)
    ensures
        r@ == mangled(*ctx, t@),
{
    let name = ty_to_string(ctx, t);
    escape_class_name(name.as_str())
}

/// The target identifier of the data type `id` instantiated with `args`.
pub fn adt_name(ctx: &TyCtxt, id: u32, args: &Vec<Ty>) -> (r: String)
    ensures
        r@ == mangled(*ctx, TyModel::Adt(id, tys_view(args@))),
{
    let mut copied: Vec<Ty> = Vec::new();
    let mut i: usize = 0;
    while i < args.len()
        invariant
            i <= args@.len(),
            tys_view(copied@) == tys_view(args@.subrange(0, i as int)),
        decreases args@.len() - i,
    {
        let c = copy_ty(&args[i]);
        proof {
            crate::ty::lemma_tys_view_push(copied@, c);
            crate::ty::lemma_tys_view_push(args@.subrange(0, i as int), args@[i as int]);
            assert(args@.subrange(0, i as int).push(args@[i as int]) =~= args@.subrange(0, i + 1));
        }
        copied.push(c);
        i += 1;
    }
    assert(args@.subrange(0, args@.len() as int) =~= args@);
    mangle_ty(ctx, &Ty::Adt(id, copied))
}

} // verus!
