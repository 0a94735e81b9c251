//! Name escaping, enum tags, field descriptors and the miscompilation checks.

use vstd::prelude::*;
use crate::clr_type::{DotnetTypeRef, DotnetTypeRefModel, FieldDescriptor, FieldModel, Type, TypeModel};
use crate::codegen_error::CodegenError;
use crate::cil::{ops_view, stack_diff, CILOp, OpModel};
use crate::mangle::{decimal, decimal_string, mangle_ty, mangled};
use crate::ty::{lemma_tys_view, monomorphize, subst, AdtKind, Ty, TyCtxt, TyModel};
use crate::type_cache::{named_ref, resolve, resolve_ty};
use crate::text::{
    chars_of, contains, push_str_chars, replace_pairs, replace_pairs_exec, str_contains,
    string_of_chars,
};

verus! {

pub const BEGIN_TRY: &'static str = "rustc_clr_interop_begin_try";

pub const END_TRY: &'static str = "rustc_clr_interop_end_try";

pub const BEGIN_CATCH: &'static str = "rustc_clr_interop_begin_catch";

pub const END_CATCH: &'static str = "rustc_clr_interop_end_catch";

pub const CTOR_FN_NAME: &'static str = "rustc_clr_interop_managed_ctor";

pub const MANAGED_CALL_FN_NAME: &'static str = "rustc_clr_interop_managed_call";

pub const MANAGED_CALL_VIRT_FN_NAME: &'static str = "rustc_clr_interop_managed_call_virt";

/// Whether `name` is one of the functions that stand for an operation of the
/// managed runtime rather than for code of their own.
pub fn is_function_magic(name: &str) -> (r: bool)
    ensures
        r == (contains(name@, CTOR_FN_NAME@) || contains(name@, MANAGED_CALL_FN_NAME@)),
{
    str_contains(name, CTOR_FN_NAME) || str_contains(name, MANAGED_CALL_FN_NAME)
}

// ---------------------------------------------------------------- name mangling

/// The token that stands for `c` in a target identifier; other characters stand for themselves.
pub open spec fn escape_char(c: char) -> Seq<char> {
    if c == '$' {
        "_dsig_"@
    } else if c == '<' {
        "_lt_"@
    } else if c == '\'' {
        "_ap_"@
    } else if c == ' ' {
        "_spc_"@
    } else if c == '>' {
        "_gt_"@
    } else if c == '(' {
        "_lpar_"@
    } else if c == ')' {
        "_rpar"@
    } else if c == '{' {
        "_lbra_"@
    } else if c == '}' {
        "_rbra"@
    } else if c == '[' {
        "_lsbra_"@
    } else if c == ']' {
        "_rsbra_"@
    } else if c == '+' {
        "_pls_"@
    } else if c == '-' {
        "_hyp_"@
    } else if c == ',' {
        "_com_"@
    } else if c == '*' {
        "_ptr_"@
    } else if c == '#' {
        "_hsh_"@
    } else if c == '&' {
        "_ref_"@
    } else if c == ';' {
        "_scol_"@
    } else if c == '!' {
        "_excl_"@
    } else if c == '"' {
        "_qt_"@
    } else {
        seq![c]
    }
}

/// Each character of `s` replaced by its token.
pub open spec fn escape_chars(s: Seq<char>) -> Seq<char>
    decreases s.len(),
{
    if s.len() == 0 {
        s
    } else {
        escape_char(s[0]) + escape_chars(s.skip(1))
    }
}

/// The target identifier for the qualified name `s`: `::` becomes `.`, a
/// doubled `.` becomes one, and each special character becomes its token.
pub open spec fn escaped_class_name(s: Seq<char>) -> Seq<char> {
    escape_chars(replace_pairs(replace_pairs(s, ':', "."@), '.', "."@))
}

/// The token for `c`, or `None` when `c` stands for itself.
fn escape_token(c: char) -> (r: Option<&'static str>)
    ensures
        r is Some ==> escape_char(c) == r->0@,
        r is None ==> escape_char(c) == seq![c],
{
    if c == '$' {
        Some("_dsig_")
    } else if c == '<' {
        Some("_lt_")
    } else if c == '\'' {
        Some("_ap_")
    } else if c == ' ' {
        Some("_spc_")
    } else if c == '>' {
        Some("_gt_")
    } else if c == '(' {
        Some("_lpar_")
    } else if c == ')' {
        Some("_rpar")
    } else if c == '{' {
        Some("_lbra_")
    } else if c == '}' {
        Some("_rbra")
    } else if c == '[' {
        Some("_lsbra_")
    } else if c == ']' {
        Some("_rsbra_")
    } else if c == '+' {
        Some("_pls_")
    } else if c == '-' {
        Some("_hyp_")
    } else if c == ',' {
        Some("_com_")
    } else if c == '*' {
        Some("_ptr_")
    } else if c == '#' {
        Some("_hsh_")
    } else if c == '&' {
        Some("_ref_")
    } else if c == ';' {
        Some("_scol_")
    } else if c == '!' {
        Some("_excl_")
    } else if c == '"' {
        Some("_qt_")
    } else {
        None
    }
}

/// Replaces each character of `s` by its token.
fn escape_chars_exec(s: &Vec<char>) -> (r: Vec<char>)
    ensures
        r@ == escape_chars(s@),
{
    let mut r: Vec<char> = Vec::new();
    let mut i: usize = 0;
    assert(s@.skip(0) =~= s@);
    assert(r@ + escape_chars(s@) =~= escape_chars(s@));
    while i < s.len()
        invariant
            i <= s@.len(),
            r@ + escape_chars(s@.skip(i as int)) == escape_chars(s@),
        decreases s@.len() - i,
    {
        assert(s@.skip(i as int).skip(1) =~= s@.skip(i + 1));
        match escape_token(s[i]) {
            Some(t) => push_str_chars(&mut r, t),
            None => r.push(s[i]),
        }
        i += 1;
    }
    assert(s@.skip(s@.len() as int) =~= Seq::<char>::empty());
    assert(r@ + Seq::<char>::empty() =~= r@);
    r
}

/// Turns a qualified source name into an identifier that the target accepts.
pub fn escape_class_name(name: &str) -> (r: String)
    ensures
        r@ == escaped_class_name(name@),
{
    let chars = chars_of(name);
    let colons = replace_pairs_exec(&chars, ':', ".");
    let dots = replace_pairs_exec(&colons, '.', ".");
    string_of_chars(&escape_chars_exec(&dots))
}

/// `$` replaced by its token.
pub open spec fn dollars_escaped(s: Seq<char>) -> Seq<char>
    decreases s.len(),
{
    if s.len() == 0 {
        s
    } else {
        (if s[0] == '$' {
            "_ds_"@
        } else {
            seq![s[0]]
        }) + dollars_escaped(s.skip(1))
    }
}

/// The target name of a function whose symbol is `name`: `$` becomes `_ds_`,
/// then a doubled `.` becomes `_dd_`.
pub open spec fn escaped_function_name(name: Seq<char>) -> Seq<char> {
    replace_pairs(dollars_escaped(name), '.', "_dd_"@)
}

/// Escapes the name of a function.
pub fn function_name(name: &str) -> (r: String)
    ensures
        r@ == escaped_function_name(name@),
{
    let s = chars_of(name);
    let mut r: Vec<char> = Vec::new();
    let mut i: usize = 0;
    assert(s@.skip(0) =~= s@);
    assert(r@ + dollars_escaped(s@) =~= dollars_escaped(s@));
    while i < s.len()
        invariant
            i <= s@.len(),
            r@ + dollars_escaped(s@.skip(i as int)) == dollars_escaped(s@),
        decreases s@.len() - i,
    {
        assert(s@.skip(i as int).skip(1) =~= s@.skip(i + 1));
        if s[i] == '$' {
            push_str_chars(&mut r, "_ds_");
        } else {
            r.push(s[i]);
        }
        i += 1;
    }
    assert(s@.skip(s@.len() as int) =~= Seq::<char>::empty());
    assert(r@ + Seq::<char>::empty() =~= r@);
    string_of_chars(&replace_pairs_exec(&r, '.', "_dd_"))
}

// ---------------------------------------------------------------- enum tags

/// The width in bytes of the tag of an enum with `variants` variants: none for
/// at most one variant, else the narrowest of 1, 2, 4 and 8 bytes that holds
/// every tag from 0 to `variants - 1`.
pub open spec fn tag_width(variants: u64) -> u32 {
    if variants <= 1 {
        0
    } else if variants - 1 <= 0xff {
        1
    } else if variants - 1 <= 0xffff {
        2
    } else if variants - 1 <= 0xffff_ffff {
        4
    } else {
        8
    }
}

/// Returns the size of a tag of an enum with `variants` variants.
pub fn enum_tag_size(variants: u64) -> (r: u32)
    ensures
        r == tag_width(variants),
{
    if variants <= 1 {
        0
    } else if variants - 1 <= 0xff {
        1
    } else if variants - 1 <= 0xffff {
        2
    } else if variants - 1 <= 0xffff_ffff {
        4
    } else {
        8
    }
}

/// The type of the tag of an enum with `variants` variants.
pub open spec fn tag_type(variants: u64) -> TypeModel {
    match tag_width(variants) {
        0 => TypeModel::Void,
        1 => TypeModel::U8,
        2 => TypeModel::U16,
        4 => TypeModel::U32,
        _ => TypeModel::U64,
    }
}

/// Gets the type of the tag of enum with `variants` variants.
pub fn tag_from_enum_variants(variants: u64) -> (r: Type)
    ensures
        r@ == tag_type(variants),
{
    match enum_tag_size(variants) {
        0 => Type::Void,
        1 => Type::U8,
        2 => Type::U16,
        4 => Type::U32,
        _ => Type::U64,
    }
}

// ---------------------------------------------------------------- runtime classes

/// The runtime's string class.
pub fn string_class() -> (r: DotnetTypeRef)
    ensures
        r@.assembly == Some("System.Runtime"@),
        r@.name_path == "System.String"@,
        !r@.is_valuetype,
{
    let mut string = DotnetTypeRef::new(Some("System.Runtime"), "System.String");
    string.set_valuetype(false);
    string
}

/// The runtime's pointer-sized unsigned integer class.
pub fn usize_class() -> (r: DotnetTypeRef)
    ensures
        r@.assembly == Some("System.Runtime"@),
        r@.name_path == "System.UIntPtr"@,
        !r@.is_valuetype,
{
    let mut class = DotnetTypeRef::new(Some("System.Runtime"), "System.UIntPtr");
    class.set_valuetype(false);
    class
}

} // verus!

verus! {

/// A qualified name on which mangling is collision-free: it holds no `_` and
/// no `.` (the characters that the tokens and the separator are made of), and
/// no run of four `:` (which would collapse into one separator like `::`).
pub open spec fn is_plain_qualified_name(s: Seq<char>) -> bool {
    &&& forall|i: int| 0 <= i < s.len() ==> s[i] != '_' && s[i] != '.'
    &&& forall|i: int| !#[trigger] four_colons_at(s, i)
}

pub open spec fn four_colons_at(s: Seq<char>, i: int) -> bool {
    0 <= i && i + 3 < s.len() && s[i] == ':' && s[i + 1] == ':' && s[i + 2] == ':' && s[i + 3]
        == ':'
}

proof fn lemma_colons_injective(a: Seq<char>, b: Seq<char>)
    requires
        forall|i: int| 0 <= i < a.len() ==> a[i] != '.',
        forall|i: int| 0 <= i < b.len() ==> b[i] != '.',
        replace_pairs(a, ':', "."@) == replace_pairs(b, ':', "."@),
    ensures
        a == b,
    decreases a.len() + b.len(),
{
    reveal_strlit(".");
    let ra = replace_pairs(a, ':', "."@);
    let rb = replace_pairs(b, ':', "."@);
    if a.len() == 0 || b.len() == 0 {
        if a.len() != 0 {
            assert(ra.len() > 0);
        }
        if b.len() != 0 {
            assert(rb.len() > 0);
        }
        assert(a =~= b);
    } else {
        let pa = a.len() >= 2 && a[0] == ':' && a[1] == ':';
        let pb = b.len() >= 2 && b[0] == ':' && b[1] == ':';
        let na: int = if pa { 2 } else { 1 };
        let nb: int = if pb { 2 } else { 1 };
        assert(ra[0] == rb[0]);
        assert(pa == pb) by {
            if pa && !pb {
                assert(ra[0] == '.');
                assert(rb[0] == b[0]);
            }
            if pb && !pa {
                assert(rb[0] == '.');
                assert(ra[0] == a[0]);
            }
        }
        assert(ra.skip(1) =~= replace_pairs(a.skip(na), ':', "."@));
        assert(rb.skip(1) =~= replace_pairs(b.skip(nb), ':', "."@));
        lemma_colons_injective(a.skip(na), b.skip(nb));
        assert(a =~= a.subrange(0, na) + a.skip(na));
        assert(b =~= b.subrange(0, nb) + b.skip(nb));
        assert(a.subrange(0, na) =~= b.subrange(0, nb));
    }
}

proof fn lemma_no_doubled_dots(s: Seq<char>)
    requires
        is_plain_qualified_name(s),
    ensures
        replace_pairs(replace_pairs(s, ':', "."@), '.', "."@) == replace_pairs(s, ':', "."@),
    decreases s.len(),
{
    reveal_strlit(".");
    let t = replace_pairs(s, ':', "."@);
    if s.len() == 0 {
    } else if s.len() >= 2 && s[0] == ':' && s[1] == ':' {
        let u = s.skip(2);
        assert(is_plain_qualified_name(u)) by {
            assert forall|i: int| !#[trigger] four_colons_at(u, i) by {
                if four_colons_at(u, i) {
                    assert(four_colons_at(s, i + 2));
                }
            }
        }
        lemma_no_doubled_dots(u);
        let tu = replace_pairs(u, ':', "."@);
        assert(t == "."@ + tu);
        if tu.len() > 0 {
            if u.len() >= 2 && u[0] == ':' && u[1] == ':' {
                assert(four_colons_at(s, 0));
            }
            assert(tu[0] == u[0]);
            assert(tu[0] != '.');
        }
        assert(t.skip(1) =~= tu);
        assert(replace_pairs(t, '.', "."@) == seq![t[0]] + replace_pairs(t.skip(1), '.', "."@));
        assert(t =~= seq![t[0]] + tu);
    } else {
        let u = s.skip(1);
        assert(is_plain_qualified_name(u)) by {
            assert forall|i: int| !#[trigger] four_colons_at(u, i) by {
                if four_colons_at(u, i) {
                    assert(four_colons_at(s, i + 1));
                }
            }
        }
        lemma_no_doubled_dots(u);
        let tu = replace_pairs(u, ':', "."@);
        assert(t == seq![s[0]] + tu);
        assert(t[0] != '.');
        assert(t.skip(1) =~= tu);
        assert(t =~= seq![t[0]] + tu);
    }
}

proof fn lemma_escape_head(c1: char, c2: char, x: Seq<char>, y: Seq<char>)
    requires
        c1 != '_',
        c2 != '_',
        escape_char(c1) + x == escape_char(c2) + y,
    ensures
        c1 == c2,
{
    reveal_strlit("_dsig_");
    reveal_strlit("_lt_");
    reveal_strlit("_ap_");
    reveal_strlit("_spc_");
    reveal_strlit("_gt_");
    reveal_strlit("_lpar_");
    reveal_strlit("_rpar");
    reveal_strlit("_lbra_");
    reveal_strlit("_rbra");
    reveal_strlit("_lsbra_");
    reveal_strlit("_rsbra_");
    reveal_strlit("_pls_");
    reveal_strlit("_hyp_");
    reveal_strlit("_com_");
    reveal_strlit("_ptr_");
    reveal_strlit("_hsh_");
    reveal_strlit("_ref_");
    reveal_strlit("_scol_");
    reveal_strlit("_excl_");
    reveal_strlit("_qt_");
    let e1 = escape_char(c1);
    let e2 = escape_char(c2);
    let z = e1 + x;
    assert(z[0] == e1[0]);
    assert(z[0] == e2[0]);
    if e1.len() > 1 && e2.len() > 1 {
        assert(z[1] == e1[1] && z[1] == e2[1]);
        assert(z[2] == e1[2] && z[2] == e2[2]);
    }
}

proof fn lemma_escape_chars_injective(a: Seq<char>, b: Seq<char>)
    requires
        forall|i: int| 0 <= i < a.len() ==> a[i] != '_',
        forall|i: int| 0 <= i < b.len() ==> b[i] != '_',
        escape_chars(a) == escape_chars(b),
    ensures
        a == b,
    decreases a.len() + b.len(),
{
    if a.len() == 0 || b.len() == 0 {
        if a.len() != 0 {
            assert(escape_char(a[0]).len() > 0) by {
                reveal_strlit("_dsig_");
                reveal_strlit("_lt_");
                reveal_strlit("_ap_");
                reveal_strlit("_spc_");
                reveal_strlit("_gt_");
                reveal_strlit("_lpar_");
                reveal_strlit("_rpar");
                reveal_strlit("_lbra_");
                reveal_strlit("_rbra");
                reveal_strlit("_lsbra_");
                reveal_strlit("_rsbra_");
                reveal_strlit("_pls_");
                reveal_strlit("_hyp_");
                reveal_strlit("_com_");
                reveal_strlit("_ptr_");
                reveal_strlit("_hsh_");
                reveal_strlit("_ref_");
                reveal_strlit("_scol_");
                reveal_strlit("_excl_");
                reveal_strlit("_qt_");
            }
        }
        if b.len() != 0 {
            assert(escape_char(b[0]).len() > 0) by {
                reveal_strlit("_dsig_");
                reveal_strlit("_lt_");
                reveal_strlit("_ap_");
                reveal_strlit("_spc_");
                reveal_strlit("_gt_");
                reveal_strlit("_lpar_");
                reveal_strlit("_rpar");
                reveal_strlit("_lbra_");
                reveal_strlit("_rbra");
                reveal_strlit("_lsbra_");
                reveal_strlit("_rsbra_");
                reveal_strlit("_pls_");
                reveal_strlit("_hyp_");
                reveal_strlit("_com_");
                reveal_strlit("_ptr_");
                reveal_strlit("_hsh_");
                reveal_strlit("_ref_");
                reveal_strlit("_scol_");
                reveal_strlit("_excl_");
                reveal_strlit("_qt_");
            }
        }
        assert(a =~= b);
    } else {
        lemma_escape_head(a[0], b[0], escape_chars(a.skip(1)), escape_chars(b.skip(1)));
        let e = escape_char(a[0]);
        assert(escape_chars(a) == e + escape_chars(a.skip(1)));
        assert(escape_chars(b) == e + escape_chars(b.skip(1)));
        assert(escape_chars(a.skip(1)) =~= escape_chars(a).skip(e.len() as int));
        assert(escape_chars(b.skip(1)) =~= escape_chars(b).skip(e.len() as int));
        lemma_escape_chars_injective(a.skip(1), b.skip(1));
        assert(a =~= seq![a[0]] + a.skip(1));
        assert(b =~= seq![b[0]] + b.skip(1));
    }
}

proof fn lemma_colons_keep_plain(s: Seq<char>)
    requires
        forall|i: int| 0 <= i < s.len() ==> s[i] != '_',
    ensures
        forall|i: int|
            0 <= i < replace_pairs(s, ':', "."@).len() ==> replace_pairs(s, ':', "."@)[i] != '_',
    decreases s.len(),
{
    reveal_strlit(".");
    if s.len() == 0 {
    } else {
        let n: int = if s.len() >= 2 && s[0] == ':' && s[1] == ':' { 2 } else { 1 };
        let head: Seq<char> = if n == 2 { "."@ } else { seq![s[0]] };
        lemma_colons_keep_plain(s.skip(n));
        let t = replace_pairs(s, ':', "."@);
        let tu = replace_pairs(s.skip(n), ':', "."@);
        assert(t == head + tu);
        assert forall|i: int| 0 <= i < t.len() implies t[i] != '_' by {
            if i >= head.len() {
                assert(t[i] == tu[i - head.len()]);
            }
        }
    }
}

/// Mangling is collision-free: two distinct plain qualified names never give
/// the same identifier. (Mangling is a function of the name alone, so the same
/// name always gives the same identifier.)
pub proof fn lemma_escape_class_name_injective(a: Seq<char>, b: Seq<char>)
    requires
        is_plain_qualified_name(a),
        is_plain_qualified_name(b),
        a != b,
    ensures
        escaped_class_name(a) != escaped_class_name(b),
{
    if escaped_class_name(a) == escaped_class_name(b) {
        lemma_no_doubled_dots(a);
        lemma_no_doubled_dots(b);
        lemma_colons_keep_plain(a);
        lemma_colons_keep_plain(b);
        lemma_escape_chars_injective(replace_pairs(a, ':', "."@), replace_pairs(b, ':', "."@));
        lemma_colons_injective(a, b);
    }
}

} // verus!

verus! {

// ---------------------------------------------------------------- fields

/// Whether `idx` names a field of the struct or union `id` of `ctx`.
pub open spec fn is_struct_field(ctx: TyCtxt, id: u32, idx: u32) -> bool {
    &&& (id as int) < ctx.adts@.len()
    &&& ctx.adts@[id as int].kind != AdtKind::Enum
    &&& ctx.adts@[id as int].variants@.len() > 0
    &&& (idx as int) < ctx.adts@[id as int].variants@[0].fields@.len()
}

/// Whether `(variant, idx)` names a field of a variant of the enum `id` of `ctx`.
pub open spec fn is_variant_field(ctx: TyCtxt, id: u32, variant: u32, idx: u32) -> bool {
    &&& (id as int) < ctx.adts@.len()
    &&& ctx.adts@[id as int].kind == AdtKind::Enum
    &&& (variant as int) < ctx.adts@[id as int].variants@.len()
    &&& (idx as int) < ctx.adts@[id as int].variants@[variant as int].fields@.len()
}

/// Tuples hold at most this many elements, as the runtime's generic tuple types do.
pub const MAX_TUPLE_LEN: usize = 7;

/// The descriptor of field `idx` of the struct, union or tuple type `owner`.
/// A tuple field has the generic parameter of its index as its type, as the
/// fields of the runtime's generic tuple types do.
pub open spec fn field_desc(ctx: TyCtxt, owner: TyModel, idx: u32) -> Option<FieldModel> {
    match owner {
        TyModel::Tuple(es) => if (idx as int) < es.len() && es.len() <= MAX_TUPLE_LEN {
            Some(
                FieldModel {
                    owner: named_ref(ctx, owner),
                    tpe: TypeModel::GenericArg(idx),
                    name: "Item"@ + decimal(idx as nat + 1),
                },
            )
        } else {
            None
        },
        TyModel::Adt(id, args) => if is_struct_field(ctx, id, idx) {
            let f = ctx.adts@[id as int].variants@[0].fields@[idx as int];
            Some(
                FieldModel {
                    owner: named_ref(ctx, owner),
                    tpe: resolve(ctx, subst(f.ty@, args)),
                    name: escaped_class_name(f.name@),
                },
            )
        } else {
            None
        },
        _ => None,
    }
}

/// The type nested in the enum `owner` that holds the fields of `variant`.
pub open spec fn variant_ref(ctx: TyCtxt, owner: TyModel, variant: u32) -> DotnetTypeRefModel {
    let id = owner->Adt_0;
    DotnetTypeRefModel {
        assembly: None,
        name_path: mangled(ctx, owner) + "/"@ + ctx.adts@[id as int].variants@[variant as int].name@,
        is_valuetype: true,
    }
}

/// The descriptor of field `idx` of `variant` of the enum type `owner`.
pub open spec fn variant_field_desc(ctx: TyCtxt, owner: TyModel, variant: u32, idx: u32) -> Option<
    FieldModel,
> {
    match owner {
        TyModel::Adt(id, args) => if is_variant_field(ctx, id, variant, idx) {
            let f = ctx.adts@[id as int].variants@[variant as int].fields@[idx as int];
            Some(
                FieldModel {
                    owner: variant_ref(ctx, owner, variant),
                    tpe: resolve(ctx, subst(f.ty@, args)),
                    name: escaped_class_name(f.name@),
                },
            )
        } else {
            None
        },
        _ => None,
    }
}

/// The descriptor of the hidden tag of the enum type `owner`.
pub open spec fn tag_desc(ctx: TyCtxt, owner: TyModel) -> Option<FieldModel> {
    match owner {
        TyModel::Adt(id, _) => if (id as int) < ctx.adts@.len() && ctx.adts@[id as int].kind
            == AdtKind::Enum {
            Some(
                FieldModel {
                    owner: named_ref(ctx, owner),
                    tpe: tag_type(ctx.adts@[id as int].variants@.len() as u64),
                    name: "_tag"@,
                },
            )
        } else {
            None
        },
        _ => None,
    }
}

fn named_type_of(ctx: &TyCtxt, t: &Ty) -> (r: DotnetTypeRef)
    ensures
        r@ == named_ref(*ctx, t@),
{
    DotnetTypeRef { assembly: None, name_path: mangle_ty(ctx, t), is_valuetype: true }
}

/// Gets the name of the field with index `idx` of a struct, union or tuple.
pub fn field_name(ctx: &TyCtxt, owner: &Ty, idx: u32) -> (r: Result<String, CodegenError>)
    ensures
        field_desc(*ctx, owner@, idx) is Some <==> r is Ok,
        r is Ok ==> r->Ok_0@ == field_desc(*ctx, owner@, idx)->0.name,
        r is Err ==> r->Err_0 is Unsupported,
{
    match field_descrptor(ctx, owner, idx) {
        Ok(d) => Ok(d.name),
        Err(e) => Err(e),
    }
}

/// Gets the name of the enum variant with index `idx`.
pub fn variant_name(ctx: &TyCtxt, owner: &Ty, idx: u32) -> (r: Result<String, CodegenError>)
    ensures
        r is Ok <==> (owner@ is Adt && (owner@->Adt_0 as int) < ctx.adts@.len() && (idx as int)
            < ctx.adts@[owner@->Adt_0 as int].variants@.len()),
        r is Ok ==> r->Ok_0@ == ctx.adts@[owner@->Adt_0 as int].variants@[idx as int].name@,
{
    match owner {
        Ty::Adt(id, _) => {
            if (*id as usize) < ctx.adts.len() && (idx as usize) < ctx.adts[*id as usize].variants.len() {
                Ok(ctx.adts[*id as usize].variants[idx as usize].name.clone())
            } else {
                Err(CodegenError::unsupported("no variant with such index"))
            }
        },
        _ => Err(CodegenError::unsupported("variant of a type that is not a data type")),
    }
}

/// The descriptor of field `field_idx` of the struct, union or tuple type `owner_ty`.
pub fn field_descrptor(ctx: &TyCtxt, owner_ty: &Ty, field_idx: u32) -> (r: Result<
    FieldDescriptor,
    CodegenError,
>)
    ensures
        field_desc(*ctx, owner_ty@, field_idx) is Some <==> r is Ok,
        r is Ok ==> r->Ok_0@ == field_desc(*ctx, owner_ty@, field_idx)->0,
        r is Err ==> r->Err_0 is Unsupported,
{
    match owner_ty {
        Ty::Tuple(es) => {
            proof {
                lemma_tys_view(es@);
            }
            if es.len() > MAX_TUPLE_LEN {
                Err(CodegenError::unsupported("tuple with more than seven elements"))
            } else if (field_idx as usize) < es.len() {
                let name = String::from_str("Item");
                let n = decimal_string(field_idx as u64 + 1);
                Ok(
                    FieldDescriptor {
                        owner: named_type_of(ctx, owner_ty),
                        tpe: Type::GenericArg(field_idx),
                        name: name.concat(n.as_str()),
                    },
                )
            } else {
                Err(CodegenError::unsupported("no tuple field with such index"))
            }
        },
        Ty::Adt(id, args) => {
            let id = *id;
            if (id as usize) < ctx.adts.len() && ctx.adts[id as usize].kind != AdtKind::Enum
                && ctx.adts[id as usize].variants.len() > 0 && (field_idx as usize)
                < ctx.adts[id as usize].variants[0].fields.len() {
                let f = &ctx.adts[id as usize].variants[0].fields[field_idx as usize];
                let fty = monomorphize(args, &f.ty);
                Ok(
                    FieldDescriptor {
                        owner: named_type_of(ctx, owner_ty),
                        tpe: resolve_ty(ctx, &fty),
                        name: escape_class_name(f.name.as_str()),
                    },
                )
            } else {
                Err(CodegenError::unsupported("no struct field with such index"))
            }
        },
        _ => Err(CodegenError::unsupported("field of a type that has no fields")),
    }
}

/// The descriptor of field `field_idx` of variant `variant_idx` of the enum type `owner_ty`.
pub fn enum_field_descriptor(ctx: &TyCtxt, owner_ty: &Ty, field_idx: u32, variant_idx: u32) -> (r:
    Result<FieldDescriptor, CodegenError>)
    ensures
        variant_field_desc(*ctx, owner_ty@, variant_idx, field_idx) is Some <==> r is Ok,
        r is Ok ==> r->Ok_0@ == variant_field_desc(*ctx, owner_ty@, variant_idx, field_idx)->0,
        r is Err ==> r->Err_0 is Unsupported,
{
    match owner_ty {
        Ty::Adt(id, args) => {
            let id = *id;
            if (id as usize) < ctx.adts.len() && ctx.adts[id as usize].kind == AdtKind::Enum
                && (variant_idx as usize) < ctx.adts[id as usize].variants.len() && (field_idx as usize)
                < ctx.adts[id as usize].variants[variant_idx as usize].fields.len() {
                let variant = &ctx.adts[id as usize].variants[variant_idx as usize];
                let f = &variant.fields[field_idx as usize];
                let fty = monomorphize(args, &f.ty);
                let owner_name = mangle_ty(ctx, owner_ty).concat("/").concat(variant.name.as_str());
                proof {
                    reveal_strlit("/");
                }
                Ok(
                    FieldDescriptor {
                        owner: DotnetTypeRef {
                            assembly: None,
                            name_path: owner_name,
                            is_valuetype: true,
                        },
                        tpe: resolve_ty(ctx, &fty),
                        name: escape_class_name(f.name.as_str()),
                    },
                )
            } else {
                Err(CodegenError::unsupported("no enum field with such index"))
            }
        },
        _ => Err(CodegenError::unsupported("enum field of a type that is not a data type")),
    }
}

/// The descriptor of the hidden tag of the enum type `owner_ty`.
pub fn tag_descriptor(ctx: &TyCtxt, owner_ty: &Ty) -> (r: Result<FieldDescriptor, CodegenError>)
    ensures
        tag_desc(*ctx, owner_ty@) is Some <==> r is Ok,
        r is Ok ==> r->Ok_0@ == tag_desc(*ctx, owner_ty@)->0,
        r is Err ==> r->Err_0 is Unsupported,
{
    match owner_ty {
        Ty::Adt(id, _) => {
            if (*id as usize) < ctx.adts.len() && ctx.adts[*id as usize].kind == AdtKind::Enum {
                let n = ctx.adts[*id as usize].variants.len();
                Ok(
                    FieldDescriptor {
                        owner: named_type_of(ctx, owner_ty),
                        tpe: tag_from_enum_variants(n as u64),
                        name: String::from_str("_tag"),
                    },
                )
            } else {
                Err(CodegenError::unsupported("tag of a type that is not an enum"))
            }
        },
        _ => Err(CodegenError::unsupported("tag of a type that is not an enum")),
    }
}

/// The declared type of field `field_idx` of `owner_ty`, where each generic
/// parameter of the owner stays a generic argument.
pub open spec fn generic_field_type(ctx: TyCtxt, owner: TyModel, idx: u32) -> Option<TypeModel> {
    match owner {
        TyModel::Tuple(es) => if (idx as int) < es.len() {
            Some(TypeModel::GenericArg(idx))
        } else {
            None
        },
        TyModel::Adt(id, _) => if is_struct_field(ctx, id, idx) {
            Some(resolve(ctx, ctx.adts@[id as int].variants@[0].fields@[idx as int].ty@))
        } else {
            None
        },
        _ => None,
    }
}

/// Gets the type of field `field_idx`, as a generic argument where the field's type is generic.
pub fn generic_field_ty(ctx: &TyCtxt, owner_ty: &Ty, field_idx: u32) -> (r: Result<
    Type,
    CodegenError,
>)
    ensures
        generic_field_type(*ctx, owner_ty@, field_idx) is Some <==> r is Ok,
        r is Ok ==> r->Ok_0@ == generic_field_type(*ctx, owner_ty@, field_idx)->0,
{
    match owner_ty {
        Ty::Tuple(es) => {
            proof {
                lemma_tys_view(es@);
            }
            if (field_idx as usize) < es.len() {
                Ok(Type::GenericArg(field_idx))
            } else {
                Err(CodegenError::unsupported("no tuple field with such index"))
            }
        },
        Ty::Adt(id, _) => {
            let id = *id;
            if (id as usize) < ctx.adts.len() && ctx.adts[id as usize].kind != AdtKind::Enum
                && ctx.adts[id as usize].variants.len() > 0 && (field_idx as usize)
                < ctx.adts[id as usize].variants[0].fields.len() {
                Ok(resolve_ty(ctx, &ctx.adts[id as usize].variants[0].fields[field_idx as usize].ty))
            } else {
                Err(CodegenError::unsupported("no struct field with such index"))
            }
        },
        _ => Err(CodegenError::unsupported("field of a type that has no fields")),
    }
}

} // verus!

verus! {

// ---------------------------------------------------------------- miscompilation checks

/// The stack effect of `op` for the balance check: a return leaves nothing
/// behind in a method that returns no value.
pub open spec fn checked_diff(op: OpModel, does_return_void: bool) -> int {
    if does_return_void && op is Ret {
        0
    } else {
        stack_diff(op)
    }
}

/// The net stack effect of `ops` for the balance check.
pub open spec fn checked_net(ops: Seq<OpModel>, does_return_void: bool) -> int
    decreases ops.len(),
{
    if ops.len() == 0 {
        0
    } else {
        checked_net(ops.drop_last(), does_return_void) + checked_diff(ops.last(), does_return_void)
    }
}

/// Where the stack first goes below empty, if it does.
pub open spec fn underflows_at(ops: Seq<OpModel>, does_return_void: bool, i: int) -> bool {
    0 <= i < ops.len() && checked_net(ops.subrange(0, i + 1), does_return_void) < 0
}

/// The net stack effect of `ops`, returns excluded in a method that returns no value.
pub fn stack_sum(ops: &Vec<CILOp>, does_return_void: bool) -> (r: i128)
    ensures
        r == checked_net(ops_view(ops@), does_return_void),
{
    let mut sum: i128 = 0;
    let mut i: usize = 0;
    while i < ops.len()
        invariant
            i <= ops@.len(),
            sum == checked_net(ops_view(ops@.subrange(0, i as int)), does_return_void),
            -3 * i <= sum <= i,
        decreases ops@.len() - i,
    {
        let is_ret = match &ops[i] {
            CILOp::Ret => true,
            _ => false,
        };
        let d: i64 = if does_return_void && is_ret {
            0
        } else {
            ops[i].stack_diff()
        };
        proof {
            let v = ops_view(ops@.subrange(0, i + 1));
            assert(v.drop_last() =~= ops_view(ops@.subrange(0, i as int)));
            assert(v.last() == ops@[i as int]@);
        }
        sum = sum + d as i128;
        i += 1;
    }
    assert(ops@.subrange(0, ops@.len() as int) =~= ops@);
    sum
}

/// The first index at which the running stack depth of `ops` goes below zero.
pub fn first_underflow(ops: &Vec<CILOp>, does_return_void: bool) -> (r: Option<(usize, i128)>)
    ensures
        r matches Some((i, depth)) ==> underflows_at(ops_view(ops@), does_return_void, i as int)
            && depth == checked_net(ops_view(ops@).subrange(0, i + 1), does_return_void) && forall|
            k: int,
        | 0 <= k < i ==> !underflows_at(ops_view(ops@), does_return_void, k),
        r is None ==> forall|k: int| !underflows_at(ops_view(ops@), does_return_void, k),
{
    let mut depth: i128 = 0;
    let mut i: usize = 0;
    while i < ops.len()
        invariant
            i <= ops@.len(),
            depth == checked_net(ops_view(ops@.subrange(0, i as int)), does_return_void),
            -3 * i <= depth <= i,
            forall|k: int| 0 <= k < i ==> !underflows_at(ops_view(ops@), does_return_void, k),
        decreases ops@.len() - i,
    {
        let is_ret = match &ops[i] {
            CILOp::Ret => true,
            _ => false,
        };
        let d: i64 = if does_return_void && is_ret {
            0
        } else {
            ops[i].stack_diff()
        };
        proof {
            let v = ops_view(ops@.subrange(0, i + 1));
            assert(v.drop_last() =~= ops_view(ops@.subrange(0, i as int)));
            assert(v.last() == ops@[i as int]@);
            assert(ops_view(ops@).subrange(0, i + 1) =~= v);
        }
        depth = depth + d as i128;
        if depth < 0 {
            return Some((i, depth));
        }
        i += 1;
    }
    None
}

/// Checks that `ops`, the instructions of one statement, leave the stack as
/// they found it. The error names the offending instruction and the running
/// depth there: the first instruction that takes the stack below empty, or,
/// when none does, the end of the sequence with the depth left over.
pub fn check_debugable(ops: &Vec<CILOp>, does_return_void: bool) -> (r: Result<(), CodegenError>)
    ensures
        r is Ok <==> checked_net(ops_view(ops@), does_return_void) == 0,
        r is Err ==> r->Err_0 is UnbalancedStack,
        r matches Err(CodegenError::UnbalancedStack { index, depth }) ==> (if exists|k: int|
            underflows_at(ops_view(ops@), does_return_void, k) {
            underflows_at(ops_view(ops@), does_return_void, index as int) && (forall|k: int|
                0 <= k < index ==> !underflows_at(ops_view(ops@), does_return_void, k)) && depth
                == checked_net(ops_view(ops@).subrange(0, index + 1), does_return_void)
        } else {
            index == ops@.len() && depth == checked_net(ops_view(ops@), does_return_void)
        }),
{
    let sum = stack_sum(ops, does_return_void);
    if sum != 0 {
        match first_underflow(ops, does_return_void) {
            Some((index, depth)) => Err(CodegenError::UnbalancedStack { index, depth }),
            None => Err(CodegenError::UnbalancedStack { index: ops.len(), depth: sum }),
        }
    } else {
        Ok(())
    }
}

/// The outcome of a miscompilation check once the developer switch is
/// applied: with `allow_miscompilations` a failed check is let through (the
/// caller reports it as a warning); without it, which is the default, the
/// check's error stands.
pub fn miscompilation_verdict(check: Result<(), CodegenError>, allow_miscompilations: bool) -> (r:
    Result<(), CodegenError>)
    ensures
        allow_miscompilations ==> r is Ok,
        !allow_miscompilations ==> r == check,
{
    if allow_miscompilations {
        Ok(())
    } else {
        check
    }
}

/// Whether the local or argument slot that `op` names, if any, is below the declared counts.
pub open spec fn slot_in_range(op: OpModel, argc: u32, locc: u32) -> bool {
    match op {
        OpModel::LDLoc(l) | OpModel::LDLocA(l) | OpModel::STLoc(l) => l < locc,
        OpModel::LDArg(a) | OpModel::LDArgA(a) | OpModel::STArg(a) => a < argc,
        _ => true,
    }
}

fn op_slot_in_range(op: &CILOp, argc: u32, locc: u32) -> (r: bool)
    ensures
        r == slot_in_range(op@, argc, locc),
{
    match op {
        CILOp::LDLoc(l) | CILOp::LDLocA(l) | CILOp::STLoc(l) => *l < locc,
        CILOp::LDArg(a) | CILOp::LDArgA(a) | CILOp::STArg(a) => *a < argc,
        _ => true,
    }
}

/// Whether every local and argument slot that `ops` name is below the declared counts.
pub fn verify_locals_within_range(ops: &Vec<CILOp>, argc: u32, locc: u32) -> (r: bool)
    ensures
        r == forall|i: int| 0 <= i < ops@.len() ==> slot_in_range(#[trigger] ops@[i]@, argc, locc),
{
    let mut i: usize = 0;
    while i < ops.len()
        invariant
            i <= ops@.len(),
            forall|k: int| 0 <= k < i ==> slot_in_range(#[trigger] ops@[k]@, argc, locc),
        decreases ops@.len() - i,
    {
        if !op_slot_in_range(&ops[i], argc, locc) {
            return false;
        }
        i += 1;
    }
    true
}

/// Checks the instructions of a whole method with `argc` arguments and `locc`
/// variables: the stack stays balanced and every slot is declared.
pub fn check_method_ops(ops: &Vec<CILOp>, argc: u32, locc: u32, does_return_void: bool) -> (r: Result<
    (),
    CodegenError,
>)
    ensures
        r is Ok <==> (checked_net(ops_view(ops@), does_return_void) == 0 && forall|i: int|
            0 <= i < ops@.len() ==> slot_in_range(#[trigger] ops@[i]@, argc, locc)),
        r is Err ==> r->Err_0 is Miscompilation || r->Err_0 is UnbalancedStack,
{
    check_debugable(ops, does_return_void)?;
    if !verify_locals_within_range(ops, argc, locc) {
        return Err(CodegenError::Miscompilation(String::from_str("a local or argument slot is out of range")));
    }
    Ok(())
}

/// The data type id and generic arguments of `ty`, if it is a data type.
pub fn as_adt(ty: &Ty) -> (r: Option<(u32, &Vec<Ty>)>)
    ensures
        r is Some <==> ty@ is Adt,
        r is Some ==> ty@ == TyModel::Adt((r->0).0, crate::ty::tys_view((r->0).1@)),
{
    match ty {
        Ty::Adt(id, args) => Some((*id, args)),
        _ => None,
    }
}

} // verus!
