//! The assembly text of types and instructions.

use vstd::prelude::*;
use crate::cil::{ops_view, CILOp, OpModel};
use crate::clr_type::{DotnetTypeRef, DotnetTypeRefModel, FieldDescriptor, FieldModel, Type, TypeModel};
use crate::mangle::{decimal, push_decimal};
use crate::text::push_str_chars;

verus! {

/// `x` in decimal, with a leading `-` when negative.
pub open spec fn signed_decimal(x: int) -> Seq<char> {
    if x < 0 {
        "-"@ + decimal((-x) as nat)
    } else {
        decimal(x as nat)
    }
}

fn push_signed(v: &mut Vec<char>, x: i64)
    ensures
        final(v)@ == old(v)@ + signed_decimal(x as int),
{
    if x < 0 {
        push_str_chars(v, "-");
        let m = (-(x as i128)) as u64;
        push_decimal(v, m);
        assert(final(v)@ =~= old(v)@ + signed_decimal(x as int));
    } else {
        push_decimal(v, x as u64);
    }
}

/// How the target's assembly text names a type reference.
pub open spec fn type_ref_text(r: DotnetTypeRefModel) -> Seq<char> {
    (if r.is_valuetype {
        "valuetype "@
    } else {
        "class "@
    }) + (match r.assembly {
        Some(a) => "["@ + a + "]"@,
        None => Seq::empty(),
    }) + r.name_path
}

/// How the target's assembly text names a type.
pub open spec fn il_name(t: TypeModel) -> Seq<char>
    decreases t,
{
    match t {
        TypeModel::Void => "void"@,
        TypeModel::Bool => "bool"@,
        TypeModel::Char => "uint32"@,
        TypeModel::DotnetChar => "char"@,
        TypeModel::I8 => "int8"@,
        TypeModel::I16 => "int16"@,
        TypeModel::I32 => "int32"@,
        TypeModel::I64 => "int64"@,
        TypeModel::I128 => "valuetype [System.Runtime]System.Int128"@,
        TypeModel::ISize => "native int"@,
        TypeModel::U8 => "uint8"@,
        TypeModel::U16 => "uint16"@,
        TypeModel::U32 => "uint32"@,
        TypeModel::U64 => "uint64"@,
        TypeModel::U128 => "valuetype [System.Runtime]System.UInt128"@,
        TypeModel::USize => "native uint"@,
        TypeModel::F32 => "float32"@,
        TypeModel::F64 => "float64"@,
        TypeModel::Ptr(inner) => il_name(*inner) + "*"@,
        TypeModel::DotnetType(r) => type_ref_text(r),
        TypeModel::GenericArg(i) => "!"@ + decimal(i as nat),
    }
}

/// How the target's assembly text names a field.
pub open spec fn field_text(f: FieldModel) -> Seq<char> {
    il_name(f.tpe) + " "@ + type_ref_text(f.owner) + "::"@ + f.name
}

/// The line of assembly text of an instruction; scratch-local instructions
/// keep a `tmp.` form that the assembler resolves to real locals.
pub open spec fn op_text(op: OpModel) -> Seq<char> {
    match op {
        OpModel::Ret => "\tret\n"@,
        OpModel::Add => "\tadd\n"@,
        OpModel::Sub => "\tsub\n"@,
        OpModel::Mul => "\tmul\n"@,
        OpModel::Div => "\tdiv\n"@,
        OpModel::Rem => "\trem\n"@,
        OpModel::And => "\tand\n"@,
        OpModel::Or => "\tor\n"@,
        OpModel::XOr => "\txor\n"@,
        OpModel::Shl => "\tshl\n"@,
        OpModel::Shr => "\tshr\n"@,
        OpModel::Eq => "\tceq\n"@,
        OpModel::Lt => "\tclt\n"@,
        OpModel::Gt => "\tcgt\n"@,
        OpModel::Not => "\tnot\n"@,
        OpModel::Neg => "\tneg\n"@,
        OpModel::LDIndI8 => "\tldind.i1\n"@,
        OpModel::LDIndI16 => "\tldind.i2\n"@,
        OpModel::LDIndI32 => "\tldind.i4\n"@,
        OpModel::LDIndI64 => "\tldind.i8\n"@,
        OpModel::LDIndISize => "\tldind.i\n"@,
        OpModel::LDIndF32 => "\tldind.r4\n"@,
        OpModel::LDIndF64 => "\tldind.r8\n"@,
        OpModel::STIndI8 => "\tstind.i1\n"@,
        OpModel::STIndI16 => "\tstind.i2\n"@,
        OpModel::STIndI32 => "\tstind.i4\n"@,
        OpModel::STIndI64 => "\tstind.i8\n"@,
        OpModel::STIndISize => "\tstind.i\n"@,
        OpModel::STIndF32 => "\tstind.r4\n"@,
        OpModel::STIndF64 => "\tstind.r8\n"@,
        OpModel::CpBlk => "\tcpblk\n"@,
        OpModel::Pop => "\tpop\n"@,
        OpModel::Dup => "\tdup\n"@,
        OpModel::FreeTMPLocal => "\ttmp.free\n"@,
        OpModel::SetTMPLocal => "\ttmp.set\n"@,
        OpModel::LoadTMPLocal => "\ttmp.ld\n"@,
        OpModel::LoadAddresOfTMPLocal => "\ttmp.ldaddr\n"@,
        OpModel::LDLoc(n) => "\tldloc "@ + decimal(n as nat) + "\n"@,
        OpModel::LDLocA(n) => "\tldloca "@ + decimal(n as nat) + "\n"@,
        OpModel::STLoc(n) => "\tstloc "@ + decimal(n as nat) + "\n"@,
        OpModel::LDArg(n) => "\tldarg "@ + decimal(n as nat) + "\n"@,
        OpModel::LDArgA(n) => "\tldarga "@ + decimal(n as nat) + "\n"@,
        OpModel::STArg(n) => "\tstarg "@ + decimal(n as nat) + "\n"@,
        OpModel::GoTo(n) => "\tbr BB_"@ + decimal(n as nat) + "\n"@,
        OpModel::BEq(n) => "\tbeq BB_"@ + decimal(n as nat) + "\n"@,
        OpModel::Label(n) => "BB_"@ + decimal(n as nat) + ":\n"@,
        OpModel::LoadUnderTMPLocal(n) => "\ttmp.ldunder "@ + decimal(n as nat) + "\n"@,
        OpModel::LdcI32(x) => "\tldc.i4 "@ + signed_decimal(x as int) + "\n"@,
        OpModel::LdcI64(x) => "\tldc.i8 "@ + signed_decimal(x as int) + "\n"@,
        OpModel::ConvI8(ovf) => if ovf {
            "\tconv.ovf.i1\n"@
        } else {
            "\tconv.i1\n"@
        },
        OpModel::ConvI16(ovf) => if ovf {
            "\tconv.ovf.i2\n"@
        } else {
            "\tconv.i2\n"@
        },
        OpModel::ConvI32(ovf) => if ovf {
            "\tconv.ovf.i4\n"@
        } else {
            "\tconv.i4\n"@
        },
        OpModel::ConvI64(ovf) => if ovf {
            "\tconv.ovf.i8\n"@
        } else {
            "\tconv.i8\n"@
        },
        OpModel::ConvU8(ovf) => if ovf {
            "\tconv.ovf.u1\n"@
        } else {
            "\tconv.u1\n"@
        },
        OpModel::ConvU16(ovf) => if ovf {
            "\tconv.ovf.u2\n"@
        } else {
            "\tconv.u2\n"@
        },
        OpModel::ConvU32(ovf) => if ovf {
            "\tconv.ovf.u4\n"@
        } else {
            "\tconv.u4\n"@
        },
        OpModel::ConvU64(ovf) => if ovf {
            "\tconv.ovf.u8\n"@
        } else {
            "\tconv.u8\n"@
        },
        OpModel::ConvISize(ovf) => if ovf {
            "\tconv.ovf.i\n"@
        } else {
            "\tconv.i\n"@
        },
        OpModel::ConvUSize(ovf) => if ovf {
            "\tconv.ovf.u\n"@
        } else {
            "\tconv.u\n"@
        },
        OpModel::ConvF32(_) => "\tconv.r4\n"@,
        OpModel::ConvF64(_) => "\tconv.r8\n"@,
        OpModel::LDField(f) => "\tldfld "@ + field_text(f) + "\n"@,
        OpModel::LDFieldAdress(f) => "\tldflda "@ + field_text(f) + "\n"@,
        OpModel::STField(f) => "\tstfld "@ + field_text(f) + "\n"@,
        OpModel::LdObj(t) => "\tldobj "@ + il_name(t) + "\n"@,
        OpModel::STObj(t) => "\tstobj "@ + il_name(t) + "\n"@,
        OpModel::SizeOf(t) => "\tsizeof "@ + il_name(t) + "\n"@,
        OpModel::NewTMPLocal(t) => "\ttmp.new "@ + il_name(t) + "\n"@,
    }
}

/// The assembly text of a sequence of instructions.
pub open spec fn ops_text(ops: Seq<OpModel>) -> Seq<char>
    decreases ops.len(),
{
    if ops.len() == 0 {
        Seq::empty()
    } else {
        ops_text(ops.drop_last()) + op_text(ops.last())
    }
}

pub fn push_type_ref_text(v: &mut Vec<char>, r: &DotnetTypeRef)
    ensures
        final(v)@ == old(v)@ + type_ref_text(r@),
{
    let ghost v0 = v@;
    if r.is_valuetype {
        push_str_chars(v, "valuetype ");
    } else {
        push_str_chars(v, "class ");
    }
    match &r.assembly {
        Some(a) => {
            push_str_chars(v, "[");
            push_str_chars(v, a.as_str());
            push_str_chars(v, "]");
        },
        None => {},
    }
    push_str_chars(v, r.name_path.as_str());
    assert(v@ =~= v0 + type_ref_text(r@));
}

/// Appends the assembly name of `t` to `v`.
pub fn push_il_name(v: &mut Vec<char>, t: &Type)
    ensures
        final(v)@ == old(v)@ + il_name(t@),
    decreases t,
{
    let ghost v0 = v@;
    match t {
        Type::Void => push_str_chars(v, "void"),
        Type::Bool => push_str_chars(v, "bool"),
        Type::Char => push_str_chars(v, "uint32"),
        Type::DotnetChar => push_str_chars(v, "char"),
        Type::I8 => push_str_chars(v, "int8"),
        Type::I16 => push_str_chars(v, "int16"),
        Type::I32 => push_str_chars(v, "int32"),
        Type::I64 => push_str_chars(v, "int64"),
        Type::I128 => push_str_chars(v, "valuetype [System.Runtime]System.Int128"),
        Type::ISize => push_str_chars(v, "native int"),
        Type::U8 => push_str_chars(v, "uint8"),
        Type::U16 => push_str_chars(v, "uint16"),
        Type::U32 => push_str_chars(v, "uint32"),
        Type::U64 => push_str_chars(v, "uint64"),
        Type::U128 => push_str_chars(v, "valuetype [System.Runtime]System.UInt128"),
        Type::USize => push_str_chars(v, "native uint"),
        Type::F32 => push_str_chars(v, "float32"),
        Type::F64 => push_str_chars(v, "float64"),
        Type::Ptr(inner) => {
            push_il_name(v, inner);
            push_str_chars(v, "*");
        },
        Type::DotnetType(r) => push_type_ref_text(v, r),
        Type::GenericArg(i) => {
            push_str_chars(v, "!");
            push_decimal(v, *i as u64);
        },
    }
    assert(v@ =~= v0 + il_name(t@));
}

fn push_field_text(v: &mut Vec<char>, f: &FieldDescriptor)
    ensures
        final(v)@ == old(v)@ + field_text(f@),
{
    let ghost v0 = v@;
    push_il_name(v, &f.tpe);
    push_str_chars(v, " ");
    push_type_ref_text(v, &f.owner);
    push_str_chars(v, "::");
    push_str_chars(v, f.name.as_str());
    assert(v@ =~= v0 + field_text(f@));
}

/// Appends the line of assembly text of `op` to `v`.
pub fn push_op_text(v: &mut Vec<char>, op: &CILOp)
    ensures
        final(v)@ == old(v)@ + op_text(op@),
{
    let ghost v0 = v@;
    match op {
        CILOp::Ret => push_str_chars(v, "\tret\n"),
        CILOp::Add => push_str_chars(v, "\tadd\n"),
        CILOp::Sub => push_str_chars(v, "\tsub\n"),
        CILOp::Mul => push_str_chars(v, "\tmul\n"),
        CILOp::Div => push_str_chars(v, "\tdiv\n"),
        CILOp::Rem => push_str_chars(v, "\trem\n"),
        CILOp::And => push_str_chars(v, "\tand\n"),
        CILOp::Or => push_str_chars(v, "\tor\n"),
        CILOp::XOr => push_str_chars(v, "\txor\n"),
        CILOp::Shl => push_str_chars(v, "\tshl\n"),
        CILOp::Shr => push_str_chars(v, "\tshr\n"),
        CILOp::Eq => push_str_chars(v, "\tceq\n"),
        CILOp::Lt => push_str_chars(v, "\tclt\n"),
        CILOp::Gt => push_str_chars(v, "\tcgt\n"),
        CILOp::Not => push_str_chars(v, "\tnot\n"),
        CILOp::Neg => push_str_chars(v, "\tneg\n"),
        CILOp::LDIndI8 => push_str_chars(v, "\tldind.i1\n"),
        CILOp::LDIndI16 => push_str_chars(v, "\tldind.i2\n"),
        CILOp::LDIndI32 => push_str_chars(v, "\tldind.i4\n"),
        CILOp::LDIndI64 => push_str_chars(v, "\tldind.i8\n"),
        CILOp::LDIndISize => push_str_chars(v, "\tldind.i\n"),
        CILOp::LDIndF32 => push_str_chars(v, "\tldind.r4\n"),
        CILOp::LDIndF64 => push_str_chars(v, "\tldind.r8\n"),
        CILOp::STIndI8 => push_str_chars(v, "\tstind.i1\n"),
        CILOp::STIndI16 => push_str_chars(v, "\tstind.i2\n"),
        CILOp::STIndI32 => push_str_chars(v, "\tstind.i4\n"),
        CILOp::STIndI64 => push_str_chars(v, "\tstind.i8\n"),
        CILOp::STIndISize => push_str_chars(v, "\tstind.i\n"),
        CILOp::STIndF32 => push_str_chars(v, "\tstind.r4\n"),
        CILOp::STIndF64 => push_str_chars(v, "\tstind.r8\n"),
        CILOp::CpBlk => push_str_chars(v, "\tcpblk\n"),
        CILOp::Pop => push_str_chars(v, "\tpop\n"),
        CILOp::Dup => push_str_chars(v, "\tdup\n"),
        CILOp::FreeTMPLocal => push_str_chars(v, "\ttmp.free\n"),
        CILOp::SetTMPLocal => push_str_chars(v, "\ttmp.set\n"),
        CILOp::LoadTMPLocal => push_str_chars(v, "\ttmp.ld\n"),
        CILOp::LoadAddresOfTMPLocal => push_str_chars(v, "\ttmp.ldaddr\n"),
        CILOp::LDLoc(n) => {
            push_str_chars(v, "\tldloc ");
            push_decimal(v, *n as u64);
            push_str_chars(v, "\n");
        },
        CILOp::LDLocA(n) => {
            push_str_chars(v, "\tldloca ");
            push_decimal(v, *n as u64);
            push_str_chars(v, "\n");
        },
        CILOp::STLoc(n) => {
            push_str_chars(v, "\tstloc ");
            push_decimal(v, *n as u64);
            push_str_chars(v, "\n");
        },
        CILOp::LDArg(n) => {
            push_str_chars(v, "\tldarg ");
            push_decimal(v, *n as u64);
            push_str_chars(v, "\n");
        },
        CILOp::LDArgA(n) => {
            push_str_chars(v, "\tldarga ");
            push_decimal(v, *n as u64);
            push_str_chars(v, "\n");
        },
        CILOp::STArg(n) => {
            push_str_chars(v, "\tstarg ");
            push_decimal(v, *n as u64);
            push_str_chars(v, "\n");
        },
        CILOp::GoTo(n) => {
            push_str_chars(v, "\tbr BB_");
            push_decimal(v, *n as u64);
            push_str_chars(v, "\n");
        },
        CILOp::BEq(n) => {
            push_str_chars(v, "\tbeq BB_");
            push_decimal(v, *n as u64);
            push_str_chars(v, "\n");
        },
        CILOp::Label(n) => {
            push_str_chars(v, "BB_");
            push_decimal(v, *n as u64);
            push_str_chars(v, ":\n");
        },
        CILOp::LoadUnderTMPLocal(n) => {
            push_str_chars(v, "\ttmp.ldunder ");
            push_decimal(v, *n as u64);
            push_str_chars(v, "\n");
        },
        CILOp::LdcI32(x) => {
            push_str_chars(v, "\tldc.i4 ");
            push_signed(v, *x as i64);
            push_str_chars(v, "\n");
        },
        CILOp::LdcI64(x) => {
            push_str_chars(v, "\tldc.i8 ");
            push_signed(v, *x);
            push_str_chars(v, "\n");
        },
        CILOp::ConvI8(ovf) => if *ovf {
            push_str_chars(v, "\tconv.ovf.i1\n")
        } else {
            push_str_chars(v, "\tconv.i1\n")
        },
        CILOp::ConvI16(ovf) => if *ovf {
            push_str_chars(v, "\tconv.ovf.i2\n")
        } else {
            push_str_chars(v, "\tconv.i2\n")
        },
        CILOp::ConvI32(ovf) => if *ovf {
            push_str_chars(v, "\tconv.ovf.i4\n")
        } else {
            push_str_chars(v, "\tconv.i4\n")
        },
        CILOp::ConvI64(ovf) => if *ovf {
            push_str_chars(v, "\tconv.ovf.i8\n")
        } else {
            push_str_chars(v, "\tconv.i8\n")
        },
        CILOp::ConvU8(ovf) => if *ovf {
            push_str_chars(v, "\tconv.ovf.u1\n")
        } else {
            push_str_chars(v, "\tconv.u1\n")
        },
        CILOp::ConvU16(ovf) => if *ovf {
            push_str_chars(v, "\tconv.ovf.u2\n")
        } else {
            push_str_chars(v, "\tconv.u2\n")
        },
        CILOp::ConvU32(ovf) => if *ovf {
            push_str_chars(v, "\tconv.ovf.u4\n")
        } else {
            push_str_chars(v, "\tconv.u4\n")
        },
        CILOp::ConvU64(ovf) => if *ovf {
            push_str_chars(v, "\tconv.ovf.u8\n")
        } else {
            push_str_chars(v, "\tconv.u8\n")
        },
        CILOp::ConvISize(ovf) => if *ovf {
            push_str_chars(v, "\tconv.ovf.i\n")
        } else {
            push_str_chars(v, "\tconv.i\n")
        },
        CILOp::ConvUSize(ovf) => if *ovf {
            push_str_chars(v, "\tconv.ovf.u\n")
        } else {
            push_str_chars(v, "\tconv.u\n")
        },
        CILOp::ConvF32(_) => push_str_chars(v, "\tconv.r4\n"),
        CILOp::ConvF64(_) => push_str_chars(v, "\tconv.r8\n"),
        CILOp::LDField(f) => {
            push_str_chars(v, "\tldfld ");
            push_field_text(v, f);
            push_str_chars(v, "\n");
        },
        CILOp::LDFieldAdress(f) => {
            push_str_chars(v, "\tldflda ");
            push_field_text(v, f);
            push_str_chars(v, "\n");
        },
        CILOp::STField(f) => {
            push_str_chars(v, "\tstfld ");
            push_field_text(v, f);
            push_str_chars(v, "\n");
        },
        CILOp::LdObj(t) => {
            push_str_chars(v, "\tldobj ");
            push_il_name(v, t);
            push_str_chars(v, "\n");
        },
        CILOp::STObj(t) => {
            push_str_chars(v, "\tstobj ");
            push_il_name(v, t);
            push_str_chars(v, "\n");
        },
        CILOp::SizeOf(t) => {
            push_str_chars(v, "\tsizeof ");
            push_il_name(v, t);
            push_str_chars(v, "\n");
        },
        CILOp::NewTMPLocal(t) => {
            push_str_chars(v, "\ttmp.new ");
            push_il_name(v, t);
            push_str_chars(v, "\n");
        },
    }
    assert(v@ =~= v0 + op_text(op@));
}

/// Appends the assembly text of `ops` to `v`.
pub fn push_ops_text(v: &mut Vec<char>, ops: &Vec<CILOp>)
    ensures
        final(v)@ == old(v)@ + ops_text(ops_view(ops@)),
{
    let ghost v0 = v@;
    let mut i: usize = 0;
    assert(ops_view(ops@.subrange(0, 0)) =~= Seq::<OpModel>::empty());
    assert(v@ =~= v0 + ops_text(ops_view(ops@.subrange(0, 0))));
    while i < ops.len()
        invariant
            i <= ops@.len(),
            v@ == v0 + ops_text(ops_view(ops@.subrange(0, i as int))),
        decreases ops@.len() - i,
    {
        push_op_text(v, &ops[i]);
        proof {
            let w = ops_view(ops@.subrange(0, i + 1));
            assert(w.drop_last() =~= ops_view(ops@.subrange(0, i as int)));
            assert(w.last() == ops@[i as int]@);
            assert(v@ =~= v0 + ops_text(w));
        }
        i += 1;
    }
    assert(ops@.subrange(0, ops@.len() as int) =~= ops@);
}

} // verus!
