use clr_lowering::aggregate::handle_aggregate;
use clr_lowering::cil::CILOp;
use clr_lowering::clr_method::{CLRMethod, FunctionSignature};
use clr_lowering::clr_type::{DotnetTypeRef, FieldDescriptor, Type};
use clr_lowering::codegen_error::{CodegenError, MethodCodegenError};
use clr_lowering::layout::compiletime_sizeof;
use clr_lowering::mangle::{adt_name, decimal_string, mangle_ty, ty_to_string};
use clr_lowering::mir::{
    AggregateKind, BasicBlock, BinOp, Body, CastKind, Constant, NullOp, Operand, Place, PlaceElem,
    Rvalue, Statement, StatementKind, Terminator, UnOp,
};
use clr_lowering::operand::{handle_operand, load_constant_primitive};
use clr_lowering::place::{
    ptr_set_op, PlaceTy,
    local_get, local_id_placement, local_set, place_adress, place_get, place_set, LocalPlacement,
};
use clr_lowering::rvalue::{align_of, convert, handle_rvalue};
use clr_lowering::statement::handle_statement;
use clr_lowering::ty::{AdtDef, AdtKind, FieldDef, IntTy, Ty, TyCtxt, UintTy, VariantDef};
use clr_lowering::type_cache::TyCache;
use clr_lowering::utilis::{
    check_debugable, check_method_ops, enum_tag_size, escape_class_name, field_descrptor,
    function_name, is_function_magic, stack_sum, string_class, tag_from_enum_variants, usize_class,
    verify_locals_within_range,
};

fn i32_ty() -> Ty {
    Ty::Int(IntTy::I32)
}

fn place(local: u32, projection: Vec<PlaceElem>) -> Place {
    Place { local, projection }
}

fn point_ctx() -> TyCtxt {
    TyCtxt {
        adts: vec![
            AdtDef {
                path: "geo::Point".to_string(),
                kind: AdtKind::Struct,
                variants: vec![VariantDef {
                    name: "Point".to_string(),
                    fields: vec![
                        FieldDef { name: "x".to_string(), ty: i32_ty() },
                        FieldDef { name: "y".to_string(), ty: Ty::Uint(UintTy::U8) },
                    ],
                }],
            },
            AdtDef {
                path: "core::option::Option".to_string(),
                kind: AdtKind::Enum,
                variants: vec![
                    VariantDef { name: "None".to_string(), fields: vec![] },
                    VariantDef {
                        name: "Some".to_string(),
                        fields: vec![FieldDef { name: "0".to_string(), ty: Ty::Param(0) }],
                    },
                ],
            },
        ],
    }
}

/// fn(a: i32, b: i32) -> i32 with locals: 0 ret i32, 1 a, 2 b, 3 tmp i32, 4 point, 5 &[u8], 6 *mut i32
fn sample_body() -> Body {
    Body {
        arg_count: 2,
        local_decls: vec![
            i32_ty(),
            i32_ty(),
            i32_ty(),
            i32_ty(),
            Ty::Adt(0, vec![]),
            Ty::Ref(Box::new(Ty::Slice(Box::new(Ty::Uint(UintTy::U8))))),
            Ty::RawPtr(Box::new(i32_ty())),
            Ty::Uint(UintTy::Usize),
        ],
        blocks: vec![],
    }
}

fn i32_sig() -> FunctionSignature {
    FunctionSignature::new(vec![Type::I32, Type::I32], Type::I32)
}

#[test]
fn enum_tag_width_table() {
    assert_eq!(enum_tag_size(0), 0);
    assert_eq!(enum_tag_size(1), 0);
    assert_eq!(enum_tag_size(2), 1);
    assert_eq!(enum_tag_size(256), 1);
    assert_eq!(enum_tag_size(257), 2);
    assert_eq!(enum_tag_size(65536), 2);
    assert_eq!(enum_tag_size(70000), 4);
    assert_eq!(enum_tag_size(u64::MAX), 8);
}

#[test]
fn enum_tag_types() {
    assert_eq!(tag_from_enum_variants(1), Type::Void);
    assert_eq!(tag_from_enum_variants(3), Type::U8);
    assert_eq!(tag_from_enum_variants(300), Type::U16);
    assert_eq!(tag_from_enum_variants(70000), Type::U32);
    assert_eq!(tag_from_enum_variants(0x1_0000_0001), Type::U64);
}

#[test]
fn escape_class_name_tokens() {
    assert_eq!(escape_class_name("core::option::Option<i32>"), "core.option.Option_lt_i32_gt_");
    assert_eq!(escape_class_name("a..b"), "a.b");
    assert_eq!(escape_class_name("(u8, &[i32; 4])"), "_lpar_u8_com__spc__ref__lsbra_i32_scol__spc_4_rsbra__rpar");
    assert_eq!(escape_class_name("$*#!\"'+-{}"), "_dsig__ptr__hsh__excl__qt__ap__pls__hyp__lbra__rbra");
    assert_eq!(escape_class_name(""), "");
}

#[test]
fn escape_class_name_is_collision_free_on_a_corpus() {
    let corpus = [
        "std::vec::Vec<u8>",
        "std::vec::Vec<i8>",
        "std::vec::Vec<std::vec::Vec<u8>>",
        "(u8,u16)",
        "(u8, u16)",
        "[u8;4]",
        "[u8]",
        "&[u8]",
        "*mut u8",
        "*const u8",
        "core::option::Option<(i32,&str)>",
        "main::{closure#0}",
        "main::{closure#1}",
        "a::b",
        "ab",
    ];
    let mangled: Vec<String> = corpus.iter().map(|n| escape_class_name(n)).collect();
    for i in 0..corpus.len() {
        assert_eq!(mangled[i], escape_class_name(corpus[i]));
        for j in 0..corpus.len() {
            if i != j {
                assert_ne!(mangled[i], mangled[j], "{} and {}", corpus[i], corpus[j]);
            }
        }
    }
}

#[test]
fn function_names_are_escaped() {
    assert_eq!(function_name("_ZN4core3ptr$LT$T$GT$..drop"), "_ZN4core3ptr_ds_LT_ds_T_ds_GT_ds__dd_drop");
    assert_eq!(function_name("plain"), "plain");
}

#[test]
fn magic_functions_are_recognised() {
    assert!(is_function_magic("abc::rustc_clr_interop_managed_ctor::h123"));
    assert!(is_function_magic("rustc_clr_interop_managed_call_virt"));
    assert!(!is_function_magic("rustc_clr_interop_begin_try"));
    assert!(!is_function_magic(""));
}

#[test]
fn runtime_classes() {
    let s = string_class();
    assert_eq!(s.assembly(), Some("System.Runtime"));
    assert_eq!(s.name_path(), "System.String");
    assert!(!s.is_valuetype);
    assert_eq!(usize_class().name_path(), "System.UIntPtr");
}

#[test]
fn decimal_strings() {
    assert_eq!(decimal_string(0), "0");
    assert_eq!(decimal_string(300), "300");
    assert_eq!(decimal_string(u64::MAX), "18446744073709551615");
}

#[test]
fn type_names_and_mangling() {
    let ctx = point_ctx();
    let opt = Ty::Adt(1, vec![Ty::Tuple(vec![i32_ty(), Ty::Bool])]);
    assert_eq!(ty_to_string(&ctx, &opt), "core::option::Option<(i32,bool)>");
    assert_eq!(mangle_ty(&ctx, &opt), "core.option.Option_lt__lpar_i32_com_bool_rpar_gt_");
    assert_eq!(adt_name(&ctx, 1, &vec![i32_ty()]), "core.option.Option_lt_i32_gt_");
    let arr = Ty::Array(Box::new(Ty::Uint(UintTy::U8)), 16);
    assert_eq!(ty_to_string(&ctx, &arr), "[u8;16]");
}

#[test]
fn type_cache_is_deterministic_and_defines_once() {
    let ctx = point_ctx();
    let mut cache = TyCache::new();
    let t = Ty::Adt(1, vec![i32_ty()]);
    let first = cache.type_from_cache(&ctx, &t).unwrap();
    let second = cache.type_from_cache(&ctx, &t).unwrap();
    assert_eq!(first, second);
    assert_eq!(cache.len(), 3);
    assert_eq!(cache.name_at(0), "core.option.Option_lt_i32_gt_");
    assert_eq!(cache.name_at(1), "core.option.Option_lt_i32_gt_/None");
    assert_eq!(cache.name_at(2), "core.option.Option_lt_i32_gt_/Some");
    let mut other = TyCache::new();
    other.type_from_cache(&ctx, &Ty::Adt(0, vec![])).unwrap();
    assert_eq!(other.type_from_cache(&ctx, &t).unwrap(), first);
    assert_eq!(cache.type_from_cache(&ctx, &i32_ty()).unwrap(), Type::I32);
    assert_eq!(cache.len(), 3);
    cache.type_from_cache(&ctx, &Ty::Ref(Box::new(Ty::Adt(1, vec![Ty::Adt(0, vec![])])))).unwrap();
    assert_eq!(cache.len(), 7);
    assert_eq!(cache.name_at(6), "geo.Point");
}

#[test]
fn type_cache_refuses_generic_parameters() {
    let ctx = point_ctx();
    let mut cache = TyCache::new();
    let t = Ty::Ref(Box::new(Ty::Param(0)));
    assert_eq!(cache.type_from_cache(&ctx, &t), Err(CodegenError::UnresolvedGeneric));
    assert_eq!(cache.len(), 0);
}

#[test]
fn slices_and_pointers_resolve() {
    let ctx = point_ctx();
    let mut cache = TyCache::new();
    let slice_ref = Ty::Ref(Box::new(Ty::Slice(Box::new(Ty::Uint(UintTy::U8)))));
    let expected = Type::DotnetType(DotnetTypeRef {
        assembly: None,
        name_path: "core.ptr.metadata.PtrComponentsu8".to_string(),
        is_valuetype: true,
    });
    assert_eq!(cache.type_from_cache(&ctx, &slice_ref).unwrap(), expected);
    assert_eq!(cache.slice_ty(&ctx, &Ty::Uint(UintTy::U8)).unwrap(), expected);
    assert_eq!(cache.len(), 1);
    let ptr = Ty::RawPtr(Box::new(i32_ty()));
    assert_eq!(cache.type_from_cache(&ctx, &ptr).unwrap(), Type::Ptr(Box::new(Type::I32)));
    assert_eq!(cache.type_from_cache(&ctx, &Ty::Tuple(vec![])).unwrap(), Type::Void);
}

#[test]
fn local_slot_addressing() {
    assert_eq!(local_id_placement(2, 0), LocalPlacement::Var(0));
    assert_eq!(local_id_placement(2, 1), LocalPlacement::Arg(0));
    assert_eq!(local_id_placement(2, 2), LocalPlacement::Arg(1));
    assert_eq!(local_id_placement(2, 3), LocalPlacement::Var(1));
    assert_eq!(local_id_placement(2, 7), LocalPlacement::Var(5));
    assert_eq!(local_get(2, 2), CILOp::LDArg(1));
    assert_eq!(local_set(0, 2), CILOp::STLoc(0));
    assert_eq!(local_set(4, 2), CILOp::STLoc(2));
    let method = CLRMethod::new(i32_sig(), "f");
    assert_eq!(method.local_id_placement(3), LocalPlacement::Var(1));
    assert!(verify_locals_within_range(&vec![CILOp::LDLoc(1), CILOp::LDArg(1)], 2, 2));
    assert!(!verify_locals_within_range(&vec![CILOp::LDLoc(2)], 2, 2));
    assert!(!verify_locals_within_range(&vec![CILOp::STArg(2)], 2, 2));
    assert!(check_method_ops(&vec![CILOp::LDArgA(3), CILOp::Pop], 2, 2, false).is_err());
}

#[test]
fn constants_follow_twos_complement() {
    assert_eq!(load_constant_primitive(&Type::I8, 0xff).unwrap(), vec![CILOp::LdcI32(-1)]);
    assert_eq!(load_constant_primitive(&Type::U8, 0x1ff).unwrap(), vec![CILOp::LdcI32(255)]);
    assert_eq!(load_constant_primitive(&Type::I16, 0x8000).unwrap(), vec![CILOp::LdcI32(-32768)]);
    assert_eq!(load_constant_primitive(&Type::U32, 0xffff_ffff).unwrap(), vec![CILOp::LdcI32(-1)]);
    assert_eq!(load_constant_primitive(&Type::I64, 300).unwrap(), vec![CILOp::LdcI64(300)]);
    assert_eq!(load_constant_primitive(&Type::Bool, 5).unwrap(), vec![CILOp::LdcI32(1)]);
    assert_eq!(load_constant_primitive(&Type::Bool, 0).unwrap(), vec![CILOp::LdcI32(0)]);
    assert_eq!(
        load_constant_primitive(&Type::USize, 7).unwrap(),
        vec![CILOp::LdcI64(7), CILOp::ConvUSize(false)]
    );
    assert!(matches!(load_constant_primitive(&Type::F32, 0), Err(CodegenError::Unsupported(_))));
}

#[test]
fn narrowing_then_widening_truncates() {
    let narrow = convert(CastKind::IntToInt, &Type::I64, &Type::U8).unwrap();
    let widen = convert(CastKind::IntToInt, &Type::U8, &Type::I64).unwrap();
    assert_eq!(narrow, vec![CILOp::ConvU8(false)]);
    assert_eq!(widen, vec![CILOp::ConvI64(false)]);
    let x: i64 = 300;
    assert_eq!((x as u8) as i64, 44);
    assert_eq!(convert(CastKind::IntToFloat, &Type::I32, &Type::F32).unwrap(), vec![CILOp::ConvF32(false)]);
    assert!(matches!(
        convert(CastKind::IntToInt, &Type::I64, &Type::I128),
        Err(CodegenError::Unsupported(_))
    ));
    assert!(convert(CastKind::FloatToFloat, &Type::I32, &Type::F64).is_err());
}

#[test]
fn switch_lowering_scenario() {
    let ctx = point_ctx();
    let body = sample_body();
    let mut method = CLRMethod::new(i32_sig(), "f");
    let term = Terminator::SwitchInt {
        discr: Operand::Copy(place(1, vec![])),
        values: vec![0, 1],
        targets: vec![1, 2, 3],
    };
    method.add_terminator(&ctx, &body, &vec![], &term).unwrap();
    assert_eq!(
        method.ops(),
        &vec![
            CILOp::LDArg(0),
            CILOp::LdcI32(0),
            CILOp::BEq(1),
            CILOp::LDArg(0),
            CILOp::LdcI32(1),
            CILOp::BEq(2),
            CILOp::GoTo(3),
        ]
    );
    let bad = Terminator::SwitchInt { discr: Operand::Copy(place(1, vec![])), values: vec![0], targets: vec![1] };
    assert!(method.add_terminator(&ctx, &body, &vec![], &bad).is_err());
    assert_eq!(method.ops().len(), 7);
}

#[test]
fn return_and_goto_terminators() {
    let ctx = point_ctx();
    let body = sample_body();
    let mut method = CLRMethod::new(i32_sig(), "f");
    method.begin_bb();
    method.add_terminator(&ctx, &body, &vec![], &Terminator::Goto(1)).unwrap();
    method.begin_bb();
    method.add_terminator(&ctx, &body, &vec![], &Terminator::Return).unwrap();
    assert_eq!(
        method.ops(),
        &vec![CILOp::Label(0), CILOp::GoTo(1), CILOp::Label(1), CILOp::LDLoc(0), CILOp::Ret]
    );
    let mut void_method = CLRMethod::new(FunctionSignature::new(vec![], Type::Void), "g");
    assert!(matches!(
        void_method.add_terminator(&ctx, &body, &vec![], &Terminator::Return),
        Err(CodegenError::Unsupported(_))
    ));
    assert!(!void_method.has_return());
}

#[test]
fn assignment_keeps_the_stack_balanced() {
    let ctx = point_ctx();
    let body = sample_body();
    let st = Statement {
        kind: StatementKind::Assign(
            place(0, vec![]),
            Rvalue::BinaryOp(BinOp::Add, Operand::Copy(place(1, vec![])), Operand::Move(place(2, vec![]))),
        ),
    };
    let ops = handle_statement(&ctx, &body, &vec![], &st).unwrap();
    assert_eq!(ops, vec![CILOp::LDArg(0), CILOp::LDArg(1), CILOp::Add, CILOp::STLoc(0)]);
    assert_eq!(stack_sum(&ops, false), 0);
    assert!(check_debugable(&ops, false).is_ok());
    let ne = Statement {
        kind: StatementKind::Assign(
            place(3, vec![]),
            Rvalue::BinaryOp(BinOp::Ne, Operand::Copy(place(1, vec![])), Operand::Copy(place(2, vec![]))),
        ),
    };
    let ops = handle_statement(&ctx, &body, &vec![], &ne).unwrap();
    assert_eq!(stack_sum(&ops, false), 0);
    assert_eq!(ops.last(), Some(&CILOp::STLoc(1)));
    let live = Statement { kind: StatementKind::StorageLive(3) };
    assert_eq!(handle_statement(&ctx, &body, &vec![], &live).unwrap(), vec![]);
}

#[test]
fn unbalanced_instructions_are_detected() {
    let ops = vec![CILOp::LDLoc(0), CILOp::LDLoc(1)];
    assert_eq!(stack_sum(&ops, false), 2);
    assert_eq!(check_debugable(&ops, false), Err(CodegenError::UnbalancedStack { index: 2, depth: 2 }));
    let under = vec![CILOp::LDLoc(0), CILOp::Pop, CILOp::Pop];
    assert_eq!(check_debugable(&under, false), Err(CodegenError::UnbalancedStack { index: 2, depth: -1 }));
    assert_eq!(clr_lowering::utilis::first_underflow(&under, false), Some((2, -1)));
    assert!(clr_lowering::utilis::miscompilation_verdict(check_debugable(&under, false), true).is_ok());
    assert!(clr_lowering::utilis::miscompilation_verdict(check_debugable(&under, false), false).is_err());
    assert!(check_debugable(&vec![CILOp::Ret], true).is_ok());
    assert!(check_debugable(&vec![CILOp::Ret], false).is_err());
}

#[test]
fn field_places_use_descriptors() {
    let ctx = point_ctx();
    let body = sample_body();
    let st = Statement {
        kind: StatementKind::Assign(
            place(4, vec![PlaceElem::Field(0)]),
            Rvalue::Use(Operand::Constant(Constant { ty: i32_ty(), bits: 7 })),
        ),
    };
    let ops = handle_statement(&ctx, &body, &vec![], &st).unwrap();
    let desc = field_descrptor(&ctx, &Ty::Adt(0, vec![]), 0).unwrap();
    assert_eq!(desc.name, "x");
    assert_eq!(desc.tpe, Type::I32);
    assert_eq!(desc.owner.name_path(), "geo.Point");
    assert_eq!(ops, vec![CILOp::LDLocA(2), CILOp::LdcI32(7), CILOp::STField(desc)]);
    assert_eq!(stack_sum(&ops, false), 0);
    let read = place_get(&ctx, &body, &vec![], &place(4, vec![PlaceElem::Field(1)])).unwrap();
    let y = field_descrptor(&ctx, &Ty::Adt(0, vec![]), 1).unwrap();
    assert_eq!(read, vec![CILOp::LDLocA(2), CILOp::LDFieldAdress(y), CILOp::LDIndI8]);
    assert!(field_descrptor(&ctx, &Ty::Adt(0, vec![]), 2).is_err());
}

#[test]
fn deref_and_index_places() {
    let ctx = point_ctx();
    let body = sample_body();
    let write = place_set(
        &ctx,
        &body,
        &vec![],
        &place(6, vec![PlaceElem::Deref]),
        vec![CILOp::LdcI32(1)],
    )
    .unwrap();
    assert_eq!(write, vec![CILOp::LDLoc(4), CILOp::LdcI32(1), CILOp::STIndI32]);
    let elem = place_get(&ctx, &body, &vec![], &place(5, vec![PlaceElem::Deref, PlaceElem::Index(7)])).unwrap();
    let data = FieldDescriptor {
        owner: DotnetTypeRef {
            assembly: None,
            name_path: "core.ptr.metadata.PtrComponentsu8".to_string(),
            is_valuetype: true,
        },
        tpe: Type::Ptr(Box::new(Type::Void)),
        name: "data_address".to_string(),
    };
    assert_eq!(
        elem,
        vec![
            CILOp::LDLocA(3),
            CILOp::LDField(data),
            CILOp::LDLoc(5),
            CILOp::SizeOf(Type::U8),
            CILOp::Mul,
            CILOp::Add,
            CILOp::LDIndI8,
        ]
    );
    assert_eq!(stack_sum(&elem, false), 1);
    let from_end = place(5, vec![PlaceElem::Deref, PlaceElem::ConstantIndex { offset: 0, min_length: 1, from_end: true }]);
    assert!(matches!(place_get(&ctx, &body, &vec![], &from_end), Err(CodegenError::Unsupported(_))));
    assert_eq!(place_adress(&ctx, &body, &vec![], &place(1, vec![])).unwrap(), vec![CILOp::LDArgA(0)]);
    assert!(place_get(&ctx, &body, &vec![], &place(99, vec![])).is_err());
}

#[test]
fn length_of_a_slice() {
    let ctx = point_ctx();
    let body = sample_body();
    let ops = handle_rvalue(&ctx, &body, &vec![], &Rvalue::Len(place(5, vec![PlaceElem::Deref]))).unwrap();
    assert_eq!(ops.len(), 2);
    match &ops[1] {
        CILOp::LDField(d) => {
            assert_eq!(d.name, "metadata");
            assert_eq!(d.tpe, Type::USize);
        }
        other => panic!("unexpected {:?}", other),
    }
}

#[test]
fn generic_operands_are_monomorphized() {
    let ctx = point_ctx();
    let body = Body { arg_count: 0, local_decls: vec![Ty::Param(0)], blocks: vec![] };
    let st = Rvalue::NullaryOp(NullOp::SizeOf, Ty::Param(0));
    assert_eq!(handle_rvalue(&ctx, &body, &vec![i32_ty()], &st).unwrap(), vec![CILOp::SizeOf(Type::I32)]);
    assert_eq!(handle_rvalue(&ctx, &body, &vec![], &st), Err(CodegenError::UnresolvedGeneric));
    let align = Rvalue::NullaryOp(NullOp::AlignOf, Ty::Tuple(vec![Ty::Int(IntTy::I8), Ty::Int(IntTy::I64)]));
    assert_eq!(
        handle_rvalue(&ctx, &body, &vec![], &align).unwrap(),
        vec![CILOp::LdcI64(8), CILOp::ConvUSize(false)]
    );
}

#[test]
fn alignments() {
    assert_eq!(align_of(&Ty::Int(IntTy::I8)), 1);
    assert_eq!(align_of(&Ty::Tuple(vec![])), 1);
    assert_eq!(align_of(&Ty::Tuple(vec![Ty::Uint(UintTy::U16), Ty::Bool])), 2);
    assert_eq!(align_of(&Ty::Adt(0, vec![])), 8);
    assert_eq!(align_of(&Ty::Int(IntTy::I128)), 16);
}

#[test]
fn compile_time_sizes() {
    let ctx = point_ctx();
    assert_eq!(compiletime_sizeof(&ctx, &Ty::Adt(0, vec![])).unwrap(), 5);
    assert_eq!(compiletime_sizeof(&ctx, &Ty::Tuple(vec![i32_ty(), Ty::Uint(UintTy::Usize)])).unwrap(), 12);
    assert_eq!(compiletime_sizeof(&ctx, &Ty::RawPtr(Box::new(Ty::Bool))).unwrap(), 8);
    assert!(compiletime_sizeof(&ctx, &Ty::Adt(1, vec![i32_ty()])).is_err());
    assert!(compiletime_sizeof(&ctx, &Ty::RawPtr(Box::new(Ty::Slice(Box::new(Ty::Bool))))).is_err());
}

#[test]
fn unary_and_casts() {
    let ctx = point_ctx();
    let body = sample_body();
    let not = Rvalue::UnaryOp(UnOp::Not, Operand::Constant(Constant { ty: Ty::Bool, bits: 1 }));
    assert_eq!(
        handle_rvalue(&ctx, &body, &vec![], &not).unwrap(),
        vec![CILOp::LdcI32(1), CILOp::LdcI32(0), CILOp::Eq]
    );
    let cast = Rvalue::Cast(CastKind::IntToInt, Operand::Copy(place(1, vec![])), Ty::Uint(UintTy::U8));
    assert_eq!(handle_rvalue(&ctx, &body, &vec![], &cast).unwrap(), vec![CILOp::LDArg(0), CILOp::ConvU8(false)]);
    let transmute = Rvalue::Cast(CastKind::Transmute, Operand::Copy(place(1, vec![])), Ty::Float(clr_lowering::ty::FloatTy::F32));
    assert_eq!(
        handle_rvalue(&ctx, &body, &vec![], &transmute).unwrap(),
        vec![
            CILOp::LDArg(0),
            CILOp::NewTMPLocal(Type::I32),
            CILOp::SetTMPLocal,
            CILOp::LoadAddresOfTMPLocal,
            CILOp::LDIndF32,
            CILOp::FreeTMPLocal,
        ]
    );
    let checked = Rvalue::CheckedBinaryOp(BinOp::Shl, Operand::Copy(place(1, vec![])), Operand::Copy(place(2, vec![])));
    assert!(matches!(handle_rvalue(&ctx, &body, &vec![], &checked), Err(CodegenError::Unsupported(_))));
}

#[test]
fn unsize_builds_a_slice() {
    let ctx = point_ctx();
    let body = Body {
        arg_count: 1,
        local_decls: vec![
            Ty::Ref(Box::new(Ty::Slice(Box::new(i32_ty())))),
            Ty::Ref(Box::new(Ty::Array(Box::new(i32_ty()), 4))),
        ],
        blocks: vec![],
    };
    let rv = Rvalue::Cast(
        CastKind::Unsize,
        Operand::Copy(place(1, vec![])),
        Ty::Ref(Box::new(Ty::Slice(Box::new(i32_ty())))),
    );
    let ops = handle_rvalue(&ctx, &body, &vec![], &rv).unwrap();
    assert_eq!(ops.len(), 14);
    assert_eq!(ops[8], CILOp::LdcI64(4));
    assert_eq!(stack_sum(&ops, false), 1);
}

#[test]
fn aggregates_fill_a_scratch_local() {
    let ctx = point_ctx();
    let body = sample_body();
    let operands = vec![Operand::Constant(Constant { ty: i32_ty(), bits: 5 })];
    let some = AggregateKind::Adt(1, 1, vec![i32_ty()]);
    let ops = handle_aggregate(&ctx, &body, &vec![], &some, &operands).unwrap();
    assert_eq!(ops[0], CILOp::NewTMPLocal(Type::DotnetType(DotnetTypeRef {
        assembly: None,
        name_path: "core.option.Option_lt_i32_gt_".to_string(),
        is_valuetype: true,
    })));
    assert_eq!(ops[1], CILOp::LoadAddresOfTMPLocal);
    assert_eq!(ops[2], CILOp::LdcI32(1));
    match &ops[3] {
        CILOp::STField(d) => assert_eq!(d.name, "_tag"),
        other => panic!("unexpected {:?}", other),
    }
    match &ops[6] {
        CILOp::STField(d) => assert_eq!(d.owner.name_path(), "core.option.Option_lt_i32_gt_/Some"),
        other => panic!("unexpected {:?}", other),
    }
    assert_eq!(&ops[7..], &[CILOp::LoadTMPLocal, CILOp::FreeTMPLocal]);
    assert_eq!(stack_sum(&ops, false), 1);
    let arr = AggregateKind::Array(Ty::Uint(UintTy::U8));
    let two = vec![
        Operand::Constant(Constant { ty: Ty::Uint(UintTy::U8), bits: 1 }),
        Operand::Constant(Constant { ty: Ty::Uint(UintTy::U8), bits: 2 }),
    ];
    let ops = handle_aggregate(&ctx, &body, &vec![], &arr, &two).unwrap();
    assert_eq!(ops.len(), 1 + 2 * 7 + 2);
    assert_eq!(stack_sum(&ops, false), 1);
    let tuple = handle_aggregate(&ctx, &body, &vec![], &AggregateKind::Tuple, &two).unwrap();
    assert_eq!(stack_sum(&tuple, false), 1);
}

#[test]
fn discriminant_reads_the_tag() {
    let ctx = point_ctx();
    let body = Body { arg_count: 0, local_decls: vec![Ty::Adt(1, vec![i32_ty()])], blocks: vec![] };
    let ops = handle_rvalue(&ctx, &body, &vec![], &Rvalue::Discriminant(place(0, vec![]))).unwrap();
    assert_eq!(ops.len(), 2);
    assert_eq!(ops[0], CILOp::LDLocA(0));
    match &ops[1] {
        CILOp::LDField(d) => {
            assert_eq!(d.name, "_tag");
            assert_eq!(d.tpe, Type::U8);
        }
        other => panic!("unexpected {:?}", other),
    }
}

#[test]
fn operands_and_copies() {
    let ctx = point_ctx();
    let body = sample_body();
    assert_eq!(handle_operand(&ctx, &body, &vec![], &Operand::Move(place(3, vec![]))).unwrap(), vec![CILOp::LDLoc(1)]);
    let copy = Statement {
        kind: StatementKind::CopyNonOverlapping {
            src: Operand::Copy(place(6, vec![])),
            dst: Operand::Copy(place(6, vec![])),
            count: Operand::Copy(place(7, vec![])),
        },
    };
    let ops = handle_statement(&ctx, &body, &vec![], &copy).unwrap();
    assert_eq!(
        ops,
        vec![CILOp::LDLoc(4), CILOp::LDLoc(4), CILOp::LDLoc(5), CILOp::SizeOf(Type::I32), CILOp::Mul, CILOp::CpBlk]
    );
}

#[test]
fn method_builder_records_locals_and_statements() {
    let ctx = point_ctx();
    let body = sample_body();
    let mut cache = TyCache::new();
    let mut method = CLRMethod::new(i32_sig(), "add");
    method.add_locals(&ctx, &body, &vec![], &mut cache).unwrap();
    assert_eq!(method.locals().len(), 6);
    assert_eq!(method.locals()[0], Type::I32);
    assert_eq!(method.locals()[5], Type::USize);
    assert_eq!(cache.len(), 2);
    assert_eq!(method.argc(), 2);
    assert_eq!(method.name(), "add");
    method.load(1);
    method.store(3);
    assert_eq!(method.ops(), &vec![CILOp::LDArg(0), CILOp::STLoc(1)]);
    method.var_live(3);
    method.var_dead(3);
    method.load_constant_primitive(&Type::I32, 2).unwrap();
    method.convert(CastKind::IntToInt, &Type::I32, &Type::I64).unwrap();
    method.process_operand(&ctx, &body, &vec![], &Operand::Copy(place(2, vec![]))).unwrap();
    method.process_rvalue(&ctx, &body, &vec![], &Rvalue::Ref(place(3, vec![]))).unwrap();
    assert_eq!(method.ops().len(), 6);
    let st = Statement { kind: StatementKind::Assign(place(0, vec![]), Rvalue::Use(Operand::Copy(place(1, vec![])))) };
    method.add_statement(&ctx, &body, &vec![], &st).unwrap();
    assert_eq!(method.ops()[6..], [CILOp::LDArg(0), CILOp::STLoc(0)]);
    let _block = BasicBlock { statements: vec![], terminator: Terminator::Return };
}

#[test]
fn errors_carry_their_position() {
    let e = MethodCodegenError::new("lib.rs", 3, 14, "no rule".to_string());
    assert_eq!(e.file(), "lib.rs");
    assert_eq!(e.line(), 3);
    assert_eq!(e.column(), 14);
    assert_eq!(e.message(), "no rule");
    let c: CodegenError = e.into();
    assert!(matches!(c, CodegenError::Method(_)));
    assert_eq!(CodegenError::from_panic_message("boom"), CodegenError::Error("boom".to_string()));
}

#[test]
fn method_text_emission() {
    let mut method = CLRMethod::new(i32_sig(), "add");
    assert_eq!(method.locals_init(), "");
    let ctx = point_ctx();
    let body = Body { arg_count: 2, local_decls: vec![i32_ty(), i32_ty(), i32_ty(), Ty::RawPtr(Box::new(Ty::Uint(UintTy::U8)))], blocks: vec![] };
    let mut cache = TyCache::new();
    method.add_locals(&ctx, &body, &vec![], &mut cache).unwrap();
    assert_eq!(method.locals_init(), "\t.locals init(\n\t\t[0] int32,\n\t\t[1] uint8*\n\t)");
    method.begin_bb();
    let st = Statement {
        kind: StatementKind::Assign(
            place(0, vec![]),
            Rvalue::BinaryOp(BinOp::Add, Operand::Copy(place(1, vec![])), Operand::Copy(place(2, vec![]))),
        ),
    };
    method.add_statement(&ctx, &body, &vec![], &st).unwrap();
    method.add_terminator(&ctx, &body, &vec![], &Terminator::Return).unwrap();
    assert_eq!(
        method.into_il_ir(),
        ".method public static int32 add(int32,int32){\n\t.locals init(\n\t\t[0] int32,\n\t\t[1] uint8*\n\t)\nBB_0:\n\tldarg 0\n\tldarg 1\n\tadd\n\tstloc 0\n\tldloc 0\n\tret\n}\n"
    );
}

#[test]
fn constants_through_the_method_builder() {
    let ctx = point_ctx();
    let mut method = CLRMethod::new(i32_sig(), "c");
    method.process_constant(&ctx, &vec![], &Constant { ty: Ty::Int(IntTy::I8), bits: 0x80 }).unwrap();
    assert_eq!(method.ops(), &vec![CILOp::LdcI32(-128)]);
    assert!(method.process_constant(&ctx, &vec![], &Constant { ty: Ty::Float(clr_lowering::ty::FloatTy::F64), bits: 0 }).is_err());
    assert_eq!(method.ops().len(), 1);
}

#[test]
fn adt_views() {
    let t = Ty::Adt(1, vec![i32_ty()]);
    let (id, args) = clr_lowering::utilis::as_adt(&t).unwrap();
    assert_eq!(id, 1);
    assert_eq!(args, &vec![i32_ty()]);
    assert!(clr_lowering::utilis::as_adt(&Ty::Bool).is_none());
}

#[test]
fn checked_addition_builds_a_flagged_pair() {
    let ctx = point_ctx();
    let body = sample_body();
    let checked = Rvalue::CheckedBinaryOp(BinOp::Add, Operand::Copy(place(1, vec![])), Operand::Copy(place(2, vec![])));
    let ops = handle_rvalue(&ctx, &body, &vec![], &checked).unwrap();
    let unchecked = handle_rvalue(
        &ctx,
        &body,
        &vec![],
        &Rvalue::BinaryOp(BinOp::Add, Operand::Copy(place(1, vec![])), Operand::Copy(place(2, vec![]))),
    )
    .unwrap();
    assert_ne!(ops, unchecked);
    assert_eq!(ops.len(), 24);
    assert_eq!(&ops[..7], &[
        CILOp::NewTMPLocal(Type::I64),
        CILOp::LDArg(0),
        CILOp::ConvI64(false),
        CILOp::LDArg(1),
        CILOp::ConvI64(false),
        CILOp::Add,
        CILOp::SetTMPLocal,
    ]);
    assert_eq!(ops[10], CILOp::ConvI32(false));
    match &ops[11] {
        CILOp::STField(d) => assert_eq!(d.name, "Item1"),
        other => panic!("unexpected {:?}", other),
    }
    match &ops[20] {
        CILOp::STField(d) => {
            assert_eq!(d.name, "Item2");
            assert_eq!(d.tpe, Type::GenericArg(1));
        }
        other => panic!("unexpected {:?}", other),
    }
    assert_eq!(stack_sum(&ops, false), 1);
    let st = Statement { kind: StatementKind::Assign(place(3, vec![]), checked) };
    let body64 = Body { arg_count: 0, local_decls: vec![Ty::Int(IntTy::I64)], blocks: vec![] };
    let wide = Rvalue::CheckedBinaryOp(
        BinOp::Mul,
        Operand::Copy(place(0, vec![])),
        Operand::Copy(place(0, vec![])),
    );
    assert!(handle_rvalue(&ctx, &body64, &vec![], &wide).is_err());
    let _ = st;
}

#[test]
fn whole_method_in_block_order() {
    let ctx = point_ctx();
    let add = Statement {
        kind: StatementKind::Assign(
            place(0, vec![]),
            Rvalue::BinaryOp(BinOp::Add, Operand::Copy(place(1, vec![])), Operand::Copy(place(2, vec![]))),
        ),
    };
    let body = Body {
        arg_count: 2,
        local_decls: vec![i32_ty(), i32_ty(), i32_ty()],
        blocks: vec![
            BasicBlock { statements: vec![Statement { kind: StatementKind::StorageLive(0) }, add], terminator: Terminator::Goto(1) },
            BasicBlock { statements: vec![], terminator: Terminator::Return },
        ],
    };
    let mut cache = TyCache::new();
    let method = clr_lowering::clr_method::compile_method(&ctx, &body, &vec![], i32_sig(), "add", &mut cache).unwrap();
    assert_eq!(
        method.ops(),
        &vec![
            CILOp::Label(0),
            CILOp::LDArg(0),
            CILOp::LDArg(1),
            CILOp::Add,
            CILOp::STLoc(0),
            CILOp::GoTo(1),
            CILOp::Label(1),
            CILOp::LDLoc(0),
            CILOp::Ret,
        ]
    );
    assert_eq!(
        method.into_il_ir(),
        ".method public static int32 add(int32,int32){\n\t.locals init(\n\t\t[0] int32\n\t)\nBB_0:\n\tldarg 0\n\tldarg 1\n\tadd\n\tstloc 0\n\tbr BB_1\nBB_1:\n\tldloc 0\n\tret\n}\n"
    );
    let void_sig = FunctionSignature::new(vec![Type::I32, Type::I32], Type::Void);
    assert!(clr_lowering::clr_method::compile_method(&ctx, &body, &vec![], void_sig, "v", &mut cache).is_err());
}

#[test]
fn cache_records_field_layouts() {
    let ctx = point_ctx();
    let mut cache = TyCache::new();
    cache.type_from_cache(&ctx, &Ty::Adt(0, vec![])).unwrap();
    cache.type_from_cache(&ctx, &Ty::Adt(1, vec![i32_ty()])).unwrap();
    cache.type_from_cache(&ctx, &Ty::Tuple(vec![Ty::Bool, i32_ty()])).unwrap();
    cache.type_from_cache(&ctx, &Ty::Ref(Box::new(Ty::Slice(Box::new(i32_ty()))))).unwrap();
    assert_eq!(cache.len(), 6);
    let point: Vec<(&str, &Type)> = cache.fields_at(0).iter().map(|f| (f.name.as_str(), &f.tpe)).collect();
    assert_eq!(point, vec![("x", &Type::I32), ("y", &Type::U8)]);
    assert_eq!(cache.fields_at(0)[0].owner.name_path(), "geo.Point");
    assert_eq!(cache.fields_at(1).len(), 1);
    assert_eq!(cache.fields_at(1)[0].name, "_tag");
    assert_eq!(cache.fields_at(1)[0].tpe, Type::U8);
    assert_eq!(cache.fields_at(2).len(), 0);
    assert_eq!(cache.fields_at(3).len(), 1);
    assert_eq!(cache.fields_at(3)[0].tpe, Type::I32);
    assert_eq!(cache.fields_at(3)[0].owner.name_path(), "core.option.Option_lt_i32_gt_/Some");
    let tuple: Vec<&str> = cache.fields_at(4).iter().map(|f| f.name.as_str()).collect();
    assert_eq!(tuple, vec!["Item1", "Item2"]);
    assert_eq!(cache.name_at(5), "core.ptr.metadata.PtrComponentsi32");
    let slice: Vec<&str> = cache.fields_at(5).iter().map(|f| f.name.as_str()).collect();
    assert_eq!(slice, vec!["data_address", "metadata"]);
    assert_eq!(cache.fields_at(5)[1].tpe, Type::USize);
}

#[test]
fn tuple_fields_are_generic_and_bounded() {
    let ctx = point_ctx();
    let pair = Ty::Tuple(vec![i32_ty(), Ty::Bool]);
    let d = field_descrptor(&ctx, &pair, 1).unwrap();
    assert_eq!(d.tpe, Type::GenericArg(1));
    assert_eq!(d.name, "Item2");
    let eight = Ty::Tuple(vec![Ty::Bool, Ty::Bool, Ty::Bool, Ty::Bool, Ty::Bool, Ty::Bool, Ty::Bool, Ty::Bool]);
    assert!(field_descrptor(&ctx, &eight, 0).is_err());
    let seven = vec![Ty::Bool, Ty::Bool, Ty::Bool, Ty::Bool, Ty::Bool, Ty::Bool, Ty::Bool];
    assert_eq!(field_descrptor(&ctx, &Ty::Tuple(seven), 6).unwrap().name, "Item7");
    assert_eq!(field_descrptor(&ctx, &Ty::Tuple(vec![Ty::Bool]), 0).unwrap().tpe, Type::GenericArg(0));
}

#[test]
fn unresolved_generics_are_refused() {
    let ctx = point_ctx();
    let body = Body {
        arg_count: 0,
        local_decls: vec![Ty::Param(0), Ty::RawPtr(Box::new(Ty::Param(0)))],
        blocks: vec![],
    };
    assert_eq!(place_get(&ctx, &body, &vec![], &place(0, vec![])), Err(CodegenError::UnresolvedGeneric));
    assert_eq!(
        place_set(&ctx, &body, &vec![], &place(1, vec![PlaceElem::Deref]), vec![CILOp::LdcI32(1)]),
        Err(CodegenError::UnresolvedGeneric)
    );
    assert_eq!(
        place_set(&ctx, &body, &vec![i32_ty()], &place(1, vec![PlaceElem::Deref]), vec![CILOp::LdcI32(1)]).unwrap(),
        vec![CILOp::LDLoc(1), CILOp::LdcI32(1), CILOp::STIndI32]
    );
    let generic_const = Operand::Constant(Constant { ty: Ty::Param(0), bits: 1 });
    assert_eq!(handle_operand(&ctx, &body, &vec![], &generic_const), Err(CodegenError::UnresolvedGeneric));
    let cast = Rvalue::Cast(
        CastKind::Transmute,
        Operand::Constant(Constant { ty: i32_ty(), bits: 1 }),
        Ty::Param(0),
    );
    assert_eq!(handle_rvalue(&ctx, &body, &vec![], &cast), Err(CodegenError::UnresolvedGeneric));
    assert_eq!(ptr_set_op(&ctx, &PlaceTy::Ty(Ty::Param(0))), Err(CodegenError::UnresolvedGeneric));
    assert_eq!(ptr_set_op(&ctx, &PlaceTy::Ty(Ty::Uint(UintTy::U16))), Ok(CILOp::STIndI16));
    assert!(matches!(ptr_set_op(&ctx, &PlaceTy::EnumVariant(Ty::Adt(1, vec![i32_ty()]), 1)), Err(CodegenError::Unsupported(_))));
    assert!(matches!(
        ptr_set_op(&ctx, &PlaceTy::Ty(Ty::Adt(0, vec![]))),
        Ok(CILOp::STObj(Type::DotnetType(_)))
    ));
}
