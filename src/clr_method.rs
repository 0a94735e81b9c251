//! The method under construction: locals, instruction stream, blocks and text.

use vstd::prelude::*;
use crate::il::{il_name, ops_text, push_il_name, push_ops_text};
use crate::mangle::{decimal, push_decimal};
use crate::text::{push_str_chars, string_of_chars};
use crate::cil::{append_ops, group_ops, ops_view, stack_net, CILOp, OpModel};
use crate::clr_type::{Type, TypeModel};
use crate::codegen_error::CodegenError;
use crate::mir::{BasicBlock, Body, CastKind, Constant, Operand, Rvalue, Statement, Terminator};
use crate::operand::{constant_ops, handle_operand, load_constant_primitive, operand_ops, operand_ty, operand_ty_spec};
use crate::place::{local_get, local_get_op, local_id_placement, local_set, local_set_op, placement, LocalPlacement};
use crate::rvalue::{convert, handle_rvalue, numeric_cast_ops, rvalue_ops};
use crate::statement::{handle_statement, statement_ops};
use crate::ty::{subst, tys_view, Ty, TyCtxt, TyModel};
use crate::type_cache::{defined_name, resolve, resolve_ty, TyCache};
use crate::mangle::has_param;

verus! {

broadcast use group_ops;

/// The argument types and the return type of a method.
#[derive(Debug, PartialEq, Eq)]
pub struct FunctionSignature {
    pub inputs: Vec<Type>,
    pub output: Type,
}

impl FunctionSignature {
    pub fn new(inputs: Vec<Type>, output: Type) -> (r: FunctionSignature)
        ensures
            r.inputs@.map_values(|t: Type| t@) == inputs@.map_values(|t: Type| t@),
            r.output@ == output@,
    {
        FunctionSignature { inputs, output }
    }

    pub fn inputs(&self) -> (r: &Vec<Type>)
        ensures
            r == &self.inputs,
    {
        &self.inputs
    }

    pub fn output(&self) -> (r: &Type)
        ensures
            r == &self.output,
    {
        &self.output
    }
}

/// A method under construction: its instructions, its variables and its signature.
#[derive(Debug, PartialEq, Eq)]
pub struct CLRMethod {
    ops: Vec<CILOp>,
    locals: Vec<Type>,
    sig: FunctionSignature,
    name: String,
    curr_bb: u32,
}

/// The model of a method under construction.
pub struct MethodModel {
    pub ops: Seq<OpModel>,
    pub locals: Seq<TypeModel>,
    pub inputs: Seq<TypeModel>,
    pub output: TypeModel,
    pub name: Seq<char>,
    /// The id the next basic block's label gets.
    pub curr_bb: u32,
}

impl View for CLRMethod {
    type V = MethodModel;

    closed spec fn view(&self) -> MethodModel {
        MethodModel {
            ops: ops_view(self.ops@),
            locals: self.locals@.map_values(|t: Type| t@),
            inputs: self.sig.inputs@.map_values(|t: Type| t@),
            output: self.sig.output@,
            name: self.name@,
            curr_bb: self.curr_bb,
        }
    }
}

/// The source local that variable `v` of a method with `argc` arguments holds.
pub open spec fn var_local(argc: nat, v: nat) -> nat {
    if v == 0 {
        0
    } else {
        v + argc
    }
}

impl CLRMethod {
    /// Whether the method fits the slot numbering: its argument count fits in 32 bits.
    pub closed spec fn wf(&self) -> bool {
        self.sig.inputs@.len() <= u32::MAX
    }

    pub fn new(sig: FunctionSignature, name: &str) -> (r: CLRMethod)
        requires
            sig.inputs@.len() <= u32::MAX,
        ensures
            r.wf(),
            r@.ops == Seq::<OpModel>::empty(),
            r@.locals == Seq::<TypeModel>::empty(),
            r@.inputs == sig.inputs@.map_values(|t: Type| t@),
            r@.output == sig.output@,
            r@.name == name@,
            r@.curr_bb == 0,
    {
        let r = CLRMethod { locals: Vec::new(), sig, name: String::from_str(name), ops: Vec::new(), curr_bb: 0 };
        assert(r@.ops =~= Seq::<OpModel>::empty());
        assert(r@.locals =~= Seq::<TypeModel>::empty());
        r
    }

    /// Starts the next basic block: emits its label, whose id is one more than the last.
    pub fn begin_bb(&mut self)
        requires
            old(self).wf(),
            old(self)@.curr_bb < u32::MAX,
        ensures
            final(self).wf(),
            final(self)@ == (MethodModel {
                ops: old(self)@.ops.push(OpModel::Label(old(self)@.curr_bb)),
                curr_bb: (old(self)@.curr_bb + 1) as u32,
                ..old(self)@
            }),
    {
        self.ops.push(CILOp::Label(self.curr_bb));
        self.curr_bb += 1;
    }

    pub fn name(&self) -> (r: &str)
        ensures
            r@ == self@.name,
    {
        self.name.as_str()
    }

    /// The instructions emitted so far.
    pub fn ops(&self) -> (r: &Vec<CILOp>)
        ensures
            ops_view(r@) == self@.ops,
    {
        &self.ops
    }

    /// The types of the method's variables.
    pub fn locals(&self) -> (r: &Vec<Type>)
        ensures
            r@.map_values(|t: Type| t@) == self@.locals,
    {
        &self.locals
    }

    pub fn argc(&self) -> (r: u32)
        requires
            self.wf(),
        ensures
            r == self@.inputs.len(),
    {
        self.sig.inputs.len() as u32
    }

    /// Whether the method returns a value.
    pub fn has_return(&self) -> (r: bool)
        ensures
            r == !(self@.output is Void),
    {
        match self.sig.output {
            Type::Void => false,
            _ => true,
        }
    }

    /// Where the source local `local` lives in this method.
    pub fn local_id_placement(&self, local: u32) -> (r: LocalPlacement)
        requires
            self.wf(),
        ensures
            r == placement(self@.inputs.len(), local as nat),
    {
        local_id_placement(self.sig.inputs.len(), local)
    }

    /// A liveness hint; slots are not reused yet, so it changes nothing.
    pub fn var_live(&mut self, _local: u32)
        ensures
            final(self)@ == old(self)@,
            final(self).wf() == old(self).wf(),
    {
    }

    /// A liveness hint; slots are not reused yet, so it changes nothing.
    pub fn var_dead(&mut self, _local: u32)
        ensures
            final(self)@ == old(self)@,
            final(self).wf() == old(self).wf(),
    {
    }

    /// Emits the instruction that pushes the value of `local`.
    pub fn load(&mut self, local: u32)
        requires
            old(self).wf(),
        ensures
            final(self).wf(),
            final(self)@ == (MethodModel {
                ops: old(self)@.ops.push(local_get_op(old(self)@.inputs.len(), local as nat)),
                ..old(self)@
            }),
    {
        let op = local_get(local, self.sig.inputs.len());
        self.ops.push(op);
    }

    /// Emits the instruction that pops a value into `local`.
    pub fn store(&mut self, local: u32)
        requires
            old(self).wf(),
        ensures
            final(self).wf(),
            final(self)@ == (MethodModel {
                ops: old(self)@.ops.push(local_set_op(old(self)@.inputs.len(), local as nat)),
                ..old(self)@
            }),
    {
        let op = local_set(local, self.sig.inputs.len());
        self.ops.push(op);
    }

    fn emit(&mut self, more: Vec<CILOp>)
        ensures
            final(self).wf() == old(self).wf(),
            final(self)@ == (MethodModel { ops: old(self)@.ops + ops_view(more@), ..old(self)@ }),
    {
        append_ops(&mut self.ops, more);
    }

    /// Emits the instructions that push a literal of type `var_type`.
    pub fn load_constant_primitive(&mut self, var_type: &Type, value: u128) -> (r: Result<(), CodegenError>)
        ensures
            final(self).wf() == old(self).wf(),
            r is Ok <==> constant_ops(var_type@, value) is Some,
            r is Ok ==> final(self)@ == (MethodModel {
                ops: old(self)@.ops + constant_ops(var_type@, value)->0,
                ..old(self)@
            }),
            r is Err ==> final(self)@ == old(self)@,
    {
        let ops = load_constant_primitive(var_type, value)?;
        self.emit(ops);
        Ok(())
    }

    /// Emits the instructions that push the literal `constant`.
    pub fn process_constant(&mut self, ctx: &TyCtxt, args: &Vec<Ty>, constant: &Constant) -> (r: Result<
        (),
        CodegenError,
    >)
        ensures
            final(self).wf() == old(self).wf(),
            r is Ok <==> constant_ops(resolve(*ctx, subst(constant.ty@, tys_view(args@))), constant.bits) is Some,
            r is Ok ==> final(self)@ == (MethodModel {
                ops: old(self)@.ops + constant_ops(
                    resolve(*ctx, subst(constant.ty@, tys_view(args@))),
                    constant.bits,
                )->0,
                ..old(self)@
            }),
            r is Err ==> final(self)@ == old(self)@,
    {
        let t = resolve_ty(ctx, &crate::ty::monomorphize(args, &constant.ty));
        self.load_constant_primitive(&t, constant.bits)
    }

    /// Emits the numeric cast of `kind` from `src` to `dest`.
    pub fn convert(&mut self, kind: CastKind, src: &Type, dest: &Type) -> (r: Result<(), CodegenError>)
        ensures
            final(self).wf() == old(self).wf(),
            r is Ok <==> numeric_cast_ops(kind, src@, dest@) is Some,
            r is Ok ==> final(self)@ == (MethodModel {
                ops: old(self)@.ops + numeric_cast_ops(kind, src@, dest@)->0,
                ..old(self)@
            }),
            r is Err ==> final(self)@ == old(self)@,
    {
        let ops = convert(kind, src, dest)?;
        self.emit(ops);
        Ok(())
    }

    /// Emits the instructions that push the value of `operand`.
    pub fn process_operand(&mut self, ctx: &TyCtxt, body: &Body, args: &Vec<Ty>, operand: &Operand) -> (r:
        Result<(), CodegenError>)
        requires
            body.arg_count <= u32::MAX,
        ensures
            final(self).wf() == old(self).wf(),
            r is Ok <==> operand_ops(*ctx, *body, tys_view(args@), *operand) is Some,
            r is Ok ==> final(self)@ == (MethodModel {
                ops: old(self)@.ops + operand_ops(*ctx, *body, tys_view(args@), *operand)->0,
                ..old(self)@
            }),
            r is Err ==> final(self)@ == old(self)@,
    {
        let ops = handle_operand(ctx, body, args, operand)?;
        self.emit(ops);
        Ok(())
    }

    /// Emits the instructions that push the value of `rvalue`.
    pub fn process_rvalue(&mut self, ctx: &TyCtxt, body: &Body, args: &Vec<Ty>, rvalue: &Rvalue) -> (r:
        Result<(), CodegenError>)
        requires
            body.arg_count <= u32::MAX,
        ensures
            final(self).wf() == old(self).wf(),
            r is Ok <==> rvalue_ops(*ctx, *body, tys_view(args@), *rvalue) is Some,
            r is Ok ==> final(self)@ == (MethodModel {
                ops: old(self)@.ops + rvalue_ops(*ctx, *body, tys_view(args@), *rvalue)->0,
                ..old(self)@
            }),
            r is Err ==> final(self)@ == old(self)@,
    {
        let ops = handle_rvalue(ctx, body, args, rvalue)?;
        self.emit(ops);
        Ok(())
    }

    /// Emits the instructions of `statement`, which leave the stack as they found it.
    pub fn add_statement(&mut self, ctx: &TyCtxt, body: &Body, args: &Vec<Ty>, statement: &Statement) -> (r:
        Result<(), CodegenError>)
        requires
            body.arg_count <= u32::MAX,
        ensures
            final(self).wf() == old(self).wf(),
            r is Ok <==> statement_ops(*ctx, *body, tys_view(args@), *statement) is Some,
            r is Ok ==> final(self)@ == (MethodModel {
                ops: old(self)@.ops + statement_ops(*ctx, *body, tys_view(args@), *statement)->0,
                ..old(self)@
            }),
            r is Ok ==> stack_net(statement_ops(*ctx, *body, tys_view(args@), *statement)->0) == 0,
            r is Err ==> final(self)@ == old(self)@,
    {
        let ops = handle_statement(ctx, body, args, statement)?;
        self.emit(ops);
        Ok(())
    }
}


/// The compare-and-branch instructions of the first `k` cases of a switch on
/// `discr`, of type `t`: reload the discriminant, push the case value, branch
/// if equal.
pub open spec fn switch_cases(
    ctx: TyCtxt,
    body: Body,
    args: Seq<TyModel>,
    discr: Operand,
    t: TyModel,
    values: Seq<u128>,
    targets: Seq<u32>,
    k: nat,
) -> Option<Seq<OpModel>>
    decreases k,
{
    if k == 0 {
        Some(Seq::empty())
    } else {
        match (
            switch_cases(ctx, body, args, discr, t, values, targets, (k - 1) as nat),
            operand_ops(ctx, body, args, discr),
            constant_ops(resolve(ctx, t), values[k - 1]),
        ) {
            (Some(prev), Some(d), Some(c)) => Some(prev + d + c.push(OpModel::BEq(targets[k - 1]))),
            _ => None,
        }
    }
}

/// The instructions of a switch: one compare-and-branch per case, in order,
/// then a jump to the last target, the one taken otherwise.
pub open spec fn switch_ops(
    ctx: TyCtxt,
    body: Body,
    args: Seq<TyModel>,
    discr: Operand,
    values: Seq<u128>,
    targets: Seq<u32>,
) -> Option<Seq<OpModel>> {
    if targets.len() == 0 || targets.len() - 1 != values.len() {
        None
    } else {
        match operand_ty_spec(ctx, body, args, discr) {
            Some(t) => match switch_cases(ctx, body, args, discr, t, values, targets, values.len()) {
                Some(cases) => Some(cases.push(OpModel::GoTo(targets.last()))),
                None => None,
            },
            None => None,
        }
    }
}

/// The instructions of `terminator` in a method whose return type is `output`.
#[verifier::opaque]
pub open spec fn terminator_ops(
    ctx: TyCtxt,
    body: Body,
    args: Seq<TyModel>,
    terminator: Terminator,
    output: TypeModel,
) -> Option<Seq<OpModel>> {
    match terminator {
        Terminator::Return => if output is Void {
            None
        } else {
            Some(seq![OpModel::LDLoc(0), OpModel::Ret])
        },
        Terminator::Goto(t) => Some(seq![OpModel::GoTo(t)]),
        Terminator::SwitchInt { discr, values, targets } => switch_ops(
            ctx,
            body,
            args,
            discr,
            values@,
            targets@,
        ),
    }
}

proof fn lemma_switch_cases_none(
    ctx: TyCtxt,
    body: Body,
    args: Seq<TyModel>,
    discr: Operand,
    t: TyModel,
    values: Seq<u128>,
    targets: Seq<u32>,
    i: nat,
    j: nat,
)
    requires
        i <= j,
        switch_cases(ctx, body, args, discr, t, values, targets, i) is None,
    ensures
        switch_cases(ctx, body, args, discr, t, values, targets, j) is None,
    decreases j - i,
{
    if i < j {
        lemma_switch_cases_none(ctx, body, args, discr, t, values, targets, i, (j - 1) as nat);
    }
}

/// Lowers a switch on `discr`.
pub fn switch_int(
    ctx: &TyCtxt,
    body: &Body,
    args: &Vec<Ty>,
    discr: &Operand,
    values: &Vec<u128>,
    targets: &Vec<u32>,
) -> (r: Result<Vec<CILOp>, CodegenError>)
    requires
        body.arg_count <= u32::MAX,
    ensures
        r is Ok <==> switch_ops(*ctx, *body, tys_view(args@), *discr, values@, targets@) is Some,
        r is Ok ==> ops_view(r->Ok_0@) == switch_ops(
            *ctx,
            *body,
            tys_view(args@),
            *discr,
            values@,
            targets@,
        )->0,
        r is Ok ==> stack_net(ops_view(r->Ok_0@)) == 0,
{
    let ghost gargs = tys_view(args@);
    if targets.len() == 0 || targets.len() - 1 != values.len() {
        return Err(CodegenError::unsupported("switch whose targets do not match its values"));
    }
    let t = operand_ty(ctx, body, args, discr)?;
    let tt = resolve_ty(ctx, &t);
    let mut ops: Vec<CILOp> = Vec::new();
    let mut k: usize = 0;
    assert(ops_view(ops@) =~= Seq::<OpModel>::empty());
    while k < values.len()
        invariant
            gargs == tys_view(args@),
            body.arg_count <= u32::MAX,
            targets@.len() == values@.len() + 1,
            k <= values@.len(),
            t@ == operand_ty_spec(*ctx, *body, gargs, *discr)->0,
            operand_ty_spec(*ctx, *body, gargs, *discr) is Some,
            tt@ == resolve(*ctx, t@),
            switch_cases(*ctx, *body, gargs, *discr, t@, values@, targets@, k as nat) == Some(
                ops_view(ops@),
            ),
            stack_net(ops_view(ops@)) == 0,
        decreases values@.len() - k,
    {
        let d = match handle_operand(ctx, body, args, discr) {
            Ok(d) => d,
            Err(e) => {
                proof {
                    lemma_switch_cases_none(*ctx, *body, gargs, *discr, t@, values@, targets@, (k + 1) as nat, values@.len() as nat);
                }
                return Err(e);
            },
        };
        let mut c = match load_constant_primitive(&tt, values[k]) {
            Ok(c) => c,
            Err(e) => {
                proof {
                    lemma_switch_cases_none(*ctx, *body, gargs, *discr, t@, values@, targets@, (k + 1) as nat, values@.len() as nat);
                }
                return Err(e);
            },
        };
        c.push(CILOp::BEq(targets[k]));
        append_ops(&mut ops, d);
        append_ops(&mut ops, c);
        k += 1;
    }
    ops.push(CILOp::GoTo(targets[values.len()]));
    Ok(ops)
}

impl CLRMethod {
    /// Emits the instructions of `terminator`.
    pub fn add_terminator(&mut self, ctx: &TyCtxt, body: &Body, args: &Vec<Ty>, terminator: &Terminator) -> (r:
        Result<(), CodegenError>)
        requires
            body.arg_count <= u32::MAX,
        ensures
            final(self).wf() == old(self).wf(),
            r is Ok <==> terminator_ops(*ctx, *body, tys_view(args@), *terminator, old(self)@.output) is Some,
            r is Ok ==> final(self)@ == (MethodModel {
                ops: old(self)@.ops + terminator_ops(
                    *ctx,
                    *body,
                    tys_view(args@),
                    *terminator,
                    old(self)@.output,
                )->0,
                ..old(self)@
            }),
            r is Ok ==> stack_net(
                terminator_ops(*ctx, *body, tys_view(args@), *terminator, old(self)@.output)->0,
            ) == 0,
            r is Err ==> final(self)@ == old(self)@,
    {
        reveal(terminator_ops);
        let ops = match terminator {
            Terminator::Return => {
                if !self.has_return() {
                    return Err(CodegenError::unsupported("return from a method that returns no value"));
                }
                let r = vec![CILOp::LDLoc(0), CILOp::Ret];
                assert(ops_view(r@) =~= seq![OpModel::LDLoc(0), OpModel::Ret]);
                assert(seq![OpModel::LDLoc(0), OpModel::Ret] =~= seq![OpModel::LDLoc(0)].push(OpModel::Ret));
                r
            },
            Terminator::Goto(t) => {
                let r = vec![CILOp::GoTo(*t)];
                assert(ops_view(r@) =~= seq![OpModel::GoTo(*t)]);
                assert(stack_net(seq![OpModel::GoTo(*t)]) == 0);
                r
            },
            Terminator::SwitchInt { discr, values, targets } => switch_int(ctx, body, args, discr, values, targets)?,
        };
        self.emit(ops);
        Ok(())
    }

    /// Declares the method's variables: the return value, then the locals of
    /// `body` above its arguments, each resolved through `cache`.
    pub fn add_locals(&mut self, ctx: &TyCtxt, body: &Body, args: &Vec<Ty>, cache: &mut TyCache) -> (r:
        Result<(), CodegenError>)
        ensures
            final(self).wf() == old(self).wf(),
            r is Ok <==> locals_resolvable(*body, tys_view(args@)),
            r is Ok ==> final(self)@ == (MethodModel {
                locals: var_types(*ctx, *body, tys_view(args@)),
                ..old(self)@
            }),
            r is Ok ==> forall|v: int|
                0 <= v < body.local_decls@.len() - body.arg_count ==> (#[trigger] defined_name(
                    *ctx,
                    var_ty(*body, tys_view(args@), v),
                ) matches Some(n) ==> final(cache).names().contains(n)),
            forall|x: Seq<char>| old(cache).names().contains(x) ==> final(cache).names().contains(x),
            r is Err ==> final(self)@ == old(self)@,
    {
        let ghost gargs = tys_view(args@);
        let n = body.local_decls.len();
        if n <= body.arg_count {
            return Err(CodegenError::unsupported("body without a return slot"));
        }
        let mut locals: Vec<Type> = Vec::new();
        let mut v: usize = 0;
        while v < n - body.arg_count
            invariant
                gargs == tys_view(args@),
                n == body.local_decls@.len(),
                n > body.arg_count,
                v <= n - body.arg_count,
                locals@.len() == v,
                forall|w: int| 0 <= w < v ==> !has_param(#[trigger] var_ty(*body, gargs, w)),
                forall|w: int|
                    0 <= w < v ==> #[trigger] locals@[w]@ == resolve(*ctx, var_ty(*body, gargs, w)),
                forall|w: int|
                    0 <= w < v ==> (#[trigger] defined_name(*ctx, var_ty(*body, gargs, w)) matches Some(
                        nm,
                    ) ==> cache.names().contains(nm)),
                forall|x: Seq<char>| old(cache).names().contains(x) ==> cache.names().contains(x),
            decreases n - body.arg_count - v,
        {
            let local = if v == 0 {
                0
            } else {
                v + body.arg_count
            };
            let t = crate::ty::monomorphize(args, &body.local_decls[local]);
            assert(t@ == var_ty(*body, gargs, v as int));
            let ghost names0 = cache.names();
            let tpe = match cache.type_from_cache(ctx, &t) {
                Ok(tpe) => tpe,
                Err(e) => {
                    return Err(e);
                },
            };
            locals.push(tpe);
            v += 1;
        }
        self.locals = locals;
        assert(self@.locals =~= var_types(*ctx, *body, gargs));
        Ok(())
    }
}

/// The type of variable `v` of the method made from `body`, with `args` substituted.
pub open spec fn var_ty(body: Body, args: Seq<TyModel>, v: int) -> TyModel {
    subst(body.local_decls@[var_local(body.arg_count as nat, v as nat) as int]@, args)
}

/// Whether `body` has a return slot and every variable's type is free of generic parameters.
pub open spec fn locals_resolvable(body: Body, args: Seq<TyModel>) -> bool {
    &&& body.local_decls@.len() > body.arg_count
    &&& forall|v: int|
        0 <= v < body.local_decls@.len() - body.arg_count ==> !has_param(
            #[trigger] var_ty(body, args, v),
        )
}

/// The target types of the variables of the method made from `body`.
pub open spec fn var_types(ctx: TyCtxt, body: Body, args: Seq<TyModel>) -> Seq<TypeModel> {
    Seq::new(
        (body.local_decls@.len() - body.arg_count) as nat,
        |v: int| resolve(ctx, var_ty(body, args, v)),
    )
}

/// The entries of the locals declaration for the first `k` of `locals`.
pub open spec fn locals_entries(locals: Seq<TypeModel>, k: nat) -> Seq<char>
    decreases k,
{
    if k == 0 {
        Seq::empty()
    } else {
        locals_entries(locals, (k - 1) as nat) + (if k == 1 {
            "\n\t\t["@
        } else {
            ",\n\t\t["@
        }) + decimal((k - 1) as nat) + "] "@ + il_name(locals[k - 1])
    }
}

/// The locals declaration of a method: one `[index] type` entry per variable.
pub open spec fn locals_init_text(locals: Seq<TypeModel>) -> Seq<char> {
    if locals.len() == 0 {
        Seq::empty()
    } else {
        "\t.locals init("@ + locals_entries(locals, locals.len()) + "\n\t)"@
    }
}

/// The names of the first `k` of `inputs`, separated by `,`.
pub open spec fn arg_list(inputs: Seq<TypeModel>, k: nat) -> Seq<char>
    decreases k,
{
    if k == 0 {
        Seq::empty()
    } else if k == 1 {
        il_name(inputs[0])
    } else {
        arg_list(inputs, (k - 1) as nat) + ","@ + il_name(inputs[k - 1])
    }
}

/// The whole method as assembly text: signature, locals, then instructions.
pub open spec fn method_text(m: MethodModel) -> Seq<char> {
    ".method public static "@ + il_name(m.output) + " "@ + m.name + "("@ + arg_list(
        m.inputs,
        m.inputs.len(),
    ) + "){\n"@ + locals_init_text(m.locals) + "\n"@ + ops_text(m.ops) + "}\n"@
}

fn push_locals_init(v: &mut Vec<char>, locals: &Vec<Type>)
    ensures
        final(v)@ == old(v)@ + locals_init_text(locals@.map_values(|t: Type| t@)),
{
    let ghost v0 = v@;
    let ghost ls = locals@.map_values(|t: Type| t@);
    if locals.len() == 0 {
        assert(v@ =~= v0 + locals_init_text(ls));
        return;
    }
    push_str_chars(v, "\t.locals init(");
    let ghost v1 = v@;
    let mut i: usize = 0;
    assert(v@ =~= v1 + locals_entries(ls, 0));
    while i < locals.len()
        invariant
            ls == locals@.map_values(|t: Type| t@),
            i <= locals@.len(),
            v@ == v1 + locals_entries(ls, i as nat),
        decreases locals@.len() - i,
    {
        if i == 0 {
            push_str_chars(v, "\n\t\t[");
        } else {
            push_str_chars(v, ",\n\t\t[");
        }
        push_decimal(v, i as u64);
        push_str_chars(v, "] ");
        push_il_name(v, &locals[i]);
        assert(v@ =~= v1 + locals_entries(ls, (i + 1) as nat));
        i += 1;
    }
    push_str_chars(v, "\n\t)");
    assert(v@ =~= v0 + locals_init_text(ls));
}

impl CLRMethod {
    /// The locals declaration of this method, empty when it has no variables.
    pub fn locals_init(&self) -> (r: String)
        ensures
            r@ == locals_init_text(self@.locals),
    {
        let mut v: Vec<char> = Vec::new();
        push_locals_init(&mut v, &self.locals);
        assert(v@ =~= locals_init_text(self@.locals));
        string_of_chars(&v)
    }

    /// This method as assembly text.
    pub fn into_il_ir(&self) -> (r: String)
        ensures
            r@ == method_text(self@),
    {
        let ghost m = self@;
        let mut v: Vec<char> = Vec::new();
        push_str_chars(&mut v, ".method public static ");
        push_il_name(&mut v, &self.sig.output);
        push_str_chars(&mut v, " ");
        push_str_chars(&mut v, self.name.as_str());
        push_str_chars(&mut v, "(");
        let ghost before_args = v@;
        let mut i: usize = 0;
        assert(v@ =~= before_args + arg_list(m.inputs, 0));
        while i < self.sig.inputs.len()
            invariant
                m == self@,
                i <= self.sig.inputs@.len(),
                v@ == before_args + arg_list(m.inputs, i as nat),
            decreases self.sig.inputs@.len() - i,
        {
            if i > 0 {
                push_str_chars(&mut v, ",");
            }
            push_il_name(&mut v, &self.sig.inputs[i]);
            assert(v@ =~= before_args + arg_list(m.inputs, (i + 1) as nat));
            i += 1;
        }
        push_str_chars(&mut v, "){\n");
        push_locals_init(&mut v, &self.locals);
        push_str_chars(&mut v, "\n");
        push_ops_text(&mut v, &self.ops);
        push_str_chars(&mut v, "}\n");
        assert(v@ =~= method_text(m));
        string_of_chars(&v)
    }
}


/// The instructions of the first `k` statements of `stmts`.
#[verifier::opaque]
pub open spec fn statements_ops(
    ctx: TyCtxt,
    body: Body,
    args: Seq<TyModel>,
    stmts: Seq<Statement>,
    k: nat,
) -> Option<Seq<OpModel>>
    decreases k,
{
    if k == 0 {
        Some(Seq::empty())
    } else {
        match (
            statements_ops(ctx, body, args, stmts, (k - 1) as nat),
            statement_ops(ctx, body, args, stmts[k - 1]),
        ) {
            (Some(a), Some(b)) => Some(a + b),
            _ => None,
        }
    }
}

/// The instructions of the first `k` blocks of `body`, in source order, each
/// opened by the label that carries its index.
#[verifier::opaque]
pub open spec fn blocks_ops(ctx: TyCtxt, body: Body, args: Seq<TyModel>, output: TypeModel, k: nat) -> Option<
    Seq<OpModel>,
>
    decreases k,
{
    if k == 0 {
        Some(Seq::empty())
    } else {
        let block = body.blocks@[k - 1];
        match (
            blocks_ops(ctx, body, args, output, (k - 1) as nat),
            statements_ops(ctx, body, args, block.statements@, block.statements@.len()),
            terminator_ops(ctx, body, args, block.terminator, output),
        ) {
            (Some(prev), Some(st), Some(t)) => Some(
                prev + seq![OpModel::Label((k - 1) as u32)] + st + t,
            ),
            _ => None,
        }
    }
}

proof fn lemma_statements_none(
    ctx: TyCtxt,
    body: Body,
    args: Seq<TyModel>,
    stmts: Seq<Statement>,
    i: nat,
    j: nat,
)
    requires
        i <= j,
        statements_ops(ctx, body, args, stmts, i) is None,
    ensures
        statements_ops(ctx, body, args, stmts, j) is None,
    decreases j - i,
{
    reveal(statements_ops);
    if i < j {
        lemma_statements_none(ctx, body, args, stmts, i, (j - 1) as nat);
    }
}

proof fn lemma_blocks_none(ctx: TyCtxt, body: Body, args: Seq<TyModel>, output: TypeModel, i: nat, j: nat)
    requires
        i <= j,
        blocks_ops(ctx, body, args, output, i) is None,
    ensures
        blocks_ops(ctx, body, args, output, j) is None,
    decreases j - i,
{
    reveal(blocks_ops);
    if i < j {
        lemma_blocks_none(ctx, body, args, output, i, (j - 1) as nat);
    }
}

impl CLRMethod {
    fn add_block(&mut self, ctx: &TyCtxt, body: &Body, args: &Vec<Ty>, k: usize) -> (r: Result<(), CodegenError>)
        requires
            body.arg_count <= u32::MAX,
            k < body.blocks@.len(),
            old(self).wf(),
            old(self)@.curr_bb == k,
            k < u32::MAX,
            blocks_ops(*ctx, *body, tys_view(args@), old(self)@.output, k as nat) is Some,
        ensures
            r is Ok ==> final(self).wf(),
            r is Ok ==> final(self)@ == (MethodModel {
                ops: old(self)@.ops + seq![OpModel::Label(k as u32)] + statements_ops(
                    *ctx,
                    *body,
                    tys_view(args@),
                    body.blocks@[k as int].statements@,
                    body.blocks@[k as int].statements@.len(),
                )->0 + terminator_ops(
                    *ctx,
                    *body,
                    tys_view(args@),
                    body.blocks@[k as int].terminator,
                    old(self)@.output,
                )->0,
                curr_bb: (k + 1) as u32,
                ..old(self)@
            }),
            r is Ok ==> statements_ops(
                *ctx,
                *body,
                tys_view(args@),
                body.blocks@[k as int].statements@,
                body.blocks@[k as int].statements@.len(),
            ) is Some && terminator_ops(
                *ctx,
                *body,
                tys_view(args@),
                body.blocks@[k as int].terminator,
                old(self)@.output,
            ) is Some,
            r is Err ==> blocks_ops(*ctx, *body, tys_view(args@), old(self)@.output, (k + 1) as nat) is None,
            r is Ok ==> stack_net(
                statements_ops(
                    *ctx,
                    *body,
                    tys_view(args@),
                    body.blocks@[k as int].statements@,
                    body.blocks@[k as int].statements@.len(),
                )->0,
            ) == 0,
            r is Ok ==> stack_net(
                terminator_ops(
                    *ctx,
                    *body,
                    tys_view(args@),
                    body.blocks@[k as int].terminator,
                    old(self)@.output,
                )->0,
            ) == 0,
    {
        let ghost gargs = tys_view(args@);
        let ghost m0 = self@;
        let block = &body.blocks[k];
        self.begin_bb();
        let ghost m1 = self@;
        let mut i: usize = 0;
        assert(m1.ops + Seq::<OpModel>::empty() =~= m1.ops);
        assert(statements_ops(*ctx, *body, gargs, block.statements@, 0) == Some(Seq::<OpModel>::empty())) by {
            reveal(statements_ops);
        }
        while i < block.statements.len()
            invariant
                gargs == tys_view(args@),
                body.arg_count <= u32::MAX,
                block == &body.blocks@[k as int],
                i <= block.statements@.len(),
                self.wf(),
                statements_ops(*ctx, *body, gargs, block.statements@, i as nat) is Some,
                stack_net(statements_ops(*ctx, *body, gargs, block.statements@, i as nat)->0) == 0,
                self@ == (MethodModel {
                    ops: m1.ops + statements_ops(*ctx, *body, gargs, block.statements@, i as nat)->0,
                    ..m1
                }),
            decreases block.statements@.len() - i,
        {
            match self.add_statement(ctx, body, args, &block.statements[i]) {
                Ok(()) => {},
                Err(e) => {
                    proof {
                        reveal(statements_ops);
                        lemma_statements_none(*ctx, *body, gargs, block.statements@, (i + 1) as nat, block.statements@.len() as nat);
                        reveal(blocks_ops);
                    }
                    return Err(e);
                },
            }
            proof {
                reveal(statements_ops);
                let a = statements_ops(*ctx, *body, gargs, block.statements@, i as nat)->0;
                let b = statement_ops(*ctx, *body, gargs, block.statements@[i as int])->0;
                assert(m1.ops + a + b =~= m1.ops + (a + b));
            }
            i += 1;
        }
        let ghost m2 = self@;
        match self.add_terminator(ctx, body, args, &block.terminator) {
            Ok(()) => {},
            Err(e) => {
                proof {
                    reveal(blocks_ops);
                }
                return Err(e);
            },
        }
        proof {
            let st = statements_ops(*ctx, *body, gargs, block.statements@, block.statements@.len())->0;
            let t = terminator_ops(*ctx, *body, gargs, block.terminator, m0.output)->0;
            assert(m1.ops == m0.ops.push(OpModel::Label(k as u32)));
            assert(m2.ops == m1.ops + st);
            assert(self@.ops == m2.ops + t);
            assert(self@.ops =~= m0.ops + seq![OpModel::Label(k as u32)] + st + t);
        }
        Ok(())
    }

    /// Lowers every block of `body` in source order; block `i` opens with label `i`.
    pub fn add_body(&mut self, ctx: &TyCtxt, body: &Body, args: &Vec<Ty>) -> (r: Result<(), CodegenError>)
        requires
            body.arg_count <= u32::MAX,
            old(self).wf(),
            old(self)@.curr_bb == 0,
        ensures
            r is Ok <==> (body.blocks@.len() < u32::MAX && blocks_ops(
                *ctx,
                *body,
                tys_view(args@),
                old(self)@.output,
                body.blocks@.len() as nat,
            ) is Some),
            r is Ok ==> final(self).wf(),
            r is Ok ==> final(self)@ == (MethodModel {
                ops: old(self)@.ops + blocks_ops(
                    *ctx,
                    *body,
                    tys_view(args@),
                    old(self)@.output,
                    body.blocks@.len() as nat,
                )->0,
                curr_bb: body.blocks@.len() as u32,
                ..old(self)@
            }),
            r is Ok ==> stack_net(
                blocks_ops(*ctx, *body, tys_view(args@), old(self)@.output, body.blocks@.len() as nat)->0,
            ) == 0,
    {
        let ghost gargs = tys_view(args@);
        let ghost m0 = self@;
        if body.blocks.len() >= u32::MAX as usize {
            return Err(CodegenError::unsupported("body with too many blocks"));
        }
        let mut k: usize = 0;
        assert(m0.ops + Seq::<OpModel>::empty() =~= m0.ops);
        assert(blocks_ops(*ctx, *body, gargs, m0.output, 0) == Some(Seq::<OpModel>::empty())) by {
            reveal(blocks_ops);
        }
        let ghost out = m0.output;
        while k < body.blocks.len()
            invariant
                out == m0.output,
                m0.output == old(self)@.output,
                gargs == tys_view(args@),
                body.arg_count <= u32::MAX,
                body.blocks@.len() < u32::MAX,
                k <= body.blocks@.len(),
                self.wf(),
                blocks_ops(*ctx, *body, gargs, m0.output, k as nat) is Some,
                stack_net(blocks_ops(*ctx, *body, gargs, m0.output, k as nat)->0) == 0,
                self@ == (MethodModel {
                    ops: m0.ops + blocks_ops(*ctx, *body, gargs, m0.output, k as nat)->0,
                    curr_bb: k as u32,
                    ..m0
                }),
            decreases body.blocks@.len() - k,
        {
            let ghost before = self@;
            match self.add_block(ctx, body, args, k) {
                Ok(()) => {},
                Err(e) => {
                    proof {
                        assert(before.output == m0.output);
                        assert(blocks_ops(*ctx, *body, gargs, m0.output, (k + 1) as nat) is None);
                        lemma_blocks_none(*ctx, *body, gargs, m0.output, (k + 1) as nat, body.blocks@.len() as nat);
                        assert(blocks_ops(*ctx, *body, gargs, old(self)@.output, body.blocks@.len() as nat) is None);
                    }
                    return Err(e);
                },
            }
            proof {
                reveal(blocks_ops);
                let prev = blocks_ops(*ctx, *body, gargs, m0.output, k as nat)->0;
                let block = body.blocks@[k as int];
                let st = statements_ops(*ctx, *body, gargs, block.statements@, block.statements@.len())->0;
                let t = terminator_ops(*ctx, *body, gargs, block.terminator, m0.output)->0;
                assert(m0.ops + prev + seq![OpModel::Label(k as u32)] + st + t =~= m0.ops + (prev
                    + seq![OpModel::Label(k as u32)] + st + t));
            }
            k += 1;
        }
        Ok(())
    }
}

/// Whether every slot that `ops` name lies below `argc` arguments and `locc` variables.
pub open spec fn slots_in_range(ops: Seq<OpModel>, argc: nat, locc: nat) -> bool {
    forall|i: int|
        0 <= i < ops.len() ==> crate::utilis::slot_in_range(#[trigger] ops[i], argc as u32, locc as u32)
}

/// Whether `body` lowers to a well-checked method with signature output
/// `output` and `argc` arguments: its variables resolve, its blocks lower, the
/// counts fit, every slot it names is declared, and the stack stays balanced.
pub open spec fn compiles(ctx: TyCtxt, body: Body, args: Seq<TyModel>, argc: nat, output: TypeModel) -> bool {
    let ops = blocks_ops(ctx, body, args, output, body.blocks@.len() as nat);
    let locc = (body.local_decls@.len() - body.arg_count) as nat;
    &&& locals_resolvable(body, args)
    &&& body.blocks@.len() < u32::MAX
    &&& ops is Some
    &&& locc <= u32::MAX
    &&& slots_in_range(ops->0, argc, locc)
    &&& crate::utilis::checked_net(ops->0, output is Void) == 0
}

/// Lowers the whole function `body` into a method named `name` with signature
/// `sig`: declares its variables, lowers its blocks in order, then checks the
/// instruction stream for a balanced stack and declared slots.
pub fn compile_method(
    ctx: &TyCtxt,
    body: &Body,
    args: &Vec<Ty>,
    sig: FunctionSignature,
    name: &str,
    cache: &mut TyCache,
) -> (r: Result<CLRMethod, CodegenError>)
    requires
        body.arg_count <= u32::MAX,
        sig.inputs@.len() <= u32::MAX,
    ensures
        r is Ok <==> compiles(*ctx, *body, tys_view(args@), sig.inputs@.len(), sig.output@),
        r is Ok ==> r->Ok_0@ == (MethodModel {
            ops: blocks_ops(*ctx, *body, tys_view(args@), sig.output@, body.blocks@.len() as nat)->0,
            locals: var_types(*ctx, *body, tys_view(args@)),
            inputs: sig.inputs@.map_values(|t: Type| t@),
            output: sig.output@,
            name: name@,
            curr_bb: body.blocks@.len() as u32,
        }),
        r is Ok ==> stack_net(r->Ok_0@.ops) == 0,
        r is Ok ==> forall|v: int|
            0 <= v < body.local_decls@.len() - body.arg_count ==> (#[trigger] defined_name(
                *ctx,
                var_ty(*body, tys_view(args@), v),
            ) matches Some(n) ==> final(cache).names().contains(n)),
{
    let ghost gargs = tys_view(args@);
    let ghost argc_n = sig.inputs@.len();
    let void = match sig.output {
        Type::Void => true,
        _ => false,
    };
    let mut method = CLRMethod::new(sig, name);
    method.add_locals(ctx, body, args, cache)?;
    method.add_body(ctx, body, args)?;
    let ghost ops = blocks_ops(*ctx, *body, gargs, method@.output, body.blocks@.len() as nat)->0;
    proof {
        assert(Seq::<OpModel>::empty() + ops =~= ops);
        assert(method@.ops == ops);
        assert(method@.inputs.len() == argc_n);
        assert(method@.locals == var_types(*ctx, *body, gargs));
        assert(method.locals@.len() == method@.locals.len());
        assert(method.locals@.len() == body.local_decls@.len() - body.arg_count);
    }
    let argc = method.argc();
    if method.locals.len() > u32::MAX as usize {
        return Err(CodegenError::unsupported("method with too many variables"));
    }
    match crate::utilis::check_method_ops(&method.ops, argc, method.locals.len() as u32, void) {
        Ok(()) => {},
        Err(e) => {
            proof {
                if slots_in_range(ops, argc_n, method@.locals.len()) {
                    assert forall|i: int| 0 <= i < method.ops@.len() implies crate::utilis::slot_in_range(
                        #[trigger] method.ops@[i]@,
                        argc,
                        method.locals@.len() as u32,
                    ) by {
                        assert(ops[i] == method.ops@[i]@);
                    }
                }
            }
            return Err(e);
        },
    }
    proof {
        assert forall|i: int| 0 <= i < ops.len() implies crate::utilis::slot_in_range(
            #[trigger] ops[i],
            argc_n as u32,
            method@.locals.len() as u32,
        ) by {
            assert(ops[i] == method.ops@[i]@);
        }
    }
    Ok(method)
}

} // verus!
