//! Lowering of a typed control-flow-graph IR to the instructions of a stack
//! machine: type resolution and its cache, name mangling, place addressing,
//! value lowering, statement and terminator lowering, the method builder and
//! the stack-balance check, each with its contract.

pub mod aggregate;
pub mod checked;
pub mod cil;
pub mod clr_method;
pub mod clr_type;
pub mod layout;
pub mod codegen_error;
pub mod il;
pub mod mangle;
pub mod mir;
pub mod operand;
pub mod place;
pub mod reach;
pub mod rvalue;
pub mod statement;
pub mod text;
pub mod ty;
pub mod type_cache;
pub mod type_def;
pub mod utilis;
