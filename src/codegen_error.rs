//! The errors of lowering.

use vstd::prelude::*;

verus! {

/// An error met while lowering the source IR to target instructions.
#[derive(Debug, PartialEq, Eq)]
pub enum CodegenError {
    /// A type still held a generic parameter when it had to be resolved.
    UnresolvedGeneric,
    /// A failure described by a message.
    Error(String),
    /// A positioned error inside one method.
    Method(MethodCodegenError),
    /// A shape of the source IR that has no lowering rule.
    Unsupported(String),
    /// Lowered instructions that use a local or argument slot outside the declared ones.
    Miscompilation(String),
    /// Lowered instructions that do not keep the stack balanced: the index of
    /// the offending instruction and the running stack depth there.
    UnbalancedStack { index: usize, depth: i128 },
}

impl CodegenError {
    pub fn from_panic_message(msg: &str) -> (r: CodegenError)
        ensures
            r matches CodegenError::Error(m) && m@ == msg@,
    {
        CodegenError::Error(String::from_str(msg))
    }

    /// An error for a construct without a lowering rule.
    pub fn unsupported(what: &str) -> (r: CodegenError)
        ensures
            r matches CodegenError::Unsupported(m) && m@ == what@,
    {
        CodegenError::Unsupported(String::from_str(what))
    }
}

/// An error located at a place in the source of one method.
#[derive(Debug, PartialEq, Eq)]
pub struct MethodCodegenError {
    file: String,
    line: u32,
    column: u32,
    message: String,
}

impl MethodCodegenError {
    pub closed spec fn spec_file(&self) -> Seq<char> {
        self.file@
    }

    pub closed spec fn spec_line(&self) -> u32 {
        self.line
    }

    pub closed spec fn spec_column(&self) -> u32 {
        self.column
    }

    pub closed spec fn spec_message(&self) -> Seq<char> {
        self.message@
    }

    pub fn new(file: &str, line: u32, column: u32, message: String) -> (r: MethodCodegenError)
        ensures
            r.spec_file() == file@,
            r.spec_line() == line,
            r.spec_column() == column,
            r.spec_message() == message@,
    {
        MethodCodegenError { file: String::from_str(file), line, column, message }
    }

    pub fn file(&self) -> (r: &str)
        ensures
            r@ == self.spec_file(),
    {
        self.file.as_str()
    }

    pub fn line(&self) -> (r: u32)
        ensures
            r == self.spec_line(),
    {
        self.line
    }

    pub fn column(&self) -> (r: u32)
        ensures
            r == self.spec_column(),
    {
        self.column
    }

    pub fn message(&self) -> (r: &str)
        ensures
            r@ == self.spec_message(),
    {
        self.message.as_str()
    }
}

impl From<MethodCodegenError> for CodegenError {
    fn from(value: MethodCodegenError) -> (r: CodegenError) {
        CodegenError::Method(value)
    }
}

impl vstd::std_specs::convert::FromSpecImpl<MethodCodegenError> for CodegenError {
    open spec fn obeys_from_spec() -> bool {
        true
    }

    open spec fn from_spec(v: MethodCodegenError) -> CodegenError {
        CodegenError::Method(v)
    }
}

} // verus!
