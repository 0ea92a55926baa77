//! Errors of the VM's memory, compiler and code generator.
use vstd::prelude::*;

verus! {

/// A failed memory access.
#[derive(Debug, Clone, Copy, PartialEq, Eq, Structural)]
pub enum MMUError {
    /// The page is not mapped.
    PageNotMapped,
    /// The page is mapped already.
    PageAlreadyMapped,
    /// The access is not allowed.
    AccessViolation,
    /// The page faulted.
    PageFault,
}

/// A failed compilation. No compilation fails yet, so nothing returns one.
#[derive(Debug, Clone, Copy, PartialEq, Eq, Structural)]
pub struct CompileError;

/// A failed code generation.
#[derive(Debug, Clone, Copy, PartialEq, Eq, Structural)]
pub enum CodegenError {
    /// An operand has a type the operation does not take.
    InvalidType,
}

/// Any error of the VM.
#[derive(Debug, Clone, Copy, PartialEq, Eq, Structural)]
pub enum Error {
    MMU(MMUError),
    Compile(CompileError),
    Codegen(CodegenError),
}

impl From<MMUError> for Error {
    fn from(e: MMUError) -> (r: Self) {
        Error::MMU(e)
    }
}

impl vstd::std_specs::convert::FromSpecImpl<MMUError> for Error {
    open spec fn obeys_from_spec() -> bool {
        true
    }

    open spec fn from_spec(e: MMUError) -> Self {
        Error::MMU(e)
    }
}

impl From<CompileError> for Error {
    fn from(e: CompileError) -> (r: Self) {
        Error::Compile(e)
    }
}

impl vstd::std_specs::convert::FromSpecImpl<CompileError> for Error {
    open spec fn obeys_from_spec() -> bool {
        true
    }

    open spec fn from_spec(e: CompileError) -> Self {
        Error::Compile(e)
    }
}

impl From<CodegenError> for Error {
    fn from(e: CodegenError) -> (r: Self) {
        Error::Codegen(e)
    }
}

impl vstd::std_specs::convert::FromSpecImpl<CodegenError> for Error {
    open spec fn obeys_from_spec() -> bool {
        true
    }

    open spec fn from_spec(e: CodegenError) -> Self {
        Error::Codegen(e)
    }
}

} // verus!
