//! The request and the result of a build, and what they stand for.

use vstd::prelude::*;

verus! {

/// A program to compile. The service reads it as bytes and never looks
/// inside.
#[derive(Debug, Clone, PartialEq, Eq)]
pub struct CompileRequest {
    pub code: String,
}

/// The result of one build attempt.
#[derive(Debug, Clone, PartialEq, Eq)]
pub enum CompileResponse {
    /// The build went through: the glue script and the binary to load with it.
    Success { js: String, wasm: Vec<u8> },
    /// The compiler rejected the program; its diagnostics.
    CompileError(String),
}

/// The content of a [`CompileResponse`].
pub ghost enum ResponseView {
    Success { js: Seq<char>, wasm: Seq<u8> },
    CompileError(Seq<char>),
}

impl View for CompileRequest {
    type V = Seq<char>;

    open spec fn view(&self) -> Seq<char> {
        self.code@
    }
}

impl View for CompileResponse {
    type V = ResponseView;

    open spec fn view(&self) -> ResponseView {
        match *self {
            CompileResponse::Success { js, wasm } => ResponseView::Success { js: js@, wasm: wasm@ },
            CompileResponse::CompileError(text) => ResponseView::CompileError(text@),
        }
    }
}

impl CompileResponse {
    /// Whether the build went through.
    pub fn is_success(&self) -> (out: bool)
        ensures
            out == (self@ is Success),
    {
        match self {
            CompileResponse::Success { .. } => true,
            CompileResponse::CompileError(_) => false,
        }
    }
}

} // verus!
