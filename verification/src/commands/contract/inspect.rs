//! Inspecting a contract binary: what is shown of its specification.

use vstd::prelude::*;
use crate::commands::contract::SpecOutput;
use crate::text::view_of;

verus! {

/// Why nothing could be shown.
#[derive(Clone, PartialEq, Eq, Debug)]
pub enum Error {
    /// The binary holds no specification. Carries the path of the binary.
    MissingSpec(String),
}

/// The mathematical value of an `Error`.
pub enum ErrorView {
    MissingSpec(Seq<char>),
}

impl View for Error {
    type V = ErrorView;

    open spec fn view(&self) -> ErrorView {
        match self {
            Error::MissingSpec(path) => ErrorView::MissingSpec(path@),
        }
    }
}

/// What is asked when a contract is inspected.
#[derive(Clone, Debug)]
pub struct Cmd {
    /// Path to the wasm binary.
    pub wasm: String,
    /// What to show of the specification.
    pub output: SpecOutput,
}

/// What is to be printed.
#[derive(Clone, PartialEq, Eq, Debug)]
pub enum Shown {
    /// This text: the specification as one XDR value in base64.
    XdrBase64(String),
    /// The specification as an array of XDR values in base64, one per entry.
    XdrBase64Array,
    /// The specification as documentation.
    Docs,
}

/// The mathematical value of `Shown`.
pub enum ShownView {
    XdrBase64(Seq<char>),
    XdrBase64Array,
    Docs,
}

impl View for Shown {
    type V = ShownView;

    open spec fn view(&self) -> ShownView {
        match self {
            Shown::XdrBase64(text) => ShownView::XdrBase64(text@),
            Shown::XdrBase64Array => ShownView::XdrBase64Array,
            Shown::Docs => ShownView::Docs,
        }
    }
}

/// The view of what `run` returns.
pub open spec fn shown_result(r: Result<Shown, Error>) -> Result<ShownView, ErrorView> {
    match r {
        Ok(shown) => Ok(shown@),
        Err(e) => Err(e@),
    }
}

/// What is shown of a binary at `wasm` whose specification in base64 is
/// `spec_base64`, if it holds one. Only the output as one XDR value needs it,
/// and fails without it.
pub open spec fn shown(wasm: Seq<char>, output: SpecOutput, spec_base64: Option<Seq<char>>)
    -> Result<ShownView, ErrorView> {
    match output {
        SpecOutput::XdrBase64 => match spec_base64 {
            Some(text) => Ok(ShownView::XdrBase64(text)),
            None => Err(ErrorView::MissingSpec(wasm)),
        },
        SpecOutput::XdrBase64Array => Ok(ShownView::XdrBase64Array),
        SpecOutput::Docs => Ok(ShownView::Docs),
    }
}

impl Cmd {
    /// Decides what is printed. `spec_base64` is the specification that was
    /// read from the binary, in base64, if it holds one.
    pub fn run(&self, spec_base64: Option<String>) -> (r: Result<Shown, Error>)
        ensures
            shown_result(r) == shown(self.wasm@, self.output, view_of(spec_base64)),
    {
        match self.output {
            SpecOutput::XdrBase64 => match spec_base64 {
                Some(text) => Ok(Shown::XdrBase64(text)),
                None => Err(Error::MissingSpec(self.wasm.clone())),
            },
            SpecOutput::XdrBase64Array => Ok(Shown::XdrBase64Array),
            SpecOutput::Docs => Ok(Shown::Docs),
        }
    }
}

} // verus!
