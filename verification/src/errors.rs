//! Error taxonomy of the script-hook engine.

use vstd::prelude::*;

verus! {

/// A value crossing the host/script boundary could not be represented.
#[derive(Clone, Copy, PartialEq, Eq, Structural, Debug)]
pub enum MarshalError {
    /// A cover's mime tag lies outside the closed set of supported kinds.
    UnknownMime,
    /// A cover table carries no mime tag at all.
    MissingMime,
    /// A callback returned a truthy value that is not record-shaped.
    NotARecord,
    /// A record field held a value of a kind that cannot be converted.
    BadField,
    /// An integer field lies outside the range of its host-side type.
    OutOfRange,
}

/// A failure of script loading or callback execution.
#[derive(Debug)]
pub enum ScriptError {
    /// Script source could not be read from disk.
    IoFailure(String),
    /// A script failed to parse or raised during its top-level execution.
    SyntaxOrRuntimeError(String),
    /// The argument handed to the registration API is not invokable.
    InvalidCallback,
    /// A registered callback raised during invocation; `index` is its
    /// position in registration order.
    CallbackFailed { index: usize, message: String },
    /// A value produced by a callback could not be marshaled back.
    Marshal(MarshalError),
}

/// Mathematical shape of a [`ScriptError`], with text as character sequences.
#[verifier::ext_equal]
pub enum ScriptErrorView {
    IoFailure(Seq<char>),
    SyntaxOrRuntimeError(Seq<char>),
    InvalidCallback,
    CallbackFailed { index: int, message: Seq<char> },
    Marshal(MarshalError),
}

impl View for ScriptError {
    type V = ScriptErrorView;

    open spec fn view(&self) -> ScriptErrorView {
        match self {
            ScriptError::IoFailure(m) => ScriptErrorView::IoFailure(m@),
            ScriptError::SyntaxOrRuntimeError(m) => ScriptErrorView::SyntaxOrRuntimeError(m@),
            ScriptError::InvalidCallback => ScriptErrorView::InvalidCallback,
            ScriptError::CallbackFailed { index, message } => ScriptErrorView::CallbackFailed {
                index: *index as int,
                message: message@,
            },
            ScriptError::Marshal(m) => ScriptErrorView::Marshal(*m),
        }
    }
}

/// A configuration document outside what this tool supports.
#[derive(Clone, Copy, PartialEq, Eq, Structural, Debug)]
pub enum ConfigError {
    /// The document's `version` field names an unsupported revision.
    UnsupportedVersion,
}

} // verus!
