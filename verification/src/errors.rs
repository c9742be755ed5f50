//! The error model: validation diagnostics and compilation errors.
//!
//! A [`Diagnostic`] describes one violated constraint of an instance; a
//! compiled schema never fails at validation time, it only reports such
//! diagnostics.  A [`CompilationError`] is fatal: it aborts the whole
//! compilation of a schema document.

use vstd::prelude::*;

verus! {

/// What kind of constraint a diagnostic reports as violated, with the
/// constraint's own parameter.
#[derive(Clone, Copy, PartialEq, Eq, Structural, Debug)]
pub enum ErrorKind {
    /// The fragment was the boolean schema `false`, which no instance satisfies.
    FalseSchema,
    /// The instance's type is not the one the `type` keyword requires.
    TypeMismatch { expected: crate::json::JsonType },
    /// The instance is a number below the `minimum` keyword's limit.
    Minimum { limit: i64 },
    /// The instance is a string shorter than the `minLength` keyword's limit.
    MinLength { limit: u64 },
    /// The instance satisfies a schema that the `not` keyword negates.
    Negation,
    /// The instance satisfies none of the branches of an `anyOf`.
    AnyOfMismatch,
    /// The instance satisfies a number of `oneOf` branches other than one.
    OneOfMismatch,
}

/// One violated constraint: where in the instance, where in the schema,
/// and what failed.
pub struct Diagnostic {
    /// Path from the instance root to the offending value.
    pub instance_path: Vec<String>,
    /// Path from the schema root to the violated keyword.
    pub schema_path: Vec<String>,
    /// Which constraint failed.
    pub kind: ErrorKind,
}

/// The mathematical value of a [`Diagnostic`]: the same data over sequences.
pub struct DiagnosticView {
    pub instance_path: Seq<Seq<char>>,
    pub schema_path: Seq<Seq<char>>,
    pub kind: ErrorKind,
}

impl View for Diagnostic {
    type V = DiagnosticView;

    open spec fn view(&self) -> DiagnosticView {
        DiagnosticView {
            instance_path: self.instance_path.deep_view(),
            schema_path: self.schema_path.deep_view(),
            kind: self.kind,
        }
    }
}

impl DeepView for Diagnostic {
    type V = DiagnosticView;

    open spec fn deep_view(&self) -> DiagnosticView {
        self.view()
    }
}

/// The message text for each failure kind.
pub open spec fn spec_message(kind: ErrorKind) -> Seq<char> {
    match kind {
        ErrorKind::FalseSchema => "the schema is false"@,
        ErrorKind::TypeMismatch { .. } => "the instance has the wrong type"@,
        ErrorKind::Minimum { .. } => "the number is below the minimum"@,
        ErrorKind::MinLength { .. } => "the string is too short"@,
        ErrorKind::Negation => "the instance matches the negated schema"@,
        ErrorKind::AnyOfMismatch => "the instance matches none of the branches"@,
        ErrorKind::OneOfMismatch => "the instance does not match exactly one branch"@,
    }
}

impl Diagnostic {
    /// A short human-readable account of the failed constraint.  For
    /// tracing only; the structured fields carry the information.
    pub fn message(&self) -> (r: String)
        ensures
            r@ == spec_message(self.kind),
    {
        match self.kind {
            ErrorKind::FalseSchema => String::from_str("the schema is false"),
            ErrorKind::TypeMismatch { expected: _ } => String::from_str(
                "the instance has the wrong type",
            ),
            ErrorKind::Minimum { limit: _ } => String::from_str(
                "the number is below the minimum",
            ),
            ErrorKind::MinLength { limit: _ } => String::from_str("the string is too short"),
            ErrorKind::Negation => String::from_str("the instance matches the negated schema"),
            ErrorKind::AnyOfMismatch => String::from_str(
                "the instance matches none of the branches",
            ),
            ErrorKind::OneOfMismatch => String::from_str(
                "the instance does not match exactly one branch",
            ),
        }
    }
}

/// The empty diagnostic sequence: success, reported without describing
/// any failure.
pub fn no_error() -> (r: Vec<Diagnostic>)
    ensures
        r.deep_view() == Seq::<DiagnosticView>::empty(),
{
    let r: Vec<Diagnostic> = Vec::new();
    assert(r.deep_view() =~= Seq::<DiagnosticView>::empty());
    r
}

/// Why a compilation failed.
#[derive(Clone, Copy, PartialEq, Eq, Structural, Debug)]
pub enum CompilationErrorKind {
    /// A schema fragment is neither an object nor a boolean.
    InvalidSchemaKind,
    /// A keyword's value has the wrong JSON type, or an impossible value.
    InvalidKeywordValue,
    /// A reference names a location the registry does not hold.
    UnresolvableReference,
    /// Resolving nested or referenced fragments exceeded the context's
    /// depth budget; in particular, a schema that references an ancestor
    /// of itself is rejected with this error.
    DepthExceeded,
}

/// A fatal compilation error: the offending fragment's location and the cause.
pub struct CompilationError {
    /// Path from the schema root to the fragment or keyword that failed.
    pub schema_path: Vec<String>,
    /// The cause.
    pub kind: CompilationErrorKind,
}

/// The mathematical value of a [`CompilationError`].
pub struct CompilationErrorView {
    pub schema_path: Seq<Seq<char>>,
    pub kind: CompilationErrorKind,
}

impl View for CompilationError {
    type V = CompilationErrorView;

    open spec fn view(&self) -> CompilationErrorView {
        CompilationErrorView { schema_path: self.schema_path.deep_view(), kind: self.kind }
    }
}

/// The message text for each compilation failure cause.
pub open spec fn spec_error_message(kind: CompilationErrorKind) -> Seq<char> {
    match kind {
        CompilationErrorKind::InvalidSchemaKind => "a schema fragment must be an object or a boolean"@,
        CompilationErrorKind::InvalidKeywordValue => "a keyword holds a value of the wrong kind"@,
        CompilationErrorKind::UnresolvableReference => "a reference cannot be resolved"@,
        CompilationErrorKind::DepthExceeded => "schema nesting or references exceed the resolution depth budget"@,
    }
}

impl CompilationError {
    /// A short human-readable account of the cause.
    pub fn message(&self) -> (r: String)
        ensures
            r@ == spec_error_message(self.kind),
    {
        match self.kind {
            CompilationErrorKind::InvalidSchemaKind => String::from_str(
                "a schema fragment must be an object or a boolean",
            ),
            CompilationErrorKind::InvalidKeywordValue => String::from_str(
                "a keyword holds a value of the wrong kind",
            ),
            CompilationErrorKind::UnresolvableReference => String::from_str(
                "a reference cannot be resolved",
            ),
            CompilationErrorKind::DepthExceeded => String::from_str(
                "schema nesting or references exceed the resolution depth budget",
            ),
        }
    }
}

} // verus!
