//! The errors of the pipeline's phases.
//!
//! Only generation errors have a structure that the pipeline reads. The errors
//! of the later phases come from the tools that were run and are kept as the
//! text they are reported with.

use vstd::prelude::*;
use vstd::string::*;

verus! {

/// The backend cannot represent what was asked of it.
#[derive(Debug, Clone)]
pub enum UnsupportedError {
    /// A gap described by a message.
    Other(String),
}

impl View for UnsupportedError {
    type V = Seq<char>;

    /// The message that describes the gap.
    open spec fn view(&self) -> Seq<char> {
        match self {
            UnsupportedError::Other(message) => message@,
        }
    }
}

impl UnsupportedError {
    /// A gap described by `message`.
    pub fn other(message: &str) -> (error: UnsupportedError)
        ensures
            error@ == message@,
    {
        UnsupportedError::Other(String::from_str(message))
    }

    /// The text this error is reported with.
    pub fn message(&self) -> (text: String)
        ensures
            text@ == self@,
    {
        match self {
            UnsupportedError::Other(message) => message.clone(),
        }
    }

    /// A copy of this error.
    pub fn duplicate(&self) -> (copy: UnsupportedError)
        ensures
            copy@ == self@,
    {
        match self {
            UnsupportedError::Other(message) => UnsupportedError::Other(message.clone()),
        }
    }
}

/// Why a source file could not be generated.
#[derive(Debug, Clone)]
pub enum GenerateError {
    /// The backend cannot represent the test faithfully.
    Unsupported(UnsupportedError),
    /// Writing the source failed; the text is the system's report.
    Io(String),
    /// The configuration does not apply to this test. Not a failure.
    Skipped,
}

/// A [`GenerateError`] with its texts as sequences of characters.
pub ghost enum GenerateErrorView {
    Unsupported(Seq<char>),
    Io(Seq<char>),
    Skipped,
}

impl View for GenerateError {
    type V = GenerateErrorView;

    open spec fn view(&self) -> GenerateErrorView {
        match self {
            GenerateError::Unsupported(gap) => GenerateErrorView::Unsupported(gap@),
            GenerateError::Io(report) => GenerateErrorView::Io(report@),
            GenerateError::Skipped => GenerateErrorView::Skipped,
        }
    }
}

impl GenerateErrorView {
    /// The text the error is reported with.
    pub open spec fn message(self) -> Seq<char> {
        match self {
            GenerateErrorView::Unsupported(gap) => "unsupported: "@ + gap,
            GenerateErrorView::Io(report) => "io error\n"@ + report,
            GenerateErrorView::Skipped => "test skipped"@,
        }
    }
}

impl GenerateError {
    /// A capability gap described by `message`.
    pub fn unsupported(message: &str) -> (error: GenerateError)
        ensures
            error@ == GenerateErrorView::Unsupported(message@),
    {
        GenerateError::Unsupported(UnsupportedError::other(message))
    }

    /// Whether this is the signal that the test does not apply.
    pub fn is_skip(&self) -> (skip: bool)
        ensures
            skip == (self@ == GenerateErrorView::Skipped),
    {
        match self {
            GenerateError::Skipped => true,
            _ => false,
        }
    }

    /// The text this error is reported with.
    pub fn message(&self) -> (text: String)
        ensures
            text@ == self@.message(),
    {
        match self {
            GenerateError::Unsupported(gap) => {
                let mut text = String::from_str("unsupported: ");
                let detail = gap.message();
                text.append(detail.as_str());
                text
            },
            GenerateError::Io(report) => {
                let mut text = String::from_str("io error\n");
                text.append(report.as_str());
                text
            },
            GenerateError::Skipped => String::from_str("test skipped"),
        }
    }

    /// A copy of this error.
    pub fn duplicate(&self) -> (copy: GenerateError)
        ensures
            copy@ == self@,
    {
        match self {
            GenerateError::Unsupported(gap) => GenerateError::Unsupported(gap.duplicate()),
            GenerateError::Io(report) => GenerateError::Io(report.clone()),
            GenerateError::Skipped => GenerateError::Skipped,
        }
    }
}

/// Why a generated source did not compile.
#[derive(Debug, Clone)]
pub struct BuildError {
    /// The text this error is reported with.
    pub message: String,
}

/// Why the two compiled sides did not link.
#[derive(Debug, Clone)]
pub struct LinkError {
    /// The text this error is reported with.
    pub message: String,
}

/// Why the linked test did not run to its end.
#[derive(Debug, Clone)]
pub struct RunError {
    /// The text this error is reported with.
    pub message: String,
}

/// How one subtest's values differed between the two sides.
#[derive(Debug, Clone)]
pub struct CheckFailure {
    /// The text this failure is reported with.
    pub message: String,
}

} // verus!
