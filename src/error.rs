use vstd::prelude::*;
use vstd::string::StringExecFns;

verus! {

/// The kind of a [`MathWordsError`], without its detail.
#[derive(Clone, Copy, Debug, PartialEq, Eq, Structural)]
pub enum ErrorKind {
    Initialization,
    LatexConversion,
    MathMLConversion,
    Validation,
    Resource,
}

/// A failure of one operation of the library, with its detail text.
#[derive(Clone, Debug, PartialEq, Eq)]
pub enum MathWordsError {
    /// Setting up the speech engine failed.
    InitializationError(String),
    /// The LaTeX to MathML stage failed.
    LatexConversionError(String),
    /// Loading MathML or producing speech from it failed.
    MathMLConversionError(String),
    /// The caller's input was malformed.
    ValidationError(String),
    /// The rules directory could not be prepared.
    ResourceError(String),
}

/// The text that opens the message of each kind of error.
pub open spec fn heading_of(kind: ErrorKind) -> Seq<char> {
    match kind {
        ErrorKind::Initialization => "Failed to initialize MathCAT: "@,
        ErrorKind::LatexConversion => "Failed to convert LaTeX to MathML: "@,
        ErrorKind::MathMLConversion => "Failed to convert MathML to speech: "@,
        ErrorKind::Validation => "Invalid input: "@,
        ErrorKind::Resource => "Resource error: "@,
    }
}

impl MathWordsError {
    pub open spec fn spec_kind(&self) -> ErrorKind {
        match self {
            MathWordsError::InitializationError(_) => ErrorKind::Initialization,
            MathWordsError::LatexConversionError(_) => ErrorKind::LatexConversion,
            MathWordsError::MathMLConversionError(_) => ErrorKind::MathMLConversion,
            MathWordsError::ValidationError(_) => ErrorKind::Validation,
            MathWordsError::ResourceError(_) => ErrorKind::Resource,
        }
    }

    pub open spec fn spec_detail(&self) -> Seq<char> {
        match self {
            MathWordsError::InitializationError(d) => d@,
            MathWordsError::LatexConversionError(d) => d@,
            MathWordsError::MathMLConversionError(d) => d@,
            MathWordsError::ValidationError(d) => d@,
            MathWordsError::ResourceError(d) => d@,
        }
    }

    /// Builds the error of the given kind with the given detail.
    pub fn new(kind: ErrorKind, detail: String) -> (r: MathWordsError)
        ensures
            r.spec_kind() == kind,
            r.spec_detail() == detail@,
    {
        match kind {
            ErrorKind::Initialization => MathWordsError::InitializationError(detail),
            ErrorKind::LatexConversion => MathWordsError::LatexConversionError(detail),
            ErrorKind::MathMLConversion => MathWordsError::MathMLConversionError(detail),
            ErrorKind::Validation => MathWordsError::ValidationError(detail),
            ErrorKind::Resource => MathWordsError::ResourceError(detail),
        }
    }

    #[verifier::when_used_as_spec(spec_kind)]
    pub fn kind(&self) -> (r: ErrorKind)
        ensures
            r == self.spec_kind(),
    {
        match self {
            MathWordsError::InitializationError(_) => ErrorKind::Initialization,
            MathWordsError::LatexConversionError(_) => ErrorKind::LatexConversion,
            MathWordsError::MathMLConversionError(_) => ErrorKind::MathMLConversion,
            MathWordsError::ValidationError(_) => ErrorKind::Validation,
            MathWordsError::ResourceError(_) => ErrorKind::Resource,
        }
    }

    /// The detail text that the error carries.
    pub fn detail(&self) -> (r: &str)
        ensures
            r@ == self.spec_detail(),
    {
        match self {
            MathWordsError::InitializationError(d) => d.as_str(),
            MathWordsError::LatexConversionError(d) => d.as_str(),
            MathWordsError::MathMLConversionError(d) => d.as_str(),
            MathWordsError::ValidationError(d) => d.as_str(),
            MathWordsError::ResourceError(d) => d.as_str(),
        }
    }

    /// Whether the error blames the caller's arguments rather than the engine
    /// or the machine; a host reports these as invalid-argument errors.
    pub fn is_invalid_argument(&self) -> (r: bool)
        ensures
            r == (self.spec_kind() == ErrorKind::Validation),
    {
        match self {
            MathWordsError::ValidationError(_) => true,
            _ => false,
        }
    }

    /// The full message: the heading of the error's kind, then its detail.
    pub fn message(&self) -> (r: String)
        ensures
            r@ == heading_of(self.spec_kind()) + self.spec_detail(),
    {
        let mut r = match self.kind() {
            ErrorKind::Initialization => String::from_str("Failed to initialize MathCAT: "),
            ErrorKind::LatexConversion => String::from_str("Failed to convert LaTeX to MathML: "),
            ErrorKind::MathMLConversion => String::from_str("Failed to convert MathML to speech: "),
            ErrorKind::Validation => String::from_str("Invalid input: "),
            ErrorKind::Resource => String::from_str("Resource error: "),
        };
        r.append(self.detail());
        r
    }
}

} // verus!
