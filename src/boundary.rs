use vstd::prelude::*;
use vstd::string::StringExecFns;
use crate::error::{ErrorKind, MathWordsError};

verus! {

/// What came of one guarded call into an engine: the call returned a value
/// (the empty string for calls that return none), returned a failure with the
/// engine's own description, or aborted abruptly.
#[derive(Clone, Debug)]
pub enum Guarded {
    Returned(String),
    Failed(String),
    Panicked,
}

/// The operations that cross into an engine or the file system.
#[derive(Clone, Copy, Debug, PartialEq, Eq, Structural)]
pub enum Operation {
    CreateRulesCache,
    ExtractRules,
    SetRulesDir,
    SetLanguage,
    SetSpeechStyle,
    UpdateSpeechStyle,
    ConvertLatex,
    SetMathml,
    GetSpokenText,
}

impl Operation {
    /// The kind of error that a failure of the operation is reported as.
    pub open spec fn spec_error_kind(self) -> ErrorKind {
        match self {
            Operation::CreateRulesCache | Operation::ExtractRules => ErrorKind::Resource,
            Operation::SetRulesDir | Operation::SetLanguage | Operation::SetSpeechStyle
            | Operation::UpdateSpeechStyle => ErrorKind::Initialization,
            Operation::ConvertLatex => ErrorKind::LatexConversion,
            Operation::SetMathml | Operation::GetSpokenText => ErrorKind::MathMLConversion,
        }
    }

    /// The words put before the description of a failure of the operation.
    pub open spec fn failure_prefix(self) -> Seq<char> {
        match self {
            Operation::CreateRulesCache => "Failed to create temp directory: "@,
            Operation::ExtractRules => "Failed to extract rules: "@,
            Operation::SetRulesDir => "Failed to set rules directory: "@,
            Operation::SetLanguage => "Failed to set language: "@,
            Operation::SetSpeechStyle => "Failed to set speech style: "@,
            Operation::UpdateSpeechStyle => "Failed to update speech style: "@,
            Operation::ConvertLatex => "Conversion failed: "@,
            Operation::SetMathml => "Failed to set MathML: "@,
            Operation::GetSpokenText => "Failed to get speech: "@,
        }
    }

    /// The detail of the error that an abrupt abort of the operation gives:
    /// it names what was under way and says that it panicked.
    pub open spec fn panic_detail(self) -> Seq<char> {
        match self {
            Operation::CreateRulesCache | Operation::ExtractRules => "Rules extraction panicked"@,
            Operation::SetRulesDir | Operation::SetLanguage
            | Operation::SetSpeechStyle => "MathCAT initialization panicked"@,
            Operation::UpdateSpeechStyle => "Speech style update panicked"@,
            Operation::ConvertLatex => "LaTeX conversion panicked"@,
            Operation::SetMathml | Operation::GetSpokenText => "MathML to speech conversion panicked"@,
        }
    }

    #[verifier::when_used_as_spec(spec_error_kind)]
    pub fn error_kind(self) -> (r: ErrorKind)
        ensures
            r == self.spec_error_kind(),
    {
        match self {
            Operation::CreateRulesCache | Operation::ExtractRules => ErrorKind::Resource,
            Operation::SetRulesDir | Operation::SetLanguage | Operation::SetSpeechStyle
            | Operation::UpdateSpeechStyle => ErrorKind::Initialization,
            Operation::ConvertLatex => ErrorKind::LatexConversion,
            Operation::SetMathml | Operation::GetSpokenText => ErrorKind::MathMLConversion,
        }
    }
}

/// The error that a failed or aborted call of `op` is reported as.
pub open spec fn contained(op: Operation, outcome: Guarded, e: MathWordsError) -> bool {
    &&& e.spec_kind() == op.spec_error_kind()
    &&& match outcome {
        Guarded::Failed(d) => e.spec_detail() == op.failure_prefix() + d@,
        _ => e.spec_detail() == op.panic_detail(),
    }
}

/// Turns what came of a guarded call of `op` into the call's value or the
/// typed error that reports it. A failure keeps the engine's description
/// behind a prefix naming the operation; an abort is reported with a detail of
/// its own, so that a refusal and a crash can be told apart.
pub fn contain(op: Operation, outcome: Guarded) -> (r: Result<String, MathWordsError>)
    ensures
        outcome is Returned ==> r is Ok && r->Ok_0@ == outcome->Returned_0@,
        !(outcome is Returned) ==> r is Err && contained(op, outcome, r->Err_0),
{
    match outcome {
        Guarded::Returned(v) => Ok(v),
        Guarded::Failed(d) => {
            let mut detail = match op {
                Operation::CreateRulesCache => String::from_str("Failed to create temp directory: "),
                Operation::ExtractRules => String::from_str("Failed to extract rules: "),
                Operation::SetRulesDir => String::from_str("Failed to set rules directory: "),
                Operation::SetLanguage => String::from_str("Failed to set language: "),
                Operation::SetSpeechStyle => String::from_str("Failed to set speech style: "),
                Operation::UpdateSpeechStyle => String::from_str("Failed to update speech style: "),
                Operation::ConvertLatex => String::from_str("Conversion failed: "),
                Operation::SetMathml => String::from_str("Failed to set MathML: "),
                Operation::GetSpokenText => String::from_str("Failed to get speech: "),
            };
            detail.append(d.as_str());
            Err(MathWordsError::new(op.error_kind(), detail))
        },
        Guarded::Panicked => {
            let detail = match op {
                Operation::CreateRulesCache | Operation::ExtractRules => String::from_str("Rules extraction panicked"),
                Operation::SetRulesDir | Operation::SetLanguage
                | Operation::SetSpeechStyle => String::from_str("MathCAT initialization panicked"),
                Operation::UpdateSpeechStyle => String::from_str("Speech style update panicked"),
                Operation::ConvertLatex => String::from_str("LaTeX conversion panicked"),
                Operation::SetMathml | Operation::GetSpokenText => String::from_str("MathML to speech conversion panicked"),
            };
            Err(MathWordsError::new(op.error_kind(), detail))
        },
    }
}

} // verus!
