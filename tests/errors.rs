use mathwords::boundary::{contain, Guarded, Operation};
use mathwords::error::{ErrorKind, MathWordsError};

#[test]
fn messages_carry_kind_heading() {
    let cases = vec![
        (MathWordsError::InitializationError("x".to_string()), "Failed to initialize MathCAT: x"),
        (MathWordsError::LatexConversionError("x".to_string()), "Failed to convert LaTeX to MathML: x"),
        (MathWordsError::MathMLConversionError("x".to_string()), "Failed to convert MathML to speech: x"),
        (MathWordsError::ValidationError("x".to_string()), "Invalid input: x"),
        (MathWordsError::ResourceError("x".to_string()), "Resource error: x"),
    ];
    for (e, m) in cases {
        assert_eq!(e.message(), m);
        assert_eq!(e.detail(), "x");
    }
}

#[test]
fn only_validation_is_invalid_argument() {
    assert!(MathWordsError::ValidationError("e".to_string()).is_invalid_argument());
    assert!(!MathWordsError::ResourceError("e".to_string()).is_invalid_argument());
    assert!(!MathWordsError::InitializationError("e".to_string()).is_invalid_argument());
    let e = MathWordsError::new(ErrorKind::LatexConversion, "d".to_string());
    assert_eq!(e.kind(), ErrorKind::LatexConversion);
    assert_eq!(e, MathWordsError::LatexConversionError("d".to_string()));
}

#[test]
fn returned_value_passes_through() {
    let r = contain(Operation::GetSpokenText, Guarded::Returned("x plus y".to_string()));
    assert_eq!(r, Ok("x plus y".to_string()));
}

#[test]
fn failure_is_prefixed_by_operation() {
    let r = contain(Operation::SetRulesDir, Guarded::Failed("NotFound".to_string()));
    assert_eq!(r, Err(MathWordsError::InitializationError("Failed to set rules directory: NotFound".to_string())));
    let r = contain(Operation::ConvertLatex, Guarded::Failed("bad".to_string()));
    assert_eq!(r, Err(MathWordsError::LatexConversionError("Conversion failed: bad".to_string())));
    let r = contain(Operation::GetSpokenText, Guarded::Failed("no".to_string()));
    assert_eq!(r, Err(MathWordsError::MathMLConversionError("Failed to get speech: no".to_string())));
    let r = contain(Operation::ExtractRules, Guarded::Failed("denied".to_string()));
    assert_eq!(r, Err(MathWordsError::ResourceError("Failed to extract rules: denied".to_string())));
    let r = contain(Operation::CreateRulesCache, Guarded::Failed("denied".to_string()));
    assert_eq!(r, Err(MathWordsError::ResourceError("Failed to create temp directory: denied".to_string())));
}

#[test]
fn abort_becomes_typed_error() {
    let r = contain(Operation::SetLanguage, Guarded::Panicked);
    assert_eq!(r, Err(MathWordsError::InitializationError("MathCAT initialization panicked".to_string())));
    let r = contain(Operation::UpdateSpeechStyle, Guarded::Panicked);
    assert_eq!(r, Err(MathWordsError::InitializationError("Speech style update panicked".to_string())));
    let r = contain(Operation::ConvertLatex, Guarded::Panicked);
    assert_eq!(r, Err(MathWordsError::LatexConversionError("LaTeX conversion panicked".to_string())));
    let r = contain(Operation::SetMathml, Guarded::Panicked);
    assert_eq!(r, Err(MathWordsError::MathMLConversionError("MathML to speech conversion panicked".to_string())));
}
