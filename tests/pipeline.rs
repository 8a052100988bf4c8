use mathwords::boundary::Guarded;
use mathwords::error::{ErrorKind, MathWordsError};
use mathwords::pipeline::{Batch, ConvertCall, Request};

/// Drives a batch against a scripted engine: LaTeX `s` becomes `<math>s</math>`
/// unless it is `fail_latex`, and the spoken text of markup `m` is `said m`.
fn drive(mut batch: Batch, fail_latex: &str, log: &mut Vec<String>) -> Batch {
    let mut loaded = String::new();
    while let Some(call) = batch.next_call() {
        let reply = match call {
            ConvertCall::LatexToMathml(s, block) => {
                log.push(format!("latex {} {}", s, block));
                if s == fail_latex {
                    Guarded::Failed("unexpected token".to_string())
                } else {
                    Guarded::Returned(format!("<math>{}</math>", s))
                }
            },
            ConvertCall::SetMathml(m) => {
                log.push(format!("load {}", m));
                loaded = m;
                Guarded::Returned(String::new())
            },
            ConvertCall::GetSpokenText => {
                log.push("speak".to_string());
                Guarded::Returned(format!("said {}", loaded))
            },
        };
        batch.on_reply(reply);
    }
    batch
}

fn latex(s: &str) -> Request {
    Request { input: s.to_string(), is_mathml: false }
}

#[test]
fn empty_input_is_refused() {
    for s in ["", "   ", "\t\n"] {
        let r = Batch::single(s.to_string(), false, false);
        match r {
            Err(e) => {
                assert_eq!(e.kind(), ErrorKind::Validation);
                assert_eq!(e.detail(), "Input string is empty");
                assert!(e.is_invalid_argument());
            },
            Ok(_) => panic!("blank input accepted"),
        }
    }
}

#[test]
fn empty_batch_is_refused() {
    match Batch::new(Vec::new(), false) {
        Err(e) => assert_eq!(e, MathWordsError::ValidationError("Expression list is empty".to_string())),
        Ok(_) => panic!("empty batch accepted"),
    }
}

#[test]
fn latex_goes_through_both_stages() {
    let mut log = Vec::new();
    let b = drive(Batch::single("x+y".to_string(), false, true).unwrap(), "", &mut log);
    assert_eq!(log, vec!["latex x+y true", "load <math>x+y</math>", "speak"]);
    assert_eq!(b.finish_one(), Ok("said <math>x+y</math>".to_string()));
}

#[test]
fn markup_skips_latex_stage() {
    let mut log = Vec::new();
    let b = drive(Batch::single("<math><mi>x</mi></math>".to_string(), true, false).unwrap(), "", &mut log);
    assert!(log.iter().all(|r| !r.starts_with("latex")));
    assert_eq!(log, vec!["load <math><mi>x</mi></math>", "speak"]);
    assert_eq!(b.finish_one(), Ok("said <math><mi>x</mi></math>".to_string()));
}

#[test]
fn batch_keeps_input_order() {
    let mut log = Vec::new();
    let b = drive(Batch::new(vec![latex("x"), latex("y")], false).unwrap(), "", &mut log);
    let texts = b.finish().unwrap();
    assert_eq!(texts, vec!["said <math>x</math>".to_string(), "said <math>y</math>".to_string()]);
    assert_eq!(log[0], "latex x false");
    assert_eq!(log[3], "latex y false");
}

#[test]
fn batch_mixes_markup_and_latex() {
    let mut log = Vec::new();
    let reqs = vec![latex("a"), Request { input: "<math><mn>2</mn></math>".to_string(), is_mathml: true }];
    let b = drive(Batch::new(reqs, true).unwrap(), "", &mut log);
    assert_eq!(b.finish().unwrap(), vec!["said <math>a</math>".to_string(), "said <math><mn>2</mn></math>".to_string()]);
    assert_eq!(log.len(), 5);
}

#[test]
fn batch_fails_fast() {
    let mut log = Vec::new();
    let b = drive(Batch::new(vec![latex("x"), latex("\\frac{"), latex("z")], false).unwrap(), "\\frac{", &mut log);
    assert!(log.iter().all(|r| !r.contains('z')));
    assert_eq!(log.len(), 4);
    assert_eq!(
        b.finish(),
        Err(MathWordsError::LatexConversionError("Conversion failed: unexpected token".to_string()))
    );
}

#[test]
fn speech_failure_is_mathml_error() {
    let mut b = Batch::single("<math/>".to_string(), true, false).unwrap();
    assert!(matches!(b.next_call(), Some(ConvertCall::SetMathml(_))));
    b.on_reply(Guarded::Returned(String::new()));
    assert!(matches!(b.next_call(), Some(ConvertCall::GetSpokenText)));
    b.on_reply(Guarded::Panicked);
    assert!(b.next_call().is_none());
    assert_eq!(
        b.finish_one(),
        Err(MathWordsError::MathMLConversionError("MathML to speech conversion panicked".to_string()))
    );
}

#[test]
fn load_failure_is_mathml_error() {
    let mut b = Batch::single("<mth>".to_string(), true, false).unwrap();
    b.on_reply(Guarded::Failed("parse error".to_string()));
    assert!(b.next_call().is_none());
    assert_eq!(
        b.finish_one(),
        Err(MathWordsError::MathMLConversionError("Failed to set MathML: parse error".to_string()))
    );
}
