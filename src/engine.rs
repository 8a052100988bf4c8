use vstd::prelude::*;
use vstd::string::StringExecFns;
use crate::boundary::{contain, contained, Guarded, Operation};
use crate::error::MathWordsError;

verus! {

/// The speech styles that the library knows by name; the engine may define
/// more, and a style is handed to it as given.
pub open spec fn known_styles() -> Seq<Seq<char>> {
    seq!["ClearSpeak"@, "SimpleSpeak"@]
}

/// The names of the speech styles that the library offers, in this order.
pub fn get_speech_styles() -> (r: Vec<String>)
    ensures
        r@.map_values(|s: String| s@) == known_styles(),
{
    let r = vec![String::from_str("ClearSpeak"), String::from_str("SimpleSpeak")];
    assert(r@.map_values(|s: String| s@) =~= known_styles());
    r
}

/// A call that sets the engine up: resolving the rules directory, which may
/// extract the bundled rules, or one of the engine's configuration calls.
#[derive(Clone, Debug)]
pub enum EngineCall {
    ResolveRules,
    SetRulesDir(String),
    SetPreference(String, String),
}

/// An [`EngineCall`] with its texts as sequences of characters.
pub enum CallView {
    ResolveRules,
    SetRulesDir(Seq<char>),
    SetPreference(Seq<char>, Seq<char>),
}

impl View for EngineCall {
    type V = CallView;

    open spec fn view(&self) -> CallView {
        match self {
            EngineCall::ResolveRules => CallView::ResolveRules,
            EngineCall::SetRulesDir(d) => CallView::SetRulesDir(d@),
            EngineCall::SetPreference(n, v) => CallView::SetPreference(n@, v@),
        }
    }
}

/// The preference call that makes `style` the active speech style.
pub open spec fn style_call(style: Seq<char>) -> CallView {
    CallView::SetPreference("SpeechStyle"@, style)
}

/// The calls of a full initialization: resolve the rules directory, hand it
/// to the engine, then set the language and the speech style.
pub open spec fn full_calls(dir: Seq<char>, style: Seq<char>) -> Seq<CallView> {
    seq![
        CallView::ResolveRules,
        CallView::SetRulesDir(dir),
        CallView::SetPreference("Language"@, "en"@),
        style_call(style),
    ]
}

/// Whether a setup begun on an engine in this state is a full initialization.
pub open spec fn starts_full(ready: bool) -> bool {
    !ready
}

/// Whether the engine is ready after a setup that did (`ok`) or did not
/// succeed: readiness, once reached, is never lost.
pub open spec fn ready_after(ready: bool, ok: bool) -> bool {
    ready || ok
}

/// Whether the speech engine has been initialized. One value of this type
/// stands for the process's engine, behind a lock held for a whole setup.
#[derive(Debug)]
pub struct EngineState {
    ready: bool,
}

impl EngineState {
    pub closed spec fn spec_is_ready(&self) -> bool {
        self.ready
    }

    /// An engine that has not been initialized.
    pub fn new() -> (r: EngineState)
        ensures
            !r.spec_is_ready(),
    {
        EngineState { ready: false }
    }

    #[verifier::when_used_as_spec(spec_is_ready)]
    pub fn is_ready(&self) -> (r: bool)
        ensures
            r == self.spec_is_ready(),
    {
        self.ready
    }

    /// Begins making the engine ready for `style`: a full initialization if it
    /// is not ready yet, otherwise only an update of the speech style.
    pub fn begin(&self, style: &str) -> (r: Setup)
        ensures
            r.wf(),
            r.style() == style@,
            r.is_full() == starts_full(self.spec_is_ready()),
            r.steps_done() == 0,
            r.failure() is None,
    {
        Setup {
            style: style.to_string(),
            full: !self.ready,
            step: 0,
            dir: String::new(),
            failure: None,
        }
    }
}

/// One run of making the engine ready: the calls still to make, and the first
/// failure, which ends the run.
#[derive(Debug)]
pub struct Setup {
    style: String,
    full: bool,
    step: usize,
    dir: String,
    failure: Option<MathWordsError>,
}

impl Setup {
    pub closed spec fn style(&self) -> Seq<char> {
        self.style@
    }

    pub closed spec fn is_full(&self) -> bool {
        self.full
    }

    /// How many calls have been made and have succeeded.
    pub closed spec fn steps_done(&self) -> nat {
        self.step as nat
    }

    /// The rules directory, once it has been resolved.
    pub closed spec fn rules_dir(&self) -> Seq<char> {
        self.dir@
    }

    pub closed spec fn failure(&self) -> Option<MathWordsError> {
        self.failure
    }

    /// Every call of the run, in order.
    pub open spec fn calls(&self) -> Seq<CallView> {
        if self.is_full() {
            full_calls(self.rules_dir(), self.style())
        } else {
            seq![style_call(self.style())]
        }
    }

    pub open spec fn wf(&self) -> bool {
        self.steps_done() <= self.calls().len()
    }

    /// The run has nothing more to ask: a call failed, or all succeeded.
    pub open spec fn finished(&self) -> bool {
        self.failure() is Some || self.steps_done() == self.calls().len()
    }

    /// The operation whose failure the next engine call would report.
    pub open spec fn operation(&self) -> Operation {
        if !self.is_full() {
            Operation::UpdateSpeechStyle
        } else if self.steps_done() == 1 {
            Operation::SetRulesDir
        } else if self.steps_done() == 2 {
            Operation::SetLanguage
        } else {
            Operation::SetSpeechStyle
        }
    }

    /// The next call to make, or `None` when the run is over.
    pub fn next_call(&self) -> (r: Option<EngineCall>)
        requires
            self.wf(),
        ensures
            r is None <==> self.finished(),
            r is Some ==> r->Some_0@ == self.calls()[self.steps_done() as int],
    {
        if self.failure.is_some() {
            return None;
        }
        if !self.full {
            if self.step == 0 {
                Some(EngineCall::SetPreference(String::from_str("SpeechStyle"), self.style.clone()))
            } else {
                None
            }
        } else if self.step == 0 {
            Some(EngineCall::ResolveRules)
        } else if self.step == 1 {
            Some(EngineCall::SetRulesDir(self.dir.clone()))
        } else if self.step == 2 {
            Some(EngineCall::SetPreference(String::from_str("Language"), String::from_str("en")))
        } else if self.step == 3 {
            Some(EngineCall::SetPreference(String::from_str("SpeechStyle"), self.style.clone()))
        } else {
            None
        }
    }

    /// Takes the outcome of resolving the rules directory: the directory, or
    /// the error that ends the run.
    pub fn on_rules(&mut self, resolved: Result<String, MathWordsError>)
        requires
            old(self).wf(),
            !old(self).finished(),
            old(self).is_full(),
            old(self).steps_done() == 0,
        ensures
            final(self).wf(),
            final(self).style() == old(self).style(),
            final(self).is_full(),
            match resolved {
                Ok(d) => {
                    &&& final(self).steps_done() == 1
                    &&& final(self).rules_dir() == d@
                    &&& final(self).failure() is None
                },
                Err(e) => {
                    &&& final(self).steps_done() == 0
                    &&& final(self).failure() == Some(e)
                },
            },
    {
        match resolved {
            Ok(d) => {
                self.dir = d;
                self.step = 1;
            },
            Err(e) => {
                self.failure = Some(e);
            },
        }
    }

    /// Takes what came of the engine call that `next_call` asked for.
    pub fn on_reply(&mut self, outcome: Guarded)
        requires
            old(self).wf(),
            !old(self).finished(),
            !(old(self).is_full() && old(self).steps_done() == 0),
        ensures
            final(self).wf(),
            final(self).style() == old(self).style(),
            final(self).is_full() == old(self).is_full(),
            final(self).rules_dir() == old(self).rules_dir(),
            outcome is Returned ==> {
                &&& final(self).steps_done() == old(self).steps_done() + 1
                &&& final(self).failure() is None
            },
            !(outcome is Returned) ==> {
                &&& final(self).steps_done() == old(self).steps_done()
                &&& final(self).failure() is Some
                &&& contained(old(self).operation(), outcome, final(self).failure()->Some_0)
            },
    {
        let op = if !self.full {
            Operation::UpdateSpeechStyle
        } else if self.step == 1 {
            Operation::SetRulesDir
        } else if self.step == 2 {
            Operation::SetLanguage
        } else {
            Operation::SetSpeechStyle
        };
        match contain(op, outcome) {
            Ok(_) => {
                self.step = self.step + 1;
            },
            Err(e) => {
                self.failure = Some(e);
            },
        }
    }

    /// Ends the run: on success the engine is ready; on failure it stays as it
    /// was, so that a later setup may try again, and the failure is returned.
    pub fn finish(self, engine: &mut EngineState) -> (r: Result<(), MathWordsError>)
        requires
            self.wf(),
            self.finished(),
        ensures
            r is Ok <==> self.failure() is None,
            r is Err ==> r->Err_0 == self.failure()->Some_0,
            final(engine).spec_is_ready() == ready_after(old(engine).spec_is_ready(), r is Ok),
    {
        match self.failure {
            None => {
                engine.ready = true;
                Ok(())
            },
            Some(e) => Err(e),
        }
    }
}

/// How many of `n` successive successful setups, the first begun on an engine
/// that is (`ready`) or is not ready, are full initializations.
pub open spec fn full_setups(ready: bool, n: nat) -> nat
    decreases n,
{
    if n == 0 {
        0
    } else {
        (if starts_full(ready) { 1nat } else { 0nat }) + full_setups(ready_after(ready, true), (n - 1) as nat)
    }
}

/// Making the engine ready `n` times performs exactly one full initialization,
/// and the other `n - 1` setups are style updates.
pub proof fn lemma_single_initialization(n: nat)
    requires
        n >= 1,
    ensures
        full_setups(false, n) == 1,
        n - full_setups(false, n) == n - 1,
    decreases n,
{
    lemma_ready_never_reinitializes((n - 1) as nat);
}

/// Once the engine is ready, no later successful setup is a full one.
pub proof fn lemma_ready_never_reinitializes(n: nat)
    ensures
        full_setups(true, n) == 0,
    decreases n,
{
    if n > 0 {
        lemma_ready_never_reinitializes((n - 1) as nat);
    }
}

/// A setup of a ready engine makes one call, the speech-style update: it
/// neither resolves (so never extracts) the rules nor hands them to the engine.
pub proof fn lemma_update_only(engine: EngineState, style: Seq<char>, s: Setup)
    requires
        engine.spec_is_ready(),
        s.is_full() == starts_full(engine.spec_is_ready()),
        s.style() == style,
    ensures
        s.calls() == seq![style_call(style)],
        !s.calls().contains(CallView::ResolveRules),
{
    assert(s.calls()[0] != CallView::ResolveRules);
}

} // verus!
