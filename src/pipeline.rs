use vstd::prelude::*;
use vstd::string::StringExecFns;
use crate::boundary::{contain, contained, Guarded, Operation};
use crate::error::{ErrorKind, MathWordsError};
use crate::text::{blank, is_blank};

verus! {

/// One expression to speak: LaTeX source, or MathML markup when `is_mathml`.
#[derive(Clone, Debug)]
pub struct Request {
    pub input: String,
    pub is_mathml: bool,
}

/// A call into the engines that a conversion asks for.
#[derive(Clone, Debug)]
pub enum ConvertCall {
    /// Convert LaTeX to MathML, as a block equation when the flag is set.
    LatexToMathml(String, bool),
    /// Load MathML into the speech engine.
    SetMathml(String),
    /// Read the spoken text of the loaded MathML.
    GetSpokenText,
}

/// A [`ConvertCall`] with its texts as sequences of characters.
pub enum ConvertView {
    LatexToMathml(Seq<char>, bool),
    SetMathml(Seq<char>),
    GetSpokenText,
}

impl View for ConvertCall {
    type V = ConvertView;

    open spec fn view(&self) -> ConvertView {
        match self {
            ConvertCall::LatexToMathml(s, d) => ConvertView::LatexToMathml(s@, *d),
            ConvertCall::SetMathml(s) => ConvertView::SetMathml(s@),
            ConvertCall::GetSpokenText => ConvertView::GetSpokenText,
        }
    }
}

/// How far the conversion of the current expression has come.
#[derive(Clone, Copy, Debug, PartialEq, Eq, Structural)]
pub enum Stage {
    /// Nothing done yet.
    Start,
    /// LaTeX converted; the markup is to be loaded.
    Loading,
    /// Markup loaded; the spoken text is to be read.
    Speaking,
}

/// The conversion of a sequence of expressions that share a speech style and
/// a display mode, one at a time and in order. The first failure ends it.
#[derive(Debug)]
pub struct Batch {
    requests: Vec<Request>,
    display: bool,
    index: usize,
    stage: Stage,
    markup: String,
    results: Vec<String>,
    failure: Option<MathWordsError>,
}

impl Batch {
    pub closed spec fn requests(&self) -> Seq<Request> {
        self.requests@
    }

    pub closed spec fn display(&self) -> bool {
        self.display
    }

    /// The position of the expression under way.
    pub closed spec fn index(&self) -> nat {
        self.index as nat
    }

    pub closed spec fn stage(&self) -> Stage {
        self.stage
    }

    /// The markup that LaTeX conversion gave for the current expression.
    pub closed spec fn markup(&self) -> Seq<char> {
        self.markup@
    }

    /// The spoken texts gathered so far, one for each expression done.
    pub closed spec fn results(&self) -> Seq<Seq<char>> {
        self.results@.map_values(|s: String| s@)
    }

    pub closed spec fn failure(&self) -> Option<MathWordsError> {
        self.failure
    }

    pub open spec fn current(&self) -> Request {
        self.requests()[self.index() as int]
    }

    pub open spec fn wf(&self) -> bool {
        &&& self.requests().len() > 0
        &&& self.index() <= self.requests().len()
        &&& self.results().len() == self.index()
        &&& (self.stage() != Stage::Start || self.failure() is Some) ==> self.index() < self.requests().len()
        &&& self.stage() == Stage::Loading ==> !self.current().is_mathml
    }

    /// Nothing more to ask: an expression failed, or all are spoken.
    pub open spec fn finished(&self) -> bool {
        self.failure() is Some || self.index() == self.requests().len()
    }

    /// The call that the current expression needs next. Markup goes straight
    /// to the speech engine; LaTeX is converted first.
    pub open spec fn pending(&self) -> ConvertView {
        match self.stage() {
            Stage::Start => if self.current().is_mathml {
                ConvertView::SetMathml(self.current().input@)
            } else {
                ConvertView::LatexToMathml(self.current().input@, self.display())
            },
            Stage::Loading => ConvertView::SetMathml(self.markup()),
            Stage::Speaking => ConvertView::GetSpokenText,
        }
    }

    /// The operation that a failure of the pending call is reported as.
    pub open spec fn operation(&self) -> Operation {
        match self.pending() {
            ConvertView::LatexToMathml(_, _) => Operation::ConvertLatex,
            ConvertView::SetMathml(_) => Operation::SetMathml,
            ConvertView::GetSpokenText => Operation::GetSpokenText,
        }
    }

    /// The state of a batch that has not begun.
    pub open spec fn fresh(&self, requests: Seq<Request>, display: bool) -> bool {
        &&& self.wf()
        &&& self.requests() == requests
        &&& self.display() == display
        &&& self.index() == 0
        &&& self.stage() == Stage::Start
        &&& self.failure() is None
    }

    /// A batch of the given expressions; an empty list is refused.
    pub fn new(requests: Vec<Request>, display: bool) -> (r: Result<Batch, MathWordsError>)
        ensures
            r is Err <==> requests@.len() == 0,
            r is Err ==> r->Err_0.spec_kind() == ErrorKind::Validation
                && r->Err_0.spec_detail() == "Expression list is empty"@,
            r is Ok ==> r->Ok_0.fresh(requests@, display),
    {
        if requests.len() == 0 {
            return Err(MathWordsError::new(ErrorKind::Validation, String::from_str("Expression list is empty")));
        }
        let b = Batch {
            requests,
            display,
            index: 0,
            stage: Stage::Start,
            markup: String::new(),
            results: Vec::new(),
            failure: None,
        };
        assert(b.results() =~= Seq::<Seq<char>>::empty());
        Ok(b)
    }

    /// The conversion of a single expression; an empty or blank input is
    /// refused before anything else happens.
    pub fn single(input: String, is_mathml: bool, display: bool) -> (r: Result<Batch, MathWordsError>)
        ensures
            r is Err <==> blank(input@),
            r is Err ==> r->Err_0.spec_kind() == ErrorKind::Validation
                && r->Err_0.spec_detail() == "Input string is empty"@,
            r is Ok ==> r->Ok_0.fresh(seq![Request { input, is_mathml }], display),
    {
        if is_blank(input.as_str()) {
            return Err(MathWordsError::new(ErrorKind::Validation, String::from_str("Input string is empty")));
        }
        let ghost req = Request { input, is_mathml };
        let requests = vec![Request { input, is_mathml }];
        assert(requests@ =~= seq![req]);
        let r = Batch::new(requests, display);
        r
    }

    /// The next call to make, or `None` when the batch is over.
    pub fn next_call(&self) -> (r: Option<ConvertCall>)
        requires
            self.wf(),
        ensures
            r is None <==> self.finished(),
            r is Some ==> r->Some_0@ == self.pending(),
    {
        if self.failure.is_some() || self.index >= self.requests.len() {
            return None;
        }
        match self.stage {
            Stage::Start => {
                let req = &self.requests[self.index];
                if req.is_mathml {
                    Some(ConvertCall::SetMathml(req.input.clone()))
                } else {
                    Some(ConvertCall::LatexToMathml(req.input.clone(), self.display))
                }
            },
            Stage::Loading => Some(ConvertCall::SetMathml(self.markup.clone())),
            Stage::Speaking => Some(ConvertCall::GetSpokenText),
        }
    }

    /// Takes what came of the call that `next_call` asked for. A failure or an
    /// abort ends the batch; a spoken text completes the current expression.
    pub fn on_reply(&mut self, outcome: Guarded)
        requires
            old(self).wf(),
            !old(self).finished(),
        ensures
            final(self).wf(),
            final(self).requests() == old(self).requests(),
            final(self).display() == old(self).display(),
            !(outcome is Returned) ==> {
                &&& final(self).failure() is Some
                &&& contained(old(self).operation(), outcome, final(self).failure()->Some_0)
                &&& final(self).index() == old(self).index()
                &&& final(self).results() == old(self).results()
            },
            outcome is Returned ==> final(self).failure() is None,
            outcome is Returned && old(self).pending() is LatexToMathml ==> {
                &&& final(self).stage() == Stage::Loading
                &&& final(self).markup() == outcome->Returned_0@
                &&& final(self).index() == old(self).index()
                &&& final(self).results() == old(self).results()
            },
            outcome is Returned && old(self).pending() is SetMathml ==> {
                &&& final(self).stage() == Stage::Speaking
                &&& final(self).index() == old(self).index()
                &&& final(self).results() == old(self).results()
            },
            outcome is Returned && old(self).pending() is GetSpokenText ==> {
                &&& final(self).stage() == Stage::Start
                &&& final(self).index() == old(self).index() + 1
                &&& final(self).results() == old(self).results().push(outcome->Returned_0@)
            },
    {
        assert(self.index < self.requests.len());
        let op = match self.stage {
            Stage::Start => if self.requests[self.index].is_mathml {
                Operation::SetMathml
            } else {
                Operation::ConvertLatex
            },
            Stage::Loading => Operation::SetMathml,
            Stage::Speaking => Operation::GetSpokenText,
        };
        match contain(op, outcome) {
            Err(e) => {
                self.failure = Some(e);
            },
            Ok(v) => {
                match op {
                    Operation::ConvertLatex => {
                        self.markup = v;
                        self.stage = Stage::Loading;
                    },
                    Operation::SetMathml => {
                        self.stage = Stage::Speaking;
                    },
                    _ => {
                        let ghost before = self.results@;
                        self.results.push(v);
                        assert(self.results@.map_values(|s: String| s@) =~= before.map_values(
                            |s: String| s@,
                        ).push(outcome->Returned_0@));
                        self.index = self.index + 1;
                        self.stage = Stage::Start;
                    },
                }
            },
        }
    }

    /// Ends the batch: the first failure, or the spoken texts in the order of
    /// the expressions, one for each.
    pub fn finish(self) -> (r: Result<Vec<String>, MathWordsError>)
        requires
            self.wf(),
            self.finished(),
        ensures
            r is Err <==> self.failure() is Some,
            r is Err ==> r->Err_0 == self.failure()->Some_0,
            r is Ok ==> r->Ok_0@.map_values(|s: String| s@) == self.results()
                && r->Ok_0@.len() == self.requests().len(),
    {
        match self.failure {
            Some(e) => Err(e),
            None => Ok(self.results),
        }
    }

    /// Ends a batch of one expression with its spoken text, or its failure.
    pub fn finish_one(self) -> (r: Result<String, MathWordsError>)
        requires
            self.wf(),
            self.finished(),
            self.requests().len() == 1,
        ensures
            r is Err <==> self.failure() is Some,
            r is Err ==> r->Err_0 == self.failure()->Some_0,
            r is Ok ==> r->Ok_0@ == self.results()[0],
    {
        let ghost texts = self.results();
        match self.finish() {
            Err(e) => Err(e),
            Ok(mut v) => {
                assert(v@.map_values(|s: String| s@)[0] == texts[0]);
                let t = v.swap_remove(0);
                Ok(t)
            },
        }
    }
}

/// A batch stops at its first failure: nothing more is asked of the engines,
/// and no spoken text is kept for the failing expression or any after it.
pub proof fn lemma_fail_fast(b: Batch)
    requires
        b.wf(),
        b.failure() is Some,
    ensures
        b.finished(),
        b.results().len() == b.index(),
        b.index() < b.requests().len(),
{
}

/// Markup is never handed to the LaTeX converter: every call made for a
/// MathML expression goes to the speech engine.
pub proof fn lemma_markup_skips_latex(b: Batch)
    requires
        b.wf(),
        !b.finished(),
        b.current().is_mathml,
    ensures
        !(b.pending() is LatexToMathml),
{
}

} // verus!
