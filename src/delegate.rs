use vstd::prelude::*;

use crate::bridge::{settle, HostReply, Operation, threw_message, malformed_message};
use crate::diagnostic::{diag, Diagnostic, DiagnosticView};

verus! {

/// The texts of a list of strings.
pub open spec fn texts(v: Seq<String>) -> Seq<Seq<char>> {
    v.map_values(|s: String| s@)
}

/// A copy of a list of strings.
pub fn copy_strings(v: &Vec<String>) -> (r: Vec<String>)
    ensures
        texts(r@) == texts(v@),
{
    let mut r: Vec<String> = Vec::new();
    let mut i: usize = 0;
    while i < v.len()
        invariant
            i <= v@.len(),
            texts(r@) =~= texts(v@.subrange(0, i as int)),
        decreases v.len() - i,
    {
        let ghost before = r@;
        r.push(v[i].clone());
        assert(texts(v@.subrange(0, i + 1)) =~= texts(v@.subrange(0, i as int)).push(v@[i as int]@));
        assert(texts(r@) =~= texts(before).push(v@[i as int]@));
        i = i + 1;
    }
    assert(v@.subrange(0, v@.len() as int) =~= v@);
    r
}

/// Whether host-side initialisation has run, and what it produced.
#[derive(Debug)]
pub enum InitState {
    Pending,
    Ready(Vec<String>),
    Failed(Diagnostic),
}

/// The facade over the four host operations. It holds the one piece of state
/// that the operations share: whether initialisation has run, and its outcome.
#[derive(Debug)]
pub struct ExternalDelegate {
    state: InitState,
}

/// What to do for a request to initialise.
#[derive(Debug)]
pub enum InitStep {
    /// Ask the host to initialise with this many threads.
    CallHost(usize),
    /// Initialisation already ran: this is its outcome.
    Cached(Result<Vec<String>, Diagnostic>),
}

/// The outcome of an initialisation, as text: the plugin names, or the failure.
pub type InitOutcome = Result<Seq<Seq<char>>, DiagnosticView>;

pub open spec fn outcome_view(r: Result<Vec<String>, Diagnostic>) -> InitOutcome {
    match r {
        Ok(v) => Ok(texts(v@)),
        Err(d) => Err(d@),
    }
}

/// A step of initialisation, as text.
pub enum InitStepView {
    CallHost(usize),
    Cached(InitOutcome),
}

pub open spec fn init_step_view(s: InitStep) -> InitStepView {
    match s {
        InitStep::CallHost(n) => InitStepView::CallHost(n),
        InitStep::Cached(r) => InitStepView::Cached(outcome_view(r)),
    }
}

/// The step that a request to initialise takes, given the recorded outcome.
pub open spec fn planned_step(cached: Option<InitOutcome>, thread_count: usize) -> InitStepView {
    match cached {
        None => InitStepView::CallHost(thread_count),
        Some(o) => InitStepView::Cached(o),
    }
}

/// The outcome that a reply to initialisation stands for.
pub open spec fn reply_outcome(reply: HostReply<Vec<String>>) -> InitOutcome {
    match reply {
        HostReply::Answered(v) => Ok(texts(v@)),
        HostReply::Threw(t) => Err(diag(threw_message(Operation::InitExternalFormatter, t@), None)),
        HostReply::Malformed(t) => Err(
            diag(malformed_message(Operation::InitExternalFormatter, t@), None),
        ),
    }
}

/// The recorded outcome once a reply is recorded: the first reply is kept,
/// whether it succeeded or failed.
pub open spec fn cached_after(cached: Option<InitOutcome>, reply: HostReply<Vec<String>>) -> Option<
    InitOutcome,
> {
    match cached {
        Some(o) => Some(o),
        None => Some(reply_outcome(reply)),
    }
}

fn copy_outcome(state: &InitState) -> (r: Result<Vec<String>, Diagnostic>)
    requires
        !(state is Pending),
    ensures
        match state {
            InitState::Ready(names) => outcome_view(r) == Ok::<Seq<Seq<char>>, DiagnosticView>(
                texts(names@),
            ),
            InitState::Failed(d) => outcome_view(r) == Err::<Seq<Seq<char>>, DiagnosticView>(d@),
            InitState::Pending => true,
        },
{
    match state {
        InitState::Ready(names) => Ok(copy_strings(names)),
        InitState::Failed(d) => Err(d.copy()),
        InitState::Pending => Ok(Vec::new()),
    }
}

impl ExternalDelegate {
    /// The outcome of initialisation, once it has run.
    pub closed spec fn cached(&self) -> Option<InitOutcome> {
        match self.state {
            InitState::Pending => None,
            InitState::Ready(names) => Some(Ok(texts(names@))),
            InitState::Failed(d) => Some(Err(d@)),
        }
    }

    /// A delegate that has not initialised yet.
    pub fn new() -> (r: ExternalDelegate)
        ensures
            r.cached().is_none(),
    {
        ExternalDelegate { state: InitState::Pending }
    }

    /// Whether initialisation has run, successfully or not.
    pub fn is_initialized(&self) -> (r: bool)
        ensures
            r == self.cached().is_some(),
    {
        !matches!(self.state, InitState::Pending)
    }

    /// Decides how to serve a request to initialise: the host is called only
    /// while initialisation has not run.
    pub fn init_step(&self, thread_count: usize) -> (r: InitStep)
        ensures
            init_step_view(r) == planned_step(self.cached(), thread_count),
    {
        match &self.state {
            InitState::Pending => InitStep::CallHost(thread_count),
            _ => InitStep::Cached(copy_outcome(&self.state)),
        }
    }

    /// Records what the host answered to a request to initialise. The first
    /// reply is kept, success or failure; once one is kept, later replies change
    /// nothing and the kept outcome is returned.
    pub fn record_init(&mut self, reply: HostReply<Vec<String>>) -> (r: Result<
        Vec<String>,
        Diagnostic,
    >)
        ensures
            final(self).cached() == cached_after(old(self).cached(), reply),
            final(self).cached() == Some(outcome_view(r)),
    {
        if !matches!(self.state, InitState::Pending) {
            return copy_outcome(&self.state);
        }
        match settle(Operation::InitExternalFormatter, reply) {
            Ok(names) => {
                let out = copy_strings(&names);
                self.state = InitState::Ready(names);
                Ok(out)
            },
            Err(d) => {
                let out = d.copy();
                self.state = InitState::Failed(d);
                Err(out)
            },
        }
    }
}

/// The answer of a delegated operation, or the original input when the
/// operation failed, together with the failure's diagnostic.
pub fn answer_or_original<T>(op: Operation, original: T, reply: HostReply<T>) -> (r: (
    T,
    Option<Diagnostic>,
))
    ensures
        fallback_spec(op, original, reply, r),
{
    match settle(op, reply) {
        Ok(v) => (v, None),
        Err(d) => (original, Some(d)),
    }
}

/// What a delegated operation yields: the host's answer, or else the original
/// input together with the failure's diagnostic.
pub open spec fn fallback_spec<T>(op: Operation, original: T, reply: HostReply<T>, r: (
    T,
    Option<Diagnostic>,
)) -> bool {
    match reply {
        HostReply::Answered(v) => r.0 == v && r.1.is_none(),
        HostReply::Threw(t) => r.0 == original && (r.1 matches Some(d) && d@ == diag(
            threw_message(op, t@),
            None,
        )),
        HostReply::Malformed(t) => r.0 == original && (r.1 matches Some(d) && d@ == diag(
            malformed_message(op, t@),
            None,
        )),
    }
}

/// Embedded code after the host formatted it; the code unchanged, with the
/// failure's diagnostic, if it failed.
pub fn format_embedded_or_original(code: String, reply: HostReply<String>) -> (r: (
    String,
    Option<Diagnostic>,
))
    ensures
        fallback_spec(Operation::FormatEmbedded, code, reply, r),
{
    answer_or_original(Operation::FormatEmbedded, code, reply)
}

/// A whole file after the host formatted it; the file unchanged, with the
/// failure's diagnostic, if it failed.
pub fn format_file_or_original(code: String, reply: HostReply<String>) -> (r: (
    String,
    Option<Diagnostic>,
))
    ensures
        fallback_spec(Operation::FormatFile, code, reply, r),
{
    answer_or_original(Operation::FormatFile, code, reply)
}

/// Classes in the host's sorted order; the original order, with the failure's
/// diagnostic, if sorting failed.
pub fn sort_classes_or_original(classes: Vec<String>, reply: HostReply<Vec<String>>) -> (r: (
    Vec<String>,
    Option<Diagnostic>,
))
    ensures
        fallback_spec(Operation::SortTailwindClasses, classes, reply, r),
{
    answer_or_original(Operation::SortTailwindClasses, classes, reply)
}

} // verus!
