//! The guest runtime host: one request, one fresh guest instance, one call
//! of its entry point. Standing the instance up and waiting for the call are
//! done outside; the session says what is to be done next and what comes of
//! each answer.

use vstd::prelude::*;
use crate::boundary::{ContextView, IsolationContext};
use crate::shim::{ExecutionOutcome, OutcomeView};

verus! {

/// A fault of the boundary itself, as opposed to a script that failed.
#[derive(Debug, PartialEq, Eq)]
pub enum HostError {
    /// The guest instance could not be stood up.
    Instantiation(String),
    /// The guest instance trapped or aborted instead of returning.
    Trap(String),
}

/// A host error as contracts speak of it.
pub enum HostErrorView {
    Instantiation(Seq<char>),
    Trap(Seq<char>),
}

impl View for HostError {
    type V = HostErrorView;

    open spec fn view(&self) -> HostErrorView {
        match self {
            HostError::Instantiation(m) => HostErrorView::Instantiation(m@),
            HostError::Trap(m) => HostErrorView::Trap(m@),
        }
    }
}

impl HostError {
    /// What went wrong, in words.
    pub fn message(&self) -> (m: &str)
        ensures
            m@ == match self@ {
                HostErrorView::Instantiation(text) => text,
                HostErrorView::Trap(text) => text,
            },
    {
        match self {
            HostError::Instantiation(m) => m.as_str(),
            HostError::Trap(m) => m.as_str(),
        }
    }
}

/// How far a session has come.
#[derive(Clone, Copy, Debug, PartialEq, Eq, Structural)]
pub enum SessionPhase {
    /// Nothing has been done yet.
    Created,
    /// The guest instance is being stood up.
    Instantiating,
    /// The entry point has been called and has not returned yet.
    Invoking,
    /// The result has been handed out.
    Finished,
}

/// What is reported back to the session.
#[derive(Debug, PartialEq, Eq)]
pub enum SessionEvent {
    /// The request has come in.
    Start,
    /// The guest instance stands.
    Instantiated,
    /// The guest instance could not be stood up; the text says why.
    InstantiationFailed(String),
    /// The entry point returned this result.
    Returned(Result<String, String>),
    /// The guest trapped or aborted; the text says how.
    Trapped(String),
}

/// An event as contracts speak of it.
pub enum SessionEventView {
    Start,
    Instantiated,
    InstantiationFailed(Seq<char>),
    Returned(OutcomeView),
    Trapped(Seq<char>),
}

/// The outcome that a result of the entry point stands for.
pub open spec fn outcome_of(result: Result<String, String>) -> OutcomeView {
    match result {
        Ok(output) => OutcomeView::Success(output@),
        Err(message) => OutcomeView::Failure(message@),
    }
}

impl View for SessionEvent {
    type V = SessionEventView;

    open spec fn view(&self) -> SessionEventView {
        match self {
            SessionEvent::Start => SessionEventView::Start,
            SessionEvent::Instantiated => SessionEventView::Instantiated,
            SessionEvent::InstantiationFailed(m) => SessionEventView::InstantiationFailed(m@),
            SessionEvent::Returned(result) => SessionEventView::Returned(outcome_of(*result)),
            SessionEvent::Trapped(m) => SessionEventView::Trapped(m@),
        }
    }
}

/// What the session asks to be done next.
#[derive(Debug, PartialEq, Eq)]
pub enum SessionAction {
    /// Make a store of its own for this request, with an empty resource
    /// table and this context, and stand up a new guest instance in it.
    Instantiate(IsolationContext),
    /// Call the guest's entry point with the script and wait for it.
    Invoke { script: String },
    /// Tear the instance and its store down and return this; the session is
    /// done.
    Finish(Result<ExecutionOutcome, HostError>),
}

/// An action as contracts speak of it.
pub enum SessionActionView {
    Instantiate(ContextView),
    Invoke { script: Seq<char> },
    Finish(Result<OutcomeView, HostErrorView>),
}

impl View for SessionAction {
    type V = SessionActionView;

    open spec fn view(&self) -> SessionActionView {
        match self {
            SessionAction::Instantiate(context) => SessionActionView::Instantiate(context@),
            SessionAction::Invoke { script } => SessionActionView::Invoke { script: script@ },
            SessionAction::Finish(Ok(outcome)) => SessionActionView::Finish(Ok(outcome@)),
            SessionAction::Finish(Err(e)) => SessionActionView::Finish(Err(e@)),
        }
    }
}

/// A session as contracts speak of it.
pub struct SessionState {
    /// How far the session has come.
    pub phase: SessionPhase,
    /// The script of the request.
    pub script: Seq<char>,
    /// The context, until it is handed to the one instance made for it.
    pub context: Option<ContextView>,
}

/// The state of a session that has done nothing yet.
pub open spec fn session_fresh(context: ContextView, script: Seq<char>) -> SessionState {
    SessionState { phase: SessionPhase::Created, script, context: Some(context) }
}

/// The session's rule: the state and the action that follow from an event,
/// or `None` where the event has no place in the state.
///
/// The context goes to one instance, once. A guest that cannot be stood up
/// and a guest that traps are faults of their own kind; the result that the
/// entry point returns is passed on as it is.
pub open spec fn session_next(s: SessionState, e: SessionEventView) -> Option<
    (SessionState, SessionActionView),
> {
    match (s.phase, e) {
        (SessionPhase::Created, SessionEventView::Start) => match s.context {
            Some(context) => Some(
                (
                    SessionState { phase: SessionPhase::Instantiating, context: None, ..s },
                    SessionActionView::Instantiate(context),
                ),
            ),
            None => None,
        },
        (SessionPhase::Instantiating, SessionEventView::Instantiated) => Some(
            (
                SessionState { phase: SessionPhase::Invoking, ..s },
                SessionActionView::Invoke { script: s.script },
            ),
        ),
        (SessionPhase::Instantiating, SessionEventView::InstantiationFailed(m)) => Some(
            (
                SessionState { phase: SessionPhase::Finished, ..s },
                SessionActionView::Finish(Err(HostErrorView::Instantiation(m))),
            ),
        ),
        (SessionPhase::Invoking, SessionEventView::Returned(outcome)) => Some(
            (
                SessionState { phase: SessionPhase::Finished, ..s },
                SessionActionView::Finish(Ok(outcome)),
            ),
        ),
        (SessionPhase::Invoking, SessionEventView::Trapped(m)) => Some(
            (
                SessionState { phase: SessionPhase::Finished, ..s },
                SessionActionView::Finish(Err(HostErrorView::Trap(m))),
            ),
        ),
        _ => None,
    }
}

/// The handling of one request.
pub struct Session {
    phase: SessionPhase,
    script: String,
    context: Option<IsolationContext>,
}

impl View for Session {
    type V = SessionState;

    closed spec fn view(&self) -> SessionState {
        SessionState {
            phase: self.phase,
            script: self.script@,
            context: match self.context {
                Some(context) => Some(context@),
                None => None,
            },
        }
    }
}

impl Session {
    /// A session for `script` in `context` that has done nothing yet. The
    /// context is given up to the session.
    pub fn new(context: IsolationContext, script: String) -> (r: Session)
        ensures
            r@ == session_fresh(context@, script@),
    {
        Session { phase: SessionPhase::Created, script, context: Some(context) }
    }

    /// How far the session has come.
    pub fn phase(&self) -> (r: SessionPhase)
        ensures
            r == self@.phase,
    {
        self.phase
    }

    /// Takes one event and says what is to be done next. An event that has
    /// no place in the session's state changes nothing and gives `None`.
    pub fn step(&mut self, event: SessionEvent) -> (action: Option<SessionAction>)
        ensures
            match session_next(old(self)@, event@) {
                Some((state, act)) => (action matches Some(a) && a@ == act) && final(self)@
                    == state,
                None => final(self)@ == old(self)@ && action is None,
            },
    {
        match (self.phase, event) {
            (SessionPhase::Created, SessionEvent::Start) => {
                match self.context.take() {
                    Some(context) => {
                        self.phase = SessionPhase::Instantiating;
                        Some(SessionAction::Instantiate(context))
                    },
                    None => None,
                }
            },
            (SessionPhase::Instantiating, SessionEvent::Instantiated) => {
                self.phase = SessionPhase::Invoking;
                Some(SessionAction::Invoke { script: self.script.clone() })
            },
            (SessionPhase::Instantiating, SessionEvent::InstantiationFailed(m)) => {
                self.phase = SessionPhase::Finished;
                Some(SessionAction::Finish(Err(HostError::Instantiation(m))))
            },
            (SessionPhase::Invoking, SessionEvent::Returned(result)) => {
                self.phase = SessionPhase::Finished;
                Some(SessionAction::Finish(Ok(ExecutionOutcome::from_result(result))))
            },
            (SessionPhase::Invoking, SessionEvent::Trapped(m)) => {
                self.phase = SessionPhase::Finished;
                Some(SessionAction::Finish(Err(HostError::Trap(m))))
            },
            _ => None,
        }
    }
}

/// The guest's result reaches the caller unchanged: what the entry point
/// returned is what the session finishes with, and as a result it reads as
/// it did.
pub proof fn lemma_result_is_passed_on(s: SessionState, outcome: OutcomeView)
    requires
        s.phase == SessionPhase::Invoking,
    ensures
        session_next(s, SessionEventView::Returned(outcome)) matches Some((t, action)) && action
            == SessionActionView::Finish(Ok(outcome)) && t.phase == SessionPhase::Finished,
{
}

/// Faults of the boundary are never taken for a script's failure: a session
/// finishes with `Ok` only on what the entry point returned, with
/// `Instantiation` only where the guest could not be stood up, and with
/// `Trap` only where it trapped.
pub proof fn lemma_faults_are_kept_apart(s: SessionState, e: SessionEventView)
    ensures
        session_next(s, e) matches Some((_, SessionActionView::Finish(Ok(outcome)))) ==> s.phase
            == SessionPhase::Invoking && e == SessionEventView::Returned(outcome),
        session_next(s, e) matches Some(
            (_, SessionActionView::Finish(Err(HostErrorView::Instantiation(m)))),
        ) ==> s.phase == SessionPhase::Instantiating && e
            == SessionEventView::InstantiationFailed(m),
        session_next(s, e) matches Some(
            (_, SessionActionView::Finish(Err(HostErrorView::Trap(m)))),
        ) ==> s.phase == SessionPhase::Invoking && e == SessionEventView::Trapped(m),
{
}

/// A context goes to exactly one instance: the session gives it out at its
/// start and holds none from then on, so no later step can give out a
/// context again, the same or a larger one. The script is never changed.
pub proof fn lemma_context_is_used_once(s: SessionState, e: SessionEventView)
    ensures
        session_next(s, e) matches Some((t, action)) ==> {
            &&& t.script == s.script
            &&& action matches SessionActionView::Instantiate(context) ==> s.phase
                == SessionPhase::Created && s.context == Some(context) && t.context is None
            &&& !(action is Instantiate) ==> t.context == s.context
            &&& action matches SessionActionView::Invoke { script } ==> script == s.script
        },
        s.context is None ==> !(session_next(s, e) matches Some(
            (_, SessionActionView::Instantiate(_)),
        )),
{
}

} // verus!
