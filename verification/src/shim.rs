//! The guest execution shim: the one piece of code that is in touch with the
//! untrusted script. It decides what is done with the interpreter, in which
//! order, and what comes of each result; the interpreter itself is driven
//! from outside, one action at a time.

use vstd::prelude::*;
use vstd::string::StringExecFns;
use crate::capture::StdoutCapture;

verus! {

/// What came of running a script.
#[derive(Debug, PartialEq, Eq)]
pub enum ExecutionOutcome {
    /// The script ran to its end. The text is what it printed, followed by
    /// the text of its final value.
    Success(String),
    /// The script did not compile, or raised an exception that nothing
    /// caught. The text describes the failure.
    Failure(String),
}

/// An outcome as contracts speak of it.
pub enum OutcomeView {
    /// What was printed, followed by the text of the final value.
    Success(Seq<char>),
    /// The description of a failure.
    Failure(Seq<char>),
}

impl View for ExecutionOutcome {
    type V = OutcomeView;

    open spec fn view(&self) -> OutcomeView {
        match self {
            ExecutionOutcome::Success(output) => OutcomeView::Success(output@),
            ExecutionOutcome::Failure(message) => OutcomeView::Failure(message@),
        }
    }
}

impl ExecutionOutcome {
    /// The outcome in the form in which it crosses the boundary to the host:
    /// `Ok` with the output, or `Err` with the message.
    pub fn into_result(self) -> (r: Result<String, String>)
        ensures
            match self@ {
                OutcomeView::Success(output) => r matches Ok(text) && text@ == output,
                OutcomeView::Failure(message) => r matches Err(text) && text@ == message,
            },
    {
        match self {
            ExecutionOutcome::Success(output) => Ok(output),
            ExecutionOutcome::Failure(message) => Err(message),
        }
    }

    /// The outcome that a result from across the boundary stands for.
    pub fn from_result(result: Result<String, String>) -> (r: ExecutionOutcome)
        ensures
            match result {
                Ok(output) => r@ == OutcomeView::Success(output@),
                Err(message) => r@ == OutcomeView::Failure(message@),
            },
    {
        match result {
            Ok(output) => ExecutionOutcome::Success(output),
            Err(message) => ExecutionOutcome::Failure(message),
        }
    }
}

/// The name under which every script is compiled.
pub open spec fn spec_source_name() -> Seq<char> {
    "<embedded>"@
}

/// The name under which every script is compiled.
pub fn source_name() -> (name: &'static str)
    ensures
        name@ == spec_source_name(),
{
    "<embedded>"
}

/// How far a shim has come with its script.
#[derive(Clone, Copy, Debug, PartialEq, Eq, Structural)]
pub enum ShimPhase {
    /// Nothing has been done yet.
    Created,
    /// The stand-in for standard output is being installed.
    Installing,
    /// The script is being compiled.
    Compiling,
    /// The compiled program is running.
    Running,
    /// The program has returned; its final value is being put into text.
    Rendering,
    /// The outcome has been handed out.
    Finished,
}

/// What the interpreter reports back to the shim.
#[derive(Debug, PartialEq, Eq)]
pub enum ShimEvent {
    /// The request to run the script has come in.
    Start,
    /// The stand-in for standard output is in place.
    StdoutInstalled,
    /// The stand-in could not be put in place; the text says why.
    InstallFailed(String),
    /// The script compiled.
    Compiled,
    /// The script did not compile; the text is the syntax error.
    CompileFailed(String),
    /// The script wrote the text to its standard output.
    Wrote(String),
    /// The program ran to its end and returned its final value.
    Returned,
    /// An exception went uncaught; the text describes it.
    Raised(String),
    /// The final value, as text.
    Rendered(String),
}

/// An event as contracts speak of it.
pub enum ShimEventView {
    Start,
    StdoutInstalled,
    InstallFailed(Seq<char>),
    Compiled,
    CompileFailed(Seq<char>),
    Wrote(Seq<char>),
    Returned,
    Raised(Seq<char>),
    Rendered(Seq<char>),
}

impl View for ShimEvent {
    type V = ShimEventView;

    open spec fn view(&self) -> ShimEventView {
        match self {
            ShimEvent::Start => ShimEventView::Start,
            ShimEvent::StdoutInstalled => ShimEventView::StdoutInstalled,
            ShimEvent::InstallFailed(m) => ShimEventView::InstallFailed(m@),
            ShimEvent::Compiled => ShimEventView::Compiled,
            ShimEvent::CompileFailed(m) => ShimEventView::CompileFailed(m@),
            ShimEvent::Wrote(data) => ShimEventView::Wrote(data@),
            ShimEvent::Returned => ShimEventView::Returned,
            ShimEvent::Raised(m) => ShimEventView::Raised(m@),
            ShimEvent::Rendered(text) => ShimEventView::Rendered(text@),
        }
    }
}

/// What the shim asks to be done next.
#[derive(Debug, PartialEq, Eq)]
pub enum ShimAction {
    /// Put the stand-in for standard output in place.
    InstallStdout,
    /// Compile `source` as a whole program, under the name `source_name`.
    CompileProgram { source: String, source_name: String },
    /// Run the compiled program in a fresh scope that holds the built-ins
    /// and nothing else.
    Execute,
    /// Go on with what is being done.
    Continue,
    /// Put the program's final value into text.
    RenderValue,
    /// Return the outcome; the shim is done.
    Finish(ExecutionOutcome),
}

/// An action as contracts speak of it.
pub enum ShimActionView {
    InstallStdout,
    CompileProgram { source: Seq<char>, source_name: Seq<char> },
    Execute,
    Continue,
    RenderValue,
    Finish(OutcomeView),
}

impl View for ShimAction {
    type V = ShimActionView;

    open spec fn view(&self) -> ShimActionView {
        match self {
            ShimAction::InstallStdout => ShimActionView::InstallStdout,
            ShimAction::CompileProgram { source, source_name } => ShimActionView::CompileProgram {
                source: source@,
                source_name: source_name@,
            },
            ShimAction::Execute => ShimActionView::Execute,
            ShimAction::Continue => ShimActionView::Continue,
            ShimAction::RenderValue => ShimActionView::RenderValue,
            ShimAction::Finish(outcome) => ShimActionView::Finish(outcome@),
        }
    }
}

/// A shim as contracts speak of it.
pub struct ShimState {
    /// How far the shim has come.
    pub phase: ShimPhase,
    /// The script it was made for.
    pub script: Seq<char>,
    /// What the script has printed and nobody has read yet.
    pub printed: Seq<char>,
}

/// The state of a shim that has done nothing yet.
pub open spec fn shim_fresh(script: Seq<char>) -> ShimState {
    ShimState { phase: ShimPhase::Created, script, printed: Seq::empty() }
}

/// The state in which a shim ends, whatever its outcome: what was printed is
/// gone, either into the outcome or dropped.
pub open spec fn shim_finished(s: ShimState) -> ShimState {
    ShimState { phase: ShimPhase::Finished, script: s.script, printed: Seq::empty() }
}

/// The shim's rule: the state and the action that follow from an event, or
/// `None` where the event has no place in the state.
///
/// The stand-in for output is installed first, then the script is compiled,
/// then run, then its final value put into text. A failure at any of these
/// ends the run with `Failure` and drops what was printed. Output is taken
/// only while the program runs or its value is put into text.
pub open spec fn shim_next(s: ShimState, e: ShimEventView) -> Option<(ShimState, ShimActionView)> {
    match (s.phase, e) {
        (ShimPhase::Created, ShimEventView::Start) => Some(
            (ShimState { phase: ShimPhase::Installing, ..s }, ShimActionView::InstallStdout),
        ),
        (ShimPhase::Installing, ShimEventView::StdoutInstalled) => Some(
            (
                ShimState { phase: ShimPhase::Compiling, ..s },
                ShimActionView::CompileProgram { source: s.script, source_name: spec_source_name() },
            ),
        ),
        (ShimPhase::Installing, ShimEventView::InstallFailed(m)) => Some(
            (shim_finished(s), ShimActionView::Finish(OutcomeView::Failure(m))),
        ),
        (ShimPhase::Compiling, ShimEventView::Compiled) => Some(
            (ShimState { phase: ShimPhase::Running, ..s }, ShimActionView::Execute),
        ),
        (ShimPhase::Compiling, ShimEventView::CompileFailed(m)) => Some(
            (shim_finished(s), ShimActionView::Finish(OutcomeView::Failure(m))),
        ),
        (ShimPhase::Running, ShimEventView::Wrote(data)) => Some(
            (ShimState { printed: s.printed + data, ..s }, ShimActionView::Continue),
        ),
        (ShimPhase::Rendering, ShimEventView::Wrote(data)) => Some(
            (ShimState { printed: s.printed + data, ..s }, ShimActionView::Continue),
        ),
        (ShimPhase::Running, ShimEventView::Returned) => Some(
            (ShimState { phase: ShimPhase::Rendering, ..s }, ShimActionView::RenderValue),
        ),
        (ShimPhase::Running, ShimEventView::Raised(m)) => Some(
            (shim_finished(s), ShimActionView::Finish(OutcomeView::Failure(m))),
        ),
        (ShimPhase::Rendering, ShimEventView::Raised(m)) => Some(
            (shim_finished(s), ShimActionView::Finish(OutcomeView::Failure(m))),
        ),
        (ShimPhase::Rendering, ShimEventView::Rendered(text)) => Some(
            (shim_finished(s), ShimActionView::Finish(OutcomeView::Success(s.printed + text))),
        ),
        _ => None,
    }
}

/// The shim for one script. It is made for one run and keeps nothing of any
/// other.
pub struct Shim {
    phase: ShimPhase,
    script: String,
    stdout: StdoutCapture,
}

impl View for Shim {
    type V = ShimState;

    closed spec fn view(&self) -> ShimState {
        ShimState { phase: self.phase, script: self.script@, printed: self.stdout@ }
    }
}

impl Shim {
    /// A shim for `script` that has done nothing yet.
    pub fn new(script: String) -> (r: Shim)
        ensures
            r@ == shim_fresh(script@),
    {
        Shim { phase: ShimPhase::Created, script, stdout: StdoutCapture::new() }
    }

    /// How far the shim has come.
    pub fn phase(&self) -> (r: ShimPhase)
        ensures
            r == self@.phase,
    {
        self.phase
    }

    /// Ends the run: what was printed is taken out of the shim, and the
    /// shim is left finished and empty.
    fn finish(&mut self) -> (printed: String)
        ensures
            printed@ == old(self)@.printed,
            final(self)@ == shim_finished(old(self)@),
    {
        let mut taken = StdoutCapture::new();
        core::mem::swap(&mut self.stdout, &mut taken);
        self.phase = ShimPhase::Finished;
        taken.into_text()
    }

    /// Takes one event from the interpreter and says what is to be done
    /// next. An event that has no place in the shim's state changes nothing
    /// and gives `None`.
    pub fn step(&mut self, event: ShimEvent) -> (action: Option<ShimAction>)
        ensures
            match shim_next(old(self)@, event@) {
                Some((state, act)) => (action matches Some(a) && a@ == act) && final(self)@ == state,
                None => final(self)@ == old(self)@ && action is None,
            },
    {
        match (self.phase, event) {
            (ShimPhase::Created, ShimEvent::Start) => {
                self.phase = ShimPhase::Installing;
                Some(ShimAction::InstallStdout)
            },
            (ShimPhase::Installing, ShimEvent::StdoutInstalled) => {
                self.phase = ShimPhase::Compiling;
                Some(
                    ShimAction::CompileProgram {
                        source: self.script.clone(),
                        source_name: source_name().to_owned(),
                    },
                )
            },
            (ShimPhase::Installing, ShimEvent::InstallFailed(message)) => {
                let _ = self.finish();
                Some(ShimAction::Finish(ExecutionOutcome::Failure(message)))
            },
            (ShimPhase::Compiling, ShimEvent::Compiled) => {
                self.phase = ShimPhase::Running;
                Some(ShimAction::Execute)
            },
            (ShimPhase::Compiling, ShimEvent::CompileFailed(message)) => {
                let _ = self.finish();
                Some(ShimAction::Finish(ExecutionOutcome::Failure(message)))
            },
            (ShimPhase::Running, ShimEvent::Wrote(data)) => {
                self.stdout.write(data.as_str());
                Some(ShimAction::Continue)
            },
            (ShimPhase::Rendering, ShimEvent::Wrote(data)) => {
                self.stdout.write(data.as_str());
                Some(ShimAction::Continue)
            },
            (ShimPhase::Running, ShimEvent::Returned) => {
                self.phase = ShimPhase::Rendering;
                Some(ShimAction::RenderValue)
            },
            (ShimPhase::Running, ShimEvent::Raised(message)) => {
                let _ = self.finish();
                Some(ShimAction::Finish(ExecutionOutcome::Failure(message)))
            },
            (ShimPhase::Rendering, ShimEvent::Raised(message)) => {
                let _ = self.finish();
                Some(ShimAction::Finish(ExecutionOutcome::Failure(message)))
            },
            (ShimPhase::Rendering, ShimEvent::Rendered(text)) => {
                let printed = self.finish();
                Some(ShimAction::Finish(ExecutionOutcome::Success(printed.concat(text.as_str()))))
            },
            _ => None,
        }
    }
}

} // verus!
