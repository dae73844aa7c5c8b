//! What the front end decides before a script runs and after it has run:
//! where the script comes from, which grants were asked for, and the one
//! line that reports the result.

use vstd::prelude::*;
use vstd::string::StringExecFns;
use crate::grant::{
    DirMount, GrantView, ParseError, ParseErrorView, spec_parse, spec_parse_message,
};
use crate::host::{HostError, HostErrorView};
use crate::shim::{ExecutionOutcome, OutcomeView};

verus! {

/// Input that no sandbox is built for.
#[derive(Debug, PartialEq, Eq)]
pub enum ConfigError {
    /// Neither a script file nor an inline script was given.
    MissingScript,
    /// Both a script file and an inline script were given.
    ConflictingSources,
    /// A mount specification is no grant.
    InvalidMount(ParseError),
}

/// A configuration error as contracts speak of it.
pub enum ConfigErrorView {
    MissingScript,
    ConflictingSources,
    InvalidMount(ParseErrorView),
}

impl View for ConfigError {
    type V = ConfigErrorView;

    open spec fn view(&self) -> ConfigErrorView {
        match self {
            ConfigError::MissingScript => ConfigErrorView::MissingScript,
            ConfigError::ConflictingSources => ConfigErrorView::ConflictingSources,
            ConfigError::InvalidMount(e) => ConfigErrorView::InvalidMount(e@),
        }
    }
}

/// What a configuration error says, in words.
pub open spec fn spec_config_message(e: ConfigErrorView) -> Seq<char> {
    match e {
        ConfigErrorView::MissingScript =>
            "Please provide a script file or an inline command using -c."@,
        ConfigErrorView::ConflictingSources =>
            "A script file and an inline command cannot be given together."@,
        ConfigErrorView::InvalidMount(e) => spec_parse_message(e),
    }
}

impl ConfigError {
    /// What the error says, in words.
    pub fn message(&self) -> (m: String)
        ensures
            m@ == spec_config_message(self@),
    {
        match self {
            ConfigError::MissingScript => {
                "Please provide a script file or an inline command using -c.".to_owned()
            },
            ConfigError::ConflictingSources => {
                "A script file and an inline command cannot be given together.".to_owned()
            },
            ConfigError::InvalidMount(e) => e.message(),
        }
    }
}

/// Where the text of the script is.
#[derive(Debug, PartialEq, Eq)]
pub enum ScriptSource {
    /// The text itself, given inline.
    Inline(String),
    /// The path of a file that holds the text.
    File(String),
}

/// A script source as contracts speak of it.
pub enum ScriptSourceView {
    Inline(Seq<char>),
    File(Seq<char>),
}

impl View for ScriptSource {
    type V = ScriptSourceView;

    open spec fn view(&self) -> ScriptSourceView {
        match self {
            ScriptSource::Inline(text) => ScriptSourceView::Inline(text@),
            ScriptSource::File(path) => ScriptSourceView::File(path@),
        }
    }
}

/// Picks the source of the script. Exactly one of the two must be given.
pub fn select_source(file: Option<String>, command: Option<String>) -> (r: Result<
    ScriptSource,
    ConfigError,
>)
    ensures
        match (file, command) {
            (None, Some(text)) => r matches Ok(source) && source@ == ScriptSourceView::Inline(
                text@,
            ),
            (Some(path), None) => r matches Ok(source) && source@ == ScriptSourceView::File(path@),
            (None, None) => r matches Err(e) && e@ == ConfigErrorView::MissingScript,
            (Some(_), Some(_)) => r matches Err(e) && e@ == ConfigErrorView::ConflictingSources,
        },
{
    match (file, command) {
        (None, Some(text)) => Ok(ScriptSource::Inline(text)),
        (Some(path), None) => Ok(ScriptSource::File(path)),
        (None, None) => Err(ConfigError::MissingScript),
        (Some(_), Some(_)) => Err(ConfigError::ConflictingSources),
    }
}

/// Whether the specification at `index` is the first that is no grant.
pub open spec fn first_invalid(specs: Seq<String>, index: int) -> bool {
    &&& 0 <= index < specs.len()
    &&& spec_parse(specs[index]@) is Err
    &&& forall|i: int| 0 <= i < index ==> spec_parse(#[trigger] specs[i]@) is Ok
}

/// Reads every mount specification. Where all are grants, they come back in
/// the order given, duplicates and overlapping guest paths included. Else
/// the error is that of the first that is no grant.
pub fn parse_mounts(specs: &Vec<String>) -> (r: Result<Vec<DirMount>, ConfigError>)
    ensures
        match r {
            Ok(grants) => {
                &&& grants@.len() == specs@.len()
                &&& forall|i: int|
                    0 <= i < specs@.len() ==> spec_parse(#[trigger] specs@[i]@) == Ok::<
                        GrantView,
                        ParseErrorView,
                    >(grants@[i]@)
            },
            Err(e) => exists|index: int|
                #![trigger first_invalid(specs@, index)]
                first_invalid(specs@, index) && e@ == ConfigErrorView::InvalidMount(
                    spec_parse(specs@[index]@)->Err_0,
                ),
        },
{
    let mut grants: Vec<DirMount> = Vec::new();
    let mut index: usize = 0;
    while index < specs.len()
        invariant
            index <= specs@.len(),
            grants@.len() == index,
            forall|i: int|
                0 <= i < index ==> spec_parse(#[trigger] specs@[i]@) == Ok::<
                    GrantView,
                    ParseErrorView,
                >(grants@[i]@),
        decreases specs@.len() - index,
    {
        match DirMount::parse(specs[index].as_str()) {
            Ok(grant) => {
                grants.push(grant);
            },
            Err(e) => {
                assert(first_invalid(specs@, index as int));
                return Err(ConfigError::InvalidMount(e));
            },
        }
        index += 1;
    }
    Ok(grants)
}

/// The line that reports a result: `Output: ` and the output where the
/// script succeeded, `Error: ` and the message in every other case.
pub open spec fn spec_report_line(result: Result<OutcomeView, HostErrorView>) -> Seq<char> {
    match result {
        Ok(OutcomeView::Success(output)) => "Output: "@ + output,
        Ok(OutcomeView::Failure(message)) => "Error: "@ + message,
        Err(HostErrorView::Instantiation(message)) => "Error: "@ + message,
        Err(HostErrorView::Trap(message)) => "Error: "@ + message,
    }
}

/// What a result is as contracts speak of it.
pub open spec fn result_view(result: Result<ExecutionOutcome, HostError>) -> Result<
    OutcomeView,
    HostErrorView,
> {
    match result {
        Ok(outcome) => Ok(outcome@),
        Err(e) => Err(e@),
    }
}

/// The one line that is printed for a result. A failure is told by the
/// line's text alone.
pub fn report_line(result: &Result<ExecutionOutcome, HostError>) -> (line: String)
    ensures
        line@ == spec_report_line(result_view(*result)),
{
    match result {
        Ok(ExecutionOutcome::Success(output)) => "Output: ".to_owned().concat(output.as_str()),
        Ok(ExecutionOutcome::Failure(message)) => "Error: ".to_owned().concat(message.as_str()),
        Err(e) => "Error: ".to_owned().concat(e.message()),
    }
}

} // verus!
