use script_sandbox::boundary::{
    BoundaryAction, BoundaryBuilder, BoundaryEvent, BoundaryPhase, GrantUnavailable,
    IsolationContext,
};
use script_sandbox::frontend::{report_line, select_source, ConfigError, ScriptSource};
use script_sandbox::grant::{DirMount, DirPerms, FilePerms, Permission};
use script_sandbox::host::{HostError, Session, SessionAction, SessionEvent, SessionPhase};
use script_sandbox::shim::ExecutionOutcome;

fn context(specs: &[&str], inherit_stdio: bool) -> IsolationContext {
    let grants: Vec<DirMount> = specs.iter().map(|s| DirMount::parse(s).unwrap()).collect();
    let mut builder = BoundaryBuilder::new(grants, inherit_stdio);
    let mut action = builder.step(BoundaryEvent::Start).unwrap();
    loop {
        action = match action {
            BoundaryAction::Preopen { .. } => builder.step(BoundaryEvent::Opened).unwrap(),
            BoundaryAction::Build { .. } => builder.step(BoundaryEvent::Built).unwrap(),
            BoundaryAction::Finish(result) => return result.unwrap(),
        };
    }
}

#[test]
fn builder_opens_grants_in_order() {
    let grants = vec![
        DirMount::parse("/h1:/g1").unwrap(),
        DirMount::parse("/h2:/g2:rw").unwrap(),
    ];
    let mut builder = BoundaryBuilder::new(grants, true);
    assert_eq!(builder.phase(), BoundaryPhase::Created);
    assert_eq!(
        builder.step(BoundaryEvent::Start),
        Some(BoundaryAction::Preopen {
            host: "/h1".to_string(),
            guest: "/g1".to_string(),
            dir_perms: DirPerms { read: true, mutate: false },
            file_perms: FilePerms { read: true, write: false },
        })
    );
    assert_eq!(builder.phase(), BoundaryPhase::Opening);
    assert_eq!(
        builder.step(BoundaryEvent::Opened),
        Some(BoundaryAction::Preopen {
            host: "/h2".to_string(),
            guest: "/g2".to_string(),
            dir_perms: DirPerms { read: true, mutate: true },
            file_perms: FilePerms { read: true, write: true },
        })
    );
    assert_eq!(
        builder.step(BoundaryEvent::Opened),
        Some(BoundaryAction::Build { inherit_stdio: true })
    );
    assert_eq!(builder.phase(), BoundaryPhase::Building);
    let finished = builder.step(BoundaryEvent::Built);
    assert_eq!(builder.phase(), BoundaryPhase::Finished);
    match finished {
        Some(BoundaryAction::Finish(Ok(context))) => {
            assert_eq!(context.grant_count(), 2);
            assert_eq!(context.grant(0), Some(&DirMount::parse("/h1:/g1:ro").unwrap()));
            assert_eq!(context.grant(1).unwrap().guest(), "/g2");
            assert_eq!(context.grant(1).unwrap().permission(), Permission::ReadWrite);
            assert_eq!(context.grant(2), None);
            assert!(context.inherit_stdio());
        }
        other => panic!("no context: {:?}", other),
    }
    assert_eq!(builder.step(BoundaryEvent::Start), None);
    assert_eq!(builder.step(BoundaryEvent::Opened), None);
}

#[test]
fn builder_without_grants_opens_nothing() {
    let mut builder = BoundaryBuilder::new(Vec::new(), false);
    assert_eq!(
        builder.step(BoundaryEvent::Start),
        Some(BoundaryAction::Build { inherit_stdio: false })
    );
    match builder.step(BoundaryEvent::Built) {
        Some(BoundaryAction::Finish(Ok(context))) => {
            assert_eq!(context.grant_count(), 0);
            assert!(!context.inherit_stdio());
        }
        other => panic!("no context: {:?}", other),
    }
}

#[test]
fn builder_stops_at_first_unavailable_grant() {
    let grants = vec![
        DirMount::parse("/h1:/g1").unwrap(),
        DirMount::parse("/missing:/g2:rw").unwrap(),
        DirMount::parse("/h3:/g3").unwrap(),
    ];
    let mut builder = BoundaryBuilder::new(grants, true);
    builder.step(BoundaryEvent::Start);
    builder.step(BoundaryEvent::Opened);
    assert_eq!(
        builder.step(BoundaryEvent::Unavailable("No such file or directory".to_string())),
        Some(BoundaryAction::Finish(Err(GrantUnavailable {
            host: "/missing".to_string(),
            guest: "/g2".to_string(),
            message: "No such file or directory".to_string(),
        })))
    );
    assert_eq!(builder.phase(), BoundaryPhase::Finished);
    assert_eq!(builder.step(BoundaryEvent::Opened), None);
    assert_eq!(builder.step(BoundaryEvent::Built), None);
}

#[test]
fn builder_rejects_misplaced_events() {
    let mut builder = BoundaryBuilder::new(vec![DirMount::parse("a:b").unwrap()], true);
    assert_eq!(builder.step(BoundaryEvent::Opened), None);
    assert_eq!(builder.step(BoundaryEvent::Built), None);
    assert_eq!(builder.step(BoundaryEvent::Unavailable("x".to_string())), None);
    assert_eq!(builder.phase(), BoundaryPhase::Created);
    builder.step(BoundaryEvent::Start);
    assert_eq!(builder.step(BoundaryEvent::Built), None);
    assert_eq!(builder.step(BoundaryEvent::Start), None);
    assert_eq!(builder.phase(), BoundaryPhase::Opening);
}

#[test]
fn session_passes_result_on() {
    let mut session = Session::new(context(&["a:b"], true), "1+1".to_string());
    assert_eq!(session.phase(), SessionPhase::Created);
    match session.step(SessionEvent::Start) {
        Some(SessionAction::Instantiate(context)) => {
            assert_eq!(context.grant_count(), 1);
            assert_eq!(context.grant(0).unwrap().host(), "a");
        }
        other => panic!("no instantiation: {:?}", other),
    }
    assert_eq!(session.phase(), SessionPhase::Instantiating);
    assert_eq!(
        session.step(SessionEvent::Instantiated),
        Some(SessionAction::Invoke { script: "1+1".to_string() })
    );
    assert_eq!(session.phase(), SessionPhase::Invoking);
    assert_eq!(
        session.step(SessionEvent::Returned(Ok("2".to_string()))),
        Some(SessionAction::Finish(Ok(ExecutionOutcome::Success("2".to_string()))))
    );
    assert_eq!(session.phase(), SessionPhase::Finished);
    assert_eq!(session.step(SessionEvent::Start), None);
}

#[test]
fn session_passes_failure_on() {
    let mut session = Session::new(context(&[], true), "boom".to_string());
    session.step(SessionEvent::Start);
    session.step(SessionEvent::Instantiated);
    assert_eq!(
        session.step(SessionEvent::Returned(Err("NameError: boom".to_string()))),
        Some(SessionAction::Finish(Ok(ExecutionOutcome::Failure("NameError: boom".to_string()))))
    );
}

#[test]
fn session_tells_instantiation_error_apart() {
    let mut session = Session::new(context(&[], true), "1".to_string());
    session.step(SessionEvent::Start);
    assert_eq!(
        session.step(SessionEvent::InstantiationFailed("bad component".to_string())),
        Some(SessionAction::Finish(Err(HostError::Instantiation("bad component".to_string()))))
    );
    assert_eq!(session.phase(), SessionPhase::Finished);
    assert_eq!(session.step(SessionEvent::Instantiated), None);
}

#[test]
fn session_tells_trap_apart() {
    let mut session = Session::new(context(&[], true), "1".to_string());
    session.step(SessionEvent::Start);
    session.step(SessionEvent::Instantiated);
    assert_eq!(
        session.step(SessionEvent::Trapped("unreachable executed".to_string())),
        Some(SessionAction::Finish(Err(HostError::Trap("unreachable executed".to_string()))))
    );
    assert_eq!(session.step(SessionEvent::Returned(Ok("late".to_string()))), None);
}

#[test]
fn session_gives_context_out_once() {
    let mut session = Session::new(context(&["a:b"], true), "1".to_string());
    assert_eq!(session.step(SessionEvent::Instantiated), None);
    assert_eq!(session.step(SessionEvent::Returned(Ok("x".to_string()))), None);
    assert!(matches!(session.step(SessionEvent::Start), Some(SessionAction::Instantiate(_))));
    assert_eq!(session.step(SessionEvent::Start), None);
    session.step(SessionEvent::Instantiated);
    assert_eq!(session.step(SessionEvent::Start), None);
    assert_eq!(session.step(SessionEvent::InstantiationFailed("late".to_string())), None);
}

#[test]
fn host_error_message_is_its_text() {
    assert_eq!(HostError::Instantiation("a".to_string()).message(), "a");
    assert_eq!(HostError::Trap("b".to_string()).message(), "b");
}

#[test]
fn report_line_for_each_result() {
    assert_eq!(
        report_line(&Ok(ExecutionOutcome::Success("hi\n2".to_string()))),
        "Output: hi\n2"
    );
    assert_eq!(
        report_line(&Ok(ExecutionOutcome::Failure("SyntaxError".to_string()))),
        "Error: SyntaxError"
    );
    assert_eq!(
        report_line(&Err(HostError::Instantiation("no memory".to_string()))),
        "Error: no memory"
    );
    assert_eq!(report_line(&Err(HostError::Trap("trap".to_string()))), "Error: trap");
    assert_eq!(report_line(&Ok(ExecutionOutcome::Success(String::new()))), "Output: ");
}

#[test]
fn script_source_must_be_exactly_one() {
    assert_eq!(
        select_source(None, Some("print(1)".to_string())),
        Ok(ScriptSource::Inline("print(1)".to_string()))
    );
    assert_eq!(
        select_source(Some("main.py".to_string()), None),
        Ok(ScriptSource::File("main.py".to_string()))
    );
    assert_eq!(select_source(None, None), Err(ConfigError::MissingScript));
    assert_eq!(
        select_source(Some("main.py".to_string()), Some("1".to_string())),
        Err(ConfigError::ConflictingSources)
    );
}

#[test]
fn config_error_messages() {
    assert_eq!(
        ConfigError::MissingScript.message(),
        "Please provide a script file or an inline command using -c."
    );
    assert_eq!(
        ConfigError::ConflictingSources.message(),
        "A script file and an inline command cannot be given together."
    );
    assert_eq!(
        ConfigError::InvalidMount(DirMount::parse("a:b:zz").unwrap_err()).message(),
        "Invalid permissions: zz"
    );
    assert_eq!(
        ConfigError::InvalidMount(DirMount::parse("a").unwrap_err()).message(),
        "Invalid mount: no guest path"
    );
}
