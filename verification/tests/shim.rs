use script_sandbox::shim::{
    source_name, ExecutionOutcome, Shim, ShimAction, ShimEvent, ShimPhase,
};

fn compiled_shim(script: &str) -> Shim {
    let mut shim = Shim::new(script.to_string());
    assert_eq!(shim.step(ShimEvent::Start), Some(ShimAction::InstallStdout));
    assert_eq!(
        shim.step(ShimEvent::StdoutInstalled),
        Some(ShimAction::CompileProgram {
            source: script.to_string(),
            source_name: "<embedded>".to_string(),
        })
    );
    assert_eq!(shim.step(ShimEvent::Compiled), Some(ShimAction::Execute));
    shim
}

#[test]
fn output_is_prints_then_final_value() {
    let mut shim = compiled_shim("print(\"hi\")\n1+1");
    assert_eq!(shim.step(ShimEvent::Wrote("hi".to_string())), Some(ShimAction::Continue));
    assert_eq!(shim.step(ShimEvent::Wrote("\n".to_string())), Some(ShimAction::Continue));
    assert_eq!(shim.step(ShimEvent::Returned), Some(ShimAction::RenderValue));
    assert_eq!(
        shim.step(ShimEvent::Rendered("2".to_string())),
        Some(ShimAction::Finish(ExecutionOutcome::Success("hi\n2".to_string())))
    );
    assert_eq!(shim.phase(), ShimPhase::Finished);
}

#[test]
fn output_without_prints_is_the_final_value() {
    let mut shim = compiled_shim("40+2");
    assert_eq!(shim.step(ShimEvent::Returned), Some(ShimAction::RenderValue));
    assert_eq!(
        shim.step(ShimEvent::Rendered("42".to_string())),
        Some(ShimAction::Finish(ExecutionOutcome::Success("42".to_string())))
    );
}

#[test]
fn steps_come_in_order() {
    let mut shim = Shim::new("x".to_string());
    assert_eq!(shim.phase(), ShimPhase::Created);
    assert_eq!(shim.step(ShimEvent::Start), Some(ShimAction::InstallStdout));
    assert_eq!(shim.phase(), ShimPhase::Installing);
    assert!(matches!(
        shim.step(ShimEvent::StdoutInstalled),
        Some(ShimAction::CompileProgram { .. })
    ));
    assert_eq!(shim.phase(), ShimPhase::Compiling);
    assert_eq!(shim.step(ShimEvent::Compiled), Some(ShimAction::Execute));
    assert_eq!(shim.phase(), ShimPhase::Running);
    assert_eq!(shim.step(ShimEvent::Returned), Some(ShimAction::RenderValue));
    assert_eq!(shim.phase(), ShimPhase::Rendering);
}

#[test]
fn source_name_is_fixed() {
    assert_eq!(source_name(), "<embedded>");
}

#[test]
fn syntax_error_fails() {
    let mut shim = Shim::new("1 +".to_string());
    shim.step(ShimEvent::Start);
    shim.step(ShimEvent::StdoutInstalled);
    assert_eq!(
        shim.step(ShimEvent::CompileFailed("SyntaxError: invalid syntax".to_string())),
        Some(ShimAction::Finish(ExecutionOutcome::Failure(
            "SyntaxError: invalid syntax".to_string()
        )))
    );
    assert_eq!(shim.phase(), ShimPhase::Finished);
}

#[test]
fn exception_fails_and_drops_output() {
    let mut shim = compiled_shim("print('before'); raise ValueError('bad')");
    assert_eq!(shim.step(ShimEvent::Wrote("before\n".to_string())), Some(ShimAction::Continue));
    assert_eq!(
        shim.step(ShimEvent::Raised("ValueError: bad".to_string())),
        Some(ShimAction::Finish(ExecutionOutcome::Failure("ValueError: bad".to_string())))
    );
    assert_eq!(shim.phase(), ShimPhase::Finished);
}

#[test]
fn both_failures_have_one_shape() {
    let mut broken = Shim::new("(".to_string());
    broken.step(ShimEvent::Start);
    broken.step(ShimEvent::StdoutInstalled);
    let at_compile = broken.step(ShimEvent::CompileFailed("boom".to_string()));
    let mut raising = compiled_shim("raise X");
    raising.step(ShimEvent::Wrote("noise".to_string()));
    let at_run = raising.step(ShimEvent::Raised("boom".to_string()));
    assert_eq!(at_compile, at_run);
    assert_eq!(
        at_run,
        Some(ShimAction::Finish(ExecutionOutcome::Failure("boom".to_string())))
    );
}

#[test]
fn failure_to_render_value_fails() {
    let mut shim = compiled_shim("Weird()");
    shim.step(ShimEvent::Wrote("x".to_string()));
    assert_eq!(shim.step(ShimEvent::Returned), Some(ShimAction::RenderValue));
    assert_eq!(shim.step(ShimEvent::Wrote("y".to_string())), Some(ShimAction::Continue));
    assert_eq!(
        shim.step(ShimEvent::Raised("TypeError: __str__ returned non-string".to_string())),
        Some(ShimAction::Finish(ExecutionOutcome::Failure(
            "TypeError: __str__ returned non-string".to_string()
        )))
    );
}

#[test]
fn output_while_rendering_is_kept() {
    let mut shim = compiled_shim("Chatty()");
    shim.step(ShimEvent::Wrote("a".to_string()));
    shim.step(ShimEvent::Returned);
    shim.step(ShimEvent::Wrote("b".to_string()));
    assert_eq!(
        shim.step(ShimEvent::Rendered("c".to_string())),
        Some(ShimAction::Finish(ExecutionOutcome::Success("abc".to_string())))
    );
}

#[test]
fn failure_to_install_stdout_fails() {
    let mut shim = Shim::new("1".to_string());
    shim.step(ShimEvent::Start);
    assert_eq!(
        shim.step(ShimEvent::InstallFailed("AttributeError".to_string())),
        Some(ShimAction::Finish(ExecutionOutcome::Failure("AttributeError".to_string())))
    );
    assert_eq!(shim.phase(), ShimPhase::Finished);
}

#[test]
fn misplaced_events_change_nothing() {
    let mut shim = Shim::new("1".to_string());
    assert_eq!(shim.step(ShimEvent::Compiled), None);
    assert_eq!(shim.step(ShimEvent::Wrote("x".to_string())), None);
    assert_eq!(shim.step(ShimEvent::Rendered("1".to_string())), None);
    assert_eq!(shim.phase(), ShimPhase::Created);
    shim.step(ShimEvent::Start);
    assert_eq!(shim.step(ShimEvent::Start), None);
    assert_eq!(shim.step(ShimEvent::Raised("e".to_string())), None);
    assert_eq!(shim.phase(), ShimPhase::Installing);
    shim.step(ShimEvent::StdoutInstalled);
    assert_eq!(shim.step(ShimEvent::Wrote("early".to_string())), None);
    assert_eq!(shim.step(ShimEvent::Returned), None);
    shim.step(ShimEvent::Compiled);
    assert_eq!(shim.step(ShimEvent::Rendered("1".to_string())), None);
    assert_eq!(shim.step(ShimEvent::CompileFailed("late".to_string())), None);
    shim.step(ShimEvent::Returned);
    assert_eq!(
        shim.step(ShimEvent::Rendered("1".to_string())),
        Some(ShimAction::Finish(ExecutionOutcome::Success("1".to_string())))
    );
}

#[test]
fn finished_shim_takes_nothing() {
    let mut shim = compiled_shim("1");
    shim.step(ShimEvent::Returned);
    shim.step(ShimEvent::Rendered("1".to_string()));
    for event in [
        ShimEvent::Start,
        ShimEvent::StdoutInstalled,
        ShimEvent::Compiled,
        ShimEvent::Wrote("x".to_string()),
        ShimEvent::Returned,
        ShimEvent::Rendered("2".to_string()),
        ShimEvent::Raised("e".to_string()),
    ] {
        assert_eq!(shim.step(event), None);
        assert_eq!(shim.phase(), ShimPhase::Finished);
    }
}

fn run(script: &str, events: Vec<ShimEvent>) -> Option<ExecutionOutcome> {
    let mut shim = Shim::new(script.to_string());
    let mut outcome = None;
    for event in events {
        if let Some(ShimAction::Finish(o)) = shim.step(event) {
            outcome = Some(o);
        }
    }
    outcome
}

fn printing(pieces: &[&str], value: &str) -> Vec<ShimEvent> {
    let mut events = vec![ShimEvent::Start, ShimEvent::StdoutInstalled, ShimEvent::Compiled];
    for piece in pieces {
        events.push(ShimEvent::Wrote(piece.to_string()));
    }
    events.push(ShimEvent::Returned);
    events.push(ShimEvent::Rendered(value.to_string()));
    events
}

#[test]
fn rerun_gives_same_outcome() {
    let first = run("print('a'); 7", printing(&["a", "\n"], "7"));
    let second = run("print('a'); 7", printing(&["a", "\n"], "7"));
    assert_eq!(first, Some(ExecutionOutcome::Success("a\n7".to_string())));
    assert_eq!(first, second);
}

#[test]
fn interleaved_runs_do_not_mix() {
    let mut one = Shim::new("one".to_string());
    let mut two = Shim::new("two".to_string());
    let events_one = printing(&["1a", "1b"], "x");
    let events_two = printing(&["2a"], "y");
    let mut outcome_one = None;
    let mut outcome_two = None;
    let mut left = events_one.into_iter();
    let mut right = events_two.into_iter();
    loop {
        let a = left.next();
        let b = right.next();
        if a.is_none() && b.is_none() {
            break;
        }
        if let Some(event) = b {
            if let Some(ShimAction::Finish(o)) = two.step(event) {
                outcome_two = Some(o);
            }
        }
        if let Some(event) = a {
            if let Some(ShimAction::Finish(o)) = one.step(event) {
                outcome_one = Some(o);
            }
        }
    }
    assert_eq!(outcome_one, run("one", printing(&["1a", "1b"], "x")));
    assert_eq!(outcome_two, run("two", printing(&["2a"], "y")));
    assert_eq!(outcome_one, Some(ExecutionOutcome::Success("1a1bx".to_string())));
    assert_eq!(outcome_two, Some(ExecutionOutcome::Success("2ay".to_string())));
}

#[test]
fn outcome_crosses_the_boundary_as_result() {
    assert_eq!(
        ExecutionOutcome::Success("out".to_string()).into_result(),
        Ok("out".to_string())
    );
    assert_eq!(
        ExecutionOutcome::Failure("why".to_string()).into_result(),
        Err("why".to_string())
    );
    assert_eq!(
        ExecutionOutcome::from_result(Ok("out".to_string())),
        ExecutionOutcome::Success("out".to_string())
    );
    assert_eq!(
        ExecutionOutcome::from_result(Err("why".to_string())),
        ExecutionOutcome::Failure("why".to_string())
    );
}
