use fm_skin_builder::events::{Event, RunError, StreamKind};
use fm_skin_builder::paths::{directory_error, folder_dialog_plan, skins_folder_name};
use fm_skin_builder::supervisor::{completion_text, validate_request, Action, Input, Phase, Supervisor};

fn started() -> Supervisor {
    let mut s = Supervisor::new();
    assert!(matches!(s.step(Input::Start)[..], [Action::Spawn]));
    assert!(s.step(Input::Spawned).is_empty());
    s
}

fn count_logs(acts: &[Action]) -> usize {
    acts.iter().filter(|a| matches!(a, Action::Emit(Event::Log(_)))).count()
}

fn count_completions(acts: &[Action]) -> usize {
    acts.iter().filter(|a| matches!(a, Action::Emit(Event::Completion(_)))).count()
}

#[test]
fn hundred_and_fifty_lines_then_success() {
    let mut s = started();
    let mut all: Vec<Action> = Vec::new();
    for i in 0..100 {
        all.extend(s.step(Input::Line(StreamKind::Stdout, format!("out {}", i))));
        if i < 50 {
            all.extend(s.step(Input::Line(StreamKind::Stderr, format!("err {}", i))));
        }
    }
    all.extend(s.step(Input::Eof(StreamKind::Stdout)));
    all.extend(s.step(Input::Exited(Some(0))));
    assert_eq!(count_completions(&all), 0);
    all.extend(s.step(Input::Eof(StreamKind::Stderr)));
    assert_eq!(count_logs(&all), 150);
    assert_eq!(count_completions(&all), 1);
    let n = all.len();
    match &all[n - 2] {
        Action::Emit(Event::Completion(c)) => {
            assert!(c.success);
            assert_eq!(c.exit_code, 0);
            assert_eq!(c.message, "Process completed successfully");
        }
        _ => panic!("completion expected after all log events"),
    }
    match &all[n - 1] {
        Action::Finish(r) => {
            let expected: Vec<String> = (0..100).map(|i| format!("out {}", i)).collect();
            assert_eq!(r.stdout, expected.join("\n"));
            let expected_err: Vec<String> = (0..50).map(|i| format!("err {}", i)).collect();
            assert_eq!(r.stderr, expected_err.join("\n"));
            assert_eq!(r.exit_code, 0);
        }
        _ => panic!("result expected last"),
    }
    assert_eq!(s.phase, Phase::Completed);
}

#[test]
fn silent_exit_three() {
    let mut s = started();
    let mut all: Vec<Action> = Vec::new();
    all.extend(s.step(Input::Exited(Some(3))));
    all.extend(s.step(Input::Eof(StreamKind::Stderr)));
    all.extend(s.step(Input::Eof(StreamKind::Stdout)));
    assert_eq!(count_logs(&all), 0);
    assert_eq!(count_completions(&all), 1);
    match &all[0] {
        Action::Emit(Event::Completion(c)) => {
            assert!(!c.success);
            assert_eq!(c.exit_code, 3);
            assert_eq!(c.message, "Process exited with code 3");
        }
        _ => panic!("completion expected"),
    }
}

#[test]
fn missing_executable_fails_without_events() {
    let mut s = Supervisor::new();
    s.step(Input::Start);
    let acts = s.step(Input::SpawnFailed("No such file or directory".to_string()));
    assert_eq!(acts.len(), 1);
    assert!(matches!(&acts[0], Action::Fail(RunError::Spawn(m)) if m == "No such file or directory"));
    assert_eq!(s.phase, Phase::Failed);
    assert!(s.step(Input::Exited(Some(0))).is_empty());
    assert!(s.step(Input::Eof(StreamKind::Stdout)).is_empty());
}

#[test]
fn cancel_ends_with_failed_completion_and_silence() {
    let mut s = started();
    s.step(Input::Line(StreamKind::Stdout, "working".to_string()));
    let acts = s.step(Input::Cancel);
    assert!(matches!(acts[..], [Action::Kill]));
    assert!(s.step(Input::Cancel).is_empty());
    let mut all: Vec<Action> = Vec::new();
    all.extend(s.step(Input::Exited(None)));
    all.extend(s.step(Input::Eof(StreamKind::Stdout)));
    all.extend(s.step(Input::Eof(StreamKind::Stderr)));
    match &all[0] {
        Action::Emit(Event::Completion(c)) => {
            assert!(!c.success);
            assert_eq!(c.exit_code, -1);
            assert_eq!(c.message, "Process was cancelled");
        }
        _ => panic!("completion expected"),
    }
    assert!(s.step(Input::Line(StreamKind::Stdout, "late".to_string())).is_empty());
    assert!(s.step(Input::Exited(Some(0))).is_empty());
}

#[test]
fn cancel_after_clean_exit_code_zero_still_fails() {
    let mut s = started();
    s.step(Input::Cancel);
    s.step(Input::Exited(Some(0)));
    s.step(Input::Eof(StreamKind::Stdout));
    let acts = s.step(Input::Eof(StreamKind::Stderr));
    assert!(matches!(&acts[0], Action::Emit(Event::Completion(c)) if !c.success && c.exit_code == 0));
}

#[test]
fn cancel_while_spawning_kills_on_start() {
    let mut s = Supervisor::new();
    s.step(Input::Start);
    assert!(s.step(Input::Cancel).is_empty());
    assert!(matches!(s.step(Input::Spawned)[..], [Action::Kill]));
}

#[test]
fn wait_and_drainer_failures_are_errors() {
    let mut s = started();
    let acts = s.step(Input::WaitFailed("lost".to_string()));
    assert!(matches!(&acts[0], Action::Fail(RunError::Wait(m)) if m == "lost"));
    let mut t = started();
    let acts = t.step(Input::DrainerFailed("reader panicked".to_string()));
    assert!(matches!(&acts[0], Action::Fail(RunError::Drainer(_))));
    assert_eq!(t.phase, Phase::Failed);
}

#[test]
fn lines_after_eof_are_ignored() {
    let mut s = started();
    s.step(Input::Eof(StreamKind::Stdout));
    assert!(s.step(Input::Line(StreamKind::Stdout, "x".to_string())).is_empty());
    assert!(s.stdout_lines.is_empty());
}

#[test]
fn completion_messages() {
    assert_eq!(completion_text(-12, false), "Process exited with code -12");
    assert_eq!(completion_text(0, true), "Process was cancelled");
}

#[test]
fn request_validation() {
    assert!(validate_request("worker").is_ok());
    assert!(matches!(validate_request("   "), Err(RunError::Config(_))));
    assert!(matches!(validate_request(""), Err(RunError::Config(_))));
}

#[test]
fn dialog_plan_skips_blank_directory() {
    let p = folder_dialog_plan(Some("Pick".to_string()), Some("  ".to_string()));
    assert_eq!(p.title.as_deref(), Some("Pick"));
    assert!(p.directory.is_none());
    let p = folder_dialog_plan(None, Some("/home/a".to_string()));
    assert!(p.title.is_none());
    assert_eq!(p.directory.as_deref(), Some("/home/a"));
}

#[test]
fn folder_names_and_errors() {
    assert_eq!(skins_folder_name(), "FM Skin Builder");
    assert_eq!(
        directory_error("get", "documents", "denied"),
        "Failed to get documents directory: denied"
    );
}
