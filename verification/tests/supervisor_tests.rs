use codecell::language::{plan_run, Artifact, Language};
use codecell::streamer::StreamTag;
use codecell::supervisor::{resolve_exit_code, ExecutionResult, RunTask, SENTINEL_EXIT_CODE};

#[test]
fn resolve_exit_code_prefers_reported_code() {
    assert_eq!(resolve_exit_code(true, Some(0)), 0);
    assert_eq!(resolve_exit_code(true, Some(3)), 3);
    assert_eq!(resolve_exit_code(true, None), SENTINEL_EXIT_CODE);
    assert_eq!(resolve_exit_code(false, Some(0)), SENTINEL_EXIT_CODE);
    assert_eq!(resolve_exit_code(false, None), SENTINEL_EXIT_CODE);
}

#[test]
fn interpreted_run_streams_two_lines_then_completes() {
    // An interpreted script prints `a` then `b` on separate lines.
    let plan = plan_run(Language::Python, "print('a')\nprint('b')", "editor-s1", "/tmp");
    let mut task = RunTask::new(plan, "editor-s1".to_string());
    task.prepared();
    task.spawned();

    let first = task.observe_line(StreamTag::Stdout, "a\n");
    assert_eq!(first.line, "a\n");
    assert_eq!(first.stream, "stdout");
    let second = task.observe_line(StreamTag::Stdout, "b\n");
    assert_eq!(second.line, "b\n");
    assert_eq!(second.stream, "stdout");

    task.streams_drained();
    let cleanup = task.take_cleanup();
    assert_eq!(cleanup.len(), 1);
    match &cleanup[0] {
        Artifact::File(path) => assert_eq!(path, "/tmp/codecell_s1.py"),
        Artifact::Dir(_) => panic!("an interpreted run owns a single file"),
    }

    let result: ExecutionResult = task.finish(true, Some(0), 12);
    assert_eq!(result.stdout, "a\nb\n");
    assert_eq!(result.stderr, "");
    assert_eq!(result.exit_code, 0);
    assert_eq!(result.duration_ms, 12);
    // All artifacts are out of the run's hands before the result exists.
    assert_eq!(task.created.len(), 0);
}

#[test]
fn output_events_keep_per_stream_order_and_totals() {
    let plan = plan_run(Language::Node, "", "editor-s2", "/tmp");
    let mut task = RunTask::new(plan, "editor-s2".to_string());
    task.prepared();
    task.spawned();
    let mut stdout_events = 0usize;
    let mut stderr_events = 0usize;
    for (tag, line) in [
        (StreamTag::Stdout, "one\n"),
        (StreamTag::Stderr, "warn\n"),
        (StreamTag::Stdout, "two\n"),
        (StreamTag::Stdout, "three\n"),
        (StreamTag::Stderr, "fail\n"),
    ] {
        let ev = task.observe_line(tag, line);
        assert_eq!(ev.line, line);
        match tag {
            StreamTag::Stdout => {
                stdout_events += 1;
                assert_eq!(ev.stream, "stdout");
            }
            StreamTag::Stderr => {
                stderr_events += 1;
                assert_eq!(ev.stream, "stderr");
            }
        }
    }
    assert_eq!(stdout_events, 3);
    assert_eq!(stderr_events, 2);
    task.streams_drained();
    let _ = task.take_cleanup();
    let result = task.finish(true, Some(0), 1);
    // The buffers are exactly the concatenations of the tagged events.
    assert_eq!(result.stdout, "one\ntwo\nthree\n");
    assert_eq!(result.stderr, "warn\nfail\n");
}

#[test]
fn compile_failure_short_circuits_without_running() {
    let plan = plan_run(Language::Rust, "fn main( {}", "editor-s3", "/tmp");
    let mut task = RunTask::new(plan, "editor-s3".to_string());
    task.prepared();
    task.compile_failed(Some(1), "error: this file contains an unclosed delimiter".to_string());
    let cleanup = task.take_cleanup();
    // Only the source exists: the binary was never produced.
    assert_eq!(cleanup.len(), 1);
    match &cleanup[0] {
        Artifact::File(path) => assert_eq!(path, "/tmp/codecell_s3.rs"),
        Artifact::Dir(_) => panic!("single-binary pipeline writes plain files"),
    }
    let result = task.finish_compile_failure(40);
    assert_eq!(result.stdout, "");
    assert_eq!(
        result.stderr,
        "error: this file contains an unclosed delimiter"
    );
    assert_ne!(result.exit_code, 0);
    assert_eq!(result.exit_code, 1);
    assert_eq!(result.duration_ms, 40);
    assert_eq!(task.created.len(), 0);
}

#[test]
fn compile_failure_without_reportable_code_uses_sentinel() {
    let plan = plan_run(Language::Java, "public class A {", "editor-s4", "/tmp");
    let mut task = RunTask::new(plan, "editor-s4".to_string());
    task.prepared();
    task.compile_failed(None, "compiler crashed".to_string());
    let cleanup = task.take_cleanup();
    match &cleanup[0] {
        Artifact::Dir(path) => assert_eq!(path, "/tmp/codecell_java_s4"),
        Artifact::File(_) => panic!("directory-based pipeline owns its directory"),
    }
    let result = task.finish_compile_failure(5);
    assert_eq!(result.exit_code, SENTINEL_EXIT_CODE);
}

#[test]
fn stopped_run_resolves_the_sentinel_and_leaves_no_scratch() {
    let plan = plan_run(Language::Python, "while True: pass", "editor-s5", "/tmp");
    let mut task = RunTask::new(plan, "editor-s5".to_string());
    task.prepared();
    task.spawned();
    assert!(task.is_live());
    // An explicit stop untracked and killed the process; the streams then
    // reach end of stream and the sequencer finds the session already
    // untracked.
    task.streams_drained();
    let cleanup = task.take_cleanup();
    assert_eq!(cleanup.len(), 1);
    let result = task.finish(false, None, 100);
    assert_eq!(result.exit_code, SENTINEL_EXIT_CODE);
    assert_eq!(result.stdout, "");
    assert_eq!(task.created.len(), 0);
    assert!(!task.is_live());
}

#[test]
fn successful_compile_owns_the_binary_until_cleanup() {
    let plan = plan_run(Language::Rust, "fn main() {}", "editor-s6", "/tmp");
    let mut task = RunTask::new(plan, "editor-s6".to_string());
    task.prepared();
    task.compile_succeeded();
    task.spawned();
    task.streams_drained();
    let cleanup = task.take_cleanup();
    let paths: Vec<String> = cleanup
        .iter()
        .map(|a| match a {
            Artifact::File(p) => p.clone(),
            Artifact::Dir(p) => p.clone(),
        })
        .collect();
    assert_eq!(
        paths,
        vec![
            "/tmp/codecell_s6.rs".to_string(),
            "/tmp/codecell_s6_bin".to_string()
        ]
    );
    let result = task.finish(true, Some(0), 7);
    assert_eq!(result.exit_code, 0);
}

#[test]
fn setup_failure_aborts_and_hands_back_artifacts() {
    let plan = plan_run(Language::Python, "print(1)", "editor-s7", "/tmp");
    let mut task = RunTask::new(plan, "editor-s7".to_string());
    task.prepared();
    // The spawn failed: the run is torn down without a terminal result.
    let cleanup = task.abort();
    assert_eq!(cleanup.len(), 1);
    assert_eq!(task.created.len(), 0);
}
