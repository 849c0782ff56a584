use script_runner::drain::{
    engine_next, strip_trailing_cr, DrainState, EnginePhase, EngineStep, StreamEvent,
};

fn no_replacements() -> Vec<(String, String)> {
    vec![]
}

#[test]
fn lines_accumulate_per_stream_with_newlines() {
    let reps = no_replacements();
    let mut state = DrainState::new();
    let log = state.on_event(StreamEvent::OutLine("hello".to_string()), &reps);
    assert_eq!(log, Some("hello".to_string()));
    let log = state.on_event(StreamEvent::ErrLine("warning: x".to_string()), &reps);
    assert_eq!(log, Some("warning: x".to_string()));
    let log = state.on_event(StreamEvent::OutLine("world".to_string()), &reps);
    assert_eq!(log, Some("world".to_string()));
    assert_eq!(state.stdout, "hello\nworld\n");
    assert_eq!(state.stderr, "warning: x\n");
}

#[test]
fn redaction_applies_to_captured_output_and_log() {
    let reps = vec![("secret123".to_string(), "***".to_string())];
    let mut state = DrainState::new();
    let log = state.on_event(StreamEvent::OutLine("token=secret123".to_string()), &reps);
    // Neither what is captured nor what is logged carries the secret.
    assert_eq!(log, Some("token=***".to_string()));
    assert_eq!(state.stdout, "token=***\n");
    assert!(!state.stdout.contains("secret123"));
}

#[test]
fn drain_ends_only_when_both_streams_end() {
    let reps = no_replacements();
    let mut state = DrainState::new();
    assert!(!state.done());
    state.on_event(StreamEvent::OutEof, &reps);
    assert!(!state.done());
    // stderr keeps producing long after stdout ended.
    state.on_event(StreamEvent::ErrLine("late line".to_string()), &reps);
    assert!(!state.done());
    state.on_event(StreamEvent::ErrEof, &reps);
    assert!(state.done());
    assert_eq!(state.stderr, "late line\n");
}

#[test]
fn eof_order_does_not_matter() {
    let reps = no_replacements();
    let mut state = DrainState::new();
    state.on_event(StreamEvent::ErrEof, &reps);
    assert!(!state.done());
    state.on_event(StreamEvent::OutEof, &reps);
    assert!(state.done());
}

#[test]
fn read_error_ends_drain_early_and_keeps_output() {
    let reps = no_replacements();
    let mut state = DrainState::new();
    state.on_event(StreamEvent::OutLine("partial".to_string()), &reps);
    state.on_event(StreamEvent::ReadError, &reps);
    assert!(state.done());
    assert_eq!(state.stdout, "partial\n");
}

#[test]
fn trailing_carriage_return_is_stripped() {
    assert_eq!(strip_trailing_cr("hello\r"), "hello");
    assert_eq!(strip_trailing_cr("hello"), "hello");
    assert_eq!(strip_trailing_cr(""), "");
    // Only the one trailing carriage return goes; the rest of the line stays.
    assert_eq!(strip_trailing_cr("a\rb\r"), "a\rb");
}

#[test]
fn result_carries_status_and_buffers() {
    let reps = no_replacements();
    let mut state = DrainState::new();
    state.on_event(StreamEvent::OutLine("hello".to_string()), &reps);
    state.on_event(StreamEvent::OutEof, &reps);
    state.on_event(StreamEvent::ErrEof, &reps);
    let result = state.into_result(Some(0), true);
    assert_eq!(result.exit_code, Some(0));
    assert!(result.success);
    assert_eq!(result.stdout, "hello\n");
    assert_eq!(result.stderr, "");
}

#[test]
fn host_echo_invocation_walks_to_finalized() {
    // The engine's walk for `echo hello` in a writable working directory:
    // build, spawn, one stdout line, both end-of-streams, wait, flush.
    let reps = no_replacements();
    let mut state = DrainState::new();
    let mut log_lines: Vec<String> = Vec::new();

    let mut phase = EnginePhase::Built;
    phase = engine_next(phase, &EngineStep::Spawn).unwrap();

    let events = vec![
        StreamEvent::OutLine("hello".to_string()),
        StreamEvent::OutEof,
        StreamEvent::ErrEof,
    ];
    for event in events {
        let for_walk = match &event {
            StreamEvent::OutLine(l) => StreamEvent::OutLine(l.clone()),
            StreamEvent::ErrLine(l) => StreamEvent::ErrLine(l.clone()),
            StreamEvent::OutEof => StreamEvent::OutEof,
            StreamEvent::ErrEof => StreamEvent::ErrEof,
            StreamEvent::ReadError => StreamEvent::ReadError,
        };
        if let Some(line) = state.on_event(event, &reps) {
            log_lines.push(line);
        }
        phase = engine_next(phase, &EngineStep::Stream(for_walk)).unwrap();
    }

    // The wait happens only now that the drain is done.
    assert!(state.done());
    phase = engine_next(phase, &EngineStep::Wait).unwrap();
    assert!(matches!(phase, EnginePhase::Exited));
    phase = engine_next(phase, &EngineStep::Flush).unwrap();
    assert!(matches!(phase, EnginePhase::Finalized));

    let result = state.into_result(Some(0), true);
    assert!(result.success);
    assert_eq!(result.stdout, "hello\n");
    assert_eq!(result.stderr, "");
    // The log saw exactly the one line.
    assert_eq!(log_lines, vec!["hello".to_string()]);
}

#[test]
fn wait_is_refused_while_a_stream_is_open() {
    let phase = engine_next(EnginePhase::Built, &EngineStep::Spawn).unwrap();
    // No stream has ended: waiting is not a legal step.
    assert!(engine_next(phase, &EngineStep::Wait).is_none());
    let phase = engine_next(phase, &EngineStep::Stream(StreamEvent::OutEof)).unwrap();
    assert!(engine_next(phase, &EngineStep::Wait).is_none());
    let phase = engine_next(phase, &EngineStep::Stream(StreamEvent::ErrEof)).unwrap();
    assert!(matches!(
        engine_next(phase, &EngineStep::Wait),
        Some(EnginePhase::Exited)
    ));
}

#[test]
fn read_error_allows_wait() {
    let phase = engine_next(EnginePhase::Built, &EngineStep::Spawn).unwrap();
    let phase = engine_next(phase, &EngineStep::Stream(StreamEvent::ReadError)).unwrap();
    assert!(matches!(
        engine_next(phase, &EngineStep::Wait),
        Some(EnginePhase::Exited)
    ));
}
