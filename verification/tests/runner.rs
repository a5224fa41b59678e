use agent_runner::command::{command_args, program_name};
use agent_runner::event::AgentEvent;
use agent_runner::messages::{launch_error_message, wait_error_message};
use agent_runner::runner::{Phase, Runner};

#[test]
fn stdout_lines_then_success() {
    let mut r = Runner::new();
    assert_eq!(r.current_phase(), Phase::Launching);
    r.on_spawn_ok();
    assert_eq!(r.current_phase(), Phase::Streaming);
    let e1 = r.on_stdout_line("a".to_string());
    let e2 = r.on_stdout_line("b".to_string());
    let e3 = r.on_exit(Some(0));
    assert_eq!(e1, AgentEvent::Stdout { line: "a".to_string() });
    assert_eq!(e2, AgentEvent::Stdout { line: "b".to_string() });
    assert_eq!(e3, AgentEvent::Finished { success: true });
    assert_eq!(r.current_phase(), Phase::Completed);
}

#[test]
fn stderr_line_then_exit_one() {
    let mut r = Runner::new();
    r.on_spawn_ok();
    let e1 = r.on_stderr_line("agent exploded".to_string());
    let e2 = r.on_exit(Some(1));
    assert_eq!(e1, AgentEvent::Stderr { line: "agent exploded".to_string() });
    assert_eq!(e2, AgentEvent::Finished { success: false });
    assert_eq!(r.current_phase(), Phase::Completed);
}

#[test]
fn missing_executable_reports_error() {
    let mut r = Runner::new();
    let (event, message) = r.on_spawn_failure("No such file or directory (os error 2)");
    assert!(message.contains("Failed to execute command"));
    assert_eq!(
        message,
        "Failed to execute command: No such file or directory (os error 2)"
    );
    assert_eq!(event, AgentEvent::Error { message: message.clone() });
    assert_eq!(r.current_phase(), Phase::LaunchFailed);
}

#[test]
fn exit_code_zero_is_success() {
    let mut r = Runner::new();
    r.on_spawn_ok();
    assert_eq!(r.on_exit(Some(0)), AgentEvent::Finished { success: true });
}

#[test]
fn nonzero_exit_code_is_failure() {
    let mut r = Runner::new();
    r.on_spawn_ok();
    assert_eq!(r.on_exit(Some(42)), AgentEvent::Finished { success: false });
}

#[test]
fn exit_without_code_is_failure() {
    let mut r = Runner::new();
    r.on_spawn_ok();
    assert_eq!(r.on_exit(None), AgentEvent::Finished { success: false });
}

#[test]
fn interleaved_streams_keep_per_stream_order() {
    let mut r = Runner::new();
    r.on_spawn_ok();
    let events = vec![
        r.on_stdout_line("out 1".to_string()),
        r.on_stderr_line("err 1".to_string()),
        r.on_stdout_line("out 2".to_string()),
        r.on_stderr_line("err 2".to_string()),
        r.on_exit(Some(0)),
    ];
    let stdout: Vec<&AgentEvent> = events
        .iter()
        .filter(|e| matches!(e, AgentEvent::Stdout { .. }))
        .collect();
    let stderr: Vec<&AgentEvent> = events
        .iter()
        .filter(|e| matches!(e, AgentEvent::Stderr { .. }))
        .collect();
    assert_eq!(stdout.len(), 2);
    assert_eq!(stderr.len(), 2);
    assert_eq!(*stdout[0], AgentEvent::Stdout { line: "out 1".to_string() });
    assert_eq!(*stdout[1], AgentEvent::Stdout { line: "out 2".to_string() });
    assert_eq!(*stderr[0], AgentEvent::Stderr { line: "err 1".to_string() });
    assert_eq!(*stderr[1], AgentEvent::Stderr { line: "err 2".to_string() });
    assert_eq!(events.last(), Some(&AgentEvent::Finished { success: true }));
}

#[test]
fn disconnected_sink_still_reaches_exit() {
    // The drain loops stop delivering once the sink is gone, but the runner
    // still waits for the child and records its exit.
    let mut r = Runner::new();
    r.on_spawn_ok();
    let _ = r.on_stdout_line("delivered before the sink went away".to_string());
    // No further lines are recorded; the exit is still accepted.
    let e = r.on_exit(Some(0));
    assert_eq!(e, AgentEvent::Finished { success: true });
    assert_eq!(r.current_phase(), Phase::Completed);
}

#[test]
fn wait_failure_fails_call_without_event() {
    let mut r = Runner::new();
    r.on_spawn_ok();
    let msg = r.on_wait_failure("waitpid interrupted");
    assert_eq!(msg, "Failed to wait for process: waitpid interrupted");
    assert_eq!(r.current_phase(), Phase::WaitFailed);
}

#[test]
fn launch_error_message_text() {
    assert_eq!(
        launch_error_message("permission denied"),
        "Failed to execute command: permission denied"
    );
}

#[test]
fn wait_error_message_text() {
    assert_eq!(
        wait_error_message("interrupted"),
        "Failed to wait for process: interrupted"
    );
}

#[test]
fn program_is_fixed() {
    assert_eq!(program_name(), "opencode");
}

#[test]
fn command_arguments_in_order() {
    let args = command_args("sonnet", "say hello");
    assert_eq!(args, vec!["run", "-m", "sonnet", "say hello"]);
}

#[test]
fn prompt_stays_one_argument() {
    // No shell interpretation: whatever the prompt holds, it is one argv
    // entry, handed over verbatim.
    let prompt = "a; rm -rf \"$HOME\" && echo 'injected'";
    let args = command_args("m", prompt);
    assert_eq!(args.len(), 4);
    assert_eq!(args[3], prompt);
}
