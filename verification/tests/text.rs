use sidecar_supervisor::log::{worker_failure_line, worker_line};
use sidecar_supervisor::text::tagged;
use sidecar_supervisor::{greet, LogRecord, LogStream};

#[test]
fn greet_says_hello() {
    assert_eq!(greet("Ada"), "Hello, Ada! You've been greeted from Rust!");
}

#[test]
fn greet_with_empty_name() {
    assert_eq!(greet(""), "Hello, ! You've been greeted from Rust!");
}

#[test]
fn tagged_puts_tag_before_body() {
    assert_eq!(tagged("[a] ", "b"), "[a] b");
    assert_eq!(tagged("", ""), "");
}

#[test]
fn worker_output_is_quoted() {
    let record = LogRecord::WorkerOutput(b"listening on 8080\n".to_vec());
    assert_eq!(record.text(), "[Sidecar stdout] \"listening on 8080\\n\"");
    assert_eq!(record.stream(), LogStream::Stdout);
}

#[test]
fn worker_error_output_is_quoted() {
    let record = LogRecord::WorkerErrorOutput(b"say \"hi\"\t\\".to_vec());
    assert_eq!(record.text(), "[Sidecar stderr] \"say \\\"hi\\\"\\t\\\\\"");
    assert_eq!(record.stream(), LogStream::Stderr);
}

#[test]
fn worker_output_is_decoded_lossily() {
    let record = LogRecord::WorkerOutput(vec![b'o', b'k', 0xff, b'!']);
    assert_eq!(record.text(), "[Sidecar stdout] \"ok\u{fffd}!\"");
    let truncated = LogRecord::WorkerErrorOutput(vec![0xe2, 0x82]);
    assert_eq!(truncated.text(), "[Sidecar stderr] \"\u{fffd}\"");
}

#[test]
fn worker_output_keeps_valid_utf8() {
    let record = LogRecord::WorkerOutput("grüß 🦀".as_bytes().to_vec());
    assert_eq!(record.text(), "[Sidecar stdout] \"grüß 🦀\"");
}

#[test]
fn worker_line_of_empty_output() {
    assert_eq!(worker_line("[Sidecar stdout] ", &Vec::new()), "[Sidecar stdout] \"\"");
}

#[test]
fn worker_failure_text() {
    assert_eq!(worker_failure_line("disk full"), "[Sidecar error] disk full");
    let record = LogRecord::WorkerFailed(String::from("disk full"));
    assert_eq!(record.text(), "[Sidecar error] disk full");
    assert_eq!(record.stream(), LogStream::Stderr);
}

#[test]
fn fixed_lines() {
    assert_eq!(LogRecord::WorkerTerminated.text(), "[Sidecar] Terminated.");
    assert_eq!(LogRecord::WorkerTerminated.stream(), LogStream::Stderr);
    assert_eq!(
        LogRecord::SpawnFailed(String::from("not found")).text(),
        "[Sidecar] Failed to spawn: not found"
    );
    assert_eq!(LogRecord::SpawnFailed(String::new()).stream(), LogStream::Stderr);
    assert_eq!(LogRecord::Killed.text(), "🛑 Sidecar process killed.");
    assert_eq!(LogRecord::Killed.stream(), LogStream::Stdout);
    assert_eq!(LogRecord::KilledOnRestart.text(), "🛑 Sidecar killed on restart.");
    assert_eq!(LogRecord::KilledOnRestart.stream(), LogStream::Stdout);
    assert_eq!(LogRecord::ExitRequested.text(), "🚨 Exit requested!");
    assert_eq!(LogRecord::ExitRequested.stream(), LogStream::Stdout);
    assert_eq!(LogRecord::RestartRequested.text(), "🚨 Restart requested!");
    assert_eq!(LogRecord::RestartRequested.stream(), LogStream::Stdout);
}
