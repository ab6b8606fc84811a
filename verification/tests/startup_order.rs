use backend::startup::{LogLine, Stage, Startup, StepResult, Stream};

fn failed(text: &str) -> StepResult {
    StepResult::Failed(String::from(text))
}

fn line(stream: Stream, text: &str) -> LogLine {
    LogLine {
        stream,
        text: String::from(text),
    }
}

#[test]
fn startup_begins_with_the_client() {
    let startup = Startup::new(String::from("0.0.0.0:8000"));
    assert_eq!(startup.stage(), Stage::Connect);
}

#[test]
fn healthy_startup_reaches_serve() {
    let mut startup = Startup::new(String::from("0.0.0.0:8000"));
    assert_eq!(startup.advance(&StepResult::Done), vec![]);
    assert_eq!(startup.stage(), Stage::Ping);
    assert_eq!(
        startup.advance(&StepResult::Done),
        vec![
            line(Stream::Stdout, "Connected to MongoDB successfully!"),
            line(Stream::Stdout, "Listening on 0.0.0.0:8000"),
        ]
    );
    assert_eq!(startup.stage(), Stage::Bind);
    assert_eq!(startup.advance(&StepResult::Done), vec![]);
    assert_eq!(startup.stage(), Stage::Serve);
}

#[test]
fn failed_ping_is_logged_and_the_listener_still_starts() {
    let mut startup = Startup::new(String::from("0.0.0.0:8000"));
    startup.advance(&StepResult::Done);
    let lines = startup.advance(&failed("connection refused"));
    assert_eq!(
        lines,
        vec![
            line(Stream::Stderr, "Failed to ping MongoDB: connection refused"),
            line(Stream::Stdout, "Listening on 0.0.0.0:8000"),
        ]
    );
    assert_eq!(startup.stage(), Stage::Bind);
    assert_eq!(startup.advance(&StepResult::Done), vec![]);
    assert_eq!(startup.stage(), Stage::Serve);
}

#[test]
fn failed_client_is_fatal() {
    let mut startup = Startup::new(String::from("0.0.0.0:8000"));
    assert_eq!(startup.advance(&failed("malformed uri")), vec![]);
    assert_eq!(startup.stage(), Stage::Aborted);
}

#[test]
fn failed_bind_is_fatal() {
    let mut startup = Startup::new(String::from("0.0.0.0:8000"));
    startup.advance(&StepResult::Done);
    startup.advance(&StepResult::Done);
    assert_eq!(startup.advance(&failed("address in use")), vec![]);
    assert_eq!(startup.stage(), Stage::Aborted);
}

#[test]
fn server_error_is_fatal_and_server_return_finishes() {
    let mut startup = Startup::new(String::from("0.0.0.0:8000"));
    startup.advance(&StepResult::Done);
    startup.advance(&failed("down"));
    startup.advance(&StepResult::Done);
    let mut other = Startup::new(String::from("0.0.0.0:8000"));
    other.advance(&StepResult::Done);
    other.advance(&StepResult::Done);
    other.advance(&StepResult::Done);
    assert_eq!(startup.stage(), Stage::Serve);
    assert_eq!(other.stage(), Stage::Serve);

    assert_eq!(startup.advance(&failed("accept failed")), vec![]);
    assert_eq!(startup.stage(), Stage::Aborted);
    assert_eq!(other.advance(&StepResult::Done), vec![]);
    assert_eq!(other.stage(), Stage::Finished);
}

#[test]
fn ended_startup_stays_ended() {
    let mut aborted = Startup::new(String::from("[::]:1"));
    aborted.advance(&failed("no"));
    for result in [StepResult::Done, failed("again")] {
        assert_eq!(aborted.advance(&result), vec![]);
        assert_eq!(aborted.stage(), Stage::Aborted);
    }

    let mut finished = Startup::new(String::from("[::]:1"));
    for _ in 0..4 {
        finished.advance(&StepResult::Done);
    }
    assert_eq!(finished.stage(), Stage::Finished);
    for result in [StepResult::Done, failed("again")] {
        assert_eq!(finished.advance(&result), vec![]);
        assert_eq!(finished.stage(), Stage::Finished);
    }
}

#[test]
fn every_ping_result_leads_to_serve_when_client_and_bind_succeed() {
    for ping in [StepResult::Done, failed(""), failed("timeout")] {
        let mut startup = Startup::new(String::from("127.0.0.1:9"));
        startup.advance(&StepResult::Done);
        startup.advance(&ping);
        startup.advance(&StepResult::Done);
        assert_eq!(startup.stage(), Stage::Serve);
    }
}

#[test]
fn announced_address_is_the_one_given() {
    let mut startup = Startup::new(String::from("127.0.0.1:3000"));
    startup.advance(&StepResult::Done);
    let lines = startup.advance(&StepResult::Done);
    assert_eq!(lines.len(), 2);
    assert_eq!(lines[1], line(Stream::Stdout, "Listening on 127.0.0.1:3000"));
}

#[test]
fn empty_ping_error_leaves_the_bare_prefix() {
    let mut startup = Startup::new(String::new());
    startup.advance(&StepResult::Done);
    let lines = startup.advance(&failed(""));
    assert_eq!(
        lines,
        vec![
            line(Stream::Stderr, "Failed to ping MongoDB: "),
            line(Stream::Stdout, "Listening on "),
        ]
    );
}
