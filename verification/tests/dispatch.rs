use secstr::SecUtf8;
use ssh_nicety_common::codec::{DecodeError, Field};
use ssh_nicety_common::command::SynthesisError;
use ssh_nicety_common::dispatch::{
    accept, step, Action, DispatchError, Event, ExecutionError, Report, Stage, State,
};
use ssh_nicety_common::identity::{AuthorizationError, RemoteIdentity};

fn identities() -> Vec<RemoteIdentity> {
    vec![
        RemoteIdentity::new("a".to_string(), SecUtf8::from("S1")).unwrap(),
        RemoteIdentity::new("b".to_string(), SecUtf8::from("S2")).unwrap(),
    ]
}

fn connected(bytes: &[u8]) -> Event {
    Event::Connected { bytes: bytes.to_vec(), identities: identities() }
}

fn strings(texts: &[&str]) -> Vec<String> {
    texts.iter().map(|t| t.to_string()).collect()
}

#[test]
fn accept_makes_the_command_for_the_matching_identity() {
    let invocation = accept(br#"{"secret":"S2","type":"terminal","path":"/tmp/a b"}"#, &identities()).unwrap();
    assert_eq!(invocation.program, "gnome-terminal");
    assert_eq!(invocation.args, strings(&["--tab", "--", "ssh", "-t", "b", "cd '/tmp/a b'; exec $SHELL -l"]));
    let invocation = accept(br#"{"secret":"S1","type":"code","path":"/srv/proj"}"#, &identities()).unwrap();
    assert_eq!(invocation.program, "code");
    assert_eq!(invocation.args, strings(&["--folder-uri", "vscode-remote://ssh-remote+a/srv/proj"]));
}

#[test]
fn accept_fails_at_each_stage() {
    let known = identities();
    assert_eq!(accept(b"{\"secret\"", &known), Err(DispatchError::Decode(DecodeError::Malformed)));
    assert_eq!(
        accept(br#"{"secret":"S1","type":"code"}"#, &known),
        Err(DispatchError::Decode(DecodeError::Missing(Field::Path)))
    );
    assert_eq!(
        accept(br#"{"secret":"S3","type":"code","path":"/p"}"#, &known),
        Err(DispatchError::Authorization(AuthorizationError::NoMatch))
    );
    assert_eq!(
        accept(br#"{"secret":"S1","type":"code","path":"/p\u0000"}"#, &known),
        Err(DispatchError::Synthesis(SynthesisError::UnrepresentablePath))
    );
}

#[test]
fn accept_checks_the_secret_before_the_request() {
    let outcome = accept(br#"{"secret":"S3","type":"code","path":"/p\u0000"}"#, &identities());
    assert_eq!(outcome, Err(DispatchError::Authorization(AuthorizationError::NoMatch)));
    let outcome = accept(br#"{"secret":"S1","type":"code","path":"/p"}"#, &Vec::new());
    assert_eq!(outcome, Err(DispatchError::Authorization(AuthorizationError::NoMatch)));
}

#[test]
fn errors_name_their_stage() {
    assert_eq!(DispatchError::Connection.stage(), Stage::Accepted);
    assert_eq!(DispatchError::Decode(DecodeError::UnknownKind).stage(), Stage::Decoding);
    assert_eq!(DispatchError::Authorization(AuthorizationError::NoMatch).stage(), Stage::Authorizing);
    assert_eq!(DispatchError::Synthesis(SynthesisError::UnrepresentableName).stage(), Stage::Synthesizing);
    assert_eq!(DispatchError::Execution(ExecutionError::NotLaunched).stage(), Stage::Executing);
}

#[test]
fn valid_connection_is_launched_and_reported() {
    let (state, action) = step(State::Listening, connected(br#"{"secret":"S1","type":"code","path":"/srv/proj"}"#));
    assert_eq!(state, State::Executing);
    match action {
        Action::Launch(invocation) => {
            assert_eq!(invocation.program, "code");
            assert_eq!(invocation.args, strings(&["--folder-uri", "vscode-remote://ssh-remote+a/srv/proj"]));
        }
        other => panic!("{:?}", other),
    }
    let (state, action) = step(state, Event::Exited { code: Some(0) });
    assert_eq!(state, State::Listening);
    assert!(matches!(action, Action::Report(Report::Completed)));
}

#[test]
fn failed_connection_does_not_stop_the_next() {
    let mut state = State::Listening;
    for bad in [&b"{\"secret\":\"S1\",\"ty"[..], &br#"{"secret":"S3","type":"code","path":"/p"}"#[..], &b"garbage"[..]] {
        let (next, action) = step(state, connected(bad));
        assert_eq!(next, State::Listening);
        assert!(matches!(action, Action::Report(Report::Failed(DispatchError::Decode(_) | DispatchError::Authorization(_)))));
        state = next;
    }
    let (next, action) = step(state, connected(br#"{"secret":"S2","type":"terminal","path":"/tmp"}"#));
    assert_eq!(next, State::Executing);
    match action {
        Action::Launch(invocation) => {
            assert_eq!(invocation.args, strings(&["--tab", "--", "ssh", "-t", "b", "cd /tmp; exec $SHELL -l"]));
        }
        other => panic!("{:?}", other),
    }
    let (next, action) = step(next, Event::Exited { code: Some(0) });
    assert_eq!(next, State::Listening);
    assert!(matches!(action, Action::Report(Report::Completed)));
}

#[test]
fn failures_are_reported_with_their_error() {
    let (state, action) = step(State::Listening, connected(b"[]"));
    assert_eq!(state, State::Listening);
    assert!(matches!(action, Action::Report(Report::Failed(DispatchError::Decode(DecodeError::Malformed)))));
    let (state, action) = step(state, connected(br#"{"secret":"S9","type":"code","path":"/p"}"#));
    assert_eq!(state, State::Listening);
    assert!(matches!(
        action,
        Action::Report(Report::Failed(DispatchError::Authorization(AuthorizationError::NoMatch)))
    ));
    let (state, action) = step(state, connected(br#"{"secret":"S1","type":"terminal","path":"\u0000"}"#));
    assert_eq!(state, State::Listening);
    assert!(matches!(
        action,
        Action::Report(Report::Failed(DispatchError::Synthesis(SynthesisError::UnrepresentablePath)))
    ));
    let (state, action) = step(state, Event::ConnectionLost);
    assert_eq!(state, State::Listening);
    assert!(matches!(action, Action::Report(Report::Failed(DispatchError::Connection))));
}

#[test]
fn end_of_the_command_is_reported() {
    let (state, action) = step(State::Executing, Event::Exited { code: Some(3) });
    assert_eq!(state, State::Listening);
    assert!(matches!(
        action,
        Action::Report(Report::Failed(DispatchError::Execution(ExecutionError::Status(Some(3)))))
    ));
    let (state, action) = step(State::Executing, Event::Exited { code: None });
    assert_eq!(state, State::Listening);
    assert!(matches!(
        action,
        Action::Report(Report::Failed(DispatchError::Execution(ExecutionError::Status(None))))
    ));
    let (state, action) = step(State::Executing, Event::LaunchFailed);
    assert_eq!(state, State::Listening);
    assert!(matches!(
        action,
        Action::Report(Report::Failed(DispatchError::Execution(ExecutionError::NotLaunched)))
    ));
}

#[test]
fn losing_the_listener_stops_for_good() {
    for state in [State::Listening, State::Executing, State::Stopped] {
        let (next, action) = step(state, Event::ListenerLost);
        assert_eq!(next, State::Stopped);
        assert!(matches!(action, Action::Stop));
    }
    let (next, action) = step(State::Stopped, connected(br#"{"secret":"S1","type":"code","path":"/p"}"#));
    assert_eq!(next, State::Stopped);
    assert!(matches!(action, Action::Stop));
    let (next, action) = step(State::Stopped, Event::Exited { code: Some(0) });
    assert_eq!(next, State::Stopped);
    assert!(matches!(action, Action::Stop));
}

#[test]
fn events_out_of_turn_change_nothing() {
    let (state, action) = step(State::Listening, Event::Exited { code: Some(0) });
    assert_eq!(state, State::Listening);
    assert!(matches!(action, Action::Ignore));
    let (state, action) = step(State::Listening, Event::LaunchFailed);
    assert_eq!(state, State::Listening);
    assert!(matches!(action, Action::Ignore));
    let (state, action) = step(State::Executing, connected(br#"{"secret":"S1","type":"code","path":"/p"}"#));
    assert_eq!(state, State::Executing);
    assert!(matches!(action, Action::Ignore));
    let (state, action) = step(State::Executing, Event::ConnectionLost);
    assert_eq!(state, State::Executing);
    assert!(matches!(action, Action::Ignore));
}
