use code_relay::error::{DecodeFault, HandlerError, IoStage};
use code_relay::relay::{Event, Source};
use code_relay::session::{Outcome, Session, Step};
use code_relay::workspace::Workspace;

fn dir() -> String {
    "temp/123e4567-e89b-42d3-a456-426614174000".to_string()
}

fn script() -> String {
    "temp/123e4567-e89b-42d3-a456-426614174000/script.js".to_string()
}

fn open() -> Session {
    let workspace =
        Workspace::with_id("123e4567-e89b-42d3-a456-426614174000".to_string()).unwrap();
    let (session, step) = Session::open(workspace);
    assert_eq!(step, Step::Read(4));
    session
}

fn payload(kind: u32, language: &str, code: &str) -> Vec<u8> {
    bincode::encode_to_vec(
        (kind, language.to_string(), code.to_string()),
        bincode::config::standard(),
    )
    .unwrap()
}

fn line(source: Source, text: &str) -> Outcome {
    Outcome::Output(Event::Line(source, text.to_string()))
}

fn end(source: Source) -> Outcome {
    Outcome::Output(Event::End(source))
}

/// Feeds the outcomes in order and returns the session with the steps given.
fn drive(session: Session, outcomes: Vec<Outcome>) -> (Session, Vec<Step>) {
    let mut session = session;
    let mut steps = Vec::new();
    for outcome in outcomes {
        let (next, step) = session.advance(outcome);
        session = next;
        steps.push(step);
    }
    (session, steps)
}

/// The outcomes that bring a session with this code to its first poll.
fn until_polling(code: &str) -> Vec<Outcome> {
    let payload = payload(0, "javascript", code);
    vec![
        Outcome::Bytes((payload.len() as u32).to_le_bytes().to_vec()),
        Outcome::Bytes(payload),
        Outcome::Done,
        Outcome::Done,
        Outcome::Done,
    ]
}

fn sent(steps: &[Step]) -> Vec<String> {
    let mut texts = Vec::new();
    for step in steps {
        if let Step::Send(text) = step {
            texts.push(text.clone());
        }
    }
    texts
}

fn count(steps: &[Step], wanted: &Step) -> usize {
    steps.iter().filter(|step| *step == wanted).count()
}

#[test]
fn hello_is_relayed_and_the_workspace_removed() {
    let mut outcomes = until_polling("console.log('hi')");
    outcomes.extend(vec![
        line(Source::Stdout, "hi"),
        Outcome::Done,
        end(Source::Stdout),
        end(Source::Stderr),
        Outcome::Output(Event::Exited),
        Outcome::Done,
    ]);
    let (session, steps) = drive(open(), outcomes);
    let announced = payload(0, "javascript", "console.log('hi')").len() as u32;
    assert_eq!(
        steps,
        vec![
            Step::Read(announced),
            Step::CreateDir(dir()),
            Step::WriteSource { path: script(), code: "console.log('hi')".to_string() },
            Step::Spawn { program: "node".to_string(), script: script() },
            Step::Poll { stdout: true, stderr: true, exit: false },
            Step::Send("hi\n".to_string()),
            Step::Poll { stdout: true, stderr: true, exit: false },
            Step::Poll { stdout: false, stderr: true, exit: false },
            Step::Poll { stdout: false, stderr: false, exit: true },
            Step::RemoveDir(dir()),
            Step::Close(Ok(())),
        ]
    );
    assert_eq!(sent(&steps), vec!["hi\n"]);
    assert_eq!(session.result(), Some(Ok(())));
    assert_eq!(session.workspace().dir_path(), dir());
}

#[test]
fn both_streams_are_relayed_whatever_the_exit_code() {
    let mut outcomes = until_polling("console.log('out'); console.error('err'); process.exit(3)");
    outcomes.extend(vec![
        line(Source::Stderr, "err"),
        Outcome::Done,
        line(Source::Stdout, "out"),
        Outcome::Done,
        end(Source::Stderr),
        end(Source::Stdout),
        Outcome::Output(Event::Exited),
        Outcome::Done,
    ]);
    let (session, steps) = drive(open(), outcomes);
    assert_eq!(sent(&steps), vec!["err\n", "out\n"]);
    assert_eq!(count(&steps, &Step::RemoveDir(dir())), 1);
    assert_eq!(steps.last(), Some(&Step::Close(Ok(()))));
    assert_eq!(session.result(), Some(Ok(())));
}

#[test]
fn lines_of_each_stream_keep_their_order() {
    let mut outcomes = until_polling("x");
    for outcome in [
        line(Source::Stdout, "o1"),
        line(Source::Stderr, "e1"),
        line(Source::Stdout, "o2"),
        line(Source::Stdout, "o3"),
        line(Source::Stderr, "e2"),
    ] {
        outcomes.push(outcome);
        outcomes.push(Outcome::Done);
    }
    let (_, steps) = drive(open(), outcomes);
    assert_eq!(sent(&steps), vec!["o1\n", "e1\n", "o2\n", "o3\n", "e2\n"]);
}

#[test]
fn missing_interpreter_closes_with_nothing_relayed() {
    let mut outcomes = until_polling("console.log('hi')");
    outcomes.pop();
    outcomes.push(Outcome::Failed);
    outcomes.push(Outcome::Done);
    let (session, steps) = drive(open(), outcomes);
    assert!(sent(&steps).is_empty());
    assert_eq!(
        &steps[3..],
        &[
            Step::Spawn { program: "node".to_string(), script: script() },
            Step::RemoveDir(dir()),
            Step::Close(Err(HandlerError::SpawnError)),
        ]
    );
    assert_eq!(session.result(), Some(Err(HandlerError::SpawnError)));
}

#[test]
fn missing_pipes_remove_the_workspace() {
    let mut outcomes = until_polling("1");
    outcomes.pop();
    outcomes.push(Outcome::NoPipes);
    outcomes.push(Outcome::Done);
    let (session, steps) = drive(open(), outcomes);
    assert_eq!(
        &steps[4..],
        &[Step::RemoveDir(dir()), Step::Close(Err(HandlerError::ProcessIOError))]
    );
    assert_eq!(session.result(), Some(Err(HandlerError::ProcessIOError)));
}

#[test]
fn truncated_payload_is_a_decode_failure_and_creates_nothing() {
    let mut bytes = payload(0, "javascript", "console.log('hi')");
    let announced = bytes.len() as u32;
    bytes.pop();
    let (session, steps) = drive(
        open(),
        vec![Outcome::Bytes(announced.to_le_bytes().to_vec()), Outcome::Bytes(bytes)],
    );
    assert_eq!(
        steps,
        vec![
            Step::Read(announced),
            Step::Close(Err(HandlerError::DecodeError(DecodeFault::UnexpectedEnd))),
        ]
    );
    assert_eq!(
        session.result(),
        Some(Err(HandlerError::DecodeError(DecodeFault::UnexpectedEnd)))
    );
}

#[test]
fn truncated_header_is_a_decode_failure() {
    let (session, step) = open().advance(Outcome::Bytes(vec![9, 0]));
    assert_eq!(step, Step::Close(Err(HandlerError::DecodeError(DecodeFault::UnexpectedEnd))));
    assert!(session.result().is_some());
    let (_, step) = open().advance(Outcome::Bytes(Vec::new()));
    assert_eq!(step, Step::Close(Err(HandlerError::DecodeError(DecodeFault::UnexpectedEnd))));
}

#[test]
fn failed_read_is_an_io_error() {
    let (_, step) = open().advance(Outcome::Failed);
    assert_eq!(step, Step::Close(Err(HandlerError::IoError(IoStage::ReadRequest))));
    let (session, _) = open().advance(Outcome::Bytes(vec![3, 0, 0, 0]));
    let (_, step) = session.advance(Outcome::Failed);
    assert_eq!(step, Step::Close(Err(HandlerError::IoError(IoStage::ReadRequest))));
}

#[test]
fn malformed_payload_names_its_fault() {
    let cases: Vec<(Vec<u8>, DecodeFault)> = vec![
        (vec![9, 0, 0], DecodeFault::UnexpectedVariant),
        (vec![255, 0, 0], DecodeFault::InvalidIntegerType),
        (vec![0, 1, 0xff, 0], DecodeFault::Utf8),
        (vec![0, 2, b'j', b's', 9, b'x'], DecodeFault::UnexpectedEnd),
        (vec![], DecodeFault::UnexpectedEnd),
    ];
    for (bytes, fault) in cases {
        let header = (bytes.len() as u32).to_le_bytes().to_vec();
        let (_, steps) = drive(open(), vec![Outcome::Bytes(header), Outcome::Bytes(bytes)]);
        assert_eq!(steps[1], Step::Close(Err(HandlerError::DecodeError(fault))));
    }
}

#[test]
fn reserved_kind_is_not_acted_upon() {
    let bytes = payload(1, "javascript", "console.log('hi')");
    let header = (bytes.len() as u32).to_le_bytes().to_vec();
    let (session, steps) = drive(open(), vec![Outcome::Bytes(header), Outcome::Bytes(bytes)]);
    assert_eq!(steps[1], Step::Close(Ok(())));
    assert_eq!(session.result(), Some(Ok(())));
}

#[test]
fn failed_directory_leaves_nothing_to_remove() {
    let mut outcomes = until_polling("1");
    outcomes.truncate(2);
    outcomes.push(Outcome::Failed);
    let (session, steps) = drive(open(), outcomes);
    assert_eq!(
        &steps[1..],
        &[
            Step::CreateDir(dir()),
            Step::Close(Err(HandlerError::IoError(IoStage::CreateWorkspace))),
        ]
    );
    assert_eq!(count(&steps, &Step::RemoveDir(dir())), 0);
    assert_eq!(
        session.result(),
        Some(Err(HandlerError::IoError(IoStage::CreateWorkspace)))
    );
}

#[test]
fn failed_write_removes_the_directory() {
    let mut outcomes = until_polling("1");
    outcomes.truncate(3);
    outcomes.push(Outcome::Failed);
    outcomes.push(Outcome::Done);
    let (_, steps) = drive(open(), outcomes);
    assert_eq!(
        &steps[2..],
        &[
            Step::WriteSource { path: script(), code: "1".to_string() },
            Step::RemoveDir(dir()),
            Step::Close(Err(HandlerError::IoError(IoStage::WriteSource))),
        ]
    );
}

#[test]
fn failed_stream_read_removes_the_workspace_before_the_error() {
    let mut outcomes = until_polling("1");
    outcomes.extend(vec![line(Source::Stdout, "partial"), Outcome::Done, Outcome::Failed]);
    outcomes.push(Outcome::Done);
    let (session, steps) = drive(open(), outcomes);
    assert_eq!(sent(&steps), vec!["partial\n"]);
    let n = steps.len();
    assert_eq!(steps[n - 2], Step::RemoveDir(dir()));
    assert_eq!(steps[n - 1], Step::Close(Err(HandlerError::IoError(IoStage::ReadOutput))));
    assert_eq!(session.result(), Some(Err(HandlerError::IoError(IoStage::ReadOutput))));
}

#[test]
fn failed_send_removes_the_workspace_before_the_error() {
    let mut outcomes = until_polling("1");
    outcomes.extend(vec![line(Source::Stderr, "x"), Outcome::Failed, Outcome::Done]);
    let (_, steps) = drive(open(), outcomes);
    let n = steps.len();
    assert_eq!(steps[n - 3], Step::Send("x\n".to_string()));
    assert_eq!(steps[n - 2], Step::RemoveDir(dir()));
    assert_eq!(steps[n - 1], Step::Close(Err(HandlerError::IoError(IoStage::Relay))));
}

#[test]
fn failed_removal_is_reported_only_after_success() {
    let mut outcomes = until_polling("1");
    outcomes.extend(vec![
        end(Source::Stdout),
        end(Source::Stderr),
        Outcome::Output(Event::Exited),
        Outcome::Failed,
    ]);
    let (_, steps) = drive(open(), outcomes);
    assert_eq!(
        steps.last(),
        Some(&Step::Close(Err(HandlerError::IoError(IoStage::RemoveWorkspace))))
    );

    let mut outcomes = until_polling("1");
    outcomes.pop();
    outcomes.extend(vec![Outcome::Failed, Outcome::Failed]);
    let (_, steps) = drive(open(), outcomes);
    assert_eq!(steps.last(), Some(&Step::Close(Err(HandlerError::SpawnError))));
    assert_eq!(count(&steps, &Step::RemoveDir(dir())), 1);
}

#[test]
fn exit_reported_early_does_not_end_the_relaying() {
    let mut outcomes = until_polling("1");
    outcomes.extend(vec![
        Outcome::Output(Event::Exited),
        end(Source::Stdout),
        Outcome::Output(Event::Exited),
        line(Source::Stderr, "still here"),
        Outcome::Done,
        end(Source::Stderr),
        Outcome::Output(Event::Exited),
        Outcome::Done,
    ]);
    let (session, steps) = drive(open(), outcomes);
    assert_eq!(
        &steps[5..],
        &[
            Step::Poll { stdout: true, stderr: true, exit: false },
            Step::Poll { stdout: false, stderr: true, exit: false },
            Step::Poll { stdout: false, stderr: true, exit: false },
            Step::Send("still here\n".to_string()),
            Step::Poll { stdout: false, stderr: true, exit: false },
            Step::Poll { stdout: false, stderr: false, exit: true },
            Step::RemoveDir(dir()),
            Step::Close(Ok(())),
        ]
    );
    assert_eq!(session.result(), Some(Ok(())));
}

#[test]
fn closed_session_stays_closed() {
    let (session, _) = open().advance(Outcome::Failed);
    let (session, steps) = drive(
        session,
        vec![Outcome::Done, line(Source::Stdout, "late"), Outcome::Bytes(vec![1, 2, 3, 4])],
    );
    let close = Step::Close(Err(HandlerError::IoError(IoStage::ReadRequest)));
    assert_eq!(count(&steps, &close), 3);
    assert_eq!(session.result(), Some(Err(HandlerError::IoError(IoStage::ReadRequest))));
}

#[test]
fn replay_gives_the_same_transcript_under_another_workspace() {
    let script = || {
        let mut outcomes = until_polling("console.log('a'); console.error('b')");
        outcomes.extend(vec![
            line(Source::Stdout, "a"),
            Outcome::Done,
            line(Source::Stderr, "b"),
            Outcome::Done,
            end(Source::Stdout),
            end(Source::Stderr),
            Outcome::Output(Event::Exited),
            Outcome::Done,
        ]);
        outcomes
    };
    let (first, _) = Session::start();
    let (second, _) = Session::start();
    assert_ne!(first.workspace().id(), second.workspace().id());
    let (first, first_steps) = drive(first, script());
    let (second, second_steps) = drive(second, script());
    assert_eq!(sent(&first_steps), vec!["a\n", "b\n"]);
    assert_eq!(sent(&first_steps), sent(&second_steps));
    assert_eq!(first.result(), second.result());
    assert_eq!(
        count(&first_steps, &Step::RemoveDir(first.workspace().dir_path())),
        1
    );
    assert_eq!(
        count(&second_steps, &Step::RemoveDir(second.workspace().dir_path())),
        1
    );
}

#[test]
fn started_session_reads_the_header_first() {
    let (session, step) = Session::start();
    assert_eq!(step, Step::Read(4));
    assert_eq!(session.result(), None);
    assert_eq!(session.workspace().id().len(), 36);
}

#[test]
fn header_announces_what_is_read_next() {
    let (_, step) = open().advance(Outcome::Bytes(vec![0x10, 0x27, 0, 0]));
    assert_eq!(step, Step::Read(10000));
    let (_, step) = open().advance(Outcome::Bytes(vec![0xff, 0xff, 0xff, 0xff]));
    assert_eq!(step, Step::Read(u32::MAX));
    let (session, step) = open().advance(Outcome::Bytes(vec![0, 0, 0, 0]));
    assert_eq!(step, Step::Read(0));
    let (_, step) = session.advance(Outcome::Bytes(Vec::new()));
    assert_eq!(step, Step::Close(Err(HandlerError::DecodeError(DecodeFault::UnexpectedEnd))));
}
