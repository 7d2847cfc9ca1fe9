use code_relay::relay::{chunk, Action, Event, Relay, Source};

fn line(source: Source, text: &str) -> Event {
    Event::Line(source, text.to_string())
}

fn feed(relay: &mut Relay, events: Vec<Event>) -> Vec<Action> {
    events.into_iter().map(|event| relay.handle(event)).collect()
}

fn sent(actions: &[Action]) -> Vec<String> {
    let mut texts = Vec::new();
    for action in actions {
        if let Action::Send(text) = action {
            texts.push(text.clone());
        }
    }
    texts
}

#[test]
fn relay_starts_with_both_streams_open() {
    let relay = Relay::new();
    assert_eq!(relay, Relay::Draining { stdout_open: true, stderr_open: true });
    assert!(relay.polls(Source::Stdout));
    assert!(relay.polls(Source::Stderr));
    assert!(!relay.exit_armed());
    assert!(!relay.is_finished());
}

#[test]
fn chunk_appends_one_newline() {
    assert_eq!(chunk("hi".to_string()), "hi\n");
    assert_eq!(chunk(String::new()), "\n");
    assert_eq!(chunk("a\tb ".to_string()), "a\tb \n");
    assert_eq!(chunk("caf\u{e9}".to_string()), "caf\u{e9}\n");
}

#[test]
fn line_is_sent_at_once_with_its_terminator() {
    let mut relay = Relay::new();
    assert_eq!(relay.handle(line(Source::Stdout, "hi")), Action::Send("hi\n".to_string()));
    assert_eq!(relay.handle(line(Source::Stderr, "oops")), Action::Send("oops\n".to_string()));
    assert_eq!(relay, Relay::new());
}

#[test]
fn end_of_a_stream_closes_only_that_stream() {
    let mut relay = Relay::new();
    assert_eq!(relay.handle(Event::End(Source::Stdout)), Action::Wait);
    assert_eq!(relay, Relay::Draining { stdout_open: false, stderr_open: true });
    assert!(!relay.polls(Source::Stdout));
    assert!(relay.polls(Source::Stderr));
    assert!(!relay.exit_armed());

    let mut relay = Relay::new();
    assert_eq!(relay.handle(Event::End(Source::Stderr)), Action::Wait);
    assert_eq!(relay, Relay::Draining { stdout_open: true, stderr_open: false });
    assert!(!relay.exit_armed());
}

#[test]
fn exit_is_passed_over_while_a_stream_is_open() {
    let mut relay = Relay::new();
    assert_eq!(relay.handle(Event::Exited), Action::Wait);
    assert_eq!(relay, Relay::new());
    relay.handle(Event::End(Source::Stderr));
    assert_eq!(relay.handle(Event::Exited), Action::Wait);
    assert!(!relay.is_finished());
    assert_eq!(
        relay.handle(line(Source::Stdout, "last words")),
        Action::Send("last words\n".to_string())
    );
    relay.handle(Event::End(Source::Stdout));
    assert!(relay.exit_armed());
    assert_eq!(relay.handle(Event::Exited), Action::Finish);
    assert!(relay.is_finished());
    assert_eq!(relay, Relay::Finished);
}

#[test]
fn final_line_before_exit_is_always_delivered() {
    let mut relay = Relay::new();
    let actions = feed(
        &mut relay,
        vec![
            Event::Exited,
            Event::End(Source::Stderr),
            Event::Exited,
            line(Source::Stdout, "final"),
            Event::End(Source::Stdout),
            Event::Exited,
        ],
    );
    assert_eq!(sent(&actions), vec!["final\n".to_string()]);
    assert_eq!(actions.last(), Some(&Action::Finish));
    assert_eq!(actions.iter().filter(|a| **a == Action::Finish).count(), 1);
}

#[test]
fn lines_keep_their_order_within_each_stream() {
    let mut relay = Relay::new();
    let actions = feed(
        &mut relay,
        vec![
            line(Source::Stdout, "o1"),
            line(Source::Stderr, "e1"),
            line(Source::Stderr, "e2"),
            line(Source::Stdout, "o2"),
            Event::End(Source::Stdout),
            line(Source::Stderr, "e3"),
            Event::End(Source::Stderr),
            Event::Exited,
        ],
    );
    assert_eq!(sent(&actions), vec!["o1\n", "e1\n", "e2\n", "o2\n", "e3\n"]);
    assert!(relay.is_finished());
}

#[test]
fn same_events_give_the_same_transcript() {
    let script = || {
        vec![
            line(Source::Stdout, "a"),
            line(Source::Stderr, "b"),
            Event::End(Source::Stderr),
            line(Source::Stdout, "c"),
            Event::End(Source::Stdout),
            Event::Exited,
        ]
    };
    let first = feed(&mut Relay::new(), script());
    let second = feed(&mut Relay::new(), script());
    assert_eq!(first, second);
    assert_eq!(sent(&first), vec!["a\n", "b\n", "c\n"]);
}

#[test]
fn nothing_is_sent_after_the_exit_is_taken() {
    let mut relay = Relay::new();
    feed(
        &mut relay,
        vec![Event::End(Source::Stdout), Event::End(Source::Stderr), Event::Exited],
    );
    assert!(relay.is_finished());
    assert!(!relay.polls(Source::Stdout));
    assert!(!relay.polls(Source::Stderr));
    assert!(!relay.exit_armed());
    assert_eq!(relay.handle(line(Source::Stdout, "late")), Action::Finish);
    assert_eq!(relay.handle(Event::End(Source::Stdout)), Action::Finish);
    assert_eq!(relay.handle(Event::Exited), Action::Finish);
    assert_eq!(relay, Relay::Finished);
}

#[test]
fn repeated_end_of_stream_changes_nothing() {
    let mut relay = Relay::new();
    relay.handle(Event::End(Source::Stdout));
    let before = relay;
    assert_eq!(relay.handle(Event::End(Source::Stdout)), Action::Wait);
    assert_eq!(relay, before);
}
