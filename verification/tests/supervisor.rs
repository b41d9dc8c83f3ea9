use game_handler::supervisor::{
    to_signal, Event, PSubInput, Phase, ReadOutcome, Reply, Request, Signal, Step, Supervisor,
};

#[derive(Debug, PartialEq)]
enum Seen {
    Ready(usize),
    Logs(usize, String),
    Ended(usize),
}

fn seen(step: &Step) -> Option<Seen> {
    match &step.emit {
        Some(Event::Ready(slot)) => Some(Seen::Ready(*slot)),
        Some(Event::GotLogs(slot, text)) => Some(Seen::Logs(*slot, text.clone())),
        Some(Event::ProcessEnded(slot)) => Some(Seen::Ended(*slot)),
        None => None,
    }
}

/// Feeds the replies to the supervisor one by one, checks that each answers
/// the work that was asked for, and collects the events.
fn drive(sup: &mut Supervisor, replies: Vec<Reply>) -> Vec<Seen> {
    let mut events = Vec::new();
    for reply in replies {
        let asked = sup.pending_request();
        let fits = match (&asked, &reply) {
            (Request::Spawn, Reply::Spawned(_)) => true,
            (Request::AwaitInput, Reply::Input(_)) => true,
            (Request::PollRead, Reply::Read(_)) => true,
            (Request::CheckExit, Reply::Exit(_)) => true,
            (Request::Kill, Reply::Killed(_)) => true,
            _ => false,
        };
        assert!(fits, "the reply does not answer {:?}", asked);
        let step = sup.advance(reply);
        assert_eq!(step.request, sup.pending_request());
        if let Some(e) = seen(&step) {
            events.push(e);
        }
    }
    events
}

fn data(bytes: &[u8]) -> Reply {
    Reply::Read(ReadOutcome::Data(bytes.to_vec()))
}

fn ready(slot: usize, limit: usize) -> Supervisor {
    let mut sup = Supervisor::new(slot, limit);
    assert_eq!(drive(&mut sup, vec![Reply::Spawned(true)]), vec![Seen::Ready(slot)]);
    assert_eq!(sup.phase, Phase::Ready);
    sup
}

#[test]
fn a_new_supervisor_asks_for_the_spawn() {
    let sup = Supervisor::new(5, 16);
    assert_eq!(sup.slot, 5);
    assert_eq!(sup.phase, Phase::Starting);
    assert_eq!(sup.drain_limit, 16);
    assert_eq!(sup.pending_request(), Request::Spawn);
    assert!(!sup.has_ended());
}

#[test]
fn the_first_event_is_ready() {
    let mut sup = Supervisor::new(2, 4);
    let step = sup.advance(Reply::Spawned(true));
    assert_eq!(seen(&step), Some(Seen::Ready(2)));
    assert_eq!(step.request, Request::AwaitInput);
    assert_eq!(sup.phase, Phase::Ready);
}

#[test]
fn a_failed_spawn_ends_without_an_event() {
    let mut sup = Supervisor::new(2, 4);
    let step = sup.advance(Reply::Spawned(false));
    assert_eq!(seen(&step), None);
    assert_eq!(step.request, Request::Stop);
    assert!(sup.has_ended());
}

#[test]
fn child_prints_a_line_then_exits() {
    let mut sup = Supervisor::new(3, 8);
    let events = drive(&mut sup, vec![Reply::Spawned(true)]);
    assert_eq!(events, vec![Seen::Ready(3)]);
    let events = drive(
        &mut sup,
        vec![
            Reply::Input(PSubInput::ReadInput),
            data(b"a\n"),
            Reply::Read(ReadOutcome::Pending),
            Reply::Exit(false),
        ],
    );
    assert_eq!(events, vec![Seen::Logs(3, "a\n".to_string())]);
    assert_eq!(sup.phase, Phase::Ready);
    let events = drive(
        &mut sup,
        vec![Reply::Input(PSubInput::ReadInput), data(b""), Reply::Exit(true)],
    );
    assert_eq!(events, vec![Seen::Ended(3)]);
    assert!(sup.has_ended());
    assert_eq!(sup.pending_request(), Request::Stop);
}

#[test]
fn terminate_of_a_silent_child_gives_one_notice() {
    let mut sup = Supervisor::new(0, 8);
    let events = drive(
        &mut sup,
        vec![
            Reply::Spawned(true),
            Reply::Input(PSubInput::Terminate),
            Reply::Read(ReadOutcome::Pending),
            Reply::Killed(true),
        ],
    );
    assert_eq!(events, vec![Seen::Ready(0), Seen::Ended(0)]);
    assert!(sup.has_ended());
}

#[test]
fn read_input_after_exit_collects_output_in_one_event() {
    let mut sup = ready(7, 8);
    let events = drive(
        &mut sup,
        vec![
            Reply::Input(PSubInput::ReadInput),
            data(b"first\n"),
            data(b"second\n"),
            data(b"thi"),
            data(b"rd\n"),
            data(b""),
            Reply::Exit(true),
        ],
    );
    assert_eq!(
        events,
        vec![Seen::Logs(7, "first\nsecond\nthird\n".to_string()), Seen::Ended(7)]
    );
    assert!(sup.has_ended());
}

#[test]
fn read_input_after_exit_without_output_gives_only_the_notice() {
    let mut sup = ready(7, 8);
    let events = drive(
        &mut sup,
        vec![Reply::Input(PSubInput::ReadInput), data(b""), Reply::Exit(true)],
    );
    assert_eq!(events, vec![Seen::Ended(7)]);
}

#[test]
fn nothing_is_sent_after_the_end() {
    let mut sup = ready(1, 8);
    drive(&mut sup, vec![Reply::Input(PSubInput::Terminate), data(b""), Reply::Killed(true)]);
    assert!(sup.has_ended());
    let after = vec![
        Reply::Input(PSubInput::ReadInput),
        Reply::Input(PSubInput::Terminate),
        data(b"late\n"),
        Reply::Exit(true),
        Reply::Killed(true),
        Reply::Spawned(true),
    ];
    for reply in after {
        let step = sup.advance(reply);
        assert_eq!(seen(&step), None);
        assert_eq!(step.request, Request::Stop);
        assert!(sup.has_ended());
    }
}

#[test]
fn a_failed_read_ends_the_drain() {
    let mut sup = ready(4, 8);
    let events = drive(
        &mut sup,
        vec![
            Reply::Input(PSubInput::ReadInput),
            data(b"partial"),
            Reply::Read(ReadOutcome::Failed),
            Reply::Exit(false),
        ],
    );
    assert_eq!(events, vec![Seen::Logs(4, "partial".to_string())]);
    assert_eq!(sup.phase, Phase::Ready);
}

#[test]
fn terminate_hands_over_each_read_then_kills() {
    let mut sup = ready(9, 8);
    let events = drive(
        &mut sup,
        vec![
            Reply::Input(PSubInput::Terminate),
            data(b"one\n"),
            data(b"two\n"),
            Reply::Read(ReadOutcome::Pending),
            Reply::Killed(true),
        ],
    );
    assert_eq!(
        events,
        vec![
            Seen::Logs(9, "one\n".to_string()),
            Seen::Logs(9, "two\n".to_string()),
            Seen::Ended(9)
        ]
    );
    assert!(sup.has_ended());
}

#[test]
fn terminate_ends_even_if_the_kill_fails() {
    let mut sup = ready(9, 8);
    let events = drive(
        &mut sup,
        vec![
            Reply::Input(PSubInput::Terminate),
            Reply::Read(ReadOutcome::Failed),
            Reply::Killed(false),
        ],
    );
    assert_eq!(events, vec![Seen::Ended(9)]);
    assert!(sup.has_ended());
}

#[test]
fn terminate_stops_reading_at_the_limit() {
    let mut sup = ready(6, 3);
    let step = sup.advance(Reply::Input(PSubInput::Terminate));
    assert_eq!(step.request, Request::PollRead);
    assert_eq!(sup.rounds_left, 3);
    let step = sup.advance(data(b"1"));
    assert_eq!((seen(&step), step.request), (Some(Seen::Logs(6, "1".to_string())), Request::PollRead));
    let step = sup.advance(data(b"2"));
    assert_eq!((seen(&step), step.request), (Some(Seen::Logs(6, "2".to_string())), Request::PollRead));
    let step = sup.advance(data(b"3"));
    assert_eq!((seen(&step), step.request), (Some(Seen::Logs(6, "3".to_string())), Request::Kill));
    assert_eq!(sup.phase, Phase::Killing);
    let step = sup.advance(Reply::Killed(true));
    assert_eq!((seen(&step), step.request), (Some(Seen::Ended(6)), Request::Stop));
}

#[test]
fn terminate_with_no_reads_allowed_kills_at_once() {
    let mut sup = ready(6, 0);
    let step = sup.advance(Reply::Input(PSubInput::Terminate));
    assert_eq!(seen(&step), None);
    assert_eq!(step.request, Request::Kill);
    let step = sup.advance(Reply::Killed(true));
    assert_eq!(seen(&step), Some(Seen::Ended(6)));
}

#[test]
fn a_stray_reply_changes_nothing() {
    let mut sup = ready(1, 8);
    let step = sup.advance(Reply::Killed(true));
    assert_eq!(seen(&step), None);
    assert_eq!(step.request, Request::AwaitInput);
    assert_eq!(sup.phase, Phase::Ready);
    let step = sup.advance(data(b"unasked\n"));
    assert_eq!(seen(&step), None);
    assert_eq!(step.request, Request::AwaitInput);

    sup.advance(Reply::Input(PSubInput::ReadInput));
    sup.advance(data(b"kept"));
    let step = sup.advance(Reply::Input(PSubInput::Terminate));
    assert_eq!(seen(&step), None);
    assert_eq!(step.request, Request::PollRead);
    assert_eq!(sup.phase, Phase::Reading);
    assert_eq!(sup.logs, "kept");
}

#[test]
fn the_log_of_one_request_does_not_leak_into_the_next() {
    let mut sup = ready(1, 8);
    let events = drive(
        &mut sup,
        vec![
            Reply::Input(PSubInput::ReadInput),
            data(b"a"),
            Reply::Read(ReadOutcome::Pending),
            Reply::Exit(false),
            Reply::Input(PSubInput::ReadInput),
            data(b"b"),
            Reply::Read(ReadOutcome::Pending),
            Reply::Exit(false),
        ],
    );
    assert_eq!(events, vec![Seen::Logs(1, "a".to_string()), Seen::Logs(1, "b".to_string())]);
}

#[test]
fn bytes_that_are_no_text_are_replaced() {
    let mut sup = ready(1, 8);
    let events = drive(
        &mut sup,
        vec![
            Reply::Input(PSubInput::ReadInput),
            data(&[b'o', b'k', 0xff, b'!', b'\n']),
            Reply::Read(ReadOutcome::Pending),
            Reply::Exit(false),
        ],
    );
    assert_eq!(events, vec![Seen::Logs(1, "ok\u{fffd}!\n".to_string())]);
}

#[test]
fn text_beyond_ascii_is_decoded() {
    match to_signal(data("héllo wörld ✓\n".as_bytes())) {
        Signal::Text(text) => assert_eq!(text, "héllo wörld ✓\n"),
        _ => panic!("a read with bytes is text"),
    }
}

#[test]
fn valid_text_passes_through_advance_unchanged() {
    let mut sup = ready(5, 8);
    sup.advance(Reply::Input(PSubInput::ReadInput));
    let step = sup.advance(data("a\n".as_bytes()));
    assert_eq!(seen(&step), None);
    assert_eq!(sup.logs, "a\n");
    let step = sup.advance(data("é ✓\n".as_bytes()));
    assert_eq!(seen(&step), None);
    assert_eq!(sup.logs, "a\né ✓\n");
    let step = sup.advance(Reply::Read(ReadOutcome::Pending));
    assert_eq!(seen(&step), Some(Seen::Logs(5, "a\né ✓\n".to_string())));
}

#[test]
fn replies_become_signals() {
    assert!(matches!(to_signal(Reply::Spawned(true)), Signal::Spawned(true)));
    assert!(matches!(to_signal(Reply::Spawned(false)), Signal::Spawned(false)));
    assert!(matches!(
        to_signal(Reply::Input(PSubInput::Terminate)),
        Signal::Input(PSubInput::Terminate)
    ));
    assert!(matches!(
        to_signal(Reply::Input(PSubInput::ReadInput)),
        Signal::Input(PSubInput::ReadInput)
    ));
    assert!(matches!(to_signal(data(b"")), Signal::Drained));
    assert!(matches!(to_signal(Reply::Read(ReadOutcome::Pending)), Signal::Drained));
    assert!(matches!(to_signal(Reply::Read(ReadOutcome::Failed)), Signal::Drained));
    assert!(matches!(to_signal(Reply::Exit(true)), Signal::Exit(true)));
    assert!(matches!(to_signal(Reply::Killed(false)), Signal::Killed(false)));
}

#[test]
fn signals_with_text_drive_the_supervisor_too() {
    let mut sup = Supervisor::new(11, 2);
    let step = sup.on_signal(Signal::Spawned(true));
    assert_eq!(seen(&step), Some(Seen::Ready(11)));
    sup.on_signal(Signal::Input(PSubInput::ReadInput));
    sup.on_signal(Signal::Text("x".to_string()));
    sup.on_signal(Signal::Text("y".to_string()));
    let step = sup.on_signal(Signal::Drained);
    assert_eq!(seen(&step), Some(Seen::Logs(11, "xy".to_string())));
    assert_eq!(step.request, Request::CheckExit);
    assert_eq!(sup.logs, "");
    let step = sup.on_signal(Signal::Exit(true));
    assert_eq!(seen(&step), Some(Seen::Ended(11)));
}
