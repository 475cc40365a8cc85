use usi_tester::condition::WaitCondition;
use usi_tester::driver::{Action, Driver, Event, Failure, Phase, Step};
use usi_tester::pattern::{Pattern, PatternError};
use usi_tester::usi::{usi_script, BESTMOVE_PATTERN};

fn send(text: &str) -> Action {
    Action::Send(text.to_string())
}

fn line(text: &str) -> Event {
    Event::LineRead(text.to_string())
}

fn started() -> Driver {
    let (driver, action) = Driver::start(usi_script().unwrap());
    assert_eq!(action, Action::Spawn);
    driver
}

/// Brings a fresh driver to the point where `go` was written and the move is awaited.
fn awaiting_move() -> Driver {
    let mut d = started();
    assert_eq!(d.on_event(Event::Spawned), send("usi\n"));
    assert_eq!(d.on_event(Event::Written), Action::ReadLine);
    assert_eq!(d.on_event(line("usiok\n")), send("isready\n"));
    assert_eq!(d.on_event(Event::Written), Action::ReadLine);
    assert_eq!(d.on_event(line("readyok\n")), send("usinewgame\n"));
    assert_eq!(d.on_event(Event::Written), send("position startpos\n"));
    assert_eq!(d.on_event(Event::Written), send("go\n"));
    assert_eq!(d.on_event(Event::Written), Action::ReadLine);
    d
}

#[test]
fn handshake_consumes_preamble_until_usiok() {
    let mut d = started();
    assert_eq!(d.on_event(Event::Spawned), send("usi\n"));
    assert_eq!(d.on_event(Event::Written), Action::ReadLine);
    assert_eq!(d.on_event(line("id name X\n")), Action::ReadLine);
    assert_eq!(d.on_event(line("id author Y\n")), Action::ReadLine);
    assert_eq!(d.phase(), Phase::Reading);
    assert_eq!(d.position(), 0);
    assert_eq!(d.on_event(line("usiok\n")), send("isready\n"));
    assert_eq!(d.position(), 1);
}

#[test]
fn readiness_proceeds_on_first_line() {
    let mut d = started();
    d.on_event(Event::Spawned);
    d.on_event(Event::Written);
    assert_eq!(d.on_event(line("usiok\n")), send("isready\n"));
    assert_eq!(d.on_event(Event::Written), Action::ReadLine);
    assert_eq!(d.on_event(line("readyok\n")), send("usinewgame\n"));
}

#[test]
fn search_ends_on_bestmove_line() {
    let mut d = awaiting_move();
    assert_eq!(d.on_event(line("info depth 1\n")), Action::ReadLine);
    assert_eq!(d.on_event(line("bestmove 7g7f\n")), send("quit\n"));
    assert_eq!(d.on_event(Event::Written), Action::WaitExit);
    assert_eq!(d.on_event(Event::Exited), Action::Finish);
    assert_eq!(d.phase(), Phase::Done);
}

#[test]
fn full_run_sends_commands_in_authored_order() {
    let mut d = started();
    let mut sent: Vec<String> = Vec::new();
    let replies = ["id name X\n", "usiok\n", "readyok\n", "info depth 1\n", "bestmove 7g7f\n"];
    let mut next_reply = 0;
    let mut action = d.on_event(Event::Spawned);
    loop {
        action = match action {
            Action::Send(text) => {
                sent.push(text);
                d.on_event(Event::Written)
            }
            Action::ReadLine => {
                let reply = replies[next_reply];
                next_reply += 1;
                d.on_event(line(reply))
            }
            Action::WaitExit => d.on_event(Event::Exited),
            Action::Finish => break,
            other => panic!("unexpected action {:?}", other),
        };
    }
    assert_eq!(
        sent,
        vec!["usi\n", "isready\n", "usinewgame\n", "position startpos\n", "go\n", "quit\n"]
    );
    assert_eq!(next_reply, replies.len());
}

#[test]
fn exact_wait_ignores_near_misses() {
    let mut d = started();
    d.on_event(Event::Spawned);
    d.on_event(Event::Written);
    for decoy in ["usiok", "usiok\r\n", " usiok\n", "USIOK\n", "usiok \n", "usiokk\n", ""] {
        assert_eq!(d.on_event(line(decoy)), Action::ReadLine);
        assert_eq!(d.position(), 0);
    }
    assert_eq!(d.on_event(line("usiok\n")), send("isready\n"));
}

#[test]
fn pattern_wait_matches_anywhere_in_line() {
    let mut d = awaiting_move();
    assert_eq!(d.on_event(line("info currmove abc\n")), Action::ReadLine);
    assert_eq!(d.on_event(line("bestmove\n")), Action::ReadLine);
    assert_eq!(d.on_event(line("info bestmove not-yet\n")), send("quit\n"));
}

#[test]
fn bestmove_pattern_examples() {
    let p = Pattern::new(BESTMOVE_PATTERN).unwrap();
    assert_eq!(p.source(), r"bestmove \w+");
    assert!(p.is_found_in("info bestmove not-yet"));
    assert!(p.is_found_in("bestmove 7g7f\n"));
    assert!(!p.is_found_in("info currmove abc"));
    assert!(!p.is_found_in("bestmove \n"));
    let c = WaitCondition::Matches(p);
    assert!(c.is_satisfied_by("bestmove 7g7f\n"));
    assert!(!c.is_satisfied_by("info depth 1\n"));
}

#[test]
fn exact_condition_includes_terminator() {
    let c = WaitCondition::Exact("usiok\n".to_string());
    assert!(c.is_satisfied_by("usiok\n"));
    assert!(!c.is_satisfied_by("usiok"));
    assert!(!c.is_satisfied_by("usiok\r\n"));
    assert!(!c.is_satisfied_by(""));
}

#[test]
fn malformed_pattern_is_rejected() {
    assert!(matches!(Pattern::new("bestmove ("), Err(PatternError::Invalid)));
    assert!(matches!(Pattern::new("[a-"), Err(PatternError::Invalid)));
    assert!(Pattern::new("").is_ok());
}

#[test]
fn stream_closed_before_usiok_reaps_then_aborts() {
    let mut d = started();
    d.on_event(Event::Spawned);
    d.on_event(Event::Written);
    assert_eq!(d.on_event(line("id name X\n")), Action::ReadLine);
    assert_eq!(d.on_event(Event::Failed(Failure::StreamClosed)), Action::Reap);
    assert_eq!(d.phase(), Phase::Reaping(Failure::StreamClosed));
    assert_eq!(d.on_event(Event::Exited), Action::Abort(Failure::StreamClosed));
    assert_eq!(d.phase(), Phase::Aborted(Failure::StreamClosed));
    assert_eq!(d.on_event(line("usiok\n")), Action::Abort(Failure::StreamClosed));
}

#[test]
fn spawn_failure_aborts_without_reaping() {
    let mut d = started();
    assert_eq!(d.on_event(Event::Failed(Failure::Spawn)), Action::Abort(Failure::Spawn));
    assert_eq!(d.phase(), Phase::Aborted(Failure::Spawn));
}

#[test]
fn missing_pipe_after_spawn_reaps() {
    let mut d = started();
    assert_eq!(d.on_event(Event::Failed(Failure::ProtocolViolation)), Action::Reap);
    assert_eq!(d.on_event(Event::Exited), Action::Abort(Failure::ProtocolViolation));
}

#[test]
fn write_failure_reaps_then_aborts() {
    let mut d = started();
    d.on_event(Event::Spawned);
    assert_eq!(d.on_event(Event::Failed(Failure::Io)), Action::Reap);
    // A failed reap still ends the run with the first failure.
    assert_eq!(d.on_event(Event::Failed(Failure::Io)), Action::Abort(Failure::Io));
}

#[test]
fn unexpected_event_is_a_protocol_violation() {
    let mut d = started();
    d.on_event(Event::Spawned);
    assert_eq!(d.on_event(line("usiok\n")), Action::Reap);
    assert_eq!(d.phase(), Phase::Reaping(Failure::ProtocolViolation));
    assert_eq!(d.on_event(Event::Exited), Action::Abort(Failure::ProtocolViolation));
}

#[test]
fn exit_wait_failure_aborts() {
    let mut d = awaiting_move();
    d.on_event(line("bestmove 7g7f\n"));
    assert_eq!(d.on_event(Event::Written), Action::WaitExit);
    assert_eq!(d.on_event(Event::Failed(Failure::Io)), Action::Abort(Failure::Io));
}

#[test]
fn finished_run_stays_finished() {
    let mut d = awaiting_move();
    d.on_event(line("bestmove 7g7f\n"));
    d.on_event(Event::Written);
    assert_eq!(d.on_event(Event::Exited), Action::Finish);
    assert_eq!(d.on_event(Event::Spawned), Action::Finish);
    assert_eq!(d.phase(), Phase::Done);
}

#[test]
fn empty_script_waits_for_exit_after_spawn() {
    let (mut d, first) = Driver::start(Vec::new());
    assert_eq!(first, Action::Spawn);
    assert_eq!(d.on_event(Event::Spawned), Action::WaitExit);
    assert_eq!(d.on_event(Event::Exited), Action::Finish);
}

#[test]
fn steps_without_wait_follow_each_other() {
    let script = vec![
        Step { command: "a\n".to_string(), wait: None },
        Step { command: "b\n".to_string(), wait: None },
    ];
    let (mut d, _) = Driver::start(script);
    assert_eq!(d.on_event(Event::Spawned), send("a\n"));
    assert_eq!(d.on_event(Event::Written), send("b\n"));
    assert_eq!(d.on_event(Event::Written), Action::WaitExit);
}

#[test]
fn every_ending_after_spawn_follows_a_wait() {
    // Fail at each point of an otherwise successful run; the run must ask
    // for the child to be waited for before it ends.
    for fail_at in 0..12 {
        let mut d = started();
        let replies = ["usiok\n", "readyok\n", "bestmove 7g7f\n"];
        let mut next_reply = 0;
        let mut action = d.on_event(Event::Spawned);
        let mut step = 0;
        let mut last_before_end = Action::Spawn;
        loop {
            let event = if step == fail_at {
                Event::Failed(Failure::Io)
            } else {
                match &action {
                    Action::Send(_) => Event::Written,
                    Action::ReadLine => {
                        next_reply += 1;
                        line(replies[next_reply - 1])
                    }
                    Action::WaitExit | Action::Reap => Event::Exited,
                    _ => break,
                }
            };
            if matches!(action, Action::Finish | Action::Abort(_)) {
                break;
            }
            step += 1;
            let following = d.on_event(event);
            if matches!(following, Action::Finish | Action::Abort(_)) {
                last_before_end = std::mem::replace(&mut action, following);
                break;
            }
            action = following;
        }
        assert!(
            matches!(last_before_end, Action::WaitExit | Action::Reap),
            "failing at {} ended after {:?}",
            fail_at,
            last_before_end
        );
    }
}
