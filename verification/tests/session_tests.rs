use toke_pty::launch::LaunchConfig;
use toke_pty::pty::ReadOutcome;
use toke_pty::relay::EventSink;
use toke_pty::relay::RelayEnd;
use toke_pty::relay::run_relay;
use toke_pty::session::SessionRun;
use toke_pty::session::SessionState;
use toke_pty::session::resize;
use toke_pty::session::start;

fn sh_config() -> LaunchConfig {
    LaunchConfig {
        shell: "/bin/sh".to_string(),
        program: "false".to_string(),
        workdir: None,
    }
}

fn contains_sub(haystack: &[u8], needle: &[u8]) -> bool {
    if needle.is_empty() {
        return true;
    }
    if haystack.len() < needle.len() {
        return false;
    }
    let mut i: usize = 0;
    while i + needle.len() <= haystack.len() {
        if &haystack[i..i + needle.len()] == needle {
            return true;
        }
        i += 1;
    }
    false
}

/// Reads chunks until the collected output holds `needle`, up to
/// `max_reads` reads; panics when the stream ends or the cap is hit
/// without finding it.
fn read_until(run: &mut SessionRun, needle: &[u8], max_reads: usize) -> Vec<u8> {
    let mut seen: Vec<u8> = Vec::new();
    let mut reads: usize = 0;
    loop {
        if contains_sub(&seen, needle) {
            return seen;
        }
        assert!(reads < max_reads, "gave up waiting for expected output");
        reads += 1;
        match run.reader.next_chunk() {
            ReadOutcome::Data(d) => {
                assert!(!d.is_empty());
                seen.extend_from_slice(&d);
            }
            ReadOutcome::Eof | ReadOutcome::Failed => {
                panic!("stream ended before expected output arrived");
            }
        }
    }
}

#[test]
fn write_before_start_is_a_silent_no_op() {
    let mut state = SessionState::new();
    let r = toke_pty::session::write(&mut state, b"echo hi\n");
    assert!(r.is_ok());
    let r2 = toke_pty::session::write(&mut state, &[0xff, 0xfe, 0x00, 0x1b]);
    assert!(r2.is_ok());
}

#[test]
fn resize_is_accepted_and_changes_nothing() {
    let mut state = SessionState::new();
    assert!(resize(&mut state, 120, 40).is_ok());
    let r = toke_pty::session::write(&mut state, b"x");
    assert!(r.is_ok());
}

#[test]
fn start_succeeds_with_valid_size() {
    let mut state = SessionState::new();
    let r = start(&mut state, &sh_config(), 80, 24);
    assert!(r.is_ok());
}

#[test]
fn echo_round_trip_reaches_the_caller() {
    let mut state = SessionState::new();
    let mut run = start(&mut state, &sh_config(), 80, 24).expect("start failed");
    let w = toke_pty::session::write(&mut state, b"echo hi\n");
    assert!(w.is_ok());
    read_until(&mut run, b"hi", 500);
}

#[test]
fn binary_input_is_accepted_unchanged() {
    let mut state = SessionState::new();
    let _run = start(&mut state, &sh_config(), 80, 24).expect("start failed");
    let r = toke_pty::session::write(&mut state, &[0xff, 0xfe, 0x1b, b'[', b'A', 0x00, b'\n']);
    assert!(r.is_ok());
}

#[test]
fn second_start_supersedes_the_first_for_write() {
    let mut state = SessionState::new();
    let _first = start(&mut state, &sh_config(), 80, 24).expect("first start failed");
    let mut second = start(&mut state, &sh_config(), 100, 30).expect("second start failed");
    let w = toke_pty::session::write(&mut state, b"echo second-session\n");
    assert!(w.is_ok());
    // The write went to the second session's PTY: its output echoes it.
    read_until(&mut second, b"second-session", 500);
}

#[test]
fn write_after_child_exit_never_panics() {
    let mut state = SessionState::new();
    // /bin/true ignores the arguments and exits at once, so the stream ends.
    let cfg = LaunchConfig {
        shell: "/bin/true".to_string(),
        program: "false".to_string(),
        workdir: None,
    };
    let mut run = start(&mut state, &cfg, 80, 24).expect("start failed");
    let mut reads: usize = 0;
    loop {
        assert!(reads < 500, "stream did not end after child exit");
        reads += 1;
        match run.reader.next_chunk() {
            ReadOutcome::Data(_) => {}
            ReadOutcome::Eof | ReadOutcome::Failed => break,
        }
    }
    // The session is dead; the write must return, with either outcome.
    let _ = toke_pty::session::write(&mut state, b"echo into the void\n");
}

#[test]
fn relay_drains_to_the_channel_and_reaps_the_child() {
    let mut state = SessionState::new();
    let cfg = LaunchConfig {
        shell: "/bin/true".to_string(),
        program: "false".to_string(),
        workdir: None,
    };
    let mut run = start(&mut state, &cfg, 80, 24).expect("start failed");
    let (tx, rx) = std::sync::mpsc::channel();
    let mut sink = EventSink::new(tx);
    let end = run_relay(&mut run.reader, &mut sink, &mut run.child, usize::MAX);
    match end {
        RelayEnd::Ended(status) => {
            assert_eq!(status, Some(0));
        }
        RelayEnd::CapReached => panic!("relay gave up before the stream ended"),
    }
    // After the relay has returned, the channel holds whatever chunks were
    // forwarded, in order, and nothing more arrives.
    while let Ok(chunk) = rx.try_recv() {
        assert!(!chunk.is_empty());
    }
}
