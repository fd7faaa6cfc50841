use pipe_api::{fill_buffer, Action, Endpoint, Event, Outcome, Phase, Relay, CAPACITY};

/// What a driver saw over one whole run.
struct Run {
    reads: usize,
    writes: Vec<Vec<u8>>,
    inbound_releases: usize,
    outbound_releases: usize,
    outcome: Outcome,
}

/// Drives a fresh relay to its end, answering reads with `read` and writes
/// with `write`.
fn drive(read: Event, write: Event) -> Run {
    let mut relay = Relay::new();
    let mut read = Some(read);
    let mut write = Some(write);
    let mut run = Run {
        reads: 0,
        writes: Vec::new(),
        inbound_releases: 0,
        outbound_releases: 0,
        outcome: Outcome::Success,
    };
    let mut ev = Event::Start;
    for _ in 0..10 {
        assert!(relay.accepts(&ev));
        match relay.step(ev) {
            Action::Read => {
                run.reads += 1;
                ev = read.take().unwrap();
            }
            Action::Write(bytes) => {
                run.writes.push(bytes);
                ev = write.take().unwrap();
            }
            Action::Release(Endpoint::Inbound) => {
                run.inbound_releases += 1;
                ev = Event::Released;
            }
            Action::Release(Endpoint::Outbound) => {
                run.outbound_releases += 1;
                ev = Event::Released;
            }
            Action::Finish(o) => {
                run.outcome = o;
                assert!(matches!(relay.phase(), Phase::Done(_)));
                return run;
            }
        }
    }
    panic!("the relay did not finish");
}

fn assert_released_once(run: &Run) {
    assert_eq!(run.inbound_releases, 1);
    assert_eq!(run.outbound_releases, 1);
    assert_eq!(run.reads, 1);
}

#[test]
fn hello_is_relayed_verbatim() {
    let run = drive(Event::Read(b"hello".to_vec()), Event::Wrote(5));
    assert_eq!(run.outcome, Outcome::Success);
    assert_eq!(run.writes, vec![b"hello".to_vec()]);
    assert_released_once(&run);
}

#[test]
fn zero_byte_read_writes_zero_bytes() {
    let run = drive(Event::Read(Vec::new()), Event::Wrote(0));
    assert_eq!(run.outcome, Outcome::Success);
    assert_eq!(run.writes, vec![Vec::<u8>::new()]);
    assert_released_once(&run);
}

#[test]
fn read_fault_reports_read_failed() {
    let run = drive(Event::ReadFault, Event::Wrote(0));
    assert_eq!(run.outcome, Outcome::ReadFailed);
    assert!(run.writes.is_empty());
    assert_released_once(&run);
}

#[test]
fn truncated_multibyte_reports_decode_failed() {
    // The euro sign is E2 82 AC; the read stops after two of its bytes.
    let run = drive(Event::Read(vec![b'a', 0xE2, 0x82]), Event::Wrote(3));
    assert_eq!(run.outcome, Outcome::DecodeFailed);
    assert!(run.writes.is_empty());
    assert_released_once(&run);
}

#[test]
fn stray_byte_reports_decode_failed() {
    let run = drive(Event::Read(vec![0xFF]), Event::Wrote(1));
    assert_eq!(run.outcome, Outcome::DecodeFailed);
    assert!(run.writes.is_empty());
    assert_released_once(&run);
}

#[test]
fn truncated_multibyte_at_capacity_reports_decode_failed() {
    let mut data = vec![b'a'; CAPACITY - 1];
    data.push(0xC3);
    let run = drive(Event::Read(data), Event::Wrote(CAPACITY));
    assert_eq!(run.outcome, Outcome::DecodeFailed);
    assert!(run.writes.is_empty());
    assert_released_once(&run);
}

#[test]
fn multibyte_text_is_relayed() {
    let text = "h\u{e9}llo \u{20ac}".as_bytes().to_vec();
    let run = drive(Event::Read(text.clone()), Event::Wrote(text.len()));
    assert_eq!(run.outcome, Outcome::Success);
    assert_eq!(run.writes, vec![text]);
    assert_released_once(&run);
}

#[test]
fn full_buffer_is_relayed() {
    let data = vec![b'z'; CAPACITY];
    let run = drive(Event::Read(data.clone()), Event::Wrote(CAPACITY));
    assert_eq!(run.outcome, Outcome::Success);
    assert_eq!(run.writes, vec![data]);
    assert_released_once(&run);
}

#[test]
fn write_fault_reports_write_failed() {
    let run = drive(Event::Read(b"hello".to_vec()), Event::WriteFault);
    assert_eq!(run.outcome, Outcome::WriteFailed);
    assert_eq!(run.writes, vec![b"hello".to_vec()]);
    assert_released_once(&run);
}

#[test]
fn short_write_reports_write_failed() {
    let run = drive(Event::Read(b"hello".to_vec()), Event::Wrote(4));
    assert_eq!(run.outcome, Outcome::WriteFailed);
    assert_eq!(run.writes, vec![b"hello".to_vec()]);
    assert_released_once(&run);
}

#[test]
fn status_codes() {
    assert_eq!(Outcome::Success.code(), 0);
    assert_eq!(Outcome::ReadFailed.code(), 1);
    assert_eq!(Outcome::WriteFailed.code(), 2);
    assert_eq!(Outcome::DecodeFailed.code(), 3);
}

#[test]
fn buffer_is_zero_filled_to_capacity() {
    let buf = fill_buffer(&[7, 8, 9]);
    assert_eq!(buf.len(), CAPACITY);
    assert_eq!(&buf[..3], &[7, 8, 9]);
    assert!(buf[3..].iter().all(|b| *b == 0));
    assert_eq!(fill_buffer(&[]), vec![0u8; CAPACITY]);
}

#[test]
fn reports_out_of_turn_are_refused() {
    let mut relay = Relay::new();
    assert_eq!(relay.phase(), Phase::Idle);
    assert!(!relay.accepts(&Event::ReadFault));
    assert!(!relay.accepts(&Event::Released));
    relay.step(Event::Start);
    assert_eq!(relay.phase(), Phase::Reading);
    assert!(!relay.accepts(&Event::Wrote(1)));
    assert!(!relay.accepts(&Event::Read(vec![b'a'; CAPACITY + 1])));
    assert!(relay.accepts(&Event::Read(vec![b'a'; CAPACITY])));
}

#[test]
fn phases_of_a_successful_run() {
    let mut relay = Relay::new();
    relay.step(Event::Start);
    relay.step(Event::Read(b"hi".to_vec()));
    assert_eq!(relay.phase(), Phase::Writing(2));
    relay.step(Event::Wrote(2));
    assert_eq!(relay.phase(), Phase::ReleasingInbound(Outcome::Success));
    relay.step(Event::Released);
    assert_eq!(relay.phase(), Phase::ReleasingOutbound(Outcome::Success));
    relay.step(Event::Released);
    assert_eq!(relay.phase(), Phase::Done(Outcome::Success));
    assert!(!relay.accepts(&Event::Released));
}
