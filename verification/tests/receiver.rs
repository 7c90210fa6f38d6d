use service_adsb_rs::forward::ForwardError;
use service_adsb_rs::receiver::{
    backoff_delay, count_newlines, retry_delay, Batch, Directive, FrameReader, LinkEvent, Phase,
    ReaderAction, ReaderEvent, StopReason, Supervisor, BASELINE_CAPACITY, BASE_RETRY_DELAY,
    CAPACITY_THRESHOLD, MAX_RETRY_COUNT, NEWLINE, WAIT_RETRY_PAUSE_MS,
};

#[test]
fn backoff_is_base_times_capped_attempt() {
    assert_eq!(backoff_delay(0, 15, 5), 0);
    assert_eq!(backoff_delay(1, 15, 5), 15);
    assert_eq!(backoff_delay(3, 15, 5), 45);
    assert_eq!(backoff_delay(5, 15, 5), 75);
    assert_eq!(backoff_delay(6, 15, 5), 75);
    assert_eq!(backoff_delay(u32::MAX, 15, 5), 75);
    assert_eq!(backoff_delay(4, 7, 2), 14);
    assert_eq!(backoff_delay(9, 0, 3), 0);
    assert_eq!(backoff_delay(9, 3, 0), 0);
}

#[test]
fn retry_delay_uses_the_relay_policy() {
    assert_eq!(BASE_RETRY_DELAY, 15);
    assert_eq!(MAX_RETRY_COUNT, 5);
    let delays: Vec<u64> = (1..=7).map(retry_delay).collect();
    assert_eq!(delays, vec![15, 30, 45, 60, 75, 75, 75]);
}

#[test]
fn three_failed_connects_wait_15_30_45_seconds() {
    let (mut supervisor, first) = Supervisor::new();
    assert_eq!(first, Directive::Connect);
    assert_eq!(supervisor.phase, Phase::Connecting);
    let mut observed = Vec::new();
    for attempt in 1..=3u32 {
        match supervisor.step(LinkEvent::ConnectFailed) {
            Directive::Backoff { attempt: reported, delay } => {
                assert_eq!(reported, attempt);
                observed.push(delay);
            }
            other => panic!("unexpected directive {:?}", other),
        }
        assert_eq!(supervisor.phase, Phase::Disconnected);
        assert_eq!(supervisor.step(LinkEvent::Wake), Directive::Connect);
        assert_eq!(supervisor.phase, Phase::Connecting);
    }
    assert_eq!(observed, vec![15, 30, 45]);
}

#[test]
fn delay_stays_at_the_ceiling_and_the_supervisor_never_gives_up() {
    let (mut supervisor, _) = Supervisor::new();
    let mut last = 0;
    for _ in 0..100 {
        match supervisor.step(LinkEvent::ConnectFailed) {
            Directive::Backoff { delay, .. } => last = delay,
            other => panic!("unexpected directive {:?}", other),
        }
        assert_eq!(supervisor.step(LinkEvent::Wake), Directive::Connect);
    }
    assert_eq!(last, 75);
    assert_eq!(supervisor.retry_count, 100);
}

#[test]
fn a_live_connection_resets_the_attempt_counter() {
    let (mut supervisor, _) = Supervisor::new();
    supervisor.step(LinkEvent::ConnectFailed);
    supervisor.step(LinkEvent::Wake);
    supervisor.step(LinkEvent::ConnectFailed);
    supervisor.step(LinkEvent::Wake);
    assert_eq!(supervisor.retry_count, 2);
    assert_eq!(supervisor.step(LinkEvent::ConnectSucceeded), Directive::Serve);
    assert_eq!(supervisor, Supervisor { phase: Phase::Connected, retry_count: 0 });
    assert_eq!(supervisor.step(LinkEvent::ConnectionEnded), Directive::Connect);
    assert_eq!(supervisor.phase, Phase::Connecting);
    assert_eq!(
        supervisor.step(LinkEvent::ConnectFailed),
        Directive::Backoff { attempt: 1, delay: 15 }
    );
}

#[test]
fn the_attempt_counter_stops_at_its_limit() {
    let mut supervisor = Supervisor { phase: Phase::Connecting, retry_count: u32::MAX - 1 };
    assert_eq!(
        supervisor.step(LinkEvent::ConnectFailed),
        Directive::Backoff { attempt: u32::MAX, delay: 75 }
    );
    assert_eq!(
        supervisor.step(LinkEvent::ConnectFailed),
        Directive::Backoff { attempt: u32::MAX, delay: 75 }
    );
    assert_eq!(supervisor.retry_count, u32::MAX);
}

#[test]
fn newlines_are_counted_exactly() {
    assert_eq!(NEWLINE, b'\n');
    assert_eq!(count_newlines(b""), 0);
    assert_eq!(count_newlines(b"no newline"), 0);
    assert_eq!(count_newlines(b"\n"), 1);
    assert_eq!(count_newlines(b"a\nb\n\nc"), 3);
    assert_eq!(count_newlines(b"a\r\nb\r\n"), 2);
    assert_eq!(count_newlines(&vec![b'\n'; 1000]), 1000);
}

#[test]
fn a_fresh_reader_waits_with_an_empty_buffer() {
    let (reader, action) = FrameReader::new();
    assert_eq!(action, ReaderAction::AwaitReadable);
    assert!(reader.buffered().is_empty());
}

#[test]
fn ten_bytes_without_newline_stay_in_the_buffer() {
    let (mut reader, _) = FrameReader::new();
    assert_eq!(reader.step(ReaderEvent::Readable), ReaderAction::Read);
    let action = reader.step(ReaderEvent::Read(b"0123456789".to_vec()));
    assert_eq!(action, ReaderAction::AwaitReadable);
    assert_eq!(reader.buffered(), b"0123456789");
}

#[test]
fn a_read_ending_in_newline_forwards_the_whole_buffer() {
    let (mut reader, _) = FrameReader::new();
    assert_eq!(reader.step(ReaderEvent::Read(b"MSG,1".to_vec())), ReaderAction::AwaitReadable);
    assert_eq!(reader.step(ReaderEvent::Read(b",a\nMSG".to_vec())), ReaderAction::AwaitReadable);
    assert_eq!(reader.buffered(), b"MSG,1,a\nMSG");
    let action = reader.step(ReaderEvent::Read(b",2,b\n".to_vec()));
    assert_eq!(
        action,
        ReaderAction::Forward(Batch { data: b"MSG,1,a\nMSG,2,b\n".to_vec(), message_count: 2 })
    );
    assert!(reader.buffered().is_empty());
}

#[test]
fn each_terminated_run_gives_exactly_one_batch() {
    let (mut reader, _) = FrameReader::new();
    let reads: Vec<&[u8]> = vec![b"a", b"b\n", b"c\n", b"d", b"e", b"f\n"];
    let mut batches = Vec::new();
    for read in reads {
        if let ReaderAction::Forward(batch) = reader.step(ReaderEvent::Read(read.to_vec())) {
            batches.push(batch);
        }
    }
    assert_eq!(
        batches,
        vec![
            Batch { data: b"ab\n".to_vec(), message_count: 1 },
            Batch { data: b"c\n".to_vec(), message_count: 1 },
            Batch { data: b"def\n".to_vec(), message_count: 1 },
        ]
    );
    assert!(reader.buffered().is_empty());
}

#[test]
fn a_newline_inside_a_read_does_not_end_the_batch() {
    let (mut reader, _) = FrameReader::new();
    assert_eq!(reader.step(ReaderEvent::Read(b"a\nb".to_vec())), ReaderAction::AwaitReadable);
    assert_eq!(reader.buffered(), b"a\nb");
}

#[test]
fn an_empty_read_is_a_clean_close() {
    let (mut reader, _) = FrameReader::new();
    reader.step(ReaderEvent::Read(b"partial".to_vec()));
    assert_eq!(reader.step(ReaderEvent::Read(Vec::new())), ReaderAction::Stop(StopReason::Closed));
    assert_eq!(reader.buffered(), b"partial");
}

#[test]
fn would_block_waits_again_and_a_read_error_stops() {
    let (mut reader, _) = FrameReader::new();
    reader.step(ReaderEvent::Read(b"xy".to_vec()));
    assert_eq!(reader.step(ReaderEvent::WouldBlock), ReaderAction::AwaitReadable);
    assert_eq!(reader.buffered(), b"xy");
    assert_eq!(reader.step(ReaderEvent::ReadFailed), ReaderAction::Stop(StopReason::Failed));
}

#[test]
fn a_failed_wait_pauses_for_less_than_a_second() {
    let (mut reader, _) = FrameReader::new();
    reader.step(ReaderEvent::Read(b"xy".to_vec()));
    assert_eq!(reader.step(ReaderEvent::WaitFailed), ReaderAction::Pause(WAIT_RETRY_PAUSE_MS));
    assert!(WAIT_RETRY_PAUSE_MS < 1000);
    assert_eq!(reader.buffered(), b"xy");
}

#[test]
fn a_failed_forward_does_not_stop_the_reader() {
    let (mut reader, _) = FrameReader::new();
    let first = reader.step(ReaderEvent::Read(b"one\n".to_vec()));
    assert!(matches!(first, ReaderAction::Forward(_)));
    assert_eq!(
        reader.step(ReaderEvent::Forwarded(Err(ForwardError::Status(500)))),
        ReaderAction::AwaitReadable
    );
    assert_eq!(reader.step(ReaderEvent::Readable), ReaderAction::Read);
    let second = reader.step(ReaderEvent::Read(b"two\n".to_vec()));
    assert_eq!(
        second,
        ReaderAction::Forward(Batch { data: b"two\n".to_vec(), message_count: 1 })
    );
    assert_eq!(reader.step(ReaderEvent::Forwarded(Ok(()))), ReaderAction::AwaitReadable);
    for failure in [
        ForwardError::Compression,
        ForwardError::Encoding,
        ForwardError::Transport,
        ForwardError::Body,
    ] {
        assert_eq!(
            reader.step(ReaderEvent::Forwarded(Err(failure))),
            ReaderAction::AwaitReadable
        );
    }
}

#[test]
fn capacity_over_the_threshold_resets_the_buffer_before_the_read() {
    assert_eq!(BASELINE_CAPACITY, 8192);
    assert_eq!(CAPACITY_THRESHOLD, 65536);
    let (mut reader, _) = FrameReader::new();
    reader.step(ReaderEvent::Read(b"unfinished".to_vec()));
    assert_eq!(reader.step_at_capacity(ReaderEvent::Readable, 65536), ReaderAction::Read);
    assert_eq!(reader.buffered(), b"unfinished");
    assert_eq!(reader.step_at_capacity(ReaderEvent::Readable, 65537), ReaderAction::Read);
    assert!(reader.buffered().is_empty());
}

#[test]
fn a_buffer_grown_past_the_threshold_is_dropped_when_readiness_comes() {
    let (mut reader, _) = FrameReader::new();
    for _ in 0..9 {
        assert_eq!(reader.step(ReaderEvent::Readable), ReaderAction::Read);
        assert_eq!(reader.step(ReaderEvent::Read(vec![b'x'; 8192])), ReaderAction::AwaitReadable);
    }
    assert_eq!(reader.buffered().len(), 9 * 8192);
    assert_eq!(reader.step(ReaderEvent::Readable), ReaderAction::Read);
    assert!(reader.buffered().is_empty());
    let action = reader.step(ReaderEvent::Read(b"tail\n".to_vec()));
    assert_eq!(action, ReaderAction::Forward(Batch { data: b"tail\n".to_vec(), message_count: 1 }));
}

#[test]
fn a_small_buffer_survives_readiness() {
    let (mut reader, _) = FrameReader::new();
    reader.step(ReaderEvent::Read(b"keep".to_vec()));
    assert_eq!(reader.step(ReaderEvent::Readable), ReaderAction::Read);
    assert_eq!(reader.buffered(), b"keep");
}
