use ytcapture::buffer::BufferError;
use ytcapture::config::{buffer_capacity, target_seconds};
use ytcapture::session::{Action, Event, Phase, Session, SessionError, StopReason};

fn chunk(n: usize) -> Vec<u32> {
    (0..n as u32).collect()
}

#[test]
fn zero_capacity_session_is_refused() {
    assert_eq!(Session::new(0, 1).err(), Some(BufferError::InvalidCapacity));
}

#[test]
fn end_to_end_two_seconds() {
    let secs = target_seconds(Some(2), None).unwrap();
    let cap = buffer_capacity(22050, secs).unwrap();
    assert_eq!(cap, 44100);
    let mut s = Session::new(cap, secs as u64).unwrap();
    assert_eq!(s.step(Event::Chunk(chunk(20000)), 100), Action::ReadChunk);
    assert_eq!(s.held_count(), 20000);
    assert_eq!(s.step(Event::Chunk(chunk(20000)), 200), Action::ReadChunk);
    assert!(!s.is_full());
    let third = chunk(10000);
    match s.step(Event::Chunk(third.clone()), 300) {
        Action::Write(v) => {
            assert_eq!(v.len(), 44100);
            assert_eq!(&v[40000..], &third[..4100]);
        }
        other => panic!("expected a write, got {:?}", other),
    }
    assert_eq!(s.phase(), Phase::Draining);
    assert_eq!(s.stop_reason(), Some(StopReason::Full));
    assert_eq!(s.releases(), 0);
    assert_eq!(s.step(Event::SinkWritten, 400), Action::Release);
    assert_eq!(s.phase(), Phase::Done);
    assert_eq!(s.releases(), 1);
}

#[test]
fn fullness_wins_before_time() {
    let mut s = Session::new(6, 10).unwrap();
    assert_eq!(s.step(Event::Chunk(vec![1, 2, 3]), 10), Action::ReadChunk);
    assert_eq!(s.step(Event::Chunk(vec![4, 5, 6]), 20), Action::Write(vec![1, 2, 3, 4, 5, 6]));
    assert_eq!(s.stop_reason(), Some(StopReason::Full));
}

#[test]
fn fullness_is_checked_before_time() {
    let mut s = Session::new(2, 1).unwrap();
    assert_eq!(s.step(Event::Chunk(vec![1, 2]), 5000), Action::Write(vec![1, 2]));
    assert_eq!(s.stop_reason(), Some(StopReason::Full));
}

#[test]
fn slow_producer_stops_on_time() {
    let mut s = Session::new(22050, 1).unwrap();
    assert_eq!(s.step(Event::Chunk(vec![7]), 300), Action::ReadChunk);
    assert_eq!(s.step(Event::Chunk(vec![8]), 700), Action::ReadChunk);
    assert_eq!(s.step(Event::Chunk(vec![9]), 999), Action::ReadChunk);
    assert_eq!(s.held_count(), 3);
    assert!(s.held_count() < s.capacity());
    assert_eq!(s.step(Event::Chunk(vec![10]), 1000), Action::Write(vec![7, 8, 9, 10]));
    assert_eq!(s.stop_reason(), Some(StopReason::TimeElapsed));
    assert_eq!(s.phase(), Phase::Draining);
}

#[test]
fn end_of_stream_drains_what_is_held() {
    let mut s = Session::new(10, 5).unwrap();
    s.step(Event::Chunk(vec![4, 5]), 0);
    assert_eq!(s.step(Event::EndOfStream, 1), Action::Write(vec![4, 5]));
    assert_eq!(s.stop_reason(), Some(StopReason::EndOfStream));
    assert_eq!(s.step(Event::SinkWritten, 2), Action::Release);
    assert_eq!(s.phase(), Phase::Done);
}

#[test]
fn decode_failure_releases_once() {
    let mut s = Session::new(10, 5).unwrap();
    s.step(Event::Chunk(vec![1]), 0);
    assert_eq!(s.step(Event::DecodeFailed, 1), Action::Release);
    assert_eq!(s.phase(), Phase::Failed);
    assert_eq!(s.error(), Some(SessionError::Decode));
    assert_eq!(s.held_count(), 0);
    assert_eq!(s.step(Event::SinkWritten, 2), Action::Idle);
    assert_eq!(s.step(Event::ProducerFailed, 3), Action::Idle);
    assert_eq!(s.releases(), 1);
}

#[test]
fn producer_failure_releases_once() {
    let mut s = Session::new(10, 5).unwrap();
    assert_eq!(s.step(Event::ProducerFailed, 0), Action::Release);
    assert_eq!(s.error(), Some(SessionError::Producer));
    assert_eq!(s.stop_reason(), None);
    assert_eq!(s.releases(), 1);
}

#[test]
fn sink_failure_releases_once() {
    let mut s = Session::new(1, 5).unwrap();
    assert_eq!(s.step(Event::Chunk(vec![3]), 0), Action::Write(vec![3]));
    assert_eq!(s.step(Event::Chunk(vec![4]), 1), Action::Idle);
    assert_eq!(s.step(Event::SinkFailed, 2), Action::Release);
    assert_eq!(s.phase(), Phase::Failed);
    assert_eq!(s.error(), Some(SessionError::Sink));
    assert_eq!(s.step(Event::SinkFailed, 3), Action::Idle);
    assert_eq!(s.releases(), 1);
}

#[test]
fn sink_events_ignored_while_collecting() {
    let mut s = Session::new(4, 5).unwrap();
    assert_eq!(s.step(Event::SinkWritten, 0), Action::Idle);
    assert_eq!(s.phase(), Phase::Collecting);
    assert_eq!(s.releases(), 0);
}

#[test]
fn empty_decoded_chunk_keeps_collecting() {
    let mut s = Session::new(4, 5).unwrap();
    assert_eq!(s.step(Event::Chunk(Vec::new()), 0), Action::ReadChunk);
    assert_eq!(s.held_count(), 0);
}
