use vstd::prelude::*;

use crate::buffer::{pushed, BufferError, CaptureBuffer};

verus! {

/// Where a capture session stands.
#[derive(Debug, Clone, Copy, PartialEq, Eq, Structural)]
pub enum Phase {
    /// Chunks are read, decoded and pushed.
    Collecting,
    /// The samples have been handed to the sink; its answer is awaited.
    Draining,
    /// The output was written.
    Done,
    /// The session ended on an error.
    Failed,
}

/// Which condition ended collection.
#[derive(Debug, Clone, Copy, PartialEq, Eq, Structural)]
pub enum StopReason {
    /// The buffer reached its capacity.
    Full,
    /// The target duration elapsed.
    TimeElapsed,
    /// The producer had no more bytes.
    EndOfStream,
}

/// The error that ended a session.
#[derive(Debug, Clone, Copy, PartialEq, Eq, Structural)]
pub enum SessionError {
    /// The byte source could not be reached or read.
    Producer,
    /// A chunk could not be decoded.
    Decode,
    /// The output could not be written.
    Sink,
}

/// What happened outside since the last step.
#[derive(Debug, PartialEq, Eq)]
pub enum Event {
    /// A chunk arrived and decoded to these samples (possibly none).
    Chunk(Vec<u32>),
    /// The producer has no more bytes (or delivered an empty chunk).
    EndOfStream,
    /// Reading the next chunk failed.
    ProducerFailed,
    /// The last chunk could not be decoded.
    DecodeFailed,
    /// The sink wrote the samples it was given.
    SinkWritten,
    /// The sink failed to write.
    SinkFailed,
}

/// What the driver must do next.
#[derive(Debug, PartialEq, Eq)]
pub enum Action {
    /// Read the next chunk, decode it, and report it.
    ReadChunk,
    /// Write these samples to the sink, and report how that went.
    Write(Vec<u32>),
    /// Release the producer: the session is over.
    Release,
    /// Nothing: the event did not apply in this phase.
    Idle,
}

/// True when `elapsed_ms` milliseconds reach `target_secs` seconds.
pub open spec fn time_is_up(elapsed_ms: nat, target_secs: nat) -> bool {
    elapsed_ms >= target_secs * 1000
}

/// One chunk's worth of collection: the samples held after pushing `s`, and the
/// reason to stop, if any. Fullness is checked before the time.
pub open spec fn collect_step(
    held: Seq<u32>,
    cap: nat,
    target_secs: nat,
    s: Seq<u32>,
    elapsed_ms: nat,
) -> (Seq<u32>, Option<StopReason>) {
    let h = pushed(held, cap, s);
    if h.len() == cap {
        (h, Some(StopReason::Full))
    } else if time_is_up(elapsed_ms, target_secs) {
        (h, Some(StopReason::TimeElapsed))
    } else {
        (h, None)
    }
}

/// Collection over a series of decoded chunks, each with the milliseconds elapsed
/// when it was handled: the samples held when it stopped, and why, or where the
/// series ran out first, what is held then and `None`.
pub open spec fn collect(
    held: Seq<u32>,
    cap: nat,
    target_secs: nat,
    chunks: Seq<(Seq<u32>, nat)>,
) -> (Seq<u32>, Option<StopReason>)
    decreases chunks.len(),
{
    if chunks.len() == 0 {
        (held, None)
    } else {
        let (h, r) = collect_step(held, cap, target_secs, chunks[0].0, chunks[0].1);
        if r is Some {
            (h, r)
        } else {
            collect(h, cap, target_secs, chunks.drop_first())
        }
    }
}

/// True for the phases in which a session is over.
pub open spec fn is_terminal(p: Phase) -> bool {
    p == Phase::Done || p == Phase::Failed
}

/// One capture session: the buffer it fills, its target duration, and where it
/// stands.
pub struct Session {
    buffer: CaptureBuffer,
    target_secs: u64,
    phase: Phase,
    stop: Option<StopReason>,
    error: Option<SessionError>,
    releases: u64,
}

impl Session {
    /// The samples held.
    pub closed spec fn held(&self) -> Seq<u32> {
        self.buffer@
    }

    /// The buffer's capacity.
    pub closed spec fn cap(&self) -> nat {
        self.buffer.cap()
    }

    /// The target duration in seconds.
    pub closed spec fn target(&self) -> nat {
        self.target_secs as nat
    }

    /// The current phase.
    pub closed spec fn phase_of(&self) -> Phase {
        self.phase
    }

    /// Why collection stopped, once it has.
    pub closed spec fn stop_of(&self) -> Option<StopReason> {
        self.stop
    }

    /// The error that ended the session, if one did.
    pub closed spec fn error_of(&self) -> Option<SessionError> {
        self.error
    }

    /// How many times the driver has been told to release the producer.
    pub closed spec fn releases_of(&self) -> nat {
        self.releases as nat
    }

    /// The buffer is sound; the producer has been released once in a terminal phase
    /// and never before; a stop reason exists exactly once collection is over, and
    /// an error exactly when the session failed.
    pub closed spec fn wf(&self) -> bool {
        &&& self.buffer.wf()
        &&& self.releases as nat == if is_terminal(self.phase) { 1nat } else { 0nat }
        &&& (self.phase == Phase::Collecting <==> self.stop is None) || self.phase
            == Phase::Failed
        &&& (self.phase == Phase::Failed <==> self.error is Some)
        &&& self.phase != Phase::Collecting ==> self.buffer@.len() == 0
    }

    /// A session collecting into an empty buffer of `capacity` samples, for at most
    /// `target_secs` seconds; a zero capacity is refused.
    pub fn new(capacity: usize, target_secs: u64) -> (r: Result<Session, BufferError>)
        ensures
            capacity == 0 <==> r is Err,
            r is Err ==> r == Err::<Session, BufferError>(BufferError::InvalidCapacity),
            r matches Ok(s) ==> {
                &&& s.wf()
                &&& s.phase_of() == Phase::Collecting
                &&& s.held() == Seq::<u32>::empty()
                &&& s.cap() == capacity as nat
                &&& s.target() == target_secs as nat
                &&& s.releases_of() == 0
            },
    {
        match CaptureBuffer::new(capacity) {
            Ok(buffer) => Ok(
                Session {
                    buffer,
                    target_secs,
                    phase: Phase::Collecting,
                    stop: None,
                    error: None,
                    releases: 0,
                },
            ),
            Err(e) => Err(e),
        }
    }

    /// The current phase.
    pub fn phase(&self) -> (p: Phase)
        ensures
            p == self.phase_of(),
    {
        self.phase
    }

    /// Why collection stopped, or `None` while it goes on (or if it failed first).
    pub fn stop_reason(&self) -> (r: Option<StopReason>)
        ensures
            r == self.stop_of(),
    {
        self.stop
    }

    /// The error that ended the session, if one did.
    pub fn error(&self) -> (e: Option<SessionError>)
        ensures
            e == self.error_of(),
    {
        self.error
    }

    /// How many times the driver has been told to release the producer.
    pub fn releases(&self) -> (n: u64)
        ensures
            n as nat == self.releases_of(),
    {
        self.releases
    }

    /// The number of samples held.
    pub fn held_count(&self) -> (n: usize)
        ensures
            n as nat == self.held().len(),
    {
        self.buffer.held_count()
    }

    /// The number of samples the session collects at most.
    pub fn capacity(&self) -> (n: usize)
        ensures
            n as nat == self.cap(),
    {
        self.buffer.capacity()
    }

    /// True iff the buffer holds as many samples as its capacity.
    pub fn is_full(&self) -> (b: bool)
        ensures
            b == (self.held().len() == self.cap()),
    {
        self.buffer.is_full()
    }

    /// Advances the session on `event`, handled when `elapsed_ms` milliseconds had
    /// passed since it started, and says what the driver must do next.
    ///
    /// While collecting, a chunk's samples are pushed (those beyond the capacity are
    /// dropped); then collection stops if the buffer is full or, failing that, if the
    /// target duration has elapsed. When collection stops, the held samples are drained
    /// and handed out to be written. A producer or decode failure while collecting,
    /// and the sink's answer while draining, end the session, and only then is the
    /// producer to be released. An event that does not apply in the current phase
    /// changes nothing.
    pub fn step(&mut self, event: Event, elapsed_ms: u64) -> (a: Action)
        requires
            old(self).wf(),
        ensures
            final(self).wf(),
            final(self).cap() == old(self).cap(),
            final(self).target() == old(self).target(),
            final(self).releases_of() == old(self).releases_of() + if a == Action::Release {
                1nat
            } else {
                0nat
            },
            old(self).phase_of() == Phase::Collecting ==> match event {
                Event::Chunk(s) => {
                    let (h, r) = collect_step(
                        old(self).held(),
                        old(self).cap(),
                        old(self).target(),
                        s@,
                        elapsed_ms as nat,
                    );
                    match r {
                        None => {
                            &&& final(self).phase_of() == Phase::Collecting
                            &&& final(self).error_of() == None::<SessionError>
                            &&& final(self).held() == h
                            &&& a == Action::ReadChunk
                        },
                        Some(reason) => {
                            &&& final(self).phase_of() == Phase::Draining
                            &&& final(self).stop_of() == Some(reason)
                            &&& final(self).error_of() == None::<SessionError>
                            &&& final(self).held() == Seq::<u32>::empty()
                            &&& a matches Action::Write(v) && v@ == h
                        },
                    }
                },
                Event::EndOfStream => {
                    &&& final(self).phase_of() == Phase::Draining
                    &&& final(self).stop_of() == Some(StopReason::EndOfStream)
                    &&& final(self).error_of() == None::<SessionError>
                    &&& final(self).held() == Seq::<u32>::empty()
                    &&& a matches Action::Write(v) && v@ == old(self).held()
                },
                Event::ProducerFailed => {
                    &&& final(self).phase_of() == Phase::Failed
                    &&& final(self).error_of() == Some(SessionError::Producer)
                    &&& a == Action::Release
                },
                Event::DecodeFailed => {
                    &&& final(self).phase_of() == Phase::Failed
                    &&& final(self).error_of() == Some(SessionError::Decode)
                    &&& a == Action::Release
                },
                _ => *final(self) == *old(self) && a == Action::Idle,
            },
            old(self).phase_of() == Phase::Draining ==> match event {
                Event::SinkWritten => {
                    &&& final(self).phase_of() == Phase::Done
                    &&& final(self).stop_of() == old(self).stop_of()
                    &&& final(self).error_of() == None::<SessionError>
                    &&& a == Action::Release
                },
                Event::SinkFailed => {
                    &&& final(self).phase_of() == Phase::Failed
                    &&& final(self).stop_of() == old(self).stop_of()
                    &&& final(self).error_of() == Some(SessionError::Sink)
                    &&& a == Action::Release
                },
                _ => *final(self) == *old(self) && a == Action::Idle,
            },
            is_terminal(old(self).phase_of()) ==> *final(self) == *old(self) && a
                == Action::Idle,
    {
        match self.phase {
            Phase::Collecting => match event {
                Event::Chunk(s) => {
                    self.buffer.push_slice(s.as_slice());
                    let full = self.buffer.is_full();
                    let late = elapsed_ms / 1000 >= self.target_secs;
                    proof {
                        lemma_time_is_up(elapsed_ms, self.target_secs);
                    }
                    if full || late {
                        self.phase = Phase::Draining;
                        self.stop = Some(if full { StopReason::Full } else { StopReason::TimeElapsed });
                        Action::Write(self.buffer.drain())
                    } else {
                        Action::ReadChunk
                    }
                },
                Event::EndOfStream => {
                    self.phase = Phase::Draining;
                    self.stop = Some(StopReason::EndOfStream);
                    Action::Write(self.buffer.drain())
                },
                Event::ProducerFailed => {
                    self.buffer.drain();
                    self.phase = Phase::Failed;
                    self.error = Some(SessionError::Producer);
                    self.releases = self.releases + 1;
                    Action::Release
                },
                Event::DecodeFailed => {
                    self.buffer.drain();
                    self.phase = Phase::Failed;
                    self.error = Some(SessionError::Decode);
                    self.releases = self.releases + 1;
                    Action::Release
                },
                _ => Action::Idle,
            },
            Phase::Draining => match event {
                Event::SinkWritten => {
                    self.phase = Phase::Done;
                    self.releases = self.releases + 1;
                    Action::Release
                },
                Event::SinkFailed => {
                    self.phase = Phase::Failed;
                    self.error = Some(SessionError::Sink);
                    self.releases = self.releases + 1;
                    Action::Release
                },
                _ => Action::Idle,
            },
            _ => Action::Idle,
        }
    }
}

proof fn lemma_time_is_up(elapsed_ms: u64, target_secs: u64)
    ensures
        (elapsed_ms / 1000 >= target_secs) == time_is_up(elapsed_ms as nat, target_secs as nat),
{
    assert((elapsed_ms / 1000 >= target_secs) == (elapsed_ms >= target_secs * 1000))
        by (nonlinear_arith);
}

/// The number of samples in a series of decoded chunks.
pub open spec fn total_samples(chunks: Seq<(Seq<u32>, nat)>) -> nat
    decreases chunks.len(),
{
    if chunks.len() == 0 {
        0
    } else {
        chunks[0].0.len() + total_samples(chunks.drop_first())
    }
}

/// When the chunks bring at least enough samples to fill the buffer before the target
/// duration elapses, collection stops because the buffer is full, and holds exactly
/// its capacity.
pub proof fn lemma_full_before_time(
    held: Seq<u32>,
    cap: nat,
    target_secs: nat,
    chunks: Seq<(Seq<u32>, nat)>,
)
    requires
        held.len() < cap,
        held.len() + total_samples(chunks) >= cap,
        forall|i: int| 0 <= i < chunks.len() ==> !time_is_up(#[trigger] chunks[i].1, target_secs),
    ensures
        collect(held, cap, target_secs, chunks).1 == Some(StopReason::Full),
        collect(held, cap, target_secs, chunks).0.len() == cap,
    decreases chunks.len(),
{
    let rest = chunks.drop_first();
    let h = pushed(held, cap, chunks[0].0);
    assert(!time_is_up(chunks[0].1, target_secs));
    if h.len() < cap {
        assert forall|i: int| 0 <= i < rest.len() implies !time_is_up(#[trigger] rest[i].1, target_secs) by {
            assert(rest[i] == chunks[i + 1]);
        }
        lemma_full_before_time(h, cap, target_secs, rest);
    }
}

/// When each chunk brings a single sample, too few to fill the buffer, and the target
/// duration has elapsed by the last of them, collection stops because time is up,
/// with fewer samples held than the capacity.
pub proof fn lemma_time_before_full(
    held: Seq<u32>,
    cap: nat,
    target_secs: nat,
    chunks: Seq<(Seq<u32>, nat)>,
)
    requires
        0 < chunks.len(),
        held.len() + chunks.len() < cap,
        forall|i: int| 0 <= i < chunks.len() ==> (#[trigger] chunks[i]).0.len() == 1,
        time_is_up(chunks.last().1, target_secs),
    ensures
        collect(held, cap, target_secs, chunks).1 == Some(StopReason::TimeElapsed),
        collect(held, cap, target_secs, chunks).0.len() < cap,
    decreases chunks.len(),
{
    let rest = chunks.drop_first();
    assert(chunks[0].0.len() == 1);
    let h = pushed(held, cap, chunks[0].0);
    assert(h.len() == held.len() + 1);
    if !time_is_up(chunks[0].1, target_secs) {
        assert(chunks.len() > 1);
        assert forall|i: int| 0 <= i < rest.len() implies (#[trigger] rest[i]).0.len() == 1 by {
            assert(rest[i] == chunks[i + 1]);
        }
        assert(rest.last() == chunks.last());
        lemma_time_before_full(h, cap, target_secs, rest);
    }
}

/// In every state of a session the driver has been told to release the producer
/// exactly once if the session is over, and never otherwise.
pub proof fn lemma_released_once(s: &Session)
    requires
        s.wf(),
    ensures
        s.releases_of() == if is_terminal(s.phase_of()) {
            1nat
        } else {
            0nat
        },
{
}

} // verus!
