//! The decisions of the playback queue.
//!
//! Playing audio is outside work: decoding a buffer, opening an output
//! endpoint, starting a stream, sleeping, waiting for the sink to drain. The
//! queue decides what is to be done next and what the call returns; whoever
//! drives it performs each action and reports the outcome as an event.
//!
//! A submission with a duration hint above zero is played at once on a fresh
//! endpoint, and the call lasts for the hint. A submission with hint zero is
//! appended to the persistent sink and the call returns without waiting. A
//! flush waits until the sink has drained.

use vstd::prelude::*;

use crate::error::VVError;

verus! {

/// What the queue is waiting for.
#[derive(Clone, Copy, Debug, PartialEq, Eq, Structural)]
pub enum Phase {
    /// No call is under way.
    Idle,
    /// A buffer of `size` bytes, submitted with hint `sec`, is being decoded.
    Decoding { size: usize, sec: u64 },
    /// A fresh endpoint is being opened for audio to be played for `sec`.
    Opening { sec: u64 },
    /// The stream is being started on the fresh endpoint.
    Starting { sec: u64 },
    /// The audio plays while the caller sleeps for `sec`.
    Sleeping { sec: u64 },
    /// Decoded audio of a buffer of `size` bytes is being appended to the sink.
    Appending { size: usize },
    /// The caller waits for the sink to drain.
    Draining,
}

/// What the driver has to do next.
#[derive(Clone, Copy, Debug, PartialEq, Eq, Structural)]
pub enum PlayAction {
    /// Decode the submitted buffer.
    Decode,
    /// Open a fresh output endpoint.
    OpenEndpoint,
    /// Start streaming the decoded audio on the fresh endpoint.
    StartStream,
    /// Block the calling thread for this many seconds.
    Sleep(u64),
    /// Append the decoded audio to the persistent sink.
    Append,
    /// Block the calling thread until the persistent sink is empty.
    WaitUntilEnd,
    /// Return success to the caller.
    Done,
    /// Return this failure to the caller.
    Fail(VVError),
}

/// What the driver reports back.
#[derive(Clone, Copy, Debug, PartialEq, Eq, Structural)]
pub enum PlayEvent {
    /// The buffer was decoded, or could not be.
    Decoded(bool),
    /// The fresh endpoint was opened, or could not be.
    Opened(bool),
    /// The stream was started, or could not be.
    Started(bool),
    /// The sleep is over.
    Slept,
    /// The sink has taken the audio.
    Appended,
    /// The sink is empty.
    Drained,
}

/// The queue as plain values.
pub struct QueueState {
    /// Whether the persistent sink was opened.
    pub sink_ready: bool,
    /// What the queue is waiting for.
    pub phase: Phase,
    /// The sizes of the buffers appended to the sink since it was last
    /// drained, in the order of submission.
    pub queued: Seq<usize>,
}

/// What a submission of `size` bytes with hint `sec` makes of the queue.
pub open spec fn submitted(s: QueueState, size: usize, sec: u64) -> (QueueState, PlayAction) {
    if s.phase != Phase::Idle {
        (s, PlayAction::Fail(VVError::PlaybackUnavailable))
    } else if sec == 0 && !s.sink_ready {
        (s, PlayAction::Fail(VVError::SinkNotInitialized))
    } else {
        (QueueState { phase: Phase::Decoding { size, sec }, ..s }, PlayAction::Decode)
    }
}

/// What a flush makes of the queue.
pub open spec fn flushed(s: QueueState) -> (QueueState, PlayAction) {
    if s.phase != Phase::Idle {
        (s, PlayAction::Fail(VVError::PlaybackUnavailable))
    } else if !s.sink_ready {
        (s, PlayAction::Fail(VVError::SinkNotInitialized))
    } else {
        (QueueState { phase: Phase::Draining, ..s }, PlayAction::WaitUntilEnd)
    }
}

/// What an event makes of the queue. An event that the phase does not await,
/// and every failure, ends the call with `PlaybackUnavailable`.
pub open spec fn advanced(s: QueueState, e: PlayEvent) -> (QueueState, PlayAction) {
    let failed = (
        QueueState { phase: Phase::Idle, ..s },
        PlayAction::Fail(VVError::PlaybackUnavailable),
    );
    match (s.phase, e) {
        (Phase::Decoding { size, sec }, PlayEvent::Decoded(true)) => if sec > 0 {
            (QueueState { phase: Phase::Opening { sec }, ..s }, PlayAction::OpenEndpoint)
        } else {
            (QueueState { phase: Phase::Appending { size }, ..s }, PlayAction::Append)
        },
        (Phase::Opening { sec }, PlayEvent::Opened(true)) => (
            QueueState { phase: Phase::Starting { sec }, ..s },
            PlayAction::StartStream,
        ),
        (Phase::Starting { sec }, PlayEvent::Started(true)) => (
            QueueState { phase: Phase::Sleeping { sec }, ..s },
            PlayAction::Sleep(sec),
        ),
        (Phase::Sleeping { sec }, PlayEvent::Slept) => (
            QueueState { phase: Phase::Idle, ..s },
            PlayAction::Done,
        ),
        (Phase::Appending { size }, PlayEvent::Appended) => (
            QueueState { phase: Phase::Idle, queued: s.queued.push(size), ..s },
            PlayAction::Done,
        ),
        (Phase::Draining, PlayEvent::Drained) => (
            QueueState { phase: Phase::Idle, queued: Seq::empty(), ..s },
            PlayAction::Done,
        ),
        _ => failed,
    }
}

/// Without a sink nothing is queued: a submission with hint zero to an idle
/// queue that has no sink fails with `SinkNotInitialized`, whatever the
/// buffer, and leaves the queue as it was.
pub proof fn lemma_no_sink_refuses(s: QueueState, size: usize)
    requires
        s.phase == Phase::Idle,
        !s.sink_ready,
    ensures
        submitted(s, size, 0) == (s, PlayAction::Fail(VVError::SinkNotInitialized)),
{
}

/// Queued audio keeps its order: a submission with hint zero whose decoding
/// and appending succeed ends with success and puts the buffer behind all
/// that were queued before it.
pub proof fn lemma_queued_in_order(s: QueueState, size: usize)
    requires
        s.phase == Phase::Idle,
        s.sink_ready,
    ensures
        ({
            let (s1, a1) = submitted(s, size, 0);
            let (s2, a2) = advanced(s1, PlayEvent::Decoded(true));
            let (s3, a3) = advanced(s2, PlayEvent::Appended);
            &&& a1 == PlayAction::Decode
            &&& a2 == PlayAction::Append
            &&& a3 == PlayAction::Done
            &&& s3 == (QueueState { queued: s.queued.push(size), ..s })
        }),
{
}

/// A call ends with success only in three ways: after the sleep of a
/// blocking submission, after the sink took a queued buffer, or after the
/// sink was drained.
pub proof fn lemma_done_only_after(s: QueueState, e: PlayEvent)
    requires
        advanced(s, e).1 == PlayAction::Done,
    ensures
        (s.phase is Sleeping && e == PlayEvent::Slept) || (s.phase is Appending && e
            == PlayEvent::Appended) || (s.phase == Phase::Draining && e == PlayEvent::Drained),
{
}

/// The sleep of a blocking submission lasts for its hint: from the
/// submission to the sleep, the hint is handed on unchanged.
pub proof fn lemma_sleep_is_hint(s: QueueState, size: usize, sec: u64)
    requires
        s.phase == Phase::Idle,
        sec > 0,
    ensures
        ({
            let (s1, a1) = submitted(s, size, sec);
            let (s2, a2) = advanced(s1, PlayEvent::Decoded(true));
            let (s3, a3) = advanced(s2, PlayEvent::Opened(true));
            let (s4, a4) = advanced(s3, PlayEvent::Started(true));
            let (s5, a5) = advanced(s4, PlayEvent::Slept);
            &&& a1 == PlayAction::Decode
            &&& a2 == PlayAction::OpenEndpoint
            &&& a3 == PlayAction::StartStream
            &&& a4 == PlayAction::Sleep(sec)
            &&& a5 == PlayAction::Done
            &&& s5 == s
        }),
{
}

/// The playback queue: whether the persistent sink exists, what call is
/// under way, and what was appended to the sink since it was last drained.
pub struct PlaybackQueue {
    sink_ready: bool,
    phase: Phase,
    queued: Vec<usize>,
}

impl View for PlaybackQueue {
    type V = QueueState;

    closed spec fn view(&self) -> QueueState {
        QueueState { sink_ready: self.sink_ready, phase: self.phase, queued: self.queued@ }
    }
}

impl PlaybackQueue {
    /// A queue with nothing under way and nothing appended. `sink_ready`
    /// says whether the persistent sink could be opened.
    pub fn new(sink_ready: bool) -> (r: PlaybackQueue)
        ensures
            r@ == (QueueState { sink_ready, phase: Phase::Idle, queued: Seq::empty() }),
    {
        PlaybackQueue { sink_ready, phase: Phase::Idle, queued: Vec::new() }
    }

    /// Records whether the persistent sink could be opened.
    pub fn sink_opened(&mut self, opened: bool)
        ensures
            final(self)@ == (QueueState { sink_ready: opened, ..old(self)@ }),
    {
        self.sink_ready = opened;
    }

    /// Whether the persistent sink was opened.
    pub fn sink_ready(&self) -> (r: bool)
        ensures
            r == self@.sink_ready,
    {
        self.sink_ready
    }

    /// What the queue is waiting for.
    pub fn phase(&self) -> (r: Phase)
        ensures
            r == self@.phase,
    {
        self.phase
    }

    /// The sizes of the buffers appended since the sink was last drained, in
    /// the order of submission.
    pub fn queued(&self) -> (r: &Vec<usize>)
        ensures
            r@ == self@.queued,
    {
        &self.queued
    }

    /// Begins the playing of a buffer of `size` bytes. With `sec` above zero
    /// the buffer is to be played at once and the call lasts `sec` seconds;
    /// with `sec` zero it is to be appended to the persistent sink, which
    /// fails with `SinkNotInitialized`, before anything is decoded, where
    /// there is no sink.
    pub fn submit(&mut self, size: usize, sec: u64) -> (r: PlayAction)
        ensures
            (final(self)@, r) == submitted(old(self)@, size, sec),
    {
        if self.phase != Phase::Idle {
            PlayAction::Fail(VVError::PlaybackUnavailable)
        } else if sec == 0 && !self.sink_ready {
            PlayAction::Fail(VVError::SinkNotInitialized)
        } else {
            self.phase = Phase::Decoding { size, sec };
            PlayAction::Decode
        }
    }

    /// Begins a flush: the caller is to wait until the sink is empty. Fails
    /// with `SinkNotInitialized` where there is no sink.
    pub fn flush(&mut self) -> (r: PlayAction)
        ensures
            (final(self)@, r) == flushed(old(self)@),
    {
        if self.phase != Phase::Idle {
            PlayAction::Fail(VVError::PlaybackUnavailable)
        } else if !self.sink_ready {
            PlayAction::Fail(VVError::SinkNotInitialized)
        } else {
            self.phase = Phase::Draining;
            PlayAction::WaitUntilEnd
        }
    }

    /// Takes the outcome of the last action and says what follows.
    pub fn advance(&mut self, event: PlayEvent) -> (r: PlayAction)
        ensures
            (final(self)@, r) == advanced(old(self)@, event),
    {
        let phase = self.phase;
        self.phase = Phase::Idle;
        match (phase, event) {
            (Phase::Decoding { size, sec }, PlayEvent::Decoded(true)) => {
                if sec > 0 {
                    self.phase = Phase::Opening { sec };
                    PlayAction::OpenEndpoint
                } else {
                    self.phase = Phase::Appending { size };
                    PlayAction::Append
                }
            },
            (Phase::Opening { sec }, PlayEvent::Opened(true)) => {
                self.phase = Phase::Starting { sec };
                PlayAction::StartStream
            },
            (Phase::Starting { sec }, PlayEvent::Started(true)) => {
                self.phase = Phase::Sleeping { sec };
                PlayAction::Sleep(sec)
            },
            (Phase::Sleeping { sec }, PlayEvent::Slept) => PlayAction::Done,
            (Phase::Appending { size }, PlayEvent::Appended) => {
                self.queued.push(size);
                PlayAction::Done
            },
            (Phase::Draining, PlayEvent::Drained) => {
                self.queued.clear();
                PlayAction::Done
            },
            _ => PlayAction::Fail(VVError::PlaybackUnavailable),
        }
    }
}

} // verus!
