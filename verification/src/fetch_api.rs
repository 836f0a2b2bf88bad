//! The streaming fetch bridge between a web view and a request handler: the frames it
//! sends to the web view, and its bookkeeping of open streams. A stream is active from
//! its opening until it completes or is cancelled; it takes upload chunks from its
//! opening until the last chunk arrives or it is cancelled.

use vstd::prelude::*;

use crate::oauth2::scope::strs;
use crate::storage::iroh::{contains_text, insert_text, remove_text};

verus! {

/// A frame on a response stream: the response head once, then data chunks, then an error
/// or the end of the stream.
#[derive(Clone, Debug)]
pub enum StreamFrame {
    ResponseHead { status: u16, headers: Vec<(String, String)> },
    Data(Vec<u8>),
    Error(String),
    Complete,
}

/// What opening a stream answers: the identifier of the new stream.
#[derive(Clone, Debug)]
pub struct InitStreamResponse {
    pub stream_id: String,
}

/// The streams that are active, and those that take upload chunks.
pub struct StreamsView {
    pub active: Set<Seq<char>>,
    pub uploads: Set<Seq<char>>,
}

/// The bridge's open streams.
#[derive(Debug)]
pub struct StreamRegistry {
    active: Vec<String>,
    uploads: Vec<String>,
}

impl View for StreamRegistry {
    type V = StreamsView;

    closed spec fn view(&self) -> StreamsView {
        StreamsView { active: strs(self.active@).to_set(), uploads: strs(self.uploads@).to_set() }
    }
}

/// What to do with an upload chunk: hand it to the request body, and whether the
/// stream's upload is over.
#[derive(Clone, Copy, Debug, PartialEq, Eq, Structural)]
pub struct UploadPlan {
    pub forward: bool,
    pub close: bool,
}

/// What the response pump does with the next piece of the response body.
#[derive(Clone, Debug)]
pub enum PumpStep {
    /// Send this frame and go on with the next piece.
    Send(StreamFrame),
    /// Send this frame and stop.
    SendAndStop(StreamFrame),
    /// The stream was cancelled: stop without sending.
    Stop,
}

impl StreamRegistry {
    /// No stream open.
    pub fn new() -> (r: Self)
        ensures
            r@.active == Set::<Seq<char>>::empty(),
            r@.uploads == Set::<Seq<char>>::empty(),
    {
        let r = StreamRegistry { active: Vec::new(), uploads: Vec::new() };
        assert(strs(r.active@).to_set() =~= Set::<Seq<char>>::empty());
        assert(strs(r.uploads@).to_set() =~= Set::<Seq<char>>::empty());
        r
    }

    /// Registers a newly opened stream: it is active and takes upload chunks.
    pub fn open(&mut self, stream_id: &str)
        ensures
            final(self)@.active == old(self)@.active.insert(stream_id@),
            final(self)@.uploads == old(self)@.uploads.insert(stream_id@),
    {
        insert_text(&mut self.active, stream_id);
        insert_text(&mut self.uploads, stream_id);
    }

    /// Whether the stream is active.
    pub fn is_active(&self, stream_id: &str) -> (r: bool)
        ensures
            r == self@.active.contains(stream_id@),
    {
        contains_text(&self.active, stream_id)
    }

    /// Whether the stream takes upload chunks.
    pub fn takes_uploads(&self, stream_id: &str) -> (r: bool)
        ensures
            r == self@.uploads.contains(stream_id@),
    {
        contains_text(&self.uploads, stream_id)
    }

    /// What to do with an upload chunk for the stream: a stream that takes uploads gets
    /// every chunk that is not empty, and its upload is over with the last chunk. Chunks
    /// for any other stream are dropped.
    pub fn plan_upload(&self, stream_id: &str, chunk: &Vec<u8>, is_eof: bool) -> (r: UploadPlan)
        ensures
            r.forward == (self@.uploads.contains(stream_id@) && chunk@.len() > 0),
            r.close == (self@.uploads.contains(stream_id@) && is_eof),
    {
        let open = contains_text(&self.uploads, stream_id);
        UploadPlan { forward: open && chunk.len() > 0, close: open && is_eof }
    }

    /// Ends the stream's upload.
    pub fn close_upload(&mut self, stream_id: &str)
        ensures
            final(self)@.active == old(self)@.active,
            final(self)@.uploads == old(self)@.uploads.remove(stream_id@),
    {
        remove_text(&mut self.uploads, stream_id);
    }

    /// Cancels the stream: it is no longer active and takes no more uploads.
    pub fn cancel(&mut self, stream_id: &str)
        ensures
            final(self)@.active == old(self)@.active.remove(stream_id@),
            final(self)@.uploads == old(self)@.uploads.remove(stream_id@),
    {
        remove_text(&mut self.active, stream_id);
        remove_text(&mut self.uploads, stream_id);
    }

    /// Marks the stream's response as over.
    pub fn finish(&mut self, stream_id: &str)
        ensures
            final(self)@.active == old(self)@.active.remove(stream_id@),
            final(self)@.uploads == old(self)@.uploads,
    {
        remove_text(&mut self.active, stream_id);
    }

    /// What the response pump of the stream does with the next piece of the response
    /// body: nothing once the stream is no longer active; otherwise a data frame for a
    /// chunk, or an error frame (and the end) for a failure.
    pub fn pump(&self, stream_id: &str, piece: Result<Vec<u8>, String>) -> (r: PumpStep)
        ensures
            !self@.active.contains(stream_id@) ==> r is Stop,
            self@.active.contains(stream_id@) ==> match piece {
                Ok(bytes) => r matches PumpStep::Send(StreamFrame::Data(d)) && d@ == bytes@,
                Err(message) => r matches PumpStep::SendAndStop(StreamFrame::Error(m)) && m@ == message@,
            },
    {
        if !contains_text(&self.active, stream_id) {
            return PumpStep::Stop;
        }
        match piece {
            Ok(bytes) => PumpStep::Send(StreamFrame::Data(bytes)),
            Err(message) => PumpStep::SendAndStop(StreamFrame::Error(message)),
        }
    }
}

/// The kind of a frame on a response stream.
#[derive(Clone, Copy, Debug, PartialEq, Eq, Structural)]
pub enum FrameKind {
    Head,
    Data,
    Error,
    Complete,
}

pub open spec fn kind_of(f: StreamFrame) -> FrameKind {
    match f {
        StreamFrame::ResponseHead { .. } => FrameKind::Head,
        StreamFrame::Data(_) => FrameKind::Data,
        StreamFrame::Error(_) => FrameKind::Error,
        StreamFrame::Complete => FrameKind::Complete,
    }
}

/// The frames are the response head followed by data frames only.
pub open spec fn head_and_data(k: Seq<FrameKind>) -> bool {
    &&& k.len() >= 1
    &&& k[0] == FrameKind::Head
    &&& forall|i: int| 1 <= i < k.len() ==> #[trigger] k[i] == FrameKind::Data
}

/// The order in which a response goes to the web view: the head, then data frames, then
/// at most one error frame, then the end of the stream; or only the head, where the web
/// view went away before it took the head. A prefix of such a sequence is in order too.
pub open spec fn frames_in_order(k: Seq<FrameKind>) -> bool {
    ||| k.len() == 0
    ||| head_and_data(k)
    ||| (k.len() >= 2 && head_and_data(k.drop_last()) && (k.last() == FrameKind::Error || k.last()
        == FrameKind::Complete))
    ||| (k.len() >= 3 && head_and_data(k.drop_last().drop_last()) && k[k.len() - 2]
        == FrameKind::Error && k.last() == FrameKind::Complete)
}

/// Where the sending of one response stands.
#[derive(Clone, Copy, Debug, PartialEq, Eq, Structural)]
pub enum PumpPhase {
    /// Nothing sent yet.
    Idle,
    /// The head was handed over; whether the web view took it is not known yet.
    HeadOut,
    /// The body is being sent.
    Body,
    /// The body is over (ended, failed, cancelled or refused); the end frame is owed.
    Ending,
    /// The stream is over; nothing more is sent.
    Over,
}

/// What the frames sent so far may be, in a phase.
pub open spec fn phase_frames(phase: PumpPhase, k: Seq<FrameKind>) -> bool {
    match phase {
        PumpPhase::Idle => k.len() == 0,
        PumpPhase::HeadOut => k == seq![FrameKind::Head],
        PumpPhase::Body => head_and_data(k),
        PumpPhase::Ending => head_and_data(k) || (k.len() >= 2 && head_and_data(k.drop_last())
            && k.last() == FrameKind::Error),
        PumpPhase::Over => k == seq![FrameKind::Head] || (k.len() >= 2 && k.last()
            == FrameKind::Complete && (head_and_data(k.drop_last()) || (k.len() >= 3
            && head_and_data(k.drop_last().drop_last()) && k[k.len() - 2] == FrameKind::Error))),
    }
}

/// The sending of one response to the web view: which frame goes next, and the kinds of
/// the frames handed out so far.
pub struct ResponsePump {
    phase: PumpPhase,
    sent: Ghost<Seq<FrameKind>>,
}

impl ResponsePump {
    #[verifier::type_invariant]
    spec fn inv(self) -> bool {
        phase_frames(self.phase, self.sent@)
    }

    /// Where the sending stands.
    pub closed spec fn phase_of(&self) -> PumpPhase {
        self.phase
    }

    /// The kinds of the frames handed out so far, in order.
    pub closed spec fn frames(&self) -> Seq<FrameKind> {
        self.sent@
    }

    /// Nothing sent yet.
    pub fn new() -> (r: Self)
        ensures
            r.phase_of() == PumpPhase::Idle,
            r.frames().len() == 0,
    {
        ResponsePump { phase: PumpPhase::Idle, sent: Ghost(Seq::empty()) }
    }

    /// Where the sending stands.
    pub fn phase(&self) -> (r: PumpPhase)
        ensures
            r == self.phase_of(),
    {
        self.phase
    }

    /// The response head, to be sent first; nothing once sending has begun.
    pub fn begin(&mut self, status: u16, headers: Vec<(String, String)>) -> (r: Option<StreamFrame>)
        ensures
            old(self).phase_of() == PumpPhase::Idle ==> (r matches Some(
                StreamFrame::ResponseHead { status: st, headers: h },
            ) && st == status && h == headers && final(self).phase_of() == PumpPhase::HeadOut),
            old(self).phase_of() != PumpPhase::Idle ==> r is None && final(self).phase_of()
                == old(self).phase_of(),
            r matches Some(f) ==> final(self).frames() == old(self).frames().push(kind_of(f)),
            r is None ==> final(self).frames() == old(self).frames(),
            frames_in_order(final(self).frames()),
    {
        proof {
            use_type_invariant(&*self);
        }
        if self.phase == PumpPhase::Idle {
            let ghost k = self.sent@.push(FrameKind::Head);
            assert(k =~= seq![FrameKind::Head]);
            *self = ResponsePump { phase: PumpPhase::HeadOut, sent: Ghost(k) };
            Some(StreamFrame::ResponseHead { status, headers })
        } else {
            None
        }
    }

    /// Whether the web view took the last frame handed out. Refusing the head ends the
    /// stream without an end frame; refusing a data frame ends the body.
    pub fn delivered(&mut self, accepted: bool)
        ensures
            old(self).phase_of() == PumpPhase::HeadOut ==> final(self).phase_of() == (if accepted {
                PumpPhase::Body
            } else {
                PumpPhase::Over
            }),
            old(self).phase_of() == PumpPhase::Body ==> final(self).phase_of() == (if accepted {
                PumpPhase::Body
            } else {
                PumpPhase::Ending
            }),
            old(self).phase_of() != PumpPhase::HeadOut && old(self).phase_of() != PumpPhase::Body
                ==> final(self).phase_of() == old(self).phase_of(),
            final(self).frames() == old(self).frames(),
            frames_in_order(final(self).frames()),
    {
        proof {
            use_type_invariant(&*self);
        }
        if self.phase == PumpPhase::HeadOut {
            if accepted {
                assert(head_and_data(self.sent@));
                self.phase = PumpPhase::Body;
            } else {
                self.phase = PumpPhase::Over;
            }
        } else if self.phase == PumpPhase::Body {
            if !accepted {
                self.phase = PumpPhase::Ending;
            }
        }
    }

    /// What the next piece of the response body gives while the body is being sent: a
    /// data frame for a chunk, an error frame for a failure (which ends the body), and
    /// nothing where the body is over (`None`) or the stream is no longer active.
    pub fn next_piece(&mut self, active: bool, piece: Option<Result<Vec<u8>, String>>) -> (r: Option<StreamFrame>)
        ensures
            old(self).phase_of() == PumpPhase::Body ==> (if !active {
                r is None && final(self).phase_of() == PumpPhase::Ending
            } else {
                match piece {
                    None => r is None && final(self).phase_of() == PumpPhase::Ending,
                    Some(Ok(bytes)) => r matches Some(StreamFrame::Data(d)) && d == bytes
                        && final(self).phase_of() == PumpPhase::Body,
                    Some(Err(message)) => r matches Some(StreamFrame::Error(m)) && m == message
                        && final(self).phase_of() == PumpPhase::Ending,
                }
            }),
            old(self).phase_of() != PumpPhase::Body ==> r is None && final(self).phase_of()
                == old(self).phase_of(),
            r matches Some(f) ==> final(self).frames() == old(self).frames().push(kind_of(f)),
            r is None ==> final(self).frames() == old(self).frames(),
            frames_in_order(final(self).frames()),
    {
        proof {
            use_type_invariant(&*self);
        }
        if self.phase != PumpPhase::Body {
            return None;
        }
        if !active {
            self.phase = PumpPhase::Ending;
            return None;
        }
        match piece {
            None => {
                self.phase = PumpPhase::Ending;
                None
            },
            Some(Ok(bytes)) => {
                let ghost k = self.sent@.push(FrameKind::Data);
                assert(k.drop_last() =~= self.sent@);
                self.sent = Ghost(k);
                Some(StreamFrame::Data(bytes))
            },
            Some(Err(message)) => {
                let ghost k = self.sent@.push(FrameKind::Error);
                assert(k.drop_last() =~= self.sent@);
                *self = ResponsePump { phase: PumpPhase::Ending, sent: Ghost(k) };
                Some(StreamFrame::Error(message))
            },
        }
    }

    /// The end frame, once the body is over; nothing otherwise. After it the stream is over.
    pub fn finish(&mut self) -> (r: Option<StreamFrame>)
        ensures
            old(self).phase_of() == PumpPhase::Ending ==> (r matches Some(StreamFrame::Complete)
                && final(self).phase_of() == PumpPhase::Over),
            old(self).phase_of() != PumpPhase::Ending ==> r is None && final(self).phase_of()
                == old(self).phase_of(),
            r matches Some(f) ==> final(self).frames() == old(self).frames().push(kind_of(f)),
            r is None ==> final(self).frames() == old(self).frames(),
            frames_in_order(final(self).frames()),
    {
        proof {
            use_type_invariant(&*self);
        }
        if self.phase == PumpPhase::Ending {
            let ghost old_k = self.sent@;
            let ghost k = old_k.push(FrameKind::Complete);
            assert(k.drop_last() =~= old_k);
            assert(k.drop_last().drop_last() =~= old_k.drop_last());
            *self = ResponsePump { phase: PumpPhase::Over, sent: Ghost(k) };
            Some(StreamFrame::Complete)
        } else {
            None
        }
    }
}

/// Every phase keeps the frames sent so far in order.
pub proof fn law_frames_stay_in_order(phase: PumpPhase, k: Seq<FrameKind>)
    requires
        phase_frames(phase, k),
    ensures
        frames_in_order(k),
{
    if phase == PumpPhase::HeadOut {
        assert(head_and_data(k));
    }
}


/// A cancelled stream is done with: its response stops and its upload chunks are dropped.
pub proof fn law_cancel_stops_stream(v: StreamsView, stream_id: Seq<char>)
    ensures
        !v.active.remove(stream_id).contains(stream_id),
        !v.uploads.remove(stream_id).contains(stream_id),
{
}

/// Opening a stream that was not open and cancelling it leaves the registry as it was.
pub proof fn law_cancel_undoes_open(v: StreamsView, stream_id: Seq<char>)
    requires
        !v.active.contains(stream_id),
        !v.uploads.contains(stream_id),
    ensures
        v.active.insert(stream_id).remove(stream_id) == v.active,
        v.uploads.insert(stream_id).remove(stream_id) == v.uploads,
{
    assert(v.active.insert(stream_id).remove(stream_id) =~= v.active);
    assert(v.uploads.insert(stream_id).remove(stream_id) =~= v.uploads);
}

} // verus!
