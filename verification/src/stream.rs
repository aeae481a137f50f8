//! Stream session: the per-request state machine that emits one frame at a
//! time — content deltas, a finish frame, an optional usage frame, and the
//! terminal sentinel, in that fixed order. The transition function is pure;
//! an external scheduler or timer decides when each step runs.

use crate::corpus::Corpus;
use crate::template::{
    render_sse_chunk, render_sse_done, render_sse_finish, render_sse_usage, sse_chunk_text,
    sse_finish_text, sse_usage_text, SSE_TEMPLATE_DONE,
};
use vstd::prelude::*;

verus! {

/// One unit of the streaming wire format, in structured form. The renderer
/// turns each variant into its exact JSON text.
#[derive(Debug, PartialEq, Eq)]
pub enum Frame {
    /// One content-delta chunk carrying one token.
    Delta(String),
    /// The finish chunk (`finish_reason = "length"`) with the last reserved
    /// token, or empty content when none remains.
    Finish(String),
    /// The usage chunk: completion tokens, then total tokens.
    Usage(usize, usize),
    /// The terminal sentinel.
    Done,
}

/// The mathematical model of a frame: content as a character sequence,
/// counters as naturals.
pub enum FrameModel {
    Delta(Seq<char>),
    Finish(Seq<char>),
    Usage(nat, nat),
    Done,
}

impl View for Frame {
    type V = FrameModel;

    open spec fn view(&self) -> FrameModel {
        match self {
            Frame::Delta(s) => FrameModel::Delta(s@),
            Frame::Finish(s) => FrameModel::Finish(s@),
            Frame::Usage(ct, tt) => FrameModel::Usage(*ct as nat, *tt as nat),
            Frame::Done => FrameModel::Done,
        }
    }
}

/// The exact wire text of a frame.
pub open spec fn frame_text(m: FrameModel) -> Seq<char> {
    match m {
        FrameModel::Delta(c) => sse_chunk_text(c),
        FrameModel::Finish(c) => sse_finish_text(c),
        FrameModel::Usage(ct, tt) => sse_usage_text(ct, tt),
        FrameModel::Done => SSE_TEMPLATE_DONE@,
    }
}

/// Render a frame into its exact JSON text.
pub fn render_frame(f: &Frame) -> (r: String)
    ensures
        r@ == frame_text(f@),
{
    match f {
        Frame::Delta(s) => render_sse_chunk(s.as_str()),
        Frame::Finish(s) => render_sse_finish(s.as_str()),
        Frame::Usage(ct, tt) => render_sse_usage(*ct, *tt),
        Frame::Done => render_sse_done(),
    }
}

/// The phases of a stream session, in their required order.
pub enum Phase {
    /// Content-delta frames are still due.
    Emitting,
    /// The single finish frame is due next.
    Finishing,
    /// The optional usage frame is decided here.
    UsageOrDone,
    /// The terminal sentinel is due next.
    Done,
    /// Terminal: no further frames, ever.
    Completed,
}

/// The first `n` content-delta frames for the given tokens.
pub open spec fn delta_frames(toks: Seq<Seq<char>>, n: int) -> Seq<FrameModel> {
    Seq::new(n as nat, |i: int| FrameModel::Delta(toks[i]))
}

/// The content of the finish frame: the last session token where one is
/// reserved, else the empty string.
pub open spec fn finish_content(toks: Seq<Seq<char>>) -> Seq<char> {
    if toks.len() > 0 {
        toks[toks.len() - 1]
    } else {
        Seq::empty()
    }
}

/// The complete, strictly ordered frame sequence of a session over the
/// given tokens: one delta per token but the last, the finish frame, the
/// usage frame if requested, and the done sentinel.
pub open spec fn session_trace(toks: Seq<Seq<char>>, include_usage: bool) -> Seq<FrameModel> {
    let deltas = if toks.len() > 0 {
        delta_frames(toks, toks.len() - 1)
    } else {
        Seq::empty()
    };
    let usage = if include_usage {
        seq![FrameModel::Usage(toks.len(), toks.len())]
    } else {
        Seq::empty()
    };
    deltas + seq![FrameModel::Finish(finish_content(toks))] + usage + seq![FrameModel::Done]
}

/// The shape of a session's trace over `b >= 1` tokens: exactly `b - 1`
/// content-delta frames carrying the tokens in order, then exactly one
/// finish frame with the reserved last token, then exactly one usage frame
/// iff usage was requested (counting all `b` emitted tokens), then exactly
/// one done sentinel — and nothing else. With a single token, no delta
/// frame comes before the finish frame.
pub proof fn lemma_session_trace_shape(toks: Seq<Seq<char>>, include_usage: bool)
    requires
        toks.len() >= 1,
    ensures
        ({
            let tr = session_trace(toks, include_usage);
            &&& tr.len() == toks.len() + 1 + (if include_usage {
                1int
            } else {
                0int
            })
            &&& forall|i: int|
                0 <= i < toks.len() - 1 ==> tr[i] == FrameModel::Delta(toks[i])
            &&& tr[toks.len() - 1] == FrameModel::Finish(toks[toks.len() - 1])
            &&& (include_usage ==> tr[toks.len() as int] == FrameModel::Usage(
                toks.len(),
                toks.len(),
            ))
            &&& tr[tr.len() - 1] == FrameModel::Done
        }),
{
}

/// A streaming session. It owns copies of the tokens it will emit, a cursor
/// into them, its phase, and whether usage reporting was requested. No two
/// sessions share mutable state.
pub struct StreamSession {
    tokens: Vec<String>,
    cursor: usize,
    include_usage: bool,
    phase: Phase,
}

/// The requested budget with its default: absent means the whole corpus.
pub open spec fn requested_or_total(requested: Option<usize>, total: nat) -> nat {
    match requested {
        Some(r) => r as nat,
        None => total,
    }
}

/// The effective token budget: the requested budget clamped to the corpus
/// size, and to at least 1 — one slot is always reserved for the finish
/// frame.
pub open spec fn clamped_budget(requested: nat, total: nat) -> nat {
    let b = if requested < total {
        requested
    } else {
        total
    };
    if b < 1 {
        1
    } else {
        b
    }
}

/// How many tokens a session takes from the corpus: the effective budget,
/// capped once more by the corpus size (an empty corpus offers none).
pub open spec fn session_take(requested: nat, total: nat) -> nat {
    if clamped_budget(requested, total) < total {
        clamped_budget(requested, total)
    } else {
        total
    }
}

/// Budget clamping, case by case: a requested budget within the corpus is
/// taken as is; one beyond it (or absent, which defaults to the total) is
/// capped at the corpus size; a zero budget still reserves the one finish
/// slot; and an empty corpus offers no token at all.
pub proof fn lemma_session_take_cases(requested: nat, total: nat)
    ensures
        1 <= requested && requested <= total ==> session_take(requested, total) == requested,
        requested > total ==> session_take(requested, total) == total,
        requested == 0 && total >= 1 ==> session_take(requested, total) == 1,
        total == 0 ==> session_take(requested, total) == 0,
{
}

impl StreamSession {
    /// The session's tokens, as character sequences.
    pub closed spec fn toks(&self) -> Seq<Seq<char>> {
        self.tokens@.map_values(|t: String| t@)
    }

    /// Whether a usage frame was requested.
    pub closed spec fn usage_requested(&self) -> bool {
        self.include_usage
    }

    /// The session's current phase.
    pub closed spec fn phase(&self) -> Phase {
        self.phase
    }

    /// The cursor: how many tokens have been emitted.
    pub closed spec fn cursor(&self) -> nat {
        self.cursor as nat
    }

    /// Phase and cursor agree: the cursor walks the tokens during
    /// `Emitting`, rests on the reserved last token in `Finishing`, and has
    /// consumed them all afterwards.
    pub closed spec fn wf(&self) -> bool {
        match self.phase {
            Phase::Emitting => self.cursor + 1 < self.tokens@.len(),
            Phase::Finishing => if self.tokens@.len() == 0 {
                self.cursor == 0
            } else {
                self.cursor + 1 == self.tokens@.len()
            },
            Phase::UsageOrDone => self.cursor == self.tokens@.len(),
            Phase::Done => self.cursor == self.tokens@.len(),
            Phase::Completed => self.cursor == self.tokens@.len(),
        }
    }

    /// The frames the session has emitted so far, in order.
    pub open spec fn emitted(&self) -> Seq<FrameModel> {
        match self.phase() {
            Phase::Emitting => delta_frames(self.toks(), self.cursor() as int),
            Phase::Finishing => delta_frames(self.toks(), self.cursor() as int),
            Phase::UsageOrDone => session_trace(self.toks(), self.usage_requested()).take(
                if self.toks().len() > 0 {
                    self.toks().len() as int
                } else {
                    1
                },
            ),
            Phase::Done => session_trace(self.toks(), self.usage_requested()).take(
                session_trace(self.toks(), self.usage_requested()).len() - 1,
            ),
            Phase::Completed => session_trace(self.toks(), self.usage_requested()),
        }
    }

    /// A strictly decreasing measure: how many steps may still emit.
    pub open spec fn steps_left(&self) -> nat {
        match self.phase() {
            Phase::Emitting => (3 + self.toks().len() - self.cursor()) as nat,
            Phase::Finishing => 3,
            Phase::UsageOrDone => 2,
            Phase::Done => 1,
            Phase::Completed => 0,
        }
    }

    /// Prime a session: take the first `effective budget` tokens of the
    /// corpus and start before the first delta (or directly before the
    /// finish frame when at most one token is taken).
    pub fn new(corpus: &Corpus, requested: Option<usize>, include_usage: bool) -> (s: StreamSession)
        ensures
            s.wf(),
            s.toks() == corpus@.subrange(
                0,
                session_take(requested_or_total(requested, corpus@.len()), corpus@.len()) as int,
            ),
            s.usage_requested() == include_usage,
            s.emitted() == Seq::<FrameModel>::empty(),
    {
        let total = corpus.total_count();
        let req = match requested {
            Some(r) => r,
            None => total,
        };
        let b = if req < total {
            req
        } else {
            total
        };
        let b = if b < 1 {
            1
        } else {
            b
        };
        let take = if b < total {
            b
        } else {
            total
        };
        let tokens = corpus.prefix_tokens(take);
        proof {
            assert(tokens@.map_values(|t: String| t@).len() == take);
        }
        let phase = if take >= 2 {
            Phase::Emitting
        } else {
            Phase::Finishing
        };
        let s = StreamSession { tokens, cursor: 0, include_usage, phase };
        proof {
            assert(s.emitted() =~= Seq::<FrameModel>::empty());
        }
        s
    }

    /// Whether the session has retired: no further frames will ever come.
    pub fn is_completed(&self) -> (r: bool)
        ensures
            r == (self.phase() is Completed),
    {
        match self.phase {
            Phase::Completed => true,
            _ => false,
        }
    }

    /// One step of the state machine: emit at most one frame and advance.
    /// Every frame the session ever emits comes from here, and a completed
    /// session emits nothing and never changes again.
    pub fn next_frame(&mut self) -> (f: Option<Frame>)
        requires
            old(self).wf(),
        ensures
            final(self).wf(),
            final(self).toks() == old(self).toks(),
            final(self).usage_requested() == old(self).usage_requested(),
            match f {
                Some(fr) => final(self).emitted() == old(self).emitted() + seq![fr@],
                None => final(self).emitted() == old(self).emitted(),
            },
            old(self).phase() is Completed ==> f is None && final(self).phase() is Completed,
            !(old(self).phase() is Completed) ==> final(self).steps_left() < old(
                self,
            ).steps_left(),
            final(self).phase() is Completed ==> final(self).emitted() == session_trace(
                old(self).toks(),
                old(self).usage_requested(),
            ),
    {
        match self.phase {
            Phase::Emitting => {
                let n = self.tokens.len();
                let token = self.tokens[self.cursor].clone();
                self.cursor = self.cursor + 1;
                if self.cursor + 1 >= n {
                    self.phase = Phase::Finishing;
                }
                proof {
                    assert(delta_frames(self.toks(), self.cursor as int) =~= delta_frames(
                        old(self).toks(),
                        old(self).cursor() as int,
                    ) + seq![FrameModel::Delta(token@)]);
                }
                Some(Frame::Delta(token))
            },
            Phase::Finishing => {
                let content = if self.tokens.len() > 0 {
                    let t = self.tokens[self.cursor].clone();
                    self.cursor = self.cursor + 1;
                    t
                } else {
                    String::new()
                };
                self.phase = Phase::UsageOrDone;
                proof {
                    assert(content@ == finish_content(self.toks()));
                    assert(self.emitted() =~= old(self).emitted() + seq![
                        FrameModel::Finish(content@),
                    ]);
                }
                Some(Frame::Finish(content))
            },
            Phase::UsageOrDone => {
                self.phase = Phase::Done;
                if self.include_usage {
                    let n = self.tokens.len();
                    proof {
                        assert(self.emitted() =~= old(self).emitted() + seq![
                            FrameModel::Usage(n as nat, n as nat),
                        ]);
                    }
                    Some(Frame::Usage(n, n))
                } else {
                    proof {
                        assert(self.emitted() =~= old(self).emitted());
                    }
                    None
                }
            },
            Phase::Done => {
                self.phase = Phase::Completed;
                proof {
                    assert(self.emitted() =~= old(self).emitted() + seq![FrameModel::Done]);
                }
                Some(Frame::Done)
            },
            Phase::Completed => None,
        }
    }

    /// Run the state machine to completion, collecting every emitted frame:
    /// a fresh session yields exactly its trace — `budget - 1` deltas, one
    /// finish frame, one usage frame iff usage was requested, and one done
    /// sentinel, in that order.
    pub fn collect_frames(&mut self) -> (frames: Vec<Frame>)
        requires
            old(self).wf(),
            old(self).emitted() == Seq::<FrameModel>::empty(),
        ensures
            final(self).wf(),
            final(self).phase() is Completed,
            frames@.map_values(|f: Frame| f@) == session_trace(
                old(self).toks(),
                old(self).usage_requested(),
            ),
    {
        let mut frames: Vec<Frame> = Vec::new();
        while !self.is_completed()
            invariant
                self.wf(),
                self.toks() == old(self).toks(),
                self.usage_requested() == old(self).usage_requested(),
                frames@.map_values(|f: Frame| f@) == self.emitted(),
            decreases self.steps_left(),
        {
            let f = self.next_frame();
            match f {
                Some(fr) => {
                    proof {
                        let ghost prev = frames@.map_values(|f: Frame| f@);
                        assert((frames@ + seq![fr]).map_values(|f: Frame| f@) =~= prev + seq![
                            fr@,
                        ]);
                    }
                    frames.push(fr);
                },
                None => {},
            }
        }
        frames
    }
}

} // verus!
