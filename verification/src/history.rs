//! Streaming a batch of stored messages back to the client that asked for it:
//! the rows come from the store newest first and are sent oldest first, one
//! frame each, followed by the end-of-stream frame. A failed send stops the
//! rows but the end-of-stream frame is still attempted.

use vstd::prelude::*;
use crate::server::{end_stream, end_stream_text};

verus! {

/// Where a history stream stands.
#[derive(PartialEq, Eq, Structural, Clone, Copy, Debug)]
pub enum StreamPhase {
    /// Rows remain to be sent.
    Rows,
    /// Only the end-of-stream frame remains.
    End,
    /// Nothing remains.
    Done,
}

/// The mathematical state of a history stream.
pub struct StreamModel {
    /// The rows as the store gave them, newest first.
    pub rows: Seq<Seq<char>>,
    /// How many rows, counted from the oldest, have been sent.
    pub sent: nat,
    pub phase: StreamPhase,
}

/// The state in which a stream of `rows` starts.
pub open spec fn spec_start(rows: Seq<Seq<char>>) -> StreamModel {
    StreamModel {
        rows,
        sent: 0,
        phase: if rows.len() == 0 { StreamPhase::End } else { StreamPhase::Rows },
    }
}

/// The states a stream can be in.
pub open spec fn model_wf(m: StreamModel) -> bool {
    &&& m.sent <= m.rows.len()
    &&& m.phase == StreamPhase::Rows ==> m.sent < m.rows.len()
}

/// The frame a stream in state `m` sends next, `None` once it is finished.
pub open spec fn spec_pending(m: StreamModel) -> Option<Seq<char>> {
    match m.phase {
        StreamPhase::Rows => Some(m.rows[m.rows.len() - 1 - m.sent]),
        StreamPhase::End => Some(end_stream_text()),
        StreamPhase::Done => None,
    }
}

/// The state after the pending frame was sent, `delivered` telling whether
/// the send succeeded.
pub open spec fn spec_after(m: StreamModel, delivered: bool) -> StreamModel {
    match m.phase {
        StreamPhase::Rows => if delivered {
            StreamModel {
                rows: m.rows,
                sent: m.sent + 1,
                phase: if m.sent + 1 == m.rows.len() { StreamPhase::End } else { StreamPhase::Rows },
            }
        } else {
            StreamModel { rows: m.rows, sent: m.sent, phase: StreamPhase::End }
        },
        StreamPhase::End => StreamModel { rows: m.rows, sent: m.sent, phase: StreamPhase::Done },
        StreamPhase::Done => m,
    }
}

/// How many frames a stream in state `m` may still send at most.
pub open spec fn spec_frames_left(m: StreamModel) -> nat {
    match m.phase {
        StreamPhase::Rows => (m.rows.len() - m.sent + 1) as nat,
        StreamPhase::End => 1,
        StreamPhase::Done => 0,
    }
}

/// The state after `k` sends that all succeeded, from `m`.
pub open spec fn spec_after_deliveries(m: StreamModel, k: nat) -> StreamModel
    decreases k,
{
    if k == 0 {
        m
    } else {
        spec_after(spec_after_deliveries(m, (k - 1) as nat), true)
    }
}

/// The frames a stream of `rows` sends when every send succeeds: the rows
/// oldest first, then the end-of-stream frame.
pub open spec fn spec_full_stream(rows: Seq<Seq<char>>) -> Seq<Seq<char>> {
    rows.reverse().push(end_stream_text())
}

/// What a stream asks the connection to do next.
pub enum StreamAction {
    /// Send this text frame.
    Send(String),
    /// The stream is over.
    Finished,
}

/// A history stream over the rows of one history request.
pub struct HistoryStream {
    rows: Vec<String>,
    sent: usize,
    phase: StreamPhase,
}

impl View for HistoryStream {
    type V = StreamModel;

    closed spec fn view(&self) -> StreamModel {
        StreamModel { rows: self.rows@.map_values(|r: String| r@), sent: self.sent as nat, phase: self.phase }
    }
}

impl HistoryStream {
    /// Whether the stream is in one of its possible states.
    pub open spec fn wf(&self) -> bool {
        model_wf(self@)
    }

    /// A stream over `rows`, given newest first as the store returns them.
    pub fn new(rows: Vec<String>) -> (stream: Self)
        ensures
            stream.wf(),
            stream@ == spec_start(rows@.map_values(|r: String| r@)),
    {
        let phase = if rows.len() == 0 { StreamPhase::End } else { StreamPhase::Rows };
        let stream = HistoryStream { rows, sent: 0, phase };
        stream
    }

    /// The next thing to do: send the pending frame, or nothing.
    pub fn next_action(&self) -> (action: StreamAction)
        requires
            self.wf(),
        ensures
            match action {
                StreamAction::Send(text) => spec_pending(self@) == Some(text@),
                StreamAction::Finished => spec_pending(self@) is None,
            },
    {
        assert(self@.rows.len() == self.rows@.len());
        match self.phase {
            StreamPhase::Rows => {
                let index = self.rows.len() - 1 - self.sent;
                StreamAction::Send(self.rows[index].clone())
            },
            StreamPhase::End => StreamAction::Send(end_stream()),
            StreamPhase::Done => StreamAction::Finished,
        }
    }

    /// Records the outcome of sending the pending frame. Returns whether the
    /// end-of-stream frame could not be sent, which the server reports.
    pub fn record(&mut self, delivered: bool) -> (end_failed: bool)
        requires
            old(self).wf(),
        ensures
            final(self).wf(),
            final(self)@ == spec_after(old(self)@, delivered),
            end_failed == (old(self)@.phase == StreamPhase::End && !delivered),
    {
        let row_count = self.rows.len();
        assert(self@.rows.len() == row_count);
        match self.phase {
            StreamPhase::Rows => {
                if delivered {
                    self.sent = self.sent + 1;
                    if self.sent == row_count {
                        self.phase = StreamPhase::End;
                    }
                } else {
                    self.phase = StreamPhase::End;
                }
                false
            },
            StreamPhase::End => {
                self.phase = StreamPhase::Done;
                !delivered
            },
            StreamPhase::Done => false,
        }
    }
}

/// Every step of a stream that is not finished brings it closer to its end:
/// a stream sends at most one frame per row plus the end-of-stream frame.
pub proof fn lemma_stream_progress(m: StreamModel, delivered: bool)
    requires
        model_wf(m),
        m.phase != StreamPhase::Done,
    ensures
        model_wf(spec_after(m, delivered)),
        spec_frames_left(spec_after(m, delivered)) < spec_frames_left(m),
{
}

/// After a failed send of a row, the next frame is the end-of-stream frame.
pub proof fn lemma_failed_row_ends_stream(m: StreamModel)
    requires
        model_wf(m),
        m.phase == StreamPhase::Rows,
    ensures
        spec_pending(spec_after(m, false)) == Some(end_stream_text()),
{
}

/// When every send succeeds, a stream of `rows` sends the rows oldest first
/// and then the end-of-stream frame, and then finishes.
pub proof fn lemma_full_stream(rows: Seq<Seq<char>>)
    ensures
        forall|k: nat| k < rows.len() + 1 ==>
            spec_pending(#[trigger] spec_after_deliveries(spec_start(rows), k))
                == Some(spec_full_stream(rows)[k as int]),
        spec_pending(spec_after_deliveries(spec_start(rows), rows.len() + 1)) is None,
{
    assert forall|k: nat| k <= rows.len() implies {
        let m = #[trigger] spec_after_deliveries(spec_start(rows), k);
        &&& model_wf(m)
        &&& m.rows == rows
        &&& (k < rows.len() ==> m.phase == StreamPhase::Rows && m.sent == k)
        &&& (k == rows.len() ==> m.phase == StreamPhase::End)
    } by {
        lemma_deliveries_prefix(rows, k);
    }
    assert forall|k: nat| k < rows.len() + 1 implies
        spec_pending(#[trigger] spec_after_deliveries(spec_start(rows), k))
            == Some(spec_full_stream(rows)[k as int]) by {
        let m = spec_after_deliveries(spec_start(rows), k);
        if k < rows.len() {
            assert(spec_full_stream(rows)[k as int] == rows.reverse()[k as int]);
        }
    }
    let last = spec_after_deliveries(spec_start(rows), rows.len());
    assert(last.phase == StreamPhase::End);
}

proof fn lemma_deliveries_prefix(rows: Seq<Seq<char>>, k: nat)
    requires
        k <= rows.len(),
    ensures
        ({
            let m = spec_after_deliveries(spec_start(rows), k);
            &&& model_wf(m)
            &&& m.rows == rows
            &&& (k < rows.len() ==> m.phase == StreamPhase::Rows && m.sent == k)
            &&& (k == rows.len() ==> m.phase == StreamPhase::End)
        }),
    decreases k,
{
    if k > 0 {
        lemma_deliveries_prefix(rows, (k - 1) as nat);
    }
}

} // verus!
