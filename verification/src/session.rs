//! One connection of the chat server, as a sequence of decisions: announce
//! the authentication policy, read the first frame as a history request,
//! stream the requested history back, then store and relay posted messages.
//! The server program performs each step and reports back its outcome.

use vstd::prelude::*;
use crate::history::{model_wf, spec_after, spec_pending, spec_start, HistoryStream, StreamAction, StreamModel, StreamPhase};
use crate::messages::{AuthRequired, ChatMessageUnAuth, MessageRequest};
use crate::server::{auth_requirement, history_query, relay_decision, HistoryQuery, StoredChat};
use crate::ui::texts;

verus! {

/// Where a connection stands.
#[derive(PartialEq, Eq, Structural, Clone, Copy, Debug)]
pub enum SessionPhase {
    /// The authentication policy has not been announced yet.
    Greeting,
    /// Waiting for the first frame, which may ask for history.
    AwaitingRequest,
    /// Waiting for the stored rows the history request selects.
    Querying,
    /// Streaming the history back.
    Streaming,
    /// Storing and relaying posted messages.
    Relaying,
}

/// The mathematical state of a connection.
pub struct SessionModel {
    pub phase: SessionPhase,
    pub requires_auth: bool,
    pub stream: StreamModel,
}

/// One connection of the chat server.
pub struct ServerSession {
    auth: AuthRequired,
    phase: SessionPhase,
    stream: HistoryStream,
}

impl View for ServerSession {
    type V = SessionModel;

    closed spec fn view(&self) -> SessionModel {
        SessionModel { phase: self.phase, requires_auth: self.auth.requires_auth, stream: self.stream@ }
    }
}

impl ServerSession {
    /// Whether the connection is in one of its possible states.
    pub open spec fn wf(&self) -> bool {
        &&& model_wf(self@.stream)
        &&& self@.phase == SessionPhase::Streaming ==> self@.stream.phase != StreamPhase::Done
    }

    /// A new connection.
    pub fn new() -> (session: Self)
        ensures
            session.wf(),
            session@.phase == SessionPhase::Greeting,
            !session@.requires_auth,
    {
        ServerSession { auth: auth_requirement(), phase: SessionPhase::Greeting, stream: HistoryStream::new(Vec::new()) }
    }

    /// The announcement to send first: whether the server asks for authentication.
    pub fn greet(&mut self) -> (auth: AuthRequired)
        requires
            old(self).wf(),
            old(self)@.phase == SessionPhase::Greeting,
        ensures
            final(self).wf(),
            final(self)@ == (SessionModel { phase: SessionPhase::AwaitingRequest, ..old(self)@ }),
            auth.requires_auth == old(self)@.requires_auth,
    {
        self.phase = SessionPhase::AwaitingRequest;
        self.auth
    }

    /// Takes the first frame, read as a history request where it is one, and
    /// returns the selection of stored messages to fetch, if any. Without a
    /// request the connection goes straight to relaying.
    pub fn first_frame(&mut self, request: Option<MessageRequest>) -> (query: Option<HistoryQuery>)
        requires
            old(self).wf(),
            old(self)@.phase == SessionPhase::AwaitingRequest,
        ensures
            final(self).wf(),
            final(self)@.stream == old(self)@.stream,
            final(self)@.requires_auth == old(self)@.requires_auth,
            match request {
                Some(r) => {
                    &&& final(self)@.phase == SessionPhase::Querying
                    &&& query matches Some(q) && q.channel_id == r.channel_id
                        && q.older_than == r.older_than && q.limit == r.count as i64
                },
                None => final(self)@.phase == SessionPhase::Relaying && query is None,
            },
    {
        match request {
            Some(r) => {
                self.phase = SessionPhase::Querying;
                Some(history_query(&r))
            },
            None => {
                self.phase = SessionPhase::Relaying;
                None
            },
        }
    }

    /// Takes the rows the history query selected, newest first, and starts
    /// streaming them back.
    pub fn history_rows(&mut self, rows: Vec<String>)
        requires
            old(self).wf(),
            old(self)@.phase == SessionPhase::Querying,
        ensures
            final(self).wf(),
            final(self)@.phase == SessionPhase::Streaming,
            final(self)@.requires_auth == old(self)@.requires_auth,
            final(self)@.stream == spec_start(texts(rows@)),
    {
        self.stream = HistoryStream::new(rows);
        self.phase = SessionPhase::Streaming;
    }

    /// The next frame of the history stream to send.
    pub fn next_history_action(&self) -> (action: StreamAction)
        requires
            self.wf(),
            self@.phase == SessionPhase::Streaming,
        ensures
            match action {
                StreamAction::Send(text) => spec_pending(self@.stream) == Some(text@),
                StreamAction::Finished => spec_pending(self@.stream) is None,
            },
            action is Send,
    {
        self.stream.next_action()
    }

    /// Records whether the pending history frame was sent; once the stream is
    /// over, the connection goes on to relaying. Returns whether the
    /// end-of-stream frame could not be sent, which the server reports.
    pub fn history_sent(&mut self, delivered: bool) -> (end_failed: bool)
        requires
            old(self).wf(),
            old(self)@.phase == SessionPhase::Streaming,
        ensures
            final(self).wf(),
            final(self)@.stream == spec_after(old(self)@.stream, delivered),
            final(self)@.requires_auth == old(self)@.requires_auth,
            final(self)@.phase == if final(self)@.stream.phase == StreamPhase::Done {
                SessionPhase::Relaying
            } else {
                SessionPhase::Streaming
            },
            end_failed == (old(self)@.stream.phase == StreamPhase::End && !delivered),
    {
        let end_failed = self.stream.record(delivered);
        match self.stream.next_action() {
            StreamAction::Finished => {
                self.phase = SessionPhase::Relaying;
            },
            StreamAction::Send(_) => {},
        }
        end_failed
    }

    /// Whether the connection relays posted messages now.
    pub fn is_relaying(&self) -> (relaying: bool)
        ensures
            relaying == (self@.phase == SessionPhase::Relaying),
    {
        self.phase == SessionPhase::Relaying
    }

    /// Whether messages relayed from other connections may be forwarded to
    /// this one: only once its history stream is over (or was never asked
    /// for), so that the history arrives before live messages.
    pub fn may_forward_relayed(&self) -> (forward: bool)
        ensures
            forward == (self@.phase == SessionPhase::Relaying),
    {
        self.phase == SessionPhase::Relaying
    }

    /// What to store and relay for a posted text frame, given the message it
    /// holds, if any.
    pub fn posted(&self, posted: Option<ChatMessageUnAuth>) -> (stored: Option<StoredChat>)
        requires
            self@.phase == SessionPhase::Relaying,
        ensures
            self@.requires_auth ==> stored is None,
            !self@.requires_auth ==> match posted {
                Some(m) => stored matches Some(s) && s.username == m.username && s.channel_id == 0
                    && s.content == m.content && s.timestamp == m.timestamp,
                None => stored is None,
            },
    {
        relay_decision(&self.auth, posted)
    }
}

} // verus!
