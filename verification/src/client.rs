//! The terminal client's side of the history exchange: the request it sends,
//! what it does with the reply, and the messages it posts.

use vstd::prelude::*;
use crate::messages::{AuthRequired, ChatMessageUnAuth, MessageRequest};
use crate::oldest::{spec_updated_all, update_oldest_message_timestamp, OldestMessageTimestamp};
use crate::server::{end_stream, end_stream_text};
use crate::text::{spec_trimmed, trim_white_space};

verus! {

/// How long the client waits before trying again to connect to the server.
pub const RECONNECT_DELAY_SECONDS: u64 = 5;

/// How the client goes on after the server's announcement.
#[derive(PartialEq, Eq, Structural, Clone, Copy, Debug)]
pub enum ClientStart {
    /// Ask the user for a name and chat without authentication.
    AskUsername,
    /// Stop: the server asks for authentication, which the client does not offer.
    UnsupportedAuthentication,
}

/// How the client goes on after the announcement `auth`.
pub fn client_start(auth: &AuthRequired) -> (start: ClientStart)
    ensures
        start == if auth.requires_auth { ClientStart::UnsupportedAuthentication } else { ClientStart::AskUsername },
{
    if auth.requires_auth {
        ClientStart::UnsupportedAuthentication
    } else {
        ClientStart::AskUsername
    }
}

/// The request for `count` messages of `channel_id` older than `older_than`.
pub fn history_request(channel_id: i64, authentication: bool, older_than: i64, count: u64) -> (request: MessageRequest)
    ensures
        request.channel_id == channel_id,
        request.authentication == authentication,
        request.older_than == older_than,
        request.count == count,
{
    MessageRequest { channel_id, authentication, older_than, count }
}

/// The message the client posts when the user sends `text`.
pub fn outgoing_message(username: &String, text: String, timestamp: i64) -> (message: ChatMessageUnAuth)
    ensures
        message.username@ == username@,
        message.content == text,
        message.timestamp == timestamp,
{
    ChatMessageUnAuth { username: username.clone(), content: text, timestamp }
}

/// The user name taken from the line the user typed: the line trimmed.
pub fn username_from_line(line: &str) -> (username: String)
    ensures
        username@ == spec_trimmed(line@),
{
    trim_white_space(line)
}

/// A frame received while waiting for the reply to a history request.
pub enum HistoryFrame {
    /// A text frame, with its text read as a list of messages and as one
    /// message, where it is one.
    Text { text: String, batch: Option<Vec<ChatMessageUnAuth>>, single: Option<ChatMessageUnAuth> },
    /// A frame of another kind.
    Other,
    /// The connection ended or failed.
    Closed,
}

/// Something to hand to the screen.
pub enum ForwardItem {
    /// A chat message (the screen receives it in its JSON form).
    Chat(ChatMessageUnAuth),
    /// A text to show as it is.
    Raw(String),
}

/// What the client does with one frame of the reply.
pub struct HistoryStep {
    /// What to hand to the screen, in order.
    pub forward: Vec<ForwardItem>,
    /// Whether the client stops waiting for the reply.
    pub finished: bool,
}

/// The timestamps of a list of messages.
pub open spec fn timestamps(messages: Seq<ChatMessageUnAuth>) -> Seq<i64> {
    messages.map_values(|m: ChatMessageUnAuth| m.timestamp)
}

/// The messages of a list, as items for the screen.
pub open spec fn chat_items(messages: Seq<ChatMessageUnAuth>) -> Seq<ForwardItem> {
    messages.map_values(|m: ChatMessageUnAuth| ForwardItem::Chat(m))
}

/// The messages a text frame holds, in order: a list, or else one message.
pub open spec fn frame_messages(
    batch: Option<Vec<ChatMessageUnAuth>>,
    single: Option<ChatMessageUnAuth>,
) -> Seq<ChatMessageUnAuth> {
    match batch {
        Some(v) => v@,
        None => match single {
            Some(m) => seq![m],
            None => Seq::empty(),
        },
    }
}

/// Hands the messages of `batch` to the screen in order, recording each
/// timestamp in `tracker`.
fn forward_messages(tracker: &mut OldestMessageTimestamp, batch: &Vec<ChatMessageUnAuth>) -> (forward: Vec<ForwardItem>)
    ensures
        forward@ == chat_items(batch@),
        final(tracker).spec_value() == spec_updated_all(old(tracker).spec_value(), timestamps(batch@)),
{
    let mut forward: Vec<ForwardItem> = Vec::new();
    let ghost start = tracker.spec_value();
    let count = batch.len();
    for i in 0..count
        invariant
            count == batch@.len(),
            forward@ == chat_items(batch@.take(i as int)),
            tracker.spec_value() == spec_updated_all(start, timestamps(batch@.take(i as int))),
    {
        let message = batch[i].clone();
        update_oldest_message_timestamp(tracker, message.timestamp);
        assert(batch@.take(i + 1) == batch@.take(i as int).push(batch@[i as int]));
        assert(timestamps(batch@.take(i + 1)).drop_last() == timestamps(batch@.take(i as int)));
        forward.push(ForwardItem::Chat(message));
        assert(forward@ == chat_items(batch@.take(i + 1)));
    }
    assert(batch@.take(count as int) == batch@);
    forward
}

/// What the client does with one frame of the reply to its history request:
/// the messages of a text frame are handed to the screen and their
/// timestamps recorded; the end-of-stream frame is dropped; any other text is
/// handed on as it came. The client stops after the first text frame or when
/// the connection ends, and skips frames of other kinds.
pub fn on_history_frame(tracker: &mut OldestMessageTimestamp, frame: HistoryFrame) -> (step: HistoryStep)
    ensures
        match frame {
            HistoryFrame::Text { text, batch, single } => {
                &&& step.finished
                &&& final(tracker).spec_value() == spec_updated_all(
                    old(tracker).spec_value(),
                    timestamps(frame_messages(batch, single)),
                )
                &&& if batch is Some || single is Some {
                    step.forward@ == chat_items(frame_messages(batch, single))
                } else if text@ == end_stream_text() {
                    step.forward@.len() == 0
                } else {
                    step.forward@ == seq![ForwardItem::Raw(text)]
                }
            },
            HistoryFrame::Other => !step.finished && step.forward@.len() == 0
                && final(tracker).spec_value() == old(tracker).spec_value(),
            HistoryFrame::Closed => step.finished && step.forward@.len() == 0
                && final(tracker).spec_value() == old(tracker).spec_value(),
        },
{
    match frame {
        HistoryFrame::Text { text, batch, single } => {
            match batch {
                Some(messages) => {
                    let forward = forward_messages(tracker, &messages);
                    HistoryStep { forward, finished: true }
                },
                None => match single {
                    Some(message) => {
                        let ghost start = tracker.spec_value();
                        update_oldest_message_timestamp(tracker, message.timestamp);
                        assert(timestamps(seq![message]) == seq![message.timestamp]);
                        assert(seq![message.timestamp].drop_last() == Seq::<i64>::empty());
                        assert(spec_updated_all(start, Seq::<i64>::empty()) == start);
                        assert(spec_updated_all(start, seq![message.timestamp]) == tracker.spec_value());
                        let mut forward: Vec<ForwardItem> = Vec::new();
                        forward.push(ForwardItem::Chat(message));
                        assert(forward@ == chat_items(seq![message]));
                        HistoryStep { forward, finished: true }
                    },
                    None => {
                        assert(timestamps(Seq::<ChatMessageUnAuth>::empty()) == Seq::<i64>::empty());
                        assert(spec_updated_all(tracker.spec_value(), Seq::<i64>::empty()) == tracker.spec_value());
                        let end = end_stream();
                        if text == end {
                            HistoryStep { forward: Vec::new(), finished: true }
                        } else {
                            let mut forward: Vec<ForwardItem> = Vec::new();
                            forward.push(ForwardItem::Raw(text));
                            HistoryStep { forward, finished: true }
                        }
                    },
                },
            }
        },
        HistoryFrame::Other => HistoryStep { forward: Vec::new(), finished: false },
        HistoryFrame::Closed => HistoryStep { forward: Vec::new(), finished: true },
    }
}

} // verus!
