//! The chat server's decisions for one connection: what it announces, which
//! stored messages a history request selects, in which order the history is
//! streamed back, and how a posted message is stored and relayed.

use vstd::prelude::*;
use crate::clock::{
    local_time_in_range, offset_in_range, read_stored_time, spec_stored_time, stored_seconds, StoredTime,
};
use crate::messages::{AuthRequired, ChatMessageUnAuth, MessageRequest};

verus! {

/// The frame that closes a history stream.
pub open spec fn end_stream_text() -> Seq<char> {
    "End stream"@
}

/// The frame that closes a history stream.
pub fn end_stream() -> (text: String)
    ensures
        text@ == end_stream_text(),
{
    let marker = "End stream";
    marker.to_string()
}

/// What the server announces to a new connection: it does not ask for authentication.
pub fn auth_requirement() -> (auth: AuthRequired)
    ensures
        !auth.requires_auth,
{
    AuthRequired { requires_auth: false }
}

/// The selection of stored messages that a history request asks for: those of
/// `channel_id` stored before `older_than`, newest first, at most `limit` of
/// them (a negative limit, from a count beyond `i64::MAX`, means no limit).
pub struct HistoryQuery {
    pub channel_id: i64,
    pub older_than: i64,
    pub limit: i64,
}

/// The selection that `request` asks for.
pub fn history_query(request: &MessageRequest) -> (query: HistoryQuery)
    ensures
        query.channel_id == request.channel_id,
        query.older_than == request.older_than,
        query.limit == request.count as i64,
{
    HistoryQuery {
        channel_id: request.channel_id,
        older_than: request.older_than,
        limit: request.count as i64,
    }
}

/// Builds the message of a stored row (user name, content and the stored UTC
/// time text), reading the time at the server's offset. `None` where the time
/// text cannot be read there.
pub fn chat_message_from_row(
    username: String,
    content: String,
    time_text: &str,
    offset_seconds: i32,
) -> (message: Option<ChatMessageUnAuth>)
    requires
        offset_in_range(offset_seconds),
    ensures
        match spec_stored_time(time_text@, offset_seconds) {
            StoredTime::At(t) => message matches Some(m) && m.username == username
                && m.content == content && m.timestamp == t,
            _ => message is None,
        },
{
    match read_stored_time(time_text, offset_seconds) {
        StoredTime::At(timestamp) => Some(ChatMessageUnAuth { username, content, timestamp }),
        _ => None,
    }
}

/// A stored row whose time text reads back as the timestamp it was stored
/// with becomes, at every offset where its wall-clock date is in range, the
/// message with that timestamp and the row's name and content.
pub proof fn lemma_stored_row_reads_back(time_text: Seq<char>, timestamp: i64, offset_seconds: i32)
    requires
        stored_seconds(time_text) == Some(timestamp),
        local_time_in_range(timestamp as int, offset_seconds),
    ensures
        spec_stored_time(time_text, offset_seconds) == StoredTime::At(timestamp),
{
}

/// A posted message as the server stores it.
pub struct StoredChat {
    pub username: String,
    pub channel_id: i64,
    pub content: String,
    pub timestamp: i64,
}

/// What the server does with a text frame posted on a connection whose
/// announcement was `auth`, given the message the frame holds, if any: a
/// server that asks for authentication ignores it; otherwise a message is
/// stored in channel 0, as posted, and then relayed to every connection.
pub fn relay_decision(auth: &AuthRequired, posted: Option<ChatMessageUnAuth>) -> (stored: Option<StoredChat>)
    ensures
        auth.requires_auth ==> stored is None,
        !auth.requires_auth ==> match posted {
            Some(m) => stored matches Some(s) && s.username == m.username && s.channel_id == 0
                && s.content == m.content && s.timestamp == m.timestamp,
            None => stored is None,
        },
{
    if auth.requires_auth {
        None
    } else {
        match posted {
            Some(m) => Some(StoredChat {
                username: m.username,
                channel_id: 0,
                content: m.content,
                timestamp: m.timestamp,
            }),
            None => None,
        }
    }
}

} // verus!
