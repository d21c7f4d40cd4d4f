use dcp::history::{HistoryStream, StreamAction};
use dcp::messages::{ChatMessageUnAuth, MessageRequest};
use dcp::server::{auth_requirement, chat_message_from_row, end_stream, history_query, relay_decision};
use dcp::messages::AuthRequired;

fn drain(mut stream: HistoryStream, outcomes: &[bool]) -> (Vec<String>, Vec<bool>) {
    let mut sent = Vec::new();
    let mut reports = Vec::new();
    let mut i = 0;
    loop {
        match stream.next_action() {
            StreamAction::Send(text) => {
                sent.push(text);
                let ok = outcomes.get(i).copied().unwrap_or(true);
                i += 1;
                reports.push(stream.record(ok));
            }
            StreamAction::Finished => break,
        }
    }
    (sent, reports)
}

#[test]
fn server_does_not_ask_for_authentication() {
    assert!(!auth_requirement().requires_auth);
}

#[test]
fn end_stream_marker_text() {
    assert_eq!(end_stream(), "End stream");
}

#[test]
fn history_query_copies_request() {
    let request = MessageRequest { channel_id: 3, authentication: false, older_than: 1_700_000_000, count: 5 };
    let query = history_query(&request);
    assert_eq!(query.channel_id, 3);
    assert_eq!(query.older_than, 1_700_000_000);
    assert_eq!(query.limit, 5);
}

#[test]
fn history_query_huge_count_wraps() {
    let request = MessageRequest { channel_id: 0, authentication: false, older_than: 0, count: u64::MAX };
    assert_eq!(history_query(&request).limit, -1);
}

#[test]
fn row_becomes_message() {
    let message = chat_message_from_row("ann".to_string(), "hello".to_string(), "2023-11-14 22:13:20", 3_600).unwrap();
    assert_eq!(message.username, "ann");
    assert_eq!(message.content, "hello");
    assert_eq!(message.timestamp, 1_700_000_000);
}

#[test]
fn row_with_bad_time_is_rejected() {
    assert!(chat_message_from_row("ann".to_string(), "hi".to_string(), "soon", 0).is_none());
    assert!(chat_message_from_row("ann".to_string(), "hi".to_string(), "9999-12-31 23:59:59", 60).is_none());
}

#[test]
fn history_is_sent_oldest_first_then_end() {
    let rows = vec!["newest".to_string(), "middle".to_string(), "oldest".to_string()];
    let (sent, reports) = drain(HistoryStream::new(rows), &[]);
    assert_eq!(sent, vec!["oldest", "middle", "newest", "End stream"]);
    assert_eq!(reports, vec![false, false, false, false]);
}

#[test]
fn empty_history_sends_only_end() {
    let (sent, reports) = drain(HistoryStream::new(Vec::new()), &[]);
    assert_eq!(sent, vec!["End stream"]);
    assert_eq!(reports, vec![false]);
}

#[test]
fn failed_row_skips_to_end() {
    let rows = vec!["b".to_string(), "a".to_string()];
    let (sent, reports) = drain(HistoryStream::new(rows), &[false, true]);
    assert_eq!(sent, vec!["a", "End stream"]);
    assert_eq!(reports, vec![false, false]);
}

#[test]
fn failed_end_is_reported() {
    let rows = vec!["a".to_string()];
    let (sent, reports) = drain(HistoryStream::new(rows), &[true, false]);
    assert_eq!(sent, vec!["a", "End stream"]);
    assert_eq!(reports, vec![false, true]);
}

#[test]
fn posted_message_is_stored_in_channel_zero() {
    let auth = AuthRequired { requires_auth: false };
    let posted = ChatMessageUnAuth { content: "hi".to_string(), timestamp: 77, username: "bo".to_string() };
    let stored = relay_decision(&auth, Some(posted)).unwrap();
    assert_eq!(stored.username, "bo");
    assert_eq!(stored.content, "hi");
    assert_eq!(stored.channel_id, 0);
    assert_eq!(stored.timestamp, 77);
}

#[test]
fn non_message_frame_is_ignored() {
    let auth = AuthRequired { requires_auth: false };
    assert!(relay_decision(&auth, None).is_none());
}

#[test]
fn authenticating_server_ignores_posts() {
    let auth = AuthRequired { requires_auth: true };
    let posted = ChatMessageUnAuth { content: "hi".to_string(), timestamp: 77, username: "bo".to_string() };
    assert!(relay_decision(&auth, Some(posted)).is_none());
}
