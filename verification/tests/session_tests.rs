use dcp::history::StreamAction;
use dcp::messages::{ChatMessageUnAuth, MessageRequest};
use dcp::session::ServerSession;

#[test]
fn session_with_history_request() {
    let mut session = ServerSession::new();
    assert!(!session.greet().requires_auth);
    let request = MessageRequest { channel_id: 0, authentication: false, older_than: 500, count: 2 };
    let query = session.first_frame(Some(request)).unwrap();
    assert_eq!((query.channel_id, query.older_than, query.limit), (0, 500, 2));
    assert!(!session.is_relaying());
    session.history_rows(vec!["second".to_string(), "first".to_string()]);
    let mut sent = Vec::new();
    while !session.is_relaying() {
        match session.next_history_action() {
            StreamAction::Send(text) => {
                sent.push(text);
                assert!(!session.history_sent(true));
            }
            StreamAction::Finished => unreachable!(),
        }
    }
    assert_eq!(sent, vec!["first", "second", "End stream"]);
    let posted = ChatMessageUnAuth { content: "c".to_string(), timestamp: 9, username: "u".to_string() };
    let stored = session.posted(Some(posted)).unwrap();
    assert_eq!((stored.username.as_str(), stored.channel_id, stored.content.as_str(), stored.timestamp), ("u", 0, "c", 9));
}

#[test]
fn session_without_request_relays_at_once() {
    let mut session = ServerSession::new();
    session.greet();
    assert!(session.first_frame(None).is_none());
    assert!(session.is_relaying());
    assert!(session.posted(None).is_none());
}

#[test]
fn session_reports_failed_end_of_stream() {
    let mut session = ServerSession::new();
    session.greet();
    session.first_frame(Some(MessageRequest { channel_id: 1, authentication: false, older_than: 0, count: 10 }));
    session.history_rows(Vec::new());
    match session.next_history_action() {
        StreamAction::Send(text) => assert_eq!(text, "End stream"),
        StreamAction::Finished => unreachable!(),
    }
    assert!(session.history_sent(false));
    assert!(session.is_relaying());
}

#[test]
fn relayed_messages_wait_for_history() {
    let mut session = ServerSession::new();
    assert!(!session.may_forward_relayed());
    session.greet();
    assert!(!session.may_forward_relayed());
    session.first_frame(Some(MessageRequest { channel_id: 0, authentication: false, older_than: 10, count: 1 }));
    assert!(!session.may_forward_relayed());
    session.history_rows(vec!["row".to_string()]);
    assert!(!session.may_forward_relayed());
    session.history_sent(true);
    assert!(!session.may_forward_relayed());
    session.history_sent(true);
    assert!(session.may_forward_relayed());
}
