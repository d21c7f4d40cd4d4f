use dcp::client::{history_request, on_history_frame, outgoing_message, username_from_line, ForwardItem, HistoryFrame};
use dcp::messages::ChatMessageUnAuth;
use dcp::oldest::{get_oldest_message_timestamp, update_oldest_message_timestamp, OldestMessageTimestamp};

fn message(username: &str, content: &str, timestamp: i64) -> ChatMessageUnAuth {
    ChatMessageUnAuth { content: content.to_string(), timestamp, username: username.to_string() }
}

#[test]
fn request_carries_its_fields() {
    let request = history_request(0, false, 1_700_000_000, 5);
    assert_eq!(request.channel_id, 0);
    assert!(!request.authentication);
    assert_eq!(request.older_than, 1_700_000_000);
    assert_eq!(request.count, 5);
}

#[test]
fn outgoing_message_fields() {
    let name = "zoe".to_string();
    let m = outgoing_message(&name, "hello there".to_string(), 123);
    assert_eq!(m.username, "zoe");
    assert_eq!(m.content, "hello there");
    assert_eq!(m.timestamp, 123);
}

#[test]
fn username_is_trimmed() {
    assert_eq!(username_from_line("  bob \n"), "bob");
    assert_eq!(username_from_line("\t\n"), "");
    assert_eq!(username_from_line("ann lee"), "ann lee");
}

#[test]
fn batch_frame_forwards_all_and_tracks_oldest() {
    let mut tracker = OldestMessageTimestamp::new();
    update_oldest_message_timestamp(&mut tracker, 1_000);
    let batch = vec![message("a", "x", 900), message("b", "y", 950), message("c", "z", 800)];
    let step = on_history_frame(&mut tracker, HistoryFrame::Text { text: "[...]".to_string(), batch: Some(batch), single: None });
    assert!(step.finished);
    assert_eq!(step.forward.len(), 3);
    match &step.forward[2] {
        ForwardItem::Chat(m) => assert_eq!((m.username.as_str(), m.timestamp), ("c", 800)),
        ForwardItem::Raw(_) => panic!("expected a message"),
    }
    assert_eq!(get_oldest_message_timestamp(&tracker), 800);
}

#[test]
fn single_message_frame() {
    let mut tracker = OldestMessageTimestamp::new();
    update_oldest_message_timestamp(&mut tracker, 1_000);
    let step = on_history_frame(
        &mut tracker,
        HistoryFrame::Text { text: "{...}".to_string(), batch: None, single: Some(message("a", "hi", 1_500)) },
    );
    assert!(step.finished);
    assert_eq!(step.forward.len(), 1);
    assert!(matches!(&step.forward[0], ForwardItem::Chat(m) if m.content == "hi"));
    assert_eq!(get_oldest_message_timestamp(&tracker), 1_000);
}

#[test]
fn batch_takes_priority_over_single() {
    let mut tracker = OldestMessageTimestamp::new();
    let step = on_history_frame(
        &mut tracker,
        HistoryFrame::Text { text: "t".to_string(), batch: Some(Vec::new()), single: Some(message("a", "hi", 5)) },
    );
    assert!(step.finished);
    assert!(step.forward.is_empty());
    assert_eq!(get_oldest_message_timestamp(&tracker), 0);
}

#[test]
fn end_stream_frame_stops_quietly() {
    let mut tracker = OldestMessageTimestamp::new();
    let step = on_history_frame(&mut tracker, HistoryFrame::Text { text: "End stream".to_string(), batch: None, single: None });
    assert!(step.finished);
    assert!(step.forward.is_empty());
}

#[test]
fn other_text_is_forwarded_raw() {
    let mut tracker = OldestMessageTimestamp::new();
    let step = on_history_frame(&mut tracker, HistoryFrame::Text { text: "server says hi".to_string(), batch: None, single: None });
    assert!(step.finished);
    assert!(matches!(&step.forward[..], [ForwardItem::Raw(t)] if t == "server says hi"));
}

#[test]
fn non_text_frames_are_skipped() {
    let mut tracker = OldestMessageTimestamp::new();
    let step = on_history_frame(&mut tracker, HistoryFrame::Other);
    assert!(!step.finished);
    assert!(step.forward.is_empty());
    let step = on_history_frame(&mut tracker, HistoryFrame::Closed);
    assert!(step.finished);
    assert!(step.forward.is_empty());
}
