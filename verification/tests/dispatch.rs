use yew_websocket::format::{Binary, FormatError, Text};
use yew_websocket::frame::{
    dispatch, process_binary, process_both, process_text, ConnectionMode, Message, RawFrame,
};

fn text_frame(body: &str) -> RawFrame {
    RawFrame::Text(body.to_string())
}

fn binary_frame(body: &[u8]) -> RawFrame {
    RawFrame::Binary(body.to_vec())
}

/// How often a connection of the given mode invokes the message callback
/// when it is fed the frames in turn.
fn deliveries(mode: ConnectionMode, frames: Vec<RawFrame>) -> Vec<Message> {
    let mut delivered = Vec::new();
    for frame in frames {
        if let Some(message) = dispatch(mode, frame) {
            delivered.push(message);
        }
    }
    delivered
}

#[test]
fn both_mode_delivers_each_frame_along_its_own_path() {
    let delivered = deliveries(
        ConnectionMode::Both,
        vec![binary_frame(&[1, 2, 3]), text_frame("hello")],
    );
    assert_eq!(
        delivered,
        vec![
            Message::Binary(Ok(vec![1, 2, 3])),
            Message::Text(Ok("hello".to_string())),
        ]
    );
}

#[test]
fn binary_only_mode_delivers_the_binary_frame_alone() {
    let delivered = deliveries(
        ConnectionMode::BinaryOnly,
        vec![binary_frame(&[1, 2, 3]), text_frame("hello")],
    );
    assert_eq!(delivered, vec![Message::Binary(Ok(vec![1, 2, 3]))]);
}

#[test]
fn text_only_mode_delivers_the_text_frame_alone() {
    let delivered = deliveries(
        ConnectionMode::TextOnly,
        vec![binary_frame(&[1, 2, 3]), text_frame("hello")],
    );
    assert_eq!(delivered, vec![Message::Text(Ok("hello".to_string()))]);
}

#[test]
fn the_order_of_the_frames_is_the_order_of_the_deliveries() {
    let delivered = deliveries(
        ConnectionMode::Both,
        vec![text_frame("a"), binary_frame(&[7]), text_frame("b")],
    );
    assert_eq!(
        delivered,
        vec![
            Message::Text(Ok("a".to_string())),
            Message::Binary(Ok(vec![7])),
            Message::Text(Ok("b".to_string())),
        ]
    );
}

#[test]
fn a_dropped_frame_is_no_delivery_at_all() {
    assert_eq!(dispatch(ConnectionMode::BinaryOnly, text_frame("hello")), None);
    assert_eq!(dispatch(ConnectionMode::TextOnly, binary_frame(&[1])), None);
}

#[test]
fn text_on_the_binary_path_is_received_text_for_binary() {
    let decoded: Binary = process_binary(text_frame("hello"));
    assert_eq!(decoded, Err(FormatError::ReceivedTextForBinary));
}

#[test]
fn binary_on_the_text_path_is_received_binary_for_text() {
    let decoded: Text = process_text(binary_frame(&[1, 2, 3]));
    assert_eq!(decoded, Err(FormatError::ReceivedBinaryForText));
}

#[test]
fn the_binary_path_hands_the_bytes_over_unchanged() {
    assert_eq!(process_binary(binary_frame(&[0, 255, 16])), Ok(vec![0, 255, 16]));
}

#[test]
fn the_text_path_hands_the_text_over_unchanged() {
    assert_eq!(
        process_text(text_frame("gr\u{fc}\u{df}e")),
        Ok("gr\u{fc}\u{df}e".to_string())
    );
}

#[test]
fn process_both_follows_the_kind_of_the_frame() {
    assert_eq!(
        process_both(text_frame("hello")),
        Message::Text(Ok("hello".to_string()))
    );
    assert_eq!(
        process_both(binary_frame(&[9, 8])),
        Message::Binary(Ok(vec![9, 8]))
    );
}

#[test]
fn empty_frames_are_frames_like_any_other() {
    assert_eq!(
        dispatch(ConnectionMode::Both, text_frame("")),
        Some(Message::Text(Ok(String::new())))
    );
    assert_eq!(
        dispatch(ConnectionMode::Both, binary_frame(&[])),
        Some(Message::Binary(Ok(Vec::new())))
    );
    assert_eq!(
        dispatch(ConnectionMode::TextOnly, text_frame("")),
        Some(Message::Text(Ok(String::new())))
    );
    assert_eq!(
        dispatch(ConnectionMode::BinaryOnly, binary_frame(&[])),
        Some(Message::Binary(Ok(Vec::new())))
    );
}

#[test]
fn a_frame_knows_its_kind() {
    assert!(text_frame("x").is_text());
    assert!(!text_frame("x").is_binary());
    assert!(binary_frame(&[1]).is_binary());
    assert!(!binary_frame(&[1]).is_text());
}

#[test]
fn format_errors_read_as_sentences() {
    assert_eq!(
        FormatError::ReceivedTextForBinary.message(),
        "received text for a binary format"
    );
    assert_eq!(
        FormatError::ReceivedBinaryForText.message(),
        "received binary for a text format"
    );
    assert_eq!(
        FormatError::CantEncodeBinaryAsText.message(),
        "trying to encode a binary format as Text"
    );
}
