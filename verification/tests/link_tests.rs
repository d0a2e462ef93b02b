use chess_multiplayer::link::{
    answer_request, check_received, confirm_received, frame_holds, is_untouched, link_step,
    parse_role, same_text, sent_text, LinkEvent, ReceiveError, Role,
};
use chess_multiplayer::message::Message;

#[test]
fn untouched_frame_passes_whatever_is_waited_for() {
    let f = [255u8; 5];
    assert!(is_untouched(&f));
    assert!(matches!(check_received(0, f, Some(Message::Accept)), Ok(g) if g == f));
    assert!(matches!(check_received(9, f, None), Ok(g) if g == f));
}

#[test]
fn expected_message_passes() {
    let f = [3u8, 255, 255, 255, 255];
    assert!(matches!(check_received(1, f, Some(Message::Accept)), Ok(g) if g == f));
}

#[test]
fn unexpected_message_is_refused() {
    let f = [0u8, 255, 255, 255, 255];
    match check_received(1, f, Some(Message::Accept)) {
        Err(ReceiveError::UnexpectedMessage(m)) => assert_eq!(m, Message::Decline),
        _ => panic!("expected a refusal"),
    }
}

#[test]
fn nothing_waited_for_passes() {
    let f = [1u8, 0, 1, 2, 3];
    assert!(matches!(check_received(5, f, None), Ok(g) if g == f));
}

#[test]
fn overlong_read_is_refused() {
    let f = [1u8, 0, 1, 2, 3];
    assert!(matches!(check_received(6, f, None), Err(ReceiveError::BufferTooShort)));
}

#[test]
fn error_texts() {
    assert_eq!(
        ReceiveError::UnexpectedMessage(Message::Decline).to_text(),
        "Expected message not recieved! Got: Decline message"
    );
    assert_eq!(ReceiveError::BufferTooShort.to_text(), "Buffer shorter than message!");
}

#[test]
fn outgoing_message_goes_as_one_byte() {
    let s = link_step(LinkEvent::Outgoing([3; 5]));
    assert_eq!(s.write, vec![3u8]);
    assert!(s.forward.is_none());
    assert!(!s.fatal);
}

#[test]
fn outgoing_draw_code_goes_out_as_resign_code() {
    let s = link_step(LinkEvent::Outgoing([5; 5]));
    assert_eq!(s.write, vec![6u8]);
}

#[test]
fn outgoing_unknown_byte_goes_out_as_unknown_code() {
    let s = link_step(LinkEvent::Outgoing([42; 5]));
    assert_eq!(s.write, vec![254u8]);
}

#[test]
fn outgoing_move_goes_whole() {
    let s = link_step(LinkEvent::Outgoing([1, 0, 9, 10, 0]));
    assert_eq!(s.write, vec![1u8, 0, 9, 10, 0]);
    assert!(s.forward.is_none());
}

#[test]
fn received_message_is_forwarded_and_accepted() {
    let f = [4u8, 255, 255, 255, 255];
    let s = link_step(LinkEvent::Received(1, f));
    assert_eq!(s.write, vec![3u8]);
    assert_eq!(s.forward, Some(f));
    assert!(!s.fatal);
}

#[test]
fn received_move_is_forwarded_unanswered() {
    let f = [1u8, 3, 0, 0, 0];
    let s = link_step(LinkEvent::Received(5, f));
    assert!(s.write.is_empty());
    assert_eq!(s.forward, Some(f));
}

#[test]
fn empty_read_is_dropped() {
    let s = link_step(LinkEvent::Received(0, [255; 5]));
    assert!(s.write.is_empty());
    assert!(s.forward.is_none());
    assert!(!s.fatal);
}

#[test]
fn idle_and_failed_rounds() {
    let s = link_step(LinkEvent::Idle);
    assert!(s.write.is_empty() && s.forward.is_none() && !s.fatal);
    let s = link_step(LinkEvent::Failed);
    assert!(s.write.is_empty() && s.forward.is_none() && s.fatal);
    let s = link_step(LinkEvent::Received(7, [1, 2, 3, 4, 5]));
    assert!(s.fatal);
}

#[test]
fn request_answers() {
    assert_eq!(answer_request(true, &[255, 255, 3, 255, 255]), Message::Accept);
    assert_eq!(answer_request(true, &[0, 1, 2, 4, 5]), Message::Decline);
    assert_eq!(answer_request(false, &[3, 3, 3, 3, 3]), Message::Decline);
    assert!(frame_holds(&[0, 0, 0, 0, 9], 9));
    assert!(!frame_holds(&[0, 0, 0, 0, 9], 8));
}

#[test]
fn confirmations() {
    assert!(matches!(
        confirm_received(1, &[255, 3, 255, 255, 255], Some(Message::Accept)),
        Ok(ref s) if s == "Got expected Accept message back!"
    ));
    assert!(matches!(
        confirm_received(1, &[0, 255, 255, 255, 255], Some(Message::Accept)),
        Err(ReceiveError::UnexpectedMessage(Message::Decline))
    ));
    assert!(matches!(
        confirm_received(1, &[6, 255, 255, 255, 255], None),
        Ok(ref s) if s == "Recieved Draw message!"
    ));
    assert!(matches!(
        confirm_received(8, &[6, 255, 255, 255, 255], None),
        Err(ReceiveError::BufferTooShort)
    ));
}

#[test]
fn roles() {
    assert!(matches!(parse_role("host"), Some(Role::Host)));
    assert!(matches!(parse_role("connect"), Some(Role::Connect)));
    assert!(parse_role("hostx").is_none());
    assert!(parse_role("").is_none());
    assert!(parse_role("Host").is_none());
}

#[test]
fn text_comparison() {
    assert!(same_text("abc", "abc"));
    assert!(!same_text("abc", "abd"));
    assert!(!same_text("abc", "ab"));
    assert!(same_text("", ""));
}

#[test]
fn sent_note() {
    assert_eq!(sent_text(Message::Accept), "Sent Accept message...");
}
