use chess_multiplayer::message::{message_from_byte, Message, MoveMessage};

const ALL: [Message; 8] = [
    Message::Decline,
    Message::Move,
    Message::Undo,
    Message::Accept,
    Message::Checkmate,
    Message::Draw,
    Message::Resign,
    Message::Unknown,
];

#[test]
fn codes_of_each_kind() {
    let codes: Vec<u8> = ALL.iter().map(|m| m.to_byte()).collect();
    assert_eq!(codes, vec![0, 1, 2, 3, 4, 5, 6, 254]);
}

#[test]
fn reading_known_bytes() {
    assert_eq!(message_from_byte(0), Message::Decline);
    assert_eq!(message_from_byte(1), Message::Move);
    assert_eq!(message_from_byte(2), Message::Undo);
    assert_eq!(message_from_byte(3), Message::Accept);
    assert_eq!(message_from_byte(4), Message::Checkmate);
}

#[test]
fn draw_and_resign_codes_are_read_crosswise() {
    assert_eq!(message_from_byte(5), Message::Resign);
    assert_eq!(message_from_byte(6), Message::Draw);
    assert_eq!(message_from_byte(Message::Draw.to_byte()), Message::Resign);
    assert_eq!(message_from_byte(Message::Resign.to_byte()), Message::Draw);
}

#[test]
fn other_bytes_are_unknown() {
    for b in 7u8..=255 {
        assert_eq!(message_from_byte(b), Message::Unknown);
    }
}

#[test]
fn code_round_trip_for_all_but_draw_and_resign() {
    for m in ALL.iter() {
        if *m != Message::Draw && *m != Message::Resign {
            assert_eq!(message_from_byte(m.to_byte()), *m);
        }
    }
}

#[test]
fn from_byte_and_from_frame_agree() {
    for b in 0u8..=255 {
        let a: Message = Message::from(b);
        let f: Message = Message::from([b, 9, 9, 9, 9]);
        assert_eq!(a, message_from_byte(b));
        assert_eq!(f, a);
    }
}

#[test]
fn message_equals_its_code_only() {
    assert!(Message::Accept == 3u8);
    assert!(!(Message::Accept == 4u8));
    assert!(Message::Unknown == 254u8);
    assert!(Message::Draw == 5u8);
    assert!(!(Message::Draw == 6u8));
}

#[test]
fn messages_compare_by_kind() {
    for (i, a) in ALL.iter().enumerate() {
        for (j, b) in ALL.iter().enumerate() {
            assert_eq!(a == b, i == j);
        }
    }
}

#[test]
fn move_messages_equal_only_move() {
    let kinds = [
        MoveMessage::Standard(),
        MoveMessage::En_Passant(),
        MoveMessage::Promotion(),
        MoveMessage::Kingside_castle(),
        MoveMessage::Queenside_castle(),
    ];
    for k in kinds.iter() {
        for m in ALL.iter() {
            assert_eq!(*k == *m, *m == Message::Move);
        }
    }
}

#[test]
fn message_texts() {
    assert_eq!(Message::Decline.to_text(), "Decline message");
    assert_eq!(Message::Move.to_text(), "Move message");
    assert_eq!(Message::Undo.to_text(), "Undo message");
    assert_eq!(Message::Accept.to_text(), "Accept message");
    assert_eq!(Message::Checkmate.to_text(), "Checkmate message");
    assert_eq!(Message::Draw.to_text(), "Draw message");
    assert_eq!(Message::Resign.to_text(), "Resign message");
    assert_eq!(Message::Unknown.to_text(), "Unknown message");
}
