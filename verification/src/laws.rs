//! Laws of the library that span several calls or hold of every input.
use vstd::prelude::*;
use vstd::std_specs::cmp::PartialEqSpec;
use vstd::std_specs::convert::FromSpec;
use crate::message::{Message, MoveMessage, decode};
use crate::link::{LinkEvent, relay, judge_frame, untouched, request_answer, holds_byte, confirmation, ReceiveError};
use crate::chess_controller::{
    ControllerModel, Square, ClickOutcome, Variety, click_next, show_next, cleared, any_hits, hits,
    offered, castle_targets, is_variety, square_at, answer_frame, incoming_reading, square_name,
    board_names, move_input,
};
use crate::chess_communicator::{move_reading, coord_of};

verus! {

/// A message kind read back from its own code is the same kind, for every
/// kind but `Draw` and `Resign`, whose codes are read crosswise.
pub proof fn lemma_code_round_trip(m: Message)
    requires
        m != Message::Draw,
        m != Message::Resign,
    ensures
        decode(m.code()) == m,
{
}

/// Distinct message kinds have distinct codes, so comparing two kinds by
/// code is comparing the kinds.
pub proof fn lemma_codes_distinct(a: Message, b: Message)
    ensures
        a.code() == b.code() <==> a == b,
{
}

/// A byte is read as `Unknown` exactly when it is no code from 0 to 6.
pub proof fn lemma_unknown_bytes(b: u8)
    ensures
        decode(b) == Message::Unknown <==> b > 6,
{
}

/// A frame is read as a message kind by its first byte alone, the same way
/// a single byte is read.
pub proof fn lemma_frame_reads_first_byte(bytes: [u8; 5])
    ensures
        <Message as FromSpec<[u8; 5]>>::from_spec(bytes) == <Message as FromSpec<u8>>::from_spec(bytes[0]),
{
}

/// Every kind of move message compares equal to the `Move` message and to
/// no other message.
pub proof fn lemma_move_message_is_move(mm: MoveMessage, m: Message)
    ensures
        mm.eq_spec(&m) <==> m == Message::Move,
{
}

/// When a message is waited for, a frame that something was read into
/// passes exactly when its first byte is the code of that message.
pub proof fn lemma_expected_message_passes(len: usize, frame: [u8; 5], m: Message)
    requires
        len <= 5,
        !untouched(frame@),
    ensures
        judge_frame(len, frame@, Some(m)) is Ok <==> frame[0] == m.code(),
{
}

/// The relay writes a message that is no move as one byte, and that byte is
/// the code the game handed over whenever that code is one of 0 to 4 (the
/// codes 5 and 6 of draw and resign go out crosswise).
pub proof fn lemma_relay_sends_code(f: [u8; 5])
    requires
        decode(f[0]) != Message::Move,
    ensures
        relay(LinkEvent::Outgoing(f)).0.len() == 1,
        f[0] <= 4 ==> relay(LinkEvent::Outgoing(f)).0[0] == f[0],
        !relay(LinkEvent::Outgoing(f)).2,
{
}

/// The relay writes an outgoing move whole.
pub proof fn lemma_relay_sends_move_whole(f: [u8; 5])
    requires
        decode(f[0]) == Message::Move,
    ensures
        relay(LinkEvent::Outgoing(f)).0 == f@,
{
}

/// Every frame that a read filled is handed to the game unchanged; it is
/// answered with an accept code exactly when it is no move.
pub proof fn lemma_relay_forwards_received(len: usize, f: [u8; 5])
    requires
        len <= 5,
        !untouched(f@),
    ensures
        relay(LinkEvent::Received(len, f)).1 == Some(f@),
        !relay(LinkEvent::Received(len, f)).2,
        relay(LinkEvent::Received(len, f)).0.len() == (if f[0] == Message::Move.code() { 0int } else { 1int }),
{
}

/// A frame that nothing was read into is neither forwarded nor answered.
pub proof fn lemma_relay_drops_untouched(len: usize, f: [u8; 5])
    requires
        untouched(f@),
    ensures
        relay(LinkEvent::Received(len, f)) == (Seq::<u8>::empty(), Option::<Seq<u8>>::None, false),
{
}

/// A connection request is accepted exactly when the read succeeded and the
/// frame holds the accept code.
pub proof fn lemma_request_accepted(read_ok: bool, frame: [u8; 5])
    ensures
        request_answer(read_ok, frame@) == Message::Accept <==> read_ok && holds_byte(frame@, Message::Accept.code()),
{
}

/// The answer to a remote move is read back by the mover as accepted
/// exactly when the engine took the move.
pub proof fn lemma_answer_understood(legal: bool)
    ensures
        (answer_frame(legal)[0] == Message::Accept.code()) == legal,
{
}

/// A remote message is played as a move exactly when its first byte is the
/// move code and its second names a kind of move (0 to 4).
pub proof fn lemma_incoming_played(message: [u8; 5])
    ensures
        incoming_reading(message@) matches Some(Some(_)) <==> message[0] == 1 && message[1] <= 4,
        incoming_reading(message@) is None <==> message[0] != 1,
{
}

/// Once the game is over, a click changes nothing and asks nothing.
pub proof fn lemma_game_over_ignores(m: ControllerModel, board: Seq<Square>, cell: Option<(u8, u8)>)
    requires
        m.game_over,
    ensures
        click_next(m, board, cell) == (m, ClickOutcome::Ignored),
{
}

/// A click off the board, or on a square that is not highlighted while a
/// selection stands, drops the selection and asks for no move.
pub proof fn lemma_stray_click_clears(m: ControllerModel, board: Seq<Square>, cell: Option<(u8, u8)>)
    requires
        !m.game_over,
        cell is None || (m.highlighted matches Some(h) && !any_hits(h, (cell->0).0, (7 - (cell->0).1) as u8)),
    ensures
        click_next(m, board, cell) == (cleared(m), ClickOutcome::Cleared),
{
}

/// Selecting a square, taking the engine's moves for it, and clicking a
/// square among them asks for the move from the selected square to the
/// clicked one, and leaves nothing selected.
pub proof fn lemma_select_then_move(
    m: ControllerModel,
    board: Seq<Square>,
    c1: u8,
    r1: u8,
    moves: Seq<(i64, i64)>,
    kingside: Option<(i64, i64)>,
    queenside: Option<(i64, i64)>,
    i: int,
    c2: u8,
    r2: u8,
)
    requires
        m.wf(),
        !m.game_over,
        m.highlighted is None,
        c1 < 8,
        r1 < 8,
        c2 < 8,
        r2 < 8,
        0 <= i < moves.len(),
        hits(moves[i], c2, (7 - r2) as u8),
    ensures
        ({
            let (m1, a1) = click_next(m, board, Some((c1, r1)));
            let m2 = show_next(m1, board, moves, kingside, queenside);
            let (m3, a3) = click_next(m2, board, Some((c2, r2)));
            &&& a1 matches ClickOutcome::Chose(x, y, _) && x == c1 && y == 7 - r1
            &&& a3 matches ClickOutcome::Play(_, from, to, _) && from == (c1, (7 - r1) as u8) && to == (c2, (7 - r2) as u8)
            &&& m3.selected is None
            &&& m3.highlighted is None
            &&& m3.castling.len() == 0
        }),
{
    let (m1, a1) = click_next(m, board, Some((c1, r1)));
    let m2 = show_next(m1, board, moves, kingside, queenside);
    let h = m2.highlighted->0;
    let extra = offered(is_variety(square_at(board, c1 as int, 7 - ((7 - r1) as u8)), Variety::King), kingside, queenside);
    assert(h == moves + castle_targets(extra));
    assert(h[i] == moves[i]);
    assert(any_hits(h, c2, (7 - r2) as u8));
}

/// A king selected while its kingside castling is open, and a click on the
/// king's castling target, asks for the kingside castling move first.
pub proof fn lemma_castle_on_target(
    m: ControllerModel,
    board: Seq<Square>,
    c1: u8,
    r1: u8,
    moves: Seq<(i64, i64)>,
    k: (i64, i64),
    queenside: Option<(i64, i64)>,
    c2: u8,
    r2: u8,
)
    requires
        m.wf(),
        !m.game_over,
        m.highlighted is None,
        c1 < 8,
        r1 < 8,
        c2 < 8,
        r2 < 8,
        is_variety(square_at(board, c1 as int, r1 as int), Variety::King),
        hits(k, c2, (7 - r2) as u8),
    ensures
        ({
            let (m1, a1) = click_next(m, board, Some((c1, r1)));
            let m2 = show_next(m1, board, moves, Some(k), queenside);
            let (m3, a3) = click_next(m2, board, Some((c2, r2)));
            &&& a1 matches ClickOutcome::Chose(_, _, king) && king
            &&& a3 matches ClickOutcome::Play(castle, _, _, _) && castle == Some("O-O"@)
        }),
{
    let (m1, a1) = click_next(m, board, Some((c1, r1)));
    assert(7 - ((7 - r1) as u8) == r1);
    let m2 = show_next(m1, board, moves, Some(k), queenside);
    let extra = offered(true, Some(k), queenside);
    assert(m.castling =~= Seq::<(Seq<char>, (i64, i64))>::empty());
    assert(m2.castling =~= extra);
    assert(extra[0] == ("O-O"@, k));
    let h = m2.highlighted->0;
    assert(h == moves + castle_targets(extra));
    assert(h[moves.len() as int] == k);
    assert(any_hits(h, c2, (7 - r2) as u8));
}

/// A click that asks for a move asks for it from the selected square to the
/// clicked square, and asks for a queen promotion exactly when a pawn (of
/// either colour) stands on the square it leaves and the square it reaches
/// lies on the bottom or the top row.
pub proof fn lemma_play_promotes_on_back_rank(m: ControllerModel, board: Seq<Square>, cell: Option<(u8, u8)>)
    requires
        m.wf(),
        board.len() == 64,
        cell matches Some(p) ==> p.0 < 8 && p.1 < 8,
    ensures
        click_next(m, board, cell).1 matches ClickOutcome::Play(_, from, to, promote) ==> {
            &&& m.selected == Some(from)
            &&& cell == Some((to.0, (7 - to.1) as u8))
            &&& to.1 < 8
            &&& promote == ((board[(7 - from.1) * 8 + from.0].variety is Pawn) && (to.1 == 0 || to.1 == 7))
        },
{
}

/// A click on the board while nothing is highlighted selects the clicked
/// square, and tells whether a king stands on it.
pub proof fn lemma_click_selects(m: ControllerModel, board: Seq<Square>, c: u8, r: u8)
    requires
        m.wf(),
        !m.game_over,
        m.highlighted is None,
        board.len() == 64,
        c < 8,
        r < 8,
    ensures
        click_next(m, board, Some((c, r))).0.selected == Some((c, (7 - r) as u8)),
        click_next(m, board, Some((c, r))).1 == ClickOutcome::Chose(c, (7 - r) as u8, board[r * 8 + c].variety is King),
{
}

/// Once the engine told the moves of a selected king, every move it gave is
/// highlighted in its place, and each open castling move (kingside `"O-O"`,
/// queenside `"O-O-O"`), whatever the other one, is offered and its king
/// target highlighted. For any other piece no castling is offered.
pub proof fn lemma_castling_offered(
    m: ControllerModel,
    board: Seq<Square>,
    moves: Seq<(i64, i64)>,
    kingside: Option<(i64, i64)>,
    queenside: Option<(i64, i64)>,
)
    requires
        m.wf(),
        board.len() == 64,
        m.selected is Some,
        m.highlighted is None,
    ensures
        ({
            let p = m.selected->0;
            let king = board[(7 - p.1) * 8 + p.0].variety is King;
            let m2 = show_next(m, board, moves, kingside, queenside);
            &&& m2.highlighted is Some
            &&& m2.selected == m.selected
            &&& forall|i: int| 0 <= i < moves.len() ==> m2.highlighted->0[i] == moves[i]
            &&& (king && kingside is Some) ==> m2.highlighted->0.contains(kingside->0)
                && m2.castling.contains(("O-O"@, kingside->0))
            &&& (king && queenside is Some) ==> m2.highlighted->0.contains(queenside->0)
                && m2.castling.contains(("O-O-O"@, queenside->0))
            &&& m2.castling.len() == (if king { (if kingside is Some { 1int } else { 0int }) + (if queenside is Some { 1int } else { 0int }) } else { 0int })
            &&& m2.highlighted->0.len() == moves.len() + m2.castling.len()
        }),
{
    let p = m.selected->0;
    let king = is_variety(square_at(board, p.0 as int, 7 - p.1), Variety::King);
    let extra = offered(king, kingside, queenside);
    let m2 = show_next(m, board, moves, kingside, queenside);
    let h = m2.highlighted->0;
    assert(m.castling =~= Seq::<(Seq<char>, (i64, i64))>::empty());
    assert(h == moves + castle_targets(extra));
    if king {
        assert(m2.castling =~= extra);
        match kingside {
            Some(k) => {
                assert(extra[0] == ("O-O"@, k));
                assert(h[moves.len() as int] == k);
                assert(m2.castling.contains(("O-O"@, k)));
                assert(h.contains(k));
            },
            None => {},
        }
        match queenside {
            Some(q) => {
                let j = if kingside is Some { 1int } else { 0int };
                assert(extra[j] == ("O-O-O"@, q));
                assert(h[moves.len() + j] == q);
                assert(m2.castling.contains(("O-O-O"@, q)));
                assert(h.contains(q));
            },
            None => {},
        }
    }
}

/// A five-byte move frame is read by its kind byte: kinds 0 to 2 are a
/// regular move (`"reg"`), kind 3 the kingside castle `"0-0"`, kind 4 the
/// queenside castle `"0-0-0"`; any other kind, and any frame that does not
/// start with the move code 1, is refused.
pub proof fn lemma_move_kinds(message: Seq<u8>)
    requires
        message.len() == 5,
    ensures
        message[0] == 1 && message[1] <= 2 ==> move_reading(message) == Ok::<Seq<char>, Seq<char>>("reg"@),
        message[0] == 1 && message[1] == 3 ==> move_reading(message) == Ok::<Seq<char>, Seq<char>>("0-0"@),
        message[0] == 1 && message[1] == 4 ==> move_reading(message) == Ok::<Seq<char>, Seq<char>>("0-0-0"@),
        message[0] == 1 && message[1] > 4 ==> move_reading(message) is Err,
        message[0] != 1 ==> move_reading(message) is Err,
{
}

/// A remote frame is played as the move its kind byte names: kinds 0 to 2
/// as `"reg"`, kind 3 as `"0-0"`, kind 4 as `"0-0-0"`; with the move code but
/// another kind it is malformed; without the move code it only redraws.
pub proof fn lemma_incoming_move_kinds(message: Seq<u8>)
    requires
        message.len() == 5,
    ensures
        message[0] == 1 && message[1] <= 2 ==> incoming_reading(message) == Some(Some("reg"@)),
        message[0] == 1 && message[1] == 3 ==> incoming_reading(message) == Some(Some("0-0"@)),
        message[0] == 1 && message[1] == 4 ==> incoming_reading(message) == Some(Some("0-0-0"@)),
        message[0] == 1 && message[1] > 4 ==> incoming_reading(message) == Some(Option::<Seq<char>>::None),
        message[0] != 1 ==> incoming_reading(message) is None,
{
}

/// The name drawn on a square is the colour prefix (`white_` for forward -1,
/// `black_` otherwise) followed by the word of its piece.
pub proof fn lemma_square_names(sq: Square)
    ensures
        ({
            let prefix = if sq.forward == -1 { "white_"@ } else { "black_"@ };
            &&& sq.variety is Empty ==> square_name(sq) == prefix + " "@
            &&& sq.variety is Pawn ==> square_name(sq) == prefix + "pawn"@
            &&& sq.variety is Bishop ==> square_name(sq) == prefix + "bishop"@
            &&& sq.variety is Knight ==> square_name(sq) == prefix + "knight"@
            &&& sq.variety is Rook ==> square_name(sq) == prefix + "rook"@
            &&& sq.variety is Queen ==> square_name(sq) == prefix + "queen"@
            &&& sq.variety is King ==> square_name(sq) == prefix + "king"@
        }),
{
}

/// The length of a square's name and its first and seventh characters.
proof fn lemma_name_marks(sq: Square)
    ensures
        square_name(sq).len() == 6 + (match sq.variety {
            Variety::Empty => 1int,
            Variety::Pawn => 4int,
            Variety::Bishop => 6int,
            Variety::Knight => 6int,
            Variety::Rook => 4int,
            Variety::Queen => 5int,
            Variety::King => 4int,
        }),
        square_name(sq)[0] == (if sq.forward == -1 { 'w' } else { 'b' }),
        square_name(sq)[6] == (match sq.variety {
            Variety::Empty => ' ',
            Variety::Pawn => 'p',
            Variety::Bishop => 'b',
            Variety::Knight => 'k',
            Variety::Rook => 'r',
            Variety::Queen => 'q',
            Variety::King => 'k',
        }),
        sq.variety is Knight ==> square_name(sq)[7] == 'n',
        sq.variety is King ==> square_name(sq)[7] == 'i',
{
    reveal_strlit("white_");
    reveal_strlit("black_");
    reveal_strlit(" ");
    reveal_strlit("pawn");
    reveal_strlit("bishop");
    reveal_strlit("knight");
    reveal_strlit("rook");
    reveal_strlit("queen");
    reveal_strlit("king");
}

/// Distinct pieces are drawn under distinct names: the name of a square
/// tells the kind of its piece and whether its side is the white one.
pub proof fn lemma_square_names_distinct(a: Square, b: Square)
    requires
        square_name(a) == square_name(b),
    ensures
        a.variety == b.variety,
        (a.forward == -1) == (b.forward == -1),
{
    lemma_name_marks(a);
    lemma_name_marks(b);
}

/// A frame holds a byte exactly when one of its five bytes, the first one
/// included, equals it.
pub proof fn lemma_holds_any_position(frame: Seq<u8>, byte: u8, i: int)
    requires
        0 <= i < 5,
        frame[i] == byte,
    ensures
        holds_byte(frame, byte),
{
}

/// A connection request is accepted exactly when the read succeeded and one
/// of the five bytes, the first one included, is the accept code 3.
pub proof fn lemma_request_accepted_anywhere(read_ok: bool, frame: Seq<u8>)
    ensures
        (request_answer(read_ok, frame) == Message::Accept)
            <==> (read_ok && exists|i: int| 0 <= i < 5 && #[trigger] frame[i] == 3u8),
        request_answer(read_ok, frame) == Message::Accept || request_answer(read_ok, frame) == Message::Decline,
{
    if read_ok && exists|i: int| 0 <= i < 5 && #[trigger] frame[i] == 3u8 {
        let i = choose|i: int| 0 <= i < 5 && #[trigger] frame[i] == 3u8;
        lemma_holds_any_position(frame, 3u8, i);
    }
}

/// The wire codes of the message kinds: 0 decline, 1 move, 2 undo,
/// 3 accept, 4 checkmate, 5 draw, 6 resign, 254 unknown; and how each byte is
/// read back (5 as resign and 6 as draw, anything above 6 as unknown).
pub proof fn lemma_code_table(m: Message, b: u8)
    ensures
        m is Decline ==> m.code() == 0,
        m is Move ==> m.code() == 1,
        m is Undo ==> m.code() == 2,
        m is Accept ==> m.code() == 3,
        m is Checkmate ==> m.code() == 4,
        m is Draw ==> m.code() == 5,
        m is Resign ==> m.code() == 6,
        m is Unknown ==> m.code() == 254,
        b == 0 ==> decode(b) is Decline,
        b == 1 ==> decode(b) is Move,
        b == 2 ==> decode(b) is Undo,
        b == 3 ==> decode(b) is Accept,
        b == 4 ==> decode(b) is Checkmate,
        b == 5 ==> decode(b) is Resign,
        b == 6 ==> decode(b) is Draw,
        b > 6 ==> decode(b) is Unknown,
{
}

/// The name of each message kind, as shown to the user.
pub proof fn lemma_message_texts(m: Message)
    ensures
        m is Decline ==> m.text() == "Decline message"@,
        m is Move ==> m.text() == "Move message"@,
        m is Undo ==> m.text() == "Undo message"@,
        m is Accept ==> m.text() == "Accept message"@,
        m is Checkmate ==> m.text() == "Checkmate message"@,
        m is Draw ==> m.text() == "Draw message"@,
        m is Resign ==> m.text() == "Resign message"@,
        m is Unknown ==> m.text() == "Unknown message"@,
{
}

/// The two coordinates of a move byte are its low three bits and the three
/// bits above the lowest two, kept in place.
pub proof fn lemma_coord_bits(b: u8)
    ensures
        coord_of(b).0 == b % 8,
        coord_of(b).1 == (b / 4) % 8 * 4,
        coord_of(b).0 < 8,
        coord_of(b).1 < 32,
{
    assert((b & 7u8) == b % 8) by (bit_vector);
    assert((b & 28u8) == (b / 4) % 8 * 4) by (bit_vector);
}

/// The texts with which a frame is refused as a move.
pub proof fn lemma_move_refusals(message: Seq<u8>)
    requires
        message.len() == 5,
    ensures
        message[0] == 1 && message[1] > 4 ==> move_reading(message) == Err::<Seq<char>, Seq<char>>("Error processing move"@),
        message[0] != 1 ==> move_reading(message) == Err::<Seq<char>, Seq<char>>("Tried to process a non-move_message as move"@),
{
}

/// The board drawn for a snapshot has eight rows of eight names, and the
/// name in row `r`, column `c` is that of square `r * 8 + c`.
pub proof fn lemma_board_names(board: Seq<Square>, r: int, c: int)
    requires
        0 <= r < 8,
        0 <= c < 8,
    ensures
        board_names(board).len() == 8,
        board_names(board)[r].len() == 8,
        board_names(board)[r][c] == square_name(board[r * 8 + c]),
{
}

/// The text of a move is the two square names joined by one space, with
/// `=Q` appended exactly when a queen promotion is asked for.
pub proof fn lemma_move_text(from: Seq<char>, to: Seq<char>, promote: bool)
    ensures
        move_input(from, to, promote).len() == from.len() as int + 1 + to.len() as int + (if promote { 2int } else { 0int }),
        move_input(from, to, promote).subrange(0, from.len() as int) == from,
        move_input(from, to, promote)[from.len() as int] == ' ',
        move_input(from, to, promote).subrange(from.len() as int + 1, from.len() as int + 1 + to.len() as int) == to,
        promote ==> move_input(from, to, promote)[from.len() as int + 1 + to.len() as int] == '='
            && move_input(from, to, promote)[from.len() as int + 2 + to.len() as int] == 'Q',
{
    reveal_strlit(" ");
    reveal_strlit("=Q");
    assert(move_input(from, to, promote).subrange(0, from.len() as int) =~= from);
    assert(move_input(from, to, promote).subrange(from.len() as int + 1, from.len() as int + 1 + to.len() as int) =~= to);
}

/// The answer to a remote move is five equal bytes: the accept code 3 when
/// the move was legal, the decline code 0 otherwise.
pub proof fn lemma_answer_bytes(legal: bool)
    ensures
        answer_frame(legal).len() == 5,
        forall|i: int| 0 <= i < 5 ==> answer_frame(legal)[i] == (if legal { 3u8 } else { 0u8 }),
{
}

/// In the stand-alone link check a read frame is confirmed when the awaited
/// message's code stands in any of its five bytes, and refused with what the
/// first byte reads as otherwise.
pub proof fn lemma_confirmation_anywhere(len: usize, frame: Seq<u8>, m: Message, i: int)
    requires
        len <= 5,
        frame.len() == 5,
    ensures
        (0 <= i < 5 && frame[i] == m.code()) ==> confirmation(len, frame, Some(m)) is Ok,
        (forall|j: int| 0 <= j < 5 ==> frame[j] != m.code()) ==> confirmation(len, frame, Some(m))
            == Err::<Seq<char>, ReceiveError>(ReceiveError::UnexpectedMessage(decode(frame[0]))),
{
}

} // verus!
