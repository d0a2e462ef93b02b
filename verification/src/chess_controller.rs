//! The board controller: what the board shows, which square is selected,
//! which squares a selected piece may move to, and what a click on the board
//! asks the game to do. The chess engine itself, the window and the network
//! are the caller's: it hands over what the engine says (a snapshot of the
//! squares, the moves of a piece, the castling options) and performs the
//! actions that the controller decides on.
use vstd::prelude::*;
use vstd::string::*;
use crate::chess_communicator::{move_reading, process_move};
use crate::message::Message;

verus! {

/// The kind of piece on a square (`Empty` when there is none).
#[derive(Clone, Copy, Debug)]
pub enum Variety {
    Empty,
    Pawn,
    Bishop,
    Knight,
    Rook,
    Queen,
    King,
}

/// The colour a player plays.
#[derive(Clone, Copy, Debug)]
pub enum Color {
    White,
    Black,
}

/// What the engine says of one square: the kind of piece, and the forward
/// direction of its colour (`-1` for the white side).
#[derive(Clone, Copy, Debug)]
pub struct Square {
    pub variety: Variety,
    pub forward: i64,
}

/// The number of squares in a board snapshot.
pub const BOARD_SQUARES: usize = 64usize;

/// The square in column `col` and row `row` of a snapshot, which lists the
/// squares row by row.
pub open spec fn square_at(board: Seq<Square>, col: int, row: int) -> Square {
    board[row * 8 + col]
}

/// The word for a kind of piece.
pub open spec fn variety_word(v: Variety) -> Seq<char> {
    match v {
        Variety::Empty => " "@,
        Variety::Pawn => "pawn"@,
        Variety::Bishop => "bishop"@,
        Variety::Knight => "knight"@,
        Variety::Rook => "rook"@,
        Variety::Queen => "queen"@,
        Variety::King => "king"@,
    }
}

/// The name under which a square is drawn: `white_` or `black_` and the
/// word for its piece.
pub open spec fn square_name(sq: Square) -> Seq<char> {
    if sq.forward == -1 {
        "white_"@ + variety_word(sq.variety)
    } else {
        "black_"@ + variety_word(sq.variety)
    }
}

/// The name under which a square is drawn.
pub fn square_text(sq: &Square) -> (s: String)
    ensures
        s@ == square_name(*sq),
{
    let mut s = if sq.forward == -1 {
        String::from_str("white_")
    } else {
        String::from_str("black_")
    };
    match sq.variety {
        Variety::Empty => s.append(" "),
        Variety::Pawn => s.append("pawn"),
        Variety::Bishop => s.append("bishop"),
        Variety::Knight => s.append("knight"),
        Variety::Rook => s.append("rook"),
        Variety::Queen => s.append("queen"),
        Variety::King => s.append("king"),
    }
    s
}

/// The names of all squares of a snapshot, as rows of columns.
pub open spec fn board_names(board: Seq<Square>) -> Seq<Seq<Seq<char>>> {
    Seq::new(8, |row: int| Seq::new(8, |col: int| square_name(square_at(board, col, row))))
}

/// The controller's state as plain values.
pub struct ControllerModel {
    pub game_over: bool,
    pub board_text: Seq<Seq<Seq<char>>>,
    pub selected: Option<(u8, u8)>,
    pub highlighted: Option<Seq<(i64, i64)>>,
    pub castling: Seq<(Seq<char>, (i64, i64))>,
    pub online: bool,
    pub player_color: Option<Color>,
}

/// The board controller of one player.
pub struct ChessController {
    /// The game has ended.
    pub game_over: bool,
    /// The name drawn on each square, by row and column.
    pub board_string: Vec<Vec<String>>,
    /// The selected square (column, row counted from the bottom).
    pub selected_space: Option<(u8, u8)>,
    /// The squares the selected piece may move to, as the engine gave them.
    pub highlighted_spaces: Option<Vec<(i64, i64)>>,
    /// The castling moves on offer, by name and target square of the king.
    pub castling_possible: Vec<(String, (i64, i64))>,
    /// The game is played against a remote player.
    pub online: bool,
    /// The colour this player plays, when the game is online.
    pub player_color: Option<Color>,
}

/// The names of the castling moves on offer.
pub open spec fn castle_view(c: Seq<(String, (i64, i64))>) -> Seq<(Seq<char>, (i64, i64))> {
    c.map_values(|e: (String, (i64, i64))| (e.0@, e.1))
}

/// The names drawn on the board.
pub open spec fn text_view(b: Seq<Vec<String>>) -> Seq<Seq<Seq<char>>> {
    b.map_values(|row: Vec<String>| row@.map_values(|s: String| s@))
}

impl View for ChessController {
    type V = ControllerModel;

    open spec fn view(&self) -> ControllerModel {
        ControllerModel {
            game_over: self.game_over,
            board_text: text_view(self.board_string@),
            selected: self.selected_space,
            highlighted: match self.highlighted_spaces {
                Some(v) => Some(v@),
                None => None,
            },
            castling: castle_view(self.castling_possible@),
            online: self.online,
            player_color: self.player_color,
        }
    }
}

impl ControllerModel {
    /// The state is consistent: a selected square lies on the board, squares
    /// are highlighted only for a selection, and castling is on offer only
    /// while squares are highlighted.
    pub open spec fn wf(self) -> bool {
        &&& self.board_text.len() == 8
        &&& forall|r: int| 0 <= r < 8 ==> #[trigger] self.board_text[r].len() == 8
        &&& (self.selected matches Some(p) ==> p.0 < 8 && p.1 < 8)
        &&& (self.highlighted is Some ==> self.selected is Some)
        &&& (self.highlighted is None ==> self.castling.len() == 0)
    }
}

impl ChessController {
    /// A controller for a fresh game on the given board snapshot.
    pub fn new(board: &Vec<Square>, online: bool, player_color: Option<Color>) -> (c: ChessController)
        requires
            board@.len() == BOARD_SQUARES,
        ensures
            c@.wf(),
            c@.board_text == board_names(board@),
            !c@.game_over,
            c@.selected is None,
            c@.highlighted is None,
            c@.castling.len() == 0,
            c@.online == online,
            c@.player_color == player_color,
    {
        let mut c = ChessController {
            game_over: false,
            board_string: Vec::new(),
            selected_space: None,
            highlighted_spaces: None,
            castling_possible: Vec::new(),
            online,
            player_color,
        };
        c.update_board(board);
        c
    }

    /// Redraws the board from a snapshot of the squares.
    pub fn update_board(&mut self, board: &Vec<Square>)
        requires
            board@.len() == BOARD_SQUARES,
        ensures
            final(self)@.board_text == board_names(board@),
            final(self)@.game_over == old(self)@.game_over,
            final(self)@.selected == old(self)@.selected,
            final(self)@.highlighted == old(self)@.highlighted,
            final(self)@.castling == old(self)@.castling,
            final(self)@.online == old(self)@.online,
            final(self)@.player_color == old(self)@.player_color,
            old(self)@.wf() ==> final(self)@.wf(),
    {
        let mut rows: Vec<Vec<String>> = Vec::new();
        let mut y: usize = 0;
        while y < 8
            invariant
                board@.len() == BOARD_SQUARES,
                0 <= y <= 8,
                rows@.len() == y,
                forall|r: int| 0 <= r < y ==> (#[trigger] rows@[r])@.len() == 8,
                forall|r: int, col: int| 0 <= r < y && 0 <= col < 8 ==>
                    (#[trigger] rows@[r]@[col])@ == square_name(square_at(board@, col, r)),
            decreases 8 - y,
        {
            let mut row: Vec<String> = Vec::new();
            let mut x: usize = 0;
            while x < 8
                invariant
                    board@.len() == BOARD_SQUARES,
                    0 <= y < 8,
                    0 <= x <= 8,
                    row@.len() == x,
                    forall|col: int| 0 <= col < x ==>
                        (#[trigger] row@[col])@ == square_name(square_at(board@, col, y as int)),
                decreases 8 - x,
            {
                let s = square_text(&board[y * 8 + x]);
                row.push(s);
                x = x + 1;
            }
            rows.push(row);
            y = y + 1;
        }
        self.board_string = rows;
        assert(text_view(self.board_string@) =~= board_names(board@)) by {
            assert forall|r: int| 0 <= r < 8 implies #[trigger] text_view(self.board_string@)[r]
                =~= board_names(board@)[r] by {
                assert(self.board_string@[r]@.len() == 8);
            }
        }
    }
}

/// Whether an entry of the move list stands for the square in column `x`
/// and row `y` (rows counted from the bottom). The coordinates of an entry
/// are read as bytes, the row from the top; an entry whose row lies off the
/// board stands for no square.
pub open spec fn hits(c: (i64, i64), x: u8, y: u8) -> bool {
    &&& x == (c.0 as u8)
    &&& (c.1 as u8) <= 7
    &&& y == 7 - (c.1 as u8)
}

/// Whether some entry of the move list stands for the square.
pub open spec fn any_hits(h: Seq<(i64, i64)>, x: u8, y: u8) -> bool {
    exists|i: int| 0 <= i < h.len() && hits(#[trigger] h[i], x, y)
}

/// The name of the first castling move on offer whose king target is the
/// square, if any.
pub open spec fn first_castle(c: Seq<(Seq<char>, (i64, i64))>, x: u8, y: u8) -> Option<Seq<char>>
    decreases c.len(),
{
    if c.len() == 0 {
        None
    } else if hits(c[0].1, x, y) {
        Some(c[0].0)
    } else {
        first_castle(c.drop_first(), x, y)
    }
}

/// The state with nothing selected, highlighted or on offer.
pub open spec fn cleared(m: ControllerModel) -> ControllerModel {
    ControllerModel { selected: None, highlighted: None, castling: Seq::empty(), ..m }
}

/// What a click on the board asks of the game, as plain values.
pub enum ClickOutcome {
    /// Nothing: the game is over.
    Ignored,
    /// Nothing but dropping the selection.
    Cleared,
    /// A square was selected: the game must tell which squares its piece may
    /// move to (and, for a king, which castling moves are open) through
    /// `show_moves`.
    Chose(u8, u8, bool),
    /// A move: first the castling move named, if any, then the move from the
    /// first square to the second, promoting to a queen if the flag is set.
    Play(Option<Seq<char>>, (u8, u8), (u8, u8), bool),
}

/// What a click on the board asks of the game.
pub enum ClickAction {
    /// Nothing: the game is over.
    Ignored,
    /// Nothing but dropping the selection.
    Cleared,
    /// The square `(x, y)` was selected; `king` tells whether a king stands
    /// on it, whose castling moves the game must look up.
    Chose { x: u8, y: u8, king: bool },
    /// A move: first `castle`, if named, then the move from `from` to `to`,
    /// promoting to a queen when `promote` is set.
    Play { castle: Option<String>, from: (u8, u8), to: (u8, u8), promote: bool },
}

/// The view of a click action.
pub open spec fn action_view(a: ClickAction) -> ClickOutcome {
    match a {
        ClickAction::Ignored => ClickOutcome::Ignored,
        ClickAction::Cleared => ClickOutcome::Cleared,
        ClickAction::Chose { x, y, king } => ClickOutcome::Chose(x, y, king),
        ClickAction::Play { castle, from, to, promote } => ClickOutcome::Play(
            match castle {
                Some(s) => Some(s@),
                None => None,
            },
            from,
            to,
            promote,
        ),
    }
}

/// Whether a piece of the given kind stands on a square.
pub open spec fn is_variety(sq: Square, v: Variety) -> bool {
    match (sq.variety, v) {
        (Variety::Empty, Variety::Empty) => true,
        (Variety::Pawn, Variety::Pawn) => true,
        (Variety::Bishop, Variety::Bishop) => true,
        (Variety::Knight, Variety::Knight) => true,
        (Variety::Rook, Variety::Rook) => true,
        (Variety::Queen, Variety::Queen) => true,
        (Variety::King, Variety::King) => true,
        _ => false,
    }
}

/// The state after a left click and what the click asks of the game.
/// `cell` is the board cell under the mouse (column, row counted from the
/// top), or nothing when the mouse is off the board.
pub open spec fn click_next(m: ControllerModel, board: Seq<Square>, cell: Option<(u8, u8)>) -> (ControllerModel, ClickOutcome) {
    if m.game_over {
        (m, ClickOutcome::Ignored)
    } else {
        match cell {
            None => (cleared(m), ClickOutcome::Cleared),
            Some(p) => {
                let x = p.0;
                let y = (7 - p.1) as u8;
                match m.highlighted {
                    Some(h) => if any_hits(h, x, y) {
                        let from = m.selected->0;
                        let promote = is_variety(square_at(board, from.0 as int, 7 - from.1), Variety::Pawn)
                            && (y == 0 || y == 7);
                        (cleared(m), ClickOutcome::Play(first_castle(m.castling, x, y), from, (x, y), promote))
                    } else {
                        (cleared(m), ClickOutcome::Cleared)
                    },
                    None => (
                        ControllerModel { selected: Some((x, y)), ..m },
                        ClickOutcome::Chose(x, y, is_variety(square_at(board, x as int, p.1 as int), Variety::King)),
                    ),
                }
            },
        }
    }
}

/// The castling moves offered for a selected square: none unless a king
/// stands on it; else the kingside (`"O-O"`) and queenside (`"O-O-O"`)
/// moves that the engine found open, with the target square of the king.
pub open spec fn offered(king: bool, kingside: Option<(i64, i64)>, queenside: Option<(i64, i64)>) -> Seq<(Seq<char>, (i64, i64))> {
    if !king {
        Seq::empty()
    } else {
        (match kingside {
            Some(k) => seq![("O-O"@, k)],
            None => Seq::empty(),
        }) + (match queenside {
            Some(q) => seq![("O-O-O"@, q)],
            None => Seq::empty(),
        })
    }
}

/// The king targets of castling moves.
pub open spec fn castle_targets(c: Seq<(Seq<char>, (i64, i64))>) -> Seq<(i64, i64)> {
    c.map_values(|e: (Seq<char>, (i64, i64))| e.1)
}

/// The state once the engine told the moves of the selected piece: they are
/// highlighted, together with the king targets of the castling moves on
/// offer. Without a selection, or with squares already highlighted, nothing
/// changes.
pub open spec fn show_next(
    m: ControllerModel,
    board: Seq<Square>,
    moves: Seq<(i64, i64)>,
    kingside: Option<(i64, i64)>,
    queenside: Option<(i64, i64)>,
) -> ControllerModel {
    match m.selected {
        Some(p) => if m.highlighted is None {
            let king = is_variety(square_at(board, p.0 as int, 7 - p.1), Variety::King);
            let extra = offered(king, kingside, queenside);
            ControllerModel {
                highlighted: Some(moves + castle_targets(extra)),
                castling: if king { m.castling + extra } else { Seq::empty() },
                ..m
            }
        } else {
            m
        },
        None => m,
    }
}

/// Whether an entry of the move list stands for the square.
pub fn hit(c: (i64, i64), x: u8, y: u8) -> (r: bool)
    ensures
        r == hits(c, x, y),
{
    let col = c.0 as u8;
    let row = c.1 as u8;
    x == col && row <= 7 && y == 7 - row
}

/// Whether some entry of the move list stands for the square.
pub fn any_hit(h: &Vec<(i64, i64)>, x: u8, y: u8) -> (r: bool)
    ensures
        r == any_hits(h@, x, y),
{
    let mut i: usize = 0;
    while i < h.len()
        invariant
            0 <= i <= h@.len(),
            forall|j: int| 0 <= j < i ==> !hits(#[trigger] h@[j], x, y),
        decreases h@.len() - i,
    {
        if hit(h[i], x, y) {
            return true;
        }
        i = i + 1;
    }
    false
}

/// The name of the first castling move on offer whose king target is the
/// square, if any.
pub fn find_castle(c: &Vec<(String, (i64, i64))>, x: u8, y: u8) -> (r: Option<String>)
    ensures
        (match r {
            Some(s) => Some(s@),
            None => None,
        }) == first_castle(castle_view(c@), x, y),
{
    let ghost names = castle_view(c@);
    assert(names.subrange(0, names.len() as int) =~= names);
    let mut i: usize = 0;
    while i < c.len()
        invariant
            0 <= i <= c@.len(),
            names == castle_view(c@),
            first_castle(names, x, y) == first_castle(names.subrange(i as int, names.len() as int), x, y),
        decreases c@.len() - i,
    {
        let ghost rest = names.subrange(i as int, names.len() as int);
        assert(rest[0] == names[i as int]);
        if hit(c[i].1, x, y) {
            return Some(c[i].0.clone());
        }
        assert(rest.drop_first() =~= names.subrange(i + 1, names.len() as int));
        i = i + 1;
    }
    assert(names.subrange(i as int, names.len() as int) =~= Seq::<(Seq<char>, (i64, i64))>::empty());
    None
}

impl ChessController {
    /// Drops the selection, the highlighted squares and the castling offers.
    fn clear_selection(&mut self)
        ensures
            final(self)@ == cleared(old(self)@),
    {
        self.castling_possible = Vec::new();
        self.selected_space = None;
        self.highlighted_spaces = None;
        assert(castle_view(self.castling_possible@) =~= Seq::empty());
    }

    /// Handles a left click on the board. `cell` is the board cell under the
    /// mouse (column, row counted from the top), or nothing when the mouse is
    /// off the board. Returns what the game must do next.
    pub fn event(&mut self, board: &Vec<Square>, cell: Option<(u8, u8)>) -> (a: ClickAction)
        requires
            old(self)@.wf(),
            board@.len() == BOARD_SQUARES,
            cell matches Some(p) ==> p.0 < 8 && p.1 < 8,
        ensures
            (final(self)@, action_view(a)) == click_next(old(self)@, board@, cell),
            final(self)@.wf(),
    {
        if self.game_over {
            return ClickAction::Ignored;
        }
        match cell {
            None => {
                self.clear_selection();
                ClickAction::Cleared
            },
            Some((col, row)) => {
                let x = col;
                let y = 7 - row;
                let found = match &self.highlighted_spaces {
                    Some(h) => Some(any_hit(h, x, y)),
                    None => None,
                };
                match found {
                    Some(true) => {
                        let castle = find_castle(&self.castling_possible, x, y);
                        match self.selected_space {
                            Some((sx, sy)) => {
                                let idx = ((7 - sy) as usize) * 8 + (sx as usize);
                                let promote = match board[idx].variety {
                                    Variety::Pawn => y == 0 || y == 7,
                                    _ => false,
                                };
                                self.clear_selection();
                                ClickAction::Play { castle, from: (sx, sy), to: (x, y), promote }
                            },
                            None => {
                                self.clear_selection();
                                ClickAction::Cleared
                            },
                        }
                    },
                    Some(false) => {
                        self.clear_selection();
                        ClickAction::Cleared
                    },
                    None => {
                        self.selected_space = Some((x, y));
                        let idx = (row as usize) * 8 + (col as usize);
                        let king = match board[idx].variety {
                            Variety::King => true,
                            _ => false,
                        };
                        ClickAction::Chose { x, y, king }
                    },
                }
            },
        }
    }

    /// Takes the engine's answer for the selected square: the squares its
    /// piece may move to, and (when a king stands on it) the target squares
    /// of the open kingside and queenside castling moves.
    pub fn show_moves(
        &mut self,
        board: &Vec<Square>,
        moves: Vec<(i64, i64)>,
        kingside: Option<(i64, i64)>,
        queenside: Option<(i64, i64)>,
    )
        requires
            old(self)@.wf(),
            board@.len() == BOARD_SQUARES,
        ensures
            final(self)@ == show_next(old(self)@, board@, moves@, kingside, queenside),
            final(self)@.wf(),
    {
        if self.highlighted_spaces.is_some() {
            return;
        }
        match self.selected_space {
            None => {},
            Some((x, y)) => {
                let ghost old_castling = castle_view(self.castling_possible@);
                let mut possible = moves;
                let idx = ((7 - y) as usize) * 8 + (x as usize);
                match board[idx].variety {
                    Variety::King => {
                        match kingside {
                            Some(k) => {
                                possible.push(k);
                                self.castling_possible.push((String::from_str("O-O"), k));
                            },
                            None => {},
                        }
                        match queenside {
                            Some(q) => {
                                possible.push(q);
                                self.castling_possible.push((String::from_str("O-O-O"), q));
                            },
                            None => {},
                        }
                        proof {
                            reveal_strlit("O-O");
                            reveal_strlit("O-O-O");
                        }
                        let ghost extra = offered(true, kingside, queenside);
                        assert(castle_view(self.castling_possible@) =~= old_castling + extra);
                        assert(possible@ =~= moves@ + castle_targets(extra));
                    },
                    _ => {
                        self.castling_possible = Vec::new();
                        assert(castle_view(self.castling_possible@) =~= Seq::empty());
                        assert(possible@ =~= moves@ + castle_targets(offered(false, kingside, queenside)));
                    },
                }
                self.highlighted_spaces = Some(possible);
            },
        }
    }
}

/// The state once a move was made: the engine's verdict on the end of the
/// game, and the squares as they now stand.
pub open spec fn moved(m: ControllerModel, game_over: bool, board: Seq<Square>) -> ControllerModel {
    ControllerModel { game_over, board_text: board_names(board), ..m }
}

impl ChessController {
    /// Records the engine's verdict on a move that was made: whether the game
    /// is over, and the squares as they now stand.
    pub fn finish_move(&mut self, game_over: bool, board: &Vec<Square>)
        requires
            old(self)@.wf(),
            board@.len() == BOARD_SQUARES,
        ensures
            final(self)@ == moved(old(self)@, game_over, board@),
            final(self)@.wf(),
    {
        self.game_over = game_over;
        self.update_board(board);
    }
}

/// Text joining the two square names of a move, with the queen promotion
/// suffix `=Q` when asked for.
pub open spec fn move_input(from: Seq<char>, to: Seq<char>, promote: bool) -> Seq<char> {
    if promote {
        from + " "@ + to + "=Q"@
    } else {
        from + " "@ + to
    }
}

/// Builds the move text the engine takes: the names of the two squares,
/// separated by a space, and `=Q` to promote to a queen.
pub fn compose_move(from: &str, to: &str, promote: bool) -> (s: String)
    ensures
        s@ == move_input(from@, to@, promote),
{
    let mut s = String::from_str(from);
    s.append(" ");
    s.append(to);
    if promote {
        s.append("=Q");
    }
    s
}

/// What is done with a message from the remote player that arrives before a
/// click.
pub enum Incoming {
    /// Not a move: the board is redrawn.
    Refresh,
    /// A move to make on the board, by its text.
    Play(String),
    /// A move message that cannot be read.
    Malformed,
}

/// What is done with a message from the remote player, as plain values.
pub open spec fn incoming_reading(message: Seq<u8>) -> Option<Option<Seq<char>>> {
    if message[0] != Message::Move.code() {
        None
    } else {
        match move_reading(message) {
            Ok(s) => Some(Some(s)),
            Err(_) => Some(None),
        }
    }
}

/// The view of what is done with an incoming message.
pub open spec fn incoming_view(i: Incoming) -> Option<Option<Seq<char>>> {
    match i {
        Incoming::Refresh => None,
        Incoming::Play(s) => Some(Some(s@)),
        Incoming::Malformed => Some(None),
    }
}

/// Decides what is done with a message from the remote player.
pub fn incoming_move(message: &[u8; 5]) -> (i: Incoming)
    ensures
        incoming_view(i) == incoming_reading(message@),
{
    if Message::Move == message[0] {
        match process_move(message) {
            Ok(s) => Incoming::Play(s),
            Err(_) => Incoming::Malformed,
        }
    } else {
        Incoming::Refresh
    }
}

/// The frame answered to a move of the remote player: five accept codes
/// when the engine took the move, five decline codes otherwise.
pub open spec fn answer_frame(legal: bool) -> Seq<u8> {
    let code = if legal { Message::Accept.code() } else { Message::Decline.code() };
    seq![code, code, code, code, code]
}

/// The frame answered to a move of the remote player.
pub fn move_answer(legal: bool) -> (f: [u8; 5])
    ensures
        f@ == answer_frame(legal),
{
    let code = if legal { Message::Accept.to_byte() } else { Message::Decline.to_byte() };
    let f = [code, code, code, code, code];
    assert(f@ =~= answer_frame(legal));
    f
}

/// Whether the remote player accepted a move: the reply starts with the
/// accept code.
pub fn move_accepted(reply: &[u8; 5]) -> (r: bool)
    ensures
        r == (reply@[0] == Message::Accept.code()),
{
    Message::Accept == reply[0]
}

/// The folder that holds the piece images.
pub open spec fn image_folder() -> Seq<char> {
    "./chess_gui/Chess pieces/"@
}

/// The colour prefixes of the piece images, in loading order.
pub open spec fn image_colors() -> Seq<Seq<char>> {
    seq!["white_"@, "black_"@]
}

/// The piece words of the piece images, in loading order.
pub open spec fn image_pieces() -> Seq<Seq<char>> {
    seq!["pawn"@, "king"@, "rook"@, "knight"@, "bishop"@, "queen"@]
}

/// The image of colour number `c` and piece number `p`: the name it is
/// looked up by, and the file it is loaded from.
pub open spec fn image_entry(c: int, p: int) -> (Seq<char>, Seq<char>) {
    let name = image_colors()[c] + image_pieces()[p];
    (name, image_folder() + name + ".png"@)
}

/// All piece images, white ones first.
pub open spec fn image_entries() -> Seq<(Seq<char>, Seq<char>)> {
    Seq::new(12, |i: int| image_entry(i / 6, i % 6))
}

/// The names and files of all piece images, white ones first.
pub fn piece_images() -> (v: Vec<(String, String)>)
    ensures
        v@.map_values(|e: (String, String)| (e.0@, e.1@)) == image_entries(),
{
    let colors: [&str; 2] = ["white_", "black_"];
    let pieces: [&str; 6] = ["pawn", "king", "rook", "knight", "bishop", "queen"];
    assert(colors@.map_values(|s: &str| s@) =~= image_colors());
    assert(pieces@.map_values(|s: &str| s@) =~= image_pieces());
    let mut v: Vec<(String, String)> = Vec::new();
    let mut c: usize = 0;
    while c < 2
        invariant
            0 <= c <= 2,
            colors@.map_values(|s: &str| s@) == image_colors(),
            pieces@.map_values(|s: &str| s@) == image_pieces(),
            v@.len() == c * 6,
            forall|k: int| 0 <= k < v@.len() ==> (#[trigger] v@[k]).0@ == image_entry(k / 6, k % 6).0
                && v@[k].1@ == image_entry(k / 6, k % 6).1,
        decreases 2 - c,
    {
        let mut p: usize = 0;
        while p < 6
            invariant
                0 <= c < 2,
                0 <= p <= 6,
                colors@.map_values(|s: &str| s@) == image_colors(),
                pieces@.map_values(|s: &str| s@) == image_pieces(),
                v@.len() == c * 6 + p,
                forall|k: int| 0 <= k < v@.len() ==> (#[trigger] v@[k]).0@ == image_entry(k / 6, k % 6).0
                    && v@[k].1@ == image_entry(k / 6, k % 6).1,
            decreases 6 - p,
        {
            let mut name = String::from_str(colors[c]);
            name.append(pieces[p]);
            let mut path = String::from_str("./chess_gui/Chess pieces/");
            path.append(name.as_str());
            path.append(".png");
            let k: usize = c * 6 + p;
            assert(k as int / 6 == c as int && k as int % 6 == p as int);
            assert(colors@.map_values(|s: &str| s@)[c as int] == colors@[c as int]@);
            assert(pieces@.map_values(|s: &str| s@)[p as int] == pieces@[p as int]@);
            v.push((name, path));
            p = p + 1;
        }
        c = c + 1;
    }
    assert(v@.map_values(|e: (String, String)| (e.0@, e.1@)) =~= image_entries());
    v
}

} // verus!
