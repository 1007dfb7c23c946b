//! The per-match authority: board state, turn order, move legality, capture
//! and forfeit.
//!
//! A match owns a single 64-square board whose squares hold at most one piece
//! of either side, a turn indicator, and the collection of captured pieces.
//! Legality is the simplified rule the protocol enforces: geometric move
//! patterns only, with no path-blocking check for sliding pieces and no
//! check or checkmate detection.

use vstd::prelude::*;

use crate::message::{Message, OutgoingMessage};

verus! {

/// The larger of two byte values.
pub fn max(x: u8, y: u8) -> (r: u8)
    ensures
        r == if x > y { x } else { y },
{
    match x > y {
        true => x,
        false => y,
    }
}

/// The smaller of two byte values.
pub fn min(x: u8, y: u8) -> (r: u8)
    ensures
        r == if x < y { x } else { y },
{
    match x < y {
        true => x,
        false => y,
    }
}

/// A piece type.
#[derive(Clone, Copy, PartialEq, Eq, Structural, Debug)]
pub enum PieceVariant {
    Bishop,
    King,
    Knight,
    Pawn,
    Queen,
    Rook,
}

/// A piece: its side and its type.
#[derive(Clone, Copy, PartialEq, Eq, Structural, Debug)]
pub enum ChessPiece {
    White(PieceVariant),
    Black(PieceVariant),
}

/// A board coordinate: column `x` and row `y`, each in `0..8` when well
/// formed.
#[derive(Clone, Copy, PartialEq, Eq, Structural, Debug)]
pub struct Pos {
    pub x: u8,
    pub y: u8,
}

/// A move as a client declares it: which piece moves, from where, to where.
#[derive(Clone, Copy, Debug)]
pub struct MoveDetails {
    pub piece: ChessPiece,
    pub from: Pos,
    pub to: Pos,
}

/// Why a move was rejected.
#[derive(Clone, Copy, PartialEq, Eq, Structural, Debug)]
pub enum MoveError {
    PieceMismatch,
    InvalidPosition,
    SpaceOccupied,
    InvalidTurn,
    NotInGame,
}

/// Match command: `player` asks to apply `move_details`.
pub struct MakeMove {
    pub move_details: MoveDetails,
    pub player: u64,
}

/// Match command: the named participant gives up.
pub struct ForfeitGame(pub u64);

impl Pos {
    /// Both coordinates on the board.
    pub open spec fn wf(self) -> bool {
        self.x < 8 && self.y < 8
    }

    /// The square of this position, in row-major order.
    pub open spec fn index(self) -> int {
        self.y * 8 + self.x
    }
}

/// Which side a piece belongs to: 0 for white, 1 for black.
pub open spec fn side_idx(p: ChessPiece) -> int {
    match p {
        ChessPiece::White(_) => 0,
        ChessPiece::Black(_) => 1,
    }
}

/// The type of a piece, whichever side it belongs to.
pub open spec fn variant_of(p: ChessPiece) -> PieceVariant {
    match p {
        ChessPiece::White(v) => v,
        ChessPiece::Black(v) => v,
    }
}

/// Absolute difference of two coordinates.
pub open spec fn delta(a: u8, b: u8) -> int {
    if a >= b {
        a - b
    } else {
        b - a
    }
}

/// The row a pawn of this side starts on: row 1 for white, row 6 for black,
/// as the starting board places them.
pub open spec fn pawn_start_row(piece: ChessPiece) -> int {
    if side_idx(piece) == 0 {
        1
    } else {
        6
    }
}

/// The geometric legality rule, over absolute column and row deltas and, for
/// the pawn's diagonal capture, whether an opposing piece occupies the
/// destination.  Intervening squares are never consulted: sliding pieces are
/// not checked for a clear path.
pub open spec fn pattern_ok(piece: ChessPiece, from: Pos, to: Pos, enemy_at_to: bool) -> bool {
    let dx = delta(from.x, to.x);
    let dy = delta(from.y, to.y);
    if dx == 0 && dy == 0 {
        false
    } else {
        match variant_of(piece) {
            PieceVariant::Bishop => dx == dy,
            PieceVariant::King => dx == 1 && dy == 1,
            PieceVariant::Knight => (dx == 1 && dy == 2) || (dx == 2 && dy == 1),
            PieceVariant::Pawn => if from.y == pawn_start_row(piece) {
                dx == 0 && (dy == 1 || dy == 2)
            } else {
                (dy == 1 && dx == 0) || (dy == 1 && dx == 1 && enemy_at_to)
            },
            PieceVariant::Rook => dx == 0 || dy == 0,
            PieceVariant::Queen => dx == 0 || dy == 0 || dx == dy,
        }
    }
}

/// Whether square `at` holds a piece of side `side`.
pub open spec fn side_at(board: Seq<Option<ChessPiece>>, at: int, side: int) -> bool {
    board[at] matches Some(p) && side_idx(p) == side
}

/// The piece initially placed on square `i`: white's back rank and pawns on
/// rows 0 and 1, black's on rows 6 and 7.
pub open spec fn initial_square(i: int) -> Option<ChessPiece> {
    if i == 0 || i == 7 {
        Some(ChessPiece::White(PieceVariant::Rook))
    } else if i == 1 || i == 6 {
        Some(ChessPiece::White(PieceVariant::Knight))
    } else if i == 2 || i == 5 {
        Some(ChessPiece::White(PieceVariant::Bishop))
    } else if i == 3 {
        Some(ChessPiece::White(PieceVariant::Queen))
    } else if i == 4 {
        Some(ChessPiece::White(PieceVariant::King))
    } else if 8 <= i && i < 16 {
        Some(ChessPiece::White(PieceVariant::Pawn))
    } else if 48 <= i && i < 56 {
        Some(ChessPiece::Black(PieceVariant::Pawn))
    } else if i == 56 || i == 63 {
        Some(ChessPiece::Black(PieceVariant::Rook))
    } else if i == 57 || i == 62 {
        Some(ChessPiece::Black(PieceVariant::Knight))
    } else if i == 58 || i == 61 {
        Some(ChessPiece::Black(PieceVariant::Bishop))
    } else if i == 59 {
        Some(ChessPiece::Black(PieceVariant::Queen))
    } else if i == 60 {
        Some(ChessPiece::Black(PieceVariant::King))
    } else {
        None
    }
}

/// The full starting board.
pub open spec fn initial_board() -> Seq<Option<ChessPiece>> {
    Seq::new(64, |i: int| initial_square(i))
}

/// Which slot of `players` the reference `p` occupies: 0, 1, or -1 when it is
/// no participant.  The first slot wins when both hold the same reference.
pub open spec fn mover_slot(players: Seq<u64>, p: u64) -> int {
    if players[0] == p {
        0
    } else if players[1] == p {
        1
    } else {
        -1
    }
}

/// The exact outcome of a move evaluated on `board` with `turn` to move,
/// after the caller has already resolved the mover's identity: the declared
/// piece must occupy the source square on the moving side, the destination
/// must not hold a piece of the moving side, and the geometric pattern must
/// be satisfied.
pub open spec fn move_outcome(
    board: Seq<Option<ChessPiece>>,
    turn: int,
    piece: ChessPiece,
    from: Pos,
    to: Pos,
) -> Result<(), MoveError> {
    if !(board[from.index()] == Some(piece) && side_idx(piece) == turn) {
        Err(MoveError::PieceMismatch)
    } else if side_at(board, to.index(), turn) {
        Err(MoveError::SpaceOccupied)
    } else if !pattern_ok(piece, from, to, side_at(board, to.index(), 1 - turn)) {
        Err(MoveError::InvalidPosition)
    } else {
        Ok(())
    }
}

/// The board after a successful move: the source square is emptied and the
/// destination holds the moved piece, whatever stood there before.
pub open spec fn board_after_move(
    board: Seq<Option<ChessPiece>>,
    piece: ChessPiece,
    from: Pos,
    to: Pos,
) -> Seq<Option<ChessPiece>> {
    board.update(from.index(), None).update(to.index(), Some(piece))
}

/// The discard collection after a successful move: the captured piece is
/// appended exactly when the destination was occupied.
pub open spec fn discard_after_move(
    discarded: Seq<ChessPiece>,
    board: Seq<Option<ChessPiece>>,
    to: Pos,
) -> Seq<ChessPiece> {
    match board[to.index()] {
        Some(q) => discarded.push(q),
        None => discarded,
    }
}

/// The notifications a successful move sends to the two participants: on a
/// capture, a removal at the destination square to each participant first,
/// then the relocation to each participant.
pub open spec fn move_notifications(
    players: Seq<u64>,
    board: Seq<Option<ChessPiece>>,
    from: Pos,
    to: Pos,
) -> Seq<Message> {
    let fp = from.index() as usize;
    let tp = to.index() as usize;
    let moves = seq![
        (Message { target: players[0], inner: (OutgoingMessage::MovePiece { from: fp, to: tp }), game: None }),
        (Message { target: players[1], inner: (OutgoingMessage::MovePiece { from: fp, to: tp }), game: None }),
    ];
    if board[to.index()] is Some {
        seq![
            (Message { target: players[0], inner: (OutgoingMessage::RemovePiece { at: tp }), game: None }),
            (Message { target: players[1], inner: (OutgoingMessage::RemovePiece { at: tp }), game: None }),
        ] + moves
    } else {
        moves
    }
}

/// The authoritative state of one match.
pub struct Game {
    /// The two participants; slot 0 is white and moves first.
    pub players: Vec<u64>,
    /// Whose turn it is: 0 or 1, an index into `players`.
    pub turn: usize,
    /// Captured pieces, in capture order.
    pub discarded: Vec<ChessPiece>,
    /// The 64 squares in row-major order, each holding at most one piece.
    pub board: Vec<Option<ChessPiece>>,
}

impl Game {
    /// Structural well-formedness: two participants, a valid turn indicator,
    /// and a full complement of squares.
    pub open spec fn wf(self) -> bool {
        &&& self.players@.len() == 2
        &&& self.turn < 2
        &&& self.board@.len() == 64
    }

    /// A fresh match between `players`, white to move, on the starting board,
    /// with nothing captured yet.
    pub fn new(players: Vec<u64>) -> (g: Game)
        requires
            players@.len() == 2,
        ensures
            g.wf(),
            g.players@ == players@,
            g.turn == 0,
            g.discarded@ == Seq::<ChessPiece>::empty(),
            g.board@ == initial_board(),
    {
        let mut board: Vec<Option<ChessPiece>> = Vec::new();
        let mut i: usize = 0;
        while i < 64
            invariant
                i <= 64,
                board@.len() == i,
                forall|j: int| 0 <= j < i ==> board@[j] == initial_square(j),
            decreases 64 - i,
        {
            board.push(starting_square(i));
            i = i + 1;
        }
        assert(board@ =~= initial_board());
        Game { players, turn: 0, discarded: Vec::new(), board }
    }

    /// Whether square `at` holds a piece of side `side`.
    fn occupied_by(&self, at: usize, side: usize) -> (r: bool)
        requires
            self.wf(),
            at < 64,
        ensures
            r == side_at(self.board@, at as int, side as int),
    {
        match self.board[at] {
            Some(p) => side_index(&p) == side,
            None => false,
        }
    }

    /// Whether the geometric pattern of `piece` admits the move `from` →
    /// `to`, consulting the board only for the pawn's diagonal capture.
    fn check_move_pattern(&self, piece: &ChessPiece, from: Pos, to: Pos) -> (r: bool)
        requires
            self.wf(),
            from.wf(),
            to.wf(),
        ensures
            r == pattern_ok(
                *piece,
                from,
                to,
                side_at(self.board@, to.index(), 1 - side_idx(*piece)),
            ),
    {
        let dx = max(from.x, to.x) - min(from.x, to.x);
        let dy = max(from.y, to.y) - min(from.y, to.y);
        let to_projected_pos = (to.y * 8 + to.x) as usize;
        if dx == 0 && dy == 0 {
            return false;
        }
        let start_row: u8 = match piece {
            ChessPiece::White(_) => 1,
            ChessPiece::Black(_) => 6,
        };
        let opponent = 1 - side_index(piece);
        match variant(piece) {
            PieceVariant::Bishop => dx == dy,
            PieceVariant::King => dx == 1 && dy == 1,
            PieceVariant::Knight => (dx == 1 && dy == 2) || (dx == 2 && dy == 1),
            PieceVariant::Pawn => {
                if from.y == start_row {
                    // on the side's own starting row: one or two squares
                    // straight ahead
                    dx == 0 && (dy == 1 || dy == 2)
                } else if dy == 1 && dx == 1 && self.occupied_by(to_projected_pos, opponent) {
                    // a diagonal step is a capture: it needs an opposing
                    // piece on the destination
                    true
                } else {
                    dy == 1 && dx == 0
                }
            },
            PieceVariant::Rook => dx == 0 || dy == 0,
            PieceVariant::Queen => dx == 0 || dy == 0 || dx == dy,
        }
    }

    /// Captures whatever stands on square `at`: the piece moves to the
    /// discard collection and both participants are told of the removal.
    /// An empty square is left alone.
    fn take_piece_if_exists(&mut self, at: usize, outbox: &mut Vec<Message>)
        requires
            old(self).wf(),
            at < 64,
        ensures
            final(self).wf(),
            final(self).players@ == old(self).players@,
            final(self).turn == old(self).turn,
            match old(self).board@[at as int] {
                Some(q) => {
                    &&& final(self).board@ == old(self).board@.update(at as int, None)
                    &&& final(self).discarded@ == old(self).discarded@.push(q)
                    &&& final(outbox)@ == old(outbox)@ + seq![
                        (Message { target: old(self).players@[0], inner: (OutgoingMessage::RemovePiece { at }), game: None }),
                        (Message { target: old(self).players@[1], inner: (OutgoingMessage::RemovePiece { at }), game: None }),
                    ]
                },
                None => *final(self) == *old(self) && final(outbox)@ == old(outbox)@,
            },
    {
        match self.board[at] {
            Some(q) => {
                self.discarded.push(q);
                self.board[at] = None;
                outbox.push(Message {
                    target: self.players[0],
                    inner: OutgoingMessage::RemovePiece { at },
                    game: None,
                });
                outbox.push(Message {
                    target: self.players[1],
                    inner: OutgoingMessage::RemovePiece { at },
                    game: None,
                });
                assert(outbox@ =~= old(outbox)@ + seq![
                    (Message { target: old(self).players@[0], inner: (OutgoingMessage::RemovePiece { at }), game: None }),
                    (Message { target: old(self).players@[1], inner: (OutgoingMessage::RemovePiece { at }), game: None }),
                ]);
            },
            None => {},
        }
    }

    /// Relocates the content of the source square to the destination square
    /// and tells both participants of the relocation.
    fn move_piece(&mut self, from: Pos, to: Pos, outbox: &mut Vec<Message>)
        requires
            old(self).wf(),
            from.wf(),
            to.wf(),
        ensures
            final(self).wf(),
            final(self).players@ == old(self).players@,
            final(self).turn == old(self).turn,
            final(self).discarded@ == old(self).discarded@,
            final(self).board@ == old(self).board@.update(from.index(), None).update(
                to.index(),
                old(self).board@[from.index()],
            ),
            final(outbox)@ == old(outbox)@ + seq![
                (Message { target: old(self).players@[0], inner: (OutgoingMessage::MovePiece { from: from.index() as usize, to: to.index() as usize }), game: None }),
                (Message { target: old(self).players@[1], inner: (OutgoingMessage::MovePiece { from: from.index() as usize, to: to.index() as usize }), game: None }),
            ],
    {
        let p_from = (from.y * 8 + from.x) as usize;
        let p_to = (to.y * 8 + to.x) as usize;
        let piece = self.board[p_from];
        self.board[p_from] = None;
        self.board[p_to] = piece;
        outbox.push(Message {
            target: self.players[0],
            inner: OutgoingMessage::MovePiece { from: p_from, to: p_to },
            game: None,
        });
        outbox.push(Message {
            target: self.players[1],
            inner: OutgoingMessage::MovePiece { from: p_from, to: p_to },
            game: None,
        });
        assert(outbox@ =~= old(outbox)@ + seq![
            (Message { target: old(self).players@[0], inner: (OutgoingMessage::MovePiece { from: from.index() as usize, to: to.index() as usize }), game: None }),
            (Message { target: old(self).players@[1], inner: (OutgoingMessage::MovePiece { from: from.index() as usize, to: to.index() as usize }), game: None }),
        ]);
    }

    /// Evaluates and, on success, applies one move for the side to move,
    /// after the caller has resolved the mover's identity: a capture at the
    /// destination comes first (removal notified before the relocation),
    /// then the piece moves and the turn flips exactly once.  On any
    /// rejection nothing changes and nothing is sent.
    pub fn make_move(
        &mut self,
        chess_piece: ChessPiece,
        from: Pos,
        to: Pos,
        outbox: &mut Vec<Message>,
    ) -> (r: Result<(), MoveError>)
        requires
            old(self).wf(),
            from.wf(),
            to.wf(),
        ensures
            final(self).wf(),
            final(self).players@ == old(self).players@,
            r == move_outcome(old(self).board@, old(self).turn as int, chess_piece, from, to),
            r is Err ==> *final(self) == *old(self) && final(outbox)@ == old(outbox)@,
            r is Ok ==> {
                &&& final(self).turn == 1 - old(self).turn
                &&& final(self).board@ == board_after_move(old(self).board@, chess_piece, from, to)
                &&& final(self).discarded@ == discard_after_move(
                    old(self).discarded@,
                    old(self).board@,
                    to,
                )
                &&& final(outbox)@ == old(outbox)@ + move_notifications(
                    old(self).players@,
                    old(self).board@,
                    from,
                    to,
                )
            },
    {
        let from_projected_pos = (from.y * 8 + from.x) as usize;
        let to_projected_pos = (to.y * 8 + to.x) as usize;
        match self.board[from_projected_pos] {
            Some(piece) => {
                if piece == chess_piece && side_index(&chess_piece) == self.turn {
                    if self.occupied_by(to_projected_pos, self.turn) {
                        Err(MoveError::SpaceOccupied)
                    } else {
                        if self.check_move_pattern(&piece, from, to) {
                            proof {
                                lemma_index_injective(from, to);
                            }
                            self.take_piece_if_exists(to_projected_pos, outbox);
                            self.move_piece(from, to, outbox);
                            self.turn = (self.turn + 1) % 2;
                            assert(self.board@ =~= board_after_move(
                                old(self).board@,
                                chess_piece,
                                from,
                                to,
                            ));
                            assert(outbox@ =~= old(outbox)@ + move_notifications(
                                old(self).players@,
                                old(self).board@,
                                from,
                                to,
                            ));
                            Ok(())
                        } else {
                            Err(MoveError::InvalidPosition)
                        }
                    }
                } else {
                    Err(MoveError::PieceMismatch)
                }
            },
            None => Err(MoveError::PieceMismatch),
        }
    }

    /// One move request from `player`: rejected with `InvalidTurn` unless the
    /// mover is the participant whose turn it is; otherwise evaluated and
    /// applied as `make_move` says.
    pub fn handle_make_move(&mut self, msg: MakeMove, outbox: &mut Vec<Message>) -> (r: Result<
        (),
        MoveError,
    >)
        requires
            old(self).wf(),
            msg.move_details.from.wf(),
            msg.move_details.to.wf(),
        ensures
            final(self).wf(),
            final(self).players@ == old(self).players@,
            mover_slot(old(self).players@, msg.player) != old(self).turn ==> {
                &&& r == Err::<(), MoveError>(MoveError::InvalidTurn)
                &&& *final(self) == *old(self)
                &&& final(outbox)@ == old(outbox)@
            },
            mover_slot(old(self).players@, msg.player) == old(self).turn ==> r == move_outcome(
                old(self).board@,
                old(self).turn as int,
                msg.move_details.piece,
                msg.move_details.from,
                msg.move_details.to,
            ),
            r is Err ==> *final(self) == *old(self) && final(outbox)@ == old(outbox)@,
            r is Ok ==> {
                &&& final(self).turn == 1 - old(self).turn
                &&& final(self).board@ == board_after_move(
                    old(self).board@,
                    msg.move_details.piece,
                    msg.move_details.from,
                    msg.move_details.to,
                )
                &&& final(self).discarded@ == discard_after_move(
                    old(self).discarded@,
                    old(self).board@,
                    msg.move_details.to,
                )
                &&& final(outbox)@ == old(outbox)@ + move_notifications(
                    old(self).players@,
                    old(self).board@,
                    msg.move_details.from,
                    msg.move_details.to,
                )
            },
    {
        let slot: usize = if msg.player == self.players[0] {
            0
        } else if msg.player == self.players[1] {
            1
        } else {
            2
        };
        if slot == self.turn {
            self.make_move(msg.move_details.piece, msg.move_details.from, msg.move_details.to, outbox)
        } else {
            Err(MoveError::InvalidTurn)
        }
    }

    /// A forfeit from `player`: when it is a participant, that participant is
    /// told it lost and the other that it won, and the match is to stop; a
    /// stranger's forfeit does nothing.
    pub fn handle_forfeit(&mut self, msg: ForfeitGame, outbox: &mut Vec<Message>) -> (stopped:
        bool)
        requires
            old(self).wf(),
        ensures
            *final(self) == *old(self),
            ({
                let slot = mover_slot(old(self).players@, msg.0);
                if slot == -1 {
                    !stopped && final(outbox)@ == old(outbox)@
                } else {
                    &&& stopped
                    &&& final(outbox)@.len() == old(outbox)@.len() + 2
                    &&& final(outbox)@.subrange(0, old(outbox)@.len() as int) == old(outbox)@
                    &&& (final(outbox)@[old(outbox)@.len() as int] matches Message {
                        target,
                        inner: OutgoingMessage::LoseGame(reason),
                        game: Option::None,
                    } && target == old(self).players@[slot] && reason@ == "Forfeit"@)
                    &&& (final(outbox)@[old(outbox)@.len() as int + 1] matches Message {
                        target,
                        inner: OutgoingMessage::WinGame(reason),
                        game: Option::None,
                    } && target == old(self).players@[1 - slot] && reason@ == "Forfeit"@)
                }
            }),
    {
        let slot: usize = if msg.0 == self.players[0] {
            0
        } else if msg.0 == self.players[1] {
            1
        } else {
            2
        };
        if slot < 2 {
            outbox.push(Message {
                target: self.players[slot],
                inner: OutgoingMessage::LoseGame("Forfeit".to_string()),
                game: None,
            });
            outbox.push(Message {
                target: self.players[1 - slot],
                inner: OutgoingMessage::WinGame("Forfeit".to_string()),
                game: None,
            });
            assert(outbox@.subrange(0, old(outbox)@.len() as int) =~= old(outbox)@);
            true
        } else {
            false
        }
    }
}

/// The side of a piece as an index: 0 for white, 1 for black.
fn side_index(p: &ChessPiece) -> (r: usize)
    ensures
        r == side_idx(*p),
{
    match p {
        ChessPiece::White(_) => 0,
        ChessPiece::Black(_) => 1,
    }
}

/// The type of a piece, whichever side it belongs to.
fn variant(p: &ChessPiece) -> (v: PieceVariant)
    ensures
        v == variant_of(*p),
{
    match p {
        ChessPiece::White(v) => *v,
        ChessPiece::Black(v) => *v,
    }
}

/// The piece initially placed on square `i`.
fn starting_square(i: usize) -> (r: Option<ChessPiece>)
    ensures
        r == initial_square(i as int),
{
    if i == 0 || i == 7 {
        Some(ChessPiece::White(PieceVariant::Rook))
    } else if i == 1 || i == 6 {
        Some(ChessPiece::White(PieceVariant::Knight))
    } else if i == 2 || i == 5 {
        Some(ChessPiece::White(PieceVariant::Bishop))
    } else if i == 3 {
        Some(ChessPiece::White(PieceVariant::Queen))
    } else if i == 4 {
        Some(ChessPiece::White(PieceVariant::King))
    } else if 8 <= i && i < 16 {
        Some(ChessPiece::White(PieceVariant::Pawn))
    } else if 48 <= i && i < 56 {
        Some(ChessPiece::Black(PieceVariant::Pawn))
    } else if i == 56 || i == 63 {
        Some(ChessPiece::Black(PieceVariant::Rook))
    } else if i == 57 || i == 62 {
        Some(ChessPiece::Black(PieceVariant::Knight))
    } else if i == 58 || i == 61 {
        Some(ChessPiece::Black(PieceVariant::Bishop))
    } else if i == 59 {
        Some(ChessPiece::Black(PieceVariant::Queen))
    } else if i == 60 {
        Some(ChessPiece::Black(PieceVariant::King))
    } else {
        None
    }
}

/// Distinct well-formed positions sit on distinct squares.
proof fn lemma_index_injective(a: Pos, b: Pos)
    requires
        a.wf(),
        b.wf(),
    ensures
        a.index() == b.index() ==> a == b,
{
}

/// How many squares of `board` hold a piece of side `side`.
pub open spec fn side_count(board: Seq<Option<ChessPiece>>, side: int) -> int {
    board.filter(|sq: Option<ChessPiece>| sq matches Some(p) && side_idx(p) == side).len() as int
}

/// Replacing the content of one square changes a side's piece count by
/// exactly the difference the square itself contributes.
proof fn lemma_side_count_update(
    board: Seq<Option<ChessPiece>>,
    i: int,
    v: Option<ChessPiece>,
    side: int,
)
    requires
        0 <= i < board.len(),
    ensures
        side_count(board.update(i, v), side) == side_count(board, side) - (if side_at(
            board,
            i,
            side,
        ) {
            1int
        } else {
            0
        }) + (if v matches Some(p) && side_idx(p) == side {
            1int
        } else {
            0
        }),
    decreases board.len(),
{
    reveal_with_fuel(Seq::filter, 2);
    let t = board.update(i, v);
    if i == board.len() - 1 {
        assert(t.drop_last() =~= board.drop_last());
        assert(t.last() == v);
        assert(board.last() == board[i]);
    } else {
        lemma_side_count_update(board.drop_last(), i, v, side);
        assert(t.drop_last() =~= board.drop_last().update(i, v));
        assert(t.last() == board.last());
        assert(board.drop_last()[i] == board[i]);
    }
}

/// Law of capture: a move onto a square held by the opposing side removes
/// exactly one piece from that side — the opposing piece count drops by one
/// and the mover's piece count is unchanged.  (`make_move` pairs this with
/// appending exactly that piece to the discard collection.)
pub proof fn lemma_capture_removes_one(
    board: Seq<Option<ChessPiece>>,
    piece: ChessPiece,
    from: Pos,
    to: Pos,
)
    requires
        board.len() == 64,
        from.wf(),
        to.wf(),
        from.index() != to.index(),
        board[from.index()] == Some(piece),
        board[to.index()] matches Some(q) && side_idx(q) == 1 - side_idx(piece),
    ensures
        side_count(board_after_move(board, piece, from, to), 1 - side_idx(piece)) == side_count(
            board,
            1 - side_idx(piece),
        ) - 1,
        side_count(board_after_move(board, piece, from, to), side_idx(piece)) == side_count(
            board,
            side_idx(piece),
        ),
{
    let mid = board.update(from.index(), None);
    lemma_side_count_update(board, from.index(), None, 1 - side_idx(piece));
    lemma_side_count_update(board, from.index(), None, side_idx(piece));
    lemma_side_count_update(mid, to.index(), Some(piece), 1 - side_idx(piece));
    lemma_side_count_update(mid, to.index(), Some(piece), side_idx(piece));
    assert(mid[to.index()] == board[to.index()]);
}

} // verus!
