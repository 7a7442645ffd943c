//! The rules of chess, as the `shakmaty` crate implements them.
//!
//! Positions and moves of shakmaty are carried through the search untouched.
//! What the rules say about a position is named by specification functions
//! over its [`Situation`], what a move says by its [`Move`] description, and
//! the functions of this module hand out those answers.

use crate::types::{Color, Move, Outcome, Piece, Role};
use shakmaty::zobrist::{Zobrist64, ZobristHash};
use shakmaty::Move as RawMove;
use shakmaty::{Board, Chess, EnPassantMode, Position, Square};
use vstd::prelude::*;

verus! {

/// `Chess` of shakmaty: a position of standard chess. Nothing inside it is
/// read here.
#[verifier::external_type_specification]
#[verifier::external_body]
pub struct ExChess(Chess);

/// `Move` of shakmaty: a move as the rules engine holds it. Nothing inside
/// it is read here but by [`describe`].
#[verifier::external_type_specification]
#[verifier::external_body]
pub struct ExRawMove(RawMove);

/// `Board` of shakmaty: the pieces on their squares. Nothing inside it is
/// read here.
#[verifier::external_type_specification]
#[verifier::external_body]
pub struct ExBoard(Board);

/// Everything that a chess position holds.
pub struct Situation {
    /// The piece on each occupied square.
    pub board: Map<u8, Piece>,
    /// The side to move.
    pub turn: Color,
    /// The squares of the rooks that may still castle.
    pub castling_rights: Set<u8>,
    /// Whether castling follows the rules of Chess960.
    pub chess960: bool,
    /// The square behind a pawn that has just advanced two squares.
    pub ep_square: Option<u8>,
    /// The number of plies since the last capture or pawn move.
    pub halfmoves: nat,
    /// The number of the current full move.
    pub fullmoves: nat,
}

/// What the position `pos` holds.
pub uninterp spec fn situation_of(pos: Chess) -> Situation;

/// What the board `board` holds: the piece on each occupied square.
pub uninterp spec fn placement_of(board: Board) -> Map<u8, Piece>;

/// The board part of the Forsyth-Edwards notation of a placement: the ranks
/// from the eighth to the first, a letter for each piece and a digit for each
/// run of empty squares, with a slash between two ranks.
pub uninterp spec fn board_fen_of(placement: Map<u8, Piece>) -> Seq<char>;

/// What the move `raw` holds: its kind, squares and roles.
pub uninterp spec fn move_of(raw: RawMove) -> Move;

/// The legal moves of a position, in the order in which they are generated.
pub uninterp spec fn legal_moves_in(situation: Situation) -> Seq<Move>;

/// Whether the side to move is in check.
pub uninterp spec fn check_in(situation: Situation) -> bool;

/// How the game has ended, if it has.
pub uninterp spec fn outcome_in(situation: Situation) -> Option<Outcome>;

/// The position that a legal move leads to.
pub uninterp spec fn situation_after(situation: Situation, m: Move) -> Situation;

/// The 64-bit Zobrist hash of a position.
pub uninterp spec fn zobrist_in(situation: Situation) -> u64;

/// The squares that the piece on `square` attacks, one bit for each square.
/// A square without a piece attacks nothing.
pub uninterp spec fn attacks_in(board: Map<u8, Piece>, square: u8) -> u64;

/// The square of the king of `color`, if the board holds one king of that
/// color and no more.
pub uninterp spec fn king_in(board: Map<u8, Piece>, color: Color) -> Option<u8>;

/// The piece on a square of the board, if there is one.
pub open spec fn piece_on(board: Map<u8, Piece>, square: u8) -> Option<Piece> {
    if board.dom().contains(square) {
        Some(board[square])
    } else {
        None
    }
}

/// `Position::turn` of shakmaty: the side to move.
#[verifier::external_body]
pub(crate) fn turn(pos: &Chess) -> (r: Color)
    ensures
        r == situation_of(*pos).turn,
{
    match pos.turn() {
        shakmaty::Color::Black => Color::Black,
        shakmaty::Color::White => Color::White,
    }
}

/// `Position::is_check` of shakmaty: whether the side to move is in check.
#[verifier::external_body]
pub(crate) fn is_check(pos: &Chess) -> (r: bool)
    ensures
        r == check_in(situation_of(*pos)),
{
    pos.is_check()
}

/// `Position::outcome` of shakmaty: the winner or a draw once the game is
/// over by checkmate, stalemate or insufficient material, and nothing before.
#[verifier::external_body]
pub(crate) fn outcome(pos: &Chess) -> (r: Option<Outcome>)
    ensures
        r == outcome_in(situation_of(*pos)),
{
    match pos.outcome() {
        Some(shakmaty::Outcome::Decisive { winner: shakmaty::Color::Black }) => {
            Some(Outcome::Decisive { winner: Color::Black })
        },
        Some(shakmaty::Outcome::Decisive { winner: shakmaty::Color::White }) => {
            Some(Outcome::Decisive { winner: Color::White })
        },
        Some(shakmaty::Outcome::Draw) => Some(Outcome::Draw),
        None => None,
    }
}

/// `Position::legal_moves` of shakmaty: all legal moves of the side to move.
/// A game with no legal move is over.
#[verifier::external_body]
pub(crate) fn raw_legal_moves(pos: &Chess) -> (raw: Vec<RawMove>)
    ensures
        raw@.len() == legal_moves_in(situation_of(*pos)).len(),
        forall|i: int|
            0 <= i < raw@.len() ==> move_of(#[trigger] raw@[i]) == legal_moves_in(
                situation_of(*pos),
            )[i],
        outcome_in(situation_of(*pos)) is None ==> raw@.len() > 0,
{
    pos.legal_moves().into_iter().collect()
}

/// Reads a move of shakmaty field by field. Squares are numbered from 0 to
/// 63 and roles from 1 to 6, as shakmaty numbers them.
#[verifier::external_body]
pub(crate) fn describe(raw: &RawMove) -> (m: Move)
    ensures
        m == move_of(*raw),
{
    let role = |r: shakmaty::Role| Role::from_index(r.into()).unwrap();
    match *raw {
        RawMove::Normal { role: r, from, capture, to, promotion } => Move::Normal {
            role: role(r),
            from: from.into(),
            capture: capture.map(role),
            to: to.into(),
            promotion: promotion.map(role),
        },
        RawMove::EnPassant { from, to } => Move::EnPassant { from: from.into(), to: to.into() },
        RawMove::Castle { king, rook } => Move::Castle { king: king.into(), rook: rook.into() },
        RawMove::Put { role: r, to } => Move::Put { role: role(r), to: to.into() },
    }
}

/// `Position::play_unchecked` of shakmaty on a copy of `pos`: the position
/// after a legal move.
#[verifier::external_body]
pub(crate) fn play(pos: &Chess, raw: &RawMove) -> (next: Chess)
    requires
        legal_moves_in(situation_of(*pos)).contains(move_of(*raw)),
    ensures
        situation_of(next) == situation_after(situation_of(*pos), move_of(*raw)),
{
    let mut next = pos.clone();
    next.play_unchecked(raw);
    next
}

/// `ZobristHash::zobrist_hash` of shakmaty with 64 bits, counting an en
/// passant square only where the capture is legal.
#[verifier::external_body]
pub(crate) fn zobrist_hash(pos: &Chess) -> (hash: u64)
    ensures
        hash == zobrist_in(situation_of(*pos)),
{
    pos.zobrist_hash::<Zobrist64>(EnPassantMode::Legal).into()
}

/// `Board::piece_at` of shakmaty: the piece on a square.
#[verifier::external_body]
pub(crate) fn piece_at(pos: &Chess, square: u8) -> (r: Option<Piece>)
    requires
        square < 64,
    ensures
        r == piece_on(situation_of(*pos).board, square),
{
    pos.board().piece_at(Square::new(square.into())).map(|piece| Piece {
        color: match piece.color {
            shakmaty::Color::Black => Color::Black,
            shakmaty::Color::White => Color::White,
        },
        role: Role::from_index(piece.role.into()).unwrap(),
    })
}

/// `Board::attacks_from` of shakmaty: the squares that the piece on a square
/// attacks, as the 64 bits of its bitboard.
#[verifier::external_body]
pub(crate) fn attacks_from(pos: &Chess, square: u8) -> (r: u64)
    requires
        square < 64,
    ensures
        r == attacks_in(situation_of(*pos).board, square),
{
    pos.board().attacks_from(Square::new(square.into())).0
}

/// `Board::king_of` of shakmaty: the square of the one king of a color.
#[verifier::external_body]
pub(crate) fn king_of(pos: &Chess, color: Color) -> (r: Option<u8>)
    ensures
        r == king_in(situation_of(*pos).board, color),
{
    let side = match color {
        Color::Black => shakmaty::Color::Black,
        Color::White => shakmaty::Color::White,
    };
    pos.board().king_of(side).map(u8::from)
}

/// `Display` of shakmaty for a `Board`: the board part of its
/// Forsyth-Edwards notation.
#[verifier::external_body]
pub(crate) fn board_fen(board: &Board) -> (fen: String)
    ensures
        fen@ == board_fen_of(placement_of(*board)),
{
    format!("{board}")
}

/// The legal moves of a position, each as shakmaty holds it and as the
/// search reads it.
pub struct MoveList {
    raw: Vec<RawMove>,
    moves: Vec<Move>,
}

impl View for MoveList {
    type V = Seq<Move>;

    closed spec fn view(&self) -> Seq<Move> {
        self.moves@
    }
}

impl MoveList {
    /// Each move of the list is described as shakmaty holds it.
    pub closed spec fn wf(&self) -> bool {
        &&& self.raw@.len() == self.moves@.len()
        &&& forall|i: int|
            0 <= i < self.raw@.len() ==> move_of(#[trigger] self.raw@[i]) == self.moves@[i]
    }

    /// Generates the legal moves of `pos`.
    pub fn generate(pos: &Chess) -> (list: MoveList)
        ensures
            list.wf(),
            list@ == legal_moves_in(situation_of(*pos)),
            outcome_in(situation_of(*pos)) is None ==> list@.len() > 0,
    {
        let raw = raw_legal_moves(pos);
        let mut moves: Vec<Move> = Vec::new();
        let mut i: usize = 0;
        while i < raw.len()
            invariant
                i <= raw@.len(),
                moves@.len() == i,
                forall|j: int| 0 <= j < i ==> #[trigger] moves@[j] == move_of(raw@[j]),
            decreases raw@.len() - i,
        {
            moves.push(describe(&raw[i]));
            i += 1;
        }
        assert(moves@ =~= legal_moves_in(situation_of(*pos)));
        MoveList { raw, moves }
    }

    /// The number of moves.
    pub fn len(&self) -> (n: usize)
        ensures
            n == self@.len(),
    {
        self.moves.len()
    }

    /// The move with the given index.
    pub fn get(&self, index: usize) -> (m: Move)
        requires
            index < self@.len(),
        ensures
            m == self@[index as int],
    {
        self.moves[index]
    }

    /// The place of the first move of the list that equals `m`.
    pub fn position(&self, m: &Move) -> (r: Option<usize>)
        ensures
            match r {
                Some(index) => {
                    &&& index < self@.len()
                    &&& self@[index as int] == *m
                    &&& forall|i: int| 0 <= i < index ==> self@[i] != *m
                },
                None => !self@.contains(*m),
            },
    {
        let mut index: usize = 0;
        while index < self.moves.len()
            invariant
                index <= self.moves@.len(),
                forall|i: int| 0 <= i < index ==> self.moves@[i] != *m,
            decreases self.moves@.len() - index,
        {
            if self.moves[index] == *m {
                return Some(index);
            }
            index += 1;
        }
        None
    }

    /// The position after the move with the given index is played in `pos`,
    /// whose legal moves the list holds.
    pub fn play(&self, pos: &Chess, index: usize) -> (next: Chess)
        requires
            self.wf(),
            self@ == legal_moves_in(situation_of(*pos)),
            index < self@.len(),
        ensures
            situation_of(next) == situation_after(situation_of(*pos), self@[index as int]),
    {
        assert(self.moves@[index as int] == move_of(self.raw@[index as int]));
        assert(legal_moves_in(situation_of(*pos)).contains(self.moves@[index as int]));
        play(pos, &self.raw[index])
    }
}

/// Plays `m` in `pos` where it is one of the legal moves, and tells that it
/// is not where it is none.
pub fn play_move(pos: &Chess, m: &Move) -> (next: Option<Chess>)
    ensures
        next is Some <==> legal_moves_in(situation_of(*pos)).contains(*m),
        next matches Some(after) ==> situation_of(after) == situation_after(situation_of(*pos), *m),
{
    let moves = MoveList::generate(pos);
    match moves.position(m) {
        Some(index) => Some(moves.play(pos, index)),
        None => None,
    }
}

} // verus!
