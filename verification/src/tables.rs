//! Piece-square tables: what a piece is worth on each square, in the middle
//! game and in the end game.
//!
//! A table is read from the side of its owner: entry 0 is the square a1 for
//! White and a8 for Black.

use crate::types::{Color, Piece, Role};
use vstd::prelude::*;

verus! {

/// The worth of a pawn on each square in the middle game.
pub const PAWN_MG: [i16; 64] = [
    0, 0, 0, 0, 0, 0, 0, 0,
    50, 50, 50, 50, 50, 50, 50, 50,
    10, 10, 20, 30, 30, 20, 10, 10,
    5, 5, 10, 25, 25, 10, 5, 5,
    0, 0, 0, 20, 20, 0, 0, 0,
    5, -5, -10, 0, 0, -10, -5, 5,
    5, 10, 10, -20, -20, 10, 10, 5,
    0, 0, 0, 0, 0, 0, 0, 0,
];

/// The worth of a pawn on each square in the end game.
pub const PAWN_EG: [i16; 64] = [
    0, 0, 0, 0, 0, 0, 0, 0,
    80, 80, 80, 80, 80, 80, 80, 80,
    50, 50, 50, 50, 50, 50, 50, 50,
    30, 30, 30, 30, 30, 30, 30, 30,
    20, 20, 20, 20, 20, 20, 20, 20,
    10, 10, 10, 10, 10, 10, 10, 10,
    0, 0, 0, 0, 0, 0, 0, 0,
    -50, -50, -50, -50, -50, -50, -50, -50,
];

/// The worth of a knight on each square in the middle game.
pub const KNIGHT_MG: [i16; 64] = [
    -50, -40, -30, -30, -30, -30, -40, -50,
    -40, -20, 0, 5, 5, 0, -20, -40,
    -30, 5, 15, 20, 20, 15, 5, -30,
    -30, 0, 20, 25, 25, 20, 0, -30,
    -30, 5, 15, 20, 20, 15, 5, -30,
    -30, 0, 0, 15, 15, 0, 0, -30,
    -40, -20, 0, 0, 0, 0, -20, -40,
    -50, -40, -30, -30, -30, -30, -40, -50,
];

/// The worth of a knight on each square in the end game.
pub const KNIGHT_EG: [i16; 64] = [
    -50, -40, -30, -30, -30, -30, -40, -50,
    -40, -20, 0, 0, 0, 0, -20, -40,
    -30, 0, 10, 15, 15, 10, 0, -30,
    -30, 5, 15, 20, 20, 15, 5, -30,
    -30, 0, 15, 20, 20, 15, 0, -30,
    -30, 5, 10, 15, 15, 10, 5, -30,
    -40, -20, 0, 5, 5, 0, -20, -40,
    -50, -40, -30, -30, -30, -30, -40, -50,
];

/// The worth of a bishop on each square in the middle game.
pub const BISHOP_MG: [i16; 64] = [
    -20, -10, -10, -10, -10, -10, -10, -20,
    -10, 5, 0, 0, 0, 0, 5, -10,
    -10, 10, 10, 10, 10, 10, 10, -10,
    -10, 0, 10, 10, 10, 10, 0, -10,
    -10, 5, 5, 10, 10, 5, 5, -10,
    -10, 0, 5, 10, 10, 5, 0, -10,
    -10, 0, 0, 0, 0, 0, 0, -10,
    -20, -10, -10, -10, -10, -10, -10, -20,
];

/// The worth of a bishop on each square in the end game.
pub const BISHOP_EG: [i16; 64] = [
    -20, -10, -10, -10, -10, -10, -10, -20,
    -10, 0, 0, 0, 0, 0, 0, -10,
    -10, 0, 5, 10, 10, 5, 0, -10,
    -10, 5, 5, 10, 10, 5, 5, -10,
    -10, 0, 10, 10, 10, 10, 0, -10,
    -10, 10, 10, 10, 10, 10, 10, -10,
    -10, 5, 0, 0, 0, 0, 5, -10,
    -20, -10, -10, -10, -10, -10, -10, -20,
];

/// The worth of a rook on each square in the middle game.
pub const ROOK_MG: [i16; 64] = [
    0, 0, 0, 5, 5, 0, 0, 0,
    -5, 0, 0, 0, 0, 0, 0, -5,
    -5, 0, 0, 0, 0, 0, 0, -5,
    -5, 0, 0, 0, 0, 0, 0, -5,
    -5, 0, 0, 0, 0, 0, 0, -5,
    -5, 0, 0, 0, 0, 0, 0, -5,
    5, 10, 10, 10, 10, 10, 10, 5,
    0, 0, 0, 0, 0, 0, 0, 0,
];

/// The worth of a rook on each square in the end game.
pub const ROOK_EG: [i16; 64] = [
    10, 10, 10, 10, 10, 10, 10, 10,
    15, 20, 20, 20, 20, 20, 20, 15,
    -5, 0, 0, 0, 0, 0, 0, -5,
    -5, 0, 0, 0, 0, 0, 0, -5,
    -5, 0, 0, 0, 0, 0, 0, -5,
    -5, 0, 0, 0, 0, 0, 0, -5,
    -5, 0, 0, 0, 0, 0, 0, -5,
    0, 0, 0, 5, 5, 0, 0, 0,
];

/// The worth of a queen on each square in the middle game.
pub const QUEEN_MG: [i16; 64] = [
    -20, -10, -10, -5, -5, -10, -10, -20,
    -10, 0, 5, 0, 0, 0, 0, -10,
    -10, 5, 5, 5, 5, 5, 0, -10,
    0, 0, 5, 5, 5, 5, 0, -5,
    -5, 0, 5, 5, 5, 5, 0, -5,
    -10, 0, 5, 5, 5, 5, 0, -10,
    -10, 0, 0, 0, 0, 0, 0, -10,
    -20, -10, -10, -5, -5, -10, -10, -20,
];

/// The worth of a queen on each square in the end game.
pub const QUEEN_EG: [i16; 64] = [
    -20, -10, -10, -5, -5, -10, -10, -20,
    -10, 0, 0, 0, 0, 0, 0, -10,
    -10, 0, 5, 5, 5, 5, 0, -10,
    -5, 0, 5, 5, 5, 5, 0, -5,
    0, 0, 5, 5, 5, 5, 0, -5,
    -10, 5, 5, 5, 5, 5, 0, -10,
    -10, 0, 5, 0, 0, 0, 0, -10,
    -20, -10, -10, -5, -5, -10, -10, -20,
];

/// The worth of a king on each square in the middle game.
pub const KING_MG: [i16; 64] = [
    20, 30, 10, 0, 0, 10, 30, 20,
    20, 20, 0, 0, 0, 0, 20, 20,
    -10, -20, -20, -20, -20, -20, -20, -10,
    -20, -30, -30, -40, -40, -30, -30, -20,
    -30, -40, -40, -50, -50, -40, -40, -30,
    -30, -40, -40, -50, -50, -40, -40, -30,
    -30, -40, -40, -50, -50, -40, -40, -30,
    -30, -40, -40, -50, -50, -40, -40, -30,
];

/// The worth of a king on each square in the end game.
pub const KING_EG: [i16; 64] = [
    -50, -40, -30, -20, -20, -30, -40, -50,
    -30, -20, -10, 0, 0, -10, -20, -30,
    -30, -10, 20, 30, 30, 20, -10, -30,
    -30, -10, 30, 40, 40, 30, -10, -30,
    -30, -10, 30, 40, 40, 30, -10, -30,
    -30, -10, 20, 30, 30, 20, -10, -30,
    -30, -30, 0, 0, 0, 0, -30, -30,
    -50, -30, -30, -30, -30, -30, -30, -50,
];

/// The entry of the tables that belongs to `square` for a piece of `color`.
pub open spec fn table_index(color: Color, square: u8) -> int {
    match color {
        Color::White => square as int,
        Color::Black => (7 - square / 8) * 8 + square % 8,
    }
}

/// The middle-game and the end-game worth of `piece` on `square`.
pub open spec fn piece_square(piece: Piece, square: u8) -> (i16, i16) {
    let index = table_index(piece.color, square);
    match piece.role {
        Role::Pawn => (PAWN_MG[index], PAWN_EG[index]),
        Role::Knight => (KNIGHT_MG[index], KNIGHT_EG[index]),
        Role::Bishop => (BISHOP_MG[index], BISHOP_EG[index]),
        Role::Rook => (ROOK_MG[index], ROOK_EG[index]),
        Role::Queen => (QUEEN_MG[index], QUEEN_EG[index]),
        Role::King => (KING_MG[index], KING_EG[index]),
    }
}

/// The middle-game and the end-game worth of `piece` on `square`, between
/// which the evaluation blends by the phase of the game.
pub fn piece_square_values(piece: Piece, square: u8) -> (r: (i16, i16))
    requires
        square < 64,
    ensures
        r == piece_square(piece, square),
{
    let rank = (square / 8) as usize;
    let file = (square % 8) as usize;
    let index = match piece.color {
        Color::White => rank * 8 + file,
        Color::Black => (7 - rank) * 8 + file,
    };
    match piece.role {
        Role::Pawn => (PAWN_MG[index], PAWN_EG[index]),
        Role::Knight => (KNIGHT_MG[index], KNIGHT_EG[index]),
        Role::Bishop => (BISHOP_MG[index], BISHOP_EG[index]),
        Role::Rook => (ROOK_MG[index], ROOK_EG[index]),
        Role::Queen => (QUEEN_MG[index], QUEEN_EG[index]),
        Role::King => (KING_MG[index], KING_EG[index]),
    }
}

} // verus!
