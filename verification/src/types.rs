//! Plain chess vocabulary shared by the whole crate: colors, piece roles,
//! moves and game outcomes. Squares are numbered 0 (a1) to 63 (h8), rank by
//! rank.

use vstd::prelude::*;

verus! {

/// One of the two players.
#[derive(Debug, Clone, Copy, PartialEq, Eq, Hash, Structural)]
pub enum Color {
    Black,
    White,
}

/// A piece type. Roles are numbered 1 (pawn) to 6 (king).
#[derive(Debug, Clone, Copy, PartialEq, Eq, Hash, Structural)]
pub enum Role {
    Pawn,
    Knight,
    Bishop,
    Rook,
    Queen,
    King,
}

impl Role {
    /// The number of the role, from 1 for a pawn to 6 for a king.
    pub open spec fn rank(self) -> int {
        match self {
            Role::Pawn => 1,
            Role::Knight => 2,
            Role::Bishop => 3,
            Role::Rook => 4,
            Role::Queen => 5,
            Role::King => 6,
        }
    }

    /// The number of the role, from 1 for a pawn to 6 for a king.
    pub fn index(self) -> (r: u8)
        ensures
            r == self.rank(),
    {
        match self {
            Role::Pawn => 1,
            Role::Knight => 2,
            Role::Bishop => 3,
            Role::Rook => 4,
            Role::Queen => 5,
            Role::King => 6,
        }
    }

    /// The role with the given number, if it is one of 1 to 6.
    pub fn from_index(index: u8) -> (r: Option<Role>)
        ensures
            r is Some <==> 1 <= index <= 6,
            r matches Some(role) ==> role.rank() == index,
    {
        match index {
            1 => Some(Role::Pawn),
            2 => Some(Role::Knight),
            3 => Some(Role::Bishop),
            4 => Some(Role::Rook),
            5 => Some(Role::Queen),
            6 => Some(Role::King),
            _ => None,
        }
    }
}

/// A piece on the board.
#[derive(Debug, Clone, Copy, PartialEq, Eq, Hash, Structural)]
pub struct Piece {
    pub color: Color,
    pub role: Role,
}

/// How a finished game ended.
#[derive(Debug, Clone, Copy, PartialEq, Eq, Hash, Structural)]
pub enum Outcome {
    Decisive { winner: Color },
    Draw,
}

/// A move, described by the squares and roles involved.
#[derive(Debug, Clone, Copy, PartialEq, Eq, Hash, Structural)]
pub enum Move {
    /// An ordinary move or capture, possibly promoting a pawn.
    Normal { role: Role, from: u8, capture: Option<Role>, to: u8, promotion: Option<Role> },
    /// A pawn capturing en passant.
    EnPassant { from: u8, to: u8 },
    /// Castling, given by the squares of the king and the rook.
    Castle { king: u8, rook: u8 },
    /// A piece dropped onto the board.
    Put { role: Role, to: u8 },
}

impl Move {
    /// The role of the piece that moves.
    pub open spec fn moved_role(self) -> Role {
        match self {
            Move::Normal { role, .. } => role,
            Move::Put { role, .. } => role,
            Move::EnPassant { .. } => Role::Pawn,
            Move::Castle { .. } => Role::King,
        }
    }

    /// The role of the piece that the move takes, if it takes one.
    pub open spec fn captured_role(self) -> Option<Role> {
        match self {
            Move::Normal { capture, .. } => capture,
            Move::EnPassant { .. } => Some(Role::Pawn),
            _ => None,
        }
    }

    /// The role that a pawn turns into, if the move promotes one.
    pub open spec fn promoted_role(self) -> Option<Role> {
        match self {
            Move::Normal { promotion, .. } => promotion,
            _ => None,
        }
    }

    /// The role of the piece that moves.
    pub fn role(&self) -> (r: Role)
        ensures
            r == self.moved_role(),
    {
        match *self {
            Move::Normal { role, .. } => role,
            Move::Put { role, .. } => role,
            Move::EnPassant { .. } => Role::Pawn,
            Move::Castle { .. } => Role::King,
        }
    }

    /// The role of the piece that the move takes, if it takes one.
    pub fn capture(&self) -> (r: Option<Role>)
        ensures
            r == self.captured_role(),
    {
        match *self {
            Move::Normal { capture, .. } => capture,
            Move::EnPassant { .. } => Some(Role::Pawn),
            _ => None,
        }
    }

    /// Whether the move takes a piece.
    pub fn is_capture(&self) -> (r: bool)
        ensures
            r == self.captured_role().is_some(),
    {
        self.capture().is_some()
    }

    /// The role that a pawn turns into, if the move promotes one.
    pub fn promotion(&self) -> (r: Option<Role>)
        ensures
            r == self.promoted_role(),
    {
        match *self {
            Move::Normal { promotion, .. } => promotion,
            _ => None,
        }
    }
}

} // verus!
