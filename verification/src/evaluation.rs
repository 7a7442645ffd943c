//! The static evaluation of a position: material, piece-square worth, pawn
//! structure, mobility, king safety, space and center, added up as White
//! sees them.
//!
//! Squares are visited from a1 to h8, rank by rank. Each count is a sum over
//! the 64 squares of what the piece on a square adds to it. What is weighed
//! by the phase of the game is weighed by functions that are handed in.

use crate::rules::{
    attacks_from, attacks_in, king_in, king_of, outcome, outcome_in, piece_at, piece_on,
    situation_of, turn,
};
use crate::tables::{piece_square, piece_square_values};
use crate::score::Score;
use crate::types::{Color, Outcome, Piece, Role};
use crate::utils::{bit_count, count_bits, sum_to};
use shakmaty::Chess;
use vstd::prelude::*;

verus! {

/// The material value of a role in centipawns.
pub open spec fn piece_value(role: Role) -> i16 {
    match role {
        Role::Pawn => 100,
        Role::Knight => 325,
        Role::Bishop => 350,
        Role::Rook => 500,
        Role::Queen => 1000,
        Role::King => 10000,
    }
}

/// The material value of a role in centipawns.
pub fn centipawns(role: Role) -> (r: i16)
    ensures
        r == piece_value(role),
{
    match role {
        Role::Pawn => 100,
        Role::Knight => 325,
        Role::Bishop => 350,
        Role::Rook => 500,
        Role::Queen => 1000,
        Role::King => 10000,
    }
}

/// The material value of a role as a score.
pub fn get_piece_value(role: Role) -> (r: Score)
    ensures
        r == Score::Centipawn(piece_value(role)),
{
    Score::Centipawn(centipawns(role))
}

/// The score of a finished game as White sees it: a mate at the smallest
/// distance for the winner, or a level score for a draw.
pub open spec fn outcome_score(outcome: Outcome) -> Score {
    match outcome {
        Outcome::Decisive { winner } => Score::Mate(1).seen_by(winner),
        Outcome::Draw => Score::Centipawn(0),
    }
}

/// The score of a finished game as White sees it.
pub fn score_of_outcome(outcome: Outcome) -> (r: Score)
    ensures
        r == outcome_score(outcome),
{
    match outcome {
        Outcome::Decisive { winner } => Score::Mate(1).apply_color_factor(winner),
        Outcome::Draw => Score::zero(),
    }
}

/// What the side to move gains for having the move, in centipawns.
pub const TEMPO: i16 = 13;

/// The number of phase units at which the middle game is in full swing.
pub const FULL_PHASE: u32 = 24;

/// The squares of the ranks 5 to 8, one bit for each.
pub const UPPER_HALF: u64 = 0xffff_ffff_0000_0000;

/// The squares of the ranks 1 to 4, one bit for each.
pub const LOWER_HALF: u64 = 0x0000_0000_ffff_ffff;

/// The squares d4, e4, d5 and e5, one bit for each.
pub const CENTER: u64 = 0x0000_0018_1800_0000;

/// What a piece adds to the phase of the game: a knight or a bishop 1, a
/// rook 2, a queen 4.
pub open spec fn phase_weight(piece: Option<Piece>) -> int {
    match piece {
        Some(p) => match p.role {
            Role::Knight => 1,
            Role::Bishop => 1,
            Role::Rook => 2,
            Role::Queen => 4,
            _ => 0,
        },
        None => 0,
    }
}

/// The phase of the game in units: the pieces of both sides, weighed.
pub open spec fn phase_of(board: Map<u8, Piece>) -> int {
    sum_to(64, |sq: int| phase_weight(piece_on(board, sq as u8)))
}

/// Counts the phase units of a position. At [`FULL_PHASE`] units and above
/// the evaluation is that of the middle game, at none that of the end game.
pub fn phase_units(pos: &Chess) -> (r: u32)
    ensures
        r == phase_of(situation_of(*pos).board),
        r <= 256,
{
    let ghost board = situation_of(*pos).board;
    let mut total: u32 = 0;
    let mut square: u8 = 0;
    while square < 64
        invariant
            square <= 64,
            board == situation_of(*pos).board,
            total == sum_to(square as int, |sq: int| phase_weight(piece_on(board, sq as u8))),
            total <= 4 * square,
        decreases 64 - square,
    {
        if let Some(piece) = piece_at(pos, square) {
            total += match piece.role {
                Role::Knight => 1,
                Role::Bishop => 1,
                Role::Rook => 2,
                Role::Queen => 4,
                _ => 0,
            };
        }
        square += 1;
    }
    total
}

/// What one attacked square adds to the mobility of a piece.
pub open spec fn mobility_weight(role: Role) -> int {
    match role {
        Role::Knight => 2,
        Role::Bishop => 3,
        Role::Rook => 2,
        Role::Queen => 1,
        _ => 0,
    }
}

/// The mobility that the piece on `square` adds to `color`: the number of
/// squares it attacks, weighed by its role.
pub open spec fn mobility_at(board: Map<u8, Piece>, square: u8, color: Color) -> int {
    match piece_on(board, square) {
        Some(p) => if p.color == color {
            bit_count(attacks_in(board, square)) * mobility_weight(p.role)
        } else {
            0
        },
        None => 0,
    }
}

/// The mobility of the pieces of `color`.
pub open spec fn mobility_of(board: Map<u8, Piece>, color: Color) -> int {
    sum_to(64, |sq: int| mobility_at(board, sq as u8, color))
}

/// The weight of a role in the mobility count.
fn mobility_factor(role: Role) -> (r: i32)
    ensures
        r == mobility_weight(role),
{
    match role {
        Role::Knight => 2,
        Role::Bishop => 3,
        Role::Rook => 2,
        Role::Queen => 1,
        _ => 0,
    }
}

/// Scores mobility: the mobility of White less that of Black.
pub fn evaluate_mobility(pos: &Chess) -> (r: Score)
    ensures
        r == Score::Centipawn(
            (mobility_of(situation_of(*pos).board, Color::White) - mobility_of(
                situation_of(*pos).board,
                Color::Black,
            )) as i16,
        ),
        -12288 <= mobility_of(situation_of(*pos).board, Color::White) - mobility_of(
            situation_of(*pos).board,
            Color::Black,
        ) <= 12288,
{
    let ghost board = situation_of(*pos).board;
    let mut white: i32 = 0;
    let mut black: i32 = 0;
    let mut square: u8 = 0;
    while square < 64
        invariant
            square <= 64,
            board == situation_of(*pos).board,
            white == sum_to(square as int, |sq: int| mobility_at(board, sq as u8, Color::White)),
            black == sum_to(square as int, |sq: int| mobility_at(board, sq as u8, Color::Black)),
            0 <= white <= 192 * square,
            0 <= black <= 192 * square,
        decreases 64 - square,
    {
        if let Some(piece) = piece_at(pos, square) {
            let reach = count_bits(attacks_from(pos, square)) as i32 * mobility_factor(piece.role);
            match piece.color {
                Color::White => {
                    white += reach;
                },
                Color::Black => {
                    black += reach;
                },
            }
        }
        square += 1;
    }
    Score::Centipawn((white - black) as i16)
}

/// Whether a pawn of `color` stands on `square`.
pub open spec fn is_pawn_of(board: Map<u8, Piece>, color: Color, square: int) -> bool {
    piece_on(board, square as u8) == Some(Piece { color, role: Role::Pawn })
}

/// The number of pawns of `color` on `file` among the squares before
/// `square`.
pub open spec fn pawns_before(board: Map<u8, Piece>, color: Color, file: int, square: int) -> int {
    sum_to(
        square,
        |sq: int|
            if is_pawn_of(board, color, sq) && sq % 8 == file {
                1int
            } else {
                0int
            },
    )
}

/// Whether the pawn on `square` counts as isolated: no pawn of its color
/// stands on a neighboring file on a square before it.
pub open spec fn is_isolated(board: Map<u8, Piece>, color: Color, square: int) -> bool {
    &&& is_pawn_of(board, color, square)
    &&& (square % 8 == 0 || pawns_before(board, color, square % 8 - 1, square) == 0)
    &&& (square % 8 == 7 || pawns_before(board, color, square % 8 + 1, square) == 0)
}

/// The number of pawns of `color` that count as isolated.
pub open spec fn isolated_pawns(board: Map<u8, Piece>, color: Color) -> int {
    sum_to(
        64,
        |sq: int|
            if is_isolated(board, color, sq) {
                1int
            } else {
                0int
            },
    )
}

/// The number of pawns of `color` on `file` beyond the first.
pub open spec fn doubled_on(board: Map<u8, Piece>, color: Color, file: int) -> int {
    let pawns = pawns_before(board, color, file, 64);
    if pawns > 1 {
        pawns - 1
    } else {
        0
    }
}

/// The number of pawns of `color` that stand behind or before another pawn
/// of their color.
pub open spec fn doubled_pawns(board: Map<u8, Piece>, color: Color) -> int {
    sum_to(8, |file: int| doubled_on(board, color, file))
}

/// The score of the pawn structure for White: 15 centipawns for each
/// isolated pawn and 20 for each doubled pawn, against their owner.
pub open spec fn pawn_structure_of(board: Map<u8, Piece>) -> int {
    15 * (isolated_pawns(board, Color::Black) - isolated_pawns(board, Color::White)) + 20 * (
    doubled_pawns(board, Color::Black) - doubled_pawns(board, Color::White))
}

/// Counts the isolated and the doubled pawns of `color`.
fn pawn_defects(pos: &Chess, color: Color) -> (r: (i32, i32))
    ensures
        r.0 == isolated_pawns(situation_of(*pos).board, color),
        r.1 == doubled_pawns(situation_of(*pos).board, color),
        0 <= r.0 <= 64,
        0 <= r.1 <= 512,
{
    let ghost board = situation_of(*pos).board;
    let mut files: Vec<u8> = Vec::new();
    while files.len() < 8
        invariant
            files@.len() <= 8,
            forall|f: int| 0 <= f < files@.len() ==> files@[f] == 0,
        decreases 8 - files@.len(),
    {
        files.push(0);
    }
    let mut isolated: i32 = 0;
    let mut square: u8 = 0;
    while square < 64
        invariant
            square <= 64,
            board == situation_of(*pos).board,
            files@.len() == 8,
            forall|f: int|
                0 <= f < 8 ==> #[trigger] files@[f] == pawns_before(board, color, f, square as int),
            forall|f: int| 0 <= f < 8 ==> #[trigger] files@[f] <= square,
            isolated == sum_to(
                square as int,
                |sq: int|
                    if is_isolated(board, color, sq) {
                        1int
                    } else {
                        0int
                    },
            ),
            0 <= isolated <= square,
        decreases 64 - square,
    {
        let file = (square % 8) as usize;
        let pawn = match piece_at(pos, square) {
            Some(piece) => piece.color == color && piece.role == Role::Pawn,
            None => false,
        };
        proof {
            assert(pawn == is_pawn_of(board, color, square as int));
            assert forall|f: int| 0 <= f < 8 implies pawns_before(board, color, f, square + 1)
                == pawns_before(board, color, f, square as int) + if pawn && f == file {
                1int
            } else {
                0int
            } by {}
        }
        if pawn {
            let alone_left = file == 0 || files[file - 1] == 0;
            let alone_right = file == 7 || files[file + 1] == 0;
            files.set(file, files[file] + 1);
            if alone_left && alone_right {
                isolated += 1;
            }
        }
        square += 1;
    }
    let mut doubled: i32 = 0;
    let mut file: usize = 0;
    while file < 8
        invariant
            file <= 8,
            files@.len() == 8,
            forall|f: int| 0 <= f < 8 ==> #[trigger] files@[f] == pawns_before(board, color, f, 64),
            forall|f: int| 0 <= f < 8 ==> #[trigger] files@[f] <= 64,
            doubled == sum_to(file as int, |f: int| doubled_on(board, color, f)),
            0 <= doubled <= 64 * file,
        decreases 8 - file,
    {
        if files[file] > 1 {
            doubled += files[file] as i32 - 1;
        }
        file += 1;
    }
    (isolated, doubled)
}

/// Scores the pawn structure for White.
pub fn evaluate_pawn_structure(pos: &Chess) -> (r: Score)
    ensures
        r == Score::Centipawn(pawn_structure_of(situation_of(*pos).board) as i16),
        -11200 <= pawn_structure_of(situation_of(*pos).board) <= 11200,
{
    let white = pawn_defects(pos, Color::White);
    let black = pawn_defects(pos, Color::Black);
    Score::Centipawn((15 * (black.0 - white.0) + 20 * (black.1 - white.1)) as i16)
}

/// What one attacked square in the half of the opponent adds to the space of
/// a piece. A king adds nothing.
pub open spec fn space_weight(role: Role) -> int {
    match role {
        Role::Pawn => 10,
        Role::Knight => 20,
        Role::Bishop => 20,
        Role::Rook => 10,
        Role::Queen => 10,
        Role::King => 0,
    }
}

/// The half of the board on which the opponent of `color` begins.
pub open spec fn far_half(color: Color) -> u64 {
    match color {
        Color::White => UPPER_HALF,
        Color::Black => LOWER_HALF,
    }
}

/// The space that the piece on `square` adds to `color`: the squares that it
/// attacks in the half of the opponent, weighed by its role.
pub open spec fn space_at(board: Map<u8, Piece>, square: u8, color: Color) -> int {
    match piece_on(board, square) {
        Some(p) => if p.color == color {
            bit_count(attacks_in(board, square) & far_half(color)) * space_weight(p.role)
        } else {
            0
        },
        None => 0,
    }
}

/// The space that the pieces of `color` control.
pub open spec fn space_of(board: Map<u8, Piece>, color: Color) -> int {
    sum_to(64, |sq: int| space_at(board, sq as u8, color))
}

/// The weight of a role in the space count.
fn space_factor(role: Role) -> (r: i32)
    ensures
        r == space_weight(role),
{
    match role {
        Role::Pawn => 10,
        Role::Knight => 20,
        Role::Bishop => 20,
        Role::Rook => 10,
        Role::Queen => 10,
        Role::King => 0,
    }
}

/// Counts the space that White and Black control, in this order.
pub fn space_control(pos: &Chess) -> (r: (i32, i32))
    ensures
        r.0 == space_of(situation_of(*pos).board, Color::White),
        r.1 == space_of(situation_of(*pos).board, Color::Black),
        0 <= r.0 <= 81920,
        0 <= r.1 <= 81920,
{
    let ghost board = situation_of(*pos).board;
    let mut white: i32 = 0;
    let mut black: i32 = 0;
    let mut square: u8 = 0;
    while square < 64
        invariant
            square <= 64,
            board == situation_of(*pos).board,
            white == sum_to(square as int, |sq: int| space_at(board, sq as u8, Color::White)),
            black == sum_to(square as int, |sq: int| space_at(board, sq as u8, Color::Black)),
            0 <= white <= 1280 * square,
            0 <= black <= 1280 * square,
        decreases 64 - square,
    {
        if let Some(piece) = piece_at(pos, square) {
            let attacks = attacks_from(pos, square);
            match piece.color {
                Color::White => {
                    white += count_bits(attacks & UPPER_HALF) as i32 * space_factor(piece.role);
                },
                Color::Black => {
                    black += count_bits(attacks & LOWER_HALF) as i32 * space_factor(piece.role);
                },
            }
        }
        square += 1;
    }
    (white, black)
}

/// What a piece adds to the control of the center by standing on one of its
/// squares. A king adds nothing.
pub open spec fn center_bonus(role: Role) -> int {
    match role {
        Role::Pawn => 40,
        Role::Knight => 30,
        Role::Bishop => 25,
        Role::Rook => 20,
        Role::Queen => 15,
        Role::King => 0,
    }
}

/// What a piece adds to the control of the center for each of its squares
/// that it attacks. A king adds nothing.
pub open spec fn center_weight(role: Role) -> int {
    match role {
        Role::Pawn => 15,
        Role::Knight => 20,
        Role::Bishop => 20,
        Role::Rook => 15,
        Role::Queen => 10,
        Role::King => 0,
    }
}

/// The control of the center that the piece on `square` adds to `color`.
pub open spec fn center_at(board: Map<u8, Piece>, square: u8, color: Color) -> int {
    match piece_on(board, square) {
        Some(p) => if p.color == color {
            crate::utils::bit(CENTER, square as int) * center_bonus(p.role) + bit_count(
                attacks_in(board, square) & CENTER,
            ) * center_weight(p.role)
        } else {
            0
        },
        None => 0,
    }
}

/// The control of the center by the pieces of `color`.
pub open spec fn center_of(board: Map<u8, Piece>, color: Color) -> int {
    sum_to(64, |sq: int| center_at(board, sq as u8, color))
}

/// The bonus of a role for standing in the center.
fn center_stand(role: Role) -> (r: i32)
    ensures
        r == center_bonus(role),
{
    match role {
        Role::Pawn => 40,
        Role::Knight => 30,
        Role::Bishop => 25,
        Role::Rook => 20,
        Role::Queen => 15,
        Role::King => 0,
    }
}

/// The weight of a role for attacking the center.
fn center_factor(role: Role) -> (r: i32)
    ensures
        r == center_weight(role),
{
    match role {
        Role::Pawn => 15,
        Role::Knight => 20,
        Role::Bishop => 20,
        Role::Rook => 15,
        Role::Queen => 10,
        Role::King => 0,
    }
}

/// Counts the control of the center by White and by Black, in this order.
pub fn center_control(pos: &Chess) -> (r: (i32, i32))
    ensures
        r.0 == center_of(situation_of(*pos).board, Color::White),
        r.1 == center_of(situation_of(*pos).board, Color::Black),
        0 <= r.0 <= 84480,
        0 <= r.1 <= 84480,
{
    let ghost board = situation_of(*pos).board;
    let mut white: i32 = 0;
    let mut black: i32 = 0;
    let mut square: u8 = 0;
    while square < 64
        invariant
            square <= 64,
            board == situation_of(*pos).board,
            white == sum_to(square as int, |sq: int| center_at(board, sq as u8, Color::White)),
            black == sum_to(square as int, |sq: int| center_at(board, sq as u8, Color::Black)),
            0 <= white <= 1320 * square,
            0 <= black <= 1320 * square,
        decreases 64 - square,
    {
        if let Some(piece) = piece_at(pos, square) {
            let mut control: i32 = count_bits(attacks_from(pos, square) & CENTER) as i32
                * center_factor(piece.role);
            if (CENTER >> (square as u64)) & 1u64 == 1u64 {
                control += center_stand(piece.role);
            }
            match piece.color {
                Color::White => {
                    white += control;
                },
                Color::Black => {
                    black += control;
                },
            }
        }
        square += 1;
    }
    (white, black)
}

/// How much an exposed king weighs: 50 on the files d and e, 20 elsewhere.
pub open spec fn king_weight(square: u8) -> i16 {
    if square % 8 == 3 || square % 8 == 4 {
        50
    } else {
        20
    }
}

/// The weight of the safety of a king that stands on `square`.
pub fn king_file_weight(square: u8) -> (r: i16)
    ensures
        r == king_weight(square),
{
    let file = square % 8;
    if file == 3 || file == 4 {
        50
    } else {
        20
    }
}

/// Whether `blend` can blend the two worths of a piece by the phase of the
/// game: it accepts every pair of worths and every number of phase units.
pub open spec fn is_blender<B: Fn(i16, i16, u32) -> i16>(blend: &B) -> bool {
    forall|mg: i16, eg: i16, units: u32| call_requires(blend, (mg, eg, units))
}

/// Whether `scale` can scale a count by the phase of the game: it accepts
/// every count and every number of phase units, and what it returns is no
/// further from zero than the count.
pub open spec fn is_scaler<S: Fn(i32, u32) -> i16>(scale: &S) -> bool {
    &&& forall|count: i32, units: u32| call_requires(scale, (count, units))
    &&& forall|count: i32, units: u32, scaled: i16| #[trigger]
        call_ensures(scale, (count, units), scaled) ==> -count <= scaled <= count || count
            <= scaled <= -count
}

/// Whether a score is a centipawn value.
pub open spec fn is_in_centipawns(score: Score) -> bool {
    score is Centipawn
}

/// What the pieces from `square` on add to the `sum` of the squares before.
///
/// A piece adds its material value and the blend of its two worths on its
/// square, for White, and takes them away for Black.
pub open spec fn is_piece_sum<B: Fn(i16, i16, u32) -> i16>(
    blend: &B,
    board: Map<u8, Piece>,
    units: u32,
    square: int,
    sum: Score,
    r: Score,
) -> bool
    decreases 64 - square,
{
    if square < 0 || square >= 64 {
        r == sum
    } else {
        match piece_on(board, square as u8) {
            None => is_piece_sum(blend, board, units, square + 1, sum, r),
            Some(piece) => exists|bonus: i16| #[trigger]
                call_ensures(
                    blend,
                    (piece_square(piece, square as u8).0, piece_square(piece, square as u8).1, units),
                    bonus,
                ) && is_piece_sum(
                    blend,
                    board,
                    units,
                    square + 1,
                    sum.plus(
                        Score::Centipawn(piece_value(piece.role)).plus(
                            Score::Centipawn(bonus),
                        ).seen_by(piece.color),
                    ),
                    r,
                ),
        }
    }
}

/// What the safety of the king of `color` adds for White: the weight of its
/// file, scaled by the phase, against its owner. A side without its one king
/// adds nothing.
pub open spec fn is_king_term<S: Fn(i32, u32) -> i16>(
    scale: &S,
    board: Map<u8, Piece>,
    color: Color,
    units: u32,
    r: i16,
) -> bool {
    match king_in(board, color) {
        Some(square) => exists|penalty: i16| #[trigger]
            call_ensures(scale, (king_weight(square) as i32, units), penalty) && r == if color
                == Color::White {
                -penalty
            } else {
                penalty as int
            },
        None => r == 0,
    }
}

/// What the static evaluation owes for `pos`, as White sees it.
///
/// A finished game has the score of its outcome. Else the terms are added
/// up one after the other: the pieces, the pawn structure, the mobility,
/// the safety of the two kings, the balance of space and of the center, both
/// scaled by the phase, and the tempo of the side to move.
pub open spec fn is_static_score<B: Fn(i16, i16, u32) -> i16, S: Fn(i32, u32) -> i16>(
    blend: &B,
    scale: &S,
    pos: Chess,
    r: Score,
) -> bool {
    let situation = situation_of(pos);
    let board = situation.board;
    let units = phase_of(board) as u32;
    match outcome_in(situation) {
        Some(outcome) => r == outcome_score(outcome),
        None => exists|pieces: Score, white_king: i16, black_king: i16, space: i16, center: i16|
            #![trigger
                is_in_centipawns(pieces),
                is_king_term(scale, board, Color::White, units, white_king),
                is_king_term(scale, board, Color::Black, units, black_king),
                call_ensures(scale, ((space_of(board, Color::White) - space_of(board, Color::Black)) as i32, units), space),
                call_ensures(scale, ((center_of(board, Color::White) - center_of(board, Color::Black)) as i32, units), center),
            ]
            {
                &&& is_in_centipawns(pieces)
                &&& is_piece_sum(blend, board, units, 0, Score::Centipawn(0), pieces)
                &&& is_king_term(scale, board, Color::White, units, white_king)
                &&& is_king_term(scale, board, Color::Black, units, black_king)
                &&& call_ensures(
                    scale,
                    ((space_of(board, Color::White) - space_of(board, Color::Black)) as i32, units),
                    space,
                )
                &&& call_ensures(
                    scale,
                    ((center_of(board, Color::White) - center_of(board, Color::Black)) as i32, units),
                    center,
                )
                &&& r == pieces.plus(Score::Centipawn(pawn_structure_of(board) as i16)).plus(
                    Score::Centipawn(
                        (mobility_of(board, Color::White) - mobility_of(board, Color::Black)) as i16,
                    ),
                ).plus(Score::Centipawn((white_king + black_king) as i16)).plus(
                    Score::Centipawn(space),
                ).plus(Score::Centipawn(center)).plus(
                    Score::Centipawn(TEMPO).seen_by(situation.turn),
                )
            },
    }
}

/// Scores the safety of the king of `color` for White.
fn king_safety_term<S: Fn(i32, u32) -> i16>(pos: &Chess, color: Color, units: u32, scale: &S) -> (r:
    i16)
    requires
        is_scaler(scale),
    ensures
        is_king_term(scale, situation_of(*pos).board, color, units, r),
        -50 <= r <= 50,
{
    match king_of(pos, color) {
        Some(square) => {
            let penalty = scale(king_file_weight(square) as i32, units);
            match color {
                Color::White => -penalty,
                Color::Black => penalty,
            }
        },
        None => 0,
    }
}

/// Scores the safety of both kings for White.
pub fn evaluate_king_safety<S: Fn(i32, u32) -> i16>(pos: &Chess, units: u32, scale: &S) -> (r: Score)
    requires
        is_scaler(scale),
    ensures
        exists|white_king: i16, black_king: i16|
            #![trigger
                is_king_term(scale, situation_of(*pos).board, Color::White, units, white_king),
                is_king_term(scale, situation_of(*pos).board, Color::Black, units, black_king),
            ]
            {
                &&& is_king_term(scale, situation_of(*pos).board, Color::White, units, white_king)
                &&& is_king_term(scale, situation_of(*pos).board, Color::Black, units, black_king)
                &&& r == Score::Centipawn((white_king + black_king) as i16)
            },
{
    let white_king = king_safety_term(pos, Color::White, units, scale);
    let black_king = king_safety_term(pos, Color::Black, units, scale);
    Score::Centipawn(white_king + black_king)
}

/// Scores a position as White sees it.
///
/// What is weighed by the phase of the game is weighed by the two functions
/// that are handed in: `blend` blends the middle-game and the end-game worth
/// of a piece, and `scale` scales a count.
pub fn calculate_score<B: Fn(i16, i16, u32) -> i16, S: Fn(i32, u32) -> i16>(
    pos: &Chess,
    blend: &B,
    scale: &S,
) -> (r: Score)
    requires
        is_blender(blend),
        is_scaler(scale),
    ensures
        is_static_score(blend, scale, *pos, r),
{
    if let Some(end) = outcome(pos) {
        return score_of_outcome(end);
    }
    let ghost board = situation_of(*pos).board;
    let units = phase_units(pos);
    let mut pieces = Score::zero();
    let mut square: u8 = 0;
    while square < 64
        invariant
            square <= 64,
            is_blender(blend),
            board == situation_of(*pos).board,
            is_in_centipawns(pieces),
            forall|r: Score| #[trigger]
                is_piece_sum(blend, board, units, square as int, pieces, r) ==> is_piece_sum(
                    blend, board, units, 0, Score::Centipawn(0), r,
                ),
        decreases 64 - square,
    {
        let ghost before = pieces;
        if let Some(piece) = piece_at(pos, square) {
            let worth = piece_square_values(piece, square);
            let bonus = blend(worth.0, worth.1, units);
            let term = get_piece_value(piece.role) + Score::Centipawn(bonus);
            pieces = pieces + term.apply_color_factor(piece.color);
        }
        assert forall|r: Score| #[trigger]
            is_piece_sum(blend, board, units, square + 1, pieces, r) implies is_piece_sum(
            blend, board, units, 0, Score::Centipawn(0), r,
        ) by {
            assert(is_piece_sum(blend, board, units, square as int, before, r));
        }
        square += 1;
    }
    assert(is_piece_sum(blend, board, units, 64, pieces, pieces));
    let pawns = evaluate_pawn_structure(pos);
    let mobility = evaluate_mobility(pos);
    let white_king = king_safety_term(pos, Color::White, units, scale);
    let black_king = king_safety_term(pos, Color::Black, units, scale);
    let room = space_control(pos);
    let space = scale(room.0 - room.1, units);
    let middle = center_control(pos);
    let center = scale(middle.0 - middle.1, units);
    let tempo = Score::Centipawn(TEMPO).apply_color_factor(turn(pos));
    pieces + pawns + mobility + Score::Centipawn(white_king + black_king) + Score::Centipawn(space)
        + Score::Centipawn(center) + tempo
}

} // verus!
