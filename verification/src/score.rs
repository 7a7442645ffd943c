//! Evaluation scores: centipawn values and mate distances under one order.
//!
//! A [`Score`] is either a centipawn evaluation or a forced mate counted in
//! plies. The centipawn values `i16::MIN` and `i16::MAX` are not evaluations:
//! they stand for the open lower and upper bound of a search window.

use crate::text::{decimal, decimal_text};
use crate::types::Color;
use crate::utils::{sign_of, signum};
use std::cmp::Ordering;
use std::ops::{Add, Div, Mul, Neg, Sub};
use vstd::prelude::*;
use vstd::std_specs::cmp::PartialOrdSpecImpl;
use vstd::std_specs::ops::{AddSpecImpl, DivSpecImpl, MulSpecImpl, NegSpecImpl, SubSpecImpl};
use vstd::string::*;

verus! {

/// A search score: a centipawn evaluation, or a forced mate in a number of
/// plies whose sign tells the winner (positive: the side to move).
#[derive(Debug, Clone, Copy, PartialEq, Eq, Structural)]
pub enum Score {
    Centipawn(i16),
    Mate(i8),
}

/// The 16-bit value nearest to `v`.
pub open spec fn saturate(v: int) -> i16 {
    if v > i16::MAX {
        i16::MAX
    } else if v < i16::MIN {
        i16::MIN
    } else {
        v as i16
    }
}

/// The quotient of `a` by `b`, rounded toward zero.
pub open spec fn quotient(a: int, b: int) -> int {
    if a >= 0 && b > 0 {
        a / b
    } else if a < 0 && b > 0 {
        -((-a) / b)
    } else if a >= 0 && b < 0 {
        -(a / (-b))
    } else {
        (-a) / (-b)
    }
}

/// Divides two 32-bit integers, rounding toward zero.
fn divide(a: i32, b: i32) -> (r: i32)
    requires
        b != 0,
        i32::MIN < a,
        i32::MIN < b,
    ensures
        r == quotient(a as int, b as int),
{
    if a >= 0 && b > 0 {
        a / b
    } else if a < 0 && b > 0 {
        -((-a) / b)
    } else if a >= 0 {
        -(a / (-b))
    } else {
        (-a) / (-b)
    }
}

impl Score {
    /// The open upper window bound, above every evaluation.
    #[verifier::allow_in_spec]
    pub fn upper_bound() -> Score
        returns
            Score::Centipawn(i16::MAX),
    {
        Score::Centipawn(i16::MAX)
    }

    /// The open lower window bound, below every evaluation.
    #[verifier::allow_in_spec]
    pub fn lower_bound() -> Score
        returns
            Score::Centipawn(i16::MIN),
    {
        Score::Centipawn(i16::MIN)
    }

    /// The score of a level position.
    #[verifier::allow_in_spec]
    pub fn zero() -> Score
        returns
            Score::Centipawn(0),
    {
        Score::Centipawn(0)
    }

    /// Whether `self` ranks strictly below `other`.
    ///
    /// The lower bound is the least score and the upper bound the greatest.
    /// Between them a losing mate ranks below every centipawn value and a
    /// winning mate above. Two mates for the same side rank against their
    /// plies: the faster win and the slower loss are the better ones.
    pub open spec fn ranks_below(self, other: Score) -> bool {
        match (self, other) {
            (Score::Mate(a), Score::Mate(b)) => {
                if a < 0 && b > 0 {
                    true
                } else if a > 0 && b < 0 {
                    false
                } else {
                    b < a
                }
            },
            (Score::Centipawn(a), Score::Centipawn(b)) => a < b,
            (Score::Mate(a), Score::Centipawn(b)) => b != i16::MIN && (b == i16::MAX || a < 0),
            (Score::Centipawn(a), Score::Mate(b)) => a != i16::MAX && (a == i16::MIN || b >= 0),
        }
    }

    /// The place of a score on a line of integers. The order of scores is the
    /// order of their places, except where `Mate(0)` is compared.
    pub open spec fn place(self) -> int {
        match self {
            Score::Centipawn(v) => if v == i16::MIN {
                -40000
            } else if v == i16::MAX {
                40000
            } else {
                v as int
            },
            Score::Mate(n) => if n < 0 {
                -33000 - n
            } else {
                33000 - n
            },
        }
    }

    /// Whether the sign of the score can be flipped within its integer type.
    pub open spec fn negatable(self) -> bool {
        match self {
            Score::Centipawn(v) => v != i16::MIN,
            Score::Mate(n) => n != i8::MIN,
        }
    }

    /// The score with its sign flipped: the same result seen by the opponent.
    pub open spec fn negated(self) -> Score {
        match self {
            Score::Centipawn(v) => Score::Centipawn((-v) as i16),
            Score::Mate(n) => Score::Mate((-n) as i8),
        }
    }

    /// Whether the sum of two scores fits: only two mates can overflow.
    pub open spec fn can_add(self, rhs: Score) -> bool {
        match (self, rhs) {
            (Score::Mate(a), Score::Mate(b)) => i8::MIN <= a + b <= i8::MAX,
            _ => true,
        }
    }

    /// The sum of two scores. Centipawns add up and stay within 16 bits, mate
    /// plies add up, and a mate absorbs a centipawn value.
    pub open spec fn plus(self, rhs: Score) -> Score {
        match (self, rhs) {
            (Score::Mate(a), Score::Mate(b)) => Score::Mate((a + b) as i8),
            (Score::Mate(_), _) => self,
            (_, Score::Mate(_)) => rhs,
            (Score::Centipawn(a), Score::Centipawn(b)) => Score::Centipawn(saturate(a + b)),
        }
    }

    /// Whether `rhs`, cut to the width of the score's integer, can be added.
    pub open spec fn can_shift(self, rhs: isize) -> bool {
        match self {
            Score::Centipawn(v) => i16::MIN <= v + (rhs as i16) <= i16::MAX,
            Score::Mate(n) => i8::MIN <= n + (rhs as i8) <= i8::MAX,
        }
    }

    /// The score moved by `rhs` centipawns or plies.
    pub open spec fn shifted(self, rhs: isize) -> Score {
        match self {
            Score::Centipawn(v) => Score::Centipawn((v + (rhs as i16)) as i16),
            Score::Mate(n) => Score::Mate((n + (rhs as i8)) as i8),
        }
    }

    /// Whether the product with `rhs` fits. A mate is multiplied by `rhs` cut
    /// to 8 bits.
    pub open spec fn can_scale(self, rhs: i16) -> bool {
        match self {
            Score::Centipawn(v) => i16::MIN <= v * rhs <= i16::MAX,
            Score::Mate(n) => i8::MIN <= n * (rhs as i8) <= i8::MAX,
        }
    }

    /// The centipawn value or the ply count multiplied by `rhs`.
    pub open spec fn scaled(self, rhs: i16) -> Score {
        match self {
            Score::Centipawn(v) => Score::Centipawn((v * rhs) as i16),
            Score::Mate(n) => Score::Mate((n * (rhs as i8)) as i8),
        }
    }

    /// Whether the quotient by `rhs` exists and fits. A mate is divided by
    /// `rhs` cut to 8 bits.
    pub open spec fn can_divide(self, rhs: i16) -> bool {
        match self {
            Score::Centipawn(v) => rhs != 0 && !(v == i16::MIN && rhs == -1),
            Score::Mate(n) => (rhs as i8) != 0 && !(n == i8::MIN && (rhs as i8) == -1),
        }
    }

    /// The centipawn value or the ply count divided by `rhs`, rounded toward
    /// zero.
    pub open spec fn divided(self, rhs: i16) -> Score {
        match self {
            Score::Centipawn(v) => Score::Centipawn(quotient(v as int, rhs as int) as i16),
            Score::Mate(n) => Score::Mate(quotient(n as int, (rhs as i8) as int) as i8),
        }
    }

    /// The score as `color` sees it, given the score as White sees it.
    pub open spec fn seen_by(self, color: Color) -> Score {
        if color == Color::Black {
            self.negated()
        } else {
            self
        }
    }

    /// A mate one ply further from the board: the distance grows by one and
    /// the sign stays. A distance of 127 plies or more, `Mate(0)` and
    /// centipawn values stay as they are.
    pub open spec fn one_ply_further(self) -> Score {
        match self {
            Score::Mate(n) => if 0 < n < i8::MAX {
                Score::Mate((n + 1) as i8)
            } else if -i8::MAX < n < 0 {
                Score::Mate((n - 1) as i8)
            } else {
                self
            },
            Score::Centipawn(_) => self,
        }
    }

    /// The number of full moves reported for a mate in `plies` plies.
    pub open spec fn mate_moves(plies: i8) -> int {
        quotient(plies - sign_of(plies as int), 2)
    }

    /// The text of the score in the engine protocol.
    pub open spec fn text(self) -> Seq<char> {
        match self {
            Score::Centipawn(v) => if v == i16::MAX {
                "score upperbound"@
            } else if v == i16::MIN {
                "score lowerbound"@
            } else {
                "score cp "@ + decimal(v as int)
            },
            Score::Mate(n) => "score mate "@ + decimal(Score::mate_moves(n)),
        }
    }

    /// Turns a score seen by White into the score seen by `color`.
    pub fn apply_color_factor(self, color: Color) -> (r: Score)
        requires
            color == Color::Black ==> self.negatable(),
        ensures
            r == self.seen_by(color),
    {
        match color {
            Color::Black => self.neg(),
            Color::White => self,
        }
    }

    /// Whether the score is the open lower bound.
    pub fn is_min(&self) -> (r: bool)
        ensures
            r == (*self == Score::Centipawn(i16::MIN)),
    {
        match self {
            Score::Centipawn(v) => *v == i16::MIN,
            Score::Mate(_) => false,
        }
    }

    /// Whether the score is the open upper bound.
    pub fn is_max(&self) -> (r: bool)
        ensures
            r == (*self == Score::Centipawn(i16::MAX)),
    {
        match self {
            Score::Centipawn(v) => *v == i16::MAX,
            Score::Mate(_) => false,
        }
    }

    /// Whether the centipawn value or the ply count is below zero.
    pub fn is_negative(&self) -> (r: bool)
        ensures
            r == match *self {
                Score::Centipawn(v) => v < 0,
                Score::Mate(n) => n < 0,
            },
    {
        match self {
            Score::Centipawn(v) => *v < 0,
            Score::Mate(n) => *n < 0,
        }
    }

    /// Moves a mate one ply away from the board, as it is handed up to the
    /// parent position.
    pub fn increment_mate_depth(self) -> (r: Score)
        ensures
            r == self.one_ply_further(),
    {
        match self {
            Score::Mate(n) => if 0 < n && n < i8::MAX {
                Score::Mate(n + 1)
            } else if -i8::MAX < n && n < 0 {
                Score::Mate(n - 1)
            } else {
                self
            },
            Score::Centipawn(_) => self,
        }
    }

    /// Adds `rhs` to the score in place.
    pub fn add_assign(&mut self, rhs: Score)
        requires
            old(self).can_add(rhs),
        ensures
            *final(self) == old(self).plus(rhs),
    {
        *self = (*self).add(rhs);
    }

    /// The text of the score in the engine protocol: the centipawn value, the
    /// mate distance in full moves, or the name of the open bound.
    pub fn to_text(&self) -> (r: String)
        ensures
            r@ == self.text(),
    {
        match *self {
            Score::Centipawn(v) => {
                if v == i16::MAX {
                    String::from_str("score upperbound")
                } else if v == i16::MIN {
                    String::from_str("score lowerbound")
                } else {
                    let mut out = String::from_str("score cp ");
                    let digits = decimal_text(v as i32);
                    out.append(digits.as_str());
                    out
                }
            },
            Score::Mate(n) => {
                let moves = divide(n as i32 - signum(n as isize) as i32, 2);
                let mut out = String::from_str("score mate ");
                let digits = decimal_text(moves);
                out.append(digits.as_str());
                out
            },
        }
    }
}

impl PartialOrd for Score {
    fn partial_cmp(&self, other: &Score) -> (r: Option<Ordering>) {
        let below = match (*self, *other) {
            (Score::Mate(a), Score::Mate(b)) => {
                if a < 0 && b > 0 {
                    true
                } else if a > 0 && b < 0 {
                    false
                } else {
                    b < a
                }
            },
            (Score::Centipawn(a), Score::Centipawn(b)) => a < b,
            (Score::Mate(a), Score::Centipawn(b)) => b != i16::MIN && (b == i16::MAX || a < 0),
            (Score::Centipawn(a), Score::Mate(b)) => a != i16::MAX && (a == i16::MIN || b >= 0),
        };
        if below {
            Some(Ordering::Less)
        } else if *self == *other {
            Some(Ordering::Equal)
        } else {
            Some(Ordering::Greater)
        }
    }
}

impl PartialOrdSpecImpl for Score {
    open spec fn obeys_partial_cmp_spec() -> bool {
        true
    }

    open spec fn partial_cmp_spec(&self, other: &Score) -> Option<Ordering> {
        if self.ranks_below(*other) {
            Some(Ordering::Less)
        } else if *self == *other {
            Some(Ordering::Equal)
        } else {
            Some(Ordering::Greater)
        }
    }
}

impl Neg for Score {
    type Output = Score;

    fn neg(self) -> (r: Score) {
        match self {
            Score::Centipawn(v) => Score::Centipawn(-v),
            Score::Mate(n) => Score::Mate(-n),
        }
    }
}

impl NegSpecImpl for Score {
    open spec fn obeys_neg_spec() -> bool {
        true
    }

    open spec fn neg_req(self) -> bool {
        self.negatable()
    }

    open spec fn neg_spec(self) -> Score {
        self.negated()
    }
}

impl Add for Score {
    type Output = Score;

    fn add(self, rhs: Score) -> (r: Score) {
        match (self, rhs) {
            (Score::Mate(a), Score::Mate(b)) => Score::Mate(a + b),
            (Score::Mate(_), _) => self,
            (_, Score::Mate(_)) => rhs,
            (Score::Centipawn(a), Score::Centipawn(b)) => {
                let sum: i32 = a as i32 + b as i32;
                if sum > i16::MAX as i32 {
                    Score::Centipawn(i16::MAX)
                } else if sum < i16::MIN as i32 {
                    Score::Centipawn(i16::MIN)
                } else {
                    Score::Centipawn(sum as i16)
                }
            },
        }
    }
}

impl AddSpecImpl for Score {
    open spec fn obeys_add_spec() -> bool {
        true
    }

    open spec fn add_req(self, rhs: Score) -> bool {
        self.can_add(rhs)
    }

    open spec fn add_spec(self, rhs: Score) -> Score {
        self.plus(rhs)
    }
}

impl Add<isize> for Score {
    type Output = Score;

    fn add(self, rhs: isize) -> (r: Score) {
        match self {
            Score::Centipawn(v) => Score::Centipawn(v + rhs as i16),
            Score::Mate(n) => Score::Mate(n + rhs as i8),
        }
    }
}

impl AddSpecImpl<isize> for Score {
    open spec fn obeys_add_spec() -> bool {
        true
    }

    open spec fn add_req(self, rhs: isize) -> bool {
        self.can_shift(rhs)
    }

    open spec fn add_spec(self, rhs: isize) -> Score {
        self.shifted(rhs)
    }
}

impl Sub for Score {
    type Output = Score;

    fn sub(self, rhs: Score) -> (r: Score) {
        self.add(rhs.neg())
    }
}

impl SubSpecImpl for Score {
    open spec fn obeys_sub_spec() -> bool {
        true
    }

    open spec fn sub_req(self, rhs: Score) -> bool {
        rhs.negatable() && self.can_add(rhs.negated())
    }

    open spec fn sub_spec(self, rhs: Score) -> Score {
        self.plus(rhs.negated())
    }
}

impl Sub<isize> for Score {
    type Output = Score;

    fn sub(self, rhs: isize) -> (r: Score) {
        self.add(-rhs)
    }
}

impl SubSpecImpl<isize> for Score {
    open spec fn obeys_sub_spec() -> bool {
        true
    }

    open spec fn sub_req(self, rhs: isize) -> bool {
        rhs != isize::MIN && self.can_shift((-rhs) as isize)
    }

    open spec fn sub_spec(self, rhs: isize) -> Score {
        self.shifted((-rhs) as isize)
    }
}

impl Mul<i16> for Score {
    type Output = Score;

    fn mul(self, rhs: i16) -> (r: Score) {
        match self {
            Score::Centipawn(v) => Score::Centipawn(v * rhs),
            Score::Mate(n) => Score::Mate(n * (rhs as i8)),
        }
    }
}

impl MulSpecImpl<i16> for Score {
    open spec fn obeys_mul_spec() -> bool {
        true
    }

    open spec fn mul_req(self, rhs: i16) -> bool {
        self.can_scale(rhs)
    }

    open spec fn mul_spec(self, rhs: i16) -> Score {
        self.scaled(rhs)
    }
}

impl Div<i16> for Score {
    type Output = Score;

    fn div(self, rhs: i16) -> (r: Score) {
        match self {
            Score::Centipawn(v) => Score::Centipawn(divide(v as i32, rhs as i32) as i16),
            Score::Mate(n) => Score::Mate(divide(n as i32, (rhs as i8) as i32) as i8),
        }
    }
}

impl DivSpecImpl<i16> for Score {
    open spec fn obeys_div_spec() -> bool {
        true
    }

    open spec fn div_req(self, rhs: i16) -> bool {
        self.can_divide(rhs)
    }

    open spec fn div_spec(self, rhs: i16) -> Score {
        self.divided(rhs)
    }
}

/// Whether negating both scores fails to reverse their order: a centipawn
/// value against `Mate(0)`, or the value next to an open bound against a mate
/// of its own sign.
pub open spec fn mirror_exception(a: Score, b: Score) -> bool {
    match (a, b) {
        (Score::Centipawn(v), Score::Mate(n)) | (Score::Mate(n), Score::Centipawn(v)) => {
            ||| n == 0 && -i16::MAX < v < i16::MAX
            ||| n > 0 && v == i16::MAX
            ||| n < 0 && v == -i16::MAX
        },
        _ => false,
    }
}

/// No score ranks below itself, and of two different scores exactly one
/// ranks below the other.
pub proof fn order_is_strict_and_total(a: Score, b: Score)
    ensures
        !a.ranks_below(a),
        !(a.ranks_below(b) && b.ranks_below(a)),
        a != b ==> a.ranks_below(b) || b.ranks_below(a),
{
}

/// Among scores other than `Mate(0)`, one ranks below another exactly when
/// its place on the integer line is the smaller one.
pub proof fn order_follows_place(a: Score, b: Score)
    requires
        a != Score::Mate(0),
        b != Score::Mate(0),
    ensures
        a.ranks_below(b) <==> a.place() < b.place(),
        a == b <==> a.place() == b.place(),
{
}

/// The order is transitive among scores other than `Mate(0)`.
pub proof fn order_is_transitive(a: Score, b: Score, c: Score)
    requires
        a != Score::Mate(0),
        b != Score::Mate(0),
        c != Score::Mate(0),
        a.ranks_below(b),
        b.ranks_below(c),
    ensures
        a.ranks_below(c),
{
}

/// Negating two scores reverses their order, and does so for exactly the
/// pairs that are no exception.
pub proof fn negation_reverses_order(a: Score, b: Score)
    requires
        a.negatable(),
        b.negatable(),
    ensures
        !mirror_exception(a, b) <==> (a.ranks_below(b) <==> b.negated().ranks_below(a.negated())),
{
}

/// Of two winning mates the one in fewer plies ranks higher, and of two
/// losing mates the one in fewer plies ranks lower.
pub proof fn mates_rank_by_distance(a: i8, b: i8)
    ensures
        0 < a < b ==> Score::Mate(b).ranks_below(Score::Mate(a)),
        b < a < 0 ==> Score::Mate(a).ranks_below(Score::Mate(b)),
{
}

/// Every winning mate ranks above every centipawn value, and every centipawn
/// value above every losing mate, but for the two open bounds, which rank
/// below and above all other scores.
pub proof fn mates_bracket_centipawns(mate: i8, value: i16, other: Score)
    ensures
        mate > 0 && value != i16::MAX ==> Score::Centipawn(value).ranks_below(Score::Mate(mate)),
        mate < 0 && value != i16::MIN ==> Score::Mate(mate).ranks_below(Score::Centipawn(value)),
        other != Score::lower_bound() ==> Score::lower_bound().ranks_below(other),
        other != Score::upper_bound() ==> other.ranks_below(Score::upper_bound()),
{
}

/// Two centipawn values can always be added: the sum is exact where it fits
/// in 16 bits and is the nearest bound where it does not.
pub proof fn centipawn_sum_saturates(a: i16, b: i16)
    ensures
        Score::Centipawn(a).can_add(Score::Centipawn(b)),
        Score::Centipawn(a).plus(Score::Centipawn(b)) == Score::Centipawn(saturate(a + b)),
        i16::MIN <= a + b <= i16::MAX ==> saturate(a + b) == a + b,
        a + b > i16::MAX ==> saturate(a + b) == i16::MAX,
        a + b < i16::MIN ==> saturate(a + b) == i16::MIN,
        Score::upper_bound().plus(Score::upper_bound()) == Score::upper_bound(),
{
}

} // verus!
