//! The quiescence search: below the horizon of the main search only
//! captures are tried, or every move while in check, until the position is
//! quiet enough for the static evaluation.
//!
//! Scores are relative to the side to move. The static evaluation is handed
//! in as a function that scores a position as White sees it.

use crate::evaluation::{outcome_score, score_of_outcome};
use crate::ordering::{is_quiescence_order, quiescence_order};
use crate::rules::{
    check_in, is_check, legal_moves_in, outcome, outcome_in, situation_after, situation_of, turn,
    MoveList,
};
use crate::score::Score;
use crate::types::{Color, Outcome};
use shakmaty::Chess;
use std::ops::Neg;
use vstd::prelude::*;

verus! {

/// The number of plies that the quiescence search goes below the horizon of
/// the main search before it settles for the standing score.
pub const QUIESCENCE_PLIES: u8 = 100;

/// Whether `eval` can stand in for the static evaluation: it accepts every
/// position, and no score that it returns is the open lower bound or a mate
/// whose sign cannot be flipped.
pub open spec fn is_evaluator<E: Fn(&Chess) -> Score>(eval: &E) -> bool {
    &&& forall|pos: &Chess| call_requires(eval, (pos,))
    &&& forall|pos: &Chess, white: Score| #[trigger]
        call_ensures(eval, (pos,), white) ==> white.negatable()
}

/// The score of a finished game for the side to move.
pub open spec fn terminal_score(outcome: Outcome, turn: Color) -> Score {
    outcome_score(outcome).seen_by(turn)
}

/// The greater of the lower window bound and the standing score.
pub open spec fn raised(alpha: Score, stand_pat: Score) -> Score {
    if stand_pat.ranks_below(alpha) {
        alpha
    } else {
        stand_pat
    }
}

/// The standing score held to the window: the upper bound where the score
/// reaches it, else the score itself or the lower bound, whichever is
/// greater.
pub open spec fn stand_pat_bound(stand_pat: Score, alpha: Score, beta: Score) -> Score {
    if !stand_pat.ranks_below(beta) {
        beta
    } else {
        raised(alpha, stand_pat)
    }
}

/// What the quiescence search owes for the moves of `order` from place `at`
/// on, with `alpha` raised so far.
///
/// Each move is answered by a quiescence search of the position that it
/// leads to, in the window seen by the opponent and with one ply less. The
/// answer, negated, ends the search with `beta` where it reaches `beta`, and
/// raises `alpha` where it exceeds it. With no move left, or no ply, the
/// result is `alpha`.
pub open spec fn is_quiescence_scan<E: Fn(&Chess) -> Score>(
    eval: &E,
    pos: Chess,
    order: Seq<usize>,
    at: int,
    alpha: Score,
    beta: Score,
    plies: nat,
    r: Score,
) -> bool
    decreases plies, 0nat, order.len() - at,
{
    let situation = situation_of(pos);
    if at < 0 || at >= order.len() || plies == 0 {
        r == alpha
    } else {
        exists|next: Chess, reply: Score|
            #![trigger situation_of(next), reply.negatable()]
            {
                &&& situation_of(next) == situation_after(
                    situation,
                    legal_moves_in(situation)[order[at] as int],
                )
                &&& reply.negatable()
                &&& is_quiescence_result(
                    eval, next, beta.negated(), alpha.negated(), (plies - 1) as nat, reply,
                )
                &&& if !reply.negated().ranks_below(beta) {
                    r == beta
                } else {
                    is_quiescence_scan(
                        eval, pos, order, at + 1, raised(alpha, reply.negated()), beta, plies, r,
                    )
                }
            }
    }
}

/// What the quiescence search owes for `pos` in the window from `alpha` to
/// `beta` with `plies` plies to go.
///
/// A finished game has its terminal score. In check all moves are tried, in
/// the order of the quiescence search. Out of check the static evaluation,
/// seen by the side to move, is the standing score: at or above `beta` the
/// result is `beta`; else the standing score raises `alpha`, and the
/// candidate captures are tried in their order.
pub open spec fn is_quiescence_result<E: Fn(&Chess) -> Score>(
    eval: &E,
    pos: Chess,
    alpha: Score,
    beta: Score,
    plies: nat,
    r: Score,
) -> bool
    decreases plies, 1nat, 0nat,
{
    let situation = situation_of(pos);
    let moves = legal_moves_in(situation);
    match outcome_in(situation) {
        Some(outcome) => r == terminal_score(outcome, situation.turn),
        None => if check_in(situation) {
            exists|order: Seq<usize>|
                {
                    &&& #[trigger] is_quiescence_order(order, moves, true, Score::lower_bound(), alpha)
                    &&& is_quiescence_scan(eval, pos, order, 0, alpha, beta, plies, r)
                }
        } else {
            exists|white: Score|
                {
                    &&& #[trigger] call_ensures(eval, (&pos,), white)
                    &&& if !white.seen_by(situation.turn).ranks_below(beta) {
                        r == beta
                    } else {
                        let stand_pat = white.seen_by(situation.turn);
                        let floor = raised(alpha, stand_pat);
                        exists|order: Seq<usize>|
                            {
                                &&& #[trigger] is_quiescence_order(order, moves, false, stand_pat, floor)
                                &&& is_quiescence_scan(eval, pos, order, 0, floor, beta, plies, r)
                            }
                    }
                }
        },
    }
}

/// The score of a finished game for the side to move.
pub fn score_at_end(outcome: Outcome, turn: Color) -> (r: Score)
    ensures
        r == terminal_score(outcome, turn),
        r.negatable(),
{
    score_of_outcome(outcome).apply_color_factor(turn)
}

/// Searches the captures of a position, or all moves while in check, until
/// the position is quiet, and returns its score for the side to move within
/// the window from `alpha` to `beta`. The search goes at most `plies` plies
/// deep.
#[verifier::loop_isolation(false)]
pub fn quiescence_search<E: Fn(&Chess) -> Score>(
    pos: &Chess,
    alpha: Score,
    beta: Score,
    plies: u8,
    eval: &E,
) -> (r: Score)
    requires
        is_evaluator(eval),
        alpha.negatable(),
        beta.negatable(),
    ensures
        r.negatable(),
        is_quiescence_result(eval, *pos, alpha, beta, plies as nat, r),
    decreases plies,
{
    if let Some(end) = outcome(pos) {
        return score_at_end(end, turn(pos));
    }
    let in_check = is_check(pos);
    let mut alpha = alpha;
    let mut stand_pat = Score::lower_bound();
    if !in_check {
        let white = eval(pos);
        stand_pat = white.apply_color_factor(turn(pos));
        if stand_pat >= beta {
            return beta;
        }
        if !(alpha > stand_pat) {
            alpha = stand_pat;
        }
    }
    let moves = MoveList::generate(pos);
    let order = quiescence_order(&moves, in_check, stand_pat, alpha);
    let floor = alpha;
    let mut at: usize = 0;
    while at < order.len() && plies > 0
        invariant
            at <= order@.len(),
            alpha.negatable(),
            forall|r: Score| #[trigger]
                is_quiescence_scan(eval, *pos, order@, at as int, alpha, beta, plies as nat, r)
                    ==> is_quiescence_scan(eval, *pos, order@, 0, floor, beta, plies as nat, r),
        decreases order@.len() - at,
    {
        let next = moves.play(pos, order[at]);
        let reply = quiescence_search(&next, beta.neg(), alpha.neg(), plies - 1, eval);
        let score = reply.neg();
        let ghost lower = alpha;
        proof {
            assert(is_quiescence_result(
                eval, next, beta.negated(), lower.negated(), (plies as nat - 1) as nat, reply,
            ));
            assert(situation_of(next) == situation_after(
                situation_of(*pos),
                legal_moves_in(situation_of(*pos))[order@[at as int] as int],
            ));
        }
        if score >= beta {
            assert(is_quiescence_scan(eval, *pos, order@, at as int, lower, beta, plies as nat, beta));
            return beta;
        }
        if score > alpha {
            alpha = score;
        }
        assert(alpha == raised(lower, reply.negated()));
        assert forall|r: Score| #[trigger]
            is_quiescence_scan(
                eval, *pos, order@, at + 1, alpha, beta, plies as nat, r,
            ) implies is_quiescence_scan(eval, *pos, order@, 0, floor, beta, plies as nat, r) by {
            assert(is_quiescence_scan(eval, *pos, order@, at as int, lower, beta, plies as nat, r));
        }
        at += 1;
    }
    assert(is_quiescence_scan(eval, *pos, order@, at as int, alpha, beta, plies as nat, alpha));
    alpha
}

/// In a position that is neither finished nor in check and has no capture,
/// the quiescence search returns the static evaluation, seen by the side to
/// move and held to the window.
pub proof fn quiet_position_scores_as_it_stands<E: Fn(&Chess) -> Score>(
    eval: &E,
    pos: Chess,
    alpha: Score,
    beta: Score,
    plies: nat,
    r: Score,
)
    requires
        is_quiescence_result(eval, pos, alpha, beta, plies, r),
        outcome_in(situation_of(pos)) is None,
        !check_in(situation_of(pos)),
        forall|i: int|
            0 <= i < legal_moves_in(situation_of(pos)).len() ==> (#[trigger] legal_moves_in(
                situation_of(pos),
            )[i]).captured_role() is None,
    ensures
        exists|white: Score| #[trigger]
            call_ensures(eval, (&pos,), white) && r == stand_pat_bound(
                white.seen_by(situation_of(pos).turn),
                alpha,
                beta,
            ),
{
    let situation = situation_of(pos);
    let moves = legal_moves_in(situation);
    let white = choose|white: Score|
        {
            &&& #[trigger] call_ensures(eval, (&pos,), white)
            &&& if !white.seen_by(situation.turn).ranks_below(beta) {
                r == beta
            } else {
                let stand_pat = white.seen_by(situation.turn);
                let floor = raised(alpha, stand_pat);
                exists|order: Seq<usize>|
                    {
                        &&& #[trigger] is_quiescence_order(order, moves, false, stand_pat, floor)
                        &&& is_quiescence_scan(eval, pos, order, 0, floor, beta, plies, r)
                    }
            }
        };
    let stand_pat = white.seen_by(situation.turn);
    if stand_pat.ranks_below(beta) {
        let floor = raised(alpha, stand_pat);
        let order = choose|order: Seq<usize>|
            {
                &&& #[trigger] is_quiescence_order(order, moves, false, stand_pat, floor)
                &&& is_quiescence_scan(eval, pos, order, 0, floor, beta, plies, r)
            };
        if order.len() > 0 {
            assert(order.contains(order[0]));
            assert(crate::ordering::candidates(moves, false, stand_pat, floor)[order[0] as int]);
            assert(moves[order[0] as int].captured_role() is None);
        }
    }
}

} // verus!
