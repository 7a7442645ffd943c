//! The main search: a principal-variation search over a transposition
//! table, with the quiescence search at its horizon.
//!
//! Scores are relative to the side to move. The static evaluation is handed
//! in as a function that scores a position as White sees it.

use crate::ordering::{hash_move_first, is_main_order, is_tried_order, main_order};
use crate::quiescence::{
    is_evaluator, is_quiescence_result, quiescence_search, score_at_end, terminal_score,
    QUIESCENCE_PLIES,
};
use crate::rules::{
    check_in, is_check, legal_moves_in, outcome, outcome_in, situation_after, situation_of, turn,
    zobrist_hash, zobrist_in, MoveList,
};
use crate::score::Score;
use crate::transposition::{
    lookup, stored, NodeType, Slots, TranspositionEntry, TranspositionTable,
};
use crate::types::Move;
use shakmaty::Chess;
use std::ops::Neg;
use vstd::prelude::*;

verus! {

/// What a stored entry yields without a search: its score and move, where it
/// was searched at least `depth` deep and is exact, or is a lower bound at
/// or above `beta`, or an upper bound at or below `alpha`.
pub open spec fn cutoff_of(
    entry: Option<TranspositionEntry>,
    depth: i16,
    alpha: Score,
    beta: Score,
) -> Option<(Score, Option<Move>)> {
    match entry {
        Some(e) => if e.depth >= depth && match e.node_type {
            NodeType::Exact => true,
            NodeType::LowerBound => !e.score.ranks_below(beta),
            NodeType::UpperBound => !alpha.ranks_below(e.score),
        } {
            Some((e.score, e.best_move))
        } else {
            None
        },
        None => None,
    }
}

/// Decides whether a stored entry answers a search of `depth` plies within
/// the window from `alpha` to `beta`.
pub fn table_cutoff(entry: Option<TranspositionEntry>, depth: i16, alpha: Score, beta: Score) -> (r:
    Option<(Score, Option<Move>)>)
    ensures
        r == cutoff_of(entry, depth, alpha, beta),
{
    match entry {
        Some(e) => {
            if e.depth >= depth {
                let usable = match e.node_type {
                    NodeType::Exact => true,
                    NodeType::LowerBound => e.score >= beta,
                    NodeType::UpperBound => e.score <= alpha,
                };
                if usable {
                    return Some((e.score, e.best_move));
                }
            }
            None
        },
        None => None,
    }
}

/// How a search result is stored: as an upper bound where it did not exceed
/// the lower window bound that the search began with, as a lower bound where
/// it reached the upper window bound, and as exact in between.
pub open spec fn node_type_of(best: Score, alpha: Score, beta: Score) -> NodeType {
    if !alpha.ranks_below(best) {
        NodeType::UpperBound
    } else if !best.ranks_below(beta) {
        NodeType::LowerBound
    } else {
        NodeType::Exact
    }
}

/// Classifies a search result against the window that the search began with.
pub fn classify(best: Score, alpha: Score, beta: Score) -> (r: NodeType)
    ensures
        r == node_type_of(best, alpha, beta),
{
    if best <= alpha {
        NodeType::UpperBound
    } else if best >= beta {
        NodeType::LowerBound
    } else {
        NodeType::Exact
    }
}

/// By how many plies the search of a move is cut short: not at all for the
/// first move, a capture, a promotion or a check, else by one ply and one
/// more for every six moves tried before, up to three.
pub open spec fn reduction_of(index: nat, capture: bool, promotion: bool, check: bool) -> int {
    if index > 0 && !capture && !promotion && !check {
        1 + if index / 6 < 2 {
            index as int / 6
        } else {
            2
        }
    } else {
        0
    }
}

/// The number of plies by which the search of the move at `index` of the
/// order is cut short.
pub fn late_move_reduction(index: usize, capture: bool, promotion: bool, check: bool) -> (r: i16)
    ensures
        r == reduction_of(index as nat, capture, promotion, check),
{
    if index > 0 && !capture && !promotion && !check {
        let steps = index / 6;
        if steps < 2 {
            1 + steps as i16
        } else {
            3
        }
    } else {
        0
    }
}

/// The score one step below `bound`, or `bound` itself where that step
/// would leave the scores whose sign can be flipped.
pub open spec fn just_below(bound: Score) -> Score {
    match bound {
        Score::Centipawn(v) => if v > -i16::MAX {
            Score::Centipawn((v - 1) as i16)
        } else {
            bound
        },
        Score::Mate(n) => if n > -i8::MAX {
            Score::Mate((n - 1) as i8)
        } else {
            bound
        },
    }
}

/// The window of a null-window search below `alpha`, seen by the opponent:
/// from one step below the negated bound to the negated bound.
pub fn null_window(alpha: Score) -> (r: (Score, Score))
    requires
        alpha.negatable(),
    ensures
        r.1 == alpha.negated(),
        r.0 == just_below(alpha.negated()),
        r.0.negatable(),
        r.1.negatable(),
        alpha != Score::upper_bound() && alpha != Score::Mate(i8::MAX) ==> r.0
            == alpha.negated().shifted(-1isize),
{
    let ceiling = alpha.neg();
    let steps = match ceiling {
        Score::Centipawn(v) => v > -i16::MAX,
        Score::Mate(n) => n > -i8::MAX,
    };
    if steps {
        (ceiling - 1, ceiling)
    } else {
        (ceiling, ceiling)
    }
}

/// Whether every stored score can have its sign flipped.
pub open spec fn scores_negatable(slots: Slots) -> bool {
    forall|i: int|
        0 <= i < slots.len() ==> (#[trigger] slots[i] matches Some(entry) ==> entry.score.negatable())
}

/// The number of plies that a search of `depth` still has above its horizon.
pub open spec fn plies_above_horizon(depth: i16) -> nat {
    if depth > 0 {
        depth as nat
    } else {
        0
    }
}

/// The move that an entry remembers, if there is an entry and it holds one.
pub open spec fn remembered_move(entry: Option<TranspositionEntry>) -> Option<Move> {
    match entry {
        Some(e) => e.best_move,
        None => None,
    }
}

/// What the search of one move owes, given the position `next` that the move
/// leads to and the table `before` it.
///
/// The first move of the order is searched in the full window. Every other
/// move is searched in the null window below `alpha` first, cut short by
/// `reduction` plies, and where its score exceeds `alpha` once more in the
/// full window at the full depth. A score is the answer of the search of
/// `next`, one ply further and negated.
pub open spec fn is_move_score<E: Fn(&Chess) -> Score>(
    eval: &E,
    next: Chess,
    depth: i16,
    reduction: int,
    first: bool,
    alpha: Score,
    beta: Score,
    before: Slots,
    after: Slots,
    score: Score,
) -> bool
    decreases plies_above_horizon(depth), 0nat, 0nat,
{
    if depth <= 0 || reduction < 0 || reduction > 3 {
        false
    } else if first {
        exists|reply: (Score, Option<Move>)|
            #![trigger reply.0.negatable()]
            {
                &&& reply.0.negatable()
                &&& is_search_result(
                    eval, next, (depth - 1 - reduction) as i16, beta.negated(), alpha.negated(),
                    before, after, reply,
                )
                &&& score == reply.0.one_ply_further().negated()
            }
    } else {
        exists|reply: (Score, Option<Move>), between: Slots|
            #![trigger reply.0.negatable(), between.len()]
            {
                &&& reply.0.negatable()
                &&& between.len() == before.len()
                &&& is_search_result(
                    eval, next, (depth - 1 - reduction) as i16, just_below(alpha.negated()),
                    alpha.negated(), before, between, reply,
                )
                &&& if alpha.ranks_below(reply.0.one_ply_further().negated()) {
                    exists|again: (Score, Option<Move>)|
                        #![trigger again.0.negatable()]
                        {
                            &&& again.0.negatable()
                            &&& is_search_result(
                                eval, next, (depth - 1) as i16, beta.negated(), alpha.negated(),
                                between, after, again,
                            )
                            &&& score == again.0.one_ply_further().negated()
                        }
                } else {
                    after == between && score == reply.0.one_ply_further().negated()
                }
            }
    }
}

/// What the main search owes for the moves of `order` from place `at` on,
/// with `alpha` raised and the best score and move found so far, and with
/// the table as the moves before have left it. `end` is the table after the
/// last move searched.
///
/// A score above the best replaces it with its move. Where it also exceeds
/// `alpha` it raises `alpha`, and where it then reaches `beta` the scan
/// ends. With no move left the result is the best score with its move.
pub open spec fn is_scan<E: Fn(&Chess) -> Score>(
    eval: &E,
    pos: Chess,
    depth: i16,
    beta: Score,
    order: Seq<usize>,
    at: int,
    alpha: Score,
    best: (Score, Option<Move>),
    slots: Slots,
    end: Slots,
    r: (Score, Option<Move>),
) -> bool
    decreases plies_above_horizon(depth), 0nat, order.len() - at,
{
    let situation = situation_of(pos);
    if at < 0 || at >= order.len() || depth <= 0 {
        r == best && end == slots
    } else {
        let m = legal_moves_in(situation)[order[at] as int];
        exists|next: Chess, score: Score, after: Slots|
            #![trigger situation_of(next), score.negatable(), after.len()]
            {
                &&& situation_of(next) == situation_after(situation, m)
                &&& score.negatable()
                &&& after.len() == slots.len()
                &&& is_move_score(
                    eval,
                    next,
                    depth,
                    reduction_of(
                        at as nat, m.captured_role() is Some, m.promoted_role() is Some,
                        check_in(situation_of(next)),
                    ),
                    at == 0,
                    alpha,
                    beta,
                    slots,
                    after,
                    score,
                )
                &&& if !best.0.ranks_below(score) {
                    is_scan(eval, pos, depth, beta, order, at + 1, alpha, best, after, end, r)
                } else if alpha.ranks_below(score) && !score.ranks_below(beta) {
                    r == (score, Some(m)) && end == after
                } else {
                    is_scan(
                        eval,
                        pos,
                        depth,
                        beta,
                        order,
                        at + 1,
                        if alpha.ranks_below(score) {
                            score
                        } else {
                            alpha
                        },
                        (score, Some(m)),
                        after,
                        end,
                        r,
                    )
                }
            }
    }
}

/// The score of the first move of the order is that of one search in the
/// full window.
proof fn first_move_score<E: Fn(&Chess) -> Score>(
    eval: &E,
    next: Chess,
    depth: i16,
    reduction: int,
    alpha: Score,
    beta: Score,
    before: Slots,
    after: Slots,
    reply: (Score, Option<Move>),
)
    requires
        depth > 0,
        0 <= reduction <= 3,
        reply.0.negatable(),
        is_search_result(
            eval, next, (depth - 1 - reduction) as i16, beta.negated(), alpha.negated(), before,
            after, reply,
        ),
    ensures
        is_move_score(
            eval, next, depth, reduction, true, alpha, beta, before, after,
            reply.0.one_ply_further().negated(),
        ),
{
}

/// The score of a later move is that of its search in the null window
/// where it does not exceed `alpha`.
proof fn null_move_score<E: Fn(&Chess) -> Score>(
    eval: &E,
    next: Chess,
    depth: i16,
    reduction: int,
    alpha: Score,
    beta: Score,
    before: Slots,
    after: Slots,
    reply: (Score, Option<Move>),
)
    requires
        depth > 0,
        0 <= reduction <= 3,
        reply.0.negatable(),
        is_search_result(
            eval, next, (depth - 1 - reduction) as i16, just_below(alpha.negated()),
            alpha.negated(), before, after, reply,
        ),
        !alpha.ranks_below(reply.0.one_ply_further().negated()),
        after.len() == before.len(),
    ensures
        is_move_score(
            eval, next, depth, reduction, false, alpha, beta, before, after,
            reply.0.one_ply_further().negated(),
        ),
{
}

/// The score of a later move is that of its second search, in the full
/// window, where the first one exceeds `alpha`.
proof fn full_move_score<E: Fn(&Chess) -> Score>(
    eval: &E,
    next: Chess,
    depth: i16,
    reduction: int,
    alpha: Score,
    beta: Score,
    before: Slots,
    between: Slots,
    after: Slots,
    reply: (Score, Option<Move>),
    again: (Score, Option<Move>),
)
    requires
        depth > 0,
        0 <= reduction <= 3,
        reply.0.negatable(),
        is_search_result(
            eval, next, (depth - 1 - reduction) as i16, just_below(alpha.negated()),
            alpha.negated(), before, between, reply,
        ),
        alpha.ranks_below(reply.0.one_ply_further().negated()),
        between.len() == before.len(),
        again.0.negatable(),
        is_search_result(eval, next, (depth - 1) as i16, beta.negated(), alpha.negated(), between, after, again),
    ensures
        is_move_score(
            eval, next, depth, reduction, false, alpha, beta, before, after,
            again.0.one_ply_further().negated(),
        ),
{
}

/// A scan that goes on after the move at `at` owes what the rest of the
/// scan owes.
proof fn scan_goes_on<E: Fn(&Chess) -> Score>(
    eval: &E,
    pos: Chess,
    depth: i16,
    beta: Score,
    order: Seq<usize>,
    at: int,
    alpha: Score,
    best: (Score, Option<Move>),
    slots: Slots,
    next: Chess,
    score: Score,
    after: Slots,
    end: Slots,
    r: (Score, Option<Move>),
)
    requires
        0 <= at < order.len(),
        depth > 0,
        situation_of(next) == situation_after(
            situation_of(pos),
            legal_moves_in(situation_of(pos))[order[at] as int],
        ),
        score.negatable(),
        after.len() == slots.len(),
        is_move_score(
            eval,
            next,
            depth,
            reduction_of(
                at as nat,
                legal_moves_in(situation_of(pos))[order[at] as int].captured_role() is Some,
                legal_moves_in(situation_of(pos))[order[at] as int].promoted_role() is Some,
                check_in(situation_of(next)),
            ),
            at == 0,
            alpha,
            beta,
            slots,
            after,
            score,
        ),
        !(best.0.ranks_below(score) && alpha.ranks_below(score) && !score.ranks_below(beta)),
        is_scan(
            eval,
            pos,
            depth,
            beta,
            order,
            at + 1,
            if best.0.ranks_below(score) && alpha.ranks_below(score) {
                score
            } else {
                alpha
            },
            if best.0.ranks_below(score) {
                (score, Some(legal_moves_in(situation_of(pos))[order[at] as int]))
            } else {
                best
            },
            after,
            end,
            r,
        ),
    ensures
        is_scan(eval, pos, depth, beta, order, at, alpha, best, slots, end, r),
{
}

/// A scan ends with the move at `at` where the score of the move exceeds
/// the best score and `alpha` and reaches `beta`.
proof fn scan_is_cut<E: Fn(&Chess) -> Score>(
    eval: &E,
    pos: Chess,
    depth: i16,
    beta: Score,
    order: Seq<usize>,
    at: int,
    alpha: Score,
    best: (Score, Option<Move>),
    slots: Slots,
    next: Chess,
    score: Score,
    after: Slots,
)
    requires
        0 <= at < order.len(),
        depth > 0,
        situation_of(next) == situation_after(
            situation_of(pos),
            legal_moves_in(situation_of(pos))[order[at] as int],
        ),
        score.negatable(),
        after.len() == slots.len(),
        is_move_score(
            eval,
            next,
            depth,
            reduction_of(
                at as nat,
                legal_moves_in(situation_of(pos))[order[at] as int].captured_role() is Some,
                legal_moves_in(situation_of(pos))[order[at] as int].promoted_role() is Some,
                check_in(situation_of(next)),
            ),
            at == 0,
            alpha,
            beta,
            slots,
            after,
            score,
        ),
        best.0.ranks_below(score),
        alpha.ranks_below(score),
        !score.ranks_below(beta),
    ensures
        is_scan(
            eval, pos, depth, beta, order, at, alpha, best, slots, after,
            (score, Some(legal_moves_in(situation_of(pos))[order[at] as int])),
        ),
{
}

/// What the main search owes for `pos`, given the table `before` the search
/// and `after` it.
///
/// Where the table answers, the result is the stored score and move and the
/// table stays as it was. Else a finished game has its terminal score and a
/// search at the horizon the result of the quiescence search, both without
/// a move and without a change to the table. Every other search tries the
/// legal moves in their order, and its result is stored under the hash of
/// the position, classified against the window.
pub open spec fn is_search_result<E: Fn(&Chess) -> Score>(
    eval: &E,
    pos: Chess,
    depth: i16,
    alpha: Score,
    beta: Score,
    before: Slots,
    after: Slots,
    r: (Score, Option<Move>),
) -> bool
    decreases plies_above_horizon(depth), 1nat, 0nat,
{
    let situation = situation_of(pos);
    let hash = zobrist_in(situation);
    let entry = lookup(before, hash);
    match cutoff_of(entry, depth, alpha, beta) {
        Some(hit) => r == hit && after == before,
        None => match outcome_in(situation) {
            Some(outcome) => r == (terminal_score(outcome, situation.turn), None::<Move>) && after
                == before,
            None => if depth <= 0 {
                &&& is_quiescence_result(eval, pos, alpha, beta, QUIESCENCE_PLIES as nat, r.0)
                &&& r.1 is None
                &&& after == before
            } else {
                exists|order: Seq<usize>, searched: Slots|
                    #![trigger is_tried_order(order, legal_moves_in(situation), remembered_move(entry)), searched.len()]
                    {
                        &&& is_tried_order(order, legal_moves_in(situation), remembered_move(entry))
                        &&& searched.len() == before.len()
                        &&& is_scan(
                            eval, pos, depth, beta, order, 0, alpha,
                            (Score::lower_bound(), None::<Move>), before, searched, r,
                        )
                        &&& after == stored(
                            searched,
                            TranspositionEntry {
                                hash,
                                depth,
                                score: r.0,
                                node_type: node_type_of(r.0, alpha, beta),
                                best_move: r.1,
                            },
                        )
                    }
            },
        },
    }
}

/// Searches the position `next` that a move leads to, and returns the score
/// of the move for the side that plays it.
///
/// The first move of the order is searched in the full window. Every other
/// move is searched in the null window below `alpha` first, cut short by
/// `reduction` plies, and once more in the full window at the full depth
/// where its score exceeds `alpha`.
fn search_move<E: Fn(&Chess) -> Score>(
    next: &Chess,
    depth: i16,
    reduction: i16,
    first: bool,
    alpha: Score,
    beta: Score,
    table: &mut TranspositionTable,
    eval: &E,
) -> (score: Score)
    requires
        depth > 0,
        0 <= reduction <= 3,
        is_evaluator(eval),
        alpha.negatable(),
        beta.negatable(),
        old(table).wf(),
        scores_negatable(old(table)@),
    ensures
        final(table).wf(),
        final(table)@.len() == old(table)@.len(),
        scores_negatable(final(table)@),
        score.negatable(),
        is_move_score(
            eval, *next, depth, reduction as int, first, alpha, beta, old(table)@, final(table)@,
            score,
        ),
    decreases plies_above_horizon(depth), 0nat,
{
    let ghost before = table@;
    if first {
        let reply = negamax(next, depth - 1 - reduction, beta.neg(), alpha.neg(), table, eval);
        proof {
            first_move_score(eval, *next, depth, reduction as int, alpha, beta, before, table@, reply);
        }
        reply.0.increment_mate_depth().neg()
    } else {
        let window = null_window(alpha);
        let reply = negamax(next, depth - 1 - reduction, window.0, window.1, table, eval);
        let ghost between = table@;
        let null_score = reply.0.increment_mate_depth().neg();
        if null_score > alpha {
            let again = negamax(next, depth - 1, beta.neg(), alpha.neg(), table, eval);
            proof {
                full_move_score(
                    eval, *next, depth, reduction as int, alpha, beta, before, between, table@,
                    reply, again,
                );
            }
            again.0.increment_mate_depth().neg()
        } else {
            proof {
                null_move_score(
                    eval, *next, depth, reduction as int, alpha, beta, before, table@, reply,
                );
            }
            null_score
        }
    }
}

/// Searches `pos` to `depth` plies within the window from `alpha` to `beta`
/// and returns its score for the side to move with the best move found.
///
/// The first move of the order is searched with the full window and every
/// other move with a null window first, and again with the full window where
/// it may raise `alpha`. A mate comes back from a move one ply further away.
#[verifier::loop_isolation(false)]
pub fn negamax<E: Fn(&Chess) -> Score>(
    pos: &Chess,
    depth: i16,
    alpha: Score,
    beta: Score,
    table: &mut TranspositionTable,
    eval: &E,
) -> (r: (Score, Option<Move>))
    requires
        is_evaluator(eval),
        alpha.negatable(),
        beta.negatable(),
        old(table).wf(),
        scores_negatable(old(table)@),
    ensures
        final(table).wf(),
        final(table)@.len() == old(table)@.len(),
        scores_negatable(final(table)@),
        r.0.negatable(),
        is_search_result(eval, *pos, depth, alpha, beta, old(table)@, final(table)@, r),
    decreases plies_above_horizon(depth), 1nat,
{
    let hash = zobrist_hash(pos);
    let stored_entry: Option<TranspositionEntry> = match table.get(hash) {
        Some(entry) => Some(*entry),
        None => None,
    };
    proof {
        table.wf_has_slots();
    }
    if let Some(hit) = table_cutoff(stored_entry, depth, alpha, beta) {
        return hit;
    }
    if let Some(end) = outcome(pos) {
        return (score_at_end(end, turn(pos)), None);
    }
    if depth <= 0 {
        return (quiescence_search(pos, alpha, beta, QUIESCENCE_PLIES, eval), None);
    }
    let alpha_orig = alpha;
    let mut alpha = alpha;
    let mut best_value = Score::lower_bound();
    let mut best_move: Option<Move> = None;
    let moves = MoveList::generate(pos);
    let mut order = main_order(&moves);
    proof {
        assert(Seq::new(moves@.len(), |i: int| true)[0]);
        assert(order@.contains(0usize));
    }
    let ghost sorted = order@;
    if let Some(entry) = stored_entry {
        if let Some(remembered) = entry.best_move {
            hash_move_first(&mut order, &moves, &remembered);
        }
    }
    assert(is_tried_order(order@, moves@, remembered_move(stored_entry))) by {
        assert(is_main_order(sorted, moves@));
    }
    let ghost start = (Score::lower_bound(), None::<Move>);
    let mut at: usize = 0;
    let mut cut = false;
    while at < order.len() && !cut
        invariant
            at <= order@.len(),
            alpha.negatable(),
            table.wf(),
            table@.len() == old(table)@.len(),
            scores_negatable(table@),
            cut ==> at > 0,
            at == 0 ==> best_value == Score::lower_bound() && best_move is None,
            at > 0 ==> best_value.negatable(),
            at > 0 ==> best_move is Some,
            !cut ==> forall|end: Slots, r: (Score, Option<Move>)| #[trigger]
                is_scan(
                    eval, *pos, depth, beta, order@, at as int, alpha, (best_value, best_move),
                    table@, end, r,
                ) ==> is_scan(eval, *pos, depth, beta, order@, 0, alpha_orig, start, old(table)@, end, r),
            cut ==> is_scan(
                eval, *pos, depth, beta, order@, 0, alpha_orig, start, old(table)@, table@,
                (best_value, best_move),
            ),
        decreases order@.len() - at,
    {
        let index = order[at];
        let m = moves.get(index);
        let next = moves.play(pos, index);
        let gives_check = is_check(&next);
        let reduction = late_move_reduction(at, m.is_capture(), m.promotion().is_some(), gives_check);
        let ghost before = table@;
        let ghost lower = alpha;
        let ghost best = (best_value, best_move);
        let score = search_move(&next, depth, reduction, at == 0, alpha, beta, table, eval);
        if score > best_value {
            best_value = score;
            best_move = Some(m);
            if score > alpha {
                alpha = score;
                if alpha >= beta {
                    cut = true;
                }
            }
        }
        proof {
            if cut {
                scan_is_cut(
                    eval, *pos, depth, beta, order@, at as int, lower, best, before, next, score,
                    table@,
                );
            } else {
                assert forall|end: Slots, r: (Score, Option<Move>)| #[trigger]
                    is_scan(
                        eval, *pos, depth, beta, order@, at + 1, alpha, (best_value, best_move),
                        table@, end, r,
                    ) implies is_scan(
                    eval, *pos, depth, beta, order@, 0, alpha_orig, start, old(table)@, end, r,
                ) by {
                    scan_goes_on(
                        eval, *pos, depth, beta, order@, at as int, lower, best, before, next,
                        score, table@, end, r,
                    );
                }
            }
        }
        at += 1;
    }
    proof {
        if !cut {
            assert(is_scan(
                eval, *pos, depth, beta, order@, at as int, alpha, (best_value, best_move), table@,
                table@, (best_value, best_move),
            ));
        }
    }
    let node_type = classify(best_value, alpha_orig, beta);
    let ghost searched = table@;
    table.insert(hash, depth, best_value, node_type, best_move);
    (best_value, best_move)
}

/// A search above the horizon of a game that is not over, which the table
/// does not answer, returns a legal move, and a lookup of the position in the
/// table after the search finds the result.
pub proof fn search_stores_its_result<E: Fn(&Chess) -> Score>(
    eval: &E,
    pos: Chess,
    depth: i16,
    alpha: Score,
    beta: Score,
    before: Slots,
    after: Slots,
    r: (Score, Option<Move>),
)
    requires
        after.len() > 0,
        depth > 0,
        is_search_result(eval, pos, depth, alpha, beta, before, after, r),
        outcome_in(situation_of(pos)) is None,
        cutoff_of(lookup(before, zobrist_in(situation_of(pos))), depth, alpha, beta) is None,
    ensures
        lookup(after, zobrist_in(situation_of(pos))) == Some(
            TranspositionEntry {
                hash: zobrist_in(situation_of(pos)),
                depth,
                score: r.0,
                node_type: node_type_of(r.0, alpha, beta),
                best_move: r.1,
            },
        ),
{
    let situation = situation_of(pos);
    let entry = lookup(before, zobrist_in(situation));
    let (order, searched) = choose|order: Seq<usize>, searched: Slots|
        #![trigger is_tried_order(order, legal_moves_in(situation), remembered_move(entry)), searched.len()]
        {
            &&& is_tried_order(order, legal_moves_in(situation), remembered_move(entry))
            &&& searched.len() == before.len()
            &&& is_scan(
                eval, pos, depth, beta, order, 0, alpha, (Score::lower_bound(), None::<Move>),
                before, searched, r,
            )
            &&& after == stored(
                searched,
                TranspositionEntry {
                    hash: zobrist_in(situation),
                    depth,
                    score: r.0,
                    node_type: node_type_of(r.0, alpha, beta),
                    best_move: r.1,
                },
            )
        };
    assert(after.len() == searched.len());
    crate::transposition::lookup_after_store(
        searched,
        TranspositionEntry {
            hash: zobrist_in(situation),
            depth,
            score: r.0,
            node_type: node_type_of(r.0, alpha, beta),
            best_move: r.1,
        },
    );
}

/// A scan keeps a legal move as its best move, and finds one where it has a
/// move left to try.
proof fn scan_returns_a_legal_move<E: Fn(&Chess) -> Score>(
    eval: &E,
    pos: Chess,
    depth: i16,
    beta: Score,
    order: Seq<usize>,
    at: int,
    alpha: Score,
    best: (Score, Option<Move>),
    slots: Slots,
    end: Slots,
    r: (Score, Option<Move>),
)
    requires
        is_scan(eval, pos, depth, beta, order, at, alpha, best, slots, end, r),
        0 <= at,
        forall|i: int|
            0 <= i < order.len() ==> (#[trigger] order[i]) < legal_moves_in(situation_of(pos)).len(),
        best.1 matches Some(m) ==> legal_moves_in(situation_of(pos)).contains(m),
        best.1 is None ==> best.0 == Score::lower_bound(),
    ensures
        r.1 matches Some(m) ==> legal_moves_in(situation_of(pos)).contains(m),
        best.1 is Some || (at < order.len() && depth > 0) ==> r.1 is Some,
    decreases order.len() - at,
{
    if at < order.len() && depth > 0 {
        let situation = situation_of(pos);
        let m = legal_moves_in(situation)[order[at] as int];
        assert(legal_moves_in(situation).contains(m));
        let (next, score, after) = choose|
            next: Chess,
            score: Score,
            after: Slots,
        |
            #![trigger situation_of(next), score.negatable(), after.len()]
            {
                &&& situation_of(next) == situation_after(situation, m)
                &&& score.negatable()
                &&& after.len() == slots.len()
                &&& is_move_score(
                    eval,
                    next,
                    depth,
                    reduction_of(
                        at as nat, m.captured_role() is Some, m.promoted_role() is Some,
                        check_in(situation_of(next)),
                    ),
                    at == 0,
                    alpha,
                    beta,
                    slots,
                    after,
                    score,
                )
                &&& if !best.0.ranks_below(score) {
                    is_scan(eval, pos, depth, beta, order, at + 1, alpha, best, after, end, r)
                } else if alpha.ranks_below(score) && !score.ranks_below(beta) {
                    r == (score, Some(m)) && end == after
                } else {
                    is_scan(
                        eval,
                        pos,
                        depth,
                        beta,
                        order,
                        at + 1,
                        if alpha.ranks_below(score) {
                            score
                        } else {
                            alpha
                        },
                        (score, Some(m)),
                        after,
                        end,
                        r,
                    )
                }
            };
        if !best.0.ranks_below(score) {
            scan_returns_a_legal_move(eval, pos, depth, beta, order, at + 1, alpha, best, after, end, r);
        } else if alpha.ranks_below(score) && !score.ranks_below(beta) {
        } else {
            scan_returns_a_legal_move(
                eval,
                pos,
                depth,
                beta,
                order,
                at + 1,
                if alpha.ranks_below(score) {
                    score
                } else {
                    alpha
                },
                (score, Some(m)),
                after,
                end,
                r,
            );
        }
    }
}

/// A search above the horizon of a game that is not over, which the table
/// does not answer, returns one of the legal moves of the position.
pub proof fn search_returns_a_legal_move<E: Fn(&Chess) -> Score>(
    eval: &E,
    pos: Chess,
    depth: i16,
    alpha: Score,
    beta: Score,
    before: Slots,
    after: Slots,
    r: (Score, Option<Move>),
)
    requires
        depth > 0,
        is_search_result(eval, pos, depth, alpha, beta, before, after, r),
        outcome_in(situation_of(pos)) is None,
        legal_moves_in(situation_of(pos)).len() > 0,
        cutoff_of(lookup(before, zobrist_in(situation_of(pos))), depth, alpha, beta) is None,
    ensures
        r.1 matches Some(m) && legal_moves_in(situation_of(pos)).contains(m),
{
    let situation = situation_of(pos);
    let moves = legal_moves_in(situation);
    let entry = lookup(before, zobrist_in(situation));
    let (order, searched) = choose|order: Seq<usize>, searched: Slots|
        #![trigger is_tried_order(order, legal_moves_in(situation), remembered_move(entry)), searched.len()]
        {
            &&& is_tried_order(order, legal_moves_in(situation), remembered_move(entry))
            &&& searched.len() == before.len()
            &&& is_scan(
                eval, pos, depth, beta, order, 0, alpha, (Score::lower_bound(), None::<Move>),
                before, searched, r,
            )
            &&& after == stored(
                searched,
                TranspositionEntry {
                    hash: zobrist_in(situation),
                    depth,
                    score: r.0,
                    node_type: node_type_of(r.0, alpha, beta),
                    best_move: r.1,
                },
            )
        };
    let sorted = choose|sorted: Seq<usize>| #[trigger]
        is_main_order(sorted, moves) && match remembered_move(entry) {
            Some(best) => crate::ordering::is_promoted(sorted, order, moves, best),
            None => order == sorted,
        };
    assert(Seq::new(moves.len(), |i: int| true)[0]);
    assert(sorted.contains(0usize));
    assert(order.len() == sorted.len() && forall|i: int|
        0 <= i < order.len() ==> (#[trigger] order[i]) < moves.len());
    scan_returns_a_legal_move(
        eval, pos, depth, beta, order, 0, alpha, (Score::lower_bound(), None::<Move>), before,
        searched, r,
    );
}

} // verus!
