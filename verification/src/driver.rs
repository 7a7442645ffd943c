//! Iterative deepening: the search is repeated one ply deeper at a time,
//! each time within a window around the score of the time before, until the
//! time for the move is spent or the last depth is done.
//!
//! [`find_best_move`] runs the whole search. It is handed a clock to read and
//! a function that takes the report of each depth. [`IterativeDeepening`]
//! searches one depth at a time for a caller that runs the loop itself.

use crate::rules::situation_of;
use crate::score::Score;
use crate::quiescence::is_evaluator;
use crate::search::{is_search_result, negamax, scores_negatable};
use crate::transposition::{Slots, TranspositionEntry, TranspositionTable};
use crate::types::Move;
use crate::variation::{get_principal_variation, principal_variation, PRINCIPAL_VARIATION_PLIES};
use shakmaty::Chess;
use std::ops::Neg;
use vstd::prelude::*;

verus! {

/// The deepest search of one call.
pub const MAX_DEPTH: i16 = 50;

/// The number of slots of the table of one call.
pub const TABLE_SLOTS: usize = 1048576;

/// The part of the remaining time that one move may take.
pub const MOVES_TO_GO: u64 = 40;

/// The number of nanoseconds in a millisecond.
pub const NANOS_PER_MILLI: u128 = 1000000;

/// The widest lower window bound: minus half the greatest centipawn value.
pub open spec fn widest_alpha() -> Score {
    Score::Centipawn(-16383i16)
}

/// The widest upper window bound: half the greatest centipawn value.
pub open spec fn widest_beta() -> Score {
    Score::Centipawn(16383)
}

/// The lower bound of a window, kept above the open lower bound, whose sign
/// cannot be flipped.
pub open spec fn lifted(bound: Score) -> Score {
    if bound == Score::lower_bound() {
        Score::Centipawn(-32767i16)
    } else {
        bound
    }
}

/// The window in which a search of `depth` plies begins: the widest window
/// at depth 1, and from depth 2 on the score of the search before, 100
/// centipawns down and up.
pub open spec fn aspiration_of(depth: i16, best_score: Score) -> (Score, Score) {
    if depth == 1 {
        (widest_alpha(), widest_beta())
    } else {
        let margin = if depth >= 2 {
            Score::Centipawn(100)
        } else {
            Score::Centipawn(1000)
        };
        (lifted(best_score.plus(margin.negated())), best_score.plus(margin))
    }
}

/// The window of the second search of a depth: the failing side of the
/// first window is opened to its widest. A score strictly inside the first
/// window needs no second search.
pub open spec fn retry_of(score: Score, alpha: Score, beta: Score) -> Option<(Score, Score)> {
    if !alpha.ranks_below(score) {
        Some((widest_alpha(), beta))
    } else if !score.ranks_below(beta) {
        Some((alpha, widest_beta()))
    } else {
        None
    }
}

/// The time in milliseconds that the search may take for one move, given the
/// time that is left on the clock.
pub fn time_budget(remaining_time: i32) -> (r: u64)
    ensures
        r == (remaining_time as u64) / MOVES_TO_GO,
{
    remaining_time as u64 / MOVES_TO_GO
}

/// The window in which a search of `depth` plies begins.
pub fn aspiration_window(depth: i16, best_score: Score) -> (r: (Score, Score))
    ensures
        r == aspiration_of(depth, best_score),
        best_score != Score::Mate(i8::MIN) ==> r.0.negatable() && r.1.negatable(),
{
    if depth == 1 {
        return (Score::upper_bound().neg() / 2, Score::upper_bound() / 2);
    }
    let margin = if depth >= 2 {
        Score::Centipawn(100)
    } else {
        Score::Centipawn(1000)
    };
    let low = best_score - margin;
    let alpha = if low.is_min() {
        Score::Centipawn(-i16::MAX)
    } else {
        low
    };
    (alpha, best_score + margin)
}

/// Decides whether a depth is searched a second time, and in which window.
pub fn retry_window(score: Score, alpha: Score, beta: Score) -> (r: Option<(Score, Score)>)
    ensures
        r == retry_of(score, alpha, beta),
{
    if score <= alpha {
        Some((Score::upper_bound().neg() / 2, beta))
    } else if score >= beta {
        Some((alpha, Score::upper_bound() / 2))
    } else {
        None
    }
}

/// A score outside the window in which it was searched is never final: the
/// depth is searched again with the failing side opened. Only a score
/// strictly inside the window is taken as it is.
pub proof fn score_outside_window_is_searched_again(score: Score, alpha: Score, beta: Score)
    ensures
        retry_of(score, alpha, beta) is None <==> alpha.ranks_below(score) && score.ranks_below(
            beta,
        ),
        !alpha.ranks_below(score) ==> retry_of(score, alpha, beta) == Some((widest_alpha(), beta)),
        alpha.ranks_below(score) && !score.ranks_below(beta) ==> retry_of(score, alpha, beta)
            == Some((alpha, widest_beta())),
{
}

/// What one completed depth found.
pub struct Progress {
    /// The depth that was searched.
    pub depth: i16,
    /// The best score so far.
    pub score: Score,
    /// The principal variation that the table records.
    pub line: Vec<Move>,
}

/// The state of one search for the best move of a position.
pub struct IterativeDeepening {
    table: TranspositionTable,
    best_move: Option<Move>,
    best_score: Score,
    depth: i16,
}

/// What the searches of one depth do: a first search in the window around
/// the score before, and where its score falls outside that window a second
/// search in the window that [`retry_of`] gives. `accepted` is the result of
/// the last search made.
pub open spec fn is_iteration<E: Fn(&Chess) -> Score>(
    eval: &E,
    pos: Chess,
    depth: i16,
    score_before: Score,
    before: Slots,
    after: Slots,
    accepted: (Score, Option<Move>),
) -> bool {
    let window = aspiration_of(depth, score_before);
    exists|first: (Score, Option<Move>), between: Slots|
        #![trigger first.0.negatable(), between.len()]
        {
            &&& first.0.negatable()
            &&& between.len() == before.len()
            &&& is_search_result(eval, pos, depth, window.0, window.1, before, between, first)
            &&& match retry_of(first.0, window.0, window.1) {
                Some(wider) => is_search_result(
                    eval, pos, depth, wider.0, wider.1, between, after, accepted,
                ),
                None => accepted == first && after == between,
            }
        }
}

impl IterativeDeepening {
    /// The table is well formed and its scores can have their sign flipped,
    /// as can the best score once there is one; the next depth is one of 1
    /// to 51.
    pub closed spec fn wf(&self) -> bool {
        &&& self.table.wf()
        &&& scores_negatable(self.table@)
        &&& self.best_score.negatable() || self.best_score == Score::lower_bound()
        &&& 1 <= self.depth <= MAX_DEPTH + 1
    }

    /// The depth that is searched next.
    pub closed spec fn next_depth(&self) -> i16 {
        self.depth
    }

    /// The best move and its score so far.
    pub closed spec fn best_so_far(&self) -> (Option<Move>, Score) {
        (self.best_move, self.best_score)
    }

    /// The slots of the table.
    pub closed spec fn slots(&self) -> Slots {
        self.table@
    }

    /// A search that has not begun: an empty table, no best move, the open
    /// lower bound as best score, and depth 1 to search next.
    pub fn new() -> (r: IterativeDeepening)
        ensures
            r.wf(),
            r.next_depth() == 1,
            r.best_so_far() == (None::<Move>, Score::lower_bound()),
            r.slots().len() == TABLE_SLOTS,
            forall|i: int| 0 <= i < r.slots().len() ==> r.slots()[i] is None,
    {
        IterativeDeepening {
            table: TranspositionTable::new(TABLE_SLOTS),
            best_move: None,
            best_score: Score::lower_bound(),
            depth: 1,
        }
    }

    /// Whether all depths up to the last have been searched.
    pub fn is_exhausted(&self) -> (r: bool)
        ensures
            r == (self.next_depth() > MAX_DEPTH),
    {
        self.depth > MAX_DEPTH
    }

    /// Whether the search stops: the time spent, in nanoseconds, exceeds the
    /// budget, in milliseconds, or the last depth has been searched.
    pub fn is_finished(&self, elapsed: u128, budget: u64) -> (r: bool)
        ensures
            r == (elapsed > budget * NANOS_PER_MILLI || self.next_depth() > MAX_DEPTH),
    {
        elapsed > budget as u128 * NANOS_PER_MILLI || self.depth > MAX_DEPTH
    }

    /// The best move found so far with its score, if a search has returned
    /// one.
    pub fn best(&self) -> (r: Option<(Move, Score)>)
        ensures
            r == match self.best_so_far().0 {
                Some(m) => Some((m, self.best_so_far().1)),
                None => None,
            },
    {
        match self.best_move {
            Some(m) => Some((m, self.best_score)),
            None => None,
        }
    }

    /// Searches the next depth. The best move and score follow the accepted
    /// search where it returned a move, and stay as they were where it did
    /// not.
    pub fn deepen<E: Fn(&Chess) -> Score>(&mut self, pos: &Chess, eval: &E) -> (progress: Progress)
        requires
            is_evaluator(eval),
            old(self).wf(),
            old(self).next_depth() <= MAX_DEPTH,
        ensures
            final(self).wf(),
            final(self).next_depth() == old(self).next_depth() + 1,
            progress.depth == old(self).next_depth(),
            progress.score == final(self).best_so_far().1,
            progress.line@ == principal_variation(
                situation_of(*pos),
                final(self).slots(),
                PRINCIPAL_VARIATION_PLIES as nat,
            ),
            final(self).slots().len() == old(self).slots().len(),
            exists|accepted: (Score, Option<Move>)|
                {
                    &&& accepted.0.negatable()
                    &&& #[trigger] is_iteration(
                        eval, *pos, old(self).next_depth(), old(self).best_so_far().1,
                        old(self).slots(), final(self).slots(), accepted,
                    )
                    &&& final(self).best_so_far() == match accepted.1 {
                        Some(m) => (Some(m), accepted.0),
                        None => old(self).best_so_far(),
                    }
                },
    {
        let depth = self.depth;
        let window = aspiration_window(depth, self.best_score);
        let ghost before = self.table@;
        let first = negamax(pos, depth, window.0, window.1, &mut self.table, eval);
        let ghost between = self.table@;
        let accepted = match retry_window(first.0, window.0, window.1) {
            Some(wider) => negamax(pos, depth, wider.0, wider.1, &mut self.table, eval),
            None => first,
        };
        if let Some(m) = accepted.1 {
            self.best_move = Some(m);
            self.best_score = accepted.0;
        }
        let line = get_principal_variation(pos, &self.table);
        self.depth = depth + 1;
        proof {
            assert(is_search_result(eval, *pos, depth, window.0, window.1, before, between, first));
            assert(is_iteration(
                eval, *pos, old(self).next_depth(), old(self).best_so_far().1, old(self).slots(),
                self.slots(), accepted,
            ));
            assert(self.best_so_far() == match accepted.1 {
                Some(m) => (Some(m), accepted.0),
                None => old(self).best_so_far(),
            });
        }
        Progress { depth, score: self.best_score, line }
    }
}

/// Whether `clock` tells the time spent whenever it is asked.
pub open spec fn is_clock<C: Fn() -> u128>(clock: &C) -> bool {
    call_requires(clock, ())
}

/// Whether `report` takes the progress of every depth and every time.
pub open spec fn is_reporter<R: Fn(&Progress, u128)>(report: &R) -> bool {
    forall|progress: &Progress, spent: u128| call_requires(report, (progress, spent))
}

/// The move and score that a search has to show for itself.
pub open spec fn found(best: (Option<Move>, Score)) -> Option<(Move, Score)> {
    match best.0 {
        Some(m) => Some((m, best.1)),
        None => None,
    }
}

/// A table of [`TABLE_SLOTS`] empty slots.
pub open spec fn empty_table() -> Slots {
    Seq::new(TABLE_SLOTS as nat, |i: int| None::<TranspositionEntry>)
}

/// What the search for the best move owes from `depth` on, with the best
/// move and score and the table that the depths before have left.
///
/// The depth is searched, and where the accepted search returned a move, the
/// move and its score are the best from then on. Then the clock is read:
/// where the time spent exceeds the budget, or the last depth is done, the
/// best move and score are the result, and else the next depth follows.
pub open spec fn is_deepening<E: Fn(&Chess) -> Score, C: Fn() -> u128>(
    eval: &E,
    clock: &C,
    pos: Chess,
    budget: u64,
    depth: i16,
    best: (Option<Move>, Score),
    slots: Slots,
    r: Option<(Move, Score)>,
) -> bool
    decreases MAX_DEPTH + 1 - depth,
{
    if depth < 1 || depth > MAX_DEPTH {
        false
    } else {
        exists|accepted: (Score, Option<Move>), after: Slots, spent: u128|
            #![trigger accepted.0.negatable(), after.len(), call_ensures(clock, (), spent)]
            {
                &&& accepted.0.negatable()
                &&& after.len() == slots.len()
                &&& is_iteration(eval, pos, depth, best.1, slots, after, accepted)
                &&& call_ensures(clock, (), spent)
                &&& if spent > budget * NANOS_PER_MILLI || depth + 1 > MAX_DEPTH {
                    r == found(
                        match accepted.1 {
                            Some(m) => (Some(m), accepted.0),
                            None => best,
                        },
                    )
                } else {
                    is_deepening(
                        eval,
                        clock,
                        pos,
                        budget,
                        (depth + 1) as i16,
                        match accepted.1 {
                            Some(m) => (Some(m), accepted.0),
                            None => best,
                        },
                        after,
                        r,
                    )
                }
            }
    }
}

/// Finds the best move of `pos` within a fortieth of the remaining time.
///
/// The search deepens from depth 1 on with a table of its own. After each
/// depth it hands the progress to `report`, with the milliseconds spent, and
/// reads the clock, which tells the nanoseconds spent, to decide whether to
/// go on. The first depth is always searched. There is no best move where
/// no search has returned one, as in a game that is over.
pub fn find_best_move<E: Fn(&Chess) -> Score, C: Fn() -> u128, R: Fn(&Progress, u128)>(
    pos: &Chess,
    remaining_time: i32,
    eval: &E,
    clock: &C,
    report: &R,
) -> (r: Option<(Move, Score)>)
    requires
        is_evaluator(eval),
        is_clock(clock),
        is_reporter(report),
    ensures
        is_deepening(
            eval, clock, *pos, (remaining_time as u64) / MOVES_TO_GO, 1,
            (None::<Move>, Score::lower_bound()), empty_table(), r,
        ),
{
    let budget = time_budget(remaining_time);
    let mut search = IterativeDeepening::new();
    assert(search.slots() =~= empty_table());
    loop
        invariant
            is_evaluator(eval),
            is_clock(clock),
            is_reporter(report),
            budget == (remaining_time as u64) / MOVES_TO_GO,
            search.wf(),
            search.next_depth() <= MAX_DEPTH,
            forall|r: Option<(Move, Score)>| #[trigger]
                is_deepening(eval, clock, *pos, budget, search.next_depth(), search.best_so_far(), search.slots(), r)
                    ==> is_deepening(
                    eval, clock, *pos, budget, 1, (None::<Move>, Score::lower_bound()),
                    empty_table(), r,
                ),
        decreases MAX_DEPTH + 1 - search.next_depth(),
    {
        let ghost depth = search.next_depth();
        let ghost best = search.best_so_far();
        let ghost slots = search.slots();
        let progress = search.deepen(pos, eval);
        let shown = clock();
        report(&progress, shown / NANOS_PER_MILLI);
        let spent = clock();
        let ghost accepted = choose|accepted: (Score, Option<Move>)|
            {
                &&& accepted.0.negatable()
                &&& #[trigger] is_iteration(eval, *pos, depth, best.1, slots, search.slots(), accepted)
                &&& search.best_so_far() == match accepted.1 {
                    Some(m) => (Some(m), accepted.0),
                    None => best,
                }
            };
        if search.is_finished(spent, budget) {
            let r = search.best();
            proof {
                assert(is_deepening(eval, clock, *pos, budget, depth, best, slots, r));
            }
            return r;
        }
        proof {
            assert forall|r: Option<(Move, Score)>| #[trigger]
                is_deepening(
                    eval, clock, *pos, budget, search.next_depth(), search.best_so_far(),
                    search.slots(), r,
                ) implies is_deepening(
                eval, clock, *pos, budget, 1, (None::<Move>, Score::lower_bound()), empty_table(),
                r,
            ) by {
                assert(is_deepening(eval, clock, *pos, budget, depth, best, slots, r));
            }
        }
    }
}

} // verus!
