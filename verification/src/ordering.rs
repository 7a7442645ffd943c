//! The order in which the search tries moves.
//!
//! Moves stay where the move generator put them. An order is a list of their
//! indices, sorted by a key of each move, where moves of equal key keep the
//! order of generation.

use crate::evaluation::{centipawns, get_piece_value, piece_value};
use crate::rules::MoveList;
use crate::score::Score;
use crate::types::Move;
use vstd::prelude::*;

verus! {

/// Whether index `a` is tried before index `b`: its key is greater, or the
/// keys are equal and `a` was generated first.
pub open spec fn goes_before(keys: Seq<i32>, a: int, b: int) -> bool {
    keys[a] > keys[b] || (keys[a] == keys[b] && a < b)
}

/// Whether the indices in `order` are sorted: each is tried before all that
/// follow it.
pub open spec fn is_sorted(order: Seq<usize>, keys: Seq<i32>) -> bool {
    forall|i: int, j: int|
        0 <= i < j < order.len() ==> goes_before(keys, #[trigger] order[i] as int, #[trigger] order[j] as int)
}

/// Whether `order` holds the same indices as `items`, each once, sorted.
pub open spec fn is_order_of(order: Seq<usize>, items: Seq<usize>, keys: Seq<i32>) -> bool {
    &&& order.len() == items.len()
    &&& forall|i: int| 0 <= i < order.len() ==> items.contains(#[trigger] order[i])
    &&& forall|i: int| 0 <= i < items.len() ==> order.contains(#[trigger] items[i])
    &&& is_sorted(order, keys)
}

/// Whether `items` are distinct indices into `keys`, in rising order.
pub open spec fn is_rising(items: Seq<usize>, bound: nat) -> bool {
    &&& forall|i: int| 0 <= i < items.len() ==> (#[trigger] items[i]) < bound
    &&& forall|i: int, j: int| 0 <= i < j < items.len() ==> (#[trigger] items[i]) < (#[trigger] items[j])
}

/// Sorts the indices `items` by descending key. Indices of equal key stay in
/// rising order.
fn sort_by_key(items: &Vec<usize>, keys: &Vec<i32>) -> (order: Vec<usize>)
    requires
        is_rising(items@, keys@.len()),
    ensures
        is_order_of(order@, items@, keys@),
{
    let mut order: Vec<usize> = Vec::new();
    let mut k: usize = 0;
    while k < items.len()
        invariant
            k <= items@.len(),
            is_rising(items@, keys@.len()),
            is_order_of(order@, items@.take(k as int), keys@),
        decreases items@.len() - k,
    {
        let x = items[k];
        let mut p: usize = 0;
        while p < order.len() && (keys[order[p]] > keys[x] || (keys[order[p]] == keys[x] && order[p]
            < x))
            invariant
                p <= order@.len(),
                k < items@.len(),
                x == items@[k as int],
                is_rising(items@, keys@.len()),
                is_order_of(order@, items@.take(k as int), keys@),
                forall|i: int| 0 <= i < p ==> goes_before(keys@, #[trigger] order@[i] as int, x as int),
            decreases order@.len() - p,
        {
            assert(items@.take(k as int).contains(order@[p as int]));
            p += 1;
        }
        let ghost before = order@;
        proof {
            assert forall|i: int| 0 <= i < before.len() implies (#[trigger] before[i]) < x by {
                assert(items@.take(k as int).contains(before[i]));
                let j = choose|j: int| 0 <= j < k && items@.take(k as int)[j] == before[i];
                assert(items@[j] < items@[k as int]);
            }
        }
        order.insert(p, x);
        proof {
            let after = order@;
            assert(after == before.insert(p as int, x));
            assert forall|i: int, j: int| 0 <= i < j < after.len() implies goes_before(
                keys@,
                #[trigger] after[i] as int,
                #[trigger] after[j] as int,
            ) by {
                if j < p {
                    assert(after[i] == before[i] && after[j] == before[j]);
                } else if j == p {
                    assert(after[i] == before[i]);
                } else if i < p {
                    assert(after[i] == before[i] && after[j] == before[j - 1]);
                } else if i == p {
                    assert(after[j] == before[j - 1]);
                    if p < before.len() {
                        assert(before[p as int] < x);
                        assert(goes_before(keys@, x as int, before[p as int] as int));
                        if j - 1 > p {
                            assert(goes_before(keys@, before[p as int] as int, before[j - 1] as int));
                        }
                    }
                } else {
                    assert(after[i] == before[i - 1] && after[j] == before[j - 1]);
                }
            }
            assert forall|i: int| 0 <= i < after.len() implies items@.take(k + 1).contains(
                #[trigger] after[i],
            ) by {
                if i == p {
                    assert(items@.take(k + 1)[k as int] == x);
                } else {
                    let old_i = if i < p { i } else { i - 1 };
                    assert(after[i] == before[old_i]);
                    assert(items@.take(k as int).contains(before[old_i]));
                    let j = choose|j: int| 0 <= j < k && items@.take(k as int)[j] == before[old_i];
                    assert(items@.take(k + 1)[j] == before[old_i]);
                }
            }
            assert forall|i: int| 0 <= i < items@.take(k + 1).len() implies after.contains(
                #[trigger] items@.take(k + 1)[i],
            ) by {
                if i == k {
                    assert(after[p as int] == x);
                } else {
                    assert(before.contains(items@.take(k as int)[i]));
                    let j = choose|j: int| 0 <= j < before.len() && before[j] == items@.take(k as int)[i];
                    let new_j = if j < p { j } else { j + 1 };
                    assert(after[new_j] == before[j]);
                }
            }
        }
        k += 1;
    }
    assert(items@.take(items@.len() as int) =~= items@);
    order
}

/// The key of a move in the main search: 1000 and the value of the piece
/// taken for a capture, 900 more for a promotion, 0 for a quiet move.
pub open spec fn main_key(m: Move) -> int {
    (match m.captured_role() {
        Some(victim) => 1000 + piece_value(victim),
        None => 0,
    }) + (if m.promoted_role() is Some {
        900int
    } else {
        0int
    })
}

/// The key of a move in the quiescence search. A capture ranks by ten times
/// the value of the piece taken less the value of the piece that takes, above
/// every move that takes nothing, which ranks by the number of its role.
pub open spec fn capture_key(m: Move) -> int {
    match m.captured_role() {
        Some(victim) => 1000000 + 10 * piece_value(victim) - piece_value(m.moved_role()),
        None => m.moved_role().rank(),
    }
}

/// Whether the quiescence search tries a move: every move while in check,
/// else a capture that could lift the score above `alpha` if the value of the
/// piece taken and a margin of 100 were added to the standing score.
pub open spec fn is_candidate(m: Move, in_check: bool, stand_pat: Score, alpha: Score) -> bool {
    in_check || match m.captured_role() {
        Some(victim) => alpha.ranks_below(
            stand_pat.plus(Score::Centipawn(piece_value(victim))).plus(Score::Centipawn(100)),
        ),
        None => false,
    }
}

/// Whether `order` lists exactly the indices that `wanted` marks, sorted by
/// their keys.
pub open spec fn lists_sorted(order: Seq<usize>, keys: Seq<i32>, wanted: Seq<bool>) -> bool {
    &&& forall|i: int| 0 <= i < order.len() ==> (#[trigger] order[i]) < keys.len()
    &&& forall|i: int| 0 <= i < keys.len() ==> (order.contains(i as usize) <==> #[trigger] wanted[i])
    &&& is_sorted(order, keys)
}

/// The keys of `moves` in the main search.
pub open spec fn main_keys(moves: Seq<Move>) -> Seq<i32> {
    Seq::new(moves.len(), |i: int| main_key(moves[i]) as i32)
}

/// The keys of `moves` in the quiescence search.
pub open spec fn capture_keys(moves: Seq<Move>) -> Seq<i32> {
    Seq::new(moves.len(), |i: int| capture_key(moves[i]) as i32)
}

/// Which of `moves` the quiescence search tries.
pub open spec fn candidates(
    moves: Seq<Move>,
    in_check: bool,
    stand_pat: Score,
    alpha: Score,
) -> Seq<bool> {
    Seq::new(moves.len(), |i: int| is_candidate(moves[i], in_check, stand_pat, alpha))
}

/// The order of the main search over `moves`: all of them, by [`main_key`].
pub open spec fn is_main_order(order: Seq<usize>, moves: Seq<Move>) -> bool {
    lists_sorted(order, main_keys(moves), Seq::new(moves.len(), |i: int| true))
}

/// The order of the quiescence search over `moves`: the candidates among
/// them, by [`capture_key`].
pub open spec fn is_quiescence_order(
    order: Seq<usize>,
    moves: Seq<Move>,
    in_check: bool,
    stand_pat: Score,
    alpha: Score,
) -> bool {
    lists_sorted(order, capture_keys(moves), candidates(moves, in_check, stand_pat, alpha))
}

/// The key of `m` in the main search.
pub fn move_order_key(m: &Move) -> (key: i32)
    ensures
        key == main_key(*m),
{
    let mut key: i32 = 0;
    if let Some(victim) = m.capture() {
        key = 1000 + centipawns(victim) as i32;
    }
    if m.promotion().is_some() {
        key = key + 900;
    }
    key
}

/// The key of `m` in the quiescence search.
pub fn capture_order_key(m: &Move) -> (key: i32)
    ensures
        key == capture_key(*m),
{
    match m.capture() {
        Some(victim) => 1000000 + 10 * (centipawns(victim) as i32) - centipawns(m.role()) as i32,
        None => m.role().index() as i32,
    }
}

/// Whether the quiescence search tries `m`.
pub fn is_worth_trying(m: &Move, in_check: bool, stand_pat: Score, alpha: Score) -> (r: bool)
    ensures
        r == is_candidate(*m, in_check, stand_pat, alpha),
{
    if in_check {
        return true;
    }
    match m.capture() {
        Some(victim) => stand_pat + get_piece_value(victim) + Score::Centipawn(100) > alpha,
        None => false,
    }
}

/// Lists the indices that `wanted` marks, sorted by their keys.
fn select_and_sort(keys: &Vec<i32>, wanted: &Vec<bool>) -> (order: Vec<usize>)
    requires
        keys@.len() == wanted@.len(),
    ensures
        lists_sorted(order@, keys@, wanted@),
{
    let mut items: Vec<usize> = Vec::new();
    let mut i: usize = 0;
    while i < keys.len()
        invariant
            i <= keys@.len(),
            keys@.len() == wanted@.len(),
            is_rising(items@, i as nat),
            forall|j: int| 0 <= j < i ==> (items@.contains(j as usize) <==> #[trigger] wanted@[j]),
        decreases keys@.len() - i,
    {
        if wanted[i] {
            let ghost before = items@;
            items.push(i);
            proof {
                assert(items@[before.len() as int] == i);
                assert forall|j: int| 0 <= j < i + 1 implies (items@.contains(j as usize)
                    <==> #[trigger] wanted@[j]) by {
                    if j < i {
                        if before.contains(j as usize) {
                            let at = choose|at: int| 0 <= at < before.len() && before[at] == j as usize;
                            assert(items@[at] == j as usize);
                        }
                        if items@.contains(j as usize) {
                            let at = choose|at: int| 0 <= at < items@.len() && items@[at] == j as usize;
                            assert(before[at] == j as usize);
                        }
                    }
                }
            }
        } else {
            proof {
                if items@.contains(i) {
                    let at = choose|at: int| 0 <= at < items@.len() && items@[at] == i;
                    assert(items@[at] < i);
                }
            }
        }
        i += 1;
    }
    let order = sort_by_key(&items, keys);
    proof {
        assert forall|j: int| 0 <= j < order@.len() implies (#[trigger] order@[j]) < keys@.len() by {
            assert(items@.contains(order@[j]));
        }
        assert forall|j: int| 0 <= j < keys@.len() implies (order@.contains(j as usize)
            <==> #[trigger] wanted@[j]) by {
            if order@.contains(j as usize) {
                let at = choose|at: int| 0 <= at < order@.len() && order@[at] == j as usize;
                assert(items@.contains(order@[at]));
            }
            if items@.contains(j as usize) {
                let at = choose|at: int| 0 <= at < items@.len() && items@[at] == j as usize;
                assert(order@.contains(items@[at]));
            }
        }
    }
    order
}

/// The order in which the main search tries `moves`.
pub fn main_order(moves: &MoveList) -> (order: Vec<usize>)
    ensures
        is_main_order(order@, moves@),
{
    let mut keys: Vec<i32> = Vec::new();
    let mut wanted: Vec<bool> = Vec::new();
    let mut i: usize = 0;
    while i < moves.len()
        invariant
            i <= moves@.len(),
            keys@.len() == i,
            wanted@.len() == i,
            forall|j: int| 0 <= j < i ==> #[trigger] keys@[j] == main_key(moves@[j]),
            forall|j: int| 0 <= j < i ==> #[trigger] wanted@[j],
        decreases moves@.len() - i,
    {
        let m = moves.get(i);
        keys.push(move_order_key(&m));
        wanted.push(true);
        i += 1;
    }
    assert(keys@ =~= main_keys(moves@));
    assert(wanted@ =~= Seq::new(moves@.len(), |i: int| true));
    select_and_sort(&keys, &wanted)
}

/// The moves that the quiescence search tries, in their order.
pub fn quiescence_order(moves: &MoveList, in_check: bool, stand_pat: Score, alpha: Score) -> (order:
    Vec<usize>)
    ensures
        is_quiescence_order(order@, moves@, in_check, stand_pat, alpha),
{
    let mut keys: Vec<i32> = Vec::new();
    let mut wanted: Vec<bool> = Vec::new();
    let mut i: usize = 0;
    while i < moves.len()
        invariant
            i <= moves@.len(),
            keys@.len() == i,
            wanted@.len() == i,
            forall|j: int| 0 <= j < i ==> #[trigger] keys@[j] == capture_key(moves@[j]),
            forall|j: int|
                0 <= j < i ==> #[trigger] wanted@[j] == is_candidate(
                    moves@[j], in_check, stand_pat, alpha,
                ),
        decreases moves@.len() - i,
    {
        let m = moves.get(i);
        keys.push(capture_order_key(&m));
        wanted.push(is_worth_trying(&m, in_check, stand_pat, alpha));
        i += 1;
    }
    assert(keys@ =~= capture_keys(moves@));
    assert(wanted@ =~= candidates(moves@, in_check, stand_pat, alpha));
    select_and_sort(&keys, &wanted)
}

/// The order with the entries at `first` and at 0 exchanged.
pub open spec fn with_first(order: Seq<usize>, first: int) -> Seq<usize> {
    order.update(0, order[first]).update(first, order[0])
}

/// Whether `at` is the first place in `order` whose move is `m`.
pub open spec fn is_first_place_of(order: Seq<usize>, moves: Seq<Move>, m: Move, at: int) -> bool {
    &&& 0 <= at < order.len()
    &&& moves[order[at] as int] == m
    &&& forall|i: int| 0 <= i < at ==> moves[#[trigger] order[i] as int] != m
}

/// Whether `after` is `before` with the move `best` brought to the front:
/// the first place of the order that holds `best` is exchanged with place 0.
/// Where no place holds `best` the order stays as it is.
pub open spec fn is_promoted(
    before: Seq<usize>,
    after: Seq<usize>,
    moves: Seq<Move>,
    best: Move,
) -> bool {
    ||| exists|at: int| #[trigger]
        is_first_place_of(before, moves, best, at) && after == with_first(before, at)
    ||| (forall|i: int| 0 <= i < before.len() ==> moves[#[trigger] before[i] as int] != best)
        && after == before
}

/// Moves the remembered best move to the front of the order, in exchange
/// for the move that stood there. Nothing happens where no move of the order
/// is the remembered one.
pub fn hash_move_first(order: &mut Vec<usize>, moves: &MoveList, best: &Move)
    requires
        forall|i: int| 0 <= i < old(order)@.len() ==> (#[trigger] old(order)@[i]) < moves@.len(),
    ensures
        is_promoted(old(order)@, final(order)@, moves@, *best),
        final(order)@.len() == old(order)@.len(),
        forall|i: int| 0 <= i < final(order)@.len() ==> (#[trigger] final(order)@[i]) < moves@.len(),
{
    let mut at: usize = 0;
    while at < order.len()
        invariant
            at <= order@.len(),
            order@ == old(order)@,
            forall|i: int| 0 <= i < order@.len() ==> (#[trigger] order@[i]) < moves@.len(),
            forall|i: int| 0 <= i < at ==> moves@[#[trigger] order@[i] as int] != *best,
        decreases order@.len() - at,
    {
        if moves.get(order[at]) == *best {
            let front = order[0];
            let found = order[at];
            order.set(0, found);
            order.set(at, front);
            assert(is_first_place_of(old(order)@, moves@, *best, at as int));
            assert(order@ =~= with_first(old(order)@, at as int));
            return;
        }
        at += 1;
    }
}

/// The order in which the main search tries `moves`, given the move that the
/// table remembers for the position: the moves sorted by their keys, with the
/// remembered move brought to the front.
pub open spec fn is_tried_order(order: Seq<usize>, moves: Seq<Move>, remembered: Option<Move>) -> bool {
    exists|sorted: Seq<usize>| #[trigger]
        is_main_order(sorted, moves) && match remembered {
            Some(best) => is_promoted(sorted, order, moves, best),
            None => order == sorted,
        }
}

/// Two sorted lists of the same marked indices agree in their first `upto`
/// places.
proof fn sorted_lists_agree(a: Seq<usize>, b: Seq<usize>, keys: Seq<i32>, wanted: Seq<bool>, upto: int)
    requires
        lists_sorted(a, keys, wanted),
        lists_sorted(b, keys, wanted),
        wanted.len() == keys.len(),
        0 <= upto <= a.len(),
    ensures
        upto <= b.len(),
        forall|j: int| 0 <= j < upto ==> a[j] == b[j],
    decreases upto,
{
    if upto > 0 {
        let k = upto - 1;
        sorted_lists_agree(a, b, keys, wanted, k);
        assert(wanted[a[k] as int]) by {
            assert(a.contains(a[k]));
        }
        assert(b.contains(a[k]));
        let p = choose|p: int| 0 <= p < b.len() && b[p] == a[k];
        if p < k {
            assert(goes_before(keys, a[p] as int, a[k] as int));
        }
        assert(k < b.len());
        assert(wanted[b[k] as int]) by {
            assert(b.contains(b[k]));
        }
        assert(a.contains(b[k]));
        let q = choose|q: int| 0 <= q < a.len() && a[q] == b[k];
        if q < k {
            assert(goes_before(keys, b[q] as int, b[k] as int));
        }
        if p > k {
            assert(goes_before(keys, b[k] as int, b[p] as int));
            if q > k {
                assert(goes_before(keys, a[k] as int, a[q] as int));
            }
        }
    }
}

/// The marked indices have one sorted list: two lists that both are sorted
/// lists of them are the same.
pub proof fn sorted_list_is_unique(a: Seq<usize>, b: Seq<usize>, keys: Seq<i32>, wanted: Seq<bool>)
    requires
        lists_sorted(a, keys, wanted),
        lists_sorted(b, keys, wanted),
        wanted.len() == keys.len(),
    ensures
        a == b,
{
    sorted_lists_agree(a, b, keys, wanted, a.len() as int);
    sorted_lists_agree(b, a, keys, wanted, b.len() as int);
    assert(a =~= b);
}

} // verus!
