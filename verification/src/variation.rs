//! The principal variation: the line of best moves that a transposition
//! table records from a position on.

use crate::rules::{
    legal_moves_in, play_move, situation_after, situation_of, zobrist_hash, zobrist_in, Situation,
};
use crate::transposition::{lookup, Slots, TranspositionTable};
use crate::types::Move;
use shakmaty::Chess;
use vstd::prelude::*;

verus! {

/// The longest principal variation that is read from a table.
pub const PRINCIPAL_VARIATION_PLIES: usize = 100;

/// The line of best moves that the table records from a position on: the
/// move stored under the hash of the position, then the line from the
/// position that it leads to, for at most `plies` moves. The line ends where
/// the table has no entry or no move, or a move that is not legal there.
pub open spec fn principal_variation(
    situation: Situation,
    slots: Slots,
    plies: nat,
) -> Seq<Move>
    decreases plies,
{
    if plies == 0 {
        Seq::empty()
    } else {
        match lookup(slots, zobrist_in(situation)) {
            Some(entry) => match entry.best_move {
                Some(m) => if legal_moves_in(situation).contains(m) {
                    seq![m] + principal_variation(
                        situation_after(situation, m),
                        slots,
                        (plies - 1) as nat,
                    )
                } else {
                    Seq::empty()
                },
                None => Seq::empty(),
            },
            None => Seq::empty(),
        }
    }
}

/// A principal variation is no longer than the number of plies that it is
/// read for, and each of its moves is legal where it is played.
pub proof fn principal_variation_is_capped(
    situation: Situation,
    slots: Slots,
    plies: nat,
)
    ensures
        principal_variation(situation, slots, plies).len() <= plies,
        principal_variation(situation, slots, plies).len() > 0 ==> legal_moves_in(
            situation,
        ).contains(principal_variation(situation, slots, plies)[0]),
    decreases plies,
{
    if plies > 0 {
        match lookup(slots, zobrist_in(situation)) {
            Some(entry) => match entry.best_move {
                Some(m) => {
                    if legal_moves_in(situation).contains(m) {
                        principal_variation_is_capped(
                            situation_after(situation, m),
                            slots,
                            (plies - 1) as nat,
                        );
                    }
                },
                None => {},
            },
            None => {},
        }
    }
}

/// Appends to `line` the principal variation of at most `plies` moves from
/// `pos` on.
fn extend_principal_variation(
    pos: &Chess,
    table: &TranspositionTable,
    plies: usize,
    line: &mut Vec<Move>,
)
    requires
        table.wf(),
    ensures
        final(line)@ == old(line)@ + principal_variation(situation_of(*pos), table@, plies as nat),
    decreases plies,
{
    proof {
        table.wf_has_slots();
    }
    if plies == 0 {
        assert(line@ =~= line@ + Seq::<Move>::empty());
        return;
    }
    let remembered = match table.get(zobrist_hash(pos)) {
        Some(entry) => entry.best_move,
        None => None,
    };
    if let Some(m) = remembered {
        if let Some(next) = play_move(pos, &m) {
            let ghost before = line@;
            line.push(m);
            extend_principal_variation(&next, table, plies - 1, line);
            assert(line@ =~= before + (seq![m] + principal_variation(
                situation_of(next),
                table@,
                (plies - 1) as nat,
            )));
            return;
        }
    }
    assert(line@ =~= line@ + Seq::<Move>::empty());
}

/// Reads the principal variation from the table: the recorded best moves
/// from `pos` on, each played to reach the next position, up to 100 moves.
pub fn get_principal_variation(pos: &Chess, table: &TranspositionTable) -> (line: Vec<Move>)
    requires
        table.wf(),
    ensures
        line@ == principal_variation(situation_of(*pos), table@, PRINCIPAL_VARIATION_PLIES as nat),
{
    let mut line: Vec<Move> = Vec::new();
    extend_principal_variation(pos, table, PRINCIPAL_VARIATION_PLIES, &mut line);
    assert(line@ =~= Seq::<Move>::empty() + principal_variation(
        situation_of(*pos),
        table@,
        PRINCIPAL_VARIATION_PLIES as nat,
    ));
    line
}

} // verus!
