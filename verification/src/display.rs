//! A picture of the board in text.

use crate::rules::{board_fen, board_fen_of, placement_of};
use crate::text::{append_digits, digits};
use shakmaty::Board;
use vstd::prelude::*;
use vstd::string::*;

verus! {

/// `String::push` of std: appends one character.
pub assume_specification[ String::push ](text: &mut String, ch: char)
    ensures
        final(text)@ == old(text)@.push(ch),
;

/// What a character of the notation shows on the board: a digit as many
/// blanks as it counts, every other character itself.
pub open spec fn cell(c: char) -> Seq<char> {
    if '0' <= c && c <= '9' {
        Seq::new((c as u32 - '0' as u32) as nat, |i: int| ' ')
    } else {
        seq![c]
    }
}

/// The rest of the picture from the character at `at` on, within the rank
/// that is numbered `row`. A slash ends the rank and begins the next one
/// with its number and a bar, and the end of the notation ends the last
/// rank.
pub open spec fn ranks_from(fen: Seq<char>, at: int, row: nat) -> Seq<char>
    decreases fen.len() - at,
{
    if at < 0 || at >= fen.len() {
        "|\n"@
    } else if fen[at] == '/' {
        "|\n"@ + digits(row + 1) + "|"@ + ranks_from(fen, at + 1, row + 1)
    } else {
        cell(fen[at]) + ranks_from(fen, at + 1, row)
    }
}

/// The picture of a board, given the board part of its Forsyth-Edwards
/// notation: a frame, then one line for each rank with its number from 0 on,
/// its squares between two bars, and at last a line of letters.
pub open spec fn picture(fen: Seq<char>) -> Seq<char> {
    " ==========\n"@ + digits(0) + "|"@ + ranks_from(fen, 0, 0) + " ==========\n"@
        + "  ABCDFGHI "@
}

/// Appends what the character `c` shows on the board.
fn push_cell(out: &mut String, c: char)
    ensures
        final(out)@ == old(out)@ + cell(c),
{
    if '0' <= c && c <= '9' {
        let count = c as u32 - '0' as u32;
        let mut done: u32 = 0;
        while done < count
            invariant
                done <= count,
                count == c as u32 - '0' as u32,
                '0' <= c && c <= '9',
                out@ == old(out)@ + Seq::new(done as nat, |i: int| ' '),
            decreases count - done,
        {
            out.push(' ');
            assert(out@ =~= old(out)@ + Seq::new((done + 1) as nat, |i: int| ' '));
            done += 1;
        }
    } else {
        out.push(c);
        assert(out@ =~= old(out)@ + seq![c]);
    }
}

/// Draws the picture of a board from the board part of its Forsyth-Edwards
/// notation.
pub fn render_board(fen: &str) -> (r: String)
    ensures
        r@ == picture(fen@),
{
    let mut out = String::from_str(" ==========\n");
    append_digits(&mut out, 0);
    out.append("|");
    let ghost head = out@;
    let length = fen.unicode_len();
    let mut row: usize = 0;
    let mut at: usize = 0;
    while at < length
        invariant
            at <= length,
            length == fen@.len(),
            row <= at,
            out@ + ranks_from(fen@, at as int, row as nat) == head + ranks_from(fen@, 0, 0),
        decreases length - at,
    {
        let c = fen.get_char(at);
        let ghost before = out@;
        if c == '/' {
            out.append("|\n");
            row += 1;
            append_digits(&mut out, row as u64);
            out.append("|");
            assert(out@ + ranks_from(fen@, at + 1, row as nat) =~= before + ranks_from(
                fen@,
                at as int,
                (row - 1) as nat,
            ));
        } else {
            push_cell(&mut out, c);
            assert(out@ + ranks_from(fen@, at + 1, row as nat) =~= before + ranks_from(
                fen@,
                at as int,
                row as nat,
            ));
        }
        at += 1;
    }
    let ghost body = out@;
    out.append("|\n");
    out.append(" ==========\n");
    out.append("  ABCDFGHI ");
    assert(out@ =~= picture(fen@));
    out
}

/// Draws the picture of `board`.
pub fn display_board(board: &Board) -> (r: String)
    ensures
        r@ == picture(board_fen_of(placement_of(*board))),
{
    let fen = board_fen(board);
    render_board(fen.as_str())
}

} // verus!
