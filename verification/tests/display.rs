use shakmaty::Board;
use voin::display::{display_board, render_board};

#[test]
fn start_position_is_drawn() {
    let expected = " ==========\n\
                    0|rnbqkbnr|\n\
                    1|pppppppp|\n\
                    2|        |\n\
                    3|        |\n\
                    4|        |\n\
                    5|        |\n\
                    6|PPPPPPPP|\n\
                    7|RNBQKBNR|\n \
                    ==========\n  \
                    ABCDFGHI ";
    assert_eq!(display_board(&Board::default()), expected);
    assert_eq!(render_board("rnbqkbnr/pppppppp/8/8/8/8/PPPPPPPP/RNBQKBNR"), expected);
}

#[test]
fn digits_become_blanks() {
    assert_eq!(
        render_board("4k3/8/2p1P3"),
        " ==========\n0|    k   |\n1|        |\n2|  p P   |\n ==========\n  ABCDFGHI "
    );
}

#[test]
fn an_empty_notation_is_one_empty_rank() {
    assert_eq!(render_board(""), " ==========\n0||\n ==========\n  ABCDFGHI ");
    assert_eq!(render_board("/"), " ==========\n0||\n1||\n ==========\n  ABCDFGHI ");
    assert_eq!(render_board("0x9"), " ==========\n0|x         |\n ==========\n  ABCDFGHI ");
}

#[test]
fn ranks_are_numbered_in_decimal() {
    let drawn = render_board("/////////k//");
    assert!(drawn.contains("\n9|k|\n10||\n11||\n"));
}

#[test]
fn an_empty_board_is_drawn() {
    assert_eq!(
        display_board(&Board::empty()),
        " ==========\n0|        |\n1|        |\n2|        |\n3|        |\n4|        |\n\
         5|        |\n6|        |\n7|        |\n ==========\n  ABCDFGHI "
    );
}
