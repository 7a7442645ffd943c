use shakmaty::fen::Fen;
use shakmaty::{CastlingMode, Chess};
use voin::evaluation::{
    center_control, centipawns, evaluate_mobility, evaluate_pawn_structure, get_piece_value,
    king_file_weight, phase_units, score_of_outcome, space_control,
};
use voin::score::Score;
use voin::tables::piece_square_values;
use voin::types::{Color, Outcome, Piece, Role};

fn position(fen: &str) -> Chess {
    let fen: Fen = fen.parse().unwrap();
    fen.into_position(CastlingMode::Standard).unwrap()
}

fn after_e4() -> Chess {
    position("rnbqkbnr/pppppppp/8/8/4P3/8/PPPP1PPP/RNBQKBNR b KQkq - 0 1")
}

#[test]
fn pieces_have_their_values() {
    assert_eq!(get_piece_value(Role::Pawn), Score::Centipawn(100));
    assert_eq!(get_piece_value(Role::Knight), Score::Centipawn(325));
    assert_eq!(get_piece_value(Role::Bishop), Score::Centipawn(350));
    assert_eq!(get_piece_value(Role::Rook), Score::Centipawn(500));
    assert_eq!(get_piece_value(Role::Queen), Score::Centipawn(1000));
    assert_eq!(get_piece_value(Role::King), Score::Centipawn(10000));
    assert_eq!(centipawns(Role::Queen), 1000);
}

#[test]
fn finished_games_have_their_scores() {
    assert_eq!(score_of_outcome(Outcome::Decisive { winner: Color::White }), Score::Mate(1));
    assert_eq!(score_of_outcome(Outcome::Decisive { winner: Color::Black }), Score::Mate(-1));
    assert_eq!(score_of_outcome(Outcome::Draw), Score::Centipawn(0));
}

#[test]
fn phase_counts_the_pieces() {
    assert_eq!(phase_units(&Chess::default()), 24);
    assert_eq!(phase_units(&position("4k3/8/8/8/8/8/8/4K3 w - - 0 1")), 0);
    assert_eq!(phase_units(&position("4k3/8/8/8/8/8/8/R2QK1N1 w - - 0 1")), 7);
    assert_eq!(phase_units(&position("2b1k3/pppp4/8/8/8/8/8/4K3 w - - 0 1")), 1);
}

#[test]
fn mobility_of_the_start_position_is_level() {
    assert_eq!(evaluate_mobility(&Chess::default()), Score::Centipawn(0));
}

#[test]
fn mobility_counts_attacked_squares() {
    assert_eq!(evaluate_mobility(&after_e4()), Score::Centipawn(15));
    assert_eq!(
        evaluate_mobility(&position("4k3/8/8/8/8/8/8/R3K3 w - - 0 1")),
        Score::Centipawn(22)
    );
    assert_eq!(
        evaluate_mobility(&position("r3k3/8/8/8/8/8/8/4K3 w - - 0 1")),
        Score::Centipawn(-22)
    );
    assert_eq!(
        evaluate_mobility(&position("4k3/8/8/3B4/8/8/8/4K3 w - - 0 1")),
        Score::Centipawn(39)
    );
}

#[test]
fn pawn_structure_of_the_start_position_is_level() {
    assert_eq!(evaluate_pawn_structure(&Chess::default()), Score::Centipawn(0));
}

#[test]
fn pawn_structure_counts_isolated_and_doubled_pawns() {
    assert_eq!(evaluate_pawn_structure(&after_e4()), Score::Centipawn(-15));
    assert_eq!(
        evaluate_pawn_structure(&position("4k3/8/8/8/8/8/P1P5/4K3 w - - 0 1")),
        Score::Centipawn(-30)
    );
    assert_eq!(
        evaluate_pawn_structure(&position("4k3/8/8/8/8/1P6/1P6/4K3 w - - 0 1")),
        Score::Centipawn(-50)
    );
    assert_eq!(
        evaluate_pawn_structure(&position("4k3/1p6/1p6/8/8/8/8/4K3 w - - 0 1")),
        Score::Centipawn(50)
    );
    assert_eq!(
        evaluate_pawn_structure(&position("4k3/8/8/8/8/8/PP6/4K3 w - - 0 1")),
        Score::Centipawn(-15)
    );
    assert_eq!(
        evaluate_pawn_structure(&position("4k3/8/8/8/8/2P5/1P6/4K3 w - - 0 1")),
        Score::Centipawn(-15)
    );
    assert_eq!(
        evaluate_pawn_structure(&position("4k3/8/8/8/8/1P6/2P5/4K3 w - - 0 1")),
        Score::Centipawn(-15)
    );
}

#[test]
fn space_counts_attacks_on_the_far_half() {
    assert_eq!(space_control(&Chess::default()), (0, 0));
    assert_eq!(space_control(&after_e4()), (70, 0));
    assert_eq!(space_control(&position("4k3/8/8/8/8/8/8/R3K3 w - - 0 1")), (40, 0));
    assert_eq!(space_control(&position("r3k3/8/8/8/8/8/8/4K3 w - - 0 1")), (0, 40));
}

#[test]
fn center_counts_pieces_and_attacks() {
    assert_eq!(center_control(&Chess::default()), (0, 0));
    assert_eq!(center_control(&after_e4()), (55, 0));
    assert_eq!(center_control(&position("4k3/8/8/3n4/8/8/8/4K3 w - - 0 1")), (0, 30));
    assert_eq!(center_control(&position("4k3/8/8/8/3R4/8/8/4K3 w - - 0 1")), (50, 0));
    assert_eq!(center_control(&position("4k3/8/8/3K4/8/8/8/8 w - - 0 1")), (0, 0));
}

#[test]
fn kings_weigh_more_on_the_middle_files() {
    assert_eq!(king_file_weight(4), 50);
    assert_eq!(king_file_weight(59), 50);
    assert_eq!(king_file_weight(6), 20);
    assert_eq!(king_file_weight(0), 20);
    assert_eq!(king_file_weight(63), 20);
}

#[test]
fn tables_are_read_from_the_side_of_the_owner() {
    let white = |role| Piece { color: Color::White, role };
    let black = |role| Piece { color: Color::Black, role };
    assert_eq!(piece_square_values(white(Role::Pawn), 12), (50, 80));
    assert_eq!(piece_square_values(black(Role::Pawn), 52), (50, 80));
    assert_eq!(piece_square_values(white(Role::Pawn), 52), (-20, 0));
    assert_eq!(piece_square_values(black(Role::Pawn), 12), (-20, 0));
    assert_eq!(piece_square_values(white(Role::Knight), 1), (-40, -40));
    assert_eq!(piece_square_values(white(Role::King), 4), (0, -20));
    assert_eq!(piece_square_values(black(Role::King), 60), (0, -20));
    assert_eq!(piece_square_values(white(Role::Queen), 3), (-5, -5));
    assert_eq!(piece_square_values(white(Role::Rook), 0), (0, 10));
    assert_eq!(piece_square_values(white(Role::Rook), 63), (0, 0));
    assert_eq!(piece_square_values(black(Role::Bishop), 63), (-20, -20));
    assert_eq!(piece_square_values(white(Role::Bishop), 9), (5, 0));
}
