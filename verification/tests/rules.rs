use shakmaty::fen::Fen;
use shakmaty::{CastlingMode, Chess};
use voin::rules::MoveList;
use voin::types::{Move, Role};

fn position(fen: &str) -> Chess {
    let fen: Fen = fen.parse().unwrap();
    fen.into_position(CastlingMode::Standard).unwrap()
}

fn moves_of(list: &MoveList) -> Vec<Move> {
    (0..list.len()).map(|i| list.get(i)).collect()
}

#[test]
fn start_position_has_twenty_moves() {
    let list = MoveList::generate(&Chess::default());
    assert_eq!(list.len(), 20);
    let moves = moves_of(&list);
    let pawn_to_e4 =
        Move::Normal { role: Role::Pawn, from: 12, capture: None, to: 28, promotion: None };
    let knight_to_f3 =
        Move::Normal { role: Role::Knight, from: 6, capture: None, to: 21, promotion: None };
    assert!(moves.contains(&pawn_to_e4));
    assert!(moves.contains(&knight_to_f3));
    assert_eq!(moves.iter().filter(|m| m.role() == Role::Pawn).count(), 16);
    assert_eq!(moves.iter().filter(|m| m.role() == Role::Knight).count(), 4);
    assert!(moves.iter().all(|m| !m.is_capture()));
}

#[test]
fn position_finds_the_place_of_a_move() {
    let list = MoveList::generate(&Chess::default());
    let pawn_to_e4 =
        Move::Normal { role: Role::Pawn, from: 12, capture: None, to: 28, promotion: None };
    let place = list.position(&pawn_to_e4).unwrap();
    assert_eq!(list.get(place), pawn_to_e4);
    let pawn_to_e5 =
        Move::Normal { role: Role::Pawn, from: 12, capture: None, to: 36, promotion: None };
    assert_eq!(list.position(&pawn_to_e5), None);
}

#[test]
fn play_leads_to_the_next_position() {
    let start = Chess::default();
    let list = MoveList::generate(&start);
    let pawn_to_e4 =
        Move::Normal { role: Role::Pawn, from: 12, capture: None, to: 28, promotion: None };
    let next = list.play(&start, list.position(&pawn_to_e4).unwrap());
    assert_eq!(next, position("rnbqkbnr/pppppppp/8/8/4P3/8/PPPP1PPP/RNBQKBNR b KQkq - 0 1"));
    let replies = moves_of(&MoveList::generate(&next));
    assert_eq!(replies.len(), 20);
    let pawn_to_e5 =
        Move::Normal { role: Role::Pawn, from: 52, capture: None, to: 36, promotion: None };
    assert!(replies.contains(&pawn_to_e5));
}

#[test]
fn every_kind_of_move_is_described() {
    let castling = moves_of(&MoveList::generate(&position(
        "r3k2r/pppqbppp/2npbn2/4p3/4P3/2NPBN2/PPPQBPPP/R3K2R w KQkq - 0 1",
    )));
    assert!(castling.contains(&Move::Castle { king: 4, rook: 7 }));
    assert!(castling.contains(&Move::Castle { king: 4, rook: 0 }));

    let en_passant = moves_of(&MoveList::generate(&position(
        "rnbqkbnr/ppp1pppp/8/8/3pP3/8/PPPP1PPP/RNBQKBNR b KQkq e3 0 1",
    )));
    assert!(en_passant.contains(&Move::EnPassant { from: 27, to: 20 }));

    let promoting =
        moves_of(&MoveList::generate(&position("2n1k3/1P6/8/8/8/8/8/4K3 w - - 0 1")));
    assert!(promoting.contains(&Move::Normal {
        role: Role::Pawn,
        from: 49,
        capture: None,
        to: 57,
        promotion: Some(Role::Queen),
    }));
    assert!(promoting.contains(&Move::Normal {
        role: Role::Pawn,
        from: 49,
        capture: Some(Role::Knight),
        to: 58,
        promotion: Some(Role::Rook),
    }));
}

#[test]
fn a_finished_game_has_no_moves() {
    let mated = position("R5k1/5ppp/8/8/8/8/5PPP/6K1 b - - 0 1");
    assert_eq!(MoveList::generate(&mated).len(), 0);
}

#[test]
fn play_move_plays_legal_moves_only() {
    let start = Chess::default();
    let pawn_to_e4 =
        Move::Normal { role: Role::Pawn, from: 12, capture: None, to: 28, promotion: None };
    assert_eq!(
        voin::rules::play_move(&start, &pawn_to_e4),
        Some(position("rnbqkbnr/pppppppp/8/8/4P3/8/PPPP1PPP/RNBQKBNR b KQkq - 0 1"))
    );
    let pawn_to_e5 =
        Move::Normal { role: Role::Pawn, from: 12, capture: None, to: 36, promotion: None };
    assert_eq!(voin::rules::play_move(&start, &pawn_to_e5), None);
    assert_eq!(voin::rules::play_move(&start, &Move::Castle { king: 4, rook: 7 }), None);
}
