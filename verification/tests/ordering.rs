use shakmaty::fen::Fen;
use shakmaty::{CastlingMode, Chess};
use voin::ordering::{
    capture_order_key, hash_move_first, is_worth_trying, main_order, move_order_key,
    quiescence_order,
};
use voin::rules::MoveList;
use voin::score::Score;
use voin::types::{Move, Role};

fn position(fen: &str) -> Chess {
    let fen: Fen = fen.parse().unwrap();
    fen.into_position(CastlingMode::Standard).unwrap()
}

fn normal(role: Role, from: u8, capture: Option<Role>, to: u8) -> Move {
    Move::Normal { role, from, capture, to, promotion: None }
}

#[test]
fn main_keys_prefer_captures_and_promotions() {
    assert_eq!(move_order_key(&normal(Role::Pawn, 12, None, 28)), 0);
    assert_eq!(move_order_key(&normal(Role::Pawn, 28, Some(Role::Pawn), 35)), 1100);
    assert_eq!(move_order_key(&normal(Role::Pawn, 28, Some(Role::Queen), 35)), 2000);
    assert_eq!(move_order_key(&Move::EnPassant { from: 36, to: 43 }), 1100);
    assert_eq!(move_order_key(&Move::Castle { king: 4, rook: 7 }), 0);
    let promotion =
        Move::Normal { role: Role::Pawn, from: 48, capture: None, to: 56, promotion: Some(Role::Queen) };
    assert_eq!(move_order_key(&promotion), 900);
    let both = Move::Normal {
        role: Role::Pawn,
        from: 48,
        capture: Some(Role::Rook),
        to: 57,
        promotion: Some(Role::Knight),
    };
    assert_eq!(move_order_key(&both), 2400);
}

#[test]
fn capture_keys_prefer_valuable_victims_and_cheap_attackers() {
    let pawn_takes_queen = normal(Role::Pawn, 28, Some(Role::Queen), 35);
    let queen_takes_pawn = normal(Role::Queen, 3, Some(Role::Pawn), 35);
    let king_takes_pawn = normal(Role::King, 4, Some(Role::Pawn), 12);
    assert_eq!(capture_order_key(&pawn_takes_queen), 1_009_900);
    assert_eq!(capture_order_key(&queen_takes_pawn), 1_000_000);
    assert_eq!(capture_order_key(&king_takes_pawn), 991_000);
    assert_eq!(capture_order_key(&Move::EnPassant { from: 36, to: 43 }), 1_000_900);
    assert_eq!(capture_order_key(&normal(Role::King, 4, None, 12)), 6);
    assert_eq!(capture_order_key(&normal(Role::Pawn, 12, None, 28)), 1);
    assert_eq!(capture_order_key(&Move::Castle { king: 4, rook: 7 }), 6);
}

#[test]
fn captures_are_pruned_by_their_margin() {
    let takes_pawn = normal(Role::Knight, 18, Some(Role::Pawn), 35);
    let quiet = normal(Role::Knight, 18, None, 33);
    // 0 + 100 + 100 exceeds 199 and does not exceed 200.
    assert!(is_worth_trying(&takes_pawn, false, Score::Centipawn(0), Score::Centipawn(199)));
    assert!(!is_worth_trying(&takes_pawn, false, Score::Centipawn(0), Score::Centipawn(200)));
    assert!(!is_worth_trying(&quiet, false, Score::Centipawn(0), Score::Centipawn(-500)));
    assert!(is_worth_trying(&quiet, true, Score::lower_bound(), Score::Centipawn(500)));
    assert!(is_worth_trying(&takes_pawn, true, Score::lower_bound(), Score::upper_bound()));
    assert!(is_worth_trying(&takes_pawn, false, Score::Mate(3), Score::Centipawn(30000)));
    assert!(!is_worth_trying(&takes_pawn, false, Score::Centipawn(0), Score::Mate(3)));
}

#[test]
fn quiet_moves_stay_in_the_order_of_generation() {
    let moves = MoveList::generate(&Chess::default());
    let order = main_order(&moves);
    assert_eq!(order, (0..20).collect::<Vec<usize>>());
}

#[test]
fn captures_come_first_in_the_main_order() {
    let pos = position("rnbqkbnr/ppp1pppp/8/3p4/4P3/8/PPPP1PPP/RNBQKBNR w KQkq d6 0 2");
    let moves = MoveList::generate(&pos);
    let order = main_order(&moves);
    assert_eq!(order.len(), moves.len());
    assert_eq!(moves.get(order[0]), normal(Role::Pawn, 28, Some(Role::Pawn), 35));
    let rest: Vec<usize> = order[1..].to_vec();
    let mut sorted = rest.clone();
    sorted.sort();
    assert_eq!(rest, sorted);
    assert!(rest.iter().all(|&i| !moves.get(i).is_capture()));
}

#[test]
fn moves_of_equal_key_keep_the_order_of_generation() {
    // The pawn can take either of two pawns, and a rook a knight.
    let pos = position("4k3/8/8/2p1p3/3P4/8/7n/4K2R w - - 0 1");
    let moves = MoveList::generate(&pos);
    let order = main_order(&moves);
    let keys: Vec<i32> = order.iter().map(|&i| move_order_key(&moves.get(i))).collect();
    assert_eq!(keys[..3], [1325, 1100, 1100]);
    assert!(keys[3..].iter().all(|&key| key == 0));
    assert!(order[1] < order[2]);
    assert!(order[3..].windows(2).all(|pair| pair[0] < pair[1]));
    let mut all = order.clone();
    all.sort();
    assert_eq!(all, (0..moves.len()).collect::<Vec<usize>>());
}

#[test]
fn quiescence_tries_captures_only() {
    let pos = position("rnbqkbnr/ppp1pppp/8/3p4/4P3/8/PPPP1PPP/RNBQKBNR w KQkq d6 0 2");
    let moves = MoveList::generate(&pos);
    let order = quiescence_order(&moves, false, Score::Centipawn(0), Score::Centipawn(0));
    assert_eq!(order.len(), 1);
    assert_eq!(moves.get(order[0]), normal(Role::Pawn, 28, Some(Role::Pawn), 35));
    let pruned = quiescence_order(&moves, false, Score::Centipawn(0), Score::Centipawn(200));
    assert!(pruned.is_empty());
    let quiet = quiescence_order(
        &MoveList::generate(&Chess::default()),
        false,
        Score::Centipawn(0),
        Score::lower_bound(),
    );
    assert!(quiet.is_empty());
}

#[test]
fn quiescence_orders_captures_by_victim_and_attacker() {
    // White can take the queen with a pawn or a knight, and a pawn with the knight.
    let pos = position("4k3/8/8/3q1p2/2P5/4N3/8/4K3 w - - 0 1");
    let moves = MoveList::generate(&pos);
    let order = quiescence_order(&moves, false, Score::Centipawn(0), Score::lower_bound());
    let tried: Vec<Move> = order.iter().map(|&i| moves.get(i)).collect();
    assert_eq!(
        tried,
        vec![
            normal(Role::Pawn, 26, Some(Role::Queen), 35),
            normal(Role::Knight, 20, Some(Role::Queen), 35),
            normal(Role::Knight, 20, Some(Role::Pawn), 37),
        ]
    );
}

#[test]
fn quiescence_tries_every_move_in_check() {
    // The king is in check by the rook and can step aside or take the rook.
    let pos = position("4k3/8/8/8/8/8/3PrP2/4K3 w - - 0 1");
    let moves = MoveList::generate(&pos);
    let order = quiescence_order(&moves, true, Score::lower_bound(), Score::Centipawn(0));
    assert_eq!(order.len(), moves.len());
    assert_eq!(moves.get(order[0]), normal(Role::King, 4, Some(Role::Rook), 12));
    assert!(order[1..].iter().all(|&i| moves.get(i).role() == Role::King));
    assert!(order[1..].windows(2).all(|pair| pair[0] < pair[1]));
}

#[test]
fn remembered_move_goes_to_the_front() {
    let moves = MoveList::generate(&Chess::default());
    let mut order = main_order(&moves);
    let remembered = moves.get(7);
    hash_move_first(&mut order, &moves, &remembered);
    let mut expected: Vec<usize> = (0..20).collect();
    expected.swap(0, 7);
    assert_eq!(order, expected);

    let absent = normal(Role::Pawn, 12, None, 36);
    hash_move_first(&mut order, &moves, &absent);
    assert_eq!(order, expected);

    let first = moves.get(7);
    hash_move_first(&mut order, &moves, &first);
    assert_eq!(order, expected);
}
