use shakmaty::{Chess, Position};
use voin::driver::{aspiration_window, retry_window, time_budget, IterativeDeepening};
use voin::score::Score;
use voin::score::Score::{Centipawn, Mate};

fn level(_pos: &Chess) -> Score {
    Score::Centipawn(0)
}

#[test]
fn a_fortieth_of_the_time_is_spent() {
    assert_eq!(time_budget(10_000), 250);
    assert_eq!(time_budget(39), 0);
    assert_eq!(time_budget(40), 1);
    assert_eq!(time_budget(0), 0);
    assert_eq!(time_budget(i32::MAX), 53687091);
    assert_eq!(time_budget(-1), u64::MAX / 40);
}

#[test]
fn the_first_window_is_the_widest() {
    assert_eq!(aspiration_window(1, Score::lower_bound()), (Centipawn(-16383), Centipawn(16383)));
    assert_eq!(aspiration_window(1, Centipawn(30)), (Centipawn(-16383), Centipawn(16383)));
}

#[test]
fn later_windows_lie_around_the_score_before() {
    assert_eq!(aspiration_window(2, Centipawn(30)), (Centipawn(-70), Centipawn(130)));
    assert_eq!(aspiration_window(50, Centipawn(-30)), (Centipawn(-130), Centipawn(70)));
    assert_eq!(aspiration_window(2, Mate(3)), (Mate(3), Mate(3)));
    assert_eq!(aspiration_window(3, Centipawn(32700)), (Centipawn(32600), Centipawn(32767)));
    assert_eq!(aspiration_window(0, Centipawn(0)), (Centipawn(-1000), Centipawn(1000)));
}

#[test]
fn a_window_never_begins_at_the_open_lower_bound() {
    assert_eq!(aspiration_window(2, Score::lower_bound()), (Centipawn(-32767), Centipawn(-32668)));
    assert_eq!(aspiration_window(2, Centipawn(-32700)), (Centipawn(-32767), Centipawn(-32600)));
    assert_eq!(aspiration_window(2, Centipawn(-32667)), (Centipawn(-32767), Centipawn(-32567)));
}

#[test]
fn a_score_outside_the_window_is_searched_again() {
    let (alpha, beta) = (Centipawn(-70), Centipawn(130));
    assert_eq!(retry_window(Centipawn(-70), alpha, beta), Some((Centipawn(-16383), beta)));
    assert_eq!(retry_window(Centipawn(-500), alpha, beta), Some((Centipawn(-16383), beta)));
    assert_eq!(retry_window(Mate(-2), alpha, beta), Some((Centipawn(-16383), beta)));
    assert_eq!(retry_window(Centipawn(130), alpha, beta), Some((alpha, Centipawn(16383))));
    assert_eq!(retry_window(Mate(2), alpha, beta), Some((alpha, Centipawn(16383))));
    assert_eq!(retry_window(Centipawn(-69), alpha, beta), None);
    assert_eq!(retry_window(Centipawn(0), alpha, beta), None);
    assert_eq!(retry_window(Centipawn(129), alpha, beta), None);
}

#[test]
fn a_new_search_has_found_nothing() {
    let search = IterativeDeepening::new();
    assert_eq!(search.best(), None);
    assert!(!search.is_exhausted());
    assert!(!search.is_finished(0, 0));
}

#[test]
fn the_search_stops_when_the_time_is_up() {
    let search = IterativeDeepening::new();
    assert!(!search.is_finished(10_000_000, 10));
    assert!(search.is_finished(10_000_001, 10));
    assert!(search.is_finished(1, 0));
    assert!(!search.is_finished(u128::from(u64::MAX), u64::MAX));
}

#[test]
fn each_depth_is_one_deeper() {
    let pos = Chess::default();
    let mut search = IterativeDeepening::new();
    for depth in 1..=3 {
        let progress = search.deepen(&pos, &level);
        assert_eq!(progress.depth, depth);
        assert_eq!(progress.score, Centipawn(0));
        let (best, score) = search.best().unwrap();
        assert_eq!(score, progress.score);
        assert_eq!(progress.line[0], best);
        assert!(progress.line.len() <= 100);
    }
}

#[test]
fn the_search_is_exhausted_after_the_last_depth() {
    // Stalemate: no move is ever found, and every depth is over at once.
    let pos: Chess = "7k/5Q2/6K1/8/8/8/8/8 b - - 0 1"
        .parse::<shakmaty::fen::Fen>()
        .unwrap()
        .into_position(shakmaty::CastlingMode::Standard)
        .unwrap();
    assert!(pos.is_stalemate());
    let mut search = IterativeDeepening::new();
    for depth in 1..=50 {
        assert!(!search.is_exhausted());
        let progress = search.deepen(&pos, &level);
        assert_eq!(progress.depth, depth);
        assert_eq!(progress.score, Score::lower_bound());
        assert!(progress.line.is_empty());
    }
    assert!(search.is_exhausted());
    assert!(search.is_finished(0, u64::MAX));
    assert_eq!(search.best(), None);
}

fn material(pos: &Chess) -> Score {
    let mut total: i16 = 0;
    for square in pos.board().occupied() {
        let piece = pos.board().piece_at(square).unwrap();
        let value = match piece.role {
            shakmaty::Role::Pawn => 100,
            shakmaty::Role::Knight => 325,
            shakmaty::Role::Bishop => 350,
            shakmaty::Role::Rook => 500,
            shakmaty::Role::Queen => 1000,
            shakmaty::Role::King => 0,
        };
        if piece.color == shakmaty::Color::White {
            total += value;
        } else {
            total -= value;
        }
    }
    Centipawn(total)
}

#[test]
fn the_first_depth_is_always_searched() {
    let pos = Chess::default();
    let reports = std::cell::RefCell::new(Vec::new());
    let clock = || 1u128;
    let report = |progress: &voin::driver::Progress, spent: u128| {
        reports.borrow_mut().push((progress.depth, progress.score, progress.line.clone(), spent));
    };
    let found = voin::driver::find_best_move(&pos, 0, &material, &clock, &report);
    let (best, score) = found.unwrap();
    assert_eq!(score, Centipawn(0));
    assert_eq!(*reports.borrow(), vec![(1, Centipawn(0), vec![best], 0)]);
}

#[test]
fn the_search_deepens_until_the_time_is_spent() {
    let pos: Chess = "6k1/5ppp/8/8/8/8/5PPP/R5K1 w - - 0 1"
        .parse::<shakmaty::fen::Fen>()
        .unwrap()
        .into_position(shakmaty::CastlingMode::Standard)
        .unwrap();
    let calls = std::cell::Cell::new(0u128);
    let depths = std::cell::RefCell::new(Vec::new());
    // Each reading of the clock is a millisecond later than the one before.
    let clock = || {
        calls.set(calls.get() + 1);
        calls.get() * 1_000_000
    };
    let report = |progress: &voin::driver::Progress, spent: u128| {
        depths.borrow_mut().push((progress.depth, spent));
    };
    let found = voin::driver::find_best_move(&pos, 80, &material, &clock, &report);
    assert_eq!(*depths.borrow(), vec![(1, 1), (2, 3)]);
    assert_eq!(calls.get(), 4);
    let (best, score) = found.unwrap();
    assert_eq!(score, Mate(2));
    assert_eq!(
        best,
        voin::types::Move::Normal {
            role: voin::types::Role::Rook,
            from: 0,
            capture: None,
            to: 56,
            promotion: None,
        }
    );
}

#[test]
fn a_finished_game_has_no_best_move() {
    let pos: Chess = "7k/5Q2/6K1/8/8/8/8/8 b - - 0 1"
        .parse::<shakmaty::fen::Fen>()
        .unwrap()
        .into_position(shakmaty::CastlingMode::Standard)
        .unwrap();
    let depths = std::cell::Cell::new(0);
    let clock = || 0u128;
    let report = |_progress: &voin::driver::Progress, _spent: u128| depths.set(depths.get() + 1);
    assert_eq!(voin::driver::find_best_move(&pos, i32::MAX, &level, &clock, &report), None);
    assert_eq!(depths.get(), 50);
}
