use voin::score::Score;
use voin::score::Score::{Centipawn, Mate};
use voin::types::Color;

#[test]
fn test_mate_ord() {
    assert!(Mate(2) >= Mate(2));
    assert!(Mate(2) <= Mate(2));
    assert!(Mate(2) >= Mate(3));
    assert!(Mate(3) <= Mate(2));
    assert!(Mate(2) >= Mate(-3));
    assert!(Mate(-3) <= Mate(2));
    assert!(Mate(2) >= Centipawn(10));
    assert!(Centipawn(10) <= Mate(2));
    assert!(Mate(2) >= Centipawn(-10));
    assert!(Centipawn(-10) <= Mate(2));
    // The open upper bound stays above every mate.
    assert!(Mate(2) < Score::upper_bound());
    assert!(Score::upper_bound() > Mate(2));

    assert!(Mate(-5) > Mate(-3));
    assert!(Mate(-3) < Mate(-5));
    assert!(Mate(-5) > Score::lower_bound());
    assert!(Score::lower_bound() < Mate(-5));

    assert!(Mate(-5) < Centipawn(10));
    assert!(Centipawn(10) > Mate(-5));
    assert!(Mate(-5) < Centipawn(-10));
    assert!(Centipawn(-10) > Mate(-5));
}

#[test]
fn test_centipawn_ord() {
    assert!(Centipawn(10) > Centipawn(9));
    assert!(Centipawn(9) < Centipawn(10));
    assert!(Centipawn(10) > Centipawn(-1));
    assert!(Centipawn(-1) < Centipawn(10));

    assert!(Centipawn(-1) < Centipawn(9));
    assert!(Centipawn(9) > Centipawn(-1));
    assert!(Centipawn(-1) < Centipawn(0));
    assert!(Centipawn(0) > Centipawn(-1));
}

#[test]
fn test_add() {
    assert_eq!(Centipawn(1) + Centipawn(2), Centipawn(3));
    assert_eq!(Centipawn(2) + Centipawn(1), Centipawn(3));

    assert_eq!(Centipawn(1) - Centipawn(2), Centipawn(-1));
    assert_eq!(-(Centipawn(2) - Centipawn(1)), Centipawn(-1));

    assert_eq!(Centipawn(1) + Mate(3), Mate(3));
    assert_eq!(Mate(3) + Centipawn(1), Mate(3));
}

fn samples() -> Vec<Score> {
    let mut all = vec![
        Score::lower_bound(),
        Score::upper_bound(),
        Score::zero(),
        Centipawn(-32767),
        Centipawn(-100),
        Centipawn(-1),
        Centipawn(1),
        Centipawn(100),
        Centipawn(32766),
    ];
    for plies in [-128i8, -127, -50, -2, -1, 1, 2, 50, 126, 127] {
        all.push(Mate(plies));
    }
    all
}

#[test]
fn order_is_strict_and_total_on_samples() {
    let all = samples();
    for a in &all {
        assert!(!(a < a));
        assert!(a <= a);
        for b in &all {
            if a != b {
                assert!((a < b) != (b < a));
                assert_eq!(a < b, b > a);
                assert_eq!(a <= b, !(b < a));
            }
        }
    }
}

#[test]
fn order_is_transitive_on_samples() {
    let all = samples();
    for a in &all {
        for b in &all {
            for c in &all {
                if a < b && b < c {
                    assert!(a < c);
                }
            }
        }
    }
}

#[test]
fn order_has_a_cycle_through_mate_zero() {
    assert!(Mate(0) < Mate(-1));
    assert!(Mate(-1) < Centipawn(0));
    assert!(Centipawn(0) < Mate(0));
}

#[test]
fn negation_reverses_order_on_samples() {
    let all = samples();
    for a in &all {
        for b in &all {
            let negatable = |s: &Score| *s != Score::lower_bound() && *s != Mate(-128);
            let at_the_edge = |s: &Score, t: &Score| {
                (*s == Centipawn(32767) && *t > Centipawn(32766) && *t != *s)
                    || (*s == Centipawn(-32767) && *t < Centipawn(-32766) && *t != *s)
            };
            if negatable(a) && negatable(b) && !at_the_edge(a, b) && !at_the_edge(b, a) {
                assert_eq!(a < b, -*a > -*b, "{:?} {:?}", a, b);
            }
        }
    }
}

#[test]
fn negation_fails_to_reverse_order_next_to_the_open_bound() {
    assert!(Score::upper_bound() > Mate(1));
    assert!(-Score::upper_bound() > -Mate(1));
}

#[test]
fn mates_rank_by_distance() {
    assert!(Mate(2) > Mate(3));
    assert!(Mate(1) > Mate(127));
    assert!(Mate(-5) > Mate(-1));
    assert!(Mate(-128) > Mate(-127));
}

#[test]
fn mates_bracket_centipawns() {
    assert!(Mate(127) > Centipawn(32766));
    assert!(Mate(-128) < Centipawn(-32767));
    assert!(Mate(1) < Score::upper_bound());
    assert!(Mate(-1) > Score::lower_bound());
    assert!(Mate(-1) < Mate(1));
}

#[test]
fn centipawn_sum_saturates() {
    assert_eq!(Score::upper_bound() + Score::upper_bound(), Score::upper_bound());
    assert_eq!(Score::lower_bound() + Score::lower_bound(), Score::lower_bound());
    assert_eq!(Centipawn(32000) + Centipawn(1000), Centipawn(32767));
    assert_eq!(Centipawn(-32000) + Centipawn(-1000), Centipawn(-32768));
    assert_eq!(Score::upper_bound() + Score::lower_bound(), Centipawn(-1));
    assert_eq!(Centipawn(32000) - Centipawn(-1000), Centipawn(32767));
    for a in [i16::MIN, -20000, -1, 0, 1, 20000, i16::MAX] {
        for b in [i16::MIN, -20000, -1, 0, 1, 20000, i16::MAX] {
            let exact = i32::from(a) + i32::from(b);
            let held = exact.clamp(i32::from(i16::MIN), i32::from(i16::MAX)) as i16;
            assert_eq!(Centipawn(a) + Centipawn(b), Centipawn(held));
        }
    }
}

#[test]
fn mates_add_their_plies() {
    assert_eq!(Mate(3) + Mate(4), Mate(7));
    assert_eq!(Mate(3) - Mate(4), Mate(-1));
    assert_eq!(Mate(-3) + Centipawn(500), Mate(-3));
    assert_eq!(Centipawn(500) - Mate(3), Mate(-3));
}

#[test]
fn negation_flips_the_sign() {
    assert_eq!(-Centipawn(15), Centipawn(-15));
    assert_eq!(-Mate(4), Mate(-4));
    assert_eq!(-Score::upper_bound(), Centipawn(-32767));
    assert_eq!(-Mate(0), Mate(0));
}

#[test]
fn integers_shift_a_score() {
    assert_eq!(Centipawn(10) + 5isize, Centipawn(15));
    assert_eq!(Centipawn(10) - 1isize, Centipawn(9));
    assert_eq!(Mate(-3) - 1isize, Mate(-4));
    assert_eq!(Mate(1) - 1isize, Mate(0));
    assert_eq!(Centipawn(-32767) - 1isize, Score::lower_bound());
}

#[test]
fn scalars_scale_a_score() {
    assert_eq!(Centipawn(100) * 10, Centipawn(1000));
    assert_eq!(Centipawn(-7) * 3, Centipawn(-21));
    assert_eq!(Mate(3) * 2, Mate(6));
    assert_eq!(Score::upper_bound() / 2, Centipawn(16383));
    assert_eq!(-Score::upper_bound() / 2, Centipawn(-16383));
    assert_eq!(Centipawn(-7) / 2, Centipawn(-3));
    assert_eq!(Centipawn(7) / -2, Centipawn(-3));
    assert_eq!(Centipawn(-7) / -2, Centipawn(3));
    assert_eq!(Mate(-3) / 2, Mate(-1));
    assert_eq!(Mate(5) / 2, Mate(2));
}

#[test]
fn add_assign_adds_in_place() {
    let mut score = Centipawn(5);
    score.add_assign(Centipawn(7));
    assert_eq!(score, Centipawn(12));
    score.add_assign(Mate(2));
    assert_eq!(score, Mate(2));
}

#[test]
fn color_factor_turns_the_score_for_black() {
    assert_eq!(Centipawn(30).apply_color_factor(Color::White), Centipawn(30));
    assert_eq!(Centipawn(30).apply_color_factor(Color::Black), Centipawn(-30));
    assert_eq!(Mate(1).apply_color_factor(Color::Black), Mate(-1));
}

#[test]
fn bounds_and_signs_are_told_apart() {
    assert!(Score::lower_bound().is_min());
    assert!(!Score::upper_bound().is_min());
    assert!(!Mate(-128).is_min());
    assert!(Score::upper_bound().is_max());
    assert!(!Score::lower_bound().is_max());
    assert!(!Mate(127).is_max());
    assert!(Centipawn(-1).is_negative());
    assert!(!Centipawn(0).is_negative());
    assert!(Mate(-1).is_negative());
    assert!(!Mate(0).is_negative());
    assert_eq!(Score::zero(), Centipawn(0));
    assert_eq!(Score::upper_bound(), Centipawn(i16::MAX));
    assert_eq!(Score::lower_bound(), Centipawn(i16::MIN));
}

#[test]
fn mate_moves_one_ply_further() {
    assert_eq!(Mate(1).increment_mate_depth(), Mate(2));
    assert_eq!(Mate(-1).increment_mate_depth(), Mate(-2));
    assert_eq!(Mate(126).increment_mate_depth(), Mate(127));
    assert_eq!(Mate(127).increment_mate_depth(), Mate(127));
    assert_eq!(Mate(-126).increment_mate_depth(), Mate(-127));
    assert_eq!(Mate(-127).increment_mate_depth(), Mate(-127));
    assert_eq!(Mate(-128).increment_mate_depth(), Mate(-128));
    assert_eq!(Mate(0).increment_mate_depth(), Mate(0));
    assert_eq!(Centipawn(40).increment_mate_depth(), Centipawn(40));
}

#[test]
fn text_follows_the_protocol() {
    assert_eq!(Centipawn(12).to_text(), "score cp 12");
    assert_eq!(Centipawn(-5).to_text(), "score cp -5");
    assert_eq!(Centipawn(0).to_text(), "score cp 0");
    assert_eq!(Centipawn(32766).to_text(), "score cp 32766");
    assert_eq!(Centipawn(-32767).to_text(), "score cp -32767");
    assert_eq!(Score::upper_bound().to_text(), "score upperbound");
    assert_eq!(Score::lower_bound().to_text(), "score lowerbound");
    assert_eq!(Mate(1).to_text(), "score mate 0");
    assert_eq!(Mate(2).to_text(), "score mate 0");
    assert_eq!(Mate(3).to_text(), "score mate 1");
    assert_eq!(Mate(4).to_text(), "score mate 1");
    assert_eq!(Mate(-1).to_text(), "score mate 0");
    assert_eq!(Mate(-3).to_text(), "score mate -1");
    assert_eq!(Mate(-128).to_text(), "score mate -63");
    assert_eq!(Mate(127).to_text(), "score mate 63");
    assert_eq!(Mate(0).to_text(), "score mate 0");
}
