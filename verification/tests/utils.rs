use voin::text::decimal_text;
use voin::types::{Color, Move, Role};
use voin::utils::{clamp, count_bits, get_color_factor, signum};

#[test]
fn signum_is_the_sign() {
    assert_eq!(signum(0), 0);
    assert_eq!(signum(17), 1);
    assert_eq!(signum(-17), -1);
    assert_eq!(signum(isize::MAX), 1);
    assert_eq!(signum(isize::MIN), -1);
}

#[test]
fn clamp_holds_a_value_to_its_range() {
    assert_eq!(clamp(1, 5, 10), 5);
    assert_eq!(clamp(1, 0, 10), 1);
    assert_eq!(clamp(1, 11, 10), 10);
    assert_eq!(clamp(1, 1, 10), 1);
    assert_eq!(clamp(1, 10, 10), 10);
    assert_eq!(clamp(-3i16, -7, 4), -3);
    assert_eq!(clamp(0u8, 200, 100), 100);
}

#[test]
fn color_factor_is_one_for_white() {
    assert_eq!(get_color_factor(Color::White), 1);
    assert_eq!(get_color_factor(Color::Black), -1);
}

#[test]
fn bits_are_counted() {
    assert_eq!(count_bits(0), 0);
    assert_eq!(count_bits(1), 1);
    assert_eq!(count_bits(0x8000_0000_0000_0000), 1);
    assert_eq!(count_bits(0xff00), 8);
    assert_eq!(count_bits(u64::MAX), 64);
    assert_eq!(count_bits(0x0000_0018_1800_0000), 4);
}

#[test]
fn decimal_text_of_integers() {
    assert_eq!(decimal_text(0), "0");
    assert_eq!(decimal_text(7), "7");
    assert_eq!(decimal_text(10), "10");
    assert_eq!(decimal_text(-1), "-1");
    assert_eq!(decimal_text(1234567890), "1234567890");
    assert_eq!(decimal_text(-2147483647), "-2147483647");
    assert_eq!(decimal_text(i32::MAX), "2147483647");
    assert_eq!(decimal_text(i32::MIN), "-2147483648");
}

#[test]
fn roles_are_numbered() {
    let roles = [Role::Pawn, Role::Knight, Role::Bishop, Role::Rook, Role::Queen, Role::King];
    for (i, role) in roles.iter().enumerate() {
        assert_eq!(role.index(), i as u8 + 1);
        assert_eq!(Role::from_index(i as u8 + 1), Some(*role));
    }
    assert_eq!(Role::from_index(0), None);
    assert_eq!(Role::from_index(7), None);
}

#[test]
fn moves_tell_what_they_do() {
    let capture = Move::Normal {
        role: Role::Knight,
        from: 18,
        capture: Some(Role::Pawn),
        to: 35,
        promotion: None,
    };
    assert_eq!(capture.role(), Role::Knight);
    assert_eq!(capture.capture(), Some(Role::Pawn));
    assert!(capture.is_capture());
    assert_eq!(capture.promotion(), None);

    let promotion =
        Move::Normal { role: Role::Pawn, from: 52, capture: None, to: 60, promotion: Some(Role::Queen) };
    assert!(!promotion.is_capture());
    assert_eq!(promotion.promotion(), Some(Role::Queen));

    let en_passant = Move::EnPassant { from: 36, to: 43 };
    assert_eq!(en_passant.role(), Role::Pawn);
    assert_eq!(en_passant.capture(), Some(Role::Pawn));
    assert!(en_passant.is_capture());
    assert_eq!(en_passant.promotion(), None);

    let castle = Move::Castle { king: 4, rook: 7 };
    assert_eq!(castle.role(), Role::King);
    assert_eq!(castle.capture(), None);
    assert!(!castle.is_capture());

    let put = Move::Put { role: Role::Queen, to: 20 };
    assert_eq!(put.role(), Role::Queen);
    assert_eq!(put.capture(), None);
}
