use cosmic_junkyard::fraction::Fraction;

#[test]
fn new_refuses_a_zero_denominator() {
    assert_eq!(Fraction::new(3, 0), None);
    assert_eq!(Fraction::new(0, 0), None);
}

#[test]
fn new_keeps_both_parts_as_given() {
    assert_eq!(
        Fraction::new(6, 10),
        Some(Fraction { numerator: 6, denominator: 10 })
    );
    assert_eq!(
        Fraction::new(0, 7),
        Some(Fraction { numerator: 0, denominator: 7 })
    );
}

#[test]
fn times_multiplies_part_by_part() {
    let speed = Fraction { numerator: 32, denominator: 5 };
    let share = Fraction { numerator: 1, denominator: 5 };
    assert_eq!(
        speed.times(share),
        Fraction { numerator: 32, denominator: 25 }
    );
}

#[test]
fn times_reaches_the_top_of_the_small_range() {
    let big = Fraction { numerator: u32::MAX as u64, denominator: u32::MAX as u64 };
    let product = big.times(big);
    assert_eq!(product.numerator, 18446744065119617025);
    assert_eq!(product.denominator, 18446744065119617025);
}

#[test]
fn times_zero_is_zero() {
    let zero = Fraction { numerator: 0, denominator: 3 };
    let any = Fraction { numerator: 9, denominator: 4 };
    assert_eq!(zero.times(any).numerator, 0);
    assert_eq!(zero.times(any).denominator, 12);
}

#[test]
fn complement_is_what_is_missing_to_one() {
    let friction = Fraction { numerator: 2, denominator: 5 };
    assert_eq!(
        friction.complement(),
        Fraction { numerator: 3, denominator: 5 }
    );
}

#[test]
fn complement_of_zero_is_one_and_of_one_is_zero() {
    let zero = Fraction { numerator: 0, denominator: 8 };
    let one = Fraction { numerator: 8, denominator: 8 };
    assert_eq!(zero.complement(), one);
    assert_eq!(one.complement(), zero);
}

#[test]
fn complement_and_share_add_up_to_one() {
    let mut numerator: u64 = 0;
    while numerator <= 12 {
        let share = Fraction { numerator, denominator: 12 };
        let rest = share.complement();
        assert_eq!(
            rest.numerator * share.denominator + share.numerator * rest.denominator,
            rest.denominator * share.denominator
        );
        numerator += 1;
    }
}

#[test]
fn small_means_both_parts_fit_in_32_bits() {
    assert!(Fraction { numerator: 0, denominator: 1 }.is_small());
    assert!(Fraction { numerator: u32::MAX as u64, denominator: u32::MAX as u64 }.is_small());
    assert!(!Fraction { numerator: u32::MAX as u64 + 1, denominator: 1 }.is_small());
    assert!(!Fraction { numerator: 1, denominator: u32::MAX as u64 + 1 }.is_small());
    assert!(!Fraction { numerator: 1, denominator: 0 }.is_small());
}

#[test]
fn share_means_at_most_one() {
    assert!(Fraction { numerator: 0, denominator: 1 }.is_share());
    assert!(Fraction { numerator: 3, denominator: 10 }.is_share());
    assert!(Fraction { numerator: 10, denominator: 10 }.is_share());
    assert!(Fraction { numerator: u64::MAX, denominator: u64::MAX }.is_share());
    assert!(!Fraction { numerator: 11, denominator: 10 }.is_share());
    assert!(!Fraction { numerator: 0, denominator: 0 }.is_share());
}
