use near_runtime_fees::Rational;
use num_rational::Ratio;

fn parts(ratio: Rational) -> (isize, isize) {
    (ratio.numer(), ratio.denom())
}

#[test]
fn new_reduces_to_lowest_terms() {
    assert_eq!(parts(Rational::new(6, 20)), (3, 10));
    assert_eq!(parts(Rational::new(206, 200)), (103, 100));
    assert_eq!(parts(Rational::new(3, 10)), (3, 10));
    assert_eq!(parts(Rational::new(10, 5)), (2, 1));
}

#[test]
fn new_makes_the_denominator_positive() {
    assert_eq!(parts(Rational::new(3, -10)), (-3, 10));
    assert_eq!(parts(Rational::new(-6, -20)), (3, 10));
    assert_eq!(parts(Rational::new(-6, 20)), (-3, 10));
}

#[test]
fn new_of_zero_is_zero_over_one() {
    assert_eq!(parts(Rational::new(0, 5)), (0, 1));
    assert_eq!(parts(Rational::new(0, -5)), (0, 1));
}

#[test]
fn new_of_equal_parts_is_one() {
    assert_eq!(parts(Rational::new(7, 7)), (1, 1));
    assert_eq!(parts(Rational::new(-7, -7)), (1, 1));
}

#[test]
fn new_accepts_the_least_numerator_over_a_positive_denominator() {
    assert_eq!(parts(Rational::new(isize::MIN, 2)), (isize::MIN / 2, 1));
    assert_eq!(parts(Rational::new(isize::MIN, 1)), (isize::MIN, 1));
}

#[test]
fn new_agrees_with_the_ratio_it_is_computed_by() {
    for numer in -12isize..=12 {
        for denom in -12isize..=12 {
            if denom == 0 {
                continue;
            }
            let expected = Ratio::new(numer, denom);
            let ratio = Rational::new(numer, denom);
            assert_eq!(parts(ratio), (*expected.numer(), *expected.denom()));
            assert!(ratio.denom() > 0);
            assert_eq!(ratio.numer() * denom, numer * ratio.denom());
        }
    }
}

#[test]
fn from_integer_is_over_one() {
    assert_eq!(parts(Rational::from_integer(0)), (0, 1));
    assert_eq!(parts(Rational::from_integer(5)), (5, 1));
    assert_eq!(parts(Rational::from_integer(-5)), (-5, 1));
    assert_eq!(parts(Rational::from_integer(isize::MIN)), (isize::MIN, 1));
    let expected = Ratio::from_integer(9isize);
    assert_eq!(parts(Rational::from_integer(9)), (*expected.numer(), *expected.denom()));
}

#[test]
fn equal_numbers_are_equal_values() {
    assert_eq!(Rational::new(1, 2), Rational::new(2, 4));
    assert_eq!(Rational::new(1, 2), Rational::new(-3, -6));
    assert_eq!(Rational::new(4, 2), Rational::from_integer(2));
    assert_ne!(Rational::new(1, 2), Rational::new(1, 3));
    assert_ne!(Rational::new(1, 2), Rational::new(-1, 2));
}
