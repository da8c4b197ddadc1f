use stellar_ops::amount::validate;
use stellar_ops::operation::Error;

#[test]
fn amounts_that_are_not_negative_are_handed_back() {
    assert_eq!(validate(0), Ok(0));
    assert_eq!(validate(1), Ok(1));
    assert_eq!(validate(10_000_000), Ok(10_000_000));
    assert_eq!(validate(i64::MAX), Ok(i64::MAX));
}

#[test]
fn negative_amounts_are_refused_with_the_amount() {
    assert_eq!(validate(-1), Err(Error::InvalidAmount(-1)));
    assert_eq!(validate(-10_000_000), Err(Error::InvalidAmount(-10_000_000)));
    assert_eq!(validate(i64::MIN), Err(Error::InvalidAmount(i64::MIN)));
}
