use loyalty_core::user::{PhoneNumber, UserId};

fn error_of(text: &str) -> &'static str {
    match PhoneNumber::try_from(text) {
        Ok(number) => panic!("expected a refusal, got {:?}", number),
        Err(message) => message,
    }
}

#[test]
fn a_plain_number_is_read() {
    let number = PhoneNumber::try_from("07715559999").unwrap();
    assert_eq!(number.number(), &[0, 7, 7, 1, 5, 5, 5, 9, 9, 9, 9]);
}

#[test]
fn whatever_is_no_digit_is_passed_over() {
    let number = PhoneNumber::try_from("(0771) 555-9999 ext").unwrap();
    assert_eq!(number.number(), &[0, 7, 7, 1, 5, 5, 5, 9, 9, 9, 9]);
    let number = PhoneNumber::try_from("0٣7715559999é").unwrap();
    assert_eq!(number.number(), &[0, 7, 7, 1, 5, 5, 5, 9, 9, 9, 9]);
}

#[test]
fn the_count_of_digits_is_checked_first() {
    assert_eq!(error_of(""), "Number must be 11 digits");
    assert_eq!(error_of("0771555999"), "Number must be 11 digits");
    assert_eq!(error_of("077155599990"), "Number must be 11 digits");
    assert_eq!(error_of("17"), "Number must be 11 digits");
    assert_eq!(error_of("no digits at all"), "Number must be 11 digits");
}

#[test]
fn the_first_digit_must_be_zero() {
    assert_eq!(error_of("17715559999"), "First digit must be 0");
    assert_eq!(error_of("99999999999"), "First digit must be 0");
}

#[test]
fn the_second_digit_must_be_seven() {
    assert_eq!(error_of("08715559999"), "Second digit must be 7");
    assert_eq!(error_of("00000000000"), "Second digit must be 7");
}

#[test]
fn user_ids_compare_by_their_characters() {
    let a = UserId("user-1".to_string());
    let b = UserId("user-1".to_string());
    let c = UserId("user-2".to_string());
    assert!(a.same_as(&b));
    assert!(!a.same_as(&c));
    assert!(a.clone().same_as(&a));
    assert_eq!(a.as_str(), "user-1");
}
