use loyalty_core::customer_code::{get_code, ClaimCodeIssuer, ConsumeResult};
use loyalty_core::qr_gen::{rand_string, CustomerQrCode, CODE_LENGTH};

#[test]
fn rand_string_has_the_length_asked_for() {
    for length in [0usize, 1, 7, 12, 64] {
        let text = rand_string(length);
        assert_eq!(text.chars().count(), length);
        assert!(text.chars().all(|c| c.is_ascii_alphanumeric()));
    }
}

#[test]
fn rand_string_does_not_repeat_itself() {
    let first = rand_string(32);
    let second = rand_string(32);
    assert_ne!(first, second);
}

#[test]
fn new_code_is_twelve_letters_and_digits_and_unused() {
    let code = CustomerQrCode::new();
    assert_eq!(CODE_LENGTH, 12);
    assert_eq!(code.code.len(), 12);
    assert!(code.code.chars().all(|c| c.is_ascii_alphanumeric()));
    assert!(!code.is_used());
    assert_eq!(code.value(), &code.code);
}

#[test]
fn code_from_a_string_keeps_it() {
    let code = CustomerQrCode::from("ABC123".to_string());
    assert_eq!(code.code, "ABC123");
    assert!(!code.is_used());
}

#[test]
fn issuer_starts_without_a_code() {
    let mut issuer = ClaimCodeIssuer::new();
    assert!(issuer.needs_rotation());
    assert_eq!(issuer.try_consume("anything"), ConsumeResult::NoActiveCode);
    assert!(issuer.needs_rotation());
}

#[test]
fn current_code_is_not_empty_and_stays_the_same() {
    let mut issuer = ClaimCodeIssuer::new();
    let first = issuer.current_code();
    assert!(!first.is_empty());
    assert_eq!(first.len(), 12);
    assert!(!issuer.needs_rotation());
    let second = issuer.current_code();
    assert_eq!(first, second);
    assert_eq!(get_code(&mut issuer).code, first);
}

#[test]
fn wrong_code_leaves_the_active_code_in_place() {
    let mut issuer = ClaimCodeIssuer::with_code(CustomerQrCode::from("ABC123".to_string()));
    assert_eq!(issuer.try_consume("abc123"), ConsumeResult::Mismatch);
    assert_eq!(issuer.try_consume(""), ConsumeResult::Mismatch);
    assert_eq!(issuer.try_consume("ABC1234"), ConsumeResult::Mismatch);
    assert_eq!(issuer.current_code(), "ABC123");
}

#[test]
fn right_code_is_consumed_exactly_once() {
    let mut issuer = ClaimCodeIssuer::with_code(CustomerQrCode::from("ABC123".to_string()));
    assert_eq!(issuer.try_consume("ABC123"), ConsumeResult::Consumed);
    assert_eq!(issuer.try_consume("ABC123"), ConsumeResult::NoActiveCode);
    assert!(issuer.needs_rotation());
}

#[test]
fn a_fresh_code_is_issued_after_a_consumed_one() {
    let mut issuer = ClaimCodeIssuer::new();
    let first = issuer.current_code();
    assert_eq!(issuer.try_consume(&first), ConsumeResult::Consumed);
    let second = issuer.current_code();
    assert_eq!(second.len(), 12);
    assert_ne!(first, second);
    assert_eq!(issuer.try_consume(&first), ConsumeResult::Mismatch);
    assert_eq!(issuer.try_consume(&second), ConsumeResult::Consumed);
}

#[test]
fn issue_installs_the_fresh_code_only_when_due() {
    let mut issuer = ClaimCodeIssuer::new();
    assert_eq!(issuer.issue(CustomerQrCode::from("FIRST".to_string())), "FIRST");
    assert_eq!(issuer.issue(CustomerQrCode::from("SECOND".to_string())), "FIRST");
    assert_eq!(issuer.try_consume("FIRST"), ConsumeResult::Consumed);
    assert_eq!(issuer.issue(CustomerQrCode::from("THIRD".to_string())), "THIRD");
}

#[test]
fn a_used_code_is_stale() {
    let mut code = CustomerQrCode::from("ABC123".to_string());
    code.mark_used();
    assert!(code.is_used());
    assert_eq!(code.code, "ABC123");
    let mut issuer = ClaimCodeIssuer::with_code(code);
    assert!(issuer.needs_rotation());
    assert_eq!(issuer.try_consume("ABC123"), ConsumeResult::NoActiveCode);
    assert_eq!(issuer.try_consume("other"), ConsumeResult::NoActiveCode);
    let shown = issuer.current_code();
    assert_ne!(shown, "ABC123");
    assert_eq!(shown.len(), 12);
    assert!(!issuer.needs_rotation());
    assert_eq!(issuer.current_code(), shown);
}

#[test]
fn a_used_code_gives_way_to_the_fresh_one() {
    let mut code = CustomerQrCode::from("OLD".to_string());
    code.mark_used();
    let mut issuer = ClaimCodeIssuer::with_code(code);
    assert_eq!(issuer.issue(CustomerQrCode::from("NEW".to_string())), "NEW");
    assert_eq!(issuer.try_consume("OLD"), ConsumeResult::Mismatch);
    assert_eq!(issuer.try_consume("NEW"), ConsumeResult::Consumed);
}
