use loyalty_core::customer_code::{
    begin_claim, claim_code, claim_response, finish_claim, ClaimCodeIssuer, ClaimOutcome,
    ClaimRequest, ClaimStep, RejectReason, STATUS_BAD_REQUEST, STATUS_INTERNAL_SERVER_ERROR,
    STATUS_OK,
};
use loyalty_core::db::{StampCardRepositoryError, StoreRequest};
use loyalty_core::qr_gen::CustomerQrCode;
use loyalty_core::stampcard::{get_card, BasicStampCard};
use loyalty_core::tracker::MemoryStampCardTracker;
use loyalty_core::user::UserId;
use std::sync::Mutex;

fn claim(id: &str, code: &str) -> ClaimRequest {
    ClaimRequest { id: id.to_string(), code: code.to_string() }
}

fn issuer_with(code: &str) -> ClaimCodeIssuer {
    ClaimCodeIssuer::with_code(CustomerQrCode::from(code.to_string()))
}

fn rejected_with(outcome: &ClaimOutcome) -> Option<RejectReason> {
    match outcome {
        ClaimOutcome::Rejected(reason) => Some(*reason),
        ClaimOutcome::Accepted(_) => None,
    }
}

#[test]
fn a_code_earns_one_stamp_once() {
    let mut issuer = issuer_with("ABC123");
    let mut cards = MemoryStampCardTracker::new();

    let first = claim_code(&claim("user-1", "ABC123"), &mut issuer, &mut cards);
    match first {
        ClaimOutcome::Accepted(card) => {
            assert_eq!(card.stamps(), 1);
            assert_eq!(card.user_id().as_str(), "user-1");
        }
        other => panic!("expected an accepted claim, got {:?}", other),
    }
    assert_eq!(get_card("user-1".to_string(), &mut cards).stamps, 1);

    let second = claim_code(&claim("user-1", "ABC123"), &mut issuer, &mut cards);
    assert_eq!(rejected_with(&second), Some(RejectReason::NoActiveCode));
    assert_eq!(get_card("user-1".to_string(), &mut cards).stamps, 1);
}

#[test]
fn without_a_code_nothing_is_earned() {
    let mut issuer = ClaimCodeIssuer::new();
    let mut cards = MemoryStampCardTracker::new();
    let outcome = claim_code(&claim("user-1", "anything"), &mut issuer, &mut cards);
    assert_eq!(rejected_with(&outcome), Some(RejectReason::NoActiveCode));
    assert_eq!(get_card("user-1".to_string(), &mut cards).stamps, 0);
}

#[test]
fn two_customers_one_code_in_either_order() {
    for (first, second) in [("alice", "bob"), ("bob", "alice")] {
        let mut issuer = issuer_with("ABC123");
        let mut cards = MemoryStampCardTracker::new();
        let one = claim_code(&claim(first, "ABC123"), &mut issuer, &mut cards);
        let two = claim_code(&claim(second, "ABC123"), &mut issuer, &mut cards);
        assert!(matches!(one, ClaimOutcome::Accepted(_)));
        assert_eq!(rejected_with(&two), Some(RejectReason::NoActiveCode));
        assert_eq!(get_card(first.to_string(), &mut cards).stamps, 1);
        assert_eq!(get_card(second.to_string(), &mut cards).stamps, 0);
    }
}

#[test]
fn claims_behind_one_lock_are_taken_one_at_a_time() {
    let state = Mutex::new((issuer_with("ABC123"), MemoryStampCardTracker::new()));
    let attempt = |id: &str| {
        let mut guard = state.lock().unwrap();
        let (issuer, cards) = &mut *guard;
        matches!(claim_code(&claim(id, "ABC123"), issuer, cards), ClaimOutcome::Accepted(_))
    };
    let bob = attempt("bob");
    let alice = attempt("alice");
    assert!(bob);
    assert!(!alice);
    let mut guard = state.lock().unwrap();
    let (_, cards) = &mut *guard;
    assert_eq!(get_card("alice".to_string(), cards).stamps, 0);
    assert_eq!(get_card("bob".to_string(), cards).stamps, 1);
}

#[test]
fn wrong_code_is_a_mismatch_and_touches_nothing() {
    let mut issuer = issuer_with("ABC123");
    let mut cards = MemoryStampCardTracker::new();
    cards.stamp_card(&UserId("user-1".to_string()));
    let outcome = claim_code(&claim("user-1", "XYZ789"), &mut issuer, &mut cards);
    assert_eq!(rejected_with(&outcome), Some(RejectReason::Mismatch));
    assert_eq!(get_card("user-1".to_string(), &mut cards).stamps, 1);
    assert_eq!(issuer.current_code(), "ABC123");
    let outcome = claim_code(&claim("user-1", "ABC123"), &mut issuer, &mut cards);
    assert!(matches!(outcome, ClaimOutcome::Accepted(_)));
    assert_eq!(get_card("user-1".to_string(), &mut cards).stamps, 2);
}

#[test]
fn empty_code_is_invalid_before_the_issuer_is_asked() {
    let mut issuer = issuer_with("");
    let mut cards = MemoryStampCardTracker::new();
    let outcome = claim_code(&claim("user-1", ""), &mut issuer, &mut cards);
    assert_eq!(rejected_with(&outcome), Some(RejectReason::InvalidCode));
    assert!(!issuer.needs_rotation());
    assert_eq!(get_card("user-1".to_string(), &mut cards).stamps, 0);

    let mut none = ClaimCodeIssuer::new();
    let outcome = claim_code(&claim("user-1", ""), &mut none, &mut cards);
    assert_eq!(rejected_with(&outcome), Some(RejectReason::InvalidCode));
}

#[test]
fn claim_on_a_full_card_is_accepted_and_stays_full() {
    let mut cards = MemoryStampCardTracker::new();
    for _ in 0..10 {
        cards.stamp_card(&UserId("user-1".to_string()));
    }
    let mut issuer = issuer_with("ABC123");
    match claim_code(&claim("user-1", "ABC123"), &mut issuer, &mut cards) {
        ClaimOutcome::Accepted(card) => assert_eq!(card.stamps(), 10),
        other => panic!("expected an accepted claim, got {:?}", other),
    }
    assert!(issuer.needs_rotation());
}

#[test]
fn begin_claim_consumes_the_code_and_asks_for_the_stamp() {
    let mut issuer = issuer_with("ABC123");
    match begin_claim(&mut issuer, &claim("user-1", "ABC123")) {
        ClaimStep::Stamp(_, StoreRequest::FindOne { user_id }) => {
            assert_eq!(user_id.as_str(), "user-1")
        }
        other => panic!("expected the stamp to be asked for, got {:?}", other),
    }
    assert!(issuer.needs_rotation());
    match begin_claim(&mut issuer, &claim("user-1", "ABC123")) {
        ClaimStep::Rejected(reason) => assert_eq!(reason, RejectReason::NoActiveCode),
        other => panic!("expected a refusal, got {:?}", other),
    }
}

#[test]
fn begin_claim_refuses_without_touching_the_code() {
    let mut issuer = issuer_with("ABC123");
    assert!(matches!(
        begin_claim(&mut issuer, &claim("user-1", "nope")),
        ClaimStep::Rejected(RejectReason::Mismatch)
    ));
    assert!(matches!(
        begin_claim(&mut issuer, &claim("user-1", "")),
        ClaimStep::Rejected(RejectReason::InvalidCode)
    ));
    assert_eq!(issuer.current_code(), "ABC123");
}

#[test]
fn finish_claim_hands_on_card_and_failure() {
    let card = BasicStampCard::new(UserId("user-1".to_string())).with_stamp();
    match finish_claim(Ok(card)) {
        Ok(ClaimOutcome::Accepted(card)) => assert_eq!(card.stamps(), 1),
        other => panic!("expected an accepted claim, got {:?}", other),
    }
    assert_eq!(
        finish_claim(Err(StampCardRepositoryError::MongoDbError)).unwrap_err(),
        StampCardRepositoryError::MongoDbError
    );
    assert_eq!(
        finish_claim(Err(StampCardRepositoryError::InvariantViolation)).unwrap_err(),
        StampCardRepositoryError::InvariantViolation
    );
}

#[test]
fn a_store_failure_after_the_code_was_consumed_loses_the_code() {
    let mut issuer = issuer_with("ABC123");
    let step = begin_claim(&mut issuer, &claim("user-1", "ABC123"));
    assert!(matches!(step, ClaimStep::Stamp(..)));
    let result = finish_claim(Err(StampCardRepositoryError::MongoDbError));
    assert_eq!(claim_response(&result), (500, ""));
    assert!(matches!(
        begin_claim(&mut issuer, &claim("user-1", "ABC123")),
        ClaimStep::Rejected(RejectReason::NoActiveCode)
    ));
}

#[test]
fn responses_do_not_tell_refusals_apart() {
    assert_eq!((STATUS_OK, STATUS_BAD_REQUEST, STATUS_INTERNAL_SERVER_ERROR), (200, 400, 500));
    let card = BasicStampCard::new(UserId("user-1".to_string()));
    assert_eq!(claim_response(&Ok(ClaimOutcome::Accepted(card))), (200, ""));
    for reason in [RejectReason::InvalidCode, RejectReason::NoActiveCode, RejectReason::Mismatch] {
        assert_eq!(claim_response(&Ok(ClaimOutcome::Rejected(reason))), (400, "Invalid code!"));
    }
    for error in [
        StampCardRepositoryError::MongoDbError,
        StampCardRepositoryError::InvariantViolation,
        StampCardRepositoryError::UnexpectedReply,
    ] {
        assert_eq!(claim_response(&Err(error)), (500, ""));
    }
}
