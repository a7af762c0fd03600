//! Issuing the one active claim code, and claiming a stamp with it.
//!
//! At any time there is one active code or none. Showing the code issues a
//! fresh one when there is none to show; a claim with the right code retires
//! it and earns the customer one stamp. The code is checked, and retired,
//! strictly before any card is touched.

use vstd::prelude::*;
use vstd::pervasive::unreached;
use crate::db::{
    get_or_create_model, lemma_operations_meet_models, outcome_view, records_wf, run_model,
    stamp_model, CardOperation, CardOperationView, Records, StampCardRepositoryError,
    StoreRequest, StoreRequestView,
};
use crate::qr_gen::{is_token, ClaimCodeView, CustomerQrCode, CODE_LENGTH};
use crate::stampcard::{BasicStampCard, StampCardView};
use crate::tracker::MemoryStampCardTracker;
use crate::user::UserId;

verus! {

/// What became of an attempt to use up the active code.
#[derive(Debug, Clone, Copy, PartialEq, Eq, Structural)]
pub enum ConsumeResult {
    /// The submitted code was the active one, which is now retired.
    Consumed,
    /// There was no active code.
    NoActiveCode,
    /// There is an active code, and it is another.
    Mismatch,
}

/// The issuer's state: the active code, if there is one.
pub type IssuerState = Option<ClaimCodeView>;

/// The token of the active code. A code that has been used is stale: it is
/// held, but it is not active.
pub open spec fn active_code(state: IssuerState) -> Option<Seq<char>> {
    match state {
        Some(code) => if code.used {
            None
        } else {
            Some(code.value)
        },
        None => None,
    }
}

/// Whether a fresh code has to be issued before one can be shown, which is
/// so when there is no active code.
pub open spec fn rotation_due(state: IssuerState) -> bool {
    active_code(state) is None
}

/// The state after the code has been shown, where `fresh` is the code that
/// takes over if a rotation is due. The code shown is the one then active.
pub open spec fn issue_model(state: IssuerState, fresh: ClaimCodeView) -> IssuerState {
    if rotation_due(state) {
        Some(fresh)
    } else {
        state
    }
}

/// Using up the active code: the right code retires it altogether, so that
/// nothing is held any more; any other leaves the state as it is.
pub open spec fn try_consume_model(state: IssuerState, submitted: Seq<char>) -> (
    IssuerState,
    ConsumeResult,
) {
    match active_code(state) {
        None => (state, ConsumeResult::NoActiveCode),
        Some(code) => if code == submitted {
            (None, ConsumeResult::Consumed)
        } else {
            (state, ConsumeResult::Mismatch)
        },
    }
}

/// What showing the code does when the fresh code is random: `after` is the
/// state that [`issue_model`] gives for some unused fresh code of
/// [`CODE_LENGTH`] letters and digits, and `code` is the code then active. So
/// an active unused code is shown and kept as it is, and otherwise a code
/// that nobody can name in advance takes over.
pub open spec fn shows_code(before: IssuerState, after: IssuerState, code: Seq<char>) -> bool {
    &&& exists|fresh: ClaimCodeView|
        #![trigger issue_model(before, fresh)]
        !fresh.used && is_token(fresh.value, CODE_LENGTH as nat) && after == issue_model(
            before,
            fresh,
        )
    &&& after is Some
    &&& code == after->0.value
}

/// Holder of the single active claim code.
#[derive(Debug)]
pub struct ClaimCodeIssuer {
    current: Option<CustomerQrCode>,
}

impl View for ClaimCodeIssuer {
    type V = IssuerState;

    closed spec fn view(&self) -> IssuerState {
        match self.current {
            Some(code) => Some(code@),
            None => None,
        }
    }
}

impl ClaimCodeIssuer {
    /// An issuer with no active code.
    pub fn new() -> (issuer: Self)
        ensures
            issuer@ is None,
    {
        ClaimCodeIssuer { current: None }
    }

    /// An issuer whose active code is `code`.
    pub fn with_code(code: CustomerQrCode) -> (issuer: Self)
        ensures
            issuer@ == Some(code@),
    {
        ClaimCodeIssuer { current: Some(code) }
    }

    /// Whether the next showing of the code issues a fresh one.
    pub fn needs_rotation(&self) -> (due: bool)
        ensures
            due == rotation_due(self@),
    {
        match &self.current {
            Some(code) => code.is_used(),
            None => true,
        }
    }

    /// The token of the active code.
    fn shown(&self) -> (code: String)
        requires
            self@ is Some,
        ensures
            code@ == self@->0.value,
    {
        match &self.current {
            Some(code) => code.value().clone(),
            None => unreached(),
        }
    }

    /// Shows the active code, with `fresh` taking over first if a rotation is
    /// due.
    pub fn issue(&mut self, fresh: CustomerQrCode) -> (code: String)
        ensures
            final(self)@ == issue_model(old(self)@, fresh@),
            final(self)@ is Some,
            code@ == final(self)@->0.value,
    {
        if self.needs_rotation() {
            self.current = Some(fresh);
        }
        self.shown()
    }

    /// Shows the active code. If there is none, or it has been used, a fresh
    /// random code of [`CODE_LENGTH`] letters and digits is issued first;
    /// otherwise nothing changes.
    pub fn current_code(&mut self) -> (code: String)
        ensures
            shows_code(old(self)@, final(self)@, code@),
    {
        if self.needs_rotation() {
            let fresh = CustomerQrCode::new();
            assert(issue_model(self@, fresh@) == Some(fresh@));
            self.current = Some(fresh);
        } else {
            proof {
                let spare = ClaimCodeView {
                    value: Seq::new(CODE_LENGTH as nat, |i: int| '0'),
                    used: false,
                };
                assert(issue_model(self@, spare) == self@);
            }
        }
        self.shown()
    }

    /// Tries to use up the active code with `submitted`.
    pub fn try_consume(&mut self, submitted: &str) -> (result: ConsumeResult)
        ensures
            (final(self)@, result) == try_consume_model(old(self)@, submitted@),
    {
        let matches = match &self.current {
            None => {
                return ConsumeResult::NoActiveCode;
            },
            Some(code) => {
                if code.is_used() {
                    return ConsumeResult::NoActiveCode;
                }
                *code.value() == submitted.to_owned()
            },
        };
        if matches {
            self.current = None;
            ConsumeResult::Consumed
        } else {
            ConsumeResult::Mismatch
        }
    }
}

/// Showing the code twice in a row shows the same code twice, whatever fresh
/// codes stand ready, and the second showing changes nothing.
pub proof fn lemma_code_is_stable(state: IssuerState, first: ClaimCodeView, second: ClaimCodeView)
    requires
        !first.used,
    ensures
        ({
            let shown = issue_model(state, first);
            &&& shown is Some
            &&& issue_model(shown, second) == shown
        }),
{
}

/// As long as no claim succeeds the code stays the same from one showing to
/// the next: of two showings in a row, with whatever random codes, the second
/// shows the first's code and changes nothing. And a code that was issued on
/// the spot, as the first code of a new issuer is, has [`CODE_LENGTH`]
/// characters, so it is not empty.
pub proof fn lemma_shown_code_is_stable(
    start: IssuerState,
    middle: IssuerState,
    end: IssuerState,
    first: Seq<char>,
    second: Seq<char>,
)
    requires
        shows_code(start, middle, first),
        shows_code(middle, end, second),
    ensures
        second == first,
        end == middle,
        rotation_due(start) ==> first.len() == CODE_LENGTH,
{
}

/// A wrong code leaves the active code in place: it is still the code shown
/// afterwards.
pub proof fn lemma_wrong_code_changes_nothing(
    state: IssuerState,
    submitted: Seq<char>,
    fresh: ClaimCodeView,
)
    requires
        active_code(state) is Some,
        active_code(state) != Some(submitted),
    ensures
        try_consume_model(state, submitted) == (state, ConsumeResult::Mismatch),
        issue_model(try_consume_model(state, submitted).0, fresh) == issue_model(state, fresh),
{
}

/// The right code is consumed once and once only: the second attempt finds
/// no active code.
pub proof fn lemma_code_is_consumed_once(state: IssuerState, submitted: Seq<char>)
    requires
        active_code(state) == Some(submitted),
    ensures
        try_consume_model(state, submitted).1 == ConsumeResult::Consumed,
        try_consume_model(try_consume_model(state, submitted).0, submitted).1
            == ConsumeResult::NoActiveCode,
{
}

/// A customer's submission of a code.
#[derive(Debug)]
pub struct ClaimRequest {
    pub id: String,
    pub code: String,
}

/// The answer to a request for the code on display.
#[derive(Debug)]
pub struct CodeResponse {
    pub code: String,
}

/// Why a claim earned no stamp.
#[derive(Debug, Clone, Copy, PartialEq, Eq, Structural)]
pub enum RejectReason {
    /// The submitted code is empty.
    InvalidCode,
    /// There is no active code.
    NoActiveCode,
    /// The submitted code is not the active one.
    Mismatch,
}

/// How a claim ended.
#[derive(Debug)]
pub enum ClaimOutcome {
    /// The code was right: the customer's card, with its new stamp.
    Accepted(BasicStampCard),
    /// The code was refused, and no card was touched.
    Rejected(RejectReason),
}

/// How a claim ended, mathematically.
pub enum ClaimOutcomeView {
    Accepted(StampCardView),
    Rejected(RejectReason),
}

impl View for ClaimOutcome {
    type V = ClaimOutcomeView;

    open spec fn view(&self) -> ClaimOutcomeView {
        match self {
            ClaimOutcome::Accepted(card) => ClaimOutcomeView::Accepted(card@),
            ClaimOutcome::Rejected(reason) => ClaimOutcomeView::Rejected(*reason),
        }
    }
}

/// Where a claim stands once its code has been checked.
#[derive(Debug)]
pub enum ClaimStep {
    /// The code was refused; the claim is over.
    Rejected(RejectReason),
    /// The code was consumed; the stamp is owed. The store operation that
    /// adds it, with its first request.
    Stamp(CardOperation, StoreRequest),
}

/// Where a claim stands once its code has been checked, mathematically.
pub enum ClaimStepView {
    Rejected(RejectReason),
    Stamp(CardOperationView, StoreRequestView),
}

impl View for ClaimStep {
    type V = ClaimStepView;

    open spec fn view(&self) -> ClaimStepView {
        match self {
            ClaimStep::Rejected(reason) => ClaimStepView::Rejected(*reason),
            ClaimStep::Stamp(operation, request) => ClaimStepView::Stamp(operation@, request@),
        }
    }
}

/// The check of a submitted code: whether it is refused, and the issuer's
/// state afterwards. An empty code is refused before the issuer is consulted.
pub open spec fn check_code_model(state: IssuerState, submitted: Seq<char>) -> (
    IssuerState,
    Option<RejectReason>,
) {
    if submitted.len() == 0 {
        (state, Some(RejectReason::InvalidCode))
    } else {
        let (after, result) = try_consume_model(state, submitted);
        (
            after,
            match result {
                ConsumeResult::Consumed => None,
                ConsumeResult::NoActiveCode => Some(RejectReason::NoActiveCode),
                ConsumeResult::Mismatch => Some(RejectReason::Mismatch),
            },
        )
    }
}

/// The first half of a claim: the code is checked and, if right, consumed;
/// only then is the stamp asked for.
pub open spec fn begin_claim_model(state: IssuerState, user_id: Seq<char>, submitted: Seq<char>) -> (
    IssuerState,
    ClaimStepView,
) {
    let (after, refusal) = check_code_model(state, submitted);
    (
        after,
        match refusal {
            Some(reason) => ClaimStepView::Rejected(reason),
            None => {
                let (operation, request) = CardOperationView::stamp_card(user_id);
                ClaimStepView::Stamp(operation, request)
            },
        },
    )
}

/// The second half of a claim: the card that the store gave is the accepted
/// claim's card, and a store failure stays a failure.
pub open spec fn finish_claim_model(
    stamped: Result<StampCardView, StampCardRepositoryError>,
) -> Result<ClaimOutcomeView, StampCardRepositoryError> {
    match stamped {
        Ok(card) => Ok(ClaimOutcomeView::Accepted(card)),
        Err(error) => Err(error),
    }
}

/// A whole claim against records that never fail: the issuer's state and the
/// records afterwards, and how the claim ended.
pub open spec fn claim_model(
    state: IssuerState,
    records: Records,
    user_id: Seq<char>,
    submitted: Seq<char>,
) -> (IssuerState, Records, ClaimOutcomeView) {
    let (after, refusal) = check_code_model(state, submitted);
    match refusal {
        Some(reason) => (after, records, ClaimOutcomeView::Rejected(reason)),
        None => {
            let (stamped, card) = stamp_model(records, user_id);
            (after, stamped, ClaimOutcomeView::Accepted(card))
        },
    }
}

/// The view of a finished claim.
pub open spec fn claim_result_view(
    result: Result<ClaimOutcome, StampCardRepositoryError>,
) -> Result<ClaimOutcomeView, StampCardRepositoryError> {
    match result {
        Ok(outcome) => Ok(outcome@),
        Err(error) => Err(error),
    }
}

/// A claim made in its two halves, with the stamp added in between by a store
/// that does not fail, is the whole claim. And by the time the stamp is asked
/// for, the code has been retired: if the store then fails, the code is lost.
pub proof fn lemma_claim_in_steps(
    state: IssuerState,
    records: Records,
    user_id: Seq<char>,
    submitted: Seq<char>,
)
    requires
        records_wf(records),
    ensures
        match begin_claim_model(state, user_id, submitted) {
            (after, ClaimStepView::Rejected(reason)) => claim_model(
                state,
                records,
                user_id,
                submitted,
            ) == (after, records, ClaimOutcomeView::Rejected(reason)),
            (after, ClaimStepView::Stamp(operation, request)) => {
                let (stamped, outcome) = run_model(records, operation, request);
                &&& after is None
                &&& outcome is Ok
                &&& finish_claim_model(outcome) == Ok::<_, StampCardRepositoryError>(
                    ClaimOutcomeView::Accepted(outcome->Ok_0),
                )
                &&& claim_model(state, records, user_id, submitted) == (
                    after,
                    stamped,
                    ClaimOutcomeView::Accepted(outcome->Ok_0),
                )
            },
        },
{
    lemma_operations_meet_models(records, user_id);
}

/// A refused claim touches no card, and a claim touches no card but the
/// claimant's.
pub proof fn lemma_claim_touches_one_card_at_most(
    state: IssuerState,
    records: Records,
    user_id: Seq<char>,
    submitted: Seq<char>,
)
    ensures
        ({
            let (_, after, outcome) = claim_model(state, records, user_id, submitted);
            &&& outcome is Rejected ==> after == records
            &&& forall|other: Seq<char>|
                other != user_id ==> after.dom().contains(other) == records.dom().contains(other)
                    && after[other] == records[other]
        }),
{
}

/// A claim is accepted exactly when its code is not empty and is the active
/// one, and then the claimant's card has one stamp more, short of the
/// capacity.
pub proof fn lemma_claim_is_accepted_for_the_active_code(
    state: IssuerState,
    records: Records,
    user_id: Seq<char>,
    submitted: Seq<char>,
)
    ensures
        ({
            let (after_state, after, outcome) = claim_model(state, records, user_id, submitted);
            let before = get_or_create_model(records, user_id).1;
            &&& outcome is Accepted <==> submitted.len() > 0 && active_code(state) == Some(
                submitted,
            )
            &&& outcome is Accepted ==> {
                &&& after_state is None
                &&& after.dom().contains(user_id)
                &&& after[user_id] == outcome->Accepted_0
                &&& outcome->Accepted_0 == before.stamped()
            }
            &&& outcome is Rejected ==> after_state == state
        }),
{
}

/// One code earns one stamp: of two claims with the same active code, made
/// one after the other in either order by whichever customers, the first is
/// accepted and the second refused, and only the first claimant's card has
/// changed, by one stamp.
pub proof fn lemma_one_code_earns_one_stamp(
    state: IssuerState,
    records: Records,
    first: Seq<char>,
    second: Seq<char>,
    code: Seq<char>,
)
    requires
        active_code(state) == Some(code),
        code.len() > 0,
    ensures
        ({
            let (state_1, records_1, outcome_1) = claim_model(state, records, first, code);
            let (state_2, records_2, outcome_2) = claim_model(state_1, records_1, second, code);
            &&& outcome_1 == ClaimOutcomeView::Accepted(stamp_model(records, first).1)
            &&& outcome_2 == ClaimOutcomeView::Rejected(RejectReason::NoActiveCode)
            &&& records_1 == stamp_model(records, first).0
            &&& records_2 == records_1
            &&& state_2 is None
        }),
{
}

/// Status of an answer that grants what was asked.
pub const STATUS_OK: u16 = 200;

/// Status of an answer that refuses the submission.
pub const STATUS_BAD_REQUEST: u16 = 400;

/// Status of an answer that reports a failure of the store.
pub const STATUS_INTERNAL_SERVER_ERROR: u16 = 500;

/// The status that answers a finished claim.
pub open spec fn claim_status_model(
    result: Result<ClaimOutcomeView, StampCardRepositoryError>,
) -> u16 {
    match result {
        Ok(ClaimOutcomeView::Accepted(_)) => STATUS_OK,
        Ok(ClaimOutcomeView::Rejected(_)) => STATUS_BAD_REQUEST,
        Err(_) => STATUS_INTERNAL_SERVER_ERROR,
    }
}

/// The answer to a finished claim: its status and its body. An accepted
/// claim is answered with an empty body. Every refusal is answered with the
/// same words, so that the answer does not tell a wrong code from a missing
/// one. A failure of the store is a fault of the server.
pub fn claim_response(result: &Result<ClaimOutcome, StampCardRepositoryError>) -> (response: (
    u16,
    &'static str,
))
    ensures
        response.0 == claim_status_model(claim_result_view(*result)),
        response.1@ == if response.0 == STATUS_BAD_REQUEST {
            "Invalid code!"@
        } else {
            ""@
        },
{
    match result {
        Ok(ClaimOutcome::Accepted(_)) => (STATUS_OK, ""),
        Ok(ClaimOutcome::Rejected(_)) => (STATUS_BAD_REQUEST, "Invalid code!"),
        Err(_) => (STATUS_INTERNAL_SERVER_ERROR, ""),
    }
}

/// Shows the code on display, issuing a fresh one if there is none to show.
pub fn get_code(issuer: &mut ClaimCodeIssuer) -> (response: CodeResponse)
    ensures
        shows_code(old(issuer)@, final(issuer)@, response.code@),
{
    CodeResponse { code: issuer.current_code() }
}

/// Checks the code of `claim` and consumes it if it is the active one. A
/// refused claim ends here; for an accepted one the stamp is still owed, and
/// the store operation that adds it is handed out.
pub fn begin_claim(issuer: &mut ClaimCodeIssuer, claim: &ClaimRequest) -> (step: ClaimStep)
    ensures
        (final(issuer)@, step@) == begin_claim_model(old(issuer)@, claim.id@, claim.code@),
{
    if claim.code.as_str().is_empty() {
        return ClaimStep::Rejected(RejectReason::InvalidCode);
    }
    match issuer.try_consume(claim.code.as_str()) {
        ConsumeResult::NoActiveCode => ClaimStep::Rejected(RejectReason::NoActiveCode),
        ConsumeResult::Mismatch => ClaimStep::Rejected(RejectReason::Mismatch),
        ConsumeResult::Consumed => {
            let user_id = UserId(claim.id.clone());
            let (operation, request) = CardOperation::stamp_card(&user_id);
            ClaimStep::Stamp(operation, request)
        },
    }
}

/// Ends an accepted claim with what the store made of the stamp. A failure
/// of the store is handed on as it is: the code stays consumed.
pub fn finish_claim(stamped: Result<BasicStampCard, StampCardRepositoryError>) -> (result: Result<
    ClaimOutcome,
    StampCardRepositoryError,
>)
    ensures
        claim_result_view(result) == finish_claim_model(outcome_view(stamped)),
{
    match stamped {
        Ok(card) => Ok(ClaimOutcome::Accepted(card)),
        Err(error) => Err(error),
    }
}

/// Carries a claim through against cards kept in memory.
pub fn claim_code(
    claim: &ClaimRequest,
    issuer: &mut ClaimCodeIssuer,
    cards: &mut MemoryStampCardTracker,
) -> (outcome: ClaimOutcome)
    ensures
        (final(issuer)@, final(cards)@, outcome@) == claim_model(
            old(issuer)@,
            old(cards)@,
            claim.id@,
            claim.code@,
        ),
{
    match begin_claim(issuer, claim) {
        ClaimStep::Rejected(reason) => ClaimOutcome::Rejected(reason),
        ClaimStep::Stamp(operation, request) => {
            let stamped = cards.run(operation, request);
            proof {
                lemma_claim_in_steps(old(issuer)@, old(cards)@, claim.id@, claim.code@);
            }
            match finish_claim(stamped) {
                Ok(outcome) => outcome,
                Err(_) => unreached(),
            }
        },
    }
}

} // verus!
