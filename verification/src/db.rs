//! The stamp card store as a conversation with its backing collection.
//!
//! The collection itself lives outside this crate: it is asked one thing at a
//! time and answers. What is asked next, and what the operation finally
//! yields, is decided here. An operation is started by one of
//! [`CardOperation::get_or_create_card`], [`CardOperation::stamp_card`] and
//! [`CardOperation::reset_card`], which give the first request, and is carried
//! on by [`CardOperation::advance`] with each answer until it has finished.

use vstd::prelude::*;
use crate::stampcard::{
    lemma_stamped_times, BasicStampCard, CardDocument, StampCardView, CARD_CAPACITY,
};
use crate::user::UserId;

verus! {

/// Why a store operation yielded no card.
#[derive(Debug, Clone, Copy, PartialEq, Eq, Structural)]
pub enum StampCardRepositoryError {
    /// The backing collection reported a failure.
    MongoDbError,
    /// A stored record breaks the card invariant.
    InvariantViolation,
    /// The answer does not fit the request it was given for.
    UnexpectedReply,
}

/// One round trip asked of the backing collection.
#[derive(Debug)]
pub enum StoreRequest {
    /// Look up the record with exactly this identifier.
    FindOne { user_id: UserId },
    /// Store the record of a customer that had none.
    InsertOne { card: BasicStampCard },
    /// Put this record in place of whatever is stored for its customer,
    /// creating it if there is none.
    ReplaceOne { card: BasicStampCard },
}

/// One round trip asked of the backing collection, mathematically.
pub enum StoreRequestView {
    FindOne { user_id: Seq<char> },
    InsertOne { card: StampCardView },
    ReplaceOne { card: StampCardView },
}

impl View for StoreRequest {
    type V = StoreRequestView;

    open spec fn view(&self) -> StoreRequestView {
        match self {
            StoreRequest::FindOne { user_id } => StoreRequestView::FindOne { user_id: user_id@ },
            StoreRequest::InsertOne { card } => StoreRequestView::InsertOne { card: card@ },
            StoreRequest::ReplaceOne { card } => StoreRequestView::ReplaceOne { card: card@ },
        }
    }
}

/// What the backing collection answered.
#[derive(Debug)]
pub enum StoreReply {
    /// The lookup found this record.
    Found(CardDocument),
    /// The lookup found nothing.
    NotFound,
    /// The record was written.
    Written,
    /// The collection could not do what was asked.
    Failed,
}

/// What the backing collection answered, mathematically.
pub enum StoreReplyView {
    Found(StampCardView),
    NotFound,
    Written,
    Failed,
}

impl View for StoreReply {
    type V = StoreReplyView;

    open spec fn view(&self) -> StoreReplyView {
        match self {
            StoreReply::Found(document) => StoreReplyView::Found(document@),
            StoreReply::NotFound => StoreReplyView::NotFound,
            StoreReply::Written => StoreReplyView::Written,
            StoreReply::Failed => StoreReplyView::Failed,
        }
    }
}

/// A store operation under way: the answer it waits for and what it will do
/// with it.
#[derive(Debug)]
pub enum CardOperation {
    /// Waiting for the lookup of `user_id`; `stamp` says whether the card is
    /// to be stamped once it is at hand.
    AwaitingLookup { user_id: UserId, stamp: bool },
    /// Waiting for the new `card` to be stored.
    AwaitingInsert { card: BasicStampCard, stamp: bool },
    /// Waiting for `card` to take the place of the stored record.
    AwaitingReplace { card: BasicStampCard },
}

/// A store operation under way, mathematically.
pub enum CardOperationView {
    AwaitingLookup { user_id: Seq<char>, stamp: bool },
    AwaitingInsert { card: StampCardView, stamp: bool },
    AwaitingReplace { card: StampCardView },
}

impl View for CardOperation {
    type V = CardOperationView;

    open spec fn view(&self) -> CardOperationView {
        match self {
            CardOperation::AwaitingLookup { user_id, stamp } => CardOperationView::AwaitingLookup {
                user_id: user_id@,
                stamp: *stamp,
            },
            CardOperation::AwaitingInsert { card, stamp } => CardOperationView::AwaitingInsert {
                card: card@,
                stamp: *stamp,
            },
            CardOperation::AwaitingReplace { card } => CardOperationView::AwaitingReplace {
                card: card@,
            },
        }
    }
}

/// Where an operation stands after an answer.
#[derive(Debug)]
pub enum Progress {
    /// The operation goes on: send this request and come back with its answer.
    Continue(CardOperation, StoreRequest),
    /// The operation is over, with its card or the reason there is none.
    Finished(Result<BasicStampCard, StampCardRepositoryError>),
}

/// Where an operation stands after an answer, mathematically.
pub enum ProgressView {
    Continue(CardOperationView, StoreRequestView),
    Finished(Result<StampCardView, StampCardRepositoryError>),
}

/// The view of an operation's outcome.
pub open spec fn outcome_view(
    outcome: Result<BasicStampCard, StampCardRepositoryError>,
) -> Result<StampCardView, StampCardRepositoryError> {
    match outcome {
        Ok(card) => Ok(card@),
        Err(error) => Err(error),
    }
}

impl View for Progress {
    type V = ProgressView;

    open spec fn view(&self) -> ProgressView {
        match self {
            Progress::Continue(operation, request) => ProgressView::Continue(
                operation@,
                request@,
            ),
            Progress::Finished(outcome) => ProgressView::Finished(outcome_view(*outcome)),
        }
    }
}

/// What follows once `card` is at hand: it is the result, or it is stamped
/// and its record replaced first.
pub open spec fn with_card_model(card: StampCardView, stamp: bool) -> ProgressView {
    if stamp {
        ProgressView::Continue(
            CardOperationView::AwaitingReplace { card: card.stamped() },
            StoreRequestView::ReplaceOne { card: card.stamped() },
        )
    } else {
        ProgressView::Finished(Ok(card))
    }
}

impl CardOperationView {
    /// An upper bound on the round trips the operation still needs.
    pub open spec fn round_trips_left(self) -> nat {
        match self {
            CardOperationView::AwaitingLookup { .. } => 3,
            CardOperationView::AwaitingInsert { .. } => 2,
            CardOperationView::AwaitingReplace { .. } => 1,
        }
    }

    /// The first step of looking a customer's card up, creating it if needed.
    pub open spec fn get_or_create_card(user_id: Seq<char>) -> (CardOperationView, StoreRequestView) {
        (
            CardOperationView::AwaitingLookup { user_id, stamp: false },
            StoreRequestView::FindOne { user_id },
        )
    }

    /// The first step of adding a stamp to a customer's card.
    pub open spec fn stamp_card(user_id: Seq<char>) -> (CardOperationView, StoreRequestView) {
        (
            CardOperationView::AwaitingLookup { user_id, stamp: true },
            StoreRequestView::FindOne { user_id },
        )
    }

    /// The first step of putting a fresh card in place of a customer's card.
    pub open spec fn reset_card(user_id: Seq<char>) -> (CardOperationView, StoreRequestView) {
        (
            CardOperationView::AwaitingReplace { card: StampCardView::fresh(user_id) },
            StoreRequestView::ReplaceOne { card: StampCardView::fresh(user_id) },
        )
    }

    /// What the operation does with an answer.
    ///
    /// A reported failure ends it with `MongoDbError`, and an answer of the
    /// wrong kind, or a record of another customer, with `UnexpectedReply`. A
    /// record found is checked against the card invariant and ends the
    /// operation with `InvariantViolation` if it breaks it. A customer without
    /// a record gets a fresh card, which is stored before anything else.
    pub open spec fn advance(self, reply: StoreReplyView) -> ProgressView {
        match (self, reply) {
            (_, StoreReplyView::Failed) => ProgressView::Finished(
                Err(StampCardRepositoryError::MongoDbError),
            ),
            (CardOperationView::AwaitingLookup { user_id, stamp }, StoreReplyView::Found(card)) => {
                if !card.wf() {
                    ProgressView::Finished(Err(StampCardRepositoryError::InvariantViolation))
                } else if card.user_id != user_id {
                    ProgressView::Finished(Err(StampCardRepositoryError::UnexpectedReply))
                } else {
                    with_card_model(card, stamp)
                }
            },
            (CardOperationView::AwaitingLookup { user_id, stamp }, StoreReplyView::NotFound) => {
                ProgressView::Continue(
                    CardOperationView::AwaitingInsert {
                        card: StampCardView::fresh(user_id),
                        stamp,
                    },
                    StoreRequestView::InsertOne { card: StampCardView::fresh(user_id) },
                )
            },
            (CardOperationView::AwaitingInsert { card, stamp }, StoreReplyView::Written) => {
                with_card_model(card, stamp)
            },
            (CardOperationView::AwaitingReplace { card }, StoreReplyView::Written) => {
                ProgressView::Finished(Ok(card))
            },
            _ => ProgressView::Finished(Err(StampCardRepositoryError::UnexpectedReply)),
        }
    }
}

/// What a collection holds: at most one record for each customer.
pub type Records = Map<Seq<char>, StampCardView>;

/// Every record is filed under its own customer and satisfies the card
/// invariant.
pub open spec fn records_wf(records: Records) -> bool {
    forall|user_id: Seq<char>| #[trigger]
        records.dom().contains(user_id) ==> records[user_id].user_id == user_id
            && records[user_id].wf()
}

/// How a collection that never fails answers a request, and what it holds
/// afterwards. Both ways of writing file the record under its customer, so
/// that no customer ever has two.
pub open spec fn answer_model(records: Records, request: StoreRequestView) -> (
    Records,
    StoreReplyView,
) {
    match request {
        StoreRequestView::FindOne { user_id } => (
            records,
            if records.dom().contains(user_id) {
                StoreReplyView::Found(records[user_id])
            } else {
                StoreReplyView::NotFound
            },
        ),
        StoreRequestView::InsertOne { card } => (
            records.insert(card.user_id, card),
            StoreReplyView::Written,
        ),
        StoreRequestView::ReplaceOne { card } => (
            records.insert(card.user_id, card),
            StoreReplyView::Written,
        ),
    }
}

/// An operation carried through against a collection that never fails: what
/// the collection holds in the end, and the operation's outcome.
pub open spec fn run_model(
    records: Records,
    operation: CardOperationView,
    request: StoreRequestView,
) -> (Records, Result<StampCardView, StampCardRepositoryError>)
    decreases operation.round_trips_left(),
{
    let (records_after, reply) = answer_model(records, request);
    match operation.advance(reply) {
        ProgressView::Finished(outcome) => (records_after, outcome),
        ProgressView::Continue(next, next_request) => run_model(
            records_after,
            next,
            next_request,
        ),
    }
}

/// Looking a card up, creating it on first sight: a customer with a record
/// gets it unchanged, any other gets a fresh card, which is stored.
pub open spec fn get_or_create_model(records: Records, user_id: Seq<char>) -> (
    Records,
    StampCardView,
) {
    if records.dom().contains(user_id) {
        (records, records[user_id])
    } else {
        (records.insert(user_id, StampCardView::fresh(user_id)), StampCardView::fresh(user_id))
    }
}

/// Adding a stamp: the card is looked up or created, stamped, and its record
/// replaced.
pub open spec fn stamp_model(records: Records, user_id: Seq<char>) -> (Records, StampCardView) {
    let card = get_or_create_model(records, user_id).1.stamped();
    (records.insert(user_id, card), card)
}

/// Resetting: a fresh card takes the place of the customer's record, or
/// becomes it.
pub open spec fn reset_model(records: Records, user_id: Seq<char>) -> Records {
    records.insert(user_id, StampCardView::fresh(user_id))
}

/// Against a collection that never fails and holds well-formed records, the
/// three operations do exactly what their models say, and succeed.
pub proof fn lemma_operations_meet_models(records: Records, user_id: Seq<char>)
    requires
        records_wf(records),
    ensures
        ({
            let (operation, request) = CardOperationView::get_or_create_card(user_id);
            let (after, card) = get_or_create_model(records, user_id);
            run_model(records, operation, request) == (after, Ok::<_, StampCardRepositoryError>(card))
        }),
        ({
            let (operation, request) = CardOperationView::stamp_card(user_id);
            let (after, card) = stamp_model(records, user_id);
            run_model(records, operation, request) == (after, Ok::<_, StampCardRepositoryError>(card))
        }),
        ({
            let (operation, request) = CardOperationView::reset_card(user_id);
            run_model(records, operation, request) == (
                reset_model(records, user_id),
                Ok::<_, StampCardRepositoryError>(StampCardView::fresh(user_id)),
            )
        }),
{
    reveal_with_fuel(run_model, 4);
    let fresh = StampCardView::fresh(user_id);
    if records.dom().contains(user_id) {
        assert(records[user_id].wf());
    } else {
        assert(records.insert(user_id, fresh).insert(user_id, fresh.stamped())
            =~= records.insert(user_id, fresh.stamped()));
    }
}

/// What the collection holds after a stamp has been added `times` times in a
/// row.
pub open spec fn stamp_times_model(records: Records, user_id: Seq<char>, times: nat) -> Records
    decreases times,
{
    if times == 0 {
        records
    } else {
        stamp_model(stamp_times_model(records, user_id, (times - 1) as nat), user_id).0
    }
}

/// A customer never seen before gets a card with no stamps and the fixed
/// capacity.
pub proof fn lemma_first_card_is_empty(records: Records, user_id: Seq<char>)
    requires
        !records.dom().contains(user_id),
    ensures
        get_or_create_model(records, user_id).1.user_id == user_id,
        get_or_create_model(records, user_id).1.stamps == 0,
        get_or_create_model(records, user_id).1.capacity == CARD_CAPACITY,
{
}

/// Looking a card up changes nothing once the customer has one: a second
/// lookup gives the same card and leaves the records as the first left them.
pub proof fn lemma_lookup_is_stable(records: Records, user_id: Seq<char>)
    ensures
        ({
            let (once, card) = get_or_create_model(records, user_id);
            get_or_create_model(once, user_id) == (once, card)
        }),
{
}

/// The store's operations keep the records well formed and touch no record
/// but that of the customer they are for.
pub proof fn lemma_operations_keep_records(records: Records, user_id: Seq<char>)
    requires
        records_wf(records),
    ensures
        records_wf(get_or_create_model(records, user_id).0),
        records_wf(stamp_model(records, user_id).0),
        records_wf(reset_model(records, user_id)),
        forall|other: Seq<char>|
            other != user_id ==> {
                &&& get_or_create_model(records, user_id).0.dom().contains(other)
                    == records.dom().contains(other)
                &&& stamp_model(records, user_id).0.dom().contains(other) == records.dom().contains(
                    other,
                )
                &&& reset_model(records, user_id).dom().contains(other) == records.dom().contains(
                    other,
                )
                &&& get_or_create_model(records, user_id).0[other] == records[other]
                &&& stamp_model(records, user_id).0[other] == records[other]
                &&& reset_model(records, user_id)[other] == records[other]
            },
{
}

/// The last of `times` stamps in a row gives the card with `times` stamps
/// more than the customer had, but never more than the capacity, and that is
/// the card then stored.
pub proof fn lemma_stamps_add_up(records: Records, user_id: Seq<char>, times: nat)
    requires
        records_wf(records),
        times >= 1,
    ensures
        ({
            let before = get_or_create_model(records, user_id).1;
            let earlier = stamp_times_model(records, user_id, (times - 1) as nat);
            let (after, card) = stamp_model(earlier, user_id);
            &&& after == stamp_times_model(records, user_id, times)
            &&& records_wf(after)
            &&& after.dom().contains(user_id)
            &&& after[user_id] == card
            &&& card == before.stamped_times(times)
            &&& card.stamps == if before.stamps + times <= CARD_CAPACITY {
                before.stamps + times
            } else {
                CARD_CAPACITY as nat
            }
        }),
    decreases times,
{
    let before = get_or_create_model(records, user_id).1;
    lemma_stamped_times(before, times);
    reveal_with_fuel(StampCardView::stamped_times, 2);
    reveal_with_fuel(stamp_times_model, 2);
    if times > 1 {
        lemma_stamps_add_up(records, user_id, (times - 1) as nat);
    }
}

/// The tenth stamp in a row fills any card, and the eleventh gives a full
/// card again.
pub proof fn lemma_ten_stamps_fill_the_card(records: Records, user_id: Seq<char>)
    requires
        records_wf(records),
    ensures
        stamp_model(stamp_times_model(records, user_id, 9), user_id).1.stamps == 10,
        stamp_model(stamp_times_model(records, user_id, 10), user_id).1.stamps == 10,
{
    lemma_stamps_add_up(records, user_id, 10);
    lemma_stamps_add_up(records, user_id, 11);
}

/// After a reset the customer's card has no stamps, whatever was stored and
/// however many stamps went before; and a second reset changes nothing.
pub proof fn lemma_reset_empties_the_card(records: Records, user_id: Seq<char>, times: nat)
    ensures
        get_or_create_model(reset_model(records, user_id), user_id) == (
            reset_model(records, user_id),
            StampCardView::fresh(user_id),
        ),
        get_or_create_model(
            reset_model(stamp_times_model(records, user_id, times), user_id),
            user_id,
        ).1.stamps == 0,
        reset_model(reset_model(records, user_id), user_id) == reset_model(records, user_id),
{
    assert(reset_model(reset_model(records, user_id), user_id) =~= reset_model(records, user_id));
}

/// Carries on with `card` at hand, as [`with_card_model`] says.
fn with_card(card: BasicStampCard, stamp: bool) -> (progress: Progress)
    ensures
        progress@ == with_card_model(card@, stamp),
{
    if stamp {
        let stamped = card.with_stamp();
        let request = StoreRequest::ReplaceOne { card: stamped.clone() };
        Progress::Continue(CardOperation::AwaitingReplace { card: stamped }, request)
    } else {
        Progress::Finished(Ok(card))
    }
}

impl CardOperation {
    /// Starts looking up the card of `user_id`, to create it if there is none.
    pub fn get_or_create_card(user_id: &UserId) -> (start: (CardOperation, StoreRequest))
        ensures
            (start.0@, start.1@) == CardOperationView::get_or_create_card(user_id@),
    {
        (
            CardOperation::AwaitingLookup { user_id: user_id.clone(), stamp: false },
            StoreRequest::FindOne { user_id: user_id.clone() },
        )
    }

    /// Starts adding one stamp to the card of `user_id`.
    pub fn stamp_card(user_id: &UserId) -> (start: (CardOperation, StoreRequest))
        ensures
            (start.0@, start.1@) == CardOperationView::stamp_card(user_id@),
    {
        (
            CardOperation::AwaitingLookup { user_id: user_id.clone(), stamp: true },
            StoreRequest::FindOne { user_id: user_id.clone() },
        )
    }

    /// Starts putting a fresh card in place of the card of `user_id`.
    pub fn reset_card(user_id: &UserId) -> (start: (CardOperation, StoreRequest))
        ensures
            (start.0@, start.1@) == CardOperationView::reset_card(user_id@),
    {
        let card = BasicStampCard::new(user_id.clone());
        let request = StoreRequest::ReplaceOne { card: card.clone() };
        (CardOperation::AwaitingReplace { card }, request)
    }

    /// Takes the answer to the request last given out and says how the
    /// operation goes on. Each answer brings the operation nearer its end.
    pub fn advance(self, reply: StoreReply) -> (progress: Progress)
        ensures
            progress@ == self@.advance(reply@),
            progress matches Progress::Continue(next, _) ==> next@.round_trips_left()
                < self@.round_trips_left(),
    {
        match reply {
            StoreReply::Failed => Progress::Finished(Err(StampCardRepositoryError::MongoDbError)),
            StoreReply::Found(document) => match self {
                CardOperation::AwaitingLookup { user_id, stamp } => {
                    match BasicStampCard::from_document(document) {
                        Err(_) => Progress::Finished(
                            Err(StampCardRepositoryError::InvariantViolation),
                        ),
                        Ok(card) => {
                            if card.user_id().same_as(&user_id) {
                                with_card(card, stamp)
                            } else {
                                Progress::Finished(Err(StampCardRepositoryError::UnexpectedReply))
                            }
                        },
                    }
                },
                _ => Progress::Finished(Err(StampCardRepositoryError::UnexpectedReply)),
            },
            StoreReply::NotFound => match self {
                CardOperation::AwaitingLookup { user_id, stamp } => {
                    let card = BasicStampCard::new(user_id);
                    let request = StoreRequest::InsertOne { card: card.clone() };
                    Progress::Continue(CardOperation::AwaitingInsert { card, stamp }, request)
                },
                _ => Progress::Finished(Err(StampCardRepositoryError::UnexpectedReply)),
            },
            StoreReply::Written => match self {
                CardOperation::AwaitingInsert { card, stamp } => with_card(card, stamp),
                CardOperation::AwaitingReplace { card } => Progress::Finished(Ok(card)),
                CardOperation::AwaitingLookup { .. } => Progress::Finished(
                    Err(StampCardRepositoryError::UnexpectedReply),
                ),
            },
        }
    }
}

} // verus!
