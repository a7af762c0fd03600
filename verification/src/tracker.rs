//! A stamp card store kept in memory.
//!
//! It plays the backing collection and the store at once: it answers the
//! requests of an operation from its own records and carries the operation
//! through to its end.

use vstd::prelude::*;
use vstd::pervasive::unreached;
use crate::db::{
    answer_model, get_or_create_model, lemma_operations_meet_models, outcome_view, records_wf,
    reset_model, run_model, stamp_model, CardOperation, Progress, Records,
    StampCardRepositoryError, StoreReply, StoreRequest,
};
use crate::stampcard::{BasicStampCard, StampCardView};
use crate::user::UserId;

verus! {

/// The views of the cards held, in the order they are held.
spec fn views(store: Seq<BasicStampCard>) -> Seq<StampCardView> {
    store.map_values(|card: BasicStampCard| card@)
}

/// `cards[i]` is the card of `user_id`.
spec fn filed_at(cards: Seq<StampCardView>, user_id: Seq<char>, i: int) -> bool {
    0 <= i < cards.len() && cards[i].user_id == user_id
}

/// No customer has two cards, and every card satisfies the card invariant.
spec fn orderly(cards: Seq<StampCardView>) -> bool {
    &&& forall|i: int, j: int|
        0 <= i < j < cards.len() ==> (#[trigger] cards[i]).user_id != (#[trigger] cards[j]).user_id
    &&& forall|i: int| 0 <= i < cards.len() ==> (#[trigger] cards[i]).wf()
}

/// The cards as records filed by customer.
spec fn as_records(cards: Seq<StampCardView>) -> Records {
    Map::new(
        |user_id: Seq<char>| exists|i: int| filed_at(cards, user_id, i),
        |user_id: Seq<char>| cards[choose|i: int| filed_at(cards, user_id, i)],
    )
}

/// An orderly sequence files each of its cards under the card's customer.
proof fn lemma_filed(cards: Seq<StampCardView>, i: int)
    requires
        orderly(cards),
        0 <= i < cards.len(),
    ensures
        as_records(cards).dom().contains(cards[i].user_id),
        as_records(cards)[cards[i].user_id] == cards[i],
{
    let user_id = cards[i].user_id;
    assert(filed_at(cards, user_id, i));
    let chosen = choose|k: int| filed_at(cards, user_id, k);
    assert(filed_at(cards, user_id, chosen));
    if chosen < i {
        assert(cards[chosen].user_id != cards[i].user_id);
    } else if i < chosen {
        assert(cards[i].user_id != cards[chosen].user_id);
    }
}

/// The records of an orderly sequence are well formed.
proof fn lemma_records_wf(cards: Seq<StampCardView>)
    requires
        orderly(cards),
    ensures
        records_wf(as_records(cards)),
{
    assert forall|user_id: Seq<char>| #[trigger]
        as_records(cards).dom().contains(user_id) implies as_records(cards)[user_id].user_id
        == user_id && as_records(cards)[user_id].wf() by {
        let i = choose|i: int| filed_at(cards, user_id, i);
        assert(filed_at(cards, user_id, i));
        lemma_filed(cards, i);
    }
}

/// Adding the card of a customer who had none files it, and nothing else
/// changes.
proof fn lemma_push(cards: Seq<StampCardView>, card: StampCardView)
    requires
        orderly(cards),
        card.wf(),
        !as_records(cards).dom().contains(card.user_id),
    ensures
        orderly(cards.push(card)),
        as_records(cards.push(card)) == as_records(cards).insert(card.user_id, card),
{
    let longer = cards.push(card);
    assert forall|i: int| 0 <= i < cards.len() implies (#[trigger] cards[i]).user_id
        != card.user_id by {
        assert(filed_at(cards, cards[i].user_id, i));
    }
    assert(orderly(longer));
    assert forall|user_id: Seq<char>|
        as_records(longer).dom().contains(user_id) == as_records(cards).insert(
            card.user_id,
            card,
        ).dom().contains(user_id) by {
        if as_records(longer).dom().contains(user_id) {
            let i = choose|i: int| filed_at(longer, user_id, i);
            assert(filed_at(longer, user_id, i));
            if i < cards.len() {
                assert(filed_at(cards, user_id, i));
            }
        }
        if as_records(cards).dom().contains(user_id) {
            let i = choose|i: int| filed_at(cards, user_id, i);
            assert(filed_at(cards, user_id, i));
            assert(filed_at(longer, user_id, i));
        }
        if user_id == card.user_id {
            assert(filed_at(longer, user_id, cards.len() as int));
        }
    }
    assert forall|user_id: Seq<char>| #[trigger]
        as_records(longer).dom().contains(user_id) implies as_records(longer)[user_id]
        == as_records(cards).insert(card.user_id, card)[user_id] by {
        let i = choose|i: int| filed_at(longer, user_id, i);
        assert(filed_at(longer, user_id, i));
        lemma_filed(longer, i);
        if i < cards.len() {
            assert(filed_at(cards, user_id, i));
            lemma_filed(cards, i);
        }
    }
    assert(as_records(longer) =~= as_records(cards).insert(card.user_id, card));
}

/// Putting a card in the place of the same customer's card files it anew,
/// and nothing else changes.
proof fn lemma_update(cards: Seq<StampCardView>, at: int, card: StampCardView)
    requires
        orderly(cards),
        card.wf(),
        0 <= at < cards.len(),
        cards[at].user_id == card.user_id,
    ensures
        orderly(cards.update(at, card)),
        as_records(cards.update(at, card)) == as_records(cards).insert(card.user_id, card),
{
    let changed = cards.update(at, card);
    assert forall|i: int, j: int| 0 <= i < j < changed.len() implies (#[trigger] changed[i]).user_id
        != (#[trigger] changed[j]).user_id by {
        assert(cards[i].user_id != cards[j].user_id);
    }
    assert forall|i: int| 0 <= i < changed.len() implies (#[trigger] changed[i]).wf() by {
        if i != at {
            assert(cards[i].wf());
        }
    }
    assert forall|user_id: Seq<char>|
        as_records(changed).dom().contains(user_id) == as_records(cards).insert(
            card.user_id,
            card,
        ).dom().contains(user_id) by {
        if as_records(changed).dom().contains(user_id) {
            let i = choose|i: int| filed_at(changed, user_id, i);
            assert(filed_at(changed, user_id, i));
            assert(filed_at(cards, user_id, i));
        }
        if as_records(cards).dom().contains(user_id) {
            let i = choose|i: int| filed_at(cards, user_id, i);
            assert(filed_at(cards, user_id, i));
            assert(filed_at(changed, user_id, i));
        }
        if user_id == card.user_id {
            assert(filed_at(changed, user_id, at));
        }
    }
    assert forall|user_id: Seq<char>| #[trigger]
        as_records(changed).dom().contains(user_id) implies as_records(changed)[user_id]
        == as_records(cards).insert(card.user_id, card)[user_id] by {
        let i = choose|i: int| filed_at(changed, user_id, i);
        assert(filed_at(changed, user_id, i));
        lemma_filed(changed, i);
        assert(filed_at(cards, user_id, i));
        lemma_filed(cards, i);
    }
    assert(as_records(changed) =~= as_records(cards).insert(card.user_id, card));
}

/// Stamp cards held in memory, at most one for each customer.
///
/// The records of a tracker are well formed at all times. Its operations say
/// so of the tracker as they find it and as they leave it, since that is what
/// the laws of the store ask of the records they speak of.
#[derive(Debug)]
pub struct MemoryStampCardTracker {
    store: Vec<BasicStampCard>,
}

impl View for MemoryStampCardTracker {
    type V = Records;

    closed spec fn view(&self) -> Records {
        as_records(views(self.store@))
    }
}

impl MemoryStampCardTracker {
    #[verifier::type_invariant]
    closed spec fn inv(self) -> bool {
        orderly(views(self.store@))
    }

    /// A tracker that holds no card yet.
    pub fn new() -> (tracker: Self)
        ensures
            tracker@ == Records::empty(),
    {
        let tracker = MemoryStampCardTracker { store: Vec::new() };
        assert(tracker@ =~= Records::empty()) by {
            assert forall|user_id: Seq<char>| !tracker@.dom().contains(user_id) by {
                if tracker@.dom().contains(user_id) {
                    let i = choose|i: int| filed_at(views(tracker.store@), user_id, i);
                    assert(filed_at(views(tracker.store@), user_id, i));
                }
            }
        }
        tracker
    }

    /// Where the card of `user_id` is held, if it is.
    fn position(&self, user_id: &UserId) -> (found: Option<usize>)
        ensures
            match found {
                Some(at) => filed_at(views(self.store@), user_id@, at as int),
                None => !self@.dom().contains(user_id@),
            },
    {
        let mut at: usize = 0;
        while at < self.store.len()
            invariant
                at <= self.store.len(),
                forall|i: int| 0 <= i < at ==> !filed_at(views(self.store@), user_id@, i),
            decreases self.store.len() - at,
        {
            if self.store[at].user_id().same_as(user_id) {
                return Some(at);
            }
            at = at + 1;
        }
        proof {
            if self@.dom().contains(user_id@) {
                let i = choose|i: int| filed_at(views(self.store@), user_id@, i);
                assert(filed_at(views(self.store@), user_id@, i));
            }
        }
        None
    }

    /// Files `card` under its customer, in place of a card held for the same
    /// customer if there is one.
    fn file(&mut self, card: BasicStampCard)
        ensures
            final(self)@ == old(self)@.insert(card@.user_id, card@),
    {
        proof {
            use_type_invariant(&*self);
            use_type_invariant(&card);
        }
        let ghost before = views(self.store@);
        let found = self.position(card.user_id());
        let mut held: Vec<BasicStampCard> = Vec::new();
        core::mem::swap(&mut self.store, &mut held);
        match found {
            Some(at) => {
                proof {
                    lemma_update(before, at as int, card@);
                    assert(views(held@.update(at as int, card)) =~= before.update(at as int, card@));
                }
                held[at] = card;
            },
            None => {
                proof {
                    lemma_push(before, card@);
                    assert(views(held@.push(card)) =~= before.push(card@));
                }
                held.push(card);
            },
        }
        core::mem::swap(&mut self.store, &mut held);
    }

    /// Answers one request from the records held.
    pub fn answer(&mut self, request: StoreRequest) -> (reply: StoreReply)
        ensures
            (final(self)@, reply@) == answer_model(old(self)@, request@),
            records_wf(old(self)@),
            records_wf(final(self)@),
    {
        proof {
            use_type_invariant(&*self);
            lemma_records_wf(views(self.store@));
        }
        let reply = match request {
            StoreRequest::FindOne { user_id } => match self.position(&user_id) {
                Some(at) => {
                    proof {
                        lemma_filed(views(self.store@), at as int);
                    }
                    StoreReply::Found(self.store[at].to_document())
                },
                None => StoreReply::NotFound,
            },
            StoreRequest::InsertOne { card } => {
                self.file(card);
                StoreReply::Written
            },
            StoreRequest::ReplaceOne { card } => {
                self.file(card);
                StoreReply::Written
            },
        };
        proof {
            use_type_invariant(&*self);
            lemma_records_wf(views(self.store@));
        }
        reply
    }

    /// Carries an operation through: answers its requests one after the other
    /// until it has finished.
    pub fn run(&mut self, operation: CardOperation, request: StoreRequest) -> (outcome: Result<
        BasicStampCard,
        StampCardRepositoryError,
    >)
        ensures
            (final(self)@, outcome_view(outcome)) == run_model(old(self)@, operation@, request@),
            records_wf(old(self)@),
            records_wf(final(self)@),
    {
        proof {
            use_type_invariant(&*self);
            lemma_records_wf(views(self.store@));
        }
        let ghost whole = run_model(self@, operation@, request@);
        let mut pending = operation;
        let mut asked = request;
        loop
            invariant
                run_model(self@, pending@, asked@) == whole,
                whole == run_model(old(self)@, operation@, request@),
                records_wf(old(self)@),
            decreases pending@.round_trips_left(),
        {
            let reply = self.answer(asked);
            match pending.advance(reply) {
                Progress::Finished(outcome) => {
                    return outcome;
                },
                Progress::Continue(next, next_request) => {
                    pending = next;
                    asked = next_request;
                },
            }
        }
    }

    /// The card of `user_id`, created with no stamps if the customer had none.
    pub fn get_or_create_card(&mut self, user_id: &UserId) -> (card: BasicStampCard)
        ensures
            (final(self)@, card@) == get_or_create_model(old(self)@, user_id@),
            records_wf(old(self)@),
            records_wf(final(self)@),
    {
        let (operation, request) = CardOperation::get_or_create_card(user_id);
        let outcome = self.run(operation, request);
        proof {
            lemma_operations_meet_models(old(self)@, user_id@);
        }
        match outcome {
            Ok(card) => card,
            Err(_) => unreached(),
        }
    }

    /// Adds one stamp to the card of `user_id`, clamped at the capacity, and
    /// gives the card as it is afterwards.
    pub fn stamp_card(&mut self, user_id: &UserId) -> (card: BasicStampCard)
        ensures
            (final(self)@, card@) == stamp_model(old(self)@, user_id@),
            records_wf(old(self)@),
            records_wf(final(self)@),
    {
        let (operation, request) = CardOperation::stamp_card(user_id);
        let outcome = self.run(operation, request);
        proof {
            lemma_operations_meet_models(old(self)@, user_id@);
        }
        match outcome {
            Ok(card) => card,
            Err(_) => unreached(),
        }
    }

    /// Puts a card with no stamps in place of the card of `user_id`.
    pub fn reset_card(&mut self, user_id: &UserId)
        ensures
            final(self)@ == reset_model(old(self)@, user_id@),
            records_wf(old(self)@),
            records_wf(final(self)@),
    {
        let (operation, request) = CardOperation::reset_card(user_id);
        let _ = self.run(operation, request);
        proof {
            lemma_operations_meet_models(old(self)@, user_id@);
        }
    }
}

} // verus!
