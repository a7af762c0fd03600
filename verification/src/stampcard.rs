//! The stamp card: a per-customer counter capped at a fixed capacity.

use vstd::prelude::*;
use crate::db::{get_or_create_model, reset_model};
use crate::tracker::MemoryStampCardTracker;
use crate::user::UserId;

verus! {

/// Number of stamps that fills a card.
pub const CARD_CAPACITY: u32 = 10;

/// What a stamp card is, mathematically. The persisted record has the same
/// three attributes, so it shares this view.
pub struct StampCardView {
    pub user_id: Seq<char>,
    pub stamps: nat,
    pub capacity: nat,
}

impl StampCardView {
    /// The card invariant: the capacity is the fixed one and the count never
    /// exceeds it.
    pub open spec fn wf(self) -> bool {
        self.capacity == CARD_CAPACITY && self.stamps <= self.capacity
    }

    /// The card a customer starts with.
    pub open spec fn fresh(user_id: Seq<char>) -> StampCardView {
        StampCardView { user_id, stamps: 0, capacity: CARD_CAPACITY as nat }
    }

    /// The card after one more stamp: the count grows by one but never past
    /// the capacity.
    pub open spec fn stamped(self) -> StampCardView {
        StampCardView {
            stamps: if self.stamps + 1 <= self.capacity {
                self.stamps + 1
            } else {
                self.capacity
            },
            ..self
        }
    }

    /// The card after `times` stamps in a row.
    pub open spec fn stamped_times(self, times: nat) -> StampCardView
        decreases times,
    {
        if times == 0 {
            self
        } else {
            self.stamped_times((times - 1) as nat).stamped()
        }
    }
}

/// The record kept for one customer by the backing collection, as it comes
/// back from there: nothing is known of it until it has been checked.
#[derive(Debug)]
pub struct CardDocument {
    pub user_id: String,
    pub stamps: u32,
    pub capacity: u32,
}

impl View for CardDocument {
    type V = StampCardView;

    open spec fn view(&self) -> StampCardView {
        StampCardView {
            user_id: self.user_id@,
            stamps: self.stamps as nat,
            capacity: self.capacity as nat,
        }
    }
}

/// A stored record whose count lies outside the card's range.
#[derive(Debug, Clone, Copy, PartialEq, Eq, Structural)]
pub struct InvariantViolation;

/// A customer's stamp card. Every value of this type satisfies the card
/// invariant.
#[derive(Debug)]
pub struct BasicStampCard {
    user_id: UserId,
    stamps: u32,
    capacity: u32,
}

impl View for BasicStampCard {
    type V = StampCardView;

    closed spec fn view(&self) -> StampCardView {
        StampCardView {
            user_id: self.user_id@,
            stamps: self.stamps as nat,
            capacity: self.capacity as nat,
        }
    }
}

impl Clone for BasicStampCard {
    fn clone(&self) -> (copy: Self)
        ensures
            copy@ == self@,
    {
        proof {
            use_type_invariant(self);
        }
        BasicStampCard {
            user_id: self.user_id.clone(),
            stamps: self.stamps,
            capacity: self.capacity,
        }
    }
}

impl BasicStampCard {
    /// Holds of every card that executable code can hold.
    #[verifier::type_invariant]
    pub open spec fn inv(self) -> bool {
        self@.wf()
    }

    /// A fresh card for `user_id`: no stamps, the fixed capacity.
    pub fn new(user_id: UserId) -> (card: Self)
        ensures
            card@ == StampCardView::fresh(user_id@),
    {
        BasicStampCard { user_id, stamps: 0, capacity: CARD_CAPACITY }
    }

    /// This card with one more stamp, clamped at the capacity.
    pub fn with_stamp(&self) -> (card: Self)
        ensures
            card@ == self@.stamped(),
    {
        proof {
            use_type_invariant(self);
        }
        let stamps: u32 = if self.stamps < self.capacity {
            self.stamps + 1
        } else {
            self.capacity
        };
        BasicStampCard { user_id: self.user_id.clone(), stamps, capacity: self.capacity }
    }

    /// Adds one stamp to this card, clamped at the capacity.
    pub fn stamp(&mut self)
        ensures
            final(self)@ == old(self)@.stamped(),
    {
        proof {
            use_type_invariant(&*self);
        }
        if self.stamps < self.capacity {
            self.stamps = self.stamps + 1;
        }
    }

    /// The customer the card belongs to.
    pub fn user_id(&self) -> (user_id: &UserId)
        ensures
            user_id@ == self@.user_id,
    {
        &self.user_id
    }

    /// Stamps collected so far.
    pub fn stamps(&self) -> (stamps: u32)
        ensures
            stamps == self@.stamps,
            stamps <= CARD_CAPACITY,
    {
        proof {
            use_type_invariant(self);
        }
        self.stamps
    }

    /// Stamps that fill the card.
    pub fn capacity(&self) -> (capacity: u32)
        ensures
            capacity == self@.capacity,
            capacity == CARD_CAPACITY,
    {
        proof {
            use_type_invariant(self);
        }
        self.capacity
    }

    /// The record to persist for this card.
    pub fn to_document(&self) -> (document: CardDocument)
        ensures
            document@ == self@,
    {
        CardDocument {
            user_id: self.user_id.0.clone(),
            stamps: self.stamps,
            capacity: self.capacity,
        }
    }

    /// The card that a stored record stands for. A record that breaks the
    /// card invariant is refused, never corrected.
    pub fn from_document(document: CardDocument) -> (card: Result<Self, InvariantViolation>)
        ensures
            document@.wf() ==> card is Ok && card->Ok_0@ == document@,
            !document@.wf() ==> card is Err,
    {
        if document.capacity == CARD_CAPACITY && document.stamps <= document.capacity {
            Ok(
                BasicStampCard {
                    user_id: UserId(document.user_id),
                    stamps: document.stamps,
                    capacity: document.capacity,
                },
            )
        } else {
            Err(InvariantViolation)
        }
    }
}

/// Stamping `times` times adds `times` to the count, stopping at the capacity.
pub proof fn lemma_stamped_times(card: StampCardView, times: nat)
    requires
        card.wf(),
    ensures
        card.stamped_times(times).wf(),
        card.stamped_times(times).user_id == card.user_id,
        card.stamped_times(times).stamps == if card.stamps + times <= CARD_CAPACITY {
            card.stamps + times
        } else {
            CARD_CAPACITY as nat
        },
    decreases times,
{
    if times > 0 {
        lemma_stamped_times(card, (times - 1) as nat);
    }
}

/// The answer to a request for a customer's card.
#[derive(Debug)]
pub struct CardResponse {
    pub stamps: u32,
}

/// The customer that a request path names.
pub fn get_user_id(path: String) -> (user_id: UserId)
    ensures
        user_id@ == path@,
{
    UserId(path)
}

/// What is shown of a card: its count.
pub fn card_response(card: &BasicStampCard) -> (response: CardResponse)
    ensures
        response.stamps == card@.stamps,
        response.stamps <= CARD_CAPACITY,
{
    CardResponse { stamps: card.stamps() }
}

/// The card of the customer that `path` names, from cards kept in memory. A
/// customer without a card gets one by asking.
pub fn get_card(path: String, cards: &mut MemoryStampCardTracker) -> (response: CardResponse)
    ensures
        final(cards)@ == get_or_create_model(old(cards)@, path@).0,
        response.stamps == get_or_create_model(old(cards)@, path@).1.stamps,
        response.stamps <= CARD_CAPACITY,
{
    let user_id = get_user_id(path);
    let card = cards.get_or_create_card(&user_id);
    card_response(&card)
}

/// Resets the card of the customer that `path` names, in cards kept in
/// memory.
pub fn reset_card(path: String, cards: &mut MemoryStampCardTracker)
    ensures
        final(cards)@ == reset_model(old(cards)@, path@),
{
    let user_id = get_user_id(path);
    cards.reset_card(&user_id);
}

} // verus!
