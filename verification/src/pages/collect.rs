//! The customer's page on which a stamp is collected.

use vstd::prelude::*;
use vstd::string::StringExecFns;
use crate::customer_code::{ClaimRequest, STATUS_OK};
use crate::text::text_view;
use crate::user::{phone_number_model, PhoneNumber};

verus! {

/// What the page is opened with: the code that was scanned.
#[derive(Debug)]
pub struct CollectProps {
    pub code: String,
}

/// What reaches the page.
#[derive(Debug)]
pub enum CollectMsg {
    /// The customer pressed the button.
    Submit,
    /// The claim is on its way.
    Claiming,
    /// The server accepted the claim of this customer.
    ClaimOk(String),
    /// The server refused the claim, with this status.
    ClaimFail(u16),
}

/// What reaches the page, mathematically.
pub enum CollectMsgView {
    Submit,
    Claiming,
    ClaimOk(Seq<char>),
    ClaimFail(u16),
}

impl View for CollectMsg {
    type V = CollectMsgView;

    open spec fn view(&self) -> CollectMsgView {
        match self {
            CollectMsg::Submit => CollectMsgView::Submit,
            CollectMsg::Claiming => CollectMsgView::Claiming,
            CollectMsg::ClaimOk(id) => CollectMsgView::ClaimOk(id@),
            CollectMsg::ClaimFail(status) => CollectMsgView::ClaimFail(*status),
        }
    }
}

/// What the page asks of its surroundings after a message.
#[derive(Debug)]
pub enum CollectEffect {
    /// Nothing.
    Nothing,
    /// Mark the phone number field as invalid.
    MarkInvalid,
    /// Send this claim to the server, and tell the page that it is on its way.
    PostClaim(ClaimRequest),
    /// Go to the stamp card of this customer.
    ShowStampCard(String),
    /// Make the refusal known, with its status.
    ReportError(u16),
}

/// What the page asks of its surroundings, mathematically.
pub enum CollectEffectView {
    Nothing,
    MarkInvalid,
    PostClaim { id: Seq<char>, code: Seq<char> },
    ShowStampCard(Seq<char>),
    ReportError(u16),
}

impl View for CollectEffect {
    type V = CollectEffectView;

    open spec fn view(&self) -> CollectEffectView {
        match self {
            CollectEffect::Nothing => CollectEffectView::Nothing,
            CollectEffect::MarkInvalid => CollectEffectView::MarkInvalid,
            CollectEffect::PostClaim(claim) => CollectEffectView::PostClaim {
                id: claim.id@,
                code: claim.code@,
            },
            CollectEffect::ShowStampCard(id) => CollectEffectView::ShowStampCard(id@),
            CollectEffect::ReportError(status) => CollectEffectView::ReportError(*status),
        }
    }
}

/// State of the page: what it says of the phone number that was entered.
#[derive(Debug)]
pub struct Collect {
    validation_msg: String,
}

impl View for Collect {
    type V = Seq<char>;

    closed spec fn view(&self) -> Seq<char> {
        self.validation_msg@
    }
}

/// The page's words on the phone number after a message, whether the page
/// has to be drawn again, and what it asks for. `input` is what stands in the
/// phone number field, if the field is there.
///
/// On a submission the phone number is checked first. One that is wrong is
/// said to be so, in the words that say why, and nothing is sent. One that is
/// right is sent as the customer of a claim for the page's code.
pub open spec fn update_model(
    validation_msg: Seq<char>,
    code: Seq<char>,
    msg: CollectMsgView,
    input: Option<Seq<char>>,
) -> (Seq<char>, bool, CollectEffectView) {
    match msg {
        CollectMsgView::Submit => match input {
            None => (validation_msg, false, CollectEffectView::Nothing),
            Some(text) => match phone_number_model(text) {
                Err(message) => (message, true, CollectEffectView::MarkInvalid),
                Ok(_) => (validation_msg, false, CollectEffectView::PostClaim { id: text, code }),
            },
        },
        CollectMsgView::Claiming => (validation_msg, false, CollectEffectView::Nothing),
        CollectMsgView::ClaimOk(id) => (validation_msg, false, CollectEffectView::ShowStampCard(id)),
        CollectMsgView::ClaimFail(status) => (
            validation_msg,
            false,
            CollectEffectView::ReportError(status),
        ),
    }
}

impl Collect {
    /// The page as it opens.
    pub fn create() -> (page: Self)
        ensures
            page@ == "foo"@,
    {
        Collect { validation_msg: String::from_str("foo") }
    }

    /// What the page says of the phone number.
    pub fn validation_msg(&self) -> (message: &String)
        ensures
            message@ == self@,
    {
        &self.validation_msg
    }

    /// Takes a message in: the new state, whether the page has to be drawn
    /// again, and what is to be done next.
    pub fn update(&mut self, props: &CollectProps, msg: CollectMsg, input: Option<String>) -> (next:
        (bool, CollectEffect))
        ensures
            (final(self)@, next.0, next.1@) == update_model(
                old(self)@,
                props.code@,
                msg@,
                text_view(input),
            ),
    {
        match msg {
            CollectMsg::Submit => match input {
                None => (false, CollectEffect::Nothing),
                Some(input_value) => match PhoneNumber::try_from(input_value.as_str()) {
                    Err(message) => {
                        self.validation_msg = String::from_str(message);
                        (true, CollectEffect::MarkInvalid)
                    },
                    Ok(_) => {
                        let claim = ClaimRequest { id: input_value, code: props.code.clone() };
                        (false, CollectEffect::PostClaim(claim))
                    },
                },
            },
            CollectMsg::Claiming => (false, CollectEffect::Nothing),
            CollectMsg::ClaimOk(id) => (false, CollectEffect::ShowStampCard(id)),
            CollectMsg::ClaimFail(status) => (false, CollectEffect::ReportError(status)),
        }
    }
}

/// The message that the server's answer to the claim of customer `id` stands
/// for.
pub fn claim_answered(id: String, status: u16) -> (msg: CollectMsg)
    ensures
        msg@ == if status == STATUS_OK {
            CollectMsgView::ClaimOk(id@)
        } else {
            CollectMsgView::ClaimFail(status)
        },
{
    if status == STATUS_OK {
        CollectMsg::ClaimOk(id)
    } else {
        CollectMsg::ClaimFail(status)
    }
}

/// Where claims are sent.
pub fn claim_endpoint(api_base: &str) -> (endpoint: String)
    ensures
        endpoint@ == api_base@ + "/api/customercode/claim"@,
{
    String::from_str(api_base).concat("/api/customercode/claim")
}

} // verus!
