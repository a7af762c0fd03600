//! The customer's page that shows the stamp card.

use vstd::prelude::*;
use vstd::string::StringExecFns;
use crate::components::stamp_area::StampAreaProps;
use crate::customer_code::STATUS_OK;

verus! {

/// The query that turns the page into the one on which a full card is
/// redeemed.
pub const REDEEM_PARAM: &'static str = "?redeem=1";

/// Number of stamp areas on the page.
pub const STAMP_AREAS: u32 = 10;

/// What the page is opened with: the customer whose card it shows.
#[derive(Debug)]
pub struct StampCardProps {
    pub id: String,
}

/// What reaches the page.
#[derive(Debug, Clone, Copy, PartialEq, Eq, Structural)]
pub enum StampCardMsg {
    /// The server gave the number of stamps on the card.
    StampsReceived(u32),
    /// The customer asked to redeem the card.
    StampsResetRequested,
    /// The server has reset the card.
    StampsResetOk,
    /// The server refused to reset the card, with this status.
    StampsResetErr(u16),
}

/// What the page asks of its surroundings after a message.
#[derive(Debug)]
pub enum StampCardEffect {
    /// Nothing.
    Nothing,
    /// Ask the server to reset the card of this customer.
    RequestReset(String),
    /// Load the page anew from this path.
    Reload(String),
    /// Make the refusal known, with its status.
    ReportError(u16),
}

/// What the page asks of its surroundings, mathematically.
pub enum StampCardEffectView {
    Nothing,
    RequestReset(Seq<char>),
    Reload(Seq<char>),
    ReportError(u16),
}

impl View for StampCardEffect {
    type V = StampCardEffectView;

    open spec fn view(&self) -> StampCardEffectView {
        match self {
            StampCardEffect::Nothing => StampCardEffectView::Nothing,
            StampCardEffect::RequestReset(id) => StampCardEffectView::RequestReset(id@),
            StampCardEffect::Reload(path) => StampCardEffectView::Reload(path@),
            StampCardEffect::ReportError(status) => StampCardEffectView::ReportError(*status),
        }
    }
}

/// State of the page: the stamps to show, and the path and query it was
/// opened with.
#[derive(Debug)]
pub struct StampCard {
    stamp_count: u32,
    query: String,
    location: String,
}

/// What the page is, mathematically.
pub struct StampCardPageView {
    pub stamp_count: u32,
    pub query: Seq<char>,
    pub location: Seq<char>,
}

impl View for StampCard {
    type V = StampCardPageView;

    closed spec fn view(&self) -> StampCardPageView {
        StampCardPageView {
            stamp_count: self.stamp_count,
            query: self.query@,
            location: self.location@,
        }
    }
}

impl StampCardPageView {
    /// The page after a message, whether it has to be drawn again, and what
    /// it asks for. Only a count that came in changes the page.
    pub open spec fn update(self, id: Seq<char>, msg: StampCardMsg) -> (
        StampCardPageView,
        bool,
        StampCardEffectView,
    ) {
        match msg {
            StampCardMsg::StampsReceived(count) => (
                StampCardPageView { stamp_count: count, ..self },
                true,
                StampCardEffectView::Nothing,
            ),
            StampCardMsg::StampsResetRequested => (
                self,
                false,
                StampCardEffectView::RequestReset(id),
            ),
            StampCardMsg::StampsResetOk => (self, false, StampCardEffectView::Reload(self.location)),
            StampCardMsg::StampsResetErr(status) => (
                self,
                false,
                StampCardEffectView::ReportError(status),
            ),
        }
    }
}

impl StampCard {
    /// The page as it opens at `location` with `query`: no stamps are shown
    /// until the server has given the count.
    pub fn create(location: String, query: String) -> (page: Self)
        ensures
            page@ == (StampCardPageView { stamp_count: 0, query: query@, location: location@ }),
    {
        StampCard { stamp_count: 0, query, location }
    }

    /// Takes a message in: the new state, whether the page has to be drawn
    /// again, and what is to be done next.
    pub fn update(&mut self, props: &StampCardProps, msg: StampCardMsg) -> (next: (
        bool,
        StampCardEffect,
    ))
        ensures
            (final(self)@, next.0, next.1@) == old(self)@.update(props.id@, msg),
    {
        match msg {
            StampCardMsg::StampsReceived(count) => {
                self.stamp_count = count;
                (true, StampCardEffect::Nothing)
            },
            StampCardMsg::StampsResetRequested => (
                false,
                StampCardEffect::RequestReset(props.id.clone()),
            ),
            StampCardMsg::StampsResetOk => (false, StampCardEffect::Reload(self.location.clone())),
            StampCardMsg::StampsResetErr(status) => (false, StampCardEffect::ReportError(status)),
        }
    }

    /// The stamps shown.
    pub fn stamp_count(&self) -> (count: u32)
        ensures
            count == self@.stamp_count,
    {
        self.stamp_count
    }

    /// What the stamp area in place `slot` is drawn from, the places being
    /// numbered from 1: it is stamped when the card has that many stamps.
    pub fn stamp_area(&self, slot: u32) -> (area: StampAreaProps)
        ensures
            area.is_stamped == (self@.stamp_count >= slot),
    {
        StampAreaProps { is_stamped: self.stamp_count >= slot }
    }

    /// Whether the page offers to redeem the card, which it does when opened
    /// with [`REDEEM_PARAM`].
    pub fn redeem_mode(&self) -> (redeem: bool)
        ensures
            redeem == (self@.query == REDEEM_PARAM@),
    {
        self.query == String::from_str(REDEEM_PARAM)
    }

    /// The link that opens this page for redeeming, which the page shows as a
    /// QR symbol otherwise.
    pub fn redeem_link(&self) -> (link: String)
        ensures
            link@ == self@.location + REDEEM_PARAM@,
    {
        self.location.clone().concat(REDEEM_PARAM)
    }
}

/// The message that the server's answer to a reset stands for.
pub fn reset_answered(status: u16) -> (msg: StampCardMsg)
    ensures
        msg == if status == STATUS_OK {
            StampCardMsg::StampsResetOk
        } else {
            StampCardMsg::StampsResetErr(status)
        },
{
    if status == STATUS_OK {
        StampCardMsg::StampsResetOk
    } else {
        StampCardMsg::StampsResetErr(status)
    }
}

/// Where the card of customer `id` is asked for.
pub fn card_endpoint(api_base: &str, id: &str) -> (endpoint: String)
    ensures
        endpoint@ == api_base@ + "/api/stampcard/"@ + id@,
{
    String::from_str(api_base).concat("/api/stampcard/").concat(id)
}

/// Where the card of customer `id` is reset.
pub fn reset_endpoint(api_base: &str, id: &str) -> (endpoint: String)
    ensures
        endpoint@ == api_base@ + "/api/stampcard/"@ + id@ + "/reset"@,
{
    String::from_str(api_base).concat("/api/stampcard/").concat(id).concat("/reset")
}

} // verus!
