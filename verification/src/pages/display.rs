//! The staff-facing page that shows the code to scan.

use vstd::prelude::*;
use vstd::string::StringExecFns;
use crate::text::text_view;

verus! {

/// What reaches the page.
#[derive(Debug)]
pub enum DisplayMsg {
    /// The server was asked for the code on display and answered with this.
    CodeReceived(String),
}

/// State of the page: where it is served from, and the code it shows.
#[derive(Debug)]
pub struct Display {
    location: String,
    code: Option<String>,
}

/// What the page is, mathematically.
pub struct DisplayView {
    pub location: Seq<char>,
    pub code: Option<Seq<char>>,
}

impl View for Display {
    type V = DisplayView;

    closed spec fn view(&self) -> DisplayView {
        DisplayView {
            location: self.location@,
            code: match self.code {
                Some(code) => Some(code@),
                None => None,
            },
        }
    }
}

impl DisplayView {
    /// The code that the page compares a new one with: the one shown, or the
    /// empty text while none is shown.
    pub open spec fn shown(self) -> Seq<char> {
        match self.code {
            Some(code) => code,
            None => Seq::empty(),
        }
    }

    /// The page after `code` has come in: it shows `code`, unless `code` is
    /// what it compares equal to already.
    pub open spec fn received(self, code: Seq<char>) -> DisplayView {
        if self.shown() == code {
            self
        } else {
            DisplayView { code: Some(code), ..self }
        }
    }

    /// The link that the shown code is drawn as.
    pub open spec fn collect_link(self) -> Option<Seq<char>> {
        match self.code {
            Some(code) => Some(self.location + "/collect/"@ + code),
            None => None,
        }
    }
}

impl Display {
    /// The page as it opens at `location`: no code to show yet.
    pub fn create(location: String) -> (page: Self)
        ensures
            page@ == (DisplayView { location: location@, code: None }),
    {
        Display { location, code: None }
    }

    /// Takes a message in. The result says whether the page has to be drawn
    /// again, which is so exactly when the code it shows has changed.
    pub fn update(&mut self, msg: DisplayMsg) -> (redraw: bool)
        ensures
            match msg {
                DisplayMsg::CodeReceived(code) => {
                    &&& final(self)@ == old(self)@.received(code@)
                    &&& redraw == (old(self)@.shown() != code@)
                },
            },
    {
        match msg {
            DisplayMsg::CodeReceived(new_code) => {
                let same = match &self.code {
                    Some(code) => *code == new_code,
                    None => new_code.as_str().is_empty(),
                };
                if same {
                    assert(old(self)@.shown() =~= new_code@);
                    return false;
                }
                self.code = Some(new_code);
                true
            },
        }
    }

    /// The link to draw as a QR symbol: where a customer collects a stamp
    /// with the code shown. `None` while there is no code.
    pub fn collect_link(&self) -> (link: Option<String>)
        ensures
            text_view(link) == self@.collect_link(),
    {
        match &self.code {
            Some(code) => Some(
                self.location.clone().concat("/collect/").concat(code.as_str()),
            ),
            None => None,
        }
    }
}

/// Where the code on display is asked for.
pub fn code_endpoint(api_base: &str) -> (endpoint: String)
    ensures
        endpoint@ == api_base@ + "/api/customercode"@,
{
    String::from_str(api_base).concat("/api/customercode")
}

} // verus!
