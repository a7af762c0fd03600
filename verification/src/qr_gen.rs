//! Claim codes: random tokens shown to customers as QR symbols.

use vstd::prelude::*;
use vstd::std_specs::convert::FromSpecImpl;
use qrcode::render::svg::Color;
use qrcode::QrCode;
use rand::distributions::Alphanumeric;
use rand::Rng;
use crate::text::text_view;

verus! {

/// Number of characters of a freshly issued claim code.
pub const CODE_LENGTH: usize = 12;

/// The most modules a QR symbol has from edge to edge, its quiet zone
/// included: 177 for the largest symbol and 4 on either side.
pub const MAX_MODULES_ACROSS: u32 = 185;

/// An ASCII letter or digit.
pub open spec fn is_alphanumeric(c: char) -> bool {
    ('0' <= c && c <= '9') || ('A' <= c && c <= 'Z') || ('a' <= c && c <= 'z')
}

/// A text of `length` ASCII letters and digits.
pub open spec fn is_token(text: Seq<char>, length: nat) -> bool {
    text.len() == length && forall|i: int| 0 <= i < text.len() ==> is_alphanumeric(#[trigger] text[i])
}

/// One draw from `rand`'s `Alphanumeric` distribution with the thread-local
/// generator (`rand::thread_rng`, `Rng::sample`). The contract claims only
/// what holds of every draw: the byte is an ASCII letter or digit. Which one
/// it is depends on chance. The generator is seeded by the operating system
/// and gives up with a panic where that source is missing.
#[verifier::external_body]
fn sample_alphanumeric() -> (byte: u8)
    ensures
        is_alphanumeric(byte as char),
{
    rand::thread_rng().sample(Alphanumeric)
}

/// A random text of `length` ASCII letters and digits.
pub fn rand_string(length: usize) -> (text: String)
    ensures
        is_token(text@, length as nat),
{
    let mut text = String::new();
    let mut drawn: usize = 0;
    while drawn < length
        invariant
            drawn <= length,
            is_token(text@, drawn as nat),
        decreases length - drawn,
    {
        let byte = sample_alphanumeric();
        text.push(byte as char);
        drawn = drawn + 1;
    }
    text
}

/// The SVG picture of the QR symbol that encodes `data`, if `data` fits into
/// a QR symbol at all. It is whatever the `qrcode` crate draws for these
/// arguments; nothing more is said of it here.
pub uninterp spec fn qr_svg_markup(
    data: Seq<char>,
    dim: u32,
    module_dim: u32,
    dark: Seq<char>,
    light: Seq<char>,
) -> Option<Seq<char>>;

/// Encodes `data` with `qrcode::QrCode::new` and draws the symbol through
/// `QrCode::render` as SVG, with the minimum picture size `dim`, the module
/// size `module_dim` and the two colours. The contract claims that the
/// outcome depends on the arguments alone, and that data which the crate
/// cannot encode gives `None`. The bounds keep the crate's 32-bit pixel
/// arithmetic from overflowing: it adds the picture size to the symbol's
/// width in modules and multiplies that width by the module size.
#[verifier::external_body]
fn draw_qr_svg(data: &str, dim: u32, module_dim: u32, dark: &str, light: &str) -> (svg: Option<
    String,
>)
    requires
        dim + MAX_MODULES_ACROSS <= u32::MAX,
        module_dim * MAX_MODULES_ACROSS <= u32::MAX,
    ensures
        text_view(svg) == qr_svg_markup(data@, dim, module_dim, dark@, light@),
{
    match QrCode::new(data.as_bytes()) {
        Ok(symbol) => Some(
            symbol.render().min_dimensions(dim, dim).module_dimensions(module_dim, module_dim)
                .dark_color(Color(dark)).light_color(Color(light)).build(),
        ),
        Err(_) => None,
    }
}

/// What a claim code is, mathematically.
pub struct ClaimCodeView {
    pub value: Seq<char>,
    pub used: bool,
}

/// A claim code: the token that a customer hands in, and whether it has been
/// used up.
#[derive(Debug)]
pub struct CustomerQrCode {
    pub code: String,
    used: bool,
}

impl View for CustomerQrCode {
    type V = ClaimCodeView;

    closed spec fn view(&self) -> ClaimCodeView {
        ClaimCodeView { value: self.code@, used: self.used }
    }
}

impl From<String> for CustomerQrCode {
    /// An unused claim code with the given token.
    fn from(value: String) -> (code: Self)
        ensures
            code@ == (ClaimCodeView { value: value@, used: false }),
    {
        CustomerQrCode { code: value, used: false }
    }
}

impl FromSpecImpl<String> for CustomerQrCode {
    open spec fn obeys_from_spec() -> bool {
        true
    }

    closed spec fn from_spec(value: String) -> Self {
        CustomerQrCode { code: value, used: false }
    }
}

impl CustomerQrCode {
    /// A fresh, unused claim code: a random token of [`CODE_LENGTH`] ASCII
    /// letters and digits.
    pub fn new() -> (code: Self)
        ensures
            !code@.used,
            is_token(code@.value, CODE_LENGTH as nat),
    {
        CustomerQrCode { code: rand_string(CODE_LENGTH), used: false }
    }

    /// Marks the code as used up. A used code is stale: it earns no stamp,
    /// and a fresh one takes its place the next time the code is shown.
    pub fn mark_used(&mut self)
        ensures
            final(self)@ == (ClaimCodeView { used: true, ..old(self)@ }),
    {
        self.used = true;
    }

    /// Whether the code has been used up.
    pub fn is_used(&self) -> (used: bool)
        ensures
            used == self@.used,
    {
        self.used
    }

    /// The token.
    pub fn value(&self) -> (value: &String)
        ensures
            value@ == self@.value,
    {
        &self.code
    }

    /// The code's QR symbol as an SVG picture at least `dim` pixels wide with
    /// modules of `module_dim` pixels, or `None` if the token is too long for
    /// a QR symbol.
    pub fn render(&self, dim: u32, module_dim: u32, dark: &str, light: &str) -> (svg: Option<
        String,
    >)
        requires
            dim + MAX_MODULES_ACROSS <= u32::MAX,
            module_dim * MAX_MODULES_ACROSS <= u32::MAX,
        ensures
            text_view(svg) == qr_svg_markup(self@.value, dim, module_dim, dark@, light@),
    {
        draw_qr_svg(self.code.as_str(), dim, module_dim, dark, light)
    }
}

} // verus!
