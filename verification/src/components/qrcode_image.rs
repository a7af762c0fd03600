//! A link drawn as a QR symbol.

use vstd::prelude::*;
use crate::qr_gen::{qr_svg_markup, CustomerQrCode, MAX_MODULES_ACROSS};
use crate::text::text_view;

verus! {

/// Colour of the symbol's dark modules.
pub const DARK_COLOR: &'static str = "#ffffff";

/// Colour of the symbol's light modules and of its border.
pub const LIGHT_COLOR: &'static str = "#778899";

/// What a QR picture is drawn from: the link it encodes, the least width of
/// the picture and the width of one module, both in pixels.
#[derive(Debug)]
pub struct QrCodeImageProps {
    pub link: String,
    pub dim: u32,
    pub module_dim: u32,
}

/// The picture for `props`: the QR symbol of the link as SVG, in the
/// component's two colours, or `None` if the link is too long for a symbol.
pub fn qr_code_image_svg(props: &QrCodeImageProps) -> (svg: Option<String>)
    requires
        props.dim + MAX_MODULES_ACROSS <= u32::MAX,
        props.module_dim * MAX_MODULES_ACROSS <= u32::MAX,
    ensures
        text_view(svg) == qr_svg_markup(
            props.link@,
            props.dim,
            props.module_dim,
            DARK_COLOR@,
            LIGHT_COLOR@,
        ),
{
    let symbol = CustomerQrCode::from(props.link.clone());
    symbol.render(props.dim, props.module_dim, DARK_COLOR, LIGHT_COLOR)
}

} // verus!
