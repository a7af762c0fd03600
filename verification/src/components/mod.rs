//! What the client's building blocks are given to draw.

pub mod qrcode_image;
pub mod stamp_area;
