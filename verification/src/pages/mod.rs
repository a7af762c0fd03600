//! The pages of the customer-facing client as state machines: each takes a
//! message, changes its state and says what is to be done next. Drawing the
//! page and talking to the server are left to the surroundings.

pub mod collect;
pub mod display;
pub mod stamp_card;
