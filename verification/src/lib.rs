//! Loyalty stamp cards gated by a rotating single-use claim code.
//!
//! The crate holds the rules of the scheme: what a stamp card is, how the one
//! active claim code is issued and retired, and how a claim turns a code into
//! exactly one stamp. Everything is stated over mathematical views and proved.

pub mod text;
pub mod user;
pub mod stampcard;
pub mod db;
pub mod tracker;
pub mod qr_gen;
pub mod customer_code;
pub mod components;
pub mod pages;
