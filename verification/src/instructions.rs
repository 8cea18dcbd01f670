//! The two operations of the escrow: making an offer and taking one.

pub mod make_offer;
pub mod take_offer;
