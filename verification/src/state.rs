//! Records that the escrow program keeps on the ledger.

pub mod offer;
