//! Discovery of a gateway's WAN address and its reconciliation with a DNS record.

pub mod decision;
pub mod discovery;
pub mod dns;
pub mod failure;
pub mod pass;
pub mod text;
pub mod walk;
