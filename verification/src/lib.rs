pub mod identity;
pub mod laws;
pub mod ledger;
pub mod registry;
