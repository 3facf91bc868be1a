// A reputation-weighted voting ledger: an admin-managed voter registry, signed
// scores fed by votes, and a power tier derived from each voter's standing.
use vstd::prelude::*;

pub mod account;
pub mod ledger;
pub mod mapper;
pub mod registry;
pub mod voting;
