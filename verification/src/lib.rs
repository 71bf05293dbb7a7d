//! A light client verification engine: a compact, header-updated view of a
//! counterparty chain's consensus, together with membership and
//! non-membership proof checks against its recorded commitment roots.

pub mod bytes;
pub mod client;
pub mod commitment;
pub mod context;
pub mod domain;
pub mod engine;
pub mod errors;
pub mod height;
pub mod identifier;
pub mod path;
pub mod record;
