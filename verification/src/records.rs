//! Remaining rows of the relational store, as plain data.
//!
//! These carry no behaviour of their own: the workers read and write them
//! through the host's store access, and the rules that consume them live in
//! the modules of their workers.

use vstd::prelude::*;

verus! {

/// A verified identity: insert-only, one row per user, immutable once
/// written — an existing row blocks re-verification.
#[derive(Debug, Clone)]
pub struct VerifiedUsers {
    pub user_id: i64,
    pub user_email: String,
}

/// One numbered server rule.
#[derive(Debug, Clone)]
pub struct Rules {
    pub rule_number: i64,
    pub rule_text: String,
}

/// A user serving as a semester moderator.
#[derive(Debug, Clone, Copy, PartialEq, Eq, Structural)]
pub struct Semestermods {
    pub user_id: i64,
}

} // verus!
