//! The receive policy and its admission decision.
//!
//! The receiver runs in one of three modes.  `Closed` admits nothing
//! and keeps the listener down; `Open` admits every connection;
//! `Collect` admits a connection only when the presented identity
//! matches a whitelist entry held by the address book.

use vstd::prelude::*;
use crate::records::IdentityEntry;

verus! {

/// The process-wide receive mode.
#[derive(Debug, Clone, Copy, PartialEq, Eq, Structural)]
pub enum ReceiveStatus {
    /// No connection is admitted and no listener runs.
    Closed,
    /// Every connection is admitted, whatever identity it presents.
    Open,
    /// A connection is admitted only when its identity is whitelisted.
    Collect,
}

/// The admission rule: whether a connection that presented an identity
/// is allowed to deliver a file, given the mode and whether the
/// whitelist matched that identity.
pub open spec fn spec_admits(mode: ReceiveStatus, whitelisted: bool) -> bool {
    match mode {
        ReceiveStatus::Closed => false,
        ReceiveStatus::Open => true,
        ReceiveStatus::Collect => whitelisted,
    }
}

/// Decide admission for a presented identity.
pub fn admits(mode: &ReceiveStatus, whitelisted: bool) -> (r: bool)
    ensures
        r == spec_admits(*mode, whitelisted),
{
    match mode {
        ReceiveStatus::Closed => false,
        ReceiveStatus::Open => true,
        ReceiveStatus::Collect => whitelisted,
    }
}

/// Interpret the address book's whitelist lookup: the identity counts
/// as whitelisted exactly when the lookup succeeded and returned at
/// least one entry.
pub fn whitelist_match(lookup: &Option<Vec<IdentityEntry>>) -> (r: bool)
    ensures
        r <==> (lookup is Some && lookup->0@.len() > 0),
{
    match lookup {
        Some(entries) => entries.len() > 0,
        None => false,
    }
}

/// In mode `Closed` no identity whatsoever is admitted.
pub proof fn lemma_closed_admits_nothing()
    ensures
        forall|whitelisted: bool| !spec_admits(ReceiveStatus::Closed, whitelisted),
{
}

/// In mode `Open` every identity is admitted, whitelisted or not.
pub proof fn lemma_open_admits_all()
    ensures
        forall|whitelisted: bool| spec_admits(ReceiveStatus::Open, whitelisted),
{
}

} // verus!
