//! Rows exchanged with the address-book collaborator.
//!
//! The engine reads identities and whitelist entries from the address
//! book and writes one `FileReceiveRecord` per completed inbound
//! transfer; the store itself (its database and queries) is not part of
//! the engine.

use vstd::prelude::*;

verus! {

/// A whitelisted identity held by the address book.
#[derive(Debug, Clone, PartialEq)]
pub struct IdentityEntry {
    /// Primary key in the store.
    pub id: i64,
    /// The 64-character identity token.
    pub identity: String,
    /// A free-form note naming the peer.
    pub alias: String,
}

/// A known peer address held by the address book.
#[derive(Debug, Clone, PartialEq)]
pub struct FriendEntry {
    /// Primary key in the store.
    pub id: i64,
    /// The peer's IPv6 address, as text.
    pub address: String,
    /// A free-form note naming the peer.
    pub alias: String,
}

/// The metadata of one completed inbound transfer.
#[derive(Debug, Clone, PartialEq)]
pub struct FileReceiveRecord {
    /// Primary key in the store; zero until the store assigns one.
    pub id: i64,
    /// The file name the sender declared.
    pub filename: String,
    /// The file size in bytes, as declared and received.
    pub file_size: u64,
    /// The sender's IPv6 address.
    pub sender_ipv6: String,
    /// The identity token the sender presented.
    pub sender_identity: String,
    /// When the transfer completed; the store fills it in.
    pub received_at: String,
    /// Where the file was saved.
    pub save_path: String,
}

} // verus!
