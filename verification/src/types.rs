//! Plain data carried between the engine and caller-side stores.

use vstd::prelude::*;

verus! {

/// Result of one folder synchronization, as a caller-side store consumes it.
#[derive(Debug, Clone, PartialEq, Eq)]
pub struct FolderSyncResult {
    /// The synchronized folders.
    pub folders: Vec<FolderInfo>,
    /// The token for the next incremental sync.
    pub sync_state: String,
}

/// One synchronized folder, in store form.
#[derive(Debug, Clone, PartialEq, Eq)]
pub struct FolderInfo {
    /// The folder's id.
    pub id: String,
    /// The parent folder's id, when known.
    pub parent_id: Option<String>,
    /// The display name of the folder.
    pub display_name: String,
}

/// Result of one message synchronization, as a caller-side store consumes
/// it.
#[derive(Debug, Clone, PartialEq, Eq)]
pub struct MessageSyncResult {
    /// The synchronized messages.
    pub messages: Vec<MessageInfo>,
    /// The token for the next incremental sync.
    pub sync_state: String,
}

/// One synchronized message, in store form.
#[derive(Debug, Clone, PartialEq, Eq)]
pub struct MessageInfo {
    /// The message's id.
    pub id: String,
    /// The subject, when known.
    pub subject: Option<String>,
    /// The sender's address, when known.
    pub from: Option<String>,
    /// Whether the message has been read.
    pub is_read: bool,
}

} // verus!
