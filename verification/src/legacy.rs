//! The legacy snapshot model: the in-memory form of a parsed legacy forum
//! export.  Every actor (category moderator, thread or post author, moderation
//! moderator) is still addressed by its raw 32-byte account identifier.

use vstd::prelude::*;
use crate::account::RawAccountId;

verus! {

/// A creation moment of the legacy chain: block number plus wall-clock time.
#[derive(Clone, Copy, Debug, PartialEq, Eq, Structural)]
pub struct BlockchainTimestamp {
    pub block: u64,
    pub time: u64,
}

/// A category's optional link to its parent: the parent's legacy id and the
/// position among the parent's children.
#[derive(Clone, Copy, Debug, PartialEq, Eq, Structural)]
pub struct ChildPosition {
    pub parent_id: u64,
    pub child_nr_in_parent_category: u64,
}

/// A moderation outcome as recorded in the legacy export: the moderator is a
/// raw account identifier.
#[derive(Clone, Debug, PartialEq, Eq)]
pub struct LegacyModeration {
    pub moderator: RawAccountId,
    pub rationale: String,
    pub action_kind: u64,
    pub at: BlockchainTimestamp,
}

/// A legacy category record.
#[derive(Clone, Debug, PartialEq, Eq)]
pub struct LegacyCategory {
    pub id: u64,
    pub title: String,
    pub description: String,
    pub created_at: BlockchainTimestamp,
    pub deleted: bool,
    pub archived: bool,
    pub num_direct_subcategories: u64,
    pub num_direct_unmoderated_threads: u64,
    pub num_direct_moderated_threads: u64,
    pub position_in_parent_category: Option<ChildPosition>,
    pub moderator: RawAccountId,
}

/// A legacy thread record.
#[derive(Clone, Debug, PartialEq, Eq)]
pub struct LegacyThread {
    pub id: u64,
    pub category_id: u64,
    pub author: RawAccountId,
    pub moderation: Option<LegacyModeration>,
    pub title: String,
    pub created_at: BlockchainTimestamp,
}

/// One entry of a post's edit history: the text it replaced and when.
#[derive(Clone, Debug, PartialEq, Eq)]
pub struct PostTextEdit {
    pub text: String,
    pub at: BlockchainTimestamp,
}

/// A legacy post record.
#[derive(Clone, Debug, PartialEq, Eq)]
pub struct LegacyPost {
    pub id: u64,
    pub thread_id: u64,
    pub author: RawAccountId,
    pub text: String,
    pub edit_history: Vec<PostTextEdit>,
    pub moderation: Option<LegacyModeration>,
    pub created_at: BlockchainTimestamp,
}

/// The mathematical value of a legacy post: the edit history as a sequence.
pub ghost struct LegacyPostV {
    pub id: u64,
    pub thread_id: u64,
    pub author: RawAccountId,
    pub text: String,
    pub edit_history: Seq<PostTextEdit>,
    pub moderation: Option<LegacyModeration>,
    pub created_at: BlockchainTimestamp,
}

impl View for LegacyPost {
    type V = LegacyPostV;

    open spec fn view(&self) -> LegacyPostV {
        LegacyPostV {
            id: self.id,
            thread_id: self.thread_id,
            author: self.author,
            text: self.text,
            edit_history: self.edit_history@,
            moderation: self.moderation,
            created_at: self.created_at,
        }
    }
}

/// The whole parsed legacy snapshot: the ordered collections of categories,
/// threads and posts, each record carrying its legacy numeric id.
#[derive(Clone, Debug, PartialEq, Eq)]
pub struct ForumData {
    pub categories: Vec<LegacyCategory>,
    pub threads: Vec<LegacyThread>,
    pub posts: Vec<LegacyPost>,
}

/// The mathematical values of a legacy post collection.
pub open spec fn views_of_legacy_posts(s: Seq<LegacyPost>) -> Seq<LegacyPostV> {
    s.map_values(|p: LegacyPost| p@)
}

/// The mathematical value of a snapshot: the three collections as sequences.
pub ghost struct ForumDataV {
    pub categories: Seq<LegacyCategory>,
    pub threads: Seq<LegacyThread>,
    pub posts: Seq<LegacyPostV>,
}

impl View for ForumData {
    type V = ForumDataV;

    open spec fn view(&self) -> ForumDataV {
        ForumDataV {
            categories: self.categories@,
            threads: self.threads@,
            posts: views_of_legacy_posts(self.posts@),
        }
    }
}

} // verus!
