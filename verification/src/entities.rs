//! The target entities of the new forum store.  Authors and moderators are
//! addressed by their compact sequential numeric identities; a raw account
//! identifier survives only inside the synthesized user and moderator records.

use vstd::prelude::*;
use crate::account::RawAccountId;
use crate::legacy::{BlockchainTimestamp, ChildPosition, PostTextEdit};

verus! {

/// A moderation outcome after remapping: the moderator is a numeric
/// moderator identity.
#[derive(Clone, Debug, PartialEq, Eq)]
pub struct Moderation {
    pub moderator_id: u64,
    pub rationale: String,
    pub action_kind: u64,
    pub at: BlockchainTimestamp,
}

/// A category of the new store.  Categories are not author-attributed in the
/// target schema, so no actor reference remains; stickied threads are a
/// post-migration concern and start empty.
#[derive(Clone, Debug, PartialEq, Eq)]
pub struct Category {
    pub id: u64,
    pub title: String,
    pub description: String,
    pub created_at: BlockchainTimestamp,
    pub deleted: bool,
    pub archived: bool,
    pub num_direct_subcategories: u64,
    pub num_direct_unmoderated_threads: u64,
    pub num_direct_moderated_threads: u64,
    pub position_in_parent_category: Option<ChildPosition>,
    pub sticky_thread_ids: Vec<u64>,
}

/// The mathematical value of a target category.
pub ghost struct CategoryV {
    pub id: u64,
    pub title: String,
    pub description: String,
    pub created_at: BlockchainTimestamp,
    pub deleted: bool,
    pub archived: bool,
    pub num_direct_subcategories: u64,
    pub num_direct_unmoderated_threads: u64,
    pub num_direct_moderated_threads: u64,
    pub position_in_parent_category: Option<ChildPosition>,
    pub sticky_thread_ids: Seq<u64>,
}

impl View for Category {
    type V = CategoryV;

    open spec fn view(&self) -> CategoryV {
        CategoryV {
            id: self.id,
            title: self.title,
            description: self.description,
            created_at: self.created_at,
            deleted: self.deleted,
            archived: self.archived,
            num_direct_subcategories: self.num_direct_subcategories,
            num_direct_unmoderated_threads: self.num_direct_unmoderated_threads,
            num_direct_moderated_threads: self.num_direct_moderated_threads,
            position_in_parent_category: self.position_in_parent_category,
            sticky_thread_ids: self.sticky_thread_ids@,
        }
    }
}

/// A thread of the new store: the author is a numeric forum-user identity.
#[derive(Clone, Debug, PartialEq, Eq)]
pub struct Thread {
    pub id: u64,
    pub category_id: u64,
    pub author_id: u64,
    pub moderation: Option<Moderation>,
    pub title: String,
    pub created_at: BlockchainTimestamp,
}

/// A post of the new store: the author is a numeric forum-user identity.
#[derive(Clone, Debug, PartialEq, Eq)]
pub struct Post {
    pub id: u64,
    pub thread_id: u64,
    pub author_id: u64,
    pub text: String,
    pub edit_history: Vec<PostTextEdit>,
    pub moderation: Option<Moderation>,
    pub created_at: BlockchainTimestamp,
}

/// The mathematical value of a target post.
pub ghost struct PostV {
    pub id: u64,
    pub thread_id: u64,
    pub author_id: u64,
    pub text: String,
    pub edit_history: Seq<PostTextEdit>,
    pub moderation: Option<Moderation>,
    pub created_at: BlockchainTimestamp,
}

impl View for Post {
    type V = PostV;

    open spec fn view(&self) -> PostV {
        PostV {
            id: self.id,
            thread_id: self.thread_id,
            author_id: self.author_id,
            text: self.text,
            edit_history: self.edit_history@,
            moderation: self.moderation,
            created_at: self.created_at,
        }
    }
}

/// The mathematical values of a target category collection.
pub open spec fn views_of_categories(s: Seq<Category>) -> Seq<CategoryV> {
    s.map_values(|c: Category| c@)
}

/// The mathematical values of a target post collection.
pub open spec fn views_of_posts(s: Seq<Post>) -> Seq<PostV> {
    s.map_values(|p: Post| p@)
}

/// Appending a category appends its mathematical value.
pub proof fn lemma_views_categories_push(s: Seq<Category>, c: Category)
    ensures
        views_of_categories(s.push(c)) == views_of_categories(s).push(c@),
{
    assert(views_of_categories(s.push(c)) =~= views_of_categories(s).push(c@));
}

/// Appending a post appends its mathematical value.
pub proof fn lemma_views_posts_push(s: Seq<Post>, p: Post)
    ensures
        views_of_posts(s.push(p)) == views_of_posts(s).push(p@),
{
    assert(views_of_posts(s.push(p)) =~= views_of_posts(s).push(p@));
}

/// A synthesized forum user: its numeric identity and the raw account
/// identifier it stands for.  The legacy export carries no further per-actor
/// attributes, so none are synthesized.
#[derive(Clone, Copy, Debug, PartialEq, Eq, Structural)]
pub struct ForumUser {
    pub id: u64,
    pub account: RawAccountId,
}

/// A synthesized moderator: its numeric identity and the raw account
/// identifier it stands for.
#[derive(Clone, Copy, Debug, PartialEq, Eq, Structural)]
pub struct Moderator {
    pub id: u64,
    pub account: RawAccountId,
}

} // verus!
