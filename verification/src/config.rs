//! The configuration assembler: combines the remapped collections, the fixed
//! validation-constraint table and the operational parameters into the final
//! configuration object of the new forum store.

use vstd::prelude::*;
use crate::account::RawAccountId;
use crate::entities::{
    Category, CategoryV, ForumUser, Moderator, Post, PostV, Thread, views_of_categories,
    views_of_posts,
};
use crate::legacy::ForumData;
use crate::registry::{
    lemma_category_mod_occ_index, lemma_first_seen_len, lemma_post_author_occ_index,
    lemma_thread_author_occ_index, spec_moderator_occurrences, spec_moderator_registry,
    spec_user_occurrences, spec_user_registry, thread_moderator_occurrences,
    post_moderator_occurrences,
};
use crate::remap::{
    parse_data, spec_forum_users, spec_moderators, spec_remap_categories, spec_remap_posts,
    spec_remap_threads,
};

verus! {

/// A length-range constraint on one free-text field: the minimum length and
/// the largest admissible extra length beyond the minimum.
#[derive(Clone, Copy, Debug, PartialEq, Eq, Structural)]
pub struct InputValidationLengthConstraint {
    pub min: u16,
    pub max_min_diff: u16,
}

/// Builds a length-range constraint from its two bounds.
pub fn new_validation(min: u16, max_min_diff: u16) -> (r: InputValidationLengthConstraint)
    ensures
        r == (InputValidationLengthConstraint { min, max_min_diff }),
{
    InputValidationLengthConstraint { min, max_min_diff }
}

/// A forum label of the new store.  Labels are not reconstructible from the
/// legacy snapshot, so the assembled collection is always empty.
#[derive(Clone, Debug, PartialEq, Eq)]
pub struct Label {
    pub id: u64,
    pub name: String,
}

/// The assembled initial-state configuration of the new forum store.
#[derive(Clone, Debug, PartialEq, Eq)]
pub struct ForumConfig {
    pub forum_user_by_id: Vec<ForumUser>,
    pub next_forum_user_id: u64,
    pub moderator_by_id: Vec<Moderator>,
    pub next_moderator_id: u64,
    pub category_by_id: Vec<Category>,
    pub next_category_id: u64,
    pub thread_by_id: Vec<Thread>,
    pub next_thread_id: u64,
    pub post_by_id: Vec<Post>,
    pub next_post_id: u64,
    pub forum_sudo: RawAccountId,
    pub category_by_moderator: Vec<(u64, u64)>,
    pub max_category_depth: u64,
    pub reaction_by_post: Vec<(u64, u64)>,
    pub category_title_constraint: InputValidationLengthConstraint,
    pub category_description_constraint: InputValidationLengthConstraint,
    pub thread_title_constraint: InputValidationLengthConstraint,
    pub post_text_constraint: InputValidationLengthConstraint,
    pub thread_moderation_rationale_constraint: InputValidationLengthConstraint,
    pub post_moderation_rationale_constraint: InputValidationLengthConstraint,
    pub label_name_constraint: InputValidationLengthConstraint,
    pub poll_desc_constraint: InputValidationLengthConstraint,
    pub poll_items_constraint: InputValidationLengthConstraint,
    pub user_name_constraint: InputValidationLengthConstraint,
    pub user_self_introduction_constraint: InputValidationLengthConstraint,
    pub post_footer_constraint: InputValidationLengthConstraint,
    pub label_by_id: Vec<Label>,
    pub next_label_id: u64,
    pub category_labels: Vec<(u64, u64)>,
    pub thread_labels: Vec<(u64, u64)>,
    pub max_applied_labels: u64,
}

/// The mathematical value of an assembled configuration.
#[verifier::ext_equal]
pub ghost struct ForumConfigV {
    pub forum_user_by_id: Seq<ForumUser>,
    pub next_forum_user_id: u64,
    pub moderator_by_id: Seq<Moderator>,
    pub next_moderator_id: u64,
    pub category_by_id: Seq<CategoryV>,
    pub next_category_id: u64,
    pub thread_by_id: Seq<Thread>,
    pub next_thread_id: u64,
    pub post_by_id: Seq<PostV>,
    pub next_post_id: u64,
    pub forum_sudo: RawAccountId,
    pub category_by_moderator: Seq<(u64, u64)>,
    pub max_category_depth: u64,
    pub reaction_by_post: Seq<(u64, u64)>,
    pub category_title_constraint: InputValidationLengthConstraint,
    pub category_description_constraint: InputValidationLengthConstraint,
    pub thread_title_constraint: InputValidationLengthConstraint,
    pub post_text_constraint: InputValidationLengthConstraint,
    pub thread_moderation_rationale_constraint: InputValidationLengthConstraint,
    pub post_moderation_rationale_constraint: InputValidationLengthConstraint,
    pub label_name_constraint: InputValidationLengthConstraint,
    pub poll_desc_constraint: InputValidationLengthConstraint,
    pub poll_items_constraint: InputValidationLengthConstraint,
    pub user_name_constraint: InputValidationLengthConstraint,
    pub user_self_introduction_constraint: InputValidationLengthConstraint,
    pub post_footer_constraint: InputValidationLengthConstraint,
    pub label_by_id: Seq<Label>,
    pub next_label_id: u64,
    pub category_labels: Seq<(u64, u64)>,
    pub thread_labels: Seq<(u64, u64)>,
    pub max_applied_labels: u64,
}

impl View for ForumConfig {
    type V = ForumConfigV;

    open spec fn view(&self) -> ForumConfigV {
        ForumConfigV {
            forum_user_by_id: self.forum_user_by_id@,
            next_forum_user_id: self.next_forum_user_id,
            moderator_by_id: self.moderator_by_id@,
            next_moderator_id: self.next_moderator_id,
            category_by_id: views_of_categories(self.category_by_id@),
            next_category_id: self.next_category_id,
            thread_by_id: self.thread_by_id@,
            next_thread_id: self.next_thread_id,
            post_by_id: views_of_posts(self.post_by_id@),
            next_post_id: self.next_post_id,
            forum_sudo: self.forum_sudo,
            category_by_moderator: self.category_by_moderator@,
            max_category_depth: self.max_category_depth,
            reaction_by_post: self.reaction_by_post@,
            category_title_constraint: self.category_title_constraint,
            category_description_constraint: self.category_description_constraint,
            thread_title_constraint: self.thread_title_constraint,
            post_text_constraint: self.post_text_constraint,
            thread_moderation_rationale_constraint: self.thread_moderation_rationale_constraint,
            post_moderation_rationale_constraint: self.post_moderation_rationale_constraint,
            label_name_constraint: self.label_name_constraint,
            poll_desc_constraint: self.poll_desc_constraint,
            poll_items_constraint: self.poll_items_constraint,
            user_name_constraint: self.user_name_constraint,
            user_self_introduction_constraint: self.user_self_introduction_constraint,
            post_footer_constraint: self.post_footer_constraint,
            label_by_id: self.label_by_id@,
            next_label_id: self.next_label_id,
            category_labels: self.category_labels@,
            thread_labels: self.thread_labels@,
            max_applied_labels: self.max_applied_labels,
        }
    }
}

/// The largest value in `s`, or 0 when `s` is empty.
pub open spec fn seq_max_id(s: Seq<u64>) -> u64
    decreases s.len(),
{
    if s.len() == 0 {
        0
    } else if s.last() > seq_max_id(s.drop_last()) {
        s.last()
    } else {
        seq_max_id(s.drop_last())
    }
}

/// Whether `m` is the maximum of `ids` (0 for an empty collection).
pub open spec fn is_max_of(ids: Seq<u64>, m: u64) -> bool {
    &&& ids.len() == 0 ==> m == 0
    &&& ids.len() > 0 ==> ids.contains(m)
    &&& forall|i: int| 0 <= i < ids.len() ==> ids[i] <= m
}

/// `seq_max_id` really is the maximum.
pub proof fn lemma_seq_max_id_props(s: Seq<u64>)
    ensures
        is_max_of(s, seq_max_id(s)),
    decreases s.len(),
{
    if s.len() > 0 {
        lemma_seq_max_id_props(s.drop_last());
        let prefix = s.drop_last();
        if s.len() > 1 || seq_max_id(s) == s.last() {
        }
        if prefix.len() > 0 && seq_max_id(s) == seq_max_id(prefix) {
            let j = choose|j: int| 0 <= j < prefix.len() && prefix[j] == seq_max_id(prefix);
            assert(s[j] == seq_max_id(s));
        }
        if seq_max_id(s) == s.last() {
            assert(s[s.len() - 1] == seq_max_id(s));
        }
        assert forall|i: int| 0 <= i < s.len() implies s[i] <= seq_max_id(s) by {
            if i < s.len() - 1 {
                assert(prefix[i] == s[i]);
            }
        }
    }
}

/// The "next available id" for a collection whose members carry the given
/// ids: one past the maximum id present, or 1 when the collection is empty.
pub open spec fn spec_next_id(ids: Seq<u64>) -> u64 {
    (seq_max_id(ids) + 1) as u64
}

pub open spec fn forum_user_ids(s: Seq<ForumUser>) -> Seq<u64> {
    s.map_values(|u: ForumUser| u.id)
}

pub open spec fn moderator_ids(s: Seq<Moderator>) -> Seq<u64> {
    s.map_values(|m: Moderator| m.id)
}

pub open spec fn category_ids(s: Seq<Category>) -> Seq<u64> {
    s.map_values(|c: Category| c.id)
}

pub open spec fn category_view_ids(s: Seq<CategoryV>) -> Seq<u64> {
    s.map_values(|c: CategoryV| c.id)
}

pub open spec fn thread_ids(s: Seq<Thread>) -> Seq<u64> {
    s.map_values(|t: Thread| t.id)
}

pub open spec fn post_ids(s: Seq<Post>) -> Seq<u64> {
    s.map_values(|p: Post| p.id)
}

pub open spec fn post_view_ids(s: Seq<PostV>) -> Seq<u64> {
    s.map_values(|p: PostV| p.id)
}

/// One past the largest forum-user identity present, or 1 when none is.
pub fn next_id_from_forum_users(v: &Vec<ForumUser>) -> (r: u64)
    requires
        forall|i: int| 0 <= i < v@.len() ==> (#[trigger] v@[i]).id < u64::MAX,
    ensures
        r == spec_next_id(forum_user_ids(v@)),
{
    let ghost q = forum_user_ids(v@);
    let mut m: u64 = 0;
    let mut i: usize = 0;
    while i < v.len()
        invariant
            0 <= i <= v@.len(),
            q == forum_user_ids(v@),
            q.len() == v@.len(),
            forall|j: int| 0 <= j < v@.len() ==> (#[trigger] v@[j]).id < u64::MAX,
            m == seq_max_id(q.take(i as int)),
        decreases v@.len() - i,
    {
        proof {
            assert(q[i as int] == v@[i as int].id);
            assert(q.take(i as int + 1).drop_last() =~= q.take(i as int));
            assert(q.take(i as int + 1).last() == q[i as int]);
        }
        let x = v[i].id;
        if x > m {
            m = x;
        }
        i = i + 1;
    }
    proof {
        assert(q.take(q.len() as int) =~= q);
        lemma_seq_max_id_props(q);
        if q.len() > 0 {
            let j = choose|j: int| 0 <= j < q.len() && q[j] == seq_max_id(q);
            assert(v@[j].id == seq_max_id(q));
        }
    }
    m + 1
}

/// One past the largest moderator identity present, or 1 when none is.
pub fn next_id_from_moderators(v: &Vec<Moderator>) -> (r: u64)
    requires
        forall|i: int| 0 <= i < v@.len() ==> (#[trigger] v@[i]).id < u64::MAX,
    ensures
        r == spec_next_id(moderator_ids(v@)),
{
    let ghost q = moderator_ids(v@);
    let mut m: u64 = 0;
    let mut i: usize = 0;
    while i < v.len()
        invariant
            0 <= i <= v@.len(),
            q == moderator_ids(v@),
            q.len() == v@.len(),
            forall|j: int| 0 <= j < v@.len() ==> (#[trigger] v@[j]).id < u64::MAX,
            m == seq_max_id(q.take(i as int)),
        decreases v@.len() - i,
    {
        proof {
            assert(q[i as int] == v@[i as int].id);
            assert(q.take(i as int + 1).drop_last() =~= q.take(i as int));
            assert(q.take(i as int + 1).last() == q[i as int]);
        }
        let x = v[i].id;
        if x > m {
            m = x;
        }
        i = i + 1;
    }
    proof {
        assert(q.take(q.len() as int) =~= q);
        lemma_seq_max_id_props(q);
        if q.len() > 0 {
            let j = choose|j: int| 0 <= j < q.len() && q[j] == seq_max_id(q);
            assert(v@[j].id == seq_max_id(q));
        }
    }
    m + 1
}

/// One past the largest category id present, or 1 when none is.
pub fn next_id_from_categories(v: &Vec<Category>) -> (r: u64)
    requires
        forall|i: int| 0 <= i < v@.len() ==> (#[trigger] v@[i]).id < u64::MAX,
    ensures
        r == spec_next_id(category_ids(v@)),
{
    let ghost q = category_ids(v@);
    let mut m: u64 = 0;
    let mut i: usize = 0;
    while i < v.len()
        invariant
            0 <= i <= v@.len(),
            q == category_ids(v@),
            q.len() == v@.len(),
            forall|j: int| 0 <= j < v@.len() ==> (#[trigger] v@[j]).id < u64::MAX,
            m == seq_max_id(q.take(i as int)),
        decreases v@.len() - i,
    {
        proof {
            assert(q[i as int] == v@[i as int].id);
            assert(q.take(i as int + 1).drop_last() =~= q.take(i as int));
            assert(q.take(i as int + 1).last() == q[i as int]);
        }
        let x = v[i].id;
        if x > m {
            m = x;
        }
        i = i + 1;
    }
    proof {
        assert(q.take(q.len() as int) =~= q);
        lemma_seq_max_id_props(q);
        if q.len() > 0 {
            let j = choose|j: int| 0 <= j < q.len() && q[j] == seq_max_id(q);
            assert(v@[j].id == seq_max_id(q));
        }
    }
    m + 1
}

/// One past the largest thread id present, or 1 when none is.
pub fn next_id_from_threads(v: &Vec<Thread>) -> (r: u64)
    requires
        forall|i: int| 0 <= i < v@.len() ==> (#[trigger] v@[i]).id < u64::MAX,
    ensures
        r == spec_next_id(thread_ids(v@)),
{
    let ghost q = thread_ids(v@);
    let mut m: u64 = 0;
    let mut i: usize = 0;
    while i < v.len()
        invariant
            0 <= i <= v@.len(),
            q == thread_ids(v@),
            q.len() == v@.len(),
            forall|j: int| 0 <= j < v@.len() ==> (#[trigger] v@[j]).id < u64::MAX,
            m == seq_max_id(q.take(i as int)),
        decreases v@.len() - i,
    {
        proof {
            assert(q[i as int] == v@[i as int].id);
            assert(q.take(i as int + 1).drop_last() =~= q.take(i as int));
            assert(q.take(i as int + 1).last() == q[i as int]);
        }
        let x = v[i].id;
        if x > m {
            m = x;
        }
        i = i + 1;
    }
    proof {
        assert(q.take(q.len() as int) =~= q);
        lemma_seq_max_id_props(q);
        if q.len() > 0 {
            let j = choose|j: int| 0 <= j < q.len() && q[j] == seq_max_id(q);
            assert(v@[j].id == seq_max_id(q));
        }
    }
    m + 1
}

/// One past the largest post id present, or 1 when none is.
pub fn next_id_from_posts(v: &Vec<Post>) -> (r: u64)
    requires
        forall|i: int| 0 <= i < v@.len() ==> (#[trigger] v@[i]).id < u64::MAX,
    ensures
        r == spec_next_id(post_ids(v@)),
{
    let ghost q = post_ids(v@);
    let mut m: u64 = 0;
    let mut i: usize = 0;
    while i < v.len()
        invariant
            0 <= i <= v@.len(),
            q == post_ids(v@),
            q.len() == v@.len(),
            forall|j: int| 0 <= j < v@.len() ==> (#[trigger] v@[j]).id < u64::MAX,
            m == seq_max_id(q.take(i as int)),
        decreases v@.len() - i,
    {
        proof {
            assert(q[i as int] == v@[i as int].id);
            assert(q.take(i as int + 1).drop_last() =~= q.take(i as int));
            assert(q.take(i as int + 1).last() == q[i as int]);
        }
        let x = v[i].id;
        if x > m {
            m = x;
        }
        i = i + 1;
    }
    proof {
        assert(q.take(q.len() as int) =~= q);
        lemma_seq_max_id_props(q);
        if q.len() > 0 {
            let j = choose|j: int| 0 <= j < q.len() && q[j] == seq_max_id(q);
            assert(v@[j].id == seq_max_id(q));
        }
    }
    m + 1
}

/// The configuration assembled from remapped collections: the collections
/// themselves, the "next id" counter of each (one past its maximum id, or 1
/// when empty), the administrator, the fixed validation-constraint table and
/// the fixed operational limits.  Label collections and the
/// category-moderator, reaction and label associations start empty: they are
/// not reconstructible from the legacy snapshot.
pub open spec fn spec_assemble(
    forum_sudo: RawAccountId,
    forum_users: Seq<ForumUser>,
    moderators: Seq<Moderator>,
    categories: Seq<CategoryV>,
    threads: Seq<Thread>,
    posts: Seq<PostV>,
) -> ForumConfigV {
    ForumConfigV {
        forum_user_by_id: forum_users,
        next_forum_user_id: spec_next_id(forum_user_ids(forum_users)),
        moderator_by_id: moderators,
        next_moderator_id: spec_next_id(moderator_ids(moderators)),
        category_by_id: categories,
        next_category_id: spec_next_id(category_view_ids(categories)),
        thread_by_id: threads,
        next_thread_id: spec_next_id(thread_ids(threads)),
        post_by_id: posts,
        next_post_id: spec_next_id(post_view_ids(posts)),
        forum_sudo,
        category_by_moderator: Seq::empty(),
        max_category_depth: 5,
        reaction_by_post: Seq::empty(),
        category_title_constraint: InputValidationLengthConstraint { min: 10, max_min_diff: 140 },
        category_description_constraint: InputValidationLengthConstraint {
            min: 10,
            max_min_diff: 140,
        },
        thread_title_constraint: InputValidationLengthConstraint { min: 3, max_min_diff: 43 },
        post_text_constraint: InputValidationLengthConstraint { min: 1, max_min_diff: 1001 },
        thread_moderation_rationale_constraint: InputValidationLengthConstraint {
            min: 10,
            max_min_diff: 2000,
        },
        post_moderation_rationale_constraint: InputValidationLengthConstraint {
            min: 10,
            max_min_diff: 2000,
        },
        label_name_constraint: InputValidationLengthConstraint { min: 10, max_min_diff: 20 },
        poll_desc_constraint: InputValidationLengthConstraint { min: 10, max_min_diff: 200 },
        poll_items_constraint: InputValidationLengthConstraint { min: 4, max_min_diff: 20 },
        user_name_constraint: InputValidationLengthConstraint { min: 6, max_min_diff: 20 },
        user_self_introduction_constraint: InputValidationLengthConstraint {
            min: 10,
            max_min_diff: 200,
        },
        post_footer_constraint: InputValidationLengthConstraint { min: 10, max_min_diff: 140 },
        label_by_id: Seq::empty(),
        next_label_id: 1,
        category_labels: Seq::empty(),
        thread_labels: Seq::empty(),
        max_applied_labels: 5,
    }
}

/// Assembles the final configuration from the remapped collections and the
/// externally supplied administrator identity.
pub fn assemble(
    forum_sudo: RawAccountId,
    forum_users: Vec<ForumUser>,
    moderators: Vec<Moderator>,
    categories: Vec<Category>,
    threads: Vec<Thread>,
    posts: Vec<Post>,
) -> (cfg: ForumConfig)
    requires
        forall|i: int| 0 <= i < forum_users@.len() ==> (#[trigger] forum_users@[i]).id < u64::MAX,
        forall|i: int| 0 <= i < moderators@.len() ==> (#[trigger] moderators@[i]).id < u64::MAX,
        forall|i: int| 0 <= i < categories@.len() ==> (#[trigger] categories@[i]).id < u64::MAX,
        forall|i: int| 0 <= i < threads@.len() ==> (#[trigger] threads@[i]).id < u64::MAX,
        forall|i: int| 0 <= i < posts@.len() ==> (#[trigger] posts@[i]).id < u64::MAX,
    ensures
        cfg@ == spec_assemble(
            forum_sudo,
            forum_users@,
            moderators@,
            views_of_categories(categories@),
            threads@,
            views_of_posts(posts@),
        ),
{
    let next_forum_user_id = next_id_from_forum_users(&forum_users);
    let next_moderator_id = next_id_from_moderators(&moderators);
    let next_category_id = next_id_from_categories(&categories);
    let next_thread_id = next_id_from_threads(&threads);
    let next_post_id = next_id_from_posts(&posts);
    proof {
        assert(category_ids(categories@) =~= category_view_ids(views_of_categories(categories@)));
        assert(post_ids(posts@) =~= post_view_ids(views_of_posts(posts@)));
    }
    let cfg = ForumConfig {
        forum_user_by_id: forum_users,
        next_forum_user_id,
        moderator_by_id: moderators,
        next_moderator_id,
        category_by_id: categories,
        next_category_id,
        thread_by_id: threads,
        next_thread_id,
        post_by_id: posts,
        next_post_id,
        forum_sudo,
        category_by_moderator: Vec::new(),
        max_category_depth: 5,
        reaction_by_post: Vec::new(),
        category_title_constraint: new_validation(10, 140),
        category_description_constraint: new_validation(10, 140),
        thread_title_constraint: new_validation(3, 43),
        post_text_constraint: new_validation(1, 1001),
        thread_moderation_rationale_constraint: new_validation(10, 2000),
        post_moderation_rationale_constraint: new_validation(10, 2000),
        label_name_constraint: new_validation(10, 20),
        poll_desc_constraint: new_validation(10, 200),
        poll_items_constraint: new_validation(4, 20),
        user_name_constraint: new_validation(6, 20),
        user_self_introduction_constraint: new_validation(10, 200),
        post_footer_constraint: new_validation(10, 140),
        label_by_id: Vec::new(),
        next_label_id: 1,
        category_labels: Vec::new(),
        thread_labels: Vec::new(),
        max_applied_labels: 5,
    };
    proof {
        assert(cfg@ =~= spec_assemble(
            forum_sudo,
            cfg.forum_user_by_id@,
            cfg.moderator_by_id@,
            views_of_categories(cfg.category_by_id@),
            cfg.thread_by_id@,
            views_of_posts(cfg.post_by_id@),
        ));
    }
    cfg
}

/// The configuration that the whole pipeline denotes on one snapshot.
pub open spec fn spec_config(forum_sudo: RawAccountId, d: crate::legacy::ForumDataV) -> ForumConfigV {
    spec_assemble(
        forum_sudo,
        spec_forum_users(spec_user_registry(d)),
        spec_moderators(spec_moderator_registry(d)),
        spec_remap_categories(d.categories),
        spec_remap_threads(d.threads, spec_user_registry(d), spec_moderator_registry(d)),
        spec_remap_posts(d.posts, spec_user_registry(d), spec_moderator_registry(d)),
    )
}

/// The machine limits under which the pipeline's "next id" counters cannot
/// overflow: every legacy id below the largest 64-bit value, and fewer total
/// entities than that value.
pub open spec fn input_within_limits(d: crate::legacy::ForumDataV) -> bool {
    &&& forall|i: int| 0 <= i < d.categories.len() ==> (#[trigger] d.categories[i]).id < u64::MAX
    &&& forall|i: int| 0 <= i < d.threads.len() ==> (#[trigger] d.threads[i]).id < u64::MAX
    &&& forall|i: int| 0 <= i < d.posts.len() ==> (#[trigger] d.posts[i]).id < u64::MAX
    &&& d.categories.len() + d.threads.len() + d.posts.len() < u64::MAX
}

/// Runs the whole adaptation pipeline: builds the identity registry, remaps
/// every entity, and assembles the final configuration around the externally
/// supplied administrator identity.
pub fn adapt_forum_config(forum_sudo: RawAccountId, data: ForumData) -> (cfg: ForumConfig)
    requires
        input_within_limits(data@),
    ensures
        cfg@ == spec_config(forum_sudo, data@),
{
    let ghost d = data@;
    let (forum_users, moderators, categories, threads, posts) = parse_data(data);
    proof {
        lemma_first_seen_len(spec_user_occurrences(d));
        lemma_first_seen_len(spec_moderator_occurrences(d));
        lemma_thread_author_occ_index(d.threads);
        lemma_post_author_occ_index(d.posts);
        lemma_category_mod_occ_index(d.categories);
        crate::registry::lemma_thread_mod_occ_len(d.threads);
        crate::registry::lemma_post_mod_occ_len(d.posts);
        assert(spec_user_registry(d).len() < u64::MAX);
        assert(spec_moderator_registry(d).len() < u64::MAX);
        assert forall|i: int|
            0 <= i < forum_users@.len() implies (#[trigger] forum_users@[i]).id < u64::MAX by {
            assert(forum_users@[i].id == i + 1);
        }
        assert forall|i: int|
            0 <= i < moderators@.len() implies (#[trigger] moderators@[i]).id < u64::MAX by {
            assert(moderators@[i].id == i + 1);
        }
        assert(views_of_categories(categories@).len() == categories@.len());
        assert(spec_remap_categories(d.categories).len() == d.categories.len());
        assert forall|i: int|
            0 <= i < categories@.len() implies (#[trigger] categories@[i]).id < u64::MAX by {
            assert(views_of_categories(categories@)[i] == categories@[i]@);
            assert(spec_remap_categories(d.categories)[i] == crate::remap::spec_remap_category(
                d.categories[i],
            ));
            assert(categories@[i]@.id == d.categories[i].id);
        }
        assert(spec_remap_threads(d.threads, spec_user_registry(d), spec_moderator_registry(
            d,
        )).len() == d.threads.len());
        assert forall|i: int|
            0 <= i < threads@.len() implies (#[trigger] threads@[i]).id < u64::MAX by {
            assert(threads@[i] == crate::remap::spec_remap_thread(
                d.threads[i],
                spec_user_registry(d),
                spec_moderator_registry(d),
            ));
        }
        assert(views_of_posts(posts@).len() == posts@.len());
        assert(spec_remap_posts(d.posts, spec_user_registry(d), spec_moderator_registry(d)).len()
            == d.posts.len());
        assert forall|i: int| 0 <= i < posts@.len() implies (#[trigger] posts@[i]).id < u64::MAX by {
            assert(views_of_posts(posts@)[i] == posts@[i]@);
            assert(spec_remap_posts(d.posts, spec_user_registry(d), spec_moderator_registry(d))[i]
                == crate::remap::spec_remap_post(
                d.posts[i],
                spec_user_registry(d),
                spec_moderator_registry(d),
            ));
            assert(posts@[i]@.id == d.posts[i].id);
        }
    }
    assemble(forum_sudo, forum_users, moderators, categories, threads, posts)
}

} // verus!
