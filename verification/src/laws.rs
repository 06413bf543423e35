//! The pipeline's global laws, stated over the spec-level pipeline and
//! proved once and for all.

use vstd::prelude::*;
use crate::account::RawAccountId;
use crate::config::{
    ForumConfigV, forum_user_ids, is_max_of, category_view_ids, input_within_limits,
    lemma_seq_max_id_props, moderator_ids, post_view_ids, seq_max_id, spec_config, thread_ids,
};
use crate::legacy::ForumDataV;
use crate::registry::{
    first_seen, lemma_category_mod_occ_index, lemma_first_index_bounds, lemma_first_seen_distinct,
    lemma_first_seen_len, lemma_first_seen_membership, lemma_first_seen_step,
    lemma_post_author_occ_index, lemma_post_mod_occ_len, lemma_registry_covers,
    lemma_thread_author_occ_index, lemma_thread_mod_occ_len, spec_first_index, spec_id_in,
    spec_moderator_occurrences, spec_moderator_registry, spec_user_occurrences, spec_user_registry,
};
use crate::remap::{spec_remap_posts, spec_remap_thread, spec_remap_threads, spec_remap_post};

verus! {

/// Consistency of registry and remap: each identity map holds every
/// identifier observed in its role exactly once, each with one numeric
/// identity; and every remapped thread and post references exactly the
/// identity its registry map records for the original author.
pub proof fn lemma_remap_consistent(d: ForumDataV)
    ensures
        forall|a: RawAccountId|
            spec_user_registry(d).contains(a) <==> spec_user_occurrences(d).contains(a),
        forall|a: RawAccountId|
            spec_moderator_registry(d).contains(a) <==> spec_moderator_occurrences(d).contains(a),
        forall|i: int, j: int|
            0 <= i < j < spec_user_registry(d).len() ==> spec_user_registry(d)[i]
                != spec_user_registry(d)[j],
        forall|i: int, j: int|
            0 <= i < j < spec_moderator_registry(d).len() ==> spec_moderator_registry(d)[i]
                != spec_moderator_registry(d)[j],
        forall|a: RawAccountId|
            spec_user_registry(d).contains(a) ==> 0 <= spec_first_index(spec_user_registry(d), a)
                < spec_user_registry(d).len() && spec_user_registry(d)[spec_first_index(
                spec_user_registry(d),
                a,
            )] == a,
        forall|a: RawAccountId|
            spec_moderator_registry(d).contains(a) ==> 0 <= spec_first_index(
                spec_moderator_registry(d),
                a,
            ) < spec_moderator_registry(d).len() && spec_moderator_registry(d)[spec_first_index(
                spec_moderator_registry(d),
                a,
            )] == a,
        forall|i: int|
            0 <= i < d.threads.len() ==> spec_remap_threads(
                d.threads,
                spec_user_registry(d),
                spec_moderator_registry(d),
            )[i].author_id == spec_id_in(spec_user_registry(d), #[trigger] d.threads[i].author),
        forall|i: int|
            0 <= i < d.posts.len() ==> spec_remap_posts(
                d.posts,
                spec_user_registry(d),
                spec_moderator_registry(d),
            )[i].author_id == spec_id_in(spec_user_registry(d), #[trigger] d.posts[i].author),
{
    lemma_first_seen_membership(spec_user_occurrences(d));
    lemma_first_seen_membership(spec_moderator_occurrences(d));
    lemma_first_seen_distinct(spec_user_occurrences(d));
    lemma_first_seen_distinct(spec_moderator_occurrences(d));
    lemma_registry_covers(d);
    assert forall|a: RawAccountId| spec_user_registry(d).contains(a) implies 0 <= spec_first_index(
        spec_user_registry(d),
        a,
    ) < spec_user_registry(d).len() && spec_user_registry(d)[spec_first_index(
        spec_user_registry(d),
        a,
    )] == a by {
        lemma_first_index_bounds(spec_user_registry(d), a);
    }
    assert forall|a: RawAccountId| spec_moderator_registry(d).contains(a) implies 0
        <= spec_first_index(spec_moderator_registry(d), a) < spec_moderator_registry(d).len()
        && spec_moderator_registry(d)[spec_first_index(spec_moderator_registry(d), a)] == a by {
        lemma_first_index_bounds(spec_moderator_registry(d), a);
    }
    assert forall|i: int|
        0 <= i < d.threads.len() implies spec_remap_threads(
        d.threads,
        spec_user_registry(d),
        spec_moderator_registry(d),
    )[i].author_id == spec_id_in(spec_user_registry(d), #[trigger] d.threads[i].author) by {
        assert(spec_remap_threads(d.threads, spec_user_registry(d), spec_moderator_registry(d))[i]
            == spec_remap_thread(d.threads[i], spec_user_registry(d), spec_moderator_registry(d)));
    }
    assert forall|i: int|
        0 <= i < d.posts.len() implies spec_remap_posts(
        d.posts,
        spec_user_registry(d),
        spec_moderator_registry(d),
    )[i].author_id == spec_id_in(spec_user_registry(d), #[trigger] d.posts[i].author) by {
        assert(spec_remap_posts(d.posts, spec_user_registry(d), spec_moderator_registry(d))[i]
            == spec_remap_post(d.posts[i], spec_user_registry(d), spec_moderator_registry(d)));
    }
}

/// Determinism: on equal snapshots and the same administrator, any two runs
/// of the pipeline denote the same configuration value.
pub proof fn lemma_pipeline_deterministic(
    forum_sudo: RawAccountId,
    d1: ForumDataV,
    d2: ForumDataV,
    c1: ForumConfigV,
    c2: ForumConfigV,
)
    requires
        d1 == d2,
        c1 == spec_config(forum_sudo, d1),
        c2 == spec_config(forum_sudo, d2),
    ensures
        c1 == c2,
{
}

/// Idempotent re-encounter: scanning an identifier the registry has already
/// seen changes nothing, so however many entities reference one identifier,
/// it holds exactly one numeric identity.
pub proof fn lemma_idempotent_reencounter(s: Seq<RawAccountId>, a: RawAccountId)
    requires
        s.contains(a),
    ensures
        first_seen(s.push(a)) == first_seen(s),
{
    lemma_first_seen_step(s, a);
}

/// The forum-user map depends on the author-role occurrences alone: two
/// snapshots with the same author scan yield the same map, whatever their
/// moderator occurrences.
pub proof fn lemma_user_map_independent(d1: ForumDataV, d2: ForumDataV)
    requires
        spec_user_occurrences(d1) == spec_user_occurrences(d2),
    ensures
        spec_user_registry(d1) == spec_user_registry(d2),
{
}

/// The moderator map depends on the moderator-role occurrences alone,
/// symmetrically to [`lemma_user_map_independent`].
pub proof fn lemma_moderator_map_independent(d1: ForumDataV, d2: ForumDataV)
    requires
        spec_moderator_occurrences(d1) == spec_moderator_occurrences(d2),
    ensures
        spec_moderator_registry(d1) == spec_moderator_registry(d2),
{
}

/// The synthesized user and moderator collections are ordered by ascending
/// numeric identity: the remap is deterministic given deterministic registry
/// construction.
pub proof fn lemma_records_ordered(s: Seq<RawAccountId>)
    requires
        s.len() <= u64::MAX,
    ensures
        forall|i: int, j: int|
            0 <= i < j < s.len() ==> crate::remap::spec_forum_users(s)[i].id
                < crate::remap::spec_forum_users(s)[j].id,
        forall|i: int, j: int|
            0 <= i < j < s.len() ==> crate::remap::spec_moderators(s)[i].id
                < crate::remap::spec_moderators(s)[j].id,
{
}

/// Every "next id" counter of the assembled configuration is one past the
/// maximum numeric id present in its collection, or 1 when the collection is
/// empty (`is_max_of(ids, m)` with an empty collection pins `m` to 0).
pub proof fn lemma_next_id_counters(forum_sudo: RawAccountId, d: ForumDataV)
    requires
        input_within_limits(d),
    ensures
        ({
            let cfg = spec_config(forum_sudo, d);
            &&& is_max_of(
                forum_user_ids(cfg.forum_user_by_id),
                seq_max_id(forum_user_ids(cfg.forum_user_by_id)),
            )
            &&& cfg.next_forum_user_id == seq_max_id(forum_user_ids(cfg.forum_user_by_id)) + 1
            &&& is_max_of(
                moderator_ids(cfg.moderator_by_id),
                seq_max_id(moderator_ids(cfg.moderator_by_id)),
            )
            &&& cfg.next_moderator_id == seq_max_id(moderator_ids(cfg.moderator_by_id)) + 1
            &&& is_max_of(
                category_view_ids(cfg.category_by_id),
                seq_max_id(category_view_ids(cfg.category_by_id)),
            )
            &&& cfg.next_category_id == seq_max_id(category_view_ids(cfg.category_by_id)) + 1
            &&& is_max_of(thread_ids(cfg.thread_by_id), seq_max_id(thread_ids(cfg.thread_by_id)))
            &&& cfg.next_thread_id == seq_max_id(thread_ids(cfg.thread_by_id)) + 1
            &&& is_max_of(post_view_ids(cfg.post_by_id), seq_max_id(post_view_ids(cfg.post_by_id)))
            &&& cfg.next_post_id == seq_max_id(post_view_ids(cfg.post_by_id)) + 1
        }),
{
    let cfg = spec_config(forum_sudo, d);
    lemma_first_seen_len(spec_user_occurrences(d));
    lemma_first_seen_len(spec_moderator_occurrences(d));
    lemma_thread_author_occ_index(d.threads);
    lemma_post_author_occ_index(d.posts);
    lemma_category_mod_occ_index(d.categories);
    lemma_thread_mod_occ_len(d.threads);
    lemma_post_mod_occ_len(d.posts);
    let uids = forum_user_ids(cfg.forum_user_by_id);
    let mids = moderator_ids(cfg.moderator_by_id);
    let cids = category_view_ids(cfg.category_by_id);
    let tids = thread_ids(cfg.thread_by_id);
    let pids = post_view_ids(cfg.post_by_id);
    lemma_seq_max_id_props(uids);
    lemma_seq_max_id_props(mids);
    lemma_seq_max_id_props(cids);
    lemma_seq_max_id_props(tids);
    lemma_seq_max_id_props(pids);
    assert(forall|i: int| 0 <= i < uids.len() ==> uids[i] == i + 1);
    assert(forall|i: int| 0 <= i < mids.len() ==> mids[i] == i + 1);
    assert forall|i: int| 0 <= i < cids.len() implies cids[i] < u64::MAX by {
        assert(cids[i] == d.categories[i].id);
    }
    assert forall|i: int| 0 <= i < tids.len() implies tids[i] < u64::MAX by {
        assert(tids[i] == spec_remap_thread(
            d.threads[i],
            spec_user_registry(d),
            spec_moderator_registry(d),
        ).id);
    }
    assert forall|i: int| 0 <= i < pids.len() implies pids[i] < u64::MAX by {
        assert(pids[i] == spec_remap_post(
            d.posts[i],
            spec_user_registry(d),
            spec_moderator_registry(d),
        ).id);
    }
    if uids.len() > 0 {
        assert(uids.contains(seq_max_id(uids)));
    }
    if mids.len() > 0 {
        assert(mids.contains(seq_max_id(mids)));
    }
    if cids.len() > 0 {
        let j = choose|j: int| 0 <= j < cids.len() && cids[j] == seq_max_id(cids);
        assert(cids[j] < u64::MAX);
    }
    if tids.len() > 0 {
        let j = choose|j: int| 0 <= j < tids.len() && tids[j] == seq_max_id(tids);
        assert(tids[j] < u64::MAX);
    }
    if pids.len() > 0 {
        let j = choose|j: int| 0 <= j < pids.len() && pids[j] == seq_max_id(pids);
        assert(pids[j] < u64::MAX);
    }
}

} // verus!
