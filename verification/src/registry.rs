//! The identity registry: the deduplicating stage of the pipeline.
//!
//! Scanning the snapshot in a fixed order (categories, then threads, then
//! posts), every raw account identifier seen in an author role is assigned a
//! sequential forum-user identity, and every one seen in a moderator role a
//! sequential moderator identity, the first time it is seen; later
//! encounters reuse the identity already assigned.  The two identity spaces
//! are independent counters, each starting at 1.
//!
//! A registry map is represented as the vector of distinct identifiers in
//! first-seen order: the identifier at index `i` holds the numeric identity
//! `i + 1`.

use vstd::prelude::*;
use crate::account::RawAccountId;
use crate::legacy::{ForumData, ForumDataV, LegacyCategory, LegacyModeration, LegacyPostV, LegacyThread};

verus! {

/// The distinct elements of `s` in the order each is first seen.
pub open spec fn first_seen(s: Seq<RawAccountId>) -> Seq<RawAccountId>
    decreases s.len(),
{
    if s.len() == 0 {
        Seq::empty()
    } else {
        let prefix = first_seen(s.drop_last());
        if prefix.contains(s.last()) {
            prefix
        } else {
            prefix.push(s.last())
        }
    }
}

/// `first_seen` keeps exactly the elements of its input.
pub proof fn lemma_first_seen_membership(s: Seq<RawAccountId>)
    ensures
        forall|a: RawAccountId| first_seen(s).contains(a) <==> s.contains(a),
    decreases s.len(),
{
    if s.len() > 0 {
        lemma_first_seen_membership(s.drop_last());
        assert forall|a: RawAccountId| s.contains(a) implies first_seen(s).contains(a) by {
            let i = choose|i: int| 0 <= i < s.len() && s[i] == a;
            if i < s.len() - 1 {
                assert(s.drop_last()[i] == a);
                assert(s.drop_last().contains(a));
                let prefix = first_seen(s.drop_last());
                let j = choose|j: int| 0 <= j < prefix.len() && prefix[j] == a;
                assert(first_seen(s)[j] == a);
            } else {
                let prefix = first_seen(s.drop_last());
                if !prefix.contains(s.last()) {
                    assert(first_seen(s)[prefix.len() as int] == a);
                }
            }
        }
        assert forall|a: RawAccountId| first_seen(s).contains(a) implies s.contains(a) by {
            let prefix = first_seen(s.drop_last());
            let j = choose|j: int| 0 <= j < first_seen(s).len() && first_seen(s)[j] == a;
            if j < prefix.len() {
                assert(prefix[j] == a);
                assert(s.drop_last().contains(a));
                let i = choose|i: int| 0 <= i < s.drop_last().len() && s.drop_last()[i] == a;
                assert(s[i] == a);
            } else {
                assert(s[s.len() - 1] == a);
            }
        }
    }
}

/// `first_seen` never lists an identifier twice.
pub proof fn lemma_first_seen_distinct(s: Seq<RawAccountId>)
    ensures
        forall|i: int, j: int|
            0 <= i < j < first_seen(s).len() ==> first_seen(s)[i] != first_seen(s)[j],
    decreases s.len(),
{
    if s.len() > 0 {
        lemma_first_seen_distinct(s.drop_last());
        let prefix = first_seen(s.drop_last());
        if !prefix.contains(s.last()) {
            assert forall|i: int, j: int|
                0 <= i < j < first_seen(s).len() implies first_seen(s)[i] != first_seen(s)[j] by {
                if j == prefix.len() {
                    assert(first_seen(s)[i] == prefix[i]);
                    assert(prefix.contains(prefix[i]));
                }
            }
        }
    }
}

/// `first_seen` yields at most as many entries as it scanned.
pub proof fn lemma_first_seen_len(s: Seq<RawAccountId>)
    ensures
        first_seen(s).len() <= s.len(),
    decreases s.len(),
{
    if s.len() > 0 {
        lemma_first_seen_len(s.drop_last());
    }
}

/// Scanning one more identifier extends the registry exactly when the
/// identifier is new; whether it is new can equally be read off the registry
/// built so far.
pub proof fn lemma_first_seen_step(s: Seq<RawAccountId>, x: RawAccountId)
    ensures
        first_seen(s).contains(x) <==> s.contains(x),
        first_seen(s.push(x)) == if first_seen(s).contains(x) {
            first_seen(s)
        } else {
            first_seen(s).push(x)
        },
{
    assert(s.push(x).drop_last() =~= s);
    assert(s.push(x).last() == x);
    lemma_first_seen_membership(s);
}

/// The moderator-role occurrences contributed by one optional moderation
/// outcome.
pub open spec fn opt_moderator_occ(m: Option<LegacyModeration>) -> Seq<RawAccountId> {
    match m {
        Option::None => Seq::empty(),
        Option::Some(x) => seq![x.moderator],
    }
}

/// The moderator-role occurrences of a category collection, in scan order.
pub open spec fn category_moderator_occurrences(cs: Seq<LegacyCategory>) -> Seq<RawAccountId>
    decreases cs.len(),
{
    if cs.len() == 0 {
        Seq::empty()
    } else {
        category_moderator_occurrences(cs.drop_last()).push(cs.last().moderator)
    }
}

/// The author-role occurrences of a thread collection, in scan order.
pub open spec fn thread_author_occurrences(ts: Seq<LegacyThread>) -> Seq<RawAccountId>
    decreases ts.len(),
{
    if ts.len() == 0 {
        Seq::empty()
    } else {
        thread_author_occurrences(ts.drop_last()).push(ts.last().author)
    }
}

/// The author-role occurrences of a post collection, in scan order.
pub open spec fn post_author_occurrences(ps: Seq<LegacyPostV>) -> Seq<RawAccountId>
    decreases ps.len(),
{
    if ps.len() == 0 {
        Seq::empty()
    } else {
        post_author_occurrences(ps.drop_last()).push(ps.last().author)
    }
}

/// The moderator-role occurrences of a thread collection, in scan order.
pub open spec fn thread_moderator_occurrences(ts: Seq<LegacyThread>) -> Seq<RawAccountId>
    decreases ts.len(),
{
    if ts.len() == 0 {
        Seq::empty()
    } else {
        thread_moderator_occurrences(ts.drop_last()) + opt_moderator_occ(ts.last().moderation)
    }
}

/// The moderator-role occurrences of a post collection, in scan order.
pub open spec fn post_moderator_occurrences(ps: Seq<LegacyPostV>) -> Seq<RawAccountId>
    decreases ps.len(),
{
    if ps.len() == 0 {
        Seq::empty()
    } else {
        post_moderator_occurrences(ps.drop_last()) + opt_moderator_occ(ps.last().moderation)
    }
}

pub proof fn lemma_category_mod_occ_step(cs: Seq<LegacyCategory>, i: int)
    requires
        0 <= i < cs.len(),
    ensures
        category_moderator_occurrences(cs.take(i + 1)) == category_moderator_occurrences(
            cs.take(i),
        ).push(cs[i].moderator),
{
    assert(cs.take(i + 1).drop_last() =~= cs.take(i));
    assert(cs.take(i + 1).last() == cs[i]);
}

pub proof fn lemma_thread_author_occ_step(ts: Seq<LegacyThread>, i: int)
    requires
        0 <= i < ts.len(),
    ensures
        thread_author_occurrences(ts.take(i + 1)) == thread_author_occurrences(ts.take(i)).push(
            ts[i].author,
        ),
{
    assert(ts.take(i + 1).drop_last() =~= ts.take(i));
    assert(ts.take(i + 1).last() == ts[i]);
}

pub proof fn lemma_post_author_occ_step(ps: Seq<LegacyPostV>, i: int)
    requires
        0 <= i < ps.len(),
    ensures
        post_author_occurrences(ps.take(i + 1)) == post_author_occurrences(ps.take(i)).push(
            ps[i].author,
        ),
{
    assert(ps.take(i + 1).drop_last() =~= ps.take(i));
    assert(ps.take(i + 1).last() == ps[i]);
}

pub proof fn lemma_thread_mod_occ_step(ts: Seq<LegacyThread>, i: int)
    requires
        0 <= i < ts.len(),
    ensures
        thread_moderator_occurrences(ts.take(i + 1)) == thread_moderator_occurrences(ts.take(i))
            + opt_moderator_occ(ts[i].moderation),
{
    assert(ts.take(i + 1).drop_last() =~= ts.take(i));
    assert(ts.take(i + 1).last() == ts[i]);
}

pub proof fn lemma_post_mod_occ_step(ps: Seq<LegacyPostV>, i: int)
    requires
        0 <= i < ps.len(),
    ensures
        post_moderator_occurrences(ps.take(i + 1)) == post_moderator_occurrences(ps.take(i))
            + opt_moderator_occ(ps[i].moderation),
{
    assert(ps.take(i + 1).drop_last() =~= ps.take(i));
    assert(ps.take(i + 1).last() == ps[i]);
}

/// The category occurrence sequence lists exactly the categories'
/// moderators, in order.
pub proof fn lemma_category_mod_occ_index(cs: Seq<LegacyCategory>)
    ensures
        category_moderator_occurrences(cs).len() == cs.len(),
        forall|i: int|
            0 <= i < cs.len() ==> category_moderator_occurrences(cs)[i] == cs[i].moderator,
    decreases cs.len(),
{
    if cs.len() > 0 {
        lemma_category_mod_occ_index(cs.drop_last());
        assert forall|i: int|
            0 <= i < cs.len() implies category_moderator_occurrences(cs)[i]
            == cs[i].moderator by {
            if i < cs.len() - 1 {
                assert(cs.drop_last()[i] == cs[i]);
            }
        }
    }
}

/// The thread author occurrence sequence lists exactly the threads' authors,
/// in order.
pub proof fn lemma_thread_author_occ_index(ts: Seq<LegacyThread>)
    ensures
        thread_author_occurrences(ts).len() == ts.len(),
        forall|i: int| 0 <= i < ts.len() ==> thread_author_occurrences(ts)[i] == ts[i].author,
    decreases ts.len(),
{
    if ts.len() > 0 {
        lemma_thread_author_occ_index(ts.drop_last());
        assert forall|i: int|
            0 <= i < ts.len() implies thread_author_occurrences(ts)[i] == ts[i].author by {
            if i < ts.len() - 1 {
                assert(ts.drop_last()[i] == ts[i]);
            }
        }
    }
}

/// The post author occurrence sequence lists exactly the posts' authors, in
/// order.
pub proof fn lemma_post_author_occ_index(ps: Seq<LegacyPostV>)
    ensures
        post_author_occurrences(ps).len() == ps.len(),
        forall|i: int| 0 <= i < ps.len() ==> post_author_occurrences(ps)[i] == ps[i].author,
    decreases ps.len(),
{
    if ps.len() > 0 {
        lemma_post_author_occ_index(ps.drop_last());
        assert forall|i: int|
            0 <= i < ps.len() implies post_author_occurrences(ps)[i] == ps[i].author by {
            if i < ps.len() - 1 {
                assert(ps.drop_last()[i] == ps[i]);
            }
        }
    }
}

/// A moderated thread's moderator occurs in the thread moderator occurrence
/// sequence.
pub proof fn lemma_thread_mod_occ_contains(ts: Seq<LegacyThread>, i: int)
    requires
        0 <= i < ts.len(),
        ts[i].moderation is Some,
    ensures
        thread_moderator_occurrences(ts).contains(ts[i].moderation.unwrap().moderator),
    decreases ts.len(),
{
    let m = ts[i].moderation.unwrap().moderator;
    let prefix = thread_moderator_occurrences(ts.drop_last());
    if i == ts.len() - 1 {
        assert(thread_moderator_occurrences(ts)[prefix.len() as int] == m);
    } else {
        assert(ts.drop_last()[i] == ts[i]);
        lemma_thread_mod_occ_contains(ts.drop_last(), i);
        let j = choose|j: int| 0 <= j < prefix.len() && prefix[j] == m;
        assert(thread_moderator_occurrences(ts)[j] == m);
    }
}

/// A moderated post's moderator occurs in the post moderator occurrence
/// sequence.
pub proof fn lemma_post_mod_occ_contains(ps: Seq<LegacyPostV>, i: int)
    requires
        0 <= i < ps.len(),
        ps[i].moderation is Some,
    ensures
        post_moderator_occurrences(ps).contains(ps[i].moderation.unwrap().moderator),
    decreases ps.len(),
{
    let m = ps[i].moderation.unwrap().moderator;
    let prefix = post_moderator_occurrences(ps.drop_last());
    if i == ps.len() - 1 {
        assert(post_moderator_occurrences(ps)[prefix.len() as int] == m);
    } else {
        assert(ps.drop_last()[i] == ps[i]);
        lemma_post_mod_occ_contains(ps.drop_last(), i);
        let j = choose|j: int| 0 <= j < prefix.len() && prefix[j] == m;
        assert(post_moderator_occurrences(ps)[j] == m);
    }
}

/// Every author-role occurrence of the snapshot, in scan order: thread
/// authors, then post authors.
pub open spec fn spec_user_occurrences(d: ForumDataV) -> Seq<RawAccountId> {
    thread_author_occurrences(d.threads) + post_author_occurrences(d.posts)
}

/// Every moderator-role occurrence of the snapshot, in scan order: category
/// moderators, then thread moderation outcomes, then post moderation
/// outcomes.
pub open spec fn spec_moderator_occurrences(d: ForumDataV) -> Seq<RawAccountId> {
    category_moderator_occurrences(d.categories) + thread_moderator_occurrences(d.threads)
        + post_moderator_occurrences(d.posts)
}

/// The forum-user map of a snapshot: distinct author-role identifiers in
/// first-seen order; the identifier at index `i` holds identity `i + 1`.
pub open spec fn spec_user_registry(d: ForumDataV) -> Seq<RawAccountId> {
    first_seen(spec_user_occurrences(d))
}

/// The moderator map of a snapshot, analogous to [`spec_user_registry`].
pub open spec fn spec_moderator_registry(d: ForumDataV) -> Seq<RawAccountId> {
    first_seen(spec_moderator_occurrences(d))
}

/// A thread collection contributes at most one moderator occurrence per
/// thread.
pub proof fn lemma_thread_mod_occ_len(ts: Seq<LegacyThread>)
    ensures
        thread_moderator_occurrences(ts).len() <= ts.len(),
    decreases ts.len(),
{
    if ts.len() > 0 {
        lemma_thread_mod_occ_len(ts.drop_last());
    }
}

/// A post collection contributes at most one moderator occurrence per post.
pub proof fn lemma_post_mod_occ_len(ps: Seq<LegacyPostV>)
    ensures
        post_moderator_occurrences(ps).len() <= ps.len(),
    decreases ps.len(),
{
    if ps.len() > 0 {
        lemma_post_mod_occ_len(ps.drop_last());
    }
}

/// The registry maps cover every reference site of the snapshot: every
/// author is in the forum-user map and every moderator in the moderator map.
pub proof fn lemma_registry_covers(d: ForumDataV)
    ensures
        forall|i: int|
            0 <= i < d.threads.len() ==> spec_user_registry(d).contains(#[trigger] d.threads[i].author),
        forall|i: int|
            0 <= i < d.posts.len() ==> spec_user_registry(d).contains(#[trigger] d.posts[i].author),
        forall|i: int|
            0 <= i < d.categories.len() ==> spec_moderator_registry(d).contains(
                #[trigger] d.categories[i].moderator,
            ),
        forall|i: int|
            0 <= i < d.threads.len() && (#[trigger] d.threads[i].moderation) is Some
                ==> spec_moderator_registry(d).contains(d.threads[i].moderation.unwrap().moderator),
        forall|i: int|
            0 <= i < d.posts.len() && (#[trigger] d.posts[i].moderation) is Some
                ==> spec_moderator_registry(d).contains(d.posts[i].moderation.unwrap().moderator),
{
    lemma_first_seen_membership(spec_user_occurrences(d));
    lemma_first_seen_membership(spec_moderator_occurrences(d));
    lemma_thread_author_occ_index(d.threads);
    lemma_post_author_occ_index(d.posts);
    lemma_category_mod_occ_index(d.categories);
    let ta = thread_author_occurrences(d.threads);
    let pa = post_author_occurrences(d.posts);
    let cm = category_moderator_occurrences(d.categories);
    let tm = thread_moderator_occurrences(d.threads);
    let pm = post_moderator_occurrences(d.posts);
    assert forall|i: int|
        0 <= i < d.threads.len() implies spec_user_occurrences(d).contains(
        #[trigger] d.threads[i].author,
    ) by {
        assert(spec_user_occurrences(d)[i] == d.threads[i].author);
    }
    assert forall|i: int|
        0 <= i < d.posts.len() implies spec_user_occurrences(d).contains(
        #[trigger] d.posts[i].author,
    ) by {
        assert(spec_user_occurrences(d)[ta.len() + i] == d.posts[i].author);
    }
    assert forall|i: int|
        0 <= i < d.categories.len() implies spec_moderator_occurrences(d).contains(
        #[trigger] d.categories[i].moderator,
    ) by {
        assert(spec_moderator_occurrences(d)[i] == d.categories[i].moderator);
    }
    assert forall|i: int|
        0 <= i < d.threads.len() && (#[trigger] d.threads[i].moderation) is Some
        implies spec_moderator_occurrences(d).contains(
        d.threads[i].moderation.unwrap().moderator,
    ) by {
        lemma_thread_mod_occ_contains(d.threads, i);
        let m = d.threads[i].moderation.unwrap().moderator;
        let j = choose|j: int| 0 <= j < tm.len() && tm[j] == m;
        assert(spec_moderator_occurrences(d)[cm.len() + j] == m);
    }
    assert forall|i: int|
        0 <= i < d.posts.len() && (#[trigger] d.posts[i].moderation) is Some
        implies spec_moderator_occurrences(d).contains(
        d.posts[i].moderation.unwrap().moderator,
    ) by {
        lemma_post_mod_occ_contains(d.posts, i);
        let m = d.posts[i].moderation.unwrap().moderator;
        let j = choose|j: int| 0 <= j < pm.len() && pm[j] == m;
        assert(spec_moderator_occurrences(d)[cm.len() + tm.len() + j] == m);
    }
}

/// The index of the first occurrence of `a` in `s`.
pub open spec fn spec_first_index(s: Seq<RawAccountId>, a: RawAccountId) -> int
    decreases s.len(),
{
    if s.len() == 0 {
        0
    } else if s[0] == a {
        0
    } else {
        1 + spec_first_index(s.drop_first(), a)
    }
}

/// The numeric identity of `a` in the registry map `s`: one past its
/// first-seen position.
pub open spec fn spec_id_in(s: Seq<RawAccountId>, a: RawAccountId) -> u64 {
    (spec_first_index(s, a) + 1) as u64
}

/// For a present identifier, `spec_first_index` is the least index holding it.
pub proof fn lemma_first_index_bounds(s: Seq<RawAccountId>, a: RawAccountId)
    requires
        s.contains(a),
    ensures
        0 <= spec_first_index(s, a) < s.len(),
        s[spec_first_index(s, a)] == a,
        forall|j: int| 0 <= j < spec_first_index(s, a) ==> s[j] != a,
    decreases s.len(),
{
    if s[0] != a {
        let i = choose|i: int| 0 <= i < s.len() && s[i] == a;
        assert(s.drop_first()[i - 1] == a);
        assert(s.drop_first().contains(a));
        lemma_first_index_bounds(s.drop_first(), a);
        assert forall|j: int| 0 <= j < spec_first_index(s, a) implies s[j] != a by {
            if j > 0 {
                assert(s.drop_first()[j - 1] == s[j]);
            }
        }
    }
}

/// The two deduplicating identity maps of one snapshot.
pub struct IdentityRegistry {
    /// Author-role identifiers in first-seen order; index `i` holds
    /// forum-user identity `i + 1`.
    pub forum_users: Vec<RawAccountId>,
    /// Moderator-role identifiers in first-seen order; index `i` holds
    /// moderator identity `i + 1`.
    pub moderators: Vec<RawAccountId>,
}

/// Whether `v` holds `a`, by exact byte equality.
pub fn contains_account(v: &Vec<RawAccountId>, a: RawAccountId) -> (r: bool)
    ensures
        r == v@.contains(a),
{
    let mut j: usize = 0;
    while j < v.len()
        invariant
            0 <= j <= v@.len(),
            forall|k: int| 0 <= k < j ==> v@[k] != a,
        decreases v@.len() - j,
    {
        if v[j] == a {
            return true;
        }
        j = j + 1;
    }
    false
}

/// Records `a` in the registry map `v` if it is not already present; a
/// re-encounter leaves the map unchanged.
pub fn register_account(v: &mut Vec<RawAccountId>, a: RawAccountId)
    ensures
        final(v)@ == if old(v)@.contains(a) {
            old(v)@
        } else {
            old(v)@.push(a)
        },
{
    if !contains_account(v, a) {
        v.push(a);
    }
}

/// Finds the numeric identity assigned to `a` by the registry map `v`, or
/// `None` if `a` was never registered.
pub fn lookup_id(v: &Vec<RawAccountId>, a: RawAccountId) -> (r: Option<u64>)
    ensures
        r is Some <==> v@.contains(a),
        v@.contains(a) ==> r == Some(spec_id_in(v@, a)),
{
    let mut j: usize = 0;
    while j < v.len()
        invariant
            0 <= j <= v@.len(),
            forall|k: int| 0 <= k < j ==> v@[k] != a,
        decreases v@.len() - j,
    {
        if v[j] == a {
            proof {
                assert(v@.contains(a));
                lemma_first_index_bounds(v@, a);
                assert(spec_first_index(v@, a) == j);
            }
            return Some(j as u64 + 1);
        }
        j = j + 1;
    }
    None
}

impl IdentityRegistry {
    /// The forum-user identity of `a`, if `a` ever acts as an author.
    pub fn forum_user_id(&self, a: RawAccountId) -> (r: Option<u64>)
        ensures
            r is Some <==> self.forum_users@.contains(a),
            self.forum_users@.contains(a) ==> r == Some(spec_id_in(self.forum_users@, a)),
    {
        lookup_id(&self.forum_users, a)
    }

    /// The moderator identity of `a`, if `a` ever acts as a moderator.
    pub fn moderator_id(&self, a: RawAccountId) -> (r: Option<u64>)
        ensures
            r is Some <==> self.moderators@.contains(a),
            self.moderators@.contains(a) ==> r == Some(spec_id_in(self.moderators@, a)),
    {
        lookup_id(&self.moderators, a)
    }
}

/// Builds the two identity maps by scanning the snapshot in the fixed order:
/// every category's moderator; every thread's author, then its moderation
/// outcome's moderator if present; every post's author, then its moderation
/// outcome's moderator if present.
pub fn build_identity_registry(data: &ForumData) -> (r: IdentityRegistry)
    ensures
        r.forum_users@ == spec_user_registry(data@),
        r.moderators@ == spec_moderator_registry(data@),
{
    let ghost d = data@;
    let mut users: Vec<RawAccountId> = Vec::new();
    let mut mods: Vec<RawAccountId> = Vec::new();

    let mut i: usize = 0;
    while i < data.categories.len()
        invariant
            0 <= i <= d.categories.len(),
            d == data@,
            users@ == Seq::<RawAccountId>::empty(),
            mods@ == first_seen(category_moderator_occurrences(d.categories.take(i as int))),
        decreases d.categories.len() - i,
    {
        let ghost seen = category_moderator_occurrences(d.categories.take(i as int));
        register_account(&mut mods, data.categories[i].moderator);
        proof {
            lemma_first_seen_step(seen, d.categories[i as int].moderator);
            lemma_category_mod_occ_step(d.categories, i as int);
        }
        i = i + 1;
    }
    proof {
        assert(d.categories.take(d.categories.len() as int) =~= d.categories);
    }
    let ghost cat_occ = category_moderator_occurrences(d.categories);

    let mut i: usize = 0;
    while i < data.threads.len()
        invariant
            0 <= i <= d.threads.len(),
            d == data@,
            cat_occ == category_moderator_occurrences(d.categories),
            users@ == first_seen(thread_author_occurrences(d.threads.take(i as int))),
            mods@ == first_seen(cat_occ + thread_moderator_occurrences(d.threads.take(i as int))),
        decreases d.threads.len() - i,
    {
        let ghost seen_u = thread_author_occurrences(d.threads.take(i as int));
        let ghost seen_m = cat_occ + thread_moderator_occurrences(d.threads.take(i as int));
        register_account(&mut users, data.threads[i].author);
        proof {
            lemma_first_seen_step(seen_u, d.threads[i as int].author);
            lemma_thread_author_occ_step(d.threads, i as int);
        }
        match &data.threads[i].moderation {
            Some(m) => {
                register_account(&mut mods, m.moderator);
                proof {
                    lemma_first_seen_step(seen_m, d.threads[i as int].moderation.unwrap().moderator);
                    lemma_thread_mod_occ_step(d.threads, i as int);
                    assert(seen_m.push(d.threads[i as int].moderation.unwrap().moderator) =~= cat_occ
                        + thread_moderator_occurrences(d.threads.take(i as int + 1)));
                }
            },
            None => {
                proof {
                    lemma_thread_mod_occ_step(d.threads, i as int);
                    assert(seen_m =~= cat_occ + thread_moderator_occurrences(
                        d.threads.take(i as int + 1),
                    ));
                }
            },
        }
        i = i + 1;
    }
    proof {
        assert(d.threads.take(d.threads.len() as int) =~= d.threads);
    }
    let ghost thread_authors = thread_author_occurrences(d.threads);
    let ghost mod_occ_2 = cat_occ + thread_moderator_occurrences(d.threads);

    let mut i: usize = 0;
    while i < data.posts.len()
        invariant
            0 <= i <= d.posts.len(),
            d == data@,
            thread_authors == thread_author_occurrences(d.threads),
            mod_occ_2 == category_moderator_occurrences(d.categories)
                + thread_moderator_occurrences(d.threads),
            users@ == first_seen(thread_authors + post_author_occurrences(d.posts.take(i as int))),
            mods@ == first_seen(mod_occ_2 + post_moderator_occurrences(d.posts.take(i as int))),
        decreases d.posts.len() - i,
    {
        let ghost seen_u = thread_authors + post_author_occurrences(d.posts.take(i as int));
        let ghost seen_m = mod_occ_2 + post_moderator_occurrences(d.posts.take(i as int));
        proof {
            assert(d.posts[i as int] == data.posts@[i as int]@);
        }
        register_account(&mut users, data.posts[i].author);
        proof {
            lemma_first_seen_step(seen_u, d.posts[i as int].author);
            lemma_post_author_occ_step(d.posts, i as int);
            assert(seen_u.push(d.posts[i as int].author) =~= thread_authors
                + post_author_occurrences(d.posts.take(i as int + 1)));
        }
        match &data.posts[i].moderation {
            Some(m) => {
                register_account(&mut mods, m.moderator);
                proof {
                    lemma_first_seen_step(seen_m, d.posts[i as int].moderation.unwrap().moderator);
                    lemma_post_mod_occ_step(d.posts, i as int);
                    assert(seen_m.push(d.posts[i as int].moderation.unwrap().moderator) =~= mod_occ_2
                        + post_moderator_occurrences(d.posts.take(i as int + 1)));
                }
            },
            None => {
                proof {
                    lemma_post_mod_occ_step(d.posts, i as int);
                    assert(seen_m =~= mod_occ_2 + post_moderator_occurrences(
                        d.posts.take(i as int + 1),
                    ));
                }
            },
        }
        i = i + 1;
    }
    proof {
        assert(d.posts.take(d.posts.len() as int) =~= d.posts);
        assert(thread_authors + post_author_occurrences(d.posts) == spec_user_occurrences(d));
        assert(mod_occ_2 + post_moderator_occurrences(d.posts) == spec_moderator_occurrences(d));
    }

    IdentityRegistry { forum_users: users, moderators: mods }
}

} // verus!
