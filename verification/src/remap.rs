//! The entity remapper: rewrites every author and moderator reference from a
//! raw account identifier to the numeric identity assigned by the identity
//! registry, copying every other domain field verbatim, and synthesizes the
//! forum-user and moderator records themselves.

use vstd::prelude::*;
use crate::account::RawAccountId;
use crate::entities::{
    Category, CategoryV, ForumUser, Moderation, Moderator, Post, PostV, Thread,
    lemma_views_categories_push, lemma_views_posts_push, views_of_categories, views_of_posts,
};
use crate::legacy::{ForumData, LegacyCategory, LegacyModeration, LegacyPost, LegacyPostV, LegacyThread};
use crate::registry::{
    IdentityRegistry, build_identity_registry, lemma_registry_covers, lookup_id, spec_id_in,
    spec_moderator_registry, spec_user_registry,
};

verus! {

/// A reference to an account that the relevant identity map does not hold.
/// This can only arise from a registry that was not built by scanning the
/// same snapshot; it names the entity and the account that triggered it.
#[derive(Clone, Copy, Debug, PartialEq, Eq, Structural)]
pub enum RemapError {
    /// An author reference of the named entity is missing from the
    /// forum-user map.
    UnknownAuthor { entity_id: u64, account: RawAccountId },
    /// A moderation outcome's moderator reference of the named entity is
    /// missing from the moderator map.
    UnknownModerator { entity_id: u64, account: RawAccountId },
}

/// A remapped moderation outcome: the moderator reference replaced by its
/// numeric identity, everything else verbatim.
pub open spec fn spec_remap_moderation(
    m: Option<LegacyModeration>,
    mods: Seq<RawAccountId>,
) -> Option<Moderation> {
    match m {
        Option::None => Option::None,
        Option::Some(x) => Option::Some(
            Moderation {
                moderator_id: spec_id_in(mods, x.moderator),
                rationale: x.rationale,
                action_kind: x.action_kind,
                at: x.at,
            },
        ),
    }
}

/// A remapped category: hierarchy, counters, flags and timestamps carry
/// over; the moderator reference is dropped (categories are not
/// author-attributed in the target schema) and stickied threads start empty.
pub open spec fn spec_remap_category(c: LegacyCategory) -> CategoryV {
    CategoryV {
        id: c.id,
        title: c.title,
        description: c.description,
        created_at: c.created_at,
        deleted: c.deleted,
        archived: c.archived,
        num_direct_subcategories: c.num_direct_subcategories,
        num_direct_unmoderated_threads: c.num_direct_unmoderated_threads,
        num_direct_moderated_threads: c.num_direct_moderated_threads,
        position_in_parent_category: c.position_in_parent_category,
        sticky_thread_ids: Seq::empty(),
    }
}

pub open spec fn spec_remap_categories(cs: Seq<LegacyCategory>) -> Seq<CategoryV> {
    cs.map_values(|c: LegacyCategory| spec_remap_category(c))
}

/// A remapped thread: the author reference replaced by its forum-user
/// identity, the moderation outcome's moderator by its moderator identity,
/// everything else verbatim.
pub open spec fn spec_remap_thread(
    t: LegacyThread,
    users: Seq<RawAccountId>,
    mods: Seq<RawAccountId>,
) -> Thread {
    Thread {
        id: t.id,
        category_id: t.category_id,
        author_id: spec_id_in(users, t.author),
        moderation: spec_remap_moderation(t.moderation, mods),
        title: t.title,
        created_at: t.created_at,
    }
}

pub open spec fn spec_remap_threads(
    ts: Seq<LegacyThread>,
    users: Seq<RawAccountId>,
    mods: Seq<RawAccountId>,
) -> Seq<Thread> {
    ts.map_values(|t: LegacyThread| spec_remap_thread(t, users, mods))
}

/// A remapped post, following the same pattern as threads.
pub open spec fn spec_remap_post(
    p: LegacyPostV,
    users: Seq<RawAccountId>,
    mods: Seq<RawAccountId>,
) -> PostV {
    PostV {
        id: p.id,
        thread_id: p.thread_id,
        author_id: spec_id_in(users, p.author),
        text: p.text,
        edit_history: p.edit_history,
        moderation: spec_remap_moderation(p.moderation, mods),
        created_at: p.created_at,
    }
}

pub open spec fn spec_remap_posts(
    ps: Seq<LegacyPostV>,
    users: Seq<RawAccountId>,
    mods: Seq<RawAccountId>,
) -> Seq<PostV> {
    ps.map_values(|p: LegacyPostV| spec_remap_post(p, users, mods))
}

/// The forum-user records synthesized from a registry map: entry `i` carries
/// identity `i + 1` and the account it stands for, so the collection is
/// ordered by ascending identity.
pub open spec fn spec_forum_users(s: Seq<RawAccountId>) -> Seq<ForumUser> {
    Seq::new(s.len(), |i: int| ForumUser { id: (i + 1) as u64, account: s[i] })
}

/// The moderator records synthesized from a registry map, as for
/// [`spec_forum_users`].
pub open spec fn spec_moderators(s: Seq<RawAccountId>) -> Seq<Moderator> {
    Seq::new(s.len(), |i: int| Moderator { id: (i + 1) as u64, account: s[i] })
}

/// Whether the identity maps hold every reference of the thread collection.
pub open spec fn threads_covered(
    ts: Seq<LegacyThread>,
    users: Seq<RawAccountId>,
    mods: Seq<RawAccountId>,
) -> bool {
    forall|i: int|
        0 <= i < ts.len() ==> users.contains(#[trigger] ts[i].author) && (ts[i].moderation is Some
            ==> mods.contains(ts[i].moderation.unwrap().moderator))
}

/// Whether the identity maps hold every reference of the post collection.
pub open spec fn posts_covered(
    ps: Seq<LegacyPostV>,
    users: Seq<RawAccountId>,
    mods: Seq<RawAccountId>,
) -> bool {
    forall|i: int|
        0 <= i < ps.len() ==> users.contains(#[trigger] ps[i].author) && (ps[i].moderation is Some
            ==> mods.contains(ps[i].moderation.unwrap().moderator))
}

/// Whether `e` names an entity of the thread collection together with a
/// reference of that entity that the identity maps miss.
pub open spec fn error_names_missing_thread_ref(
    e: RemapError,
    ts: Seq<LegacyThread>,
    users: Seq<RawAccountId>,
    mods: Seq<RawAccountId>,
) -> bool {
    match e {
        RemapError::UnknownAuthor { entity_id, account } => exists|i: int|
            0 <= i < ts.len() && (#[trigger] ts[i]).id == entity_id && ts[i].author == account
                && !users.contains(account),
        RemapError::UnknownModerator { entity_id, account } => exists|i: int|
            0 <= i < ts.len() && (#[trigger] ts[i]).id == entity_id && ts[i].moderation is Some
                && ts[i].moderation.unwrap().moderator == account && !mods.contains(account),
    }
}

/// Whether `e` names an entity of the post collection together with a
/// reference of that entity that the identity maps miss.
pub open spec fn error_names_missing_post_ref(
    e: RemapError,
    ps: Seq<LegacyPostV>,
    users: Seq<RawAccountId>,
    mods: Seq<RawAccountId>,
) -> bool {
    match e {
        RemapError::UnknownAuthor { entity_id, account } => exists|i: int|
            0 <= i < ps.len() && (#[trigger] ps[i]).id == entity_id && ps[i].author == account
                && !users.contains(account),
        RemapError::UnknownModerator { entity_id, account } => exists|i: int|
            0 <= i < ps.len() && (#[trigger] ps[i]).id == entity_id && ps[i].moderation is Some
                && ps[i].moderation.unwrap().moderator == account && !mods.contains(account),
    }
}

/// Remaps the category collection.  Categories reference no account in the
/// target schema, so this is total.
pub fn remap_categories(cs: &Vec<LegacyCategory>) -> (r: Vec<Category>)
    ensures
        views_of_categories(r@) == spec_remap_categories(cs@),
{
    let mut out: Vec<Category> = Vec::new();
    let mut i: usize = 0;
    while i < cs.len()
        invariant
            0 <= i <= cs@.len(),
            views_of_categories(out@) == spec_remap_categories(cs@.take(i as int)),
        decreases cs@.len() - i,
    {
        let c = &cs[i];
        let mapped = Category {
            id: c.id,
            title: c.title.clone(),
            description: c.description.clone(),
            created_at: c.created_at,
            deleted: c.deleted,
            archived: c.archived,
            num_direct_subcategories: c.num_direct_subcategories,
            num_direct_unmoderated_threads: c.num_direct_unmoderated_threads,
            num_direct_moderated_threads: c.num_direct_moderated_threads,
            position_in_parent_category: c.position_in_parent_category,
            sticky_thread_ids: Vec::new(),
        };
        proof {
            assert(mapped@ =~= spec_remap_category(cs@[i as int]));
        }
        let ghost prev = out@;
        out.push(mapped);
        proof {
            lemma_views_categories_push(prev, mapped);
            assert(spec_remap_categories(cs@.take(i as int + 1)) =~= spec_remap_categories(
                cs@.take(i as int),
            ).push(spec_remap_category(cs@[i as int])));
        }
        i = i + 1;
    }
    proof {
        assert(cs@.take(cs@.len() as int) =~= cs@);
    }
    out
}

/// Remaps the moderation outcome of one entity, if any; `entity_id` only
/// serves to name the entity in the error.
fn remap_moderation(
    m: &Option<LegacyModeration>,
    entity_id: u64,
    registry: &IdentityRegistry,
) -> (r: Result<Option<Moderation>, RemapError>)
    ensures
        r is Ok <==> (m is Some ==> registry.moderators@.contains(m.unwrap().moderator)),
        r is Ok ==> r.unwrap() == spec_remap_moderation(*m, registry.moderators@),
        r is Err ==> r.get_Err_0() == (RemapError::UnknownModerator {
            entity_id,
            account: m.unwrap().moderator,
        }) && m is Some && !registry.moderators@.contains(m.unwrap().moderator),
{
    match m {
        None => Ok(None),
        Some(x) => {
            match lookup_id(&registry.moderators, x.moderator) {
                Some(mid) => Ok(
                    Some(
                        Moderation {
                            moderator_id: mid,
                            rationale: x.rationale.clone(),
                            action_kind: x.action_kind,
                            at: x.at,
                        },
                    ),
                ),
                None => Err(RemapError::UnknownModerator { entity_id, account: x.moderator }),
            }
        },
    }
}

/// Remaps the thread collection, replacing each author reference by its
/// forum-user identity and each moderation outcome's moderator reference by
/// its moderator identity.  Fails exactly when some reference is missing
/// from the relevant identity map, naming the first such entity.
pub fn remap_threads(ts: &Vec<LegacyThread>, registry: &IdentityRegistry) -> (r: Result<
    Vec<Thread>,
    RemapError,
>)
    ensures
        r is Ok ==> threads_covered(ts@, registry.forum_users@, registry.moderators@),
        threads_covered(ts@, registry.forum_users@, registry.moderators@) ==> r is Ok,
        r is Ok ==> r.unwrap()@ == spec_remap_threads(
            ts@,
            registry.forum_users@,
            registry.moderators@,
        ),
        r is Err ==> error_names_missing_thread_ref(
            r.get_Err_0(),
            ts@,
            registry.forum_users@,
            registry.moderators@,
        ),
{
    let ghost users = registry.forum_users@;
    let ghost mods = registry.moderators@;
    let mut out: Vec<Thread> = Vec::new();
    let mut i: usize = 0;
    while i < ts.len()
        invariant
            0 <= i <= ts@.len(),
            users == registry.forum_users@,
            mods == registry.moderators@,
            out@ == spec_remap_threads(ts@.take(i as int), users, mods),
            forall|j: int|
                0 <= j < i ==> users.contains(#[trigger] ts@[j].author) && (ts@[j].moderation
                    is Some ==> mods.contains(ts@[j].moderation.unwrap().moderator)),
        decreases ts@.len() - i,
    {
        let t = &ts[i];
        let author_id = match lookup_id(&registry.forum_users, t.author) {
            Some(uid) => uid,
            None => {
                return Err(RemapError::UnknownAuthor { entity_id: t.id, account: t.author });
            },
        };
        let moderation = match remap_moderation(&t.moderation, t.id, registry) {
            Ok(m) => m,
            Err(e) => {
                return Err(e);
            },
        };
        let mapped = Thread {
            id: t.id,
            category_id: t.category_id,
            author_id,
            moderation,
            title: t.title.clone(),
            created_at: t.created_at,
        };
        let ghost prev = out@;
        out.push(mapped);
        proof {
            assert forall|j: int| 0 <= j < i + 1 implies users.contains(
                #[trigger] ts@[j].author,
            ) && (ts@[j].moderation is Some ==> mods.contains(
                ts@[j].moderation.unwrap().moderator,
            )) by {
                if j == i {
                    assert(users.contains(ts@[j].author));
                    assert(ts@[j].moderation is Some ==> mods.contains(
                        ts@[j].moderation.unwrap().moderator,
                    ));
                }
            }
            assert(mapped == spec_remap_thread(ts@[i as int], users, mods));
            assert(spec_remap_threads(ts@.take(i as int + 1), users, mods) =~= spec_remap_threads(
                ts@.take(i as int),
                users,
                mods,
            ).push(spec_remap_thread(ts@[i as int], users, mods)));
        }
        i = i + 1;
    }
    proof {
        assert(ts@.take(ts@.len() as int) =~= ts@);
    }
    Ok(out)
}

/// Remaps the post collection, following the same pattern as threads.
pub fn remap_posts(ps: &Vec<LegacyPost>, registry: &IdentityRegistry) -> (r: Result<
    Vec<Post>,
    RemapError,
>)
    ensures
        r is Ok ==> posts_covered(
            crate::legacy::views_of_legacy_posts(ps@),
            registry.forum_users@,
            registry.moderators@,
        ),
        posts_covered(
            crate::legacy::views_of_legacy_posts(ps@),
            registry.forum_users@,
            registry.moderators@,
        ) ==> r is Ok,
        r is Ok ==> views_of_posts(r.unwrap()@) == spec_remap_posts(
            crate::legacy::views_of_legacy_posts(ps@),
            registry.forum_users@,
            registry.moderators@,
        ),
        r is Err ==> error_names_missing_post_ref(
            r.get_Err_0(),
            crate::legacy::views_of_legacy_posts(ps@),
            registry.forum_users@,
            registry.moderators@,
        ),
{
    let ghost pv = crate::legacy::views_of_legacy_posts(ps@);
    let ghost users = registry.forum_users@;
    let ghost mods = registry.moderators@;
    let mut out: Vec<Post> = Vec::new();
    let mut i: usize = 0;
    while i < ps.len()
        invariant
            0 <= i <= ps@.len(),
            pv == crate::legacy::views_of_legacy_posts(ps@),
            pv.len() == ps@.len(),
            users == registry.forum_users@,
            mods == registry.moderators@,
            views_of_posts(out@) == spec_remap_posts(pv.take(i as int), users, mods),
            forall|j: int|
                0 <= j < i ==> users.contains(#[trigger] pv[j].author) && (pv[j].moderation
                    is Some ==> mods.contains(pv[j].moderation.unwrap().moderator)),
        decreases ps@.len() - i,
    {
        let p = &ps[i];
        proof {
            assert(pv[i as int] == ps@[i as int]@);
        }
        let author_id = match lookup_id(&registry.forum_users, p.author) {
            Some(uid) => uid,
            None => {
                return Err(RemapError::UnknownAuthor { entity_id: p.id, account: p.author });
            },
        };
        let moderation = match remap_moderation(&p.moderation, p.id, registry) {
            Ok(m) => m,
            Err(e) => {
                return Err(e);
            },
        };
        let mut edit_history: Vec<crate::legacy::PostTextEdit> = Vec::new();
        let mut k: usize = 0;
        while k < p.edit_history.len()
            invariant
                0 <= k <= p.edit_history@.len(),
                edit_history@ == p.edit_history@.take(k as int),
            decreases p.edit_history@.len() - k,
        {
            let e = &p.edit_history[k];
            edit_history.push(crate::legacy::PostTextEdit { text: e.text.clone(), at: e.at });
            proof {
                assert(edit_history@ =~= p.edit_history@.take(k as int + 1));
            }
            k = k + 1;
        }
        proof {
            assert(edit_history@ =~= p.edit_history@);
        }
        let mapped = Post {
            id: p.id,
            thread_id: p.thread_id,
            author_id,
            text: p.text.clone(),
            edit_history,
            moderation,
            created_at: p.created_at,
        };
        let ghost prev = out@;
        out.push(mapped);
        proof {
            assert forall|j: int| 0 <= j < i + 1 implies users.contains(
                #[trigger] pv[j].author,
            ) && (pv[j].moderation is Some ==> mods.contains(
                pv[j].moderation.unwrap().moderator,
            )) by {
                if j == i {
                    assert(users.contains(pv[j].author));
                    assert(pv[j].moderation is Some ==> mods.contains(
                        pv[j].moderation.unwrap().moderator,
                    ));
                }
            }
            assert(mapped@ =~= spec_remap_post(pv[i as int], users, mods));
            lemma_views_posts_push(prev, mapped);
            assert(spec_remap_posts(pv.take(i as int + 1), users, mods) =~= spec_remap_posts(
                pv.take(i as int),
                users,
                mods,
            ).push(spec_remap_post(pv[i as int], users, mods)));
        }
        i = i + 1;
    }
    proof {
        assert(pv.take(pv.len() as int) =~= pv);
    }
    Ok(out)
}

/// Synthesizes the forum-user records from the forum-user map, in ascending
/// identity order.
pub fn build_forum_users(accounts: &Vec<RawAccountId>) -> (r: Vec<ForumUser>)
    ensures
        r@ == spec_forum_users(accounts@),
{
    let mut out: Vec<ForumUser> = Vec::new();
    let mut i: usize = 0;
    while i < accounts.len()
        invariant
            0 <= i <= accounts@.len(),
            out@ == spec_forum_users(accounts@.take(i as int)),
        decreases accounts@.len() - i,
    {
        out.push(ForumUser { id: i as u64 + 1, account: accounts[i] });
        proof {
            assert(out@ =~= spec_forum_users(accounts@.take(i as int + 1)));
        }
        i = i + 1;
    }
    proof {
        assert(accounts@.take(accounts@.len() as int) =~= accounts@);
        assert(out@ =~= spec_forum_users(accounts@));
    }
    out
}

/// Synthesizes the moderator records from the moderator map, in ascending
/// identity order.
pub fn build_moderators(accounts: &Vec<RawAccountId>) -> (r: Vec<Moderator>)
    ensures
        r@ == spec_moderators(accounts@),
{
    let mut out: Vec<Moderator> = Vec::new();
    let mut i: usize = 0;
    while i < accounts.len()
        invariant
            0 <= i <= accounts@.len(),
            out@ == spec_moderators(accounts@.take(i as int)),
        decreases accounts@.len() - i,
    {
        out.push(Moderator { id: i as u64 + 1, account: accounts[i] });
        proof {
            assert(out@ =~= spec_moderators(accounts@.take(i as int + 1)));
        }
        i = i + 1;
    }
    proof {
        assert(accounts@.take(accounts@.len() as int) =~= accounts@);
        assert(out@ =~= spec_moderators(accounts@));
    }
    out
}

/// The full output of the entity remapper.
pub struct RemappedForum {
    pub categories: Vec<Category>,
    pub threads: Vec<Thread>,
    pub posts: Vec<Post>,
    pub forum_users: Vec<ForumUser>,
    pub moderators: Vec<Moderator>,
}

/// Remaps the three entity collections against the given identity maps and
/// synthesizes the user and moderator records.  Fails exactly when some
/// reference is missing from the relevant map, naming the entity that
/// triggered it; a registry built by scanning the same snapshot never fails.
pub fn remap(
    categories: &Vec<LegacyCategory>,
    threads: &Vec<LegacyThread>,
    posts: &Vec<LegacyPost>,
    registry: &IdentityRegistry,
) -> (r: Result<RemappedForum, RemapError>)
    ensures
        r is Ok ==> threads_covered(threads@, registry.forum_users@, registry.moderators@)
            && posts_covered(
            crate::legacy::views_of_legacy_posts(posts@),
            registry.forum_users@,
            registry.moderators@,
        ),
        threads_covered(threads@, registry.forum_users@, registry.moderators@) && posts_covered(
            crate::legacy::views_of_legacy_posts(posts@),
            registry.forum_users@,
            registry.moderators@,
        ) ==> r is Ok,
        r is Ok ==> {
            let out = r.unwrap();
            &&& views_of_categories(out.categories@) == spec_remap_categories(categories@)
            &&& out.threads@ == spec_remap_threads(
                threads@,
                registry.forum_users@,
                registry.moderators@,
            )
            &&& views_of_posts(out.posts@) == spec_remap_posts(
                crate::legacy::views_of_legacy_posts(posts@),
                registry.forum_users@,
                registry.moderators@,
            )
            &&& out.forum_users@ == spec_forum_users(registry.forum_users@)
            &&& out.moderators@ == spec_moderators(registry.moderators@)
        },
        r is Err ==> error_names_missing_thread_ref(
            r.get_Err_0(),
            threads@,
            registry.forum_users@,
            registry.moderators@,
        ) || error_names_missing_post_ref(
            r.get_Err_0(),
            crate::legacy::views_of_legacy_posts(posts@),
            registry.forum_users@,
            registry.moderators@,
        ),
{
    let categories_out = remap_categories(categories);
    let threads_out = match remap_threads(threads, registry) {
        Ok(v) => v,
        Err(e) => {
            return Err(e);
        },
    };
    let posts_out = match remap_posts(posts, registry) {
        Ok(v) => v,
        Err(e) => {
            return Err(e);
        },
    };
    let forum_users = build_forum_users(&registry.forum_users);
    let moderators = build_moderators(&registry.moderators);
    Ok(
        RemappedForum {
            categories: categories_out,
            threads: threads_out,
            posts: posts_out,
            forum_users,
            moderators,
        },
    )
}

/// Runs the registry scan and the remapper on one snapshot: the adaptation
/// pipeline short of final assembly.  Returns, in order, the synthesized
/// forum users and moderators and the remapped categories, threads and
/// posts.  The registry is built from the same snapshot, so every reference
/// is covered and the remap cannot fail.
pub fn parse_data(data: ForumData) -> (r: (
    Vec<ForumUser>,
    Vec<Moderator>,
    Vec<Category>,
    Vec<Thread>,
    Vec<Post>,
))
    ensures
        r.0@ == spec_forum_users(spec_user_registry(data@)),
        r.1@ == spec_moderators(spec_moderator_registry(data@)),
        views_of_categories(r.2@) == spec_remap_categories(data@.categories),
        r.3@ == spec_remap_threads(
            data@.threads,
            spec_user_registry(data@),
            spec_moderator_registry(data@),
        ),
        views_of_posts(r.4@) == spec_remap_posts(
            data@.posts,
            spec_user_registry(data@),
            spec_moderator_registry(data@),
        ),
{
    let registry = build_identity_registry(&data);
    proof {
        lemma_registry_covers(data@);
    }
    match remap(&data.categories, &data.threads, &data.posts, &registry) {
        Ok(out) => (out.forum_users, out.moderators, out.categories, out.threads, out.posts),
        Err(_) => {
            proof {
                assert(false);
            }
            unreached()
        },
    }
}

} // verus!
