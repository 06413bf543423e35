use forum_config::account::RawAccountId;
use forum_config::config::adapt_forum_config;
use forum_config::config::new_validation;
use forum_config::legacy::{
    BlockchainTimestamp, ChildPosition, ForumData, LegacyCategory, LegacyModeration, LegacyPost,
    LegacyThread, PostTextEdit,
};

fn acc(n: u64) -> RawAccountId {
    RawAccountId { w0: n, w1: 0, w2: 0, w3: 0 }
}

fn stamp(block: u64, time: u64) -> BlockchainTimestamp {
    BlockchainTimestamp { block, time }
}

fn category(id: u64, moderator: RawAccountId) -> LegacyCategory {
    LegacyCategory {
        id,
        title: format!("category {}", id),
        description: format!("description {}", id),
        created_at: stamp(10 + id, 1000 + id),
        deleted: false,
        archived: false,
        num_direct_subcategories: 0,
        num_direct_unmoderated_threads: 1,
        num_direct_moderated_threads: 0,
        position_in_parent_category: None,
        moderator,
    }
}

fn thread(id: u64, category_id: u64, author: RawAccountId) -> LegacyThread {
    LegacyThread {
        id,
        category_id,
        author,
        moderation: None,
        title: format!("thread {}", id),
        created_at: stamp(20 + id, 2000 + id),
    }
}

fn post(id: u64, thread_id: u64, author: RawAccountId) -> LegacyPost {
    LegacyPost {
        id,
        thread_id,
        author,
        text: format!("post {}", id),
        edit_history: vec![],
        moderation: None,
        created_at: stamp(30 + id, 3000 + id),
    }
}

#[test]
fn end_to_end_single_entities() {
    let m1 = acc(100);
    let a1 = acc(200);
    let data = ForumData {
        categories: vec![category(1, m1)],
        threads: vec![thread(1, 1, a1)],
        posts: vec![post(1, 1, a1)],
    };
    let cfg = adapt_forum_config(acc(1), data);

    assert_eq!(cfg.forum_user_by_id.len(), 1);
    assert_eq!(cfg.forum_user_by_id[0].id, 1);
    assert_eq!(cfg.forum_user_by_id[0].account, a1);
    assert_eq!(cfg.moderator_by_id.len(), 1);
    assert_eq!(cfg.moderator_by_id[0].id, 1);
    assert_eq!(cfg.moderator_by_id[0].account, m1);
    assert_eq!(cfg.thread_by_id[0].author_id, 1);
    assert_eq!(cfg.post_by_id[0].author_id, 1);
    assert_eq!(cfg.next_forum_user_id, 2);
    assert_eq!(cfg.next_moderator_id, 2);
}

#[test]
fn two_threads_same_author() {
    let a1 = acc(7);
    let data = ForumData {
        categories: vec![],
        threads: vec![thread(1, 1, a1), thread(2, 1, a1)],
        posts: vec![],
    };
    let cfg = adapt_forum_config(acc(1), data);

    assert_eq!(cfg.thread_by_id[0].author_id, 1);
    assert_eq!(cfg.thread_by_id[1].author_id, 1);
    assert_eq!(cfg.next_forum_user_id, 2);
    assert_eq!(cfg.forum_user_by_id.len(), 1);
}

#[test]
fn fifty_posts_same_author_one_identity() {
    let a = acc(42);
    let mut posts = Vec::new();
    for i in 0..50 {
        posts.push(post(i + 1, 1, a));
    }
    let data = ForumData { categories: vec![], threads: vec![], posts };
    let cfg = adapt_forum_config(acc(1), data);

    assert_eq!(cfg.forum_user_by_id.len(), 1);
    assert_eq!(cfg.forum_user_by_id[0].account, a);
    for p in &cfg.post_by_id {
        assert_eq!(p.author_id, 1);
    }
    assert_eq!(cfg.next_forum_user_id, 2);
}

#[test]
fn same_account_in_both_roles_gets_independent_ids() {
    let x = acc(5);
    let other = acc(6);
    // x moderates the category (first moderator seen: moderator id 1) and
    // authors the second thread (second author seen: forum-user id 2).
    let data = ForumData {
        categories: vec![category(1, x)],
        threads: vec![thread(1, 1, other), thread(2, 1, x)],
        posts: vec![],
    };
    let cfg = adapt_forum_config(acc(1), data);

    assert_eq!(cfg.moderator_by_id.len(), 1);
    assert_eq!(cfg.moderator_by_id[0].account, x);
    assert_eq!(cfg.moderator_by_id[0].id, 1);
    assert_eq!(cfg.forum_user_by_id.len(), 2);
    assert_eq!(cfg.forum_user_by_id[1].account, x);
    assert_eq!(cfg.forum_user_by_id[1].id, 2);
    assert_eq!(cfg.thread_by_id[1].author_id, 2);
}

fn sample_snapshot() -> ForumData {
    let m1 = acc(100);
    let m2 = acc(101);
    let a1 = acc(200);
    let a2 = acc(201);
    let mut t = thread(1, 1, a1);
    t.moderation = Some(LegacyModeration {
        moderator: m2,
        rationale: "off topic".to_string(),
        action_kind: 3,
        at: stamp(55, 5500),
    });
    let mut p = post(1, 1, a2);
    p.edit_history = vec![PostTextEdit { text: "first draft".to_string(), at: stamp(31, 3100) }];
    ForumData {
        categories: vec![category(1, m1), category(2, m2)],
        threads: vec![t, thread(2, 2, a2)],
        posts: vec![p, post(2, 2, a1)],
    }
}

#[test]
fn pipeline_is_deterministic() {
    let cfg1 = adapt_forum_config(acc(9), sample_snapshot());
    let cfg2 = adapt_forum_config(acc(9), sample_snapshot());
    assert_eq!(cfg1, cfg2);
}

#[test]
fn constraint_table_matches() {
    let data = ForumData { categories: vec![], threads: vec![], posts: vec![] };
    let cfg = adapt_forum_config(acc(1), data);

    assert_eq!((cfg.category_title_constraint.min, cfg.category_title_constraint.max_min_diff), (10, 140));
    assert_eq!((cfg.category_description_constraint.min, cfg.category_description_constraint.max_min_diff), (10, 140));
    assert_eq!((cfg.thread_title_constraint.min, cfg.thread_title_constraint.max_min_diff), (3, 43));
    assert_eq!((cfg.post_text_constraint.min, cfg.post_text_constraint.max_min_diff), (1, 1001));
    assert_eq!((cfg.thread_moderation_rationale_constraint.min, cfg.thread_moderation_rationale_constraint.max_min_diff), (10, 2000));
    assert_eq!((cfg.post_moderation_rationale_constraint.min, cfg.post_moderation_rationale_constraint.max_min_diff), (10, 2000));
    assert_eq!((cfg.label_name_constraint.min, cfg.label_name_constraint.max_min_diff), (10, 20));
    assert_eq!((cfg.poll_desc_constraint.min, cfg.poll_desc_constraint.max_min_diff), (10, 200));
    assert_eq!((cfg.poll_items_constraint.min, cfg.poll_items_constraint.max_min_diff), (4, 20));
    assert_eq!((cfg.user_name_constraint.min, cfg.user_name_constraint.max_min_diff), (6, 20));
    assert_eq!((cfg.user_self_introduction_constraint.min, cfg.user_self_introduction_constraint.max_min_diff), (10, 200));
    assert_eq!((cfg.post_footer_constraint.min, cfg.post_footer_constraint.max_min_diff), (10, 140));
    assert_eq!(cfg.max_category_depth, 5);
    assert_eq!(cfg.max_applied_labels, 5);
    assert_eq!(cfg.next_label_id, 1);
    assert!(cfg.label_by_id.is_empty());
    assert!(cfg.category_labels.is_empty());
    assert!(cfg.thread_labels.is_empty());
    assert!(cfg.category_by_moderator.is_empty());
    assert!(cfg.reaction_by_post.is_empty());
}

#[test]
fn empty_snapshot_yields_unit_counters() {
    let data = ForumData { categories: vec![], threads: vec![], posts: vec![] };
    let admin = acc(77);
    let cfg = adapt_forum_config(admin, data);

    assert_eq!(cfg.next_forum_user_id, 1);
    assert_eq!(cfg.next_moderator_id, 1);
    assert_eq!(cfg.next_category_id, 1);
    assert_eq!(cfg.next_thread_id, 1);
    assert_eq!(cfg.next_post_id, 1);
    assert!(cfg.forum_user_by_id.is_empty());
    assert!(cfg.moderator_by_id.is_empty());
    assert!(cfg.category_by_id.is_empty());
    assert!(cfg.thread_by_id.is_empty());
    assert!(cfg.post_by_id.is_empty());
    assert_eq!(cfg.forum_sudo, admin);
}

#[test]
fn next_ids_are_one_past_the_maximum() {
    let m = acc(1);
    let a = acc(2);
    let data = ForumData {
        categories: vec![category(3, m), category(7, m)],
        threads: vec![thread(10, 3, a)],
        posts: vec![post(5, 10, a)],
    };
    let cfg = adapt_forum_config(acc(9), data);

    assert_eq!(cfg.next_category_id, 8);
    assert_eq!(cfg.next_thread_id, 11);
    assert_eq!(cfg.next_post_id, 6);
}

#[test]
fn category_fields_carry_over() {
    let m = acc(3);
    let mut c = category(4, m);
    c.deleted = true;
    c.archived = true;
    c.num_direct_subcategories = 2;
    c.num_direct_unmoderated_threads = 5;
    c.num_direct_moderated_threads = 1;
    c.position_in_parent_category =
        Some(ChildPosition { parent_id: 2, child_nr_in_parent_category: 3 });
    let data = ForumData { categories: vec![c], threads: vec![], posts: vec![] };
    let cfg = adapt_forum_config(acc(9), data);

    let out = &cfg.category_by_id[0];
    assert_eq!(out.id, 4);
    assert_eq!(out.title, "category 4");
    assert_eq!(out.description, "description 4");
    assert_eq!(out.created_at, BlockchainTimestamp { block: 14, time: 1004 });
    assert!(out.deleted);
    assert!(out.archived);
    assert_eq!(out.num_direct_subcategories, 2);
    assert_eq!(out.num_direct_unmoderated_threads, 5);
    assert_eq!(out.num_direct_moderated_threads, 1);
    assert_eq!(
        out.position_in_parent_category,
        Some(ChildPosition { parent_id: 2, child_nr_in_parent_category: 3 })
    );
    assert!(out.sticky_thread_ids.is_empty());
}

#[test]
fn moderation_outcomes_are_remapped_and_copied() {
    let cfg = adapt_forum_config(acc(9), sample_snapshot());

    // Moderator scan order: category 1 (m1), category 2 (m2), thread 1 (m2).
    let tm = cfg.thread_by_id[0].moderation.as_ref().unwrap();
    assert_eq!(tm.moderator_id, 2);
    assert_eq!(tm.rationale, "off topic");
    assert_eq!(tm.action_kind, 3);
    assert_eq!(tm.at, BlockchainTimestamp { block: 55, time: 5500 });
    assert!(cfg.thread_by_id[1].moderation.is_none());

    // Post fields, edit history included, carry over verbatim.
    let p = &cfg.post_by_id[0];
    assert_eq!(p.text, "post 1");
    assert_eq!(p.edit_history.len(), 1);
    assert_eq!(p.edit_history[0].text, "first draft");
    assert_eq!(p.edit_history[0].at, BlockchainTimestamp { block: 31, time: 3100 });
    assert_eq!(p.thread_id, 1);
}

#[test]
fn new_validation_builds_constraint() {
    let c = new_validation(6, 20);
    assert_eq!(c.min, 6);
    assert_eq!(c.max_min_diff, 20);
}

#[test]
fn account_from_bytes_packs_little_endian() {
    let mut bytes = vec![0u8; 32];
    bytes[0] = 1;
    bytes[1] = 2;
    bytes[8] = 0xff;
    bytes[31] = 0x80;
    let a = RawAccountId::from_bytes(&bytes);
    assert_eq!(a.w0, 1 | (2 << 8));
    assert_eq!(a.w1, 0xff);
    assert_eq!(a.w2, 0);
    assert_eq!(a.w3, 0x80u64 << 56);
}
