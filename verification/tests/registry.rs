use forum_config::account::RawAccountId;
use forum_config::legacy::{
    BlockchainTimestamp, ForumData, LegacyCategory, LegacyModeration, LegacyPost, LegacyThread,
};
use forum_config::registry::{
    IdentityRegistry, build_identity_registry, contains_account, lookup_id, register_account,
};
use forum_config::remap::{RemapError, parse_data, remap_threads};

fn acc(n: u64) -> RawAccountId {
    RawAccountId { w0: 0, w1: n, w2: 0, w3: 0 }
}

fn stamp(block: u64, time: u64) -> BlockchainTimestamp {
    BlockchainTimestamp { block, time }
}

fn category(id: u64, moderator: RawAccountId) -> LegacyCategory {
    LegacyCategory {
        id,
        title: "a title".to_string(),
        description: "a description".to_string(),
        created_at: stamp(1, 2),
        deleted: false,
        archived: false,
        num_direct_subcategories: 0,
        num_direct_unmoderated_threads: 0,
        num_direct_moderated_threads: 0,
        position_in_parent_category: None,
        moderator,
    }
}

fn moderated_by(moderator: RawAccountId) -> Option<LegacyModeration> {
    Some(LegacyModeration {
        moderator,
        rationale: "spam".to_string(),
        action_kind: 1,
        at: stamp(9, 90),
    })
}

fn thread(id: u64, author: RawAccountId, moderation: Option<LegacyModeration>) -> LegacyThread {
    LegacyThread {
        id,
        category_id: 1,
        author,
        moderation,
        title: "a thread".to_string(),
        created_at: stamp(3, 4),
    }
}

fn post(id: u64, author: RawAccountId, moderation: Option<LegacyModeration>) -> LegacyPost {
    LegacyPost {
        id,
        thread_id: 1,
        author,
        text: "a post".to_string(),
        edit_history: vec![],
        moderation,
        created_at: stamp(5, 6),
    }
}

#[test]
fn registry_scans_in_fixed_order() {
    let m1 = acc(1);
    let m2 = acc(2);
    let m3 = acc(3);
    let a1 = acc(10);
    let a2 = acc(11);
    let data = ForumData {
        categories: vec![category(1, m1)],
        threads: vec![thread(1, a1, moderated_by(m2))],
        posts: vec![post(1, a2, moderated_by(m3))],
    };
    let reg = build_identity_registry(&data);

    assert_eq!(reg.moderators, vec![m1, m2, m3]);
    assert_eq!(reg.forum_users, vec![a1, a2]);
    assert_eq!(reg.moderator_id(m2), Some(2));
    assert_eq!(reg.forum_user_id(a2), Some(2));
    assert_eq!(reg.forum_user_id(m1), None);
}

#[test]
fn register_account_is_idempotent() {
    let mut v: Vec<RawAccountId> = Vec::new();
    register_account(&mut v, acc(4));
    register_account(&mut v, acc(5));
    register_account(&mut v, acc(4));
    assert_eq!(v, vec![acc(4), acc(5)]);
}

#[test]
fn contains_account_compares_by_value() {
    let v = vec![acc(1), acc(2)];
    assert!(contains_account(&v, acc(2)));
    assert!(!contains_account(&v, acc(3)));
}

#[test]
fn lookup_id_finds_first_seen_position() {
    let v = vec![acc(8), acc(9), acc(10)];
    assert_eq!(lookup_id(&v, acc(8)), Some(1));
    assert_eq!(lookup_id(&v, acc(10)), Some(3));
    assert_eq!(lookup_id(&v, acc(11)), None);
}

#[test]
fn remap_reports_unknown_author() {
    let empty = IdentityRegistry { forum_users: vec![], moderators: vec![] };
    let threads = vec![thread(6, acc(1), None)];
    let r = remap_threads(&threads, &empty);
    assert_eq!(r, Err(RemapError::UnknownAuthor { entity_id: 6, account: acc(1) }));
}

#[test]
fn remap_reports_unknown_moderator() {
    let reg = IdentityRegistry { forum_users: vec![acc(1)], moderators: vec![] };
    let threads = vec![thread(6, acc(1), moderated_by(acc(2)))];
    let r = remap_threads(&threads, &reg);
    assert_eq!(r, Err(RemapError::UnknownModerator { entity_id: 6, account: acc(2) }));
}

#[test]
fn output_ids_agree_with_registry_maps() {
    let data = ForumData {
        categories: vec![category(1, acc(3))],
        threads: vec![thread(1, acc(20), moderated_by(acc(3))), thread(2, acc(21), None)],
        posts: vec![post(1, acc(20), moderated_by(acc(4)))],
    };
    let reg = build_identity_registry(&data);
    let (_, _, _, threads, posts) = parse_data(data);

    assert_eq!(Some(threads[0].author_id), reg.forum_user_id(acc(20)));
    assert_eq!(Some(threads[1].author_id), reg.forum_user_id(acc(21)));
    assert_eq!(Some(posts[0].author_id), reg.forum_user_id(acc(20)));
    assert_eq!(
        Some(threads[0].moderation.as_ref().unwrap().moderator_id),
        reg.moderator_id(acc(3))
    );
    assert_eq!(
        Some(posts[0].moderation.as_ref().unwrap().moderator_id),
        reg.moderator_id(acc(4))
    );
}

#[test]
fn parse_data_orders_records_by_ascending_identity() {
    let data = ForumData {
        categories: vec![category(1, acc(3)), category(2, acc(1))],
        threads: vec![thread(1, acc(20), None), thread(2, acc(22), None), thread(3, acc(21), None)],
        posts: vec![],
    };
    let (users, moderators, _categories, threads, _posts) = parse_data(data);

    for (i, u) in users.iter().enumerate() {
        assert_eq!(u.id, i as u64 + 1);
    }
    for (i, m) in moderators.iter().enumerate() {
        assert_eq!(m.id, i as u64 + 1);
    }
    assert_eq!(users[0].account, acc(20));
    assert_eq!(users[1].account, acc(22));
    assert_eq!(users[2].account, acc(21));
    assert_eq!(threads[0].author_id, 1);
    assert_eq!(threads[1].author_id, 2);
    assert_eq!(threads[2].author_id, 3);
}
