use credential_engine::auth::UserData;
use credential_engine::kv_store::{
    apply_action, apply_actions, delete_user_from_kv, get_user_from_kv, plan_update,
    store_user_in_kv, update_user_in_kv, user_exists_in_kv, KvStore, StoreAction, StoreError,
};

fn record(name: &str, version: u64) -> UserData {
    UserData {
        username: name.to_string(),
        password_hash: format!("hash-of-{}", name),
        created_at: 42,
        jwt_secret: String::from("c2VjcmV0"),
        jwt_version: version,
    }
}

#[test]
fn empty_store_holds_nothing() {
    let store = KvStore::new();
    assert!(!user_exists_in_kv(&store, "alice"));
    assert_eq!(get_user_from_kv(&store, "alice"), Err(StoreError::NotFound));
    assert_eq!(get_user_from_kv(&store, ""), Err(StoreError::NotFound));
}

#[test]
fn put_then_get_returns_the_record() {
    let mut store = KvStore::new();
    store_user_in_kv(&mut store, "alice", &record("alice", 1));
    store_user_in_kv(&mut store, "bob", &record("bob", 3));
    assert_eq!(get_user_from_kv(&store, "alice"), Ok(record("alice", 1)));
    assert_eq!(get_user_from_kv(&store, "bob"), Ok(record("bob", 3)));
    assert!(user_exists_in_kv(&store, "bob"));
    assert!(!user_exists_in_kv(&store, "carol"));
}

#[test]
fn put_replaces_what_was_there() {
    let mut store = KvStore::new();
    store_user_in_kv(&mut store, "alice", &record("alice", 1));
    store_user_in_kv(&mut store, "bob", &record("bob", 1));
    store_user_in_kv(&mut store, "alice", &record("alice", 2));
    assert_eq!(get_user_from_kv(&store, "alice"), Ok(record("alice", 2)));
    assert_eq!(get_user_from_kv(&store, "bob"), Ok(record("bob", 1)));
}

#[test]
fn delete_removes_only_its_key() {
    let mut store = KvStore::new();
    store_user_in_kv(&mut store, "alice", &record("alice", 1));
    store_user_in_kv(&mut store, "bob", &record("bob", 1));
    assert_eq!(delete_user_from_kv(&mut store, "alice"), Ok(()));
    assert!(!user_exists_in_kv(&store, "alice"));
    assert_eq!(get_user_from_kv(&store, "bob"), Ok(record("bob", 1)));
    assert_eq!(delete_user_from_kv(&mut store, "alice"), Err(StoreError::NotFound));
}

#[test]
fn update_in_place_overwrites() {
    let mut store = KvStore::new();
    store_user_in_kv(&mut store, "alice", &record("alice", 1));
    assert_eq!(update_user_in_kv(&mut store, "alice", None, &record("alice", 2)), Ok(()));
    assert_eq!(get_user_from_kv(&store, "alice"), Ok(record("alice", 2)));
    assert_eq!(update_user_in_kv(&mut store, "alice", Some("alice"), &record("alice", 3)), Ok(()));
    assert_eq!(get_user_from_kv(&store, "alice"), Ok(record("alice", 3)));
}

#[test]
fn update_moves_to_the_new_key() {
    let mut store = KvStore::new();
    store_user_in_kv(&mut store, "alice", &record("alice", 1));
    assert_eq!(update_user_in_kv(&mut store, "alice", Some("bob"), &record("bob", 2)), Ok(()));
    assert!(!user_exists_in_kv(&store, "alice"));
    assert_eq!(get_user_from_kv(&store, "bob"), Ok(record("bob", 2)));
}

#[test]
fn update_of_a_missing_key_is_not_found() {
    let mut store = KvStore::new();
    store_user_in_kv(&mut store, "bob", &record("bob", 1));
    assert_eq!(
        update_user_in_kv(&mut store, "alice", Some("carol"), &record("carol", 2)),
        Err(StoreError::NotFound)
    );
    assert!(!user_exists_in_kv(&store, "carol"));
    assert_eq!(get_user_from_kv(&store, "bob"), Ok(record("bob", 1)));
}

#[test]
fn update_to_a_taken_key_changes_nothing() {
    let mut store = KvStore::new();
    store_user_in_kv(&mut store, "alice", &record("alice", 1));
    store_user_in_kv(&mut store, "bob", &record("bob", 5));
    assert_eq!(
        update_user_in_kv(&mut store, "alice", Some("bob"), &record("bob", 2)),
        Err(StoreError::KeyTaken)
    );
    assert_eq!(get_user_from_kv(&store, "alice"), Ok(record("alice", 1)));
    assert_eq!(get_user_from_kv(&store, "bob"), Ok(record("bob", 5)));
}

#[test]
fn plan_of_a_move_writes_before_it_deletes() {
    let next = record("bob", 2);
    let plan = plan_update("alice", Some("bob"), &next, true, false).unwrap();
    assert_eq!(
        plan,
        vec![
            StoreAction::Put { key: String::from("bob"), user: next.clone() },
            StoreAction::Delete { key: String::from("alice") },
        ]
    );
}

#[test]
fn plan_in_place_is_one_write() {
    let next = record("alice", 2);
    let expected = vec![StoreAction::Put { key: String::from("alice"), user: next.clone() }];
    assert_eq!(plan_update("alice", None, &next, true, false), Ok(expected.clone()));
    assert_eq!(plan_update("alice", Some("alice"), &next, true, true), Ok(expected));
}

#[test]
fn plan_is_refused_without_a_write() {
    let next = record("bob", 2);
    assert_eq!(plan_update("alice", Some("bob"), &next, false, false), Err(StoreError::NotFound));
    assert_eq!(plan_update("alice", None, &next, false, true), Err(StoreError::NotFound));
    assert_eq!(plan_update("alice", Some("bob"), &next, true, true), Err(StoreError::KeyTaken));
}

#[test]
fn after_the_first_write_of_a_move_the_account_is_stored_twice() {
    let mut store = KvStore::new();
    store_user_in_kv(&mut store, "alice", &record("alice", 1));
    let plan = plan_update("alice", Some("bob"), &record("bob", 2), true, false).unwrap();
    apply_action(&mut store, &plan[0]);
    assert!(user_exists_in_kv(&store, "alice"));
    assert!(user_exists_in_kv(&store, "bob"));
    apply_action(&mut store, &plan[1]);
    assert!(!user_exists_in_kv(&store, "alice"));
    assert!(user_exists_in_kv(&store, "bob"));
}

#[test]
fn actions_are_applied_in_order() {
    let mut store = KvStore::new();
    let actions = vec![
        StoreAction::Put { key: String::from("k"), user: record("k", 1) },
        StoreAction::Delete { key: String::from("k") },
        StoreAction::Put { key: String::from("k"), user: record("k", 2) },
        StoreAction::Delete { key: String::from("absent") },
    ];
    apply_actions(&mut store, &actions);
    assert_eq!(get_user_from_kv(&store, "k"), Ok(record("k", 2)));
    apply_actions(&mut store, &Vec::new());
    assert_eq!(get_user_from_kv(&store, "k"), Ok(record("k", 2)));
}

#[test]
fn many_keys_stay_apart() {
    let mut store = KvStore::new();
    for i in 0..50u64 {
        store_user_in_kv(&mut store, &format!("user{}", i), &record(&format!("user{}", i), i));
    }
    for i in (0..50u64).step_by(2) {
        assert_eq!(delete_user_from_kv(&mut store, &format!("user{}", i)), Ok(()));
    }
    for i in 0..50u64 {
        let name = format!("user{}", i);
        if i % 2 == 0 {
            assert!(!user_exists_in_kv(&store, &name));
        } else {
            assert_eq!(get_user_from_kv(&store, &name), Ok(record(&name, i)));
        }
    }
}
