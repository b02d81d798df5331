use postgate::api::{authorize, check_account, create_post, delete_post, login, register, update_post};
use postgate::gate::{Operation, Verdict};
use postgate::password::{accept_verdict, check_password, hash_password};
use postgate::store::{ApiError, Store};
use postgate::token::{TokenError, TokenService};

const NOW: i64 = 1_700_000_000;
/// A bcrypt hash of "password" at cost 4, so that checks stay fast.
const PASSWORD_HASH: &str = "$2a$04$UuTkLRZZ6QofpDOlMz32MuuxEHA43WOemOYHPz6.SjsVsyO1tDU96";

fn service() -> TokenService {
    TokenService::new("test-signing-secret").unwrap()
}

fn add_account(store: &mut Store, name: &str, is_active: bool, is_admin: bool) -> i32 {
    let id = store
        .add_user(name.to_string(), format!("{}@example.com", name), PASSWORD_HASH.to_string())
        .unwrap();
    store.set_account_flags(id, is_active, is_admin).unwrap();
    id
}

fn header_for(svc: &TokenService, id: i32) -> String {
    format!("Bearer {}", svc.issue_at(id, "someone@example.com", 1, NOW).unwrap())
}

#[test]
fn register_jane_doe_then_login_before_activation() {
    let svc = service();
    let mut store = Store::new();
    let id = register(&mut store, "Jane Doe", "jane@example.com", "correct horse").unwrap();
    let user = store.find_user(id).unwrap();
    assert_eq!(user.username, "jane-doe");
    assert_eq!(user.email, "jane@example.com");
    assert!(!user.is_active);
    assert!(!user.is_admin);
    assert_ne!(user.password_hash, "correct horse");
    assert!(check_password("correct horse", &user.password_hash));
    let token = login(&store, &svc, "jane-doe", "correct horse", NOW).unwrap();
    let claims = svc.validate_at(&token, NOW).unwrap();
    assert_eq!(claims.user_id, id);
    assert_eq!(claims.email, "jane@example.com");
    assert_eq!(claims.exp, NOW + 86400);
    assert_eq!(svc.validate_at(&token, NOW + 86400).unwrap_err(), TokenError::Expired);
}

#[test]
fn register_duplicate_username_is_refused() {
    let mut store = Store::new();
    store.add_user("jane-doe".to_string(), "a@b.c".to_string(), PASSWORD_HASH.to_string()).unwrap();
    assert_eq!(register(&mut store, "Jane  Doe!", "x@y.z", "pw"), Err(ApiError::DuplicateUsername));
    assert!(store.find_user_by_name("jane-doe").is_some());
    assert_eq!(store.find_user(2).is_none(), true);
}

#[test]
fn login_unknown_user_and_wrong_password() {
    let svc = service();
    let mut store = Store::new();
    let id = add_account(&mut store, "bob", false, false);
    assert_eq!(login(&store, &svc, "alice", "password", NOW), Err(ApiError::NotFound));
    assert_eq!(login(&store, &svc, "bob", "wrong", NOW), Err(ApiError::Unauthenticated));
    let token = login(&store, &svc, "bob", "password", NOW).unwrap();
    assert_eq!(svc.validate_at(&token, NOW).unwrap().user_id, id);
}

#[test]
fn password_checks_fail_closed() {
    assert!(check_password("password", PASSWORD_HASH));
    assert!(!check_password("Password", PASSWORD_HASH));
    assert!(!check_password("password", "not a hash"));
    assert!(!check_password("password", ""));
    assert!(accept_verdict(Some(true)));
    assert!(!accept_verdict(Some(false)));
    assert!(!accept_verdict(None));
}

#[test]
fn hashing_salts_each_call() {
    let a = hash_password("pw").unwrap();
    let b = hash_password("pw").unwrap();
    assert_ne!(a, b);
    assert_ne!(a, "pw");
}

#[test]
fn create_post_hello_world_then_duplicate_slug() {
    let svc = service();
    let mut store = Store::new();
    let id = add_account(&mut store, "admin", true, true);
    let header = header_for(&svc, id);
    let pid = create_post(&mut store, &svc, Some(&header), "Hello, World!", "body", None, true, Some(20), NOW).unwrap();
    let post = store.find_post(pid).unwrap();
    assert_eq!(post.slug, "hello-world");
    assert_eq!(post.title, "Hello, World!");
    assert_eq!(post.user_id, Some(id));
    assert!(post.is_published);
    assert_eq!(
        create_post(&mut store, &svc, Some(&header), "Hello, World!", "again", None, true, Some(20), NOW),
        Err(ApiError::DuplicateSlug)
    );
    assert_eq!(store.post_count(), 1);
    assert!(store.find_post_by_slug("hello-world").is_some());
}

#[test]
fn create_post_needs_active_admin_and_valid_token() {
    let svc = service();
    let mut store = Store::new();
    let plain = add_account(&mut store, "plain", true, false);
    let inactive_admin = add_account(&mut store, "idle", false, true);
    let create = |store: &mut Store, header: Option<&str>, now: i64| {
        create_post(store, &svc, header, "Title", "t", None, false, Some(20), now)
    };
    assert_eq!(create(&mut store, None, NOW), Err(ApiError::Unauthenticated));
    assert_eq!(create(&mut store, Some("Token abc"), NOW), Err(ApiError::Unauthenticated));
    assert_eq!(create(&mut store, Some("Bearer garbage"), NOW), Err(ApiError::Unauthenticated));
    let plain_header = header_for(&svc, plain);
    assert_eq!(create(&mut store, Some(&plain_header), NOW), Err(ApiError::Forbidden));
    let idle_header = header_for(&svc, inactive_admin);
    assert_eq!(create(&mut store, Some(&idle_header), NOW), Err(ApiError::Forbidden));
    let unknown_header = header_for(&svc, 99);
    assert_eq!(create(&mut store, Some(&unknown_header), NOW), Err(ApiError::Forbidden));
    let admin = add_account(&mut store, "root", true, true);
    let admin_header = header_for(&svc, admin);
    assert_eq!(create(&mut store, Some(&admin_header), NOW + 86400), Err(ApiError::Unauthenticated));
    assert!(create(&mut store, Some(&admin_header), NOW).is_ok());
}

#[test]
fn explicit_slug_is_used_normalized() {
    let svc = service();
    let mut store = Store::new();
    let id = add_account(&mut store, "admin", true, true);
    let header = header_for(&svc, id);
    let pid = create_post(&mut store, &svc, Some(&header), "Title", "t", Some("My Own Slug"), true, Some(5), NOW).unwrap();
    assert_eq!(store.find_post(pid).unwrap().slug, "my-own-slug");
}

#[test]
fn delete_by_other_caller_is_forbidden_and_owner_deletes() {
    let svc = service();
    let mut store = Store::new();
    let a = add_account(&mut store, "caller-a", true, true);
    let b = add_account(&mut store, "caller-b", true, true);
    let header_a = header_for(&svc, a);
    let header_b = header_for(&svc, b);
    let pid = create_post(&mut store, &svc, Some(&header_b), "B's post", "t", None, true, Some(20), NOW).unwrap();
    assert_eq!(delete_post(&mut store, &svc, Some(&header_a), pid, NOW), Err(ApiError::Forbidden));
    assert!(store.find_post(pid).is_some());
    assert_eq!(delete_post(&mut store, &svc, Some(&header_b), pid, NOW), Ok(()));
    assert!(store.find_post(pid).is_none());
    assert_eq!(delete_post(&mut store, &svc, Some(&header_b), pid, NOW), Err(ApiError::NotFound));
}

#[test]
fn delete_by_active_non_admin_non_owner_is_forbidden() {
    let svc = service();
    let mut store = Store::new();
    let owner = add_account(&mut store, "owner", true, true);
    let other = add_account(&mut store, "other", true, false);
    let pid = create_post(&mut store, &svc, Some(&header_for(&svc, owner)), "Post", "t", None, true, None, NOW).unwrap();
    assert_eq!(delete_post(&mut store, &svc, Some(&header_for(&svc, other)), pid, NOW), Err(ApiError::Forbidden));
    assert_eq!(delete_post(&mut store, &svc, None, pid, NOW), Err(ApiError::Unauthenticated));
    assert!(store.find_post(pid).is_some());
}

#[test]
fn ownerless_post_cannot_be_deleted() {
    let svc = service();
    let mut store = Store::new();
    let admin = add_account(&mut store, "admin", true, true);
    let pid = store
        .add_post(None, "legacy".to_string(), "Legacy".to_string(), "t".to_string(), true)
        .unwrap();
    assert_eq!(delete_post(&mut store, &svc, Some(&header_for(&svc, admin)), pid, NOW), Err(ApiError::Forbidden));
}

#[test]
fn update_does_not_check_ownership() {
    let svc = service();
    let mut store = Store::new();
    let a = add_account(&mut store, "a", true, true);
    let b = add_account(&mut store, "b", true, true);
    let header_a = header_for(&svc, a);
    let header_b = header_for(&svc, b);
    let first = create_post(&mut store, &svc, Some(&header_b), "First", "t", None, true, Some(20), NOW).unwrap();
    let second = create_post(&mut store, &svc, Some(&header_b), "Second", "t", None, true, Some(20), NOW).unwrap();
    assert_eq!(
        update_post(&mut store, &svc, Some(&header_a), first, "Renamed Post", "new", None, false, Some(20), NOW),
        Ok(())
    );
    let post = store.find_post(first).unwrap();
    assert_eq!(post.slug, "renamed-post");
    assert_eq!(post.text, "new");
    assert_eq!(post.user_id, Some(b));
    assert!(!post.is_published);
    assert_eq!(
        update_post(&mut store, &svc, Some(&header_a), second, "Renamed Post", "x", None, true, Some(20), NOW),
        Err(ApiError::DuplicateSlug)
    );
    assert_eq!(
        update_post(&mut store, &svc, Some(&header_a), first, "Renamed Post", "again", None, true, Some(20), NOW),
        Ok(())
    );
    assert_eq!(
        update_post(&mut store, &svc, Some(&header_a), 999, "Other", "x", None, true, Some(20), NOW),
        Err(ApiError::NotFound)
    );
    assert_eq!(
        update_post(&mut store, &svc, None, first, "Other", "x", None, true, Some(20), NOW),
        Err(ApiError::Unauthenticated)
    );
}

#[test]
fn authorize_follows_the_policy() {
    let svc = service();
    let mut store = Store::new();
    let admin = add_account(&mut store, "admin", true, true);
    let idle = add_account(&mut store, "idle", false, true);
    let op = Operation { requires_admin: true, owner_check: None };
    let h = header_for(&svc, admin);
    assert_eq!(authorize(&store, &svc, Some(&h), op, NOW), Verdict::Allow(admin));
    assert_eq!(authorize(&store, &svc, Some(&h), op, NOW + 86400), Verdict::Unauthenticated);
    assert_eq!(authorize(&store, &svc, Some(&header_for(&svc, idle)), op, NOW), Verdict::Forbidden);
    assert_eq!(authorize(&store, &svc, None, op, NOW), Verdict::Unauthenticated);
    let own = Operation { requires_admin: false, owner_check: Some(Some(admin)) };
    assert_eq!(authorize(&store, &svc, Some(&h), own, NOW), Verdict::Allow(admin));
}

#[test]
fn account_flags_of_unknown_user() {
    let mut store = Store::new();
    assert_eq!(store.set_account_flags(5, true, true), Err(ApiError::NotFound));
    assert_eq!(store.remove_post(5), Err(ApiError::NotFound));
}

#[test]
fn account_check_by_id() {
    let mut store = Store::new();
    let admin = add_account(&mut store, "admin", true, true);
    let plain = add_account(&mut store, "plain", true, false);
    let idle = add_account(&mut store, "idle", false, true);
    assert!(check_account(&store, admin, true));
    assert!(check_account(&store, plain, false));
    assert!(!check_account(&store, plain, true));
    assert!(!check_account(&store, idle, false));
    assert!(!check_account(&store, idle, true));
    assert!(!check_account(&store, 42, false));
}

#[test]
fn post_lookup_by_slug_and_listing() {
    let mut store = Store::new();
    assert!(store.find_post_by_slug("none").is_none());
    let a = store.add_post(Some(1), "first".to_string(), "First".to_string(), "t".to_string(), true).unwrap();
    let b = store.add_post(None, "second".to_string(), "Second".to_string(), "t".to_string(), false).unwrap();
    assert_ne!(a, b);
    assert_eq!(store.find_post_by_slug("second").unwrap().id, b);
    assert_eq!(store.post_count(), 2);
    assert_eq!(store.post_at(0).id, a);
    assert_eq!(
        store.add_post(Some(1), "first".to_string(), "Again".to_string(), "t".to_string(), true),
        Err(ApiError::DuplicateSlug)
    );
    assert_eq!(store.user_count(), 0);
}
