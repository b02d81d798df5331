use postgate::gate::{bearer_token, check, decide, policy, Action, Operation, User, Verdict};
use postgate::token::{Claims, TokenError};

fn user(id: i32, is_active: bool, is_admin: bool) -> User {
    User {
        id,
        username: format!("user-{}", id),
        email: format!("user{}@example.com", id),
        password_hash: String::new(),
        is_active,
        is_admin,
    }
}

fn claims(user_id: i32) -> Result<Claims, TokenError> {
    Ok(Claims { user_id, email: String::from("e"), exp: 100 })
}

#[test]
fn inactive_account_never_passes() {
    for is_admin in [false, true] {
        for require_admin in [false, true] {
            assert!(!check(Some(&user(1, false, is_admin)), require_admin));
        }
    }
}

#[test]
fn account_check_policy() {
    assert!(!check(None, false));
    assert!(check(Some(&user(1, true, false)), false));
    assert!(!check(Some(&user(1, true, false)), true));
    assert!(check(Some(&user(1, true, true)), true));
}

#[test]
fn bearer_header_forms() {
    assert_eq!(bearer_token("Bearer abc.def"), Some("abc.def"));
    assert_eq!(bearer_token("Bearer abc def"), Some("abc"));
    assert_eq!(bearer_token("Bearer "), Some(""));
    assert_eq!(bearer_token("Bearer"), None);
    assert_eq!(bearer_token("bearer abc"), None);
    assert_eq!(bearer_token("Basic abc"), None);
    assert_eq!(bearer_token(""), None);
}

#[test]
fn policy_table() {
    for a in [Action::ListPosts, Action::ReadPost, Action::Login, Action::Register] {
        assert_eq!(policy(a, Some(1)), None);
    }
    let admin = Some(Operation { requires_admin: true, owner_check: None });
    for a in [Action::CreatePost, Action::UpdatePost, Action::ListUsers, Action::ReadUser, Action::UpdateUser, Action::DeleteUser] {
        assert_eq!(policy(a, Some(1)), admin);
    }
    assert_eq!(
        policy(Action::DeletePost, Some(4)),
        Some(Operation { requires_admin: true, owner_check: Some(Some(4)) })
    );
}

#[test]
fn decide_each_step() {
    let op = Operation { requires_admin: true, owner_check: None };
    let admin = user(2, true, true);
    assert_eq!(decide(&Err(TokenError::Expired), Some(&admin), op), Verdict::Unauthenticated);
    assert_eq!(decide(&Err(TokenError::SignatureInvalid), Some(&admin), op), Verdict::Unauthenticated);
    assert_eq!(decide(&claims(2), None, op), Verdict::Forbidden);
    assert_eq!(decide(&claims(2), Some(&user(2, true, false)), op), Verdict::Forbidden);
    assert_eq!(decide(&claims(2), Some(&admin), op), Verdict::Allow(2));
    let owned_by_3 = Operation { requires_admin: true, owner_check: Some(Some(3)) };
    assert_eq!(decide(&claims(2), Some(&admin), owned_by_3), Verdict::Forbidden);
    let owned_by_2 = Operation { requires_admin: true, owner_check: Some(Some(2)) };
    assert_eq!(decide(&claims(2), Some(&admin), owned_by_2), Verdict::Allow(2));
    let ownerless = Operation { requires_admin: true, owner_check: Some(None) };
    assert_eq!(decide(&claims(2), Some(&admin), ownerless), Verdict::Forbidden);
}
