//! The account gate and the authorization decision: bearer header parsing,
//! active/admin policy, ownership, and the per-operation policy table.

use vstd::prelude::*;
use crate::token::{no_space, Claims, TokenError};

verus! {

/// A registered account.
#[derive(Debug)]
pub struct User {
    pub id: i32,
    pub username: String,
    pub email: String,
    /// Always the bcrypt hash, never the raw password.
    pub password_hash: String,
    pub is_active: bool,
    pub is_admin: bool,
}

/// The gateway's answer for one request.
#[derive(PartialEq, Eq, Structural, Clone, Copy, Debug)]
pub enum Verdict {
    /// Allowed, on behalf of this user.
    Allow(i32),
    /// No usable identity: missing or malformed header, bad or expired token.
    Unauthenticated,
    /// A valid identity without the required standing or ownership.
    Forbidden,
}

/// What a protected operation demands of its caller.
#[derive(PartialEq, Eq, Structural, Clone, Copy, Debug)]
pub struct Operation {
    pub requires_admin: bool,
    /// `Some(owner)` when the caller must own the resource; the owner of a
    /// resource without one is `None`, which nobody matches.
    pub owner_check: Option<Option<i32>>,
}

/// The operations of the API.
#[derive(PartialEq, Eq, Structural, Clone, Copy, Debug)]
pub enum Action {
    ListPosts,
    ReadPost,
    CreatePost,
    UpdatePost,
    DeletePost,
    ListUsers,
    ReadUser,
    UpdateUser,
    DeleteUser,
    Login,
    Register,
}

/// The policy table. Public operations (`None`) take no token. Every guarded
/// operation requires an admin; only deletion of a post checks ownership.
pub open spec fn policy_of(action: Action, owner: Option<i32>) -> Option<Operation> {
    match action {
        Action::ListPosts | Action::ReadPost | Action::Login | Action::Register => None,
        Action::DeletePost => Some(Operation { requires_admin: true, owner_check: Some(owner) }),
        _ => Some(Operation { requires_admin: true, owner_check: None }),
    }
}

/// Looks up the policy of `action`; `owner` is the owner of the resource it
/// acts on, where there is one.
pub fn policy(action: Action, owner: Option<i32>) -> (r: Option<Operation>)
    ensures
        r == policy_of(action, owner),
{
    match action {
        Action::ListPosts | Action::ReadPost | Action::Login | Action::Register => None,
        Action::DeletePost => Some(Operation { requires_admin: true, owner_check: Some(owner) }),
        _ => Some(Operation { requires_admin: true, owner_check: None }),
    }
}

/// The characters of the scheme prefix `Bearer `.
pub open spec fn bearer_prefix() -> Seq<char> {
    seq!['B', 'e', 'a', 'r', 'e', 'r', ' ']
}

/// Whether `header` starts with the `Bearer ` prefix.
pub open spec fn has_bearer_prefix(header: Seq<char>) -> bool {
    header.len() >= 7 && header.subrange(0, 7) == bearer_prefix()
}

/// `token` is what follows `Bearer ` in `header`, up to the next space or
/// the end.
pub open spec fn is_bearer_token(header: Seq<char>, token: Seq<char>) -> bool {
    &&& has_bearer_prefix(header)
    &&& 7 + token.len() <= header.len()
    &&& token == header.subrange(7, 7 + token.len() as int)
    &&& (7 + token.len() == header.len() || header[7 + token.len() as int] == ' ')
    &&& forall|k: int| 0 <= k < token.len() ==> #[trigger] token[k] != ' '
}

/// The header `Bearer ` followed by a token without spaces presents exactly
/// that token.
pub proof fn lemma_bearer_header_presents(token: Seq<char>)
    requires
        no_space(token),
    ensures
        is_bearer_token(bearer_prefix() + token, token),
{
    let h = bearer_prefix() + token;
    assert(h.subrange(0, 7) =~= bearer_prefix());
    assert(h.subrange(7, 7 + token.len() as int) =~= token);
}

/// Reads the token out of an `Authorization` header of the form
/// `Bearer <token>`; `None` when the header has another form.
pub fn bearer_token(header: &str) -> (r: Option<&str>)
    ensures
        r is None <==> !has_bearer_prefix(header@),
        r is Some ==> is_bearer_token(header@, r->0@),
{
    let n = header.unicode_len();
    if n < 7 || header.get_char(0) != 'B' || header.get_char(1) != 'e' || header.get_char(2) != 'a'
        || header.get_char(3) != 'r' || header.get_char(4) != 'e' || header.get_char(5) != 'r'
        || header.get_char(6) != ' ' {
        proof {
            if header@.len() >= 7 && header@.subrange(0, 7) == bearer_prefix() {
                assert(header@.subrange(0, 7)[0] == header@[0]);
                assert(header@.subrange(0, 7)[6] == header@[6]);
            }
        }
        return None;
    }
    assert(header@.subrange(0, 7) =~= bearer_prefix());
    let mut j: usize = 7;
    while j < n && header.get_char(j) != ' '
        invariant
            7 <= j <= n,
            n == header@.len(),
            forall|k: int| 7 <= k < j ==> header@[k] != ' ',
        decreases n - j,
    {
        j = j + 1;
    }
    let t = header.substring_char(7, j);
    assert forall|k: int| 0 <= k < t@.len() implies #[trigger] t@[k] != ' ' by {
        assert(t@[k] == header@[7 + k]);
    }
    Some(t)
}

/// An option of a reference, seen as an option of the value.
pub open spec fn deref_opt<T>(o: Option<&T>) -> Option<T> {
    match o {
        Some(t) => Some(*t),
        None => None,
    }
}

/// Whether an account is usable: it exists, is active, and is an
/// admin when one is required.
pub open spec fn account_usable(user: Option<User>, require_admin: bool) -> bool {
    match user {
        Some(u) => u.is_active && (!require_admin || u.is_admin),
        None => false,
    }
}

/// The account gate, on the result of looking the user up: an unknown or
/// inactive account never passes, whatever its admin flag; an admin is
/// required only when `require_admin` holds.
pub fn check(user: Option<&User>, require_admin: bool) -> (r: bool)
    ensures
        r == account_usable(deref_opt(user), require_admin),
        user is Some && !user->0.is_active ==> !r,
{
    match user {
        Some(u) => {
            if !u.is_active {
                return false;
            }
            if require_admin && !u.is_admin {
                return false;
            }
            true
        },
        None => false,
    }
}

/// Whether the ownership demand of `op` is met by `subject`.
pub open spec fn owner_ok(op: Operation, subject: i32) -> bool {
    match op.owner_check {
        Some(owner) => owner == Some(subject),
        None => true,
    }
}

/// The verdict for an operation, from the validated token and the account
/// that its subject names.
pub open spec fn verdict_of(validated: Result<i32, TokenError>, account: Option<User>, op: Operation) -> Verdict {
    match validated {
        Err(_) => Verdict::Unauthenticated,
        Ok(subject) => if !account_usable(account, op.requires_admin) {
            Verdict::Forbidden
        } else if !owner_ok(op, subject) {
            Verdict::Forbidden
        } else {
            Verdict::Allow(subject)
        },
    }
}

/// The subject of a validation result.
pub open spec fn subject_of(validated: &Result<Claims, TokenError>) -> Result<i32, TokenError> {
    match validated {
        Ok(c) => Ok(c.user_id),
        Err(e) => Err(*e),
    }
}

/// Decides a request once its token has been validated and the account of
/// its subject looked up: a token error is `Unauthenticated`; an account
/// that is not usable, or a caller who is not the owner where ownership is
/// checked, is `Forbidden`; otherwise the subject is allowed.
pub fn decide(validated: &Result<Claims, TokenError>, account: Option<&User>, op: Operation) -> (r: Verdict)
    ensures
        r == verdict_of(subject_of(validated), deref_opt(account), op),
{
    match validated {
        Err(_) => Verdict::Unauthenticated,
        Ok(claims) => {
            if !check(account, op.requires_admin) {
                return Verdict::Forbidden;
            }
            match op.owner_check {
                Some(owner) => {
                    match owner {
                        Some(o) => {
                            if o != claims.user_id {
                                return Verdict::Forbidden;
                            }
                        },
                        None => {
                            return Verdict::Forbidden;
                        },
                    }
                },
                None => {},
            }
            Verdict::Allow(claims.user_id)
        },
    }
}

} // verus!
