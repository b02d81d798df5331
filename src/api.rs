//! The operations of the content API, each decided by the gateway before
//! anything is changed: registration, login, and creating, renaming and
//! deleting posts.

use vstd::prelude::*;
use crate::gate::{
    account_usable, bearer_token, check, decide, has_bearer_prefix, is_bearer_token, owner_ok, policy,
    verdict_of, Action, Operation, User, Verdict,
};
use crate::password::{bcrypt_verdict, check_password, hash_password};
use crate::slug::{generate, generated, normalize, slug_of, text_view};
use crate::store::{name_taken, post_by_id, slug_taken, user_by_name, slug_taken_by_other, user_by_id, without_post, ApiError, Post, Store};
use crate::token::{claims_match, decoded_of, judged, expiry, expiry_fits, jwt_of, Claims, TokenError, TokenService};

verus! {

/// `token` is the bearer token that `header` presents.
pub open spec fn presents(header: Option<&str>, token: Seq<char>) -> bool {
    match header {
        Some(h) => is_bearer_token(h@, token),
        None => false,
    }
}

/// A header that is missing or not of the form `Bearer <token>`.
pub open spec fn header_refused(header: Option<&str>) -> bool {
    match header {
        Some(h) => !has_bearer_prefix(h@),
        None => true,
    }
}

/// Who a token issued for `user_id` with expiry `exp` identifies at `now`.
pub open spec fn subject_at(user_id: i32, exp: i64, now: i64) -> Result<i32, TokenError> {
    if now < exp {
        Ok(user_id)
    } else {
        Err(TokenError::Expired)
    }
}

/// The account that an authentication result names.
pub open spec fn account_of(users: Seq<User>, subject: Result<i32, TokenError>) -> Option<User> {
    match subject {
        Ok(u) => user_by_id(users, u),
        Err(_) => None,
    }
}

/// The gateway's verdict on `op` for the authenticated `subject`.
pub open spec fn gate_verdict(users: Seq<User>, subject: Result<i32, TokenError>, op: Operation) -> Verdict {
    verdict_of(subject, account_of(users, subject), op)
}

/// The requirement of every guarded operation without an ownership check.
pub open spec fn admin_only() -> Operation {
    Operation { requires_admin: true, owner_check: None }
}

/// A refusal by the gateway as an API error.
pub open spec fn refusal(v: Verdict) -> ApiError {
    match v {
        Verdict::Forbidden => ApiError::Forbidden,
        _ => ApiError::Unauthenticated,
    }
}

/// The token that a header of the form `Bearer <token>` presents.
pub open spec fn presented_token(header: Seq<char>) -> Seq<char> {
    choose|t: Seq<char>| is_bearer_token(header, t)
}

/// The outcome of authenticating `header` at `now` under `secret`: a
/// missing or malformed header is `Malformed`; otherwise it is what the
/// presented token decodes to, judged at `now`.
pub open spec fn auth_result(header: Option<&str>, secret: Seq<char>, now: i64) -> Result<(i32, Seq<char>, i64), TokenError> {
    if header_refused(header) {
        Err(TokenError::Malformed)
    } else {
        judged(decoded_of(presented_token(header->0@), secret), now)
    }
}

/// The subject that authenticating `header` at `now` yields, or the error.
pub open spec fn auth_subject(header: Option<&str>, secret: Seq<char>, now: i64) -> Result<i32, TokenError> {
    match auth_result(header, secret, now) {
        Ok((u, _, _)) => Ok(u),
        Err(e) => Err(e),
    }
}

/// A header presents at most one token.
proof fn lemma_bearer_token_unique(header: Seq<char>, t1: Seq<char>, t2: Seq<char>)
    requires
        is_bearer_token(header, t1),
        is_bearer_token(header, t2),
    ensures
        t1 == t2,
{
    if t1.len() < t2.len() {
        assert(t2[t1.len() as int] == header[7 + t1.len() as int]);
    } else if t2.len() < t1.len() {
        assert(t1[t2.len() as int] == header[7 + t2.len() as int]);
    }
    assert(t1 =~= t2);
}

/// The account check by id: the account must exist and be active, and be
/// an admin when `require_admin` holds. It only reads the store.
pub fn check_account(store: &Store, user_id: i32, require_admin: bool) -> (r: bool)
    requires
        store.wf(),
    ensures
        r == account_usable(user_by_id(store.users(), user_id), require_admin),
{
    check(store.find_user(user_id), require_admin)
}

/// Finds out who is calling: the bearer token of the header, validated at
/// `now`, exactly as `auth_result` says. A missing or malformed header is
/// `Malformed`. A header that
/// presents a token issued by `tokens` gives back its claims until they
/// expire, and `Expired` from then on.
pub fn authenticate(tokens: &TokenService, header: Option<&str>, now: i64) -> (r: Result<Claims, TokenError>)
    ensures
        claims_match(r, auth_result(header, tokens.secret(), now)),
        header_refused(header) ==> r == Err::<Claims, TokenError>(TokenError::Malformed),
        r is Ok ==> now < r->Ok_0.exp,
        forall|u: i32, e: Seq<char>, x: i64|
            0 <= x && presents(header, #[trigger] jwt_of(u, e, x, tokens.secret())) ==>
                claims_match(r, if now < x { Ok((u, e, x)) } else { Err(TokenError::Expired) }),
{
    match header {
        None => Err(TokenError::Malformed),
        Some(h) => match bearer_token(h) {
            None => Err(TokenError::Malformed),
            Some(t) => {
                let r = tokens.validate_at(t, now);
                proof {
                    assert(is_bearer_token(h@, t@));
                    lemma_bearer_token_unique(h@, t@, presented_token(h@));
                }
                assert forall|u: i32, e: Seq<char>, x: i64|
                    0 <= x && presents(header, #[trigger] jwt_of(u, e, x, tokens.secret())) implies
                        claims_match(r, if now < x { Ok((u, e, x)) } else { Err(TokenError::Expired) }) by {
                    lemma_bearer_token_unique(h@, t@, jwt_of(u, e, x, tokens.secret()));
                }
                r
            },
        },
    }
}

/// The gateway: validates the bearer token, checks the account of its
/// subject and, where `op` asks for it, ownership. A missing or malformed
/// header is `Unauthenticated`. The verdict is the policy's for the subject
/// that authentication yields; for a token issued by `tokens` that subject
/// is the token's user until it expires.
pub fn authorize(store: &Store, tokens: &TokenService, header: Option<&str>, op: Operation, now: i64) -> (r: Verdict)
    requires
        store.wf(),
    ensures
        r == gate_verdict(store.users(), auth_subject(header, tokens.secret(), now), op),
        header_refused(header) ==> r == Verdict::Unauthenticated,
        r matches Verdict::Allow(s) ==> account_usable(user_by_id(store.users(), s), op.requires_admin)
            && owner_ok(op, s),
        forall|u: i32, e: Seq<char>, x: i64|
            0 <= x && presents(header, #[trigger] jwt_of(u, e, x, tokens.secret())) ==>
                r == gate_verdict(store.users(), subject_at(u, x, now), op),
{
    let validated = authenticate(tokens, header, now);
    let account = match &validated {
        Ok(c) => store.find_user(c.user_id),
        Err(_) => None,
    };
    decide(&validated, account, op)
}

/// What deleting post `id` comes to for the authenticated `subject`: the
/// caller must be an active admin, the post must exist, and the
/// caller must own it.
pub open spec fn delete_outcome(store: Store, subject: Result<i32, TokenError>, id: i32) -> Result<(), ApiError> {
    match gate_verdict(store.users(), subject, admin_only()) {
        Verdict::Allow(s) => match post_by_id(store.posts(), id) {
            None => Err(ApiError::NotFound),
            Some(p) => if p.user_id == Some(s) {
                Ok(())
            } else {
                Err(ApiError::Forbidden)
            },
        },
        v => Err(refusal(v)),
    }
}

/// Deletes post `id` on behalf of the caller that `header` identifies. Only
/// the owner may delete a post; nothing changes unless the deletion
/// happens.
pub fn delete_post(store: &mut Store, tokens: &TokenService, header: Option<&str>, id: i32, now: i64) -> (r: Result<(), ApiError>)
    requires
        old(store).wf(),
    ensures
        final(store).wf(),
        final(store).users() == old(store).users(),
        header_refused(header) ==> r == Err::<(), ApiError>(ApiError::Unauthenticated),
        r is Err ==> final(store).posts() == old(store).posts(),
        r is Ok ==> final(store).posts() == without_post(old(store).posts(), id)
            && post_by_id(final(store).posts(), id) is None,
        r == delete_outcome(*old(store), auth_subject(header, tokens.secret(), now), id),
        forall|u: i32, e: Seq<char>, x: i64|
            0 <= x && presents(header, #[trigger] jwt_of(u, e, x, tokens.secret())) ==>
                r == delete_outcome(*old(store), subject_at(u, x, now), id),
{
    let validated = authenticate(tokens, header, now);
    let account = match &validated {
        Ok(c) => store.find_user(c.user_id),
        Err(_) => None,
    };
    let caller = match decide(&validated, account, Operation { requires_admin: true, owner_check: None }) {
        Verdict::Allow(s) => s,
        Verdict::Forbidden => {
            return Err(ApiError::Forbidden);
        },
        Verdict::Unauthenticated => {
            return Err(ApiError::Unauthenticated);
        },
    };
    let owner = match store.find_post(id) {
        Some(p) => p.user_id,
        None => {
            return Err(ApiError::NotFound);
        },
    };
    let op = match policy(Action::DeletePost, owner) {
        Some(op) => op,
        None => {
            return Err(ApiError::Forbidden);
        },
    };
    match decide(&validated, account, op) {
        Verdict::Allow(_) => {},
        _ => {
            return Err(ApiError::Forbidden);
        },
    }
    assert(delete_outcome(*old(store), Ok(caller), id) is Ok);
    assert forall|u: i32, e: Seq<char>, x: i64|
        0 <= x && presents(header, #[trigger] jwt_of(u, e, x, tokens.secret())) implies
            delete_outcome(*old(store), subject_at(u, x, now), id) == Ok::<(), ApiError>(()) by {
        assert(subject_at(u, x, now) == Ok::<i32, TokenError>(caller));
    }
    assert(auth_subject(header, tokens.secret(), now) == Ok::<i32, TokenError>(caller));
    assert(post_by_id(store.posts(), id) is Some);
    assert(*store == *old(store));
    match store.remove_post(id) {
        Ok(()) => Ok(()),
        Err(e) => Err(e),
    }
}

/// `p` is the post with these fields.
pub open spec fn post_matches(p: Post, id: i32, owner: Option<i32>, slug: Seq<char>, title: Seq<char>, text: Seq<char>, is_published: bool) -> bool {
    &&& p.id == id
    &&& p.user_id == owner
    &&& p.slug@ == slug
    &&& p.title@ == title
    &&& p.text@ == text
    &&& p.is_published == is_published
}

/// `after` is `before` with one post of these fields added at the end.
pub open spec fn post_added(before: Seq<Post>, after: Seq<Post>, id: i32, owner: Option<i32>, slug: Seq<char>, title: Seq<char>, text: Seq<char>, is_published: bool) -> bool {
    &&& after.len() == before.len() + 1
    &&& after.drop_last() == before
    &&& post_by_id(before, id) is None
    &&& post_matches(after.last(), id, owner, slug, title, text, is_published)
}

/// `after` is `before` with post `id` given new contents, its owner kept.
pub open spec fn post_replaced(before: Seq<Post>, after: Seq<Post>, id: i32, slug: Seq<char>, title: Seq<char>, text: Seq<char>, is_published: bool) -> bool {
    &&& after.len() == before.len()
    &&& forall|k: int| 0 <= k < before.len() ==> if before[k].id == id {
        post_matches(#[trigger] after[k], id, before[k].user_id, slug, title, text, is_published)
    } else {
        after[k] == before[k]
    }
}

/// Why creating a post with `slug` is refused for `subject`, if it is: the
/// caller must be an active admin, and the slug must be free.
pub open spec fn create_refusal(store: Store, subject: Result<i32, TokenError>, slug: Seq<char>) -> Option<ApiError> {
    match gate_verdict(store.users(), subject, admin_only()) {
        Verdict::Allow(_) => if slug_taken(store.posts(), slug) {
            Some(ApiError::DuplicateSlug)
        } else {
            None
        },
        v => Some(refusal(v)),
    }
}

/// Creates a post owned by the caller, with the slug that
/// `slug::generate` chooses from the title or the explicit slug. A slug
/// already in use is `DuplicateSlug`; nothing changes unless the post is
/// created. The only other failure is a store out of ids.
pub fn create_post(
    store: &mut Store,
    tokens: &TokenService,
    header: Option<&str>,
    title: &str,
    text: &str,
    explicit_slug: Option<&str>,
    is_published: bool,
    max_length: Option<usize>,
    now: i64,
) -> (r: Result<i32, ApiError>)
    requires
        old(store).wf(),
    ensures
        final(store).wf(),
        final(store).users() == old(store).users(),
        header_refused(header) ==> r == Err::<i32, ApiError>(ApiError::Unauthenticated),
        r is Err ==> final(store).posts() == old(store).posts(),
        create_refusal(*old(store), auth_subject(header, tokens.secret(), now), generated(title@, text_view(explicit_slug), max_length)) matches Some(err)
            ==> r == Err::<i32, ApiError>(err),
        create_refusal(*old(store), auth_subject(header, tokens.secret(), now), generated(title@, text_view(explicit_slug), max_length)) is None ==> {
            &&& auth_subject(header, tokens.secret(), now) is Ok
            &&& old(store).has_post_id_left() ==> r is Ok
            &&& r is Ok ==> post_added(old(store).posts(), final(store).posts(), r->Ok_0, Some(auth_subject(header, tokens.secret(), now)->Ok_0),
                generated(title@, text_view(explicit_slug), max_length), title@, text@, is_published)
            &&& r is Err ==> r == Err::<i32, ApiError>(ApiError::StoreError)
        },
        forall|u: i32, e: Seq<char>, x: i64|
            0 <= x && presents(header, #[trigger] jwt_of(u, e, x, tokens.secret())) ==>
                match create_refusal(*old(store), subject_at(u, x, now), generated(title@, text_view(explicit_slug), max_length)) {
                    Some(err) => r == Err::<i32, ApiError>(err),
                    None => {
                        &&& old(store).has_post_id_left() ==> r is Ok
                        &&& r is Ok ==> post_added(old(store).posts(), final(store).posts(), r->Ok_0, Some(u),
                            generated(title@, text_view(explicit_slug), max_length), title@, text@, is_published)
                        &&& r is Err ==> r == Err::<i32, ApiError>(ApiError::StoreError)
                    },
                },
{
    let validated = authenticate(tokens, header, now);
    let account = match &validated {
        Ok(c) => store.find_user(c.user_id),
        Err(_) => None,
    };
    let op = match policy(Action::CreatePost, None) {
        Some(op) => op,
        None => {
            return Err(ApiError::Forbidden);
        },
    };
    let caller = match decide(&validated, account, op) {
        Verdict::Allow(s) => s,
        Verdict::Forbidden => {
            return Err(ApiError::Forbidden);
        },
        Verdict::Unauthenticated => {
            return Err(ApiError::Unauthenticated);
        },
    };
    let slug = generate(title, explicit_slug, max_length);
    assert(gate_verdict(old(store).users(), Ok(caller), admin_only()) == Verdict::Allow(caller));
    assert forall|u: i32, e: Seq<char>, x: i64|
        0 <= x && presents(header, #[trigger] jwt_of(u, e, x, tokens.secret())) implies
            subject_at(u, x, now) == Ok::<i32, TokenError>(caller) by {
    }
    assert(auth_subject(header, tokens.secret(), now) == Ok::<i32, TokenError>(caller));
    let ghost before = store.posts();
    let r = store.add_post(Some(caller), slug, title.to_string(), text.to_string(), is_published);
    proof {
        if r is Ok {
            assert(final(store).posts().drop_last() =~= before);
            assert(create_refusal(*old(store), Ok(caller), generated(title@, text_view(explicit_slug), max_length)) is None);
        }
    }
    r
}

/// Why renaming post `id` to `slug` is refused for `subject`, if it is: the
/// caller must be an active admin (ownership is not checked), the
/// post must exist, and no other post may hold the slug.
pub open spec fn update_refusal(store: Store, subject: Result<i32, TokenError>, id: i32, slug: Seq<char>) -> Option<ApiError> {
    match gate_verdict(store.users(), subject, admin_only()) {
        Verdict::Allow(_) => if post_by_id(store.posts(), id) is None {
            Some(ApiError::NotFound)
        } else if slug_taken_by_other(store.posts(), slug, id) {
            Some(ApiError::DuplicateSlug)
        } else {
            None
        },
        v => Some(refusal(v)),
    }
}

/// Gives post `id` a new title, text, publication flag and slug, chosen by
/// `slug::generate`. Any admin may do so: ownership is not checked. Nothing
/// changes unless the update happens.
pub fn update_post(
    store: &mut Store,
    tokens: &TokenService,
    header: Option<&str>,
    id: i32,
    title: &str,
    text: &str,
    explicit_slug: Option<&str>,
    is_published: bool,
    max_length: Option<usize>,
    now: i64,
) -> (r: Result<(), ApiError>)
    requires
        old(store).wf(),
    ensures
        final(store).wf(),
        final(store).users() == old(store).users(),
        header_refused(header) ==> r == Err::<(), ApiError>(ApiError::Unauthenticated),
        r is Err ==> final(store).posts() == old(store).posts(),
        r == match update_refusal(*old(store), auth_subject(header, tokens.secret(), now), id, generated(title@, text_view(explicit_slug), max_length)) {
            Some(err) => Err::<(), ApiError>(err),
            None => Ok(()),
        },
        r is Ok ==> post_replaced(old(store).posts(), final(store).posts(), id,
            generated(title@, text_view(explicit_slug), max_length), title@, text@, is_published),
        forall|u: i32, e: Seq<char>, x: i64|
            0 <= x && presents(header, #[trigger] jwt_of(u, e, x, tokens.secret())) ==>
                r == match update_refusal(*old(store), subject_at(u, x, now), id, generated(title@, text_view(explicit_slug), max_length)) {
                    Some(err) => Err::<(), ApiError>(err),
                    None => Ok(()),
                },
{
    let validated = authenticate(tokens, header, now);
    let account = match &validated {
        Ok(c) => store.find_user(c.user_id),
        Err(_) => None,
    };
    let op = match policy(Action::UpdatePost, None) {
        Some(op) => op,
        None => {
            return Err(ApiError::Forbidden);
        },
    };
    let caller = match decide(&validated, account, op) {
        Verdict::Allow(s) => s,
        Verdict::Forbidden => {
            return Err(ApiError::Forbidden);
        },
        Verdict::Unauthenticated => {
            return Err(ApiError::Unauthenticated);
        },
    };
    let slug = generate(title, explicit_slug, max_length);
    assert(gate_verdict(old(store).users(), Ok(caller), admin_only()) == Verdict::Allow(caller));
    assert forall|u: i32, e: Seq<char>, x: i64|
        0 <= x && presents(header, #[trigger] jwt_of(u, e, x, tokens.secret())) implies
            subject_at(u, x, now) == Ok::<i32, TokenError>(caller) by {
    }
    assert(auth_subject(header, tokens.secret(), now) == Ok::<i32, TokenError>(caller));
    match store.replace_post(id, slug, title.to_string(), text.to_string(), is_published) {
        Ok(()) => {
            assert(update_refusal(*old(store), Ok(caller), id, generated(title@, text_view(explicit_slug), max_length)) is None);
            Ok(())
        },
        Err(e) => Err(e),
    }
}

/// `after` is `before` with one account added at the end: disabled, not an
/// admin, under these name and email.
pub open spec fn user_added(before: Seq<User>, after: Seq<User>, id: i32, username: Seq<char>, email: Seq<char>) -> bool {
    &&& after.len() == before.len() + 1
    &&& after.drop_last() == before
    &&& user_by_id(before, id) is None
    &&& after.last().id == id
    &&& after.last().username@ == username
    &&& after.last().email@ == email
    &&& !after.last().is_active
    &&& !after.last().is_admin
}

/// Registers an account. Its user name is `username` in slug form, and it
/// starts disabled and without admin rights; the password is stored only
/// as its bcrypt hash. A name already taken is `DuplicateUsername`; a
/// failure to hash, or a store out of ids, is `StoreError`. Nothing changes
/// unless the account is added.
pub fn register(store: &mut Store, username: &str, email: &str, password: &str) -> (r: Result<i32, ApiError>)
    requires
        old(store).wf(),
    ensures
        final(store).wf(),
        final(store).posts() == old(store).posts(),
        name_taken(old(store).users(), slug_of(username@, None)) ==> r == Err::<i32, ApiError>(ApiError::DuplicateUsername),
        !name_taken(old(store).users(), slug_of(username@, None)) && r is Err ==> r == Err::<i32, ApiError>(ApiError::StoreError),
        r is Err ==> final(store).users() == old(store).users(),
        r is Ok ==> user_added(old(store).users(), final(store).users(), r->Ok_0, slug_of(username@, None), email@),
        r is Ok ==> bcrypt_verdict(password@, final(store).users().last().password_hash@) == Some(true),
{
    let name = normalize(username);
    if store.find_user_by_name(name.as_str()).is_some() {
        return Err(ApiError::DuplicateUsername);
    }
    let hash = match hash_password(password) {
        Ok(h) => h,
        Err(_) => {
            return Err(ApiError::StoreError);
        },
    };
    let ghost before = store.users();
    let r = store.add_user(name, email.to_string(), hash);
    proof {
        if r is Ok {
            assert(final(store).users().drop_last() =~= before);
        }
    }
    r
}

/// Logs in with a user name and password, issuing a token valid for one
/// day from `now`. The account's active flag is not consulted. An unknown
/// name is `NotFound`; a password that bcrypt does not confirm against the
/// stored hash is `Unauthenticated`; a token that cannot be issued is
/// `StoreError`.
pub fn login(store: &Store, tokens: &TokenService, username: &str, password: &str, now: i64) -> (r: Result<String, ApiError>)
    requires
        store.wf(),
    ensures
        user_by_name(store.users(), username@) is None <==> r == Err::<String, ApiError>(ApiError::NotFound),
        user_by_name(store.users(), username@) matches Some(u)
            && bcrypt_verdict(password@, u.password_hash@) != Some(true) ==> r == Err::<String, ApiError>(ApiError::Unauthenticated),
        r is Ok ==> (user_by_name(store.users(), username@) matches Some(u)
            && bcrypt_verdict(password@, u.password_hash@) == Some(true)
            && expiry_fits(expiry(now, 1))
            && r->Ok_0@ == jwt_of(u.id, u.email@, expiry(now, 1) as i64, tokens.secret())),
        user_by_name(store.users(), username@) matches Some(u) && bcrypt_verdict(password@, u.password_hash@) == Some(true)
            && expiry_fits(expiry(now, 1)) ==> r is Ok,
        r is Err ==> r->Err_0 == ApiError::NotFound || r->Err_0 == ApiError::Unauthenticated || r->Err_0 == ApiError::StoreError,
{
    let user = match store.find_user_by_name(username) {
        Some(u) => u,
        None => {
            return Err(ApiError::NotFound);
        },
    };
    if !check_password(password, user.password_hash.as_str()) {
        return Err(ApiError::Unauthenticated);
    }
    match tokens.issue_at(user.id, user.email.as_str(), 1, now) {
        Some(t) => Ok(t),
        None => Err(ApiError::StoreError),
    }
}

/// An inactive account is never usable, whatever its admin flag and
/// whatever the operation asks for.
pub proof fn lemma_inactive_account_refused(user: User, require_admin: bool)
    requires
        !user.is_active,
    ensures
        !account_usable(Some(user), require_admin),
{
}

/// Deleting a post that the caller does not own is `Forbidden`, whoever
/// the caller is: also for a valid, active caller, admin or not.
pub proof fn lemma_delete_by_non_owner_forbidden(store: Store, caller: i32, id: i32)
    requires
        post_by_id(store.posts(), id) is Some,
        post_by_id(store.posts(), id)->0.user_id != Some(caller),
    ensures
        delete_outcome(store, Ok(caller), id) == Err::<(), ApiError>(ApiError::Forbidden),
{
}

} // verus!
