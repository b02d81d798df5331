//! An in-memory store of users and posts that enforces the uniqueness rules
//! itself: user ids, user names, post ids and post slugs are each unique.

use vstd::prelude::*;
use crate::gate::{deref_opt, User};

verus! {

/// A post.
#[derive(Debug)]
pub struct Post {
    pub id: i32,
    /// The owner; `None` only for rows authored by the system.
    pub user_id: Option<i32>,
    pub slug: String,
    pub title: String,
    pub text: String,
    pub is_published: bool,
}

/// Why a store or API operation did not happen.
#[derive(PartialEq, Eq, Structural, Clone, Copy, Debug)]
pub enum ApiError {
    Unauthenticated,
    Forbidden,
    NotFound,
    DuplicateSlug,
    DuplicateUsername,
    StoreError,
}

/// The user with the given id, if any.
pub open spec fn user_by_id(users: Seq<User>, id: i32) -> Option<User> {
    if exists|i: int| 0 <= i < users.len() && #[trigger] users[i].id == id {
        Some(users[choose|i: int| 0 <= i < users.len() && #[trigger] users[i].id == id])
    } else {
        None
    }
}

/// The user with the given user name, if any.
pub open spec fn user_by_name(users: Seq<User>, name: Seq<char>) -> Option<User> {
    if exists|i: int| 0 <= i < users.len() && #[trigger] users[i].username@ == name {
        Some(users[choose|i: int| 0 <= i < users.len() && #[trigger] users[i].username@ == name])
    } else {
        None
    }
}

/// The post with the given id, if any.
pub open spec fn post_by_id(posts: Seq<Post>, id: i32) -> Option<Post> {
    if exists|i: int| 0 <= i < posts.len() && #[trigger] posts[i].id == id {
        Some(posts[choose|i: int| 0 <= i < posts.len() && #[trigger] posts[i].id == id])
    } else {
        None
    }
}

/// Whether some post has the given slug.
pub open spec fn slug_taken(posts: Seq<Post>, slug: Seq<char>) -> bool {
    exists|i: int| 0 <= i < posts.len() && #[trigger] posts[i].slug@ == slug
}

/// Whether some post other than `id` has the given slug.
pub open spec fn slug_taken_by_other(posts: Seq<Post>, slug: Seq<char>, id: i32) -> bool {
    exists|i: int| 0 <= i < posts.len() && #[trigger] posts[i].slug@ == slug && posts[i].id != id
}

/// Whether some user has the given name.
pub open spec fn name_taken(users: Seq<User>, name: Seq<char>) -> bool {
    exists|i: int| 0 <= i < users.len() && #[trigger] users[i].username@ == name
}

/// The posts without the one whose id is `id`.
pub open spec fn without_post(posts: Seq<Post>, id: i32) -> Seq<Post> {
    posts.filter(|p: Post| p.id != id)
}

/// Filtering out an id that no post has keeps every post.
proof fn lemma_filter_keeps_all(posts: Seq<Post>, id: i32)
    requires
        forall|k: int| 0 <= k < posts.len() ==> #[trigger] posts[k].id != id,
    ensures
        posts.filter(|p: Post| p.id != id) == posts,
    decreases posts.len(),
{
    reveal(Seq::filter);
    if posts.len() > 0 {
        let init = posts.drop_last();
        assert forall|k: int| 0 <= k < init.len() implies #[trigger] init[k].id != id by {
            assert(init[k] == posts[k]);
        }
        lemma_filter_keeps_all(init, id);
        assert(posts =~= init.push(posts.last()));
    }
}

/// Filtering out the id of the single post at `i` removes exactly that post.
proof fn lemma_filter_drops_one(posts: Seq<Post>, id: i32, i: int)
    requires
        0 <= i < posts.len(),
        posts[i].id == id,
        forall|a: int, b: int| 0 <= a < b < posts.len() ==> #[trigger] posts[a].id != #[trigger] posts[b].id,
    ensures
        posts.filter(|p: Post| p.id != id) == posts.remove(i),
    decreases posts.len(),
{
    reveal(Seq::filter);
    let init = posts.drop_last();
    if i == posts.len() - 1 {
        assert forall|k: int| 0 <= k < init.len() implies #[trigger] init[k].id != id by {
            assert(init[k] == posts[k]);
        }
        lemma_filter_keeps_all(init, id);
        assert(posts.remove(i) =~= init);
    } else {
        assert forall|a: int, b: int| 0 <= a < b < init.len() implies #[trigger] init[a].id != #[trigger] init[b].id by {
            assert(init[a] == posts[a] && init[b] == posts[b]);
        }
        assert(posts.last().id != id) by {
            assert(posts[i].id != posts[posts.len() - 1].id);
        }
        lemma_filter_drops_one(init, id, i);
        assert(posts =~= init.push(posts.last()));
        assert(posts.remove(i) =~= init.remove(i).push(posts.last()));
    }
}

/// Users and posts, with the counters that hand out fresh ids.
pub struct Store {
    users: Vec<User>,
    posts: Vec<Post>,
    next_user_id: i32,
    next_post_id: i32,
}

impl Store {
    pub closed spec fn users(&self) -> Seq<User> {
        self.users@
    }

    pub closed spec fn posts(&self) -> Seq<Post> {
        self.posts@
    }

    /// Whether a fresh post id can still be handed out.
    pub closed spec fn has_post_id_left(&self) -> bool {
        self.next_post_id < i32::MAX
    }

    /// Whether a fresh user id can still be handed out.
    pub closed spec fn has_user_id_left(&self) -> bool {
        self.next_user_id < i32::MAX
    }

    /// Ids, user names and slugs are unique; every id is below its counter.
    pub closed spec fn wf(&self) -> bool {
        &&& 1 <= self.next_user_id
        &&& 1 <= self.next_post_id
        &&& forall|i: int| 0 <= i < self.users@.len() ==> 1 <= #[trigger] self.users@[i].id < self.next_user_id
        &&& forall|i: int| 0 <= i < self.posts@.len() ==> 1 <= #[trigger] self.posts@[i].id < self.next_post_id
        &&& forall|i: int, j: int| 0 <= i < j < self.users@.len() ==> #[trigger] self.users@[i].id != #[trigger] self.users@[j].id
        &&& forall|i: int, j: int| 0 <= i < j < self.users@.len() ==> #[trigger] self.users@[i].username@ != #[trigger] self.users@[j].username@
        &&& forall|i: int, j: int| 0 <= i < j < self.posts@.len() ==> #[trigger] self.posts@[i].id != #[trigger] self.posts@[j].id
        &&& forall|i: int, j: int| 0 <= i < j < self.posts@.len() ==> #[trigger] self.posts@[i].slug@ != #[trigger] self.posts@[j].slug@
    }

    /// In a well-formed store no two posts share a slug, no two posts share
    /// an id, and no two accounts share an id or a user name.
    pub proof fn lemma_unique_keys(&self)
        requires
            self.wf(),
        ensures
            forall|i: int, j: int| 0 <= i < j < self.posts().len() ==> #[trigger] self.posts()[i].slug@ != #[trigger] self.posts()[j].slug@,
            forall|i: int, j: int| 0 <= i < j < self.posts().len() ==> #[trigger] self.posts()[i].id != #[trigger] self.posts()[j].id,
            forall|i: int, j: int| 0 <= i < j < self.users().len() ==> #[trigger] self.users()[i].id != #[trigger] self.users()[j].id,
            forall|i: int, j: int| 0 <= i < j < self.users().len() ==> #[trigger] self.users()[i].username@ != #[trigger] self.users()[j].username@,
    {
    }

    /// An empty store.
    pub fn new() -> (r: Store)
        ensures
            r.wf(),
            r.has_post_id_left(),
            r.has_user_id_left(),
            r.users() == Seq::<User>::empty(),
            r.posts() == Seq::<Post>::empty(),
    {
        Store { users: Vec::new(), posts: Vec::new(), next_user_id: 1, next_post_id: 1 }
    }

    /// The number of posts.
    pub fn post_count(&self) -> (r: usize)
        ensures
            r == self.posts().len(),
    {
        self.posts.len()
    }

    /// The number of accounts.
    pub fn user_count(&self) -> (r: usize)
        ensures
            r == self.users().len(),
    {
        self.users.len()
    }

    /// The post at position `i`, in order of creation.
    pub fn post_at(&self, i: usize) -> (r: &Post)
        requires
            i < self.posts().len(),
        ensures
            *r == self.posts()[i as int],
    {
        &self.posts[i]
    }

    /// The account at position `i`, in order of registration.
    pub fn user_at(&self, i: usize) -> (r: &User)
        requires
            i < self.users().len(),
        ensures
            *r == self.users()[i as int],
    {
        &self.users[i]
    }

    /// Looks a user up by id.
    pub fn find_user(&self, id: i32) -> (r: Option<&User>)
        requires
            self.wf(),
        ensures
            deref_opt(r) == user_by_id(self.users(), id),
    {
        let mut i: usize = 0;
        while i < self.users.len()
            invariant
                self.wf(),
                i <= self.users@.len(),
                forall|k: int| 0 <= k < i ==> #[trigger] self.users@[k].id != id,
            decreases self.users@.len() - i,
        {
            if self.users[i].id == id {
                let ghost j = choose|j: int| 0 <= j < self.users@.len() && #[trigger] self.users@[j].id == id;
                assert(j == i as int);
                return Some(&self.users[i]);
            }
            i = i + 1;
        }
        None
    }

    /// Looks a user up by user name.
    pub fn find_user_by_name(&self, name: &str) -> (r: Option<&User>)
        requires
            self.wf(),
        ensures
            deref_opt(r) == user_by_name(self.users(), name@),
    {
        let wanted = name.to_string();
        let mut i: usize = 0;
        while i < self.users.len()
            invariant
                self.wf(),
                wanted@ == name@,
                i <= self.users@.len(),
                forall|k: int| 0 <= k < i ==> #[trigger] self.users@[k].username@ != name@,
            decreases self.users@.len() - i,
        {
            if self.users[i].username == wanted {
                let ghost j = choose|j: int| 0 <= j < self.users@.len() && #[trigger] self.users@[j].username@ == name@;
                assert(j == i as int);
                return Some(&self.users[i]);
            }
            i = i + 1;
        }
        None
    }

    /// The position of the post with the given id.
    fn post_index(&self, id: i32) -> (r: Option<usize>)
        requires
            self.wf(),
        ensures
            r is Some ==> r->0 < self.posts@.len() && self.posts@[r->0 as int].id == id,
            r is None ==> forall|k: int| 0 <= k < self.posts@.len() ==> #[trigger] self.posts@[k].id != id,
    {
        let mut i: usize = 0;
        while i < self.posts.len()
            invariant
                i <= self.posts@.len(),
                forall|k: int| 0 <= k < i ==> #[trigger] self.posts@[k].id != id,
            decreases self.posts@.len() - i,
        {
            if self.posts[i].id == id {
                return Some(i);
            }
            i = i + 1;
        }
        None
    }

    /// Looks a post up by id.
    pub fn find_post(&self, id: i32) -> (r: Option<&Post>)
        requires
            self.wf(),
        ensures
            deref_opt(r) == post_by_id(self.posts(), id),
    {
        match self.post_index(id) {
            Some(i) => {
                let ghost j = choose|j: int| 0 <= j < self.posts@.len() && #[trigger] self.posts@[j].id == id;
                assert(j == i as int);
                Some(&self.posts[i])
            },
            None => None,
        }
    }

    /// Looks a post up by slug.
    pub fn find_post_by_slug(&self, slug: &str) -> (r: Option<&Post>)
        requires
            self.wf(),
        ensures
            r is None <==> !slug_taken(self.posts(), slug@),
            r is Some ==> self.posts().contains(*r->0) && r->0.slug@ == slug@,
    {
        let wanted = slug.to_string();
        let mut i: usize = 0;
        while i < self.posts.len()
            invariant
                wanted@ == slug@,
                i <= self.posts@.len(),
                forall|k: int| 0 <= k < i ==> #[trigger] self.posts@[k].slug@ != slug@,
            decreases self.posts@.len() - i,
        {
            if self.posts[i].slug == wanted {
                return Some(&self.posts[i]);
            }
            i = i + 1;
        }
        None
    }

    /// Whether a post other than `except` (when given) already has `slug`.
    fn slug_in_use(&self, slug: &String, except: Option<i32>) -> (r: bool)
        requires
            self.wf(),
        ensures
            except is None ==> r == slug_taken(self.posts(), slug@),
            except is Some ==> r == slug_taken_by_other(self.posts(), slug@, except->0),
    {
        let mut i: usize = 0;
        while i < self.posts.len()
            invariant
                i <= self.posts@.len(),
                forall|k: int| 0 <= k < i ==> #[trigger] self.posts@[k].slug@ != slug@
                    || (except is Some && self.posts@[k].id == except->0),
            decreases self.posts@.len() - i,
        {
            if self.posts[i].slug == *slug {
                match except {
                    Some(e) => {
                        if self.posts[i].id != e {
                            return true;
                        }
                    },
                    None => {
                        return true;
                    },
                }
            }
            i = i + 1;
        }
        false
    }

    /// Adds an account, disabled and without admin rights, under a fresh id.
    /// A user name already in use is refused; so is a store whose ids are
    /// exhausted.
    pub fn add_user(&mut self, username: String, email: String, password_hash: String) -> (r: Result<i32, ApiError>)
        requires
            old(self).wf(),
        ensures
            final(self).wf(),
            name_taken(old(self).users(), username@) ==> r == Err::<i32, ApiError>(ApiError::DuplicateUsername),
            r is Err ==> final(self).users() == old(self).users(),
            r is Err && !name_taken(old(self).users(), username@) ==> r == Err::<i32, ApiError>(ApiError::StoreError),
            !name_taken(old(self).users(), username@) && old(self).has_user_id_left() ==> r is Ok,
            final(self).posts() == old(self).posts(),
            r is Ok ==> user_by_id(old(self).users(), r->Ok_0) is None && final(self).users() == old(self).users().push(
                User { id: r->Ok_0, username, email, password_hash, is_active: false, is_admin: false },
            ),
    {
        let wanted = username.clone();
        let mut i: usize = 0;
        while i < self.users.len()
            invariant
                self.wf(),
                *self == *old(self),
                i <= self.users@.len(),
                forall|k: int| 0 <= k < i ==> #[trigger] self.users@[k].username@ != username@,
            decreases self.users@.len() - i,
        {
            if self.users[i].username == username {
                return Err(ApiError::DuplicateUsername);
            }
            i = i + 1;
        }
        if self.next_user_id == i32::MAX {
            return Err(ApiError::StoreError);
        }
        let id = self.next_user_id;
        let user = User { id, username, email, password_hash, is_active: false, is_admin: false };
        self.users.push(user);
        self.next_user_id = id + 1;
        Ok(id)
    }

    /// Sets the account flags of a user; the administrative path that
    /// activates accounts and grants admin rights.
    pub fn set_account_flags(&mut self, id: i32, is_active: bool, is_admin: bool) -> (r: Result<(), ApiError>)
        requires
            old(self).wf(),
        ensures
            final(self).wf(),
            final(self).posts() == old(self).posts(),
            r is Err <==> user_by_id(old(self).users(), id) is None,
            r is Err ==> r == Err::<(), ApiError>(ApiError::NotFound) && final(self).users() == old(self).users(),
            r is Ok ==> final(self).users().len() == old(self).users().len() && forall|k: int|
                0 <= k < old(self).users().len() ==> #[trigger] final(self).users()[k] == if old(self).users()[k].id == id {
                    User { is_active, is_admin, ..old(self).users()[k] }
                } else {
                    old(self).users()[k]
                },
    {
        let mut i: usize = 0;
        while i < self.users.len()
            invariant
                self.wf(),
                *self == *old(self),
                i <= self.users@.len(),
                forall|k: int| 0 <= k < i ==> #[trigger] self.users@[k].id != id,
            decreases self.users@.len() - i,
        {
            if self.users[i].id == id {
                let ghost before = self.users@;
                let mut u = self.users.remove(i);
                u.is_active = is_active;
                u.is_admin = is_admin;
                self.users.insert(i, u);
                assert(self.users@ =~= before.update(i as int, self.users@[i as int]));
                return Ok(());
            }
            i = i + 1;
        }
        Err(ApiError::NotFound)
    }

    /// Adds a post under a fresh id. The store's uniqueness of slugs is the
    /// authority: a slug already in use is refused.
    pub fn add_post(&mut self, user_id: Option<i32>, slug: String, title: String, text: String, is_published: bool) -> (r: Result<i32, ApiError>)
        requires
            old(self).wf(),
        ensures
            final(self).wf(),
            final(self).users() == old(self).users(),
            slug_taken(old(self).posts(), slug@) ==> r == Err::<i32, ApiError>(ApiError::DuplicateSlug),
            r is Err ==> final(self).posts() == old(self).posts(),
            r is Err && !slug_taken(old(self).posts(), slug@) ==> r == Err::<i32, ApiError>(ApiError::StoreError),
            !slug_taken(old(self).posts(), slug@) && old(self).has_post_id_left() ==> r is Ok,
            r is Ok ==> post_by_id(old(self).posts(), r->Ok_0) is None && final(self).posts() == old(self).posts().push(
                Post { id: r->Ok_0, user_id, slug, title, text, is_published },
            ),
    {
        if self.slug_in_use(&slug, None) {
            return Err(ApiError::DuplicateSlug);
        }
        if self.next_post_id == i32::MAX {
            return Err(ApiError::StoreError);
        }
        let id = self.next_post_id;
        let post = Post { id, user_id, slug, title, text, is_published };
        self.posts.push(post);
        self.next_post_id = id + 1;
        Ok(id)
    }

    /// Removes the post with the given id.
    pub fn remove_post(&mut self, id: i32) -> (r: Result<(), ApiError>)
        requires
            old(self).wf(),
        ensures
            final(self).wf(),
            final(self).users() == old(self).users(),
            r is Err <==> post_by_id(old(self).posts(), id) is None,
            r is Err ==> r == Err::<(), ApiError>(ApiError::NotFound) && final(self).posts() == old(self).posts(),
            r is Ok ==> final(self).posts() == without_post(old(self).posts(), id),
            post_by_id(final(self).posts(), id) is None,
    {
        match self.post_index(id) {
            Some(i) => {
                let ghost before = self.posts@;
                self.posts.remove(i);
                proof {
                    let after = self.posts@;
                    assert(after =~= before.remove(i as int));
                    lemma_filter_drops_one(before, id, i as int);
                    assert forall|k: int| 0 <= k < after.len() implies #[trigger] after[k].id != id by {
                        if k < i {
                            assert(after[k] == before[k]);
                        } else {
                            assert(after[k] == before[k + 1]);
                        }
                    }
                }
                Ok(())
            },
            None => {
                proof {
                    let ps = self.posts@;
                    assert(ps.filter(|p: Post| p.id != id) =~= ps) by {
                        lemma_filter_keeps_all(ps, id);
                    }
                }
                Err(ApiError::NotFound)
            },
        }
    }

    /// Replaces the slug, title, text and publication flag of a post, keeping
    /// its id and owner. A slug that another post holds is refused.
    pub fn replace_post(&mut self, id: i32, slug: String, title: String, text: String, is_published: bool) -> (r: Result<(), ApiError>)
        requires
            old(self).wf(),
        ensures
            final(self).wf(),
            final(self).users() == old(self).users(),
            post_by_id(old(self).posts(), id) is None ==> r == Err::<(), ApiError>(ApiError::NotFound),
            post_by_id(old(self).posts(), id) is Some && slug_taken_by_other(old(self).posts(), slug@, id)
                ==> r == Err::<(), ApiError>(ApiError::DuplicateSlug),
            r is Err ==> final(self).posts() == old(self).posts(),
            r is Ok <==> post_by_id(old(self).posts(), id) is Some && !slug_taken_by_other(old(self).posts(), slug@, id),
            r is Ok ==> final(self).posts().len() == old(self).posts().len() && forall|k: int|
                0 <= k < old(self).posts().len() ==> #[trigger] final(self).posts()[k] == if old(self).posts()[k].id == id {
                    Post { id, user_id: old(self).posts()[k].user_id, slug, title, text, is_published }
                } else {
                    old(self).posts()[k]
                },
    {
        match self.post_index(id) {
            Some(i) => {
                let ghost j = choose|j: int| 0 <= j < self.posts@.len() && #[trigger] self.posts@[j].id == id;
                assert(j == i as int);
                if self.slug_in_use(&slug, Some(id)) {
                    return Err(ApiError::DuplicateSlug);
                }
                let ghost before = self.posts@;
                let owner = self.posts[i].user_id;
                let post = Post { id, user_id: owner, slug, title, text, is_published };
                self.posts.set(i, post);
                assert(self.posts@ =~= before.update(i as int, self.posts@[i as int]));
                Ok(())
            },
            None => Err(ApiError::NotFound),
        }
    }

    /// Whether a post already has `slug`.
    pub fn has_slug(&self, slug: &String) -> (r: bool)
        requires
            self.wf(),
        ensures
            r == slug_taken(self.posts(), slug@),
    {
        self.slug_in_use(slug, None)
    }
}

} // verus!
