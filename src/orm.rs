//! Create, read, update and delete operations on the store. Each `create_*`
//! draws a fresh identifier and reads the clock, then hands both to the
//! matching `insert_*`, whose outcome is fixed by its arguments.
use vstd::prelude::*;

use crate::error_handler::AppError;
use crate::ids::{fresh_id, is_v4, now_micros};
use crate::models::{Blog, Comment, Like, User};
use crate::store::{
    lookup, only_blogs_changed, only_comments_changed, only_likes_changed, only_users_changed,
    Store,
};

verus! {

// ---- users ----

/// `r` and the passage from store `a` to store `b` are an outcome of
/// creating a user with these fields: either a new row under an identifier
/// that was free, or a store fault with nothing changed. A fault needs an
/// identifier collision, so it cannot happen while there are no users.
pub open spec fn user_creation(
    a: Store,
    b: Store,
    username: Seq<char>,
    email: Seq<char>,
    password_hash: Seq<char>,
    r: Result<User, AppError>,
) -> bool {
    &&& only_users_changed(a, b)
    &&& r is Err ==> exists|k: u128| a.users@.contains_key(k)
    &&& match r {
        Ok(u) => {
            &&& is_v4(u.id)
            &&& !a.users@.contains_key(u.id)
            &&& u.username@ == username
            &&& u.email@ == email
            &&& u.password_hash@ == password_hash
            &&& b.users@ == a.users@.insert(u.id, u)
        },
        Err(e) => e == AppError::InternalServerError && b.users@ == a.users@,
    }
}

/// Adds the user `id` created at `now`; fails if `id` is taken.
pub fn insert_user(
    store: &mut Store,
    id: u128,
    now: i64,
    username: &str,
    email: &str,
    password_hash: &str,
) -> (r: Result<User, AppError>)
    requires
        old(store).wf(),
    ensures
        final(store).wf(),
        only_users_changed(*old(store), *final(store)),
        r is Ok <==> !old(store).users@.contains_key(id),
        match r {
            Ok(u) => {
                &&& u.id == id
                &&& u.username@ == username@
                &&& u.email@ == email@
                &&& u.password_hash@ == password_hash@
                &&& u.created_at == now
                &&& final(store).users@ == old(store).users@.insert(id, u)
            },
            Err(e) => e == AppError::InternalServerError && final(store).users@ == old(store).users@,
        },
{
    let u = User {
        id,
        username: String::from_str(username),
        email: String::from_str(email),
        password_hash: String::from_str(password_hash),
        created_at: now,
    };
    if store.users.insert(u.clone()) {
        Ok(u)
    } else {
        Err(AppError::InternalServerError)
    }
}

/// Adds a user under a freshly generated identifier, stamped with the
/// current time.
pub fn create_user(store: &mut Store, username: &str, email: &str, password_hash: &str) -> (r: Result<User, AppError>)
    requires
        old(store).wf(),
    ensures
        final(store).wf(),
        user_creation(*old(store), *final(store), username@, email@, password_hash@, r),
{
    let id = fresh_id();
    let now = now_micros();
    insert_user(store, id, now, username, email, password_hash)
}

pub fn get_user(store: &Store, user_id: u128) -> (r: Result<User, AppError>)
    requires
        store.wf(),
    ensures
        r == lookup(store.users@, user_id),
{
    match store.users.get(user_id) {
        Some(u) => Ok(u),
        None => Err(AppError::NotFound),
    }
}

/// Sets the username and email of user `user_id`.
pub fn update_user(store: &mut Store, user_id: u128, username: &str, email: &str) -> (r: Result<User, AppError>)
    requires
        old(store).wf(),
    ensures
        final(store).wf(),
        only_users_changed(*old(store), *final(store)),
        r is Ok <==> old(store).users@.contains_key(user_id),
        match r {
            Ok(u) => {
                let before = old(store).users@[user_id];
                &&& u.id == user_id
                &&& u.username@ == username@
                &&& u.email@ == email@
                &&& u.password_hash == before.password_hash
                &&& u.created_at == before.created_at
                &&& final(store).users@ == old(store).users@.insert(user_id, u)
            },
            Err(e) => e == AppError::NotFound && final(store).users@ == old(store).users@,
        },
{
    match store.users.get(user_id) {
        None => Err(AppError::NotFound),
        Some(before) => {
            let u = User {
                id: before.id,
                username: String::from_str(username),
                email: String::from_str(email),
                password_hash: before.password_hash,
                created_at: before.created_at,
            };
            store.users.replace(u.clone());
            Ok(u)
        },
    }
}

/// Removes user `user_id`; the count is the number of rows removed.
pub fn delete_user(store: &mut Store, user_id: u128) -> (r: Result<usize, AppError>)
    requires
        old(store).wf(),
    ensures
        final(store).wf(),
        only_users_changed(*old(store), *final(store)),
        r == Ok::<usize, AppError>(if old(store).users@.contains_key(user_id) { 1usize } else { 0usize }),
        final(store).users@ == old(store).users@.remove(user_id),
{
    Ok(store.users.remove(user_id))
}

// ---- blogs ----

/// `r` and the passage from store `a` to store `b` are an outcome of
/// creating a blog with these fields: a new row under an identifier that
/// was free, with equal created and updated stamps; or a store fault with
/// nothing changed, which is certain when the author does not exist and
/// otherwise needs an identifier collision.
pub open spec fn blog_creation(
    a: Store,
    b: Store,
    title: Seq<char>,
    content: Seq<char>,
    author_id: u128,
    r: Result<Blog, AppError>,
) -> bool {
    &&& only_blogs_changed(a, b)
    &&& !a.users@.contains_key(author_id) ==> r == Err::<Blog, AppError>(AppError::InternalServerError)
    &&& r is Err ==> !a.users@.contains_key(author_id) || exists|k: u128| a.blogs@.contains_key(k)
    &&& match r {
        Ok(x) => {
            &&& is_v4(x.id)
            &&& !a.blogs@.contains_key(x.id)
            &&& x.title@ == title
            &&& x.content@ == content
            &&& x.author_id == author_id
            &&& x.created_at == x.updated_at
            &&& b.blogs@ == a.blogs@.insert(x.id, x)
        },
        Err(e) => e == AppError::InternalServerError && b.blogs@ == a.blogs@,
    }
}

/// `r` and the passage from store `a` to store `b` are an outcome of
/// editing blog `blog_id`: absent, it is not found; present, its title and
/// content are replaced and its updated stamp moves strictly forward, all
/// else kept, unless its stamp is already the last representable one, in
/// which case a store fault leaves it as it was.
pub open spec fn blog_update(
    a: Store,
    b: Store,
    blog_id: u128,
    title: Seq<char>,
    content: Seq<char>,
    r: Result<Blog, AppError>,
) -> bool {
    &&& only_blogs_changed(a, b)
    &&& !a.blogs@.contains_key(blog_id) ==> r == Err::<Blog, AppError>(AppError::NotFound)
    &&& a.blogs@.contains_key(blog_id) ==> (r is Ok <==> a.blogs@[blog_id].updated_at < i64::MAX)
    &&& a.blogs@.contains_key(blog_id) && r is Err ==> r == Err::<Blog, AppError>(AppError::InternalServerError)
    &&& match r {
        Ok(x) => {
            let before = a.blogs@[blog_id];
            &&& a.blogs@.contains_key(blog_id)
            &&& x.id == blog_id
            &&& x.title@ == title
            &&& x.content@ == content
            &&& x.author_id == before.author_id
            &&& x.created_at == before.created_at
            &&& x.updated_at > before.updated_at
            &&& b.blogs@ == a.blogs@.insert(blog_id, x)
        },
        Err(_) => b.blogs@ == a.blogs@,
    }
}

/// Adds the blog `id` by `author_id`, created at `now`; fails if `id` is
/// taken or no user `author_id` exists.
pub fn insert_blog(
    store: &mut Store,
    id: u128,
    now: i64,
    title: &str,
    content: &str,
    author_id: u128,
) -> (r: Result<Blog, AppError>)
    requires
        old(store).wf(),
    ensures
        final(store).wf(),
        only_blogs_changed(*old(store), *final(store)),
        r is Ok <==> !old(store).blogs@.contains_key(id) && old(store).users@.contains_key(author_id),
        match r {
            Ok(b) => {
                &&& b.id == id
                &&& b.title@ == title@
                &&& b.content@ == content@
                &&& b.author_id == author_id
                &&& b.created_at == now
                &&& b.updated_at == now
                &&& final(store).blogs@ == old(store).blogs@.insert(id, b)
            },
            Err(e) => e == AppError::InternalServerError && final(store).blogs@ == old(store).blogs@,
        },
{
    if !store.users.contains(author_id) {
        return Err(AppError::InternalServerError);
    }
    let b = Blog {
        id,
        title: String::from_str(title),
        content: String::from_str(content),
        author_id,
        created_at: now,
        updated_at: now,
    };
    if store.blogs.insert(b.clone()) {
        Ok(b)
    } else {
        Err(AppError::InternalServerError)
    }
}

/// Adds a blog under a freshly generated identifier, stamped with the
/// current time; fails if no user `author_id` exists.
pub fn create_blog(store: &mut Store, title: &str, content: &str, author_id: u128) -> (r: Result<Blog, AppError>)
    requires
        old(store).wf(),
    ensures
        final(store).wf(),
        blog_creation(*old(store), *final(store), title@, content@, author_id, r),
{
    let id = fresh_id();
    let now = now_micros();
    insert_blog(store, id, now, title, content, author_id)
}

pub fn get_blog(store: &Store, blog_id: u128) -> (r: Result<Blog, AppError>)
    requires
        store.wf(),
    ensures
        r == lookup(store.blogs@, blog_id),
{
    match store.blogs.get(blog_id) {
        Some(b) => Ok(b),
        None => Err(AppError::NotFound),
    }
}

/// The updated-at stamp of a blog last stamped `prev` and edited when the
/// clock reads `now`: the reading if it is later than `prev`, else one
/// microsecond after `prev`; none if `prev` is the last representable one.
pub open spec fn next_stamp(prev: i64, now: i64) -> Option<i64> {
    if now > prev {
        Some(now)
    } else if prev < i64::MAX {
        Some((prev + 1) as i64)
    } else {
        None
    }
}

/// Sets the title and content of blog `blog_id`, edited at `now`.
pub fn apply_blog_update(store: &mut Store, blog_id: u128, now: i64, title: &str, content: &str) -> (r: Result<Blog, AppError>)
    requires
        old(store).wf(),
    ensures
        final(store).wf(),
        only_blogs_changed(*old(store), *final(store)),
        !old(store).blogs@.contains_key(blog_id) ==> r == Err::<Blog, AppError>(AppError::NotFound),
        old(store).blogs@.contains_key(blog_id) && next_stamp(old(store).blogs@[blog_id].updated_at, now) is None
            ==> r == Err::<Blog, AppError>(AppError::InternalServerError),
        r is Ok <==> old(store).blogs@.contains_key(blog_id)
            && next_stamp(old(store).blogs@[blog_id].updated_at, now) is Some,
        match r {
            Ok(b) => {
                let before = old(store).blogs@[blog_id];
                &&& old(store).blogs@.contains_key(blog_id)
                &&& b.id == blog_id
                &&& b.title@ == title@
                &&& b.content@ == content@
                &&& b.author_id == before.author_id
                &&& b.created_at == before.created_at
                &&& next_stamp(before.updated_at, now) == Some(b.updated_at)
                &&& final(store).blogs@ == old(store).blogs@.insert(blog_id, b)
            },
            Err(_) => final(store).blogs@ == old(store).blogs@,
        },
{
    match store.blogs.get(blog_id) {
        None => Err(AppError::NotFound),
        Some(before) => {
            let stamp: i64 = if now > before.updated_at {
                now
            } else if before.updated_at < i64::MAX {
                before.updated_at + 1
            } else {
                return Err(AppError::InternalServerError);
            };
            let b = Blog {
                id: before.id,
                title: String::from_str(title),
                content: String::from_str(content),
                author_id: before.author_id,
                created_at: before.created_at,
                updated_at: stamp,
            };
            store.blogs.replace(b.clone());
            Ok(b)
        },
    }
}

/// Sets the title and content of blog `blog_id` and moves its updated-at
/// stamp strictly forward.
pub fn update_blog(store: &mut Store, blog_id: u128, title: &str, content: &str) -> (r: Result<Blog, AppError>)
    requires
        old(store).wf(),
    ensures
        final(store).wf(),
        blog_update(*old(store), *final(store), blog_id, title@, content@, r),
{
    let now = now_micros();
    apply_blog_update(store, blog_id, now, title, content)
}

/// Removes blog `blog_id`; the count is the number of rows removed.
pub fn delete_blog(store: &mut Store, blog_id: u128) -> (r: Result<usize, AppError>)
    requires
        old(store).wf(),
    ensures
        final(store).wf(),
        only_blogs_changed(*old(store), *final(store)),
        r == Ok::<usize, AppError>(if old(store).blogs@.contains_key(blog_id) { 1usize } else { 0usize }),
        final(store).blogs@ == old(store).blogs@.remove(blog_id),
{
    Ok(store.blogs.remove(blog_id))
}

// ---- comments ----

/// `r` and the passage from store `a` to store `b` are an outcome of
/// creating a comment with these fields: a new row under an identifier
/// that was free; or a store fault with nothing changed, which is certain
/// when the blog or the user does not exist and otherwise needs an
/// identifier collision.
pub open spec fn comment_creation(
    a: Store,
    b: Store,
    blog_id: u128,
    user_id: u128,
    content: Seq<char>,
    parent_comment_id: Option<u128>,
    r: Result<Comment, AppError>,
) -> bool {
    &&& only_comments_changed(a, b)
    &&& !a.blogs@.contains_key(blog_id) || !a.users@.contains_key(user_id)
        ==> r == Err::<Comment, AppError>(AppError::InternalServerError)
    &&& r is Err ==> !a.blogs@.contains_key(blog_id) || !a.users@.contains_key(user_id)
        || exists|k: u128| a.comments@.contains_key(k)
    &&& match r {
        Ok(c) => {
            &&& is_v4(c.id)
            &&& !a.comments@.contains_key(c.id)
            &&& c.blog_id == blog_id
            &&& c.user_id == user_id
            &&& c.content@ == content
            &&& c.parent_comment_id == parent_comment_id
            &&& b.comments@ == a.comments@.insert(c.id, c)
        },
        Err(e) => e == AppError::InternalServerError && b.comments@ == a.comments@,
    }
}

/// Adds the comment `id` by `user_id` on `blog_id`, created at `now`; fails
/// if `id` is taken or the blog or the user does not exist. The parent
/// comment, if given, is stored as it is.
pub fn insert_comment(
    store: &mut Store,
    id: u128,
    now: i64,
    blog_id: u128,
    user_id: u128,
    content: &str,
    parent_comment_id: Option<u128>,
) -> (r: Result<Comment, AppError>)
    requires
        old(store).wf(),
    ensures
        final(store).wf(),
        only_comments_changed(*old(store), *final(store)),
        r is Ok <==> {
            &&& !old(store).comments@.contains_key(id)
            &&& old(store).blogs@.contains_key(blog_id)
            &&& old(store).users@.contains_key(user_id)
        },
        match r {
            Ok(c) => {
                &&& c.id == id
                &&& c.blog_id == blog_id
                &&& c.user_id == user_id
                &&& c.content@ == content@
                &&& c.parent_comment_id == parent_comment_id
                &&& c.created_at == now
                &&& final(store).comments@ == old(store).comments@.insert(id, c)
            },
            Err(e) => e == AppError::InternalServerError && final(store).comments@ == old(store).comments@,
        },
{
    if !store.blogs.contains(blog_id) || !store.users.contains(user_id) {
        return Err(AppError::InternalServerError);
    }
    let c = Comment {
        id,
        blog_id,
        user_id,
        content: String::from_str(content),
        parent_comment_id,
        created_at: now,
    };
    if store.comments.insert(c.clone()) {
        Ok(c)
    } else {
        Err(AppError::InternalServerError)
    }
}

/// Adds a comment under a freshly generated identifier, stamped with the
/// current time; fails if the blog or the user does not exist.
pub fn create_comment(
    store: &mut Store,
    blog_id: u128,
    user_id: u128,
    content: &str,
    parent_comment_id: Option<u128>,
) -> (r: Result<Comment, AppError>)
    requires
        old(store).wf(),
    ensures
        final(store).wf(),
        comment_creation(*old(store), *final(store), blog_id, user_id, content@, parent_comment_id, r),
{
    let id = fresh_id();
    let now = now_micros();
    insert_comment(store, id, now, blog_id, user_id, content, parent_comment_id)
}

pub fn get_comment(store: &Store, comment_id: u128) -> (r: Result<Comment, AppError>)
    requires
        store.wf(),
    ensures
        r == lookup(store.comments@, comment_id),
{
    match store.comments.get(comment_id) {
        Some(c) => Ok(c),
        None => Err(AppError::NotFound),
    }
}

/// `r` and the passage from store `a` to store `b` are the outcome of
/// setting the content of comment `comment_id`: absent, it is not found and
/// nothing changes; present, its content is replaced and all else kept.
pub open spec fn comment_update(
    a: Store,
    b: Store,
    comment_id: u128,
    content: Seq<char>,
    r: Result<Comment, AppError>,
) -> bool {
    &&& only_comments_changed(a, b)
    &&& r is Ok <==> a.comments@.contains_key(comment_id)
    &&& match r {
        Ok(c) => {
            let before = a.comments@[comment_id];
            &&& c.id == comment_id
            &&& c.blog_id == before.blog_id
            &&& c.user_id == before.user_id
            &&& c.content@ == content
            &&& c.parent_comment_id == before.parent_comment_id
            &&& c.created_at == before.created_at
            &&& b.comments@ == a.comments@.insert(comment_id, c)
        },
        Err(e) => e == AppError::NotFound && b.comments@ == a.comments@,
    }
}

/// Sets the content of comment `comment_id`.
pub fn update_comment(store: &mut Store, comment_id: u128, content: &str) -> (r: Result<Comment, AppError>)
    requires
        old(store).wf(),
    ensures
        final(store).wf(),
        comment_update(*old(store), *final(store), comment_id, content@, r),
{
    match store.comments.get(comment_id) {
        None => Err(AppError::NotFound),
        Some(before) => {
            let c = Comment {
                id: before.id,
                blog_id: before.blog_id,
                user_id: before.user_id,
                content: String::from_str(content),
                parent_comment_id: before.parent_comment_id,
                created_at: before.created_at,
            };
            store.comments.replace(c.clone());
            Ok(c)
        },
    }
}

/// Removes comment `comment_id`; the count is the number of rows removed.
pub fn delete_comment(store: &mut Store, comment_id: u128) -> (r: Result<usize, AppError>)
    requires
        old(store).wf(),
    ensures
        final(store).wf(),
        only_comments_changed(*old(store), *final(store)),
        r == Ok::<usize, AppError>(if old(store).comments@.contains_key(comment_id) { 1usize } else { 0usize }),
        final(store).comments@ == old(store).comments@.remove(comment_id),
{
    Ok(store.comments.remove(comment_id))
}

// ---- likes ----

/// `r` and the passage from store `a` to store `b` are an outcome of
/// creating a like with these fields: a new row under an identifier that
/// was free; or a store fault with nothing changed, which is certain when
/// the blog or the user does not exist and otherwise needs an identifier
/// collision.
pub open spec fn like_creation(
    a: Store,
    b: Store,
    blog_id: u128,
    user_id: u128,
    r: Result<Like, AppError>,
) -> bool {
    &&& only_likes_changed(a, b)
    &&& !a.blogs@.contains_key(blog_id) || !a.users@.contains_key(user_id)
        ==> r == Err::<Like, AppError>(AppError::InternalServerError)
    &&& r is Err ==> !a.blogs@.contains_key(blog_id) || !a.users@.contains_key(user_id)
        || exists|k: u128| a.likes@.contains_key(k)
    &&& match r {
        Ok(l) => {
            &&& is_v4(l.id)
            &&& !a.likes@.contains_key(l.id)
            &&& l.blog_id == blog_id
            &&& l.user_id == user_id
            &&& b.likes@ == a.likes@.insert(l.id, l)
        },
        Err(e) => e == AppError::InternalServerError && b.likes@ == a.likes@,
    }
}

/// Adds the like `id` by `user_id` of `blog_id`, created at `now`; fails if
/// `id` is taken or the blog or the user does not exist. A user may like
/// the same blog any number of times.
pub fn insert_like(store: &mut Store, id: u128, now: i64, blog_id: u128, user_id: u128) -> (r: Result<Like, AppError>)
    requires
        old(store).wf(),
    ensures
        final(store).wf(),
        only_likes_changed(*old(store), *final(store)),
        r is Ok <==> {
            &&& !old(store).likes@.contains_key(id)
            &&& old(store).blogs@.contains_key(blog_id)
            &&& old(store).users@.contains_key(user_id)
        },
        match r {
            Ok(l) => {
                &&& l == (Like { id, blog_id, user_id, created_at: now })
                &&& final(store).likes@ == old(store).likes@.insert(id, l)
            },
            Err(e) => e == AppError::InternalServerError && final(store).likes@ == old(store).likes@,
        },
{
    if !store.blogs.contains(blog_id) || !store.users.contains(user_id) {
        return Err(AppError::InternalServerError);
    }
    let l = Like { id, blog_id, user_id, created_at: now };
    if store.likes.insert(l.clone()) {
        Ok(l)
    } else {
        Err(AppError::InternalServerError)
    }
}

/// Adds a like under a freshly generated identifier, stamped with the
/// current time; fails if the blog or the user does not exist.
pub fn create_like(store: &mut Store, blog_id: u128, user_id: u128) -> (r: Result<Like, AppError>)
    requires
        old(store).wf(),
    ensures
        final(store).wf(),
        like_creation(*old(store), *final(store), blog_id, user_id, r),
{
    let id = fresh_id();
    let now = now_micros();
    insert_like(store, id, now, blog_id, user_id)
}

pub fn get_like(store: &Store, like_id: u128) -> (r: Result<Like, AppError>)
    requires
        store.wf(),
    ensures
        r == lookup(store.likes@, like_id),
{
    match store.likes.get(like_id) {
        Some(l) => Ok(l),
        None => Err(AppError::NotFound),
    }
}

/// Removes like `like_id`; the count is the number of rows removed.
pub fn delete_like(store: &mut Store, like_id: u128) -> (r: Result<usize, AppError>)
    requires
        old(store).wf(),
    ensures
        final(store).wf(),
        only_likes_changed(*old(store), *final(store)),
        r == Ok::<usize, AppError>(if old(store).likes@.contains_key(like_id) { 1usize } else { 0usize }),
        final(store).likes@ == old(store).likes@.remove(like_id),
{
    Ok(store.likes.remove(like_id))
}

} // verus!
