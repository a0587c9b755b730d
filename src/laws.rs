//! Properties that hold across operations, proved from their contracts.
use vstd::prelude::*;

use crate::error_handler::AppError;
use crate::ids::is_v4;
use crate::models::{Blog, Comment, Like, User};
use crate::orm::{blog_creation, blog_update, comment_creation, like_creation, user_creation};
use crate::routes::{
    blog_outcome, comment_outcome, like_outcome, replies, user_outcome, Payload, Reply,
};
use crate::store::{lookup, Store};

verus! {

/// A user that was created is then found under its identifier, with the
/// fields it was created with.
pub proof fn lemma_user_create_then_get(
    a: Store,
    b: Store,
    username: Seq<char>,
    email: Seq<char>,
    password_hash: Seq<char>,
    u: User,
)
    requires
        user_creation(a, b, username, email, password_hash, Ok(u)),
    ensures
        lookup(b.users@, u.id) == Ok::<User, AppError>(u),
        u.username@ == username,
        u.email@ == email,
        u.password_hash@ == password_hash,
{
}

/// A blog that was created is then found under its identifier, with the
/// fields it was created with and equal created and updated stamps.
pub proof fn lemma_blog_create_then_get(
    a: Store,
    b: Store,
    title: Seq<char>,
    content: Seq<char>,
    author_id: u128,
    x: Blog,
)
    requires
        blog_creation(a, b, title, content, author_id, Ok(x)),
    ensures
        lookup(b.blogs@, x.id) == Ok::<Blog, AppError>(x),
        x.title@ == title,
        x.content@ == content,
        x.author_id == author_id,
        x.created_at == x.updated_at,
{
}

/// A comment that was created is then found under its identifier, with the
/// fields it was created with.
pub proof fn lemma_comment_create_then_get(
    a: Store,
    b: Store,
    blog_id: u128,
    user_id: u128,
    content: Seq<char>,
    parent_comment_id: Option<u128>,
    c: Comment,
)
    requires
        comment_creation(a, b, blog_id, user_id, content, parent_comment_id, Ok(c)),
    ensures
        lookup(b.comments@, c.id) == Ok::<Comment, AppError>(c),
        c.blog_id == blog_id,
        c.user_id == user_id,
        c.content@ == content,
        c.parent_comment_id == parent_comment_id,
{
}

/// A like that was created is then found under its identifier, with the
/// fields it was created with.
pub proof fn lemma_like_create_then_get(a: Store, b: Store, blog_id: u128, user_id: u128, l: Like)
    requires
        like_creation(a, b, blog_id, user_id, Ok(l)),
    ensures
        lookup(b.likes@, l.id) == Ok::<Like, AppError>(l),
        l.blog_id == blog_id,
        l.user_id == user_id,
{
}

/// Looking up an absent identifier answers "not found", and its response
/// has status 404.
pub proof fn lemma_absent_is_not_found<R>(m: Map<u128, R>, id: u128, r: Reply)
    requires
        !m.contains_key(id),
        replies(r, Err(AppError::NotFound)),
    ensures
        lookup(m, id) == Err::<R, AppError>(AppError::NotFound),
        r.status == 404,
{
}

/// Fetching an absent user gives a 404 response.
pub proof fn lemma_missing_user_reply(s: Store, id: u128, r: Reply)
    requires
        !s.users@.contains_key(id),
        replies(r, user_outcome(lookup(s.users@, id))),
    ensures
        r.status == 404,
{
}

/// Fetching an absent blog gives a 404 response.
pub proof fn lemma_missing_blog_reply(s: Store, id: u128, r: Reply)
    requires
        !s.blogs@.contains_key(id),
        replies(r, blog_outcome(lookup(s.blogs@, id))),
    ensures
        r.status == 404,
{
}

/// Fetching an absent comment gives a 404 response.
pub proof fn lemma_missing_comment_reply(s: Store, id: u128, r: Reply)
    requires
        !s.comments@.contains_key(id),
        replies(r, comment_outcome(lookup(s.comments@, id))),
    ensures
        r.status == 404,
{
}

/// Fetching an absent like gives a 404 response.
pub proof fn lemma_missing_like_reply(s: Store, id: u128, r: Reply)
    requires
        !s.likes@.contains_key(id),
        replies(r, like_outcome(lookup(s.likes@, id))),
    ensures
        r.status == 404,
{
}

/// A successful edit of a blog replaces its title and content, keeps its
/// identifier, author and created stamp, moves its updated stamp strictly
/// forward, and leaves every other blog as it was.
pub proof fn lemma_blog_update_then_get(
    a: Store,
    b: Store,
    blog_id: u128,
    title: Seq<char>,
    content: Seq<char>,
    x: Blog,
)
    requires
        blog_update(a, b, blog_id, title, content, Ok(x)),
    ensures
        lookup(b.blogs@, blog_id) == Ok::<Blog, AppError>(x),
        x.id == blog_id,
        x.title@ == title,
        x.content@ == content,
        x.author_id == a.blogs@[blog_id].author_id,
        x.created_at == a.blogs@[blog_id].created_at,
        x.updated_at > a.blogs@[blog_id].updated_at,
        forall|k: u128| k != blog_id ==> lookup(b.blogs@, k) == #[trigger] lookup(a.blogs@, k),
{
}

/// After a row is deleted, looking it up answers "not found"; the other
/// rows are kept.
pub proof fn lemma_delete_then_get<R>(m: Map<u128, R>, id: u128)
    ensures
        lookup(m.remove(id), id) == Err::<R, AppError>(AppError::NotFound),
        forall|k: u128| k != id ==> lookup(m.remove(id), k) == #[trigger] lookup(m, k),
{
}

/// Deleting an absent identifier changes nothing, and the response is a
/// success with status 200.
pub proof fn lemma_delete_absent<R>(m: Map<u128, R>, id: u128, r: Reply)
    requires
        !m.contains_key(id),
        replies(r, Ok(Payload::Empty)),
    ensures
        m.remove(id) == m,
        r.status == 200,
{
    assert(m.remove(id) =~= m);
}

/// Editing a blog that exists, and whose updated stamp is not the last
/// representable one, succeeds: the title and content are replaced, the
/// updated stamp moves strictly forward, and the rest is kept.
pub proof fn lemma_update_existing_blog(
    a: Store,
    b: Store,
    blog_id: u128,
    title: Seq<char>,
    content: Seq<char>,
    r: Result<Blog, AppError>,
)
    requires
        blog_update(a, b, blog_id, title, content, r),
        a.blogs@.contains_key(blog_id),
        a.blogs@[blog_id].updated_at < i64::MAX,
    ensures
        r is Ok,
        r matches Ok(x) ==> {
            &&& lookup(b.blogs@, blog_id) == Ok::<Blog, AppError>(x)
            &&& x.id == blog_id
            &&& x.title@ == title
            &&& x.content@ == content
            &&& x.author_id == a.blogs@[blog_id].author_id
            &&& x.created_at == a.blogs@[blog_id].created_at
            &&& x.updated_at > a.blogs@[blog_id].updated_at
        },
{
}

/// Posting a blog by an existing author to a store that holds no blogs yet
/// answers 200 with a success envelope carrying the new blog: a fresh
/// version 4 identifier, the given title and content, and equal created
/// and updated stamps.
pub proof fn lemma_first_blog_post(
    a: Store,
    b: Store,
    title: Seq<char>,
    content: Seq<char>,
    author_id: u128,
    res: Result<Blog, AppError>,
    r: Reply,
)
    requires
        blog_creation(a, b, title, content, author_id, res),
        replies(r, blog_outcome(res)),
        a.users@.contains_key(author_id),
        forall|k: u128| !a.blogs@.contains_key(k),
    ensures
        res is Ok,
        r.status == 200,
        r.body.status@ == "success"@,
        res matches Ok(x) ==> {
            &&& r.body.data == Some(Payload::Blog(x))
            &&& is_v4(x.id)
            &&& x.title@ == title
            &&& x.content@ == content
            &&& x.author_id == author_id
            &&& x.created_at == x.updated_at
            &&& b.blogs@ == a.blogs@.insert(x.id, x)
        },
{
}

} // verus!
