//! Request handlers: each reads its parameters, runs one store operation
//! and turns the outcome into an HTTP status and an envelope.
use vstd::prelude::*;

use crate::api_response::ApiResponse;
use crate::error_handler::AppError;
use crate::ids::{parse_id, parsed_id, uuid_hyphenated};
use crate::models::{Blog, Comment, Like, User};
use crate::orm::{
    blog_creation, blog_update, comment_creation, create_blog, create_comment, create_like,
    create_user, delete_blog, delete_comment, get_blog, get_comment, get_like, get_user,
    comment_update, like_creation, update_blog, update_comment, user_creation,
};
use crate::store::{lookup, Store};

verus! {

/// What a successful response carries.
#[derive(Debug)]
pub enum Payload {
    Empty,
    User(User),
    Blog(Blog),
    Comment(Comment),
    Like(Like),
}

/// An HTTP status with its envelope.
#[derive(Debug)]
pub struct Reply {
    pub status: u16,
    pub body: ApiResponse<Payload>,
}

/// `r` reports `outcome`: 200 with the payload on success, else the
/// failure's status and message.
pub open spec fn replies(r: Reply, outcome: Result<Payload, AppError>) -> bool {
    match outcome {
        Ok(p) => {
            &&& r.status == 200
            &&& r.body.status@ == "success"@
            &&& r.body.data == Some(p)
            &&& r.body.message is None
        },
        Err(e) => {
            &&& r.status == e.status_spec()
            &&& r.body.status@ == "error"@
            &&& r.body.data is None
            &&& r.body.message matches Some(m) && m@ == e.message_spec()
        },
    }
}

pub open spec fn user_outcome(res: Result<User, AppError>) -> Result<Payload, AppError> {
    match res {
        Ok(x) => Ok(Payload::User(x)),
        Err(e) => Err(e),
    }
}

pub open spec fn blog_outcome(res: Result<Blog, AppError>) -> Result<Payload, AppError> {
    match res {
        Ok(x) => Ok(Payload::Blog(x)),
        Err(e) => Err(e),
    }
}

pub open spec fn comment_outcome(res: Result<Comment, AppError>) -> Result<Payload, AppError> {
    match res {
        Ok(x) => Ok(Payload::Comment(x)),
        Err(e) => Err(e),
    }
}

pub open spec fn like_outcome(res: Result<Like, AppError>) -> Result<Payload, AppError> {
    match res {
        Ok(x) => Ok(Payload::Like(x)),
        Err(e) => Err(e),
    }
}

/// A deletion reports success whether or not the row was there.
pub open spec fn deletion_outcome(res: Result<usize, AppError>) -> Result<Payload, AppError> {
    match res {
        Ok(_) => Ok(Payload::Empty),
        Err(e) => Err(e),
    }
}

/// Turns an operation's outcome into a response.
pub fn handle_result(outcome: Result<Payload, AppError>) -> (r: Reply)
    ensures
        replies(r, outcome),
{
    match outcome {
        Ok(p) => Reply { status: 200, body: ApiResponse::success(p) },
        Err(e) => Reply { status: e.status_code(), body: ApiResponse::error(e.message()) },
    }
}

// ---- users ----

pub fn create_user_handler(store: &mut Store, username: &str, email: &str, password_hash: &str) -> (r: Reply)
    requires
        old(store).wf(),
    ensures
        final(store).wf(),
        exists|res: Result<User, AppError>|
            user_creation(*old(store), *final(store), username@, email@, password_hash@, res)
                && replies(r, #[trigger] user_outcome(res)),
{
    let res = create_user(store, username, email, password_hash);
    let outcome = match res {
        Ok(u) => Ok(Payload::User(u)),
        Err(e) => Err(e),
    };
    let r = handle_result(outcome);
    assert(replies(r, user_outcome(res)));
    r
}

pub fn get_user_by_id(store: &Store, user_id: &str) -> (r: Reply)
    requires
        store.wf(),
    ensures
        replies(r, match parsed_id(user_id@) {
            Ok(id) => user_outcome(lookup(store.users@, id)),
            Err(e) => Err(e),
        }),
        forall|v: u128| #[trigger] uuid_hyphenated(v) == user_id@
            ==> replies(r, user_outcome(lookup(store.users@, v))),
{
    let outcome = match parse_id(user_id) {
        Err(e) => Err(e),
        Ok(id) => match get_user(store, id) {
            Ok(u) => Ok(Payload::User(u)),
            Err(e) => Err(e),
        },
    };
    handle_result(outcome)
}

// ---- blogs ----

pub fn create_blog_handler(store: &mut Store, title: &str, content: &str, author_id: &str) -> (r: Reply)
    requires
        old(store).wf(),
    ensures
        final(store).wf(),
        match parsed_id(author_id@) {
            Ok(a) => exists|res: Result<Blog, AppError>|
                blog_creation(*old(store), *final(store), title@, content@, a, res)
                    && replies(r, #[trigger] blog_outcome(res)),
            Err(e) => replies(r, Err(e)) && *final(store) == *old(store),
        },
        forall|a: u128| #[trigger] uuid_hyphenated(a) == author_id@ ==> exists|res: Result<Blog, AppError>|
            blog_creation(*old(store), *final(store), title@, content@, a, res)
                && replies(r, #[trigger] blog_outcome(res)),
{
    match parse_id(author_id) {
        Err(e) => handle_result(Err(e)),
        Ok(a) => {
            let res = create_blog(store, title, content, a);
            let outcome = match res {
                Ok(b) => Ok(Payload::Blog(b)),
                Err(e) => Err(e),
            };
            let r = handle_result(outcome);
            assert(replies(r, blog_outcome(res)));
            r
        },
    }
}

pub fn get_blog_by_id(store: &Store, blog_id: &str) -> (r: Reply)
    requires
        store.wf(),
    ensures
        replies(r, match parsed_id(blog_id@) {
            Ok(id) => blog_outcome(lookup(store.blogs@, id)),
            Err(e) => Err(e),
        }),
        forall|v: u128| #[trigger] uuid_hyphenated(v) == blog_id@
            ==> replies(r, blog_outcome(lookup(store.blogs@, v))),
{
    let outcome = match parse_id(blog_id) {
        Err(e) => Err(e),
        Ok(id) => match get_blog(store, id) {
            Ok(b) => Ok(Payload::Blog(b)),
            Err(e) => Err(e),
        },
    };
    handle_result(outcome)
}

pub fn update_blog_by_id(store: &mut Store, blog_id: &str, title: &str, content: &str) -> (r: Reply)
    requires
        old(store).wf(),
    ensures
        final(store).wf(),
        match parsed_id(blog_id@) {
            Ok(id) => exists|res: Result<Blog, AppError>|
                blog_update(*old(store), *final(store), id, title@, content@, res)
                    && replies(r, #[trigger] blog_outcome(res)),
            Err(e) => replies(r, Err(e)) && *final(store) == *old(store),
        },
        forall|v: u128| #[trigger] uuid_hyphenated(v) == blog_id@ ==> exists|res: Result<Blog, AppError>|
            blog_update(*old(store), *final(store), v, title@, content@, res)
                && replies(r, #[trigger] blog_outcome(res)),
{
    match parse_id(blog_id) {
        Err(e) => handle_result(Err(e)),
        Ok(id) => {
            let res = update_blog(store, id, title, content);
            let outcome = match res {
                Ok(b) => Ok(Payload::Blog(b)),
                Err(e) => Err(e),
            };
            let r = handle_result(outcome);
            assert(replies(r, blog_outcome(res)));
            r
        },
    }
}

pub fn delete_blog_by_id(store: &mut Store, blog_id: &str) -> (r: Reply)
    requires
        old(store).wf(),
    ensures
        final(store).wf(),
        match parsed_id(blog_id@) {
            Ok(id) => {
                &&& replies(r, Ok(Payload::Empty))
                &&& final(store).blogs@ == old(store).blogs@.remove(id)
                &&& final(store).users@ == old(store).users@
                &&& final(store).comments@ == old(store).comments@
                &&& final(store).likes@ == old(store).likes@
            },
            Err(e) => replies(r, Err(e)) && *final(store) == *old(store),
        },
        forall|v: u128| #[trigger] uuid_hyphenated(v) == blog_id@ ==> {
            &&& replies(r, Ok(Payload::Empty))
            &&& final(store).blogs@ == old(store).blogs@.remove(v)
        },
{
    match parse_id(blog_id) {
        Err(e) => handle_result(Err(e)),
        Ok(id) => {
            let outcome = match delete_blog(store, id) {
                Ok(_) => Ok(Payload::Empty),
                Err(e) => Err(e),
            };
            handle_result(outcome)
        },
    }
}

// ---- comments ----

/// The parent comment named in a request: none, an identifier, or a
/// validation failure.
pub open spec fn parsed_parent(p: Option<Seq<char>>) -> Result<Option<u128>, AppError> {
    match p {
        None => Ok(None),
        Some(s) => match parsed_id(s) {
            Ok(v) => Ok(Some(v)),
            Err(e) => Err(e),
        },
    }
}

pub open spec fn opt_view(p: Option<&str>) -> Option<Seq<char>> {
    match p {
        None => None,
        Some(s) => Some(s@),
    }
}

fn parse_parent(p: Option<&str>) -> (r: Result<Option<u128>, AppError>)
    ensures
        r == parsed_parent(opt_view(p)),
        forall|v: u128| opt_view(p) == Some(#[trigger] uuid_hyphenated(v))
            ==> r == Ok::<Option<u128>, AppError>(Some(v)),
{
    match p {
        None => Ok(None),
        Some(s) => match parse_id(s) {
            Ok(v) => Ok(Some(v)),
            Err(e) => Err(e),
        },
    }
}

/// The identifiers of a new comment's blog, user and parent, or the first
/// validation failure among them.
pub open spec fn comment_refs(blog_id: Seq<char>, user_id: Seq<char>, parent: Option<Seq<char>>) -> Result<(u128, u128, Option<u128>), AppError> {
    match parsed_id(blog_id) {
        Err(e) => Err(e),
        Ok(b) => match parsed_id(user_id) {
            Err(e) => Err(e),
            Ok(u) => match parsed_parent(parent) {
                Err(e) => Err(e),
                Ok(p) => Ok((b, u, p)),
            },
        },
    }
}

pub fn create_comment_handler(
    store: &mut Store,
    blog_id: &str,
    user_id: &str,
    content: &str,
    parent_comment_id: Option<&str>,
) -> (r: Reply)
    requires
        old(store).wf(),
    ensures
        final(store).wf(),
        match comment_refs(blog_id@, user_id@, opt_view(parent_comment_id)) {
            Ok((b, u, p)) => exists|res: Result<Comment, AppError>|
                comment_creation(*old(store), *final(store), b, u, content@, p, res)
                    && replies(r, #[trigger] comment_outcome(res)),
            Err(e) => replies(r, Err(e)) && *final(store) == *old(store),
        },
        forall|b: u128, u: u128|
            #[trigger] uuid_hyphenated(b) == blog_id@ && #[trigger] uuid_hyphenated(u) == user_id@
                && parent_comment_id is None ==> exists|res: Result<Comment, AppError>|
                comment_creation(*old(store), *final(store), b, u, content@, None, res)
                    && replies(r, #[trigger] comment_outcome(res)),
        forall|b: u128, u: u128, p: u128|
            #[trigger] uuid_hyphenated(b) == blog_id@ && #[trigger] uuid_hyphenated(u) == user_id@
                && opt_view(parent_comment_id) == Some(#[trigger] uuid_hyphenated(p))
                ==> exists|res: Result<Comment, AppError>|
                comment_creation(*old(store), *final(store), b, u, content@, Some(p), res)
                    && replies(r, #[trigger] comment_outcome(res)),
{
    let b = match parse_id(blog_id) {
        Err(e) => return handle_result(Err(e)),
        Ok(b) => b,
    };
    let u = match parse_id(user_id) {
        Err(e) => return handle_result(Err(e)),
        Ok(u) => u,
    };
    let p = match parse_parent(parent_comment_id) {
        Err(e) => return handle_result(Err(e)),
        Ok(p) => p,
    };
    let res = create_comment(store, b, u, content, p);
    let outcome = match res {
        Ok(c) => Ok(Payload::Comment(c)),
        Err(e) => Err(e),
    };
    let r = handle_result(outcome);
    assert(replies(r, comment_outcome(res)));
    r
}

pub fn get_comment_by_id(store: &Store, comment_id: &str) -> (r: Reply)
    requires
        store.wf(),
    ensures
        replies(r, match parsed_id(comment_id@) {
            Ok(id) => comment_outcome(lookup(store.comments@, id)),
            Err(e) => Err(e),
        }),
        forall|v: u128| #[trigger] uuid_hyphenated(v) == comment_id@
            ==> replies(r, comment_outcome(lookup(store.comments@, v))),
{
    let outcome = match parse_id(comment_id) {
        Err(e) => Err(e),
        Ok(id) => match get_comment(store, id) {
            Ok(c) => Ok(Payload::Comment(c)),
            Err(e) => Err(e),
        },
    };
    handle_result(outcome)
}

pub fn update_comment_handler(store: &mut Store, comment_id: &str, content: &str) -> (r: Reply)
    requires
        old(store).wf(),
    ensures
        final(store).wf(),
        match parsed_id(comment_id@) {
            Ok(id) => exists|res: Result<Comment, AppError>|
                comment_update(*old(store), *final(store), id, content@, res)
                    && replies(r, #[trigger] comment_outcome(res)),
            Err(e) => replies(r, Err(e)) && *final(store) == *old(store),
        },
        forall|v: u128| #[trigger] uuid_hyphenated(v) == comment_id@ ==> exists|res: Result<Comment, AppError>|
            comment_update(*old(store), *final(store), v, content@, res)
                && replies(r, #[trigger] comment_outcome(res)),
{
    match parse_id(comment_id) {
        Err(e) => handle_result(Err(e)),
        Ok(id) => {
            let res = update_comment(store, id, content);
            let outcome = match res {
                Ok(c) => Ok(Payload::Comment(c)),
                Err(e) => Err(e),
            };
            let r = handle_result(outcome);
            assert(replies(r, comment_outcome(res)));
            r
        },
    }
}

pub fn delete_comment_handler(store: &mut Store, comment_id: &str) -> (r: Reply)
    requires
        old(store).wf(),
    ensures
        final(store).wf(),
        match parsed_id(comment_id@) {
            Ok(id) => {
                &&& replies(r, Ok(Payload::Empty))
                &&& final(store).comments@ == old(store).comments@.remove(id)
                &&& final(store).users@ == old(store).users@
                &&& final(store).blogs@ == old(store).blogs@
                &&& final(store).likes@ == old(store).likes@
            },
            Err(e) => replies(r, Err(e)) && *final(store) == *old(store),
        },
        forall|v: u128| #[trigger] uuid_hyphenated(v) == comment_id@ ==> {
            &&& replies(r, Ok(Payload::Empty))
            &&& final(store).comments@ == old(store).comments@.remove(v)
        },
{
    match parse_id(comment_id) {
        Err(e) => handle_result(Err(e)),
        Ok(id) => {
            let outcome = match delete_comment(store, id) {
                Ok(_) => Ok(Payload::Empty),
                Err(e) => Err(e),
            };
            handle_result(outcome)
        },
    }
}

// ---- likes ----

pub fn create_like_handler(store: &mut Store, blog_id: &str, user_id: &str) -> (r: Reply)
    requires
        old(store).wf(),
    ensures
        final(store).wf(),
        match parsed_id(blog_id@) {
            Err(e) => replies(r, Err(e)) && *final(store) == *old(store),
            Ok(b) => match parsed_id(user_id@) {
                Err(e) => replies(r, Err(e)) && *final(store) == *old(store),
                Ok(u) => exists|res: Result<Like, AppError>|
                    like_creation(*old(store), *final(store), b, u, res)
                        && replies(r, #[trigger] like_outcome(res)),
            },
        },
        forall|b: u128, u: u128|
            #[trigger] uuid_hyphenated(b) == blog_id@ && #[trigger] uuid_hyphenated(u) == user_id@
                ==> exists|res: Result<Like, AppError>|
                like_creation(*old(store), *final(store), b, u, res)
                    && replies(r, #[trigger] like_outcome(res)),
{
    let b = match parse_id(blog_id) {
        Err(e) => return handle_result(Err(e)),
        Ok(b) => b,
    };
    let u = match parse_id(user_id) {
        Err(e) => return handle_result(Err(e)),
        Ok(u) => u,
    };
    let res = create_like(store, b, u);
    let outcome = match res {
        Ok(l) => Ok(Payload::Like(l)),
        Err(e) => Err(e),
    };
    let r = handle_result(outcome);
    assert(replies(r, like_outcome(res)));
    r
}

pub fn get_like_by_id(store: &Store, like_id: &str) -> (r: Reply)
    requires
        store.wf(),
    ensures
        replies(r, match parsed_id(like_id@) {
            Ok(id) => like_outcome(lookup(store.likes@, id)),
            Err(e) => Err(e),
        }),
        forall|v: u128| #[trigger] uuid_hyphenated(v) == like_id@
            ==> replies(r, like_outcome(lookup(store.likes@, v))),
{
    let outcome = match parse_id(like_id) {
        Err(e) => Err(e),
        Ok(id) => match get_like(store, id) {
            Ok(l) => Ok(Payload::Like(l)),
            Err(e) => Err(e),
        },
    };
    handle_result(outcome)
}

} // verus!
