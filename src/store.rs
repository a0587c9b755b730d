//! The four tables of the blogging store.
use vstd::prelude::*;

use crate::models::{Blog, Comment, Like, User};
use crate::table::Table;

verus! {

/// Users, blogs, comments and likes, each table keyed by identifier.
/// References from a row to other rows are checked when the row is added.
pub struct Store {
    pub users: Table<User>,
    pub blogs: Table<Blog>,
    pub comments: Table<Comment>,
    pub likes: Table<Like>,
}

impl Store {
    pub open spec fn wf(&self) -> bool {
        &&& self.users.wf()
        &&& self.blogs.wf()
        &&& self.comments.wf()
        &&& self.likes.wf()
    }

    /// An empty store.
    pub fn new() -> (s: Store)
        ensures
            s.wf(),
            s.users@ == Map::<u128, User>::empty(),
            s.blogs@ == Map::<u128, Blog>::empty(),
            s.comments@ == Map::<u128, Comment>::empty(),
            s.likes@ == Map::<u128, Like>::empty(),
    {
        Store { users: Table::new(), blogs: Table::new(), comments: Table::new(), likes: Table::new() }
    }
}

/// `b` differs from `a` at most in its users.
pub open spec fn only_users_changed(a: Store, b: Store) -> bool {
    &&& b.blogs@ == a.blogs@
    &&& b.comments@ == a.comments@
    &&& b.likes@ == a.likes@
}

/// `b` differs from `a` at most in its blogs.
pub open spec fn only_blogs_changed(a: Store, b: Store) -> bool {
    &&& b.users@ == a.users@
    &&& b.comments@ == a.comments@
    &&& b.likes@ == a.likes@
}

/// `b` differs from `a` at most in its comments.
pub open spec fn only_comments_changed(a: Store, b: Store) -> bool {
    &&& b.users@ == a.users@
    &&& b.blogs@ == a.blogs@
    &&& b.likes@ == a.likes@
}

/// `b` differs from `a` at most in its likes.
pub open spec fn only_likes_changed(a: Store, b: Store) -> bool {
    &&& b.users@ == a.users@
    &&& b.blogs@ == a.blogs@
    &&& b.comments@ == a.comments@
}

/// What a lookup of `id` in a table with contents `m` answers.
pub open spec fn lookup<R>(m: Map<u128, R>, id: u128) -> Result<R, crate::error_handler::AppError> {
    if m.contains_key(id) {
        Ok(m[id])
    } else {
        Err(crate::error_handler::AppError::NotFound)
    }
}

} // verus!
