//! The stored records. Identifiers are UUIDs held as their 128-bit value;
//! timestamps are microseconds since the Unix epoch, UTC.
use vstd::prelude::*;

use crate::table::Row;

verus! {

#[derive(Debug, PartialEq, Eq)]
pub struct User {
    pub id: u128,
    pub username: String,
    pub email: String,
    pub password_hash: String,
    pub created_at: i64,
}

#[derive(Debug, PartialEq, Eq)]
pub struct Blog {
    pub id: u128,
    pub title: String,
    pub content: String,
    pub author_id: u128,
    pub created_at: i64,
    pub updated_at: i64,
}

#[derive(Debug, PartialEq, Eq)]
pub struct Comment {
    pub id: u128,
    pub blog_id: u128,
    pub user_id: u128,
    pub content: String,
    pub parent_comment_id: Option<u128>,
    pub created_at: i64,
}

#[derive(Debug, PartialEq, Eq)]
pub struct Like {
    pub id: u128,
    pub blog_id: u128,
    pub user_id: u128,
    pub created_at: i64,
}

impl Clone for User {
    fn clone(&self) -> (r: Self)
        ensures
            r == *self,
    {
        User {
            id: self.id,
            username: self.username.clone(),
            email: self.email.clone(),
            password_hash: self.password_hash.clone(),
            created_at: self.created_at,
        }
    }
}

impl Clone for Blog {
    fn clone(&self) -> (r: Self)
        ensures
            r == *self,
    {
        Blog {
            id: self.id,
            title: self.title.clone(),
            content: self.content.clone(),
            author_id: self.author_id,
            created_at: self.created_at,
            updated_at: self.updated_at,
        }
    }
}

impl Clone for Comment {
    fn clone(&self) -> (r: Self)
        ensures
            r == *self,
    {
        Comment {
            id: self.id,
            blog_id: self.blog_id,
            user_id: self.user_id,
            content: self.content.clone(),
            parent_comment_id: self.parent_comment_id,
            created_at: self.created_at,
        }
    }
}

impl Clone for Like {
    fn clone(&self) -> (r: Self)
        ensures
            r == *self,
    {
        Like { id: self.id, blog_id: self.blog_id, user_id: self.user_id, created_at: self.created_at }
    }
}

impl Row for User {
    open spec fn key(&self) -> u128 {
        self.id
    }

    fn id(&self) -> (r: u128) {
        self.id
    }

    fn duplicate(&self) -> (r: Self) {
        self.clone()
    }
}

impl Row for Blog {
    open spec fn key(&self) -> u128 {
        self.id
    }

    fn id(&self) -> (r: u128) {
        self.id
    }

    fn duplicate(&self) -> (r: Self) {
        self.clone()
    }
}

impl Row for Comment {
    open spec fn key(&self) -> u128 {
        self.id
    }

    fn id(&self) -> (r: u128) {
        self.id
    }

    fn duplicate(&self) -> (r: Self) {
        self.clone()
    }
}

impl Row for Like {
    open spec fn key(&self) -> u128 {
        self.id
    }

    fn id(&self) -> (r: u128) {
        self.id
    }

    fn duplicate(&self) -> (r: Self) {
        self.clone()
    }
}

} // verus!
