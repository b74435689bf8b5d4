//! Comments on tasks and their payloads.
use vstd::prelude::*;

use crate::ids::Oid;
use crate::user_model::UserData;

verus! {

/// A stored comment, written by `user_id` on the task `task_id`.
#[derive(Clone, Debug)]
pub struct Comment {
    pub id: Option<Oid>,
    pub task_id: Oid,
    pub user_id: Oid,
    pub content: String,
    pub created_at: i64,
    pub updated_at: i64,
}

#[derive(Debug)]
pub struct CreateCommentSchema {
    pub content: String,
}

/// A comment as it is read: its fields with the public profile of its author.
#[derive(Clone, Debug)]
pub struct CommentData {
    pub id: String,
    pub task_id: String,
    pub author: UserData,
    pub content: String,
    pub created_at: i64,
    pub updated_at: i64,
}

#[derive(Debug)]
pub struct UpdateCommentSchema {
    pub content: String,
}

} // verus!
