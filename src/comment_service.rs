//! The rules of comments: any participant of the task's project may read and
//! write comments; only the author may change or delete one.
use vstd::prelude::*;

use crate::comment_model::{Comment, CommentData, CreateCommentSchema, UpdateCommentSchema};
use crate::errors::{fails_with, outcome_only, AppError, ErrorKind};
use crate::ids::{oid_hex, Oid};
use crate::permission_service::{has_access, is_author, task_access_outcome, PermissionService};
use crate::project_models::Project;
use crate::task_model::Task;
use crate::user_model::{id_text, User, UserData};
use crate::validation::char_count;

verus! {

/// The outcome of `user_id` changing or deleting `comment`; `content_ok`
/// says whether the new content, if any, is acceptable. On success, `r` holds
/// the comment as it was.
pub open spec fn author_outcome(
    user_id: Oid,
    content_ok: bool,
    comment: Option<Comment>,
    r: Result<Comment, AppError>,
) -> bool {
    if !content_ok {
        fails_with(r, ErrorKind::Validation)
    } else if comment.is_none() {
        fails_with(r, ErrorKind::NotFound)
    } else if !is_author(comment.unwrap(), user_id) {
        fails_with(r, ErrorKind::Denied)
    } else {
        r is Ok
    }
}

/// Only authors change comments. A participant of the project may read and
/// write the comments of its tasks, yet changing or deleting a comment that
/// someone else wrote is refused.
pub proof fn lemma_comments_author_only(
    user_id: Oid,
    task: Task,
    project: Project,
    comment: Comment,
    updated: Result<Comment, AppError>,
    deleted: Result<Comment, AppError>,
)
    requires
        has_access(project, user_id),
        comment.user_id != user_id,
        author_outcome(user_id, true, Some(comment), updated),
        author_outcome(user_id, true, Some(comment), deleted),
    ensures
        task_access_outcome(user_id, Some(task), Some(project), Ok(())),
        fails_with(updated, ErrorKind::Denied),
        fails_with(deleted, ErrorKind::Denied),
{
}

/// `d` is how `c`, written by `author`, is read: the comment's fields and the
/// author's identifier, user name and e-mail address.
pub open spec fn is_comment_data(c: Comment, author: User, d: CommentData) -> bool {
    &&& d.id@ == id_text(c.id)
    &&& d.task_id@ == oid_hex(c.task_id.bytes@)
    &&& d.author.id@ == id_text(author.id)
    &&& d.author.username == author.username
    &&& d.author.email == author.email
    &&& d.author.first_name.is_none()
    &&& d.author.last_name.is_none()
    &&& d.author.bio.is_none()
    &&& d.author.role.is_none()
    &&& d.author.avatar.is_none()
    &&& d.content == c.content
    &&& d.created_at == c.created_at
    &&& d.updated_at == c.updated_at
}

/// The hex text of an optional identifier.
fn id_string(id: Option<Oid>) -> (r: String)
    ensures
        r@ == id_text(id),
{
    match id {
        Some(o) => o.to_hex(),
        None => String::new(),
    }
}

impl CommentData {
    /// How `comment`, written by `author`, is read.
    pub fn from_parts(comment: Comment, author: User) -> (r: CommentData)
        ensures
            is_comment_data(comment, author, r),
    {
        let author_data = UserData {
            id: id_string(author.id),
            username: author.username,
            email: author.email,
            first_name: None,
            last_name: None,
            bio: None,
            role: None,
            avatar: None,
        };
        CommentData {
            id: id_string(comment.id),
            task_id: comment.task_id.to_hex(),
            author: author_data,
            content: comment.content,
            created_at: comment.created_at,
            updated_at: comment.updated_at,
        }
    }
}

/// `p` lists each index below `n` exactly once.
pub open spec fn is_ordering(p: Seq<usize>, n: int) -> bool {
    &&& p.len() == n
    &&& forall|i: int| 0 <= i < n ==> (#[trigger] p[i]) < n
    &&& forall|i: int, j: int| 0 <= i < j < n ==> p[i] != p[j]
}

/// `r` is `rows` (each a comment with its author), in some order that takes
/// each row once.
pub open spec fn reads_as(rows: Seq<(Comment, User)>, r: Seq<CommentData>) -> bool {
    exists|p: Seq<usize>|
        is_ordering(p, rows.len() as int) && r.len() == rows.len() && forall|k: int|
            0 <= k < r.len() ==> is_comment_data(
                rows[p[k] as int].0,
                rows[p[k] as int].1,
                #[trigger] r[k],
            )
}

/// The indices of `keys` ordered by ascending key; equal keys keep their
/// order.
fn ascending_order(keys: &Vec<i64>) -> (r: Vec<usize>)
    ensures
        is_ordering(r@, keys@.len() as int),
        forall|a: int, b: int|
            0 <= a < b < r@.len() ==> keys@[r@[a] as int] <= keys@[r@[b] as int],
{
    let mut out: Vec<usize> = Vec::new();
    let mut i: usize = 0;
    while i < keys.len()
        invariant
            0 <= i <= keys.len(),
            out@.len() == i,
            forall|a: int| 0 <= a < i ==> (#[trigger] out@[a]) < i,
            forall|a: int, b: int| 0 <= a < b < i ==> out@[a] != out@[b],
            forall|a: int, b: int|
                0 <= a < b < i ==> keys@[out@[a] as int] <= keys@[out@[b] as int],
        decreases keys.len() - i,
    {
        let key = keys[i];
        let mut p: usize = 0;
        while p < out.len() && keys[out[p]] <= key
            invariant
                0 <= p <= out@.len(),
                out@.len() == i,
                i < keys@.len(),
                key == keys@[i as int],
                forall|a: int| 0 <= a < i ==> (#[trigger] out@[a]) < i,
                forall|a: int| 0 <= a < p ==> keys@[(#[trigger] out@[a]) as int] <= key,
            decreases out@.len() - p,
        {
            p = p + 1;
        }
        let ghost old_out = out@;
        out.insert(p, i);
        proof {
            assert(out@ == old_out.insert(p as int, i));
            assert forall|a: int, b: int| 0 <= a < b < i + 1 implies keys@[out@[a] as int]
                <= keys@[out@[b] as int] by {
                if b < p {
                    assert(out@[a] == old_out[a] && out@[b] == old_out[b]);
                } else if b == p {
                    assert(out@[a] == old_out[a]);
                } else if a == p {
                    assert(out@[b] == old_out[b - 1]);
                    assert(keys@[old_out[p as int] as int] > key);
                    if b - 1 > p {
                        assert(keys@[old_out[p as int] as int] <= keys@[old_out[b - 1] as int]);
                    }
                } else if a < p {
                    assert(out@[a] == old_out[a] && out@[b] == old_out[b - 1]);
                } else {
                    assert(out@[a] == old_out[a - 1] && out@[b] == old_out[b - 1]);
                }
            }
            assert forall|a: int, b: int| 0 <= a < b < i + 1 implies out@[a] != out@[b] by {
                if a < p {
                    assert(out@[a] == old_out[a]);
                } else if a > p {
                    assert(out@[a] == old_out[a - 1]);
                }
                if b < p {
                    assert(out@[b] == old_out[b]);
                } else if b > p {
                    assert(out@[b] == old_out[b - 1]);
                }
            }
            assert forall|a: int| 0 <= a < i + 1 implies (#[trigger] out@[a]) < i + 1 by {
                if a < p {
                    assert(out@[a] == old_out[a]);
                } else if a > p {
                    assert(out@[a] == old_out[a - 1]);
                }
            }
        }
        i = i + 1;
    }
    out
}

/// A field-by-field copy of a comment.
fn copy_comment(c: &Comment) -> (r: Comment)
    ensures
        r == *c,
{
    Comment {
        id: c.id,
        task_id: c.task_id,
        user_id: c.user_id,
        content: c.content.clone(),
        created_at: c.created_at,
        updated_at: c.updated_at,
    }
}

/// The fields of a user that a comment shows.
fn author_view(u: &User) -> (r: User)
    ensures
        r.id == u.id,
        r.username == u.username,
        r.email == u.email,
{
    User {
        id: u.id,
        username: u.username.clone(),
        email: u.email.clone(),
        password_hash: String::new(),
        first_name: None,
        last_name: None,
        bio: None,
        role: None,
        avatar: None,
        created_at: u.created_at,
        updated_at: u.updated_at,
    }
}

/// The comment service.
pub struct CommentService {}

impl CommentService {
    pub fn new() -> CommentService {
        CommentService {  }
    }

    /// Checks that `user_id` takes part in the project of `task`.
    pub fn check_permissions(user_id: Oid, task: Option<Task>, project: Option<Project>) -> (r:
        Result<(), AppError>)
        ensures
            task_access_outcome(user_id, task, project, r),
    {
        PermissionService::can_access_task(user_id, task, project)
    }

    /// Decides a new comment by `author_id` on `task_id`; `task` and `project`
    /// are what storage returned for the task and its project.
    pub fn create_comment(
        &self,
        task_id: Oid,
        author_id: Oid,
        schema: CreateCommentSchema,
        task: Option<Task>,
        project: Option<Project>,
        now: i64,
    ) -> (r: Result<Comment, AppError>)
        ensures
            schema.content@.len() == 0 ==> fails_with(r, ErrorKind::Validation),
            schema.content@.len() > 0 ==> {
                let access = task_access_outcome(author_id, task, project, Ok(()));
                &&& !access ==> task_access_outcome(author_id, task, project, outcome_only(r))
                &&& access ==> r == Ok::<Comment, AppError>(
                    Comment {
                        id: None,
                        task_id,
                        user_id: author_id,
                        content: schema.content,
                        created_at: now,
                        updated_at: now,
                    },
                )
            },
    {
        if char_count(schema.content.as_str()) < 1 {
            return Err(
                AppError::ValidationError(String::from_str("El comentario no puede estar vacío")),
            );
        }
        match Self::check_permissions(author_id, task, project) {
            Ok(()) => {},
            Err(e) => {
                return Err(e);
            },
        }
        Ok(
            Comment {
                id: None,
                task_id,
                user_id: author_id,
                content: schema.content,
                created_at: now,
                updated_at: now,
            },
        )
    }

    /// The comments of a task, each with its author, oldest first, for a
    /// participant of the task's project.
    pub fn get_comments_for_task(
        &self,
        user_id: Oid,
        task: Option<Task>,
        project: Option<Project>,
        rows: Vec<(Comment, User)>,
    ) -> (r: Result<Vec<CommentData>, AppError>)
        ensures
            !task_access_outcome(user_id, task, project, Ok(())) ==> task_access_outcome(
                user_id,
                task,
                project,
                outcome_only(r),
            ),
            task_access_outcome(user_id, task, project, Ok(())) ==> (r matches Ok(v) && reads_as(
                rows@,
                v@,
            ) && forall|k: int, l: int|
                0 <= k < l < v@.len() ==> v@[k].created_at <= v@[l].created_at),
    {
        match Self::check_permissions(user_id, task, project) {
            Ok(()) => {},
            Err(e) => {
                return Err(e);
            },
        }
        let mut keys: Vec<i64> = Vec::new();
        let mut i: usize = 0;
        while i < rows.len()
            invariant
                0 <= i <= rows@.len(),
                keys@.len() == i,
                forall|j: int| 0 <= j < i ==> keys@[j] == (#[trigger] rows@[j]).0.created_at,
            decreases rows@.len() - i,
        {
            keys.push(rows[i].0.created_at);
            i = i + 1;
        }
        let order = ascending_order(&keys);
        let mut out: Vec<CommentData> = Vec::new();
        let mut k: usize = 0;
        while k < order.len()
            invariant
                0 <= k <= order@.len(),
                order@.len() == rows@.len(),
                keys@.len() == rows@.len(),
                forall|j: int| 0 <= j < keys@.len() ==> keys@[j] == (#[trigger] rows@[j]).0.created_at,
                is_ordering(order@, rows@.len() as int),
                out@.len() == k,
                forall|a: int|
                    0 <= a < k ==> is_comment_data(
                        rows@[order@[a] as int].0,
                        rows@[order@[a] as int].1,
                        #[trigger] out@[a],
                    ),
            decreases order@.len() - k,
        {
            let j = order[k];
            let c = copy_comment(&rows[j].0);
            let a = author_view(&rows[j].1);
            out.push(CommentData::from_parts(c, a));
            k = k + 1;
        }
        proof {
            assert forall|a: int, b: int| 0 <= a < b < out@.len() implies out@[a].created_at
                <= out@[b].created_at by {
                assert(out@[a].created_at == rows@[order@[a] as int].0.created_at);
                assert(out@[b].created_at == rows@[order@[b] as int].0.created_at);
                assert(keys@[order@[a] as int] <= keys@[order@[b] as int]);
            }
            assert(is_ordering(order@, rows@.len() as int) && out@.len() == rows@.len());
        }
        Ok(out)
    }

    /// Decides a change of `comment` by `user_id`: the author alone may change
    /// it. The new content is stamped with `now`.
    pub fn update_comment(
        &self,
        user_id: Oid,
        schema: UpdateCommentSchema,
        comment: Option<Comment>,
        now: i64,
    ) -> (r: Result<Comment, AppError>)
        ensures
            author_outcome(user_id, schema.content@.len() > 0, comment, r),
            r matches Ok(c) ==> c == (Comment {
                content: schema.content,
                updated_at: now,
                ..comment.unwrap()
            }),
    {
        if char_count(schema.content.as_str()) < 1 {
            return Err(
                AppError::ValidationError(String::from_str("El comentario no puede estar vacío")),
            );
        }
        let c = match comment {
            Some(c) => c,
            None => {
                return Err(AppError::NotFound(String::from_str("Comentario no encontrado")));
            },
        };
        if c.user_id != user_id {
            return Err(
                AppError::Unauthorized(
                    String::from_str("No tienes permiso para actualizar este comentario"),
                ),
            );
        }
        let mut updated = c;
        updated.content = schema.content;
        updated.updated_at = now;
        Ok(updated)
    }

    /// Decides the deletion of `comment` by `user_id`: the author alone may
    /// delete it.
    pub fn delete_comment(&self, user_id: Oid, comment: Option<Comment>) -> (r: Result<
        Comment,
        AppError,
    >)
        ensures
            author_outcome(user_id, true, comment, r),
            r matches Ok(c) ==> c == comment.unwrap(),
    {
        let c = match comment {
            Some(c) => c,
            None => {
                return Err(AppError::NotFound(String::from_str("Comentario no encontrado")));
            },
        };
        if c.user_id != user_id {
            return Err(
                AppError::Unauthorized(
                    String::from_str("No tienes permiso para eliminar este comentario"),
                ),
            );
        }
        Ok(c)
    }
}

} // verus!
