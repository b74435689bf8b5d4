//! Who may read or change what: ownership and membership rules.
use vstd::prelude::*;

use crate::comment_model::Comment;
use crate::errors::{fails_with, AppError, ErrorKind};
use crate::ids::{contains_id, Oid};
use crate::image_model::Image;
use crate::project_models::Project;
use crate::task_model::Task;

verus! {

/// `user_id` takes part in `p`: it owns `p` or is one of its members.
pub open spec fn has_access(p: Project, user_id: Oid) -> bool {
    user_id == p.owner_id || p.members@.contains(user_id)
}

/// `user_id` owns `p`.
pub open spec fn is_owner(p: Project, user_id: Oid) -> bool {
    user_id == p.owner_id
}

/// `user_id` may delete `t`, a task of `p`: it owns `p` or is the task's
/// current assignee.
pub open spec fn may_delete_task(p: Project, t: Task, user_id: Oid) -> bool {
    user_id == p.owner_id || t.assignee_id == Some(user_id)
}

/// Only the author of a comment may change or delete it.
pub open spec fn is_author(c: Comment, user_id: Oid) -> bool {
    c.user_id == user_id
}

/// Only the uploader of an image may change or delete it.
pub open spec fn is_uploader(i: Image, user_id: Oid) -> bool {
    i.uploaded_by == user_id
}

/// The reason given to a user who takes no part in a project.
pub open spec fn not_member_reason() -> Seq<char> {
    "You do not have access to this project"@
}

/// The reason given to a user who does not own a project.
pub open spec fn not_owner_reason() -> Seq<char> {
    "You are not the owner of this project"@
}

/// The outcome of a project check: an absent project is `NotFound`, a refusal
/// is `Unauthorized` with `reason`, and a success hands the project back.
pub open spec fn project_check(
    project: Option<Project>,
    allowed: bool,
    reason: Seq<char>,
    r: Result<Project, AppError>,
) -> bool {
    match project {
        None => r matches Err(AppError::NotFound(_)),
        Some(p) => if allowed {
            r == Ok::<Project, AppError>(p)
        } else {
            r matches Err(AppError::Unauthorized(m)) && m@ == reason
        },
    }
}

/// The outcome of checking that `user_id` takes part in the project of
/// `task`, which storage returned as `project`.
pub open spec fn task_access_outcome(
    user_id: Oid,
    task: Option<Task>,
    project: Option<Project>,
    r: Result<(), AppError>,
) -> bool {
    if task.is_none() || project.is_none() {
        fails_with(r, ErrorKind::NotFound)
    } else if !has_access(project.unwrap(), user_id) {
        fails_with(r, ErrorKind::Denied)
    } else {
        r.is_ok()
    }
}

/// Whether `user_id` takes part in `p`.
pub fn project_access(p: &Project, user_id: Oid) -> (r: bool)
    ensures
        r == has_access(*p, user_id),
{
    p.owner_id == user_id || contains_id(&p.members, user_id)
}

/// Whether `user_id` may delete `task`, a task of `project`.
pub fn can_delete_task(project: &Project, task: &Task, user_id: Oid) -> (r: bool)
    ensures
        r == may_delete_task(*project, *task, user_id),
{
    if project.owner_id == user_id {
        return true;
    }
    match task.assignee_id {
        Some(a) => a == user_id,
        None => false,
    }
}

/// The permission evaluator. `project` is what storage returned for the
/// project in question.
pub struct PermissionService {}

impl PermissionService {
    /// Lets owners and members through.
    pub fn can_access_project(project: Option<Project>, user_id: Oid) -> (r: Result<
        Project,
        AppError,
    >)
        ensures
            project_check(
                project,
                project.is_some() && has_access(project.unwrap(), user_id),
                not_member_reason(),
                r,
            ),
    {
        match project {
            None => Err(AppError::NotFound(String::from_str("Project not found"))),
            Some(p) => {
                if project_access(&p, user_id) {
                    Ok(p)
                } else {
                    Err(
                        AppError::Unauthorized(
                            String::from_str("You do not have access to this project"),
                        ),
                    )
                }
            },
        }
    }

    /// Lets the participants of the project of `task` through; `project` is
    /// what storage returned for the task's project.
    pub fn can_access_task(user_id: Oid, task: Option<Task>, project: Option<Project>) -> (r:
        Result<(), AppError>)
        ensures
            task_access_outcome(user_id, task, project, r),
    {
        if task.is_none() {
            return Err(AppError::NotFound(String::from_str("Task not found")));
        }
        match Self::can_access_project(project, user_id) {
            Ok(_) => Ok(()),
            Err(e) => Err(e),
        }
    }

    /// Lets the owner through, and nobody else.
    pub fn is_project_owner(project: Option<Project>, user_id: Oid) -> (r: Result<
        Project,
        AppError,
    >)
        ensures
            project_check(
                project,
                project.is_some() && is_owner(project.unwrap(), user_id),
                not_owner_reason(),
                r,
            ),
    {
        match project {
            None => Err(AppError::NotFound(String::from_str("Project not found"))),
            Some(p) => {
                if p.owner_id == user_id {
                    Ok(p)
                } else {
                    Err(
                        AppError::Unauthorized(
                            String::from_str("You are not the owner of this project"),
                        ),
                    )
                }
            },
        }
    }
}

} // verus!
