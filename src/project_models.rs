//! Projects, their payloads, and a project seen by one of its participants.
use vstd::prelude::*;

use crate::ids::Oid;

verus! {

/// A stored project. `owner_id` never changes after creation, and the owner is
/// not listed in `members`: ownership and membership are separate roles that
/// both give access.
#[derive(Clone, Debug)]
pub struct Project {
    pub id: Option<Oid>,
    pub name: String,
    pub project_key: String,
    pub description: Option<String>,
    pub owner_id: Oid,
    pub members: Vec<Oid>,
    pub created_at: i64,
    pub updated_at: i64,
}

impl Project {
    /// The owner is not listed among the members.
    pub open spec fn wf(&self) -> bool {
        !self.members@.contains(self.owner_id)
    }
}

#[derive(Debug)]
pub struct CreateProjectSchema {
    pub name: String,
    pub key: String,
    pub description: Option<String>,
}

#[derive(Debug, Default)]
pub struct UpdateProjectSchema {
    pub name: Option<String>,
    pub description: Option<String>,
}

#[derive(Debug)]
pub struct AddMemberSchema {
    pub email: String,
}

/// How the user who lists a project takes part in it.
#[derive(Clone, Copy, Debug, PartialEq, Eq, Structural)]
pub enum UserRole {
    Owner,
    Member,
}

/// A project together with the role of the user who asked for it.
#[derive(Clone, Debug)]
pub struct ProjectWithRole {
    pub id: Option<Oid>,
    pub name: String,
    pub project_key: String,
    pub description: Option<String>,
    pub owner_id: Oid,
    pub members: Vec<Oid>,
    pub created_at: i64,
    pub updated_at: i64,
    pub user_role: UserRole,
}

/// The role of `user_id` in `p`: owner when it owns `p`, member otherwise.
pub open spec fn role_in(p: Project, user_id: Oid) -> UserRole {
    if p.owner_id == user_id {
        UserRole::Owner
    } else {
        UserRole::Member
    }
}

/// `p` annotated with the role of `user_id`.
pub open spec fn with_role(p: Project, user_id: Oid) -> ProjectWithRole {
    ProjectWithRole {
        id: p.id,
        name: p.name,
        project_key: p.project_key,
        description: p.description,
        owner_id: p.owner_id,
        members: p.members,
        created_at: p.created_at,
        updated_at: p.updated_at,
        user_role: role_in(p, user_id),
    }
}

impl ProjectWithRole {
    /// Annotates `project` with the role that `user_id` has in it.
    pub fn from_project(project: Project, user_id: Oid) -> (r: ProjectWithRole)
        ensures
            r == with_role(project, user_id),
    {
        let user_role = if project.owner_id == user_id {
            UserRole::Owner
        } else {
            UserRole::Member
        };
        ProjectWithRole {
            id: project.id,
            name: project.name,
            project_key: project.project_key,
            description: project.description,
            owner_id: project.owner_id,
            members: project.members,
            created_at: project.created_at,
            updated_at: project.updated_at,
            user_role,
        }
    }
}

} // verus!
