//! The rules of the project lifecycle and of project membership. Each
//! operation takes what storage returned and says what to store.
use vstd::prelude::*;

use crate::errors::{fails_with, AppError, ErrorKind};
use crate::ids::{contains_id, Oid};
use crate::lemmas::lemma_filter_prefix_step;
use crate::permission_service::{has_access, is_owner, project_access, PermissionService};
use crate::project_models::{
    with_role, AddMemberSchema, CreateProjectSchema, Project, ProjectWithRole, UpdateProjectSchema,
};
use crate::user_model::{is_user_data, User, UserData};
use crate::validation::{
    char_count, email_is_valid, is_key_text, is_valid_email, key_matches_pattern,
};

verus! {

/// A project name has at least three characters.
pub open spec fn name_ok(name: Seq<char>) -> bool {
    name.len() >= 3
}

/// A project key has two to ten characters, and `key_matches` says whether
/// it is made of capital letters and digits.
pub open spec fn key_ok(key: Seq<char>, key_matches: bool) -> bool {
    2 <= key.len() <= 10 && key_matches
}

/// The checks of a creation payload that need nothing from storage.
pub open spec fn project_input_ok(s: CreateProjectSchema) -> bool {
    name_ok(s.name@) && key_ok(s.key@, is_key_text(s.key@))
}

/// `key` is the key of one of the `stored` projects.
pub open spec fn key_taken(stored: Seq<Project>, key: Seq<char>) -> bool {
    exists|i: int| 0 <= i < stored.len() && (#[trigger] stored[i]).project_key@ == key
}

/// The outcome of creating a project from `s` for `owner_id` at `now`, where
/// `in_use` says whether another project already has the key.
pub open spec fn create_project_outcome(
    s: CreateProjectSchema,
    owner_id: Oid,
    in_use: bool,
    now: i64,
    r: Result<Project, AppError>,
) -> bool {
    if !project_input_ok(s) || in_use {
        fails_with(r, ErrorKind::Validation)
    } else {
        r matches Ok(p) && p.wf() && p.id.is_none() && p.name == s.name && p.project_key == s.key
            && p.description == s.description && p.owner_id == owner_id && p.members@.len() == 0
            && p.created_at == now && p.updated_at == now
    }
}

/// `q` is `p` but for its members and its update time.
pub open spec fn same_but_members(p: Project, q: Project) -> bool {
    &&& q.id == p.id
    &&& q.name == p.name
    &&& q.project_key == p.project_key
    &&& q.description == p.description
    &&& q.owner_id == p.owner_id
    &&& q.created_at == p.created_at
    &&& q.updated_at == p.updated_at
}

/// `q` is `p` with `user_id` in its members. Adding a member twice, or adding
/// the owner, changes nothing.
pub open spec fn member_added(p: Project, user_id: Oid, q: Project) -> bool {
    same_but_members(p, q) && q.members@ == if p.members@.contains(user_id) || user_id
        == p.owner_id {
        p.members@
    } else {
        p.members@.push(user_id)
    }
}

/// Every identifier but `user_id`.
pub open spec fn other_than(user_id: Oid) -> spec_fn(Oid) -> bool {
    |m: Oid| m != user_id
}

/// `q` is `p` without `user_id` among its members.
pub open spec fn member_removed(p: Project, user_id: Oid, q: Project) -> bool {
    same_but_members(p, q) && q.members@ == p.members@.filter(other_than(user_id))
}

/// The outcome of `owner_id` adding the user that storage found for `email`.
pub open spec fn add_member_outcome(
    owner_id: Oid,
    email: Seq<char>,
    project: Option<Project>,
    user_id: Option<Option<Oid>>,
    r: Result<Project, AppError>,
) -> bool {
    if !email_is_valid(email) {
        fails_with(r, ErrorKind::Validation)
    } else if project.is_none() {
        fails_with(r, ErrorKind::NotFound)
    } else if !is_owner(project.unwrap(), owner_id) {
        fails_with(r, ErrorKind::Denied)
    } else if user_id.is_none() {
        fails_with(r, ErrorKind::NotFound)
    } else if user_id.unwrap().is_none() {
        fails_with(r, ErrorKind::Internal)
    } else {
        r matches Ok(q) && member_added(project.unwrap(), user_id.unwrap().unwrap(), q)
    }
}

/// The outcome of `owner_id` removing `member_id` from `project`.
pub open spec fn remove_member_outcome(
    owner_id: Oid,
    member_id: Oid,
    project: Option<Project>,
    r: Result<Project, AppError>,
) -> bool {
    if project.is_none() {
        fails_with(r, ErrorKind::NotFound)
    } else if !is_owner(project.unwrap(), owner_id) {
        fails_with(r, ErrorKind::Denied)
    } else if owner_id == member_id {
        fails_with(r, ErrorKind::Validation)
    } else if !project.unwrap().members@.contains(member_id) {
        fails_with(r, ErrorKind::NotFound)
    } else {
        r matches Ok(q) && member_removed(project.unwrap(), member_id, q)
    }
}

/// The projects in which `user_id` takes part.
pub open spec fn accessible_to(user_id: Oid) -> spec_fn(Project) -> bool {
    |p: Project| has_access(p, user_id)
}

/// A project annotated with the role of `user_id`.
pub open spec fn annotated_for(user_id: Oid) -> spec_fn(Project) -> ProjectWithRole {
    |p: Project| with_role(p, user_id)
}

/// What storage holds after a creation decision `r` on `stored`: the new
/// project is stored on success, nothing changes otherwise.
pub open spec fn stored_after(stored: Seq<Project>, r: Result<Project, AppError>) -> Seq<Project> {
    match r {
        Ok(p) => stored.push(p),
        Err(_) => stored,
    }
}

/// Membership round trip. When the owner adds a user by a valid address, the
/// user gains access; when the owner then removes the user, the access is
/// gone; and removing the user once more finds nothing to remove.
pub proof fn lemma_membership_round_trip(
    p: Project,
    email: Seq<char>,
    user_id: Oid,
    added: Result<Project, AppError>,
    removed: Result<Project, AppError>,
    again: Result<Project, AppError>,
)
    requires
        email_is_valid(email),
        user_id != p.owner_id,
        add_member_outcome(p.owner_id, email, Some(p), Some(Some(user_id)), added),
        added is Ok ==> remove_member_outcome(p.owner_id, user_id, Some(added.unwrap()), removed),
        removed is Ok ==> remove_member_outcome(p.owner_id, user_id, Some(removed.unwrap()), again),
    ensures
        added matches Ok(q) && has_access(q, user_id),
        removed matches Ok(q) && !has_access(q, user_id),
        fails_with(again, ErrorKind::NotFound),
{
    let q = added.unwrap();
    assert(q.members@.contains(user_id)) by {
        if !p.members@.contains(user_id) {
            assert(q.members@.last() == user_id);
        }
    }
    let r = removed.unwrap();
    assert(!r.members@.contains(user_id)) by {
        if r.members@.contains(user_id) {
            let i = choose|i: int| 0 <= i < r.members@.len() && r.members@[i] == user_id;
            q.members@.lemma_filter_pred(other_than(user_id), i);
        }
    }
}

/// Project keys stay unique. Once a project is created with a key and
/// stored, creating another one with the same key is refused as invalid input,
/// and what storage holds, the first project included, stays as it was.
pub proof fn lemma_key_stays_unique(
    stored: Seq<Project>,
    first: CreateProjectSchema,
    second: CreateProjectSchema,
    owner1: Oid,
    owner2: Oid,
    now1: i64,
    now2: i64,
    r1: Result<Project, AppError>,
    r2: Result<Project, AppError>,
)
    requires
        create_project_outcome(first, owner1, key_taken(stored, first.key@), now1, r1),
        r1 is Ok,
        second.key@ == first.key@,
        create_project_outcome(
            second,
            owner2,
            key_taken(stored_after(stored, r1), second.key@),
            now2,
            r2,
        ),
    ensures
        fails_with(r2, ErrorKind::Validation),
        stored_after(stored_after(stored, r1), r2) == stored.push(r1.unwrap()),
{
    let after = stored_after(stored, r1);
    assert(after[after.len() - 1] == r1.unwrap());
    assert(key_taken(after, second.key@));
}

/// Checks the name and key of a new project, given whether the key matches
/// the key pattern.
pub fn validate_project_fields(name: &str, key: &str, key_matches: bool) -> (r: Result<
    (),
    AppError,
>)
    ensures
        r.is_ok() == (name_ok(name@) && key_ok(key@, key_matches)),
        r.is_err() ==> fails_with(r, ErrorKind::Validation),
{
    if char_count(name) < 3 {
        return Err(
            AppError::ValidationError(
                String::from_str("El nombre del proyecto debe tener al menos 3 caracteres."),
            ),
        );
    }
    let n = char_count(key);
    if n < 2 || n > 10 {
        return Err(
            AppError::ValidationError(
                String::from_str("La clave del proyecto debe tener entre 2 y 10 caracteres."),
            ),
        );
    }
    if !key_matches {
        return Err(
            AppError::ValidationError(
                String::from_str("La clave solo puede contener letras mayúsculas y números."),
            ),
        );
    }
    Ok(())
}

/// Whether one of `stored` has the key `key`.
pub fn key_in_use(stored: &Vec<Project>, key: &str) -> (r: bool)
    ensures
        r == key_taken(stored@, key@),
{
    let wanted = String::from_str(key);
    let mut i: usize = 0;
    while i < stored.len()
        invariant
            0 <= i <= stored.len(),
            wanted@ == key@,
            forall|j: int| 0 <= j < i ==> (#[trigger] stored@[j]).project_key@ != key@,
        decreases stored.len() - i,
    {
        if stored[i].project_key == wanted {
            return true;
        }
        i = i + 1;
    }
    false
}

/// A copy of a list of identifiers.
fn copy_ids(v: &Vec<Oid>) -> (r: Vec<Oid>)
    ensures
        r@ == v@,
{
    let mut out: Vec<Oid> = Vec::new();
    let mut i: usize = 0;
    while i < v.len()
        invariant
            0 <= i <= v.len(),
            out@ == v@.subrange(0, i as int),
        decreases v.len() - i,
    {
        out.push(v[i]);
        i = i + 1;
        assert(out@ =~= v@.subrange(0, i as int));
    }
    assert(v@.subrange(0, v@.len() as int) =~= v@);
    out
}

/// The project service.
pub struct ProjectService {}

impl ProjectService {
    pub fn new() -> ProjectService {
        ProjectService {  }
    }

    /// Decides the creation of a project owned by `owner_id`; `key_in_use`
    /// is whether storage already holds a project with the requested key.
    /// The owner starts as the only participant: the member list is empty.
    pub fn create_project(
        &self,
        schema: CreateProjectSchema,
        owner_id: Oid,
        key_in_use: bool,
        now: i64,
    ) -> (r: Result<Project, AppError>)
        ensures
            create_project_outcome(schema, owner_id, key_in_use, now, r),
    {
        let key_matches = key_matches_pattern(schema.key.as_str());
        match validate_project_fields(schema.name.as_str(), schema.key.as_str(), key_matches) {
            Ok(()) => {},
            Err(e) => {
                return Err(e);
            },
        }
        if key_in_use {
            return Err(
                AppError::ValidationError(String::from_str("La clave del proyecto ya está en uso.")),
            );
        }
        Ok(
            Project {
                id: None,
                name: schema.name,
                project_key: schema.key,
                description: schema.description,
                owner_id,
                members: Vec::new(),
                created_at: now,
                updated_at: now,
            },
        )
    }

    /// The projects among `projects` in which `user_id` takes part, in their
    /// order, each with the user's role.
    pub fn get_projects_for_user(&self, user_id: Oid, projects: Vec<Project>) -> (r: Vec<
        ProjectWithRole,
    >)
        ensures
            r@ == projects@.filter(accessible_to(user_id)).map_values(annotated_for(user_id)),
    {
        let ghost pred = accessible_to(user_id);
        let ghost all = projects@;
        let mut rest = projects;
        let n = rest.len();
        let mut out: Vec<ProjectWithRole> = Vec::new();
        let mut i: usize = 0;
        while rest.len() > 0
            invariant
                pred == accessible_to(user_id),
                all.len() == n,
                0 <= i <= all.len(),
                i + rest@.len() == all.len(),
                rest@ == all.subrange(i as int, all.len() as int),
                out@ == all.subrange(0, i as int).filter(pred).map_values(annotated_for(user_id)),
            decreases rest.len(),
        {
            proof {
                lemma_filter_prefix_step(all, i as int, pred);
            }
            let p = rest.remove(0);
            assert(p == all[i as int]);
            if project_access(&p, user_id) {
                let ghost before = out@;
                out.push(ProjectWithRole::from_project(p, user_id));
                proof {
                    assert(out@ =~= all.subrange(0, i as int + 1).filter(pred).map_values(
                        annotated_for(user_id),
                    ));
                }
            }
            i = i + 1;
            assert(rest@ =~= all.subrange(i as int, all.len() as int));
        }
        assert(all.subrange(0, i as int) =~= all);
        out
    }

    /// Decides an update by `owner_id`: only the owner may change a project.
    /// Absent fields keep their value; with nothing to change the project is
    /// returned as it is, otherwise it is stamped with `now`.
    pub fn update_project(
        &self,
        owner_id: Oid,
        schema: UpdateProjectSchema,
        project: Option<Project>,
        now: i64,
    ) -> (r: Result<Project, AppError>)
        ensures
            (schema.name matches Some(n) && !name_ok(n@)) ==> fails_with(r, ErrorKind::Validation),
            (schema.name matches Some(n) ==> name_ok(n@)) ==> {
                if project.is_none() {
                    fails_with(r, ErrorKind::NotFound)
                } else if !is_owner(project.unwrap(), owner_id) {
                    fails_with(r, ErrorKind::Denied)
                } else {
                    r matches Ok(q) && {
                        let p = project.unwrap();
                        &&& q.id == p.id
                        &&& q.project_key == p.project_key
                        &&& q.owner_id == p.owner_id
                        &&& q.members@ == p.members@
                        &&& (p.wf() ==> q.wf())
                        &&& q.created_at == p.created_at
                        &&& q.name == (match schema.name {
                            Some(n) => n,
                            None => p.name,
                        })
                        &&& q.description == (match schema.description {
                            Some(d) => Some(d),
                            None => p.description,
                        })
                        &&& q.updated_at == if schema.name.is_none()
                            && schema.description.is_none() {
                            p.updated_at
                        } else {
                            now
                        }
                    }
                }
            },
    {
        if let Some(n) = &schema.name {
            if char_count(n.as_str()) < 3 {
                return Err(
                    AppError::ValidationError(
                        String::from_str("El nombre del proyecto debe de tener al menos 3 caracteres. "),
                    ),
                );
            }
        }
        let p = match project {
            Some(p) => p,
            None => {
                return Err(AppError::NotFound(String::from_str("Proyecto no encontrado.")));
            },
        };
        if p.owner_id != owner_id {
            return Err(
                AppError::Unauthorized(
                    String::from_str("No tienes permiso para modificar este proyecto."),
                ),
            );
        }
        if schema.name.is_none() && schema.description.is_none() {
            return Ok(p);
        }
        let mut q = p;
        if let Some(n) = schema.name {
            q.name = n;
        }
        if let Some(d) = schema.description {
            q.description = Some(d);
        }
        q.updated_at = now;
        Ok(q)
    }

    /// Decides a deletion by `owner_id`: only the owner may delete a project.
    /// Its tasks are left in place.
    pub fn delete_project(&self, owner_id: Oid, project: Option<Project>) -> (r: Result<
        Project,
        AppError,
    >)
        ensures
            project.is_none() ==> fails_with(r, ErrorKind::NotFound),
            project.is_some() ==> if is_owner(project.unwrap(), owner_id) {
                r == Ok::<Project, AppError>(project.unwrap())
            } else {
                fails_with(r, ErrorKind::Denied)
            },
    {
        let p = match project {
            Some(p) => p,
            None => {
                return Err(AppError::NotFound(String::from_str("Proyecto no encontrado.")));
            },
        };
        if p.owner_id != owner_id {
            return Err(
                AppError::Unauthorized(
                    String::from_str("No tienes permiso para eliminar este proyecto."),
                ),
            );
        }
        Ok(p)
    }

    /// Decides the addition, by `owner_id`, of the user that storage found for
    /// `schema.email` (`user_to_add`). Members form a set.
    pub fn add_member(
        &self,
        owner_id: Oid,
        schema: AddMemberSchema,
        project: Option<Project>,
        user_to_add: Option<User>,
    ) -> (r: Result<Project, AppError>)
        ensures
            add_member_outcome(
                owner_id,
                schema.email@,
                project,
                match user_to_add {
                    Some(u) => Some(u.id),
                    None => None,
                },
                r,
            ),
            project matches Some(p) && p.wf() ==> (r matches Ok(q) ==> q.wf()),
    {
        if !is_valid_email(schema.email.as_str()) {
            return Err(
                AppError::ValidationError(String::from_str("El correo electrónico no es valido")),
            );
        }
        let p = match PermissionService::is_project_owner(project, owner_id) {
            Ok(p) => p,
            Err(e) => {
                return Err(e);
            },
        };
        let user = match user_to_add {
            Some(u) => u,
            None => {
                return Err(AppError::NotFound(String::from_str("Usuario no encontrado.")));
            },
        };
        let uid = match user.id {
            Some(id) => id,
            None => {
                return Err(AppError::InternalServerError);
            },
        };
        let mut q = p;
        if uid != q.owner_id && !contains_id(&q.members, uid) {
            q.members.push(uid);
        }
        Ok(q)
    }

    /// The identifiers of everyone in the project, members first and the
    /// owner last, for a participant of the project.
    pub fn list_members(&self, user_id: Oid, project: Option<Project>) -> (r: Result<
        Vec<Oid>,
        AppError,
    >)
        ensures
            project.is_none() ==> fails_with(r, ErrorKind::NotFound),
            project.is_some() && !has_access(project.unwrap(), user_id) ==> fails_with(
                r,
                ErrorKind::Denied,
            ),
            project.is_some() && has_access(project.unwrap(), user_id) ==> (r matches Ok(v) && v@
                == project.unwrap().members@.push(project.unwrap().owner_id)),
    {
        let p = match PermissionService::can_access_project(project, user_id) {
            Ok(p) => p,
            Err(e) => {
                return Err(e);
            },
        };
        let mut ids = copy_ids(&p.members);
        ids.push(p.owner_id);
        Ok(ids)
    }

    /// The public profiles of the users that storage returned for a member
    /// list, in their order.
    pub fn members_data(&self, users: Vec<User>) -> (r: Vec<UserData>)
        ensures
            r@.len() == users@.len(),
            forall|i: int| 0 <= i < r@.len() ==> is_user_data(users@[i], #[trigger] r@[i]),
    {
        let ghost all = users@;
        let mut rest = users;
        let mut out: Vec<UserData> = Vec::new();
        while rest.len() > 0
            invariant
                out@.len() + rest@.len() == all.len(),
                rest@ == all.subrange(out@.len() as int, all.len() as int),
                forall|i: int| 0 <= i < out@.len() ==> is_user_data(all[i], #[trigger] out@[i]),
            decreases rest.len(),
        {
            let u = rest.remove(0);
            out.push(UserData::from_user(u));
            assert(rest@ =~= all.subrange(out@.len() as int, all.len() as int));
        }
        out
    }

    /// Decides the removal of `member_id` by `owner_id`. The owner cannot be
    /// removed; removing someone who is not a member finds nothing to remove.
    pub fn remove_member(&self, owner_id: Oid, member_id: Oid, project: Option<Project>) -> (r:
        Result<Project, AppError>)
        ensures
            remove_member_outcome(owner_id, member_id, project, r),
            project matches Some(p) && p.wf() ==> (r matches Ok(q) ==> q.wf()),
    {
        let p = match PermissionService::is_project_owner(project, owner_id) {
            Ok(p) => p,
            Err(e) => {
                return Err(e);
            },
        };
        if owner_id == member_id {
            return Err(
                AppError::ValidationError(
                    String::from_str("El dueño del proyecto no puede ser eliminado."),
                ),
            );
        }
        if !contains_id(&p.members, member_id) {
            return Err(
                AppError::NotFound(String::from_str("Miembro no encontrado en el proyecto.")),
            );
        }
        let ghost pred = other_than(member_id);
        let mut kept: Vec<Oid> = Vec::new();
        let mut i: usize = 0;
        while i < p.members.len()
            invariant
                pred == other_than(member_id),
                0 <= i <= p.members.len(),
                kept@ == p.members@.subrange(0, i as int).filter(pred),
            decreases p.members.len() - i,
        {
            proof {
                lemma_filter_prefix_step(p.members@, i as int, pred);
            }
            if p.members[i] != member_id {
                kept.push(p.members[i]);
            }
            i = i + 1;
        }
        assert(p.members@.subrange(0, p.members@.len() as int) =~= p.members@);
        proof {
            if kept@.contains(p.owner_id) {
                p.members@.lemma_filter_contains_rev(pred, p.owner_id);
            }
        }
        let mut q = p;
        q.members = kept;
        Ok(q)
    }
}

} // verus!
