//! The rules of the task lifecycle. Each operation takes what storage returned
//! for the task and its project, decides, and says what to store; once storage
//! has done so, the matching `task_*` step publishes the change.
use vstd::prelude::*;

use crate::errors::{fails_with, AppError, ErrorKind};
use crate::ids::{is_oid_hex, names_oid, Oid};
use crate::lemmas::lemma_filter_prefix_step;
use crate::notification::{NotificationHub, TaskChanges, TaskEvent, UpdatedFields};
use crate::permission_service::{
    can_delete_task, has_access, may_delete_task, PermissionService,
};
use crate::project_models::Project;
use crate::task_model::{
    dates_consistent, merged_end, merged_has_due, merged_start, CreateTaskSchema, Task,
    TaskPriority, TaskStatus, UpdateTaskSchema,
};
use crate::validation::char_count;

verus! {

/// The tasks that belong to `project_id`.
pub open spec fn of_project(project_id: Oid) -> spec_fn(Task) -> bool {
    |t: Task| t.project_id == project_id
}

/// A task title has at least three characters.
pub open spec fn title_ok(title: Seq<char>) -> bool {
    title.len() >= 3
}

/// `r` is what an optional assignee text resolves to.
pub open spec fn assignee_resolves(text: Option<String>, r: Option<Oid>) -> bool {
    match text {
        None => r.is_none(),
        Some(s) => r.is_some() && names_oid(s@, r.unwrap()),
    }
}

/// An optional assignee text that is absent or names an identifier.
pub open spec fn assignee_text_ok(text: Option<String>) -> bool {
    match text {
        None => true,
        Some(s) => is_oid_hex(s@),
    }
}

/// The checks of a creation payload that need nothing from storage.
pub open spec fn create_input_ok(s: CreateTaskSchema) -> bool {
    title_ok(s.title@) && dates_consistent(s.has_due_date.unwrap_or(false), s.start_date, s.end_date)
}

/// `t` is the task that `s` creates in `project_id`, reported by
/// `reporter_id`, at time `now`: status `ToDo` and priority `Medium` unless
/// given, no identifier yet.
pub open spec fn is_new_task(
    s: CreateTaskSchema,
    project_id: Oid,
    reporter_id: Oid,
    now: i64,
    t: Task,
) -> bool {
    &&& t.id.is_none()
    &&& t.wf()
    &&& t.project_id == project_id
    &&& t.title == s.title
    &&& t.description == s.description
    &&& t.status == s.status.unwrap_or(TaskStatus::ToDo)
    &&& t.priority == s.priority.unwrap_or(TaskPriority::Medium)
    &&& assignee_resolves(s.assignee_id, t.assignee_id)
    &&& t.reporter_id == reporter_id
    &&& t.created_at == s.created_at.unwrap_or(now)
    &&& t.updated_at == s.updated_at.unwrap_or(now)
    &&& t.start_date == s.start_date
    &&& t.end_date == s.end_date
    &&& t.has_due_date == s.has_due_date.unwrap_or(false)
}

/// The checks of an update payload that need nothing from storage.
pub open spec fn update_input_ok(s: UpdateTaskSchema) -> bool {
    s.title matches Some(t) ==> title_ok(t@)
}

/// The dates that an update would leave on `t` obey the date rule.
pub open spec fn update_dates_ok(s: UpdateTaskSchema, t: Task) -> bool {
    dates_consistent(merged_has_due(s, t), merged_start(s, t), merged_end(s, t))
}

/// The assignee part of an update is absent, a clearing, or names an identifier.
pub open spec fn update_assignee_ok(s: UpdateTaskSchema) -> bool {
    match s.assignee_id {
        Some(Some(a)) => is_oid_hex(a@),
        _ => true,
    }
}

/// The update sets no field at all.
pub open spec fn sets_nothing(s: UpdateTaskSchema) -> bool {
    &&& s.title.is_none()
    &&& s.description.is_none()
    &&& s.status.is_none()
    &&& s.priority.is_none()
    &&& s.assignee_id.is_none()
    &&& s.start_date.is_none()
    &&& s.end_date.is_none()
    &&& s.has_due_date.is_none()
}

/// `t` is `cur` with the fields present in `s` replaced, stamped with
/// `s.updated_at`, or `now` when that is absent. Its dates obey the date rule.
pub open spec fn is_merged(s: UpdateTaskSchema, cur: Task, now: i64, t: Task) -> bool {
    &&& t.wf()
    &&& t.id == cur.id
    &&& t.project_id == cur.project_id
    &&& t.title == (match s.title {
        Some(x) => x,
        None => cur.title,
    })
    &&& t.description == (match s.description {
        Some(x) => Some(x),
        None => cur.description,
    })
    &&& t.status == s.status.unwrap_or(cur.status)
    &&& t.priority == s.priority.unwrap_or(cur.priority)
    &&& match s.assignee_id {
        None => t.assignee_id == cur.assignee_id,
        Some(None) => t.assignee_id.is_none(),
        Some(Some(a)) => t.assignee_id.is_some() && names_oid(a@, t.assignee_id.unwrap()),
    }
    &&& t.reporter_id == cur.reporter_id
    &&& t.created_at == cur.created_at
    &&& t.updated_at == s.updated_at.unwrap_or(now)
    &&& t.start_date == merged_start(s, cur)
    &&& t.end_date == merged_end(s, cur)
    &&& t.has_due_date == merged_has_due(s, cur)
}

/// What an update `s` of a task whose status was `previous` reports to
/// subscribers.
pub open spec fn changes_of(s: UpdateTaskSchema, previous: TaskStatus) -> TaskChanges {
    TaskChanges {
        status_changed: s.status.is_some(),
        previous_status: if s.status.is_some() {
            Some(previous)
        } else {
            None
        },
        updated_fields: UpdatedFields {
            title: s.title.is_some(),
            description: s.description.is_some(),
            status: s.status.is_some(),
            priority: s.priority.is_some(),
            assignee_id: s.assignee_id.is_some(),
        },
    }
}

/// A due date needs an end. A creation that asks for a due date without an
/// end is refused as invalid input, and so is an update that would leave a
/// task with a due date and no end; both are refused before anything is
/// stored (the decisions come before any write).
pub proof fn lemma_due_date_needs_end(
    create: CreateTaskSchema,
    project_id: Oid,
    reporter_id: Oid,
    project: Option<Project>,
    now: i64,
    created: Result<Task, AppError>,
    user_id: Oid,
    update: UpdateTaskSchema,
    current: Task,
    updated: Result<TaskUpdate, AppError>,
)
    requires
        create_task_outcome(create, project_id, reporter_id, project, now, created),
        update_task_outcome(user_id, update, Some(current), project, now, updated),
    ensures
        create.has_due_date == Some(true) && create.end_date.is_none() ==> fails_with(
            created,
            ErrorKind::Validation,
        ),
        merged_has_due(update, current) && merged_end(
            update,
            current,
        ).is_none() ==> fails_with(updated, ErrorKind::Validation),
{
}

/// Deleting is narrower than updating: a member of the project who neither
/// owns it nor is assigned the task may update the task (with a valid
/// change) but not delete it.
pub proof fn lemma_member_updates_but_cannot_delete(
    p: Project,
    t: Task,
    user_id: Oid,
    change: UpdateTaskSchema,
    now: i64,
    updated: Result<TaskUpdate, AppError>,
    deleted: Result<Task, AppError>,
)
    requires
        p.members@.contains(user_id),
        user_id != p.owner_id,
        t.assignee_id != Some(user_id),
        update_input_ok(change),
        update_dates_ok(change, t),
        update_assignee_ok(change),
        update_task_outcome(user_id, change, Some(t), Some(p), now, updated),
        delete_task_outcome(user_id, Some(t), Some(p), deleted),
    ensures
        updated is Ok,
        fails_with(deleted, ErrorKind::Denied),
{
}

/// A status change is announced. When an update that sets the status
/// succeeds and its completion publishes the result, the hub's last event is a
/// `TASK_UPDATED` of the updated task that says the status changed and names
/// the status the task had before.
pub proof fn lemma_status_change_is_announced(
    user_id: Oid,
    change: UpdateTaskSchema,
    current: Task,
    project: Option<Project>,
    now: i64,
    decided: Result<TaskUpdate, AppError>,
    before: Seq<TaskEvent>,
    after: Seq<TaskEvent>,
)
    requires
        change.status.is_some(),
        update_task_outcome(user_id, change, Some(current), project, now, decided),
        decided.is_ok() && decided.unwrap().changes.is_some() ==> after == before.push(
            TaskEvent::Updated { task: decided.unwrap().task, changes: decided.unwrap().changes.unwrap() },
        ),
    ensures
        decided matches Ok(u) ==> u.changes.is_some() && u.task.status == change.status.unwrap()
            && after.len() == before.len() + 1 && (after.last() matches TaskEvent::Updated {
            task,
            changes,
        } && task == u.task && changes.status_changed && changes.previous_status == Some(
            current.status,
        )),
{
}

/// The decision on an update: the task to store, and what changed. With no
/// change there is nothing to store and nothing to publish.
pub struct TaskUpdate {
    pub task: Task,
    pub changes: Option<TaskChanges>,
}

/// The outcome of creating a task from `s` in `project_id` for
/// `reporter_id`, where `project` is what storage holds under that id. Invalid
/// input is refused first, then an absent project, then a user without
/// access, then a malformed assignee.
pub open spec fn create_task_outcome(
    s: CreateTaskSchema,
    project_id: Oid,
    reporter_id: Oid,
    project: Option<Project>,
    now: i64,
    r: Result<Task, AppError>,
) -> bool {
    if !create_input_ok(s) {
        fails_with(r, ErrorKind::Validation)
    } else if project.is_none() {
        fails_with(r, ErrorKind::NotFound)
    } else if !has_access(project.unwrap(), reporter_id) {
        fails_with(r, ErrorKind::Denied)
    } else if !assignee_text_ok(s.assignee_id) {
        fails_with(r, ErrorKind::Validation)
    } else {
        r matches Ok(t) && is_new_task(s, project_id, reporter_id, now, t)
    }
}

/// The outcome of `user_id` updating `current` with `s`, where `project` is
/// what storage holds for the task's project.
pub open spec fn update_task_outcome(
    user_id: Oid,
    s: UpdateTaskSchema,
    current: Option<Task>,
    project: Option<Project>,
    now: i64,
    r: Result<TaskUpdate, AppError>,
) -> bool {
    if !update_input_ok(s) {
        fails_with(r, ErrorKind::Validation)
    } else if current.is_none() {
        fails_with(r, ErrorKind::NotFound)
    } else if !update_dates_ok(s, current.unwrap()) {
        fails_with(r, ErrorKind::Validation)
    } else if project.is_none() {
        fails_with(r, ErrorKind::NotFound)
    } else if !has_access(project.unwrap(), user_id) {
        fails_with(r, ErrorKind::Denied)
    } else if !update_assignee_ok(s) {
        fails_with(r, ErrorKind::Validation)
    } else if sets_nothing(s) {
        r matches Ok(u) && u.task == current.unwrap() && u.changes.is_none() && u.task.wf()
    } else {
        r matches Ok(u) && is_merged(s, current.unwrap(), now, u.task) && u.changes == Some(
            changes_of(s, current.unwrap().status),
        )
    }
}

/// The outcome of `user_id` deleting `task`, whose project storage returned
/// as `project`.
pub open spec fn delete_task_outcome(
    user_id: Oid,
    task: Option<Task>,
    project: Option<Project>,
    r: Result<Task, AppError>,
) -> bool {
    if task.is_none() || project.is_none() {
        fails_with(r, ErrorKind::NotFound)
    } else if may_delete_task(project.unwrap(), task.unwrap(), user_id) {
        r == Ok::<Task, AppError>(task.unwrap())
    } else {
        fails_with(r, ErrorKind::Denied)
    }
}

/// Resolves an optional assignee text to an identifier.
fn resolve_assignee(text: Option<String>) -> (r: Result<Option<Oid>, AppError>)
    ensures
        assignee_text_ok(text) ==> (r matches Ok(a) && assignee_resolves(text, a)),
        !assignee_text_ok(text) ==> fails_with(r, ErrorKind::Validation),
{
    match text {
        None => Ok(None),
        Some(s) => match Oid::parse_str(s.as_str()) {
            Some(o) => Ok(Some(o)),
            None => Err(AppError::ValidationError(String::from_str("El ID del asignado no es válido"))),
        },
    }
}

/// The task service, with the hub it publishes task changes to.
pub struct TaskService {
    pub hub: NotificationHub,
}

impl TaskService {
    pub fn new(hub: NotificationHub) -> (r: TaskService)
        ensures
            r.hub == hub,
    {
        TaskService { hub }
    }

    /// Decides the creation of a task in `project_id`, where `project` is what
    /// storage holds under that id. Invalid input is refused first, then an
    /// absent project, then a user without access, then a malformed assignee.
    pub fn create_task(
        &self,
        schema: CreateTaskSchema,
        project_id: Oid,
        reporter_id: Oid,
        project: Option<Project>,
        now: i64,
    ) -> (r: Result<Task, AppError>)
        ensures
            create_task_outcome(schema, project_id, reporter_id, project, now, r),
    {
        if char_count(schema.title.as_str()) < 3 {
            return Err(
                AppError::ValidationError(String::from_str("El titulo debe tener al menos 3 caracteres")),
            );
        }
        match schema.validate_dates() {
            Ok(()) => {},
            Err(m) => {
                return Err(AppError::ValidationError(m));
            },
        }
        match PermissionService::can_access_project(project, reporter_id) {
            Ok(_) => {},
            Err(e) => {
                return Err(e);
            },
        }
        let assignee_id = match resolve_assignee(schema.assignee_id) {
            Ok(a) => a,
            Err(e) => {
                return Err(e);
            },
        };
        let created_at = match schema.created_at {
            Some(t) => t,
            None => now,
        };
        let updated_at = match schema.updated_at {
            Some(t) => t,
            None => now,
        };
        Ok(
            Task {
                id: None,
                project_id,
                title: schema.title,
                description: schema.description,
                status: match schema.status {
                    Some(s) => s,
                    None => TaskStatus::ToDo,
                },
                priority: match schema.priority {
                    Some(p) => p,
                    None => TaskPriority::Medium,
                },
                assignee_id,
                reporter_id,
                created_at,
                updated_at,
                start_date: schema.start_date,
                end_date: schema.end_date,
                has_due_date: match schema.has_due_date {
                    Some(b) => b,
                    None => false,
                },
            },
        )
    }

    /// Completes a creation once storage has inserted `task`: the task gets
    /// the identifier storage gave it, and a `TASK_CREATED` event is published
    /// without waiting. Storage that gave no identifier is an internal error.
    pub fn task_created(&mut self, task: Task, inserted_id: Option<Oid>) -> (r: Result<
        Task,
        AppError,
    >)
        ensures
            inserted_id.is_none() ==> fails_with(r, ErrorKind::Internal) && final(self).hub.log()
                == old(self).hub.log(),
            inserted_id matches Some(id) ==> r == Ok::<Task, AppError>(Task { id: Some(id), ..task })
                && final(self).hub.log() == old(self).hub.log().push(
                TaskEvent::Created { task: Task { id: Some(id), ..task } },
            ),
    {
        match inserted_id {
            None => Err(AppError::InternalServerError),
            Some(id) => {
                let mut created = task;
                created.id = Some(id);
                self.hub.publish(TaskEvent::Created { task: created.duplicate() });
                Ok(created)
            },
        }
    }

    /// Decides an update of `current` (what storage holds under the task's
    /// id), whose project storage returned as `project`. Any participant of
    /// the project may update any of its tasks.
    pub fn update_task(
        &self,
        user_id: Oid,
        schema: UpdateTaskSchema,
        current: Option<Task>,
        project: Option<Project>,
        now: i64,
    ) -> (r: Result<TaskUpdate, AppError>)
        ensures
            update_task_outcome(user_id, schema, current, project, now, r),
    {
        if let Some(t) = &schema.title {
            if char_count(t.as_str()) < 3 {
                return Err(
                    AppError::ValidationError(
                        String::from_str("El titulo debe tener al menos 3 caracteres"),
                    ),
                );
            }
        }
        let task = match current {
            Some(t) => t,
            None => {
                return Err(AppError::NotFound(String::from_str("Tarea no encontrada")));
            },
        };
        match schema.validate_dates(&task) {
            Ok(()) => {},
            Err(m) => {
                return Err(AppError::ValidationError(m));
            },
        }
        match PermissionService::can_access_project(project, user_id) {
            Ok(_) => {},
            Err(e) => {
                return Err(e);
            },
        }
        let changes = TaskChanges {
            status_changed: schema.status.is_some(),
            previous_status: if schema.status.is_some() {
                Some(task.status)
            } else {
                None
            },
            updated_fields: UpdatedFields {
                title: schema.title.is_some(),
                description: schema.description.is_some(),
                status: schema.status.is_some(),
                priority: schema.priority.is_some(),
                assignee_id: schema.assignee_id.is_some(),
            },
        };
        let nothing = schema.title.is_none() && schema.description.is_none()
            && schema.status.is_none() && schema.priority.is_none() && schema.assignee_id.is_none()
            && schema.start_date.is_none() && schema.end_date.is_none()
            && schema.has_due_date.is_none();
        let assignee_id = match schema.assignee_id {
            None => task.assignee_id,
            Some(None) => None,
            Some(Some(a)) => match Oid::parse_str(a.as_str()) {
                Some(o) => Some(o),
                None => {
                    return Err(
                        AppError::ValidationError(
                            String::from_str("El ID del asignado no es válido"),
                        ),
                    );
                },
            },
        };
        if nothing {
            return Ok(TaskUpdate { task, changes: None });
        }
        let has_due_date = match schema.has_due_date {
            Some(b) => b,
            None => task.has_due_date,
        };
        let start_date = match schema.start_date {
            Some(s) => Some(s),
            None => task.start_date,
        };
        let end_date = match schema.end_date {
            Some(e) => e,
            None => task.end_date,
        };
        let updated = Task {
            id: task.id,
            project_id: task.project_id,
            title: match schema.title {
                Some(x) => x,
                None => task.title,
            },
            description: match schema.description {
                Some(x) => Some(x),
                None => task.description,
            },
            status: match schema.status {
                Some(s) => s,
                None => task.status,
            },
            priority: match schema.priority {
                Some(p) => p,
                None => task.priority,
            },
            assignee_id,
            reporter_id: task.reporter_id,
            created_at: task.created_at,
            updated_at: match schema.updated_at {
                Some(t) => t,
                None => now,
            },
            start_date,
            end_date,
            has_due_date,
        };
        Ok(TaskUpdate { task: updated, changes: Some(changes) })
    }

    /// Completes an update once storage holds `task`: a `TASK_UPDATED` event
    /// with `changes` is published without waiting, and the task is returned.
    pub fn task_updated(&mut self, task: Task, changes: TaskChanges) -> (r: Task)
        ensures
            r == task,
            final(self).hub.log() == old(self).hub.log().push(TaskEvent::Updated { task, changes }),
    {
        self.hub.publish(TaskEvent::Updated { task: task.duplicate(), changes });
        task
    }

    /// Decides a deletion: allowed to the project's owner and to the task's
    /// current assignee only, a narrower rule than for updates.
    pub fn delete_task(&self, user_id: Oid, task: Option<Task>, project: Option<Project>) -> (r:
        Result<Task, AppError>)
        ensures
            delete_task_outcome(user_id, task, project, r),
    {
        let t = match task {
            Some(t) => t,
            None => {
                return Err(AppError::NotFound(String::from_str("Tarea no encontrada")));
            },
        };
        let p = match project {
            Some(p) => p,
            None => {
                return Err(AppError::NotFound(String::from_str("Proyecto no encontrado")));
            },
        };
        if !can_delete_task(&p, &t, user_id) {
            return Err(
                AppError::Unauthorized(String::from_str("No tienes permiso para eliminar esta tarea")),
            );
        }
        Ok(t)
    }

    /// Completes a deletion once storage reports how many tasks it removed:
    /// none means the task was already gone; otherwise a `TASK_DELETED` event
    /// is published without waiting.
    pub fn task_deleted(&mut self, task_id: Oid, project_id: Oid, deleted_count: u64) -> (r: Result<
        (),
        AppError,
    >)
        ensures
            deleted_count == 0 ==> fails_with(r, ErrorKind::NotFound) && final(self).hub.log()
                == old(self).hub.log(),
            deleted_count > 0 ==> r.is_ok() && final(self).hub.log() == old(self).hub.log().push(
                TaskEvent::Deleted { task_id, project_id },
            ),
    {
        if deleted_count == 0 {
            return Err(
                AppError::NotFound(
                    String::from_str(
                        "No se pudo eliminar la tarea, es posible que ya haya sido eliminada",
                    ),
                ),
            );
        }
        self.hub.publish(TaskEvent::Deleted { task_id, project_id });
        Ok(())
    }

    /// The tasks of `project_id` among `tasks`, in their order, for a
    /// participant of the project.
    pub fn get_task_for_project(
        &self,
        project_id: Oid,
        user_id: Oid,
        project: Option<Project>,
        tasks: Vec<Task>,
    ) -> (r: Result<Vec<Task>, AppError>)
        ensures
            project.is_none() ==> fails_with(r, ErrorKind::NotFound),
            project.is_some() && !has_access(project.unwrap(), user_id) ==> fails_with(
                r,
                ErrorKind::Denied,
            ),
            project.is_some() && has_access(project.unwrap(), user_id) ==> (r matches Ok(v) && v@
                == tasks@.filter(of_project(project_id))),
    {
        match PermissionService::can_access_project(project, user_id) {
            Ok(_) => {},
            Err(e) => {
                return Err(e);
            },
        }
        let ghost pred = of_project(project_id);
        let mut out: Vec<Task> = Vec::new();
        let mut i: usize = 0;
        while i < tasks.len()
            invariant
                0 <= i <= tasks.len(),
                pred == of_project(project_id),
                out@ == tasks@.subrange(0, i as int).filter(pred),
            decreases tasks.len() - i,
        {
            proof {
                lemma_filter_prefix_step(tasks@, i as int, pred);
                let x = tasks@[i as int];
                assert(pred(x) == (x.project_id == project_id));
            }
            if tasks[i].project_id == project_id {
                out.push(tasks[i].duplicate());
            }
            i = i + 1;
        }
        assert(tasks@.subrange(0, tasks@.len() as int) =~= tasks@);
        Ok(out)
    }

    /// A task, for a participant of its project.
    pub fn get_task_by_id(&self, user_id: Oid, task: Option<Task>, project: Option<Project>) -> (r:
        Result<Task, AppError>)
        ensures
            task.is_none() ==> fails_with(r, ErrorKind::NotFound),
            task.is_some() && project.is_none() ==> fails_with(r, ErrorKind::NotFound),
            task.is_some() && project.is_some() ==> if has_access(project.unwrap(), user_id) {
                r == Ok::<Task, AppError>(task.unwrap())
            } else {
                fails_with(r, ErrorKind::Denied)
            },
    {
        let t = match task {
            Some(t) => t,
            None => {
                return Err(AppError::NotFound(String::from_str("Tarea no encontrada")));
            },
        };
        match PermissionService::can_access_project(project, user_id) {
            Ok(_) => Ok(t),
            Err(e) => Err(e),
        }
    }
}

} // verus!
