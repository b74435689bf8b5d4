//! Tasks, their payloads and their date rules.
use vstd::prelude::*;

use crate::ids::Oid;

verus! {

#[derive(Clone, Copy, Debug, PartialEq, Eq, Structural)]
pub enum TaskStatus {
    ToDo,
    InProgress,
    Done,
    Cancelled,
}

#[derive(Clone, Copy, Debug, PartialEq, Eq, Structural)]
pub enum TaskPriority {
    Low,
    Medium,
    High,
    Urgent,
}

/// A stored task. Times are milliseconds since the Unix epoch. Its dates obey
/// `dates_consistent(has_due_date, start_date, end_date)`.
#[derive(Clone, Debug)]
pub struct Task {
    pub id: Option<Oid>,
    pub project_id: Oid,
    pub title: String,
    pub description: Option<String>,
    pub status: TaskStatus,
    pub priority: TaskPriority,
    pub assignee_id: Option<Oid>,
    pub reporter_id: Oid,
    pub created_at: i64,
    pub updated_at: i64,
    pub start_date: Option<i64>,
    pub end_date: Option<i64>,
    pub has_due_date: bool,
}

#[derive(Debug)]
pub struct CreateTaskSchema {
    pub title: String,
    pub description: Option<String>,
    pub status: Option<TaskStatus>,
    pub priority: Option<TaskPriority>,
    pub assignee_id: Option<String>,
    pub start_date: Option<i64>,
    pub end_date: Option<i64>,
    pub has_due_date: Option<bool>,
    pub created_at: Option<i64>,
    pub updated_at: Option<i64>,
}

/// A partial change of a task. An absent field (`None`) leaves the task's
/// value as it is. For `assignee_id` and `end_date`, `Some(None)` clears the
/// value and `Some(Some(v))` sets it.
#[derive(Debug, Default)]
pub struct UpdateTaskSchema {
    pub title: Option<String>,
    pub description: Option<String>,
    pub status: Option<TaskStatus>,
    pub priority: Option<TaskPriority>,
    pub assignee_id: Option<Option<String>>,
    pub start_date: Option<i64>,
    pub end_date: Option<Option<i64>>,
    pub has_due_date: Option<bool>,
    pub updated_at: Option<i64>,
}

/// The scheduling window of a task, one per task.
#[derive(Clone, Copy, Debug)]
pub struct DateRange {
    pub task_id: Oid,
    pub start_date: i64,
    pub end_date: i64,
}

#[derive(Debug, Default)]
pub struct UpdateDateRangeSchema {
    pub start_date: Option<i64>,
    pub end_date: Option<i64>,
}

/// The date rule of a task: a due date is present exactly when
/// `has_due_date` is set, and a start before an end.
pub open spec fn dates_consistent(has_due_date: bool, start: Option<i64>, end: Option<i64>) -> bool {
    &&& has_due_date ==> end.is_some()
    &&& !has_due_date ==> end.is_none()
    &&& (start.is_some() && end.is_some()) ==> start.unwrap() < end.unwrap()
}

/// The `has_due_date` of `t` after `u` is applied.
pub open spec fn merged_has_due(u: UpdateTaskSchema, t: Task) -> bool {
    match u.has_due_date {
        Some(b) => b,
        None => t.has_due_date,
    }
}

/// The start date of `t` after `u` is applied.
pub open spec fn merged_start(u: UpdateTaskSchema, t: Task) -> Option<i64> {
    match u.start_date {
        Some(s) => Some(s),
        None => t.start_date,
    }
}

/// The end date of `t` after `u` is applied.
pub open spec fn merged_end(u: UpdateTaskSchema, t: Task) -> Option<i64> {
    match u.end_date {
        Some(e) => e,
        None => t.end_date,
    }
}

/// The rule shared by both schemas, on the dates that would be stored.
fn check_dates(has_due_date: bool, start: Option<i64>, end: Option<i64>) -> (r: Result<(), String>)
    ensures
        r.is_ok() == dates_consistent(has_due_date, start, end),
{
    if has_due_date && end.is_none() {
        return Err(
            String::from_str("La fecha de finalización es requerida cuando has_due_date es true"),
        );
    }
    if !has_due_date && end.is_some() {
        return Err(
            String::from_str(
                "No se puede establecer fecha de finalización cuando has_due_date es false",
            ),
        );
    }
    if let (Some(s), Some(e)) = (start, end) {
        if s >= e {
            return Err(
                String::from_str("La fecha de inicio debe ser anterior a la fecha de finalización"),
            );
        }
    }
    Ok(())
}

impl CreateTaskSchema {
    /// Checks the date rule on the dates of a new task; an absent
    /// `has_due_date` counts as false.
    pub fn validate_dates(&self) -> (r: Result<(), String>)
        ensures
            r.is_ok() == dates_consistent(
                self.has_due_date.unwrap_or(false),
                self.start_date,
                self.end_date,
            ),
    {
        let has_due = match self.has_due_date {
            Some(b) => b,
            None => false,
        };
        check_dates(has_due, self.start_date, self.end_date)
    }
}

impl UpdateTaskSchema {
    /// Checks the date rule on the dates that `current_task` would have once
    /// this change is applied.
    pub fn validate_dates(&self, current_task: &Task) -> (r: Result<(), String>)
        ensures
            r.is_ok() == dates_consistent(
                merged_has_due(*self, *current_task),
                merged_start(*self, *current_task),
                merged_end(*self, *current_task),
            ),
    {
        let has_due = match self.has_due_date {
            Some(b) => b,
            None => current_task.has_due_date,
        };
        let start = match self.start_date {
            Some(s) => Some(s),
            None => current_task.start_date,
        };
        let end = match self.end_date {
            Some(e) => e,
            None => current_task.end_date,
        };
        check_dates(has_due, start, end)
    }
}

impl Task {
    /// The task's dates obey the date rule.
    pub open spec fn wf(&self) -> bool {
        dates_consistent(self.has_due_date, self.start_date, self.end_date)
    }
}

/// A copy of an optional text.
pub fn copy_text(o: &Option<String>) -> (r: Option<String>)
    ensures
        r == *o,
{
    match o {
        Some(s) => Some(s.clone()),
        None => None,
    }
}

impl Task {
    /// A field-by-field copy of the task.
    pub fn duplicate(&self) -> (r: Task)
        ensures
            r == *self,
    {
        Task {
            id: self.id,
            project_id: self.project_id,
            title: self.title.clone(),
            description: copy_text(&self.description),
            status: self.status,
            priority: self.priority,
            assignee_id: self.assignee_id,
            reporter_id: self.reporter_id,
            created_at: self.created_at,
            updated_at: self.updated_at,
            start_date: self.start_date,
            end_date: self.end_date,
            has_due_date: self.has_due_date,
        }
    }

    /// Whether the task's dates obey the date rule.
    pub fn has_valid_dates(&self) -> (r: bool)
        ensures
            r == dates_consistent(self.has_due_date, self.start_date, self.end_date),
    {
        check_dates(self.has_due_date, self.start_date, self.end_date).is_ok()
    }
}

} // verus!
