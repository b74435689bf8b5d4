//! The rules of task date ranges: one per task, readable and writable by any
//! participant of the task's project.
use vstd::prelude::*;

use crate::errors::{fails_with, outcome_only, AppError, ErrorKind};
use crate::ids::Oid;
use crate::lemmas::lemma_filter_prefix_step;
use crate::permission_service::{has_access, task_access_outcome, PermissionService};
use crate::project_models::Project;
use crate::task_model::{DateRange, Task, UpdateDateRangeSchema};

verus! {

/// A task together with its date range, if it has one.
#[derive(Debug)]
pub struct TaskWithDateRange {
    pub task: Task,
    pub date_range: Option<DateRange>,
}

/// A refused access check decides `r`: when the task or its project is
/// absent, or the user takes no part in the project, `r` is that error.
pub open spec fn gated<T>(
    user_id: Oid,
    task: Option<Task>,
    project: Option<Project>,
    r: Result<T, AppError>,
) -> bool {
    !task_access_outcome(user_id, task, project, Ok(())) ==> task_access_outcome(
        user_id,
        task,
        project,
        outcome_only(r),
    )
}

/// Access to the task's project is granted.
pub open spec fn granted(user_id: Oid, task: Option<Task>, project: Option<Project>) -> bool {
    task_access_outcome(user_id, task, project, Ok(()))
}

/// The date ranges of the listed tasks.
pub open spec fn of_tasks(tasks: Seq<Task>) -> spec_fn(DateRange) -> bool {
    |d: DateRange| exists|j: int| 0 <= j < tasks.len() && (#[trigger] tasks[j]).id == Some(d.task_id)
}

fn task_listed(tasks: &Vec<Task>, id: Oid) -> (r: bool)
    ensures
        r == of_tasks(tasks@)(DateRange { task_id: id, start_date: 0, end_date: 0 }),
{
    let mut j: usize = 0;
    while j < tasks.len()
        invariant
            0 <= j <= tasks.len(),
            forall|k: int| 0 <= k < j ==> (#[trigger] tasks@[k]).id != Some(id),
        decreases tasks.len() - j,
    {
        match tasks[j].id {
            Some(t) => {
                if t == id {
                    return true;
                }
            },
            None => {},
        }
        j = j + 1;
    }
    false
}

/// The date-range service.
pub struct DateRangeService {}

impl DateRangeService {
    pub fn new() -> DateRangeService {
        DateRangeService {  }
    }

    /// Decides setting the date range of `task_id` (created if it has none,
    /// replaced otherwise). The range must start before it ends.
    pub fn set_task_date_range(
        &self,
        task_id: Oid,
        date_range: DateRange,
        user_id: Oid,
        task: Option<Task>,
        project: Option<Project>,
    ) -> (r: Result<DateRange, AppError>)
        ensures
            date_range.start_date >= date_range.end_date ==> fails_with(r, ErrorKind::Validation),
            date_range.start_date < date_range.end_date ==> gated(user_id, task, project, r) && (
            granted(user_id, task, project) ==> r == Ok::<DateRange, AppError>(
                DateRange { task_id, ..date_range },
            )),
    {
        if date_range.start_date >= date_range.end_date {
            return Err(
                AppError::ValidationError(
                    String::from_str("La fecha de inicio debe ser anterior a la fecha de finalización"),
                ),
            );
        }
        match PermissionService::can_access_task(user_id, task, project) {
            Ok(()) => {},
            Err(e) => {
                return Err(e);
            },
        }
        Ok(DateRange { task_id, start_date: date_range.start_date, end_date: date_range.end_date })
    }

    /// The date range of a task, if it has one; `range` is what storage holds.
    pub fn get_task_date_range(
        &self,
        user_id: Oid,
        task: Option<Task>,
        project: Option<Project>,
        range: Option<DateRange>,
    ) -> (r: Result<Option<DateRange>, AppError>)
        ensures
            gated(user_id, task, project, r),
            granted(user_id, task, project) ==> r == Ok::<Option<DateRange>, AppError>(range),
    {
        match PermissionService::can_access_task(user_id, task, project) {
            Ok(()) => Ok(range),
            Err(e) => Err(e),
        }
    }

    /// The date ranges, among `ranges`, of the tasks `tasks` of a project,
    /// for a participant of the project.
    pub fn get_project_date_ranges(
        &self,
        user_id: Oid,
        project: Option<Project>,
        tasks: &Vec<Task>,
        ranges: Vec<DateRange>,
    ) -> (r: Result<Vec<DateRange>, AppError>)
        ensures
            project.is_none() ==> fails_with(r, ErrorKind::NotFound),
            project.is_some() && !has_access(project.unwrap(), user_id) ==> fails_with(
                r,
                ErrorKind::Denied,
            ),
            project.is_some() && has_access(project.unwrap(), user_id) ==> (r matches Ok(v) && v@
                == ranges@.filter(of_tasks(tasks@))),
    {
        match PermissionService::can_access_project(project, user_id) {
            Ok(_) => {},
            Err(e) => {
                return Err(e);
            },
        }
        let ghost pred = of_tasks(tasks@);
        let mut out: Vec<DateRange> = Vec::new();
        let mut i: usize = 0;
        while i < ranges.len()
            invariant
                pred == of_tasks(tasks@),
                0 <= i <= ranges.len(),
                out@ == ranges@.subrange(0, i as int).filter(pred),
            decreases ranges.len() - i,
        {
            proof {
                lemma_filter_prefix_step(ranges@, i as int, pred);
            }
            let d = ranges[i];
            let listed = task_listed(tasks, d.task_id);
            proof {
                assert(pred(d) == listed);
            }
            if listed {
                out.push(d);
            }
            i = i + 1;
        }
        assert(ranges@.subrange(0, ranges@.len() as int) =~= ranges@);
        Ok(out)
    }

    /// Decides the removal of a task's date range.
    pub fn delete_task_date_range(&self, user_id: Oid, task: Option<Task>, project: Option<Project>) -> (r:
        Result<(), AppError>)
        ensures
            task_access_outcome(user_id, task, project, r),
    {
        PermissionService::can_access_task(user_id, task, project)
    }

    /// Decides a partial change of the date range `existing` of a task. A
    /// task without a range has nothing to change, and a change must set at
    /// least one date.
    pub fn update_task_date_range(
        &self,
        update_data: UpdateDateRangeSchema,
        user_id: Oid,
        task: Option<Task>,
        project: Option<Project>,
        existing: Option<DateRange>,
    ) -> (r: Result<DateRange, AppError>)
        ensures
            gated(user_id, task, project, r),
            granted(user_id, task, project) ==> {
                if existing.is_none() {
                    fails_with(r, ErrorKind::NotFound)
                } else if update_data.start_date.is_none() && update_data.end_date.is_none() {
                    fails_with(r, ErrorKind::Validation)
                } else {
                    r == Ok::<DateRange, AppError>(
                        DateRange {
                            task_id: existing.unwrap().task_id,
                            start_date: update_data.start_date.unwrap_or(
                                existing.unwrap().start_date,
                            ),
                            end_date: update_data.end_date.unwrap_or(existing.unwrap().end_date),
                        },
                    )
                }
            },
    {
        match PermissionService::can_access_task(user_id, task, project) {
            Ok(()) => {},
            Err(e) => {
                return Err(e);
            },
        }
        let d = match existing {
            Some(d) => d,
            None => {
                return Err(
                    AppError::NotFound(
                        String::from_str("Rango de fechas no encontrado para esta tarea"),
                    ),
                );
            },
        };
        if update_data.start_date.is_none() && update_data.end_date.is_none() {
            return Err(
                AppError::ValidationError(
                    String::from_str("No se proporcionaron campos para actualizar"),
                ),
            );
        }
        Ok(
            DateRange {
                task_id: d.task_id,
                start_date: match update_data.start_date {
                    Some(s) => s,
                    None => d.start_date,
                },
                end_date: match update_data.end_date {
                    Some(e) => e,
                    None => d.end_date,
                },
            },
        )
    }
}

} // verus!
