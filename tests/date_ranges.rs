use jira_clone_backend::date_range_service::DateRangeService;
use jira_clone_backend::errors::AppError;
use jira_clone_backend::ids::Oid;
use jira_clone_backend::project_models::Project;
use jira_clone_backend::task_model::{DateRange, Task, TaskPriority, TaskStatus, UpdateDateRangeSchema};

fn oid(n: u8) -> Oid {
    Oid { bytes: [n; 12] }
}

fn project() -> Project {
    Project {
        id: Some(oid(100)),
        name: "Rangos".to_string(),
        project_key: "DR".to_string(),
        description: None,
        owner_id: oid(1),
        members: vec![oid(2)],
        created_at: 0,
        updated_at: 0,
    }
}

fn task(n: u8) -> Task {
    Task {
        id: Some(oid(n)),
        project_id: oid(100),
        title: "Tarea".to_string(),
        description: None,
        status: TaskStatus::ToDo,
        priority: TaskPriority::Low,
        assignee_id: None,
        reporter_id: oid(1),
        created_at: 0,
        updated_at: 0,
        start_date: None,
        end_date: None,
        has_due_date: false,
    }
}

fn range(t: u8, s: i64, e: i64) -> DateRange {
    DateRange { task_id: oid(t), start_date: s, end_date: e }
}

#[test]
fn ranges_are_set_by_participants() {
    let svc = DateRangeService::new();
    let r = svc.set_task_date_range(oid(50), range(9, 1, 2), oid(2), Some(task(50)), Some(project())).unwrap();
    assert_eq!(r.task_id, oid(50));
    assert!(matches!(
        svc.set_task_date_range(oid(50), range(50, 2, 2), oid(2), Some(task(50)), Some(project())),
        Err(AppError::ValidationError(_))
    ));
    assert!(matches!(
        svc.set_task_date_range(oid(50), range(50, 1, 2), oid(3), Some(task(50)), Some(project())),
        Err(AppError::Unauthorized(_))
    ));
    assert!(matches!(
        svc.set_task_date_range(oid(50), range(50, 1, 2), oid(2), None, Some(project())),
        Err(AppError::NotFound(_))
    ));
    let got = svc.get_task_date_range(oid(1), Some(task(50)), Some(project()), Some(range(50, 1, 2))).unwrap();
    assert_eq!(got.unwrap().end_date, 2);
    assert!(svc.delete_task_date_range(oid(2), Some(task(50)), Some(project())).is_ok());
}

#[test]
fn project_ranges_are_those_of_its_tasks() {
    let svc = DateRangeService::new();
    let tasks = vec![task(50), task(51)];
    let ranges = vec![range(50, 1, 2), range(60, 1, 2), range(51, 3, 4)];
    let got = svc.get_project_date_ranges(oid(2), Some(project()), &tasks, ranges).unwrap();
    assert_eq!(got.len(), 2);
    assert_eq!(got[1].task_id, oid(51));
    assert!(matches!(svc.get_project_date_ranges(oid(3), Some(project()), &tasks, vec![]), Err(AppError::Unauthorized(_))));
}

#[test]
fn partial_range_updates() {
    let svc = DateRangeService::new();
    let change = UpdateDateRangeSchema { start_date: None, end_date: Some(9) };
    let r = svc.update_task_date_range(change, oid(2), Some(task(50)), Some(project()), Some(range(50, 1, 2))).unwrap();
    assert_eq!((r.start_date, r.end_date), (1, 9));
    assert!(matches!(
        svc.update_task_date_range(UpdateDateRangeSchema::default(), oid(2), Some(task(50)), Some(project()), Some(range(50, 1, 2))),
        Err(AppError::ValidationError(_))
    ));
    let change = UpdateDateRangeSchema { start_date: Some(0), end_date: None };
    assert!(matches!(
        svc.update_task_date_range(change, oid(2), Some(task(50)), Some(project()), None),
        Err(AppError::NotFound(_))
    ));
}
