use jira_clone_backend::errors::AppError;
use jira_clone_backend::ids::Oid;
use jira_clone_backend::notification::{NotificationHub, TaskEvent};
use jira_clone_backend::project_models::Project;
use jira_clone_backend::task_model::{
    CreateTaskSchema, Task, TaskPriority, TaskStatus, UpdateTaskSchema,
};
use jira_clone_backend::task_service::TaskService;

fn oid(n: u8) -> Oid {
    Oid { bytes: [n; 12] }
}

fn project(owner: u8, members: &[u8]) -> Project {
    Project {
        id: Some(oid(100)),
        name: "Proyecto".to_string(),
        project_key: "PROJEDIT".to_string(),
        description: None,
        owner_id: oid(owner),
        members: members.iter().map(|m| oid(*m)).collect(),
        created_at: 0,
        updated_at: 0,
    }
}

fn create_schema(title: &str) -> CreateTaskSchema {
    CreateTaskSchema {
        title: title.to_string(),
        description: None,
        status: None,
        priority: None,
        assignee_id: None,
        start_date: None,
        end_date: None,
        has_due_date: None,
        created_at: None,
        updated_at: None,
    }
}

fn service() -> TaskService {
    TaskService::new(NotificationHub::new(16))
}

fn stored_task(svc: &mut TaskService, assignee: Option<&str>) -> Task {
    let mut s = create_schema("Tarea para editar");
    s.assignee_id = assignee.map(|a| a.to_string());
    let t = svc.create_task(s, oid(100), oid(1), Some(project(1, &[2, 3])), 10).unwrap();
    svc.task_created(t, Some(oid(50))).unwrap()
}

#[test]
fn new_tasks_get_defaults() {
    let mut svc = service();
    let t = svc.create_task(create_schema("Tarea 1"), oid(100), oid(2), Some(project(1, &[2])), 77).unwrap();
    assert!(t.id.is_none());
    assert_eq!(t.project_id, oid(100));
    assert_eq!(t.status, TaskStatus::ToDo);
    assert_eq!(t.priority, TaskPriority::Medium);
    assert_eq!(t.reporter_id, oid(2));
    assert_eq!(t.created_at, 77);
    assert!(!t.has_due_date);
    let t = svc.task_created(t, Some(oid(50))).unwrap();
    assert_eq!(t.id, Some(oid(50)));
}

#[test]
fn creation_checks_input_then_project_then_access() {
    let mut svc = service();
    let p = project(1, &[2]);
    assert!(matches!(svc.create_task(create_schema("ab"), oid(100), oid(1), Some(p.clone()), 0), Err(AppError::ValidationError(_))));
    assert!(matches!(svc.create_task(create_schema("Tarea"), oid(100), oid(1), None, 0), Err(AppError::NotFound(_))));
    assert!(matches!(
        svc.create_task(create_schema("Tarea maliciosa"), oid(100), oid(9), Some(p.clone()), 0),
        Err(AppError::Unauthorized(_))
    ));
    let mut s = create_schema("Tarea");
    s.assignee_id = Some("not-an-id".to_string());
    assert!(matches!(svc.create_task(s, oid(100), oid(1), Some(p.clone()), 0), Err(AppError::ValidationError(_))));
    let mut s = create_schema("Tarea");
    s.assignee_id = Some("030303030303030303030303".to_string());
    assert_eq!(svc.create_task(s, oid(100), oid(1), Some(p), 0).unwrap().assignee_id, Some(oid(3)));
    let again = stored_task(&mut svc, None);
    assert!(matches!(svc.task_created(again, None), Err(AppError::InternalServerError)));
}

#[test]
fn due_date_without_end_is_refused() {
    let mut svc = service();
    let p = project(1, &[]);
    let mut s = create_schema("Tarea");
    s.has_due_date = Some(true);
    assert!(matches!(svc.create_task(s, oid(100), oid(1), Some(p.clone()), 0), Err(AppError::ValidationError(_))));
    let mut s = create_schema("Tarea");
    s.end_date = Some(5);
    assert!(matches!(svc.create_task(s, oid(100), oid(1), Some(p.clone()), 0), Err(AppError::ValidationError(_))));
    let mut s = create_schema("Tarea");
    s.has_due_date = Some(true);
    s.start_date = Some(5);
    s.end_date = Some(5);
    assert!(matches!(svc.create_task(s, oid(100), oid(1), Some(p.clone()), 0), Err(AppError::ValidationError(_))));
    let mut s = create_schema("Tarea");
    s.has_due_date = Some(true);
    s.start_date = Some(4);
    s.end_date = Some(5);
    let t = svc.create_task(s, oid(100), oid(1), Some(p.clone()), 0).unwrap();
    assert!(t.has_valid_dates());

    let update = UpdateTaskSchema { end_date: Some(None), ..Default::default() };
    assert!(matches!(svc.update_task(oid(1), update, Some(t.clone()), Some(p.clone()), 1), Err(AppError::ValidationError(_))));
    let cur = stored_task(&mut svc, None);
    let update = UpdateTaskSchema { has_due_date: Some(true), ..Default::default() };
    assert!(matches!(svc.update_task(oid(1), update, Some(cur), Some(p), 1), Err(AppError::ValidationError(_))));
}

#[test]
fn update_merges_present_fields_and_reports_changes() {
    let mut svc = service();
    let cur = stored_task(&mut svc, Some("030303030303030303030303"));
    let update = UpdateTaskSchema {
        title: Some("Titulo actualizado".to_string()),
        status: Some(TaskStatus::InProgress),
        assignee_id: Some(None),
        ..Default::default()
    };
    let u = svc.update_task(oid(2), update, Some(cur.clone()), Some(project(1, &[2, 3])), 99).unwrap();
    assert_eq!(u.task.title, "Titulo actualizado");
    assert_eq!(u.task.status, TaskStatus::InProgress);
    assert_eq!(u.task.priority, cur.priority);
    assert_eq!(u.task.assignee_id, None);
    assert_eq!(u.task.updated_at, 99);
    assert_eq!(u.task.created_at, cur.created_at);
    let changes = u.changes.unwrap();
    assert!(changes.status_changed);
    assert_eq!(changes.previous_status, Some(TaskStatus::ToDo));
    assert!(changes.updated_fields.title);
    assert!(!changes.updated_fields.priority);
    assert!(changes.updated_fields.assignee_id);

    let same = svc.update_task(oid(2), UpdateTaskSchema::default(), Some(cur.clone()), Some(project(1, &[2])), 99).unwrap();
    assert!(same.changes.is_none());
    assert_eq!(same.task.updated_at, cur.updated_at);
}

#[test]
fn update_refusals() {
    let mut svc = service();
    let cur = stored_task(&mut svc, None);
    let p = project(1, &[2]);
    let short = UpdateTaskSchema { title: Some("ab".to_string()), ..Default::default() };
    assert!(matches!(svc.update_task(oid(1), short, Some(cur.clone()), Some(p.clone()), 0), Err(AppError::ValidationError(_))));
    assert!(matches!(svc.update_task(oid(1), UpdateTaskSchema::default(), None, Some(p.clone()), 0), Err(AppError::NotFound(_))));
    let t = UpdateTaskSchema { title: Some("Nuevo".to_string()), ..Default::default() };
    assert!(matches!(svc.update_task(oid(9), t, Some(cur.clone()), Some(p.clone()), 0), Err(AppError::Unauthorized(_))));
    let bad = UpdateTaskSchema { assignee_id: Some(Some("zz".to_string())), ..Default::default() };
    assert!(matches!(svc.update_task(oid(1), bad, Some(cur), Some(p), 0), Err(AppError::ValidationError(_))));
}

#[test]
fn plain_member_can_update_but_not_delete() {
    let mut svc = service();
    let cur = stored_task(&mut svc, Some("030303030303030303030303"));
    let p = project(1, &[2, 3]);
    let update = UpdateTaskSchema { title: Some("Tarea actualizada por miembro".to_string()), ..Default::default() };
    assert!(svc.update_task(oid(2), update, Some(cur.clone()), Some(p.clone()), 5).is_ok());
    assert!(matches!(svc.delete_task(oid(2), Some(cur.clone()), Some(p.clone())), Err(AppError::Unauthorized(_))));
    assert!(svc.delete_task(oid(3), Some(cur.clone()), Some(p.clone())).is_ok());
    assert!(svc.delete_task(oid(1), Some(cur.clone()), Some(p.clone())).is_ok());
    assert!(matches!(svc.delete_task(oid(1), None, Some(p)), Err(AppError::NotFound(_))));
    assert!(matches!(svc.delete_task(oid(1), Some(cur), None), Err(AppError::NotFound(_))));
}

#[test]
fn reads_require_access() {
    let mut svc = service();
    let t1 = stored_task(&mut svc, None);
    let mut other = t1.clone();
    other.project_id = oid(101);
    let p = project(1, &[2]);
    let tasks = svc.get_task_for_project(oid(100), oid(2), Some(p.clone()), vec![t1.clone(), other, t1.clone()]).unwrap();
    assert_eq!(tasks.len(), 2);
    assert!(matches!(svc.get_task_for_project(oid(100), oid(9), Some(p.clone()), vec![]), Err(AppError::Unauthorized(_))));
    assert!(matches!(svc.get_task_for_project(oid(100), oid(1), None, vec![]), Err(AppError::NotFound(_))));
    assert!(svc.get_task_by_id(oid(2), Some(t1.clone()), Some(p.clone())).is_ok());
    assert!(matches!(svc.get_task_by_id(oid(9), Some(t1), Some(p.clone())), Err(AppError::Unauthorized(_))));
    assert!(matches!(svc.get_task_by_id(oid(2), None, Some(p)), Err(AppError::NotFound(_))));
}

#[test]
fn events_reach_exactly_the_sessions_subscribed_before() {
    let hub = NotificationHub::new(64);
    let mut svc = TaskService::new(hub.share());
    let mut early_a = hub.subscribe();
    let mut early_b = hub.subscribe();
    let first = stored_task(&mut svc, None);
    let mut late = hub.subscribe();
    svc.task_deleted(oid(50), oid(100), 1).unwrap();

    for rx in [&mut early_a, &mut early_b] {
        match rx.try_recv().unwrap() {
            TaskEvent::Created { task } => assert_eq!(task.id, first.id),
            other => panic!("unexpected {:?}", other),
        }
        match rx.try_recv().unwrap() {
            TaskEvent::Deleted { task_id, project_id } => {
                assert_eq!(task_id, oid(50));
                assert_eq!(project_id, oid(100));
            }
            other => panic!("unexpected {:?}", other),
        }
        assert!(rx.try_recv().is_err());
    }
    match late.try_recv().unwrap() {
        TaskEvent::Deleted { .. } => {}
        other => panic!("unexpected {:?}", other),
    }
    assert!(late.try_recv().is_err());
}

#[test]
fn publishing_without_subscribers_does_not_fail() {
    let mut svc = service();
    let t = stored_task(&mut svc, None);
    assert_eq!(t.id, Some(oid(50)));
    assert!(matches!(svc.task_deleted(oid(50), oid(100), 0), Err(AppError::NotFound(_))));
    assert!(svc.task_deleted(oid(50), oid(100), 1).is_ok());
    assert_eq!(svc.hub.publish(TaskEvent::Deleted { task_id: oid(1), project_id: oid(2) }), 0);
}

#[test]
fn event_names() {
    assert_eq!(TaskEvent::Deleted { task_id: oid(1), project_id: oid(2) }.event_type(), "TASK_DELETED");
}
