use jira_clone_backend::auth_service::AuthService;
use jira_clone_backend::errors::AppError;
use jira_clone_backend::ids::Oid;
use jira_clone_backend::notification::{NotificationHub, TaskEvent};
use jira_clone_backend::project_models::{AddMemberSchema, CreateProjectSchema, Project};
use jira_clone_backend::project_service::{key_in_use, ProjectService};
use jira_clone_backend::task_model::{CreateTaskSchema, TaskPriority, TaskStatus, UpdateTaskSchema};
use jira_clone_backend::task_service::TaskService;
use jira_clone_backend::user_model::{RegisterUserSchema, User};

fn oid(n: u8) -> Oid {
    Oid { bytes: [n; 12] }
}

fn register(auth: &AuthService, name: &str, email: &str, id: u8) -> User {
    let schema = RegisterUserSchema {
        username: name.to_string(),
        email: email.to_string(),
        password: "password123".to_string(),
        first_name: "First".to_string(),
        last_name: "Last".to_string(),
        bio: None,
        role: None,
        avatar: None,
    };
    let mut u = auth.register_user(schema, false, 0).unwrap();
    u.id = Some(oid(id));
    u
}

fn task_schema(title: &str) -> CreateTaskSchema {
    CreateTaskSchema {
        title: title.to_string(),
        description: None,
        status: None,
        priority: None,
        assignee_id: None,
        start_date: None,
        end_date: None,
        has_due_date: None,
        created_at: None,
        updated_at: None,
    }
}

fn find(projects: &[Project], id: Oid) -> Option<Project> {
    projects.iter().find(|p| p.id == Some(id)).cloned()
}

#[test]
fn member_joins_creates_task_and_owner_completes_it() {
    let auth = AuthService::new();
    let projects_svc = ProjectService::new();
    let hub = NotificationHub::new(32);
    let mut tasks_svc = TaskService::new(hub.share());

    let a = register(&auth, "user_a", "a@test.com", 1);
    let b = register(&auth, "user_b", "b@test.com", 2);
    let a_id = a.id.unwrap();
    let b_id = b.id.unwrap();

    let mut stored: Vec<Project> = Vec::new();
    let schema = CreateProjectSchema { name: "Demo project".to_string(), key: "DEMO".to_string(), description: None };
    let taken = key_in_use(&stored, "DEMO");
    let mut demo = projects_svc.create_project(schema, a_id, taken, 1).unwrap();
    let demo_id = oid(100);
    demo.id = Some(demo_id);
    stored.push(demo);

    assert!(projects_svc.get_projects_for_user(b_id, stored.clone()).is_empty());
    assert!(matches!(
        tasks_svc.create_task(task_schema("Tarea del miembro"), demo_id, b_id, find(&stored, demo_id), 2),
        Err(AppError::Unauthorized(_))
    ));

    let added = projects_svc
        .add_member(a_id, AddMemberSchema { email: b.email.clone() }, find(&stored, demo_id), Some(b.clone()))
        .unwrap();
    stored[0] = added;
    assert_eq!(projects_svc.get_projects_for_user(b_id, stored.clone()).len(), 1);

    let task = tasks_svc
        .create_task(task_schema("Tarea del miembro"), demo_id, b_id, find(&stored, demo_id), 3)
        .unwrap();
    assert_eq!(task.status, TaskStatus::ToDo);
    assert_eq!(task.priority, TaskPriority::Medium);
    let task = tasks_svc.task_created(task, Some(oid(50))).unwrap();

    let mut subscriber = hub.subscribe();
    let update = UpdateTaskSchema { status: Some(TaskStatus::Done), ..Default::default() };
    let decided = tasks_svc.update_task(a_id, update, Some(task), find(&stored, demo_id), 4).unwrap();
    let updated = tasks_svc.task_updated(decided.task, decided.changes.unwrap());
    assert_eq!(updated.status, TaskStatus::Done);

    match subscriber.try_recv().unwrap() {
        TaskEvent::Updated { task, changes } => {
            assert_eq!(task.status, TaskStatus::Done);
            assert!(changes.status_changed);
            assert_eq!(changes.previous_status, Some(TaskStatus::ToDo));
        }
        other => panic!("unexpected {:?}", other),
    }
}
