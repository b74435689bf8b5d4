use jira_clone_backend::comment_model::{Comment, CommentData, CreateCommentSchema, UpdateCommentSchema};
use jira_clone_backend::comment_service::CommentService;
use jira_clone_backend::errors::AppError;
use jira_clone_backend::ids::Oid;
use jira_clone_backend::project_models::Project;
use jira_clone_backend::task_model::{Task, TaskPriority, TaskStatus};
use jira_clone_backend::user_model::User;

fn oid(n: u8) -> Oid {
    Oid { bytes: [n; 12] }
}

fn project() -> Project {
    Project {
        id: Some(oid(100)),
        name: "Comentarios".to_string(),
        project_key: "COMM".to_string(),
        description: None,
        owner_id: oid(1),
        members: vec![oid(2)],
        created_at: 0,
        updated_at: 0,
    }
}

fn task() -> Task {
    Task {
        id: Some(oid(50)),
        project_id: oid(100),
        title: "Tarea".to_string(),
        description: None,
        status: TaskStatus::ToDo,
        priority: TaskPriority::Medium,
        assignee_id: None,
        reporter_id: oid(1),
        created_at: 0,
        updated_at: 0,
        start_date: None,
        end_date: None,
        has_due_date: false,
    }
}

fn author(n: u8) -> User {
    User {
        id: Some(oid(n)),
        username: format!("author{}", n),
        email: format!("author{}@test.com", n),
        password_hash: "secret".to_string(),
        first_name: Some("F".to_string()),
        last_name: None,
        bio: None,
        role: None,
        avatar: None,
        created_at: 0,
        updated_at: 0,
    }
}

fn content(s: &str) -> CreateCommentSchema {
    CreateCommentSchema { content: s.to_string() }
}

#[test]
fn participants_comment_strangers_do_not() {
    let svc = CommentService::new();
    let c = svc.create_comment(oid(50), oid(1), content("Soy el dueño"), Some(task()), Some(project()), 7).unwrap();
    assert_eq!(c.user_id, oid(1));
    assert_eq!(c.created_at, 7);
    assert!(svc.create_comment(oid(50), oid(2), content("Soy un miembro"), Some(task()), Some(project()), 7).is_ok());
    assert!(matches!(
        svc.create_comment(oid(50), oid(3), content("Soy un extraño"), Some(task()), Some(project()), 7),
        Err(AppError::Unauthorized(_))
    ));
    assert!(matches!(
        svc.create_comment(oid(50), oid(1), content(""), Some(task()), Some(project()), 7),
        Err(AppError::ValidationError(_))
    ));
    assert!(matches!(
        svc.create_comment(oid(50), oid(1), content("x"), None, Some(project()), 7),
        Err(AppError::NotFound(_))
    ));
}

#[test]
fn only_the_author_edits_or_deletes() {
    let svc = CommentService::new();
    let mut c = svc.create_comment(oid(50), oid(1), content("Comentario original"), Some(task()), Some(project()), 1).unwrap();
    c.id = Some(oid(60));
    let edit = UpdateCommentSchema { content: "Contenido actualizado".to_string() };
    assert!(matches!(svc.update_comment(oid(2), edit, Some(c.clone()), 2), Err(AppError::Unauthorized(_))));
    assert!(matches!(svc.delete_comment(oid(2), Some(c.clone())), Err(AppError::Unauthorized(_))));
    let edit = UpdateCommentSchema { content: "Contenido actualizado".to_string() };
    let updated = svc.update_comment(oid(1), edit, Some(c.clone()), 2).unwrap();
    assert_eq!(updated.content, "Contenido actualizado");
    assert_eq!(updated.updated_at, 2);
    assert_eq!(updated.created_at, 1);
    assert!(svc.delete_comment(oid(1), Some(c)).is_ok());
    assert!(matches!(svc.delete_comment(oid(1), None), Err(AppError::NotFound(_))));
}

#[test]
fn comments_are_read_with_their_author() {
    let svc = CommentService::new();
    let c = Comment {
        id: Some(oid(60)),
        task_id: oid(50),
        user_id: oid(2),
        content: "Hola".to_string(),
        created_at: 3,
        updated_at: 4,
    };
    let read = svc.get_comments_for_task(oid(1), Some(task()), Some(project()), vec![(c.clone(), author(2))]).unwrap();
    assert_eq!(read.len(), 1);
    assert_eq!(read[0].id, "3c3c3c3c3c3c3c3c3c3c3c3c");
    assert_eq!(read[0].task_id, "323232323232323232323232");
    assert_eq!(read[0].author.username, "author2");
    assert_eq!(read[0].author.email, "author2@test.com");
    assert!(read[0].author.first_name.is_none());
    assert!(matches!(
        svc.get_comments_for_task(oid(3), Some(task()), Some(project()), vec![]),
        Err(AppError::Unauthorized(_))
    ));
    let d = CommentData::from_parts(c, author(2));
    assert_eq!(d.content, "Hola");
}

#[test]
fn comments_are_read_oldest_first() {
    let svc = CommentService::new();
    let at = |id: u8, t: i64, text: &str| Comment {
        id: Some(oid(id)),
        task_id: oid(50),
        user_id: oid(1),
        content: text.to_string(),
        created_at: t,
        updated_at: t,
    };
    let read = svc
        .get_comments_for_task(
            oid(2),
            Some(task()),
            Some(project()),
            vec![
                (at(61, 30, "tercero"), author(1)),
                (at(62, 10, "primero"), author(1)),
                (at(63, 20, "segundo"), author(1)),
                (at(64, 10, "empate"), author(1)),
            ],
        )
        .unwrap();
    let texts: Vec<&str> = read.iter().map(|c| c.content.as_str()).collect();
    assert_eq!(texts, vec!["primero", "empate", "segundo", "tercero"]);
}
