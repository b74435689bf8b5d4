use jira_clone_backend::errors::AppError;
use jira_clone_backend::ids::Oid;
use jira_clone_backend::permission_service::project_access;
use jira_clone_backend::project_models::{
    AddMemberSchema, CreateProjectSchema, Project, UpdateProjectSchema, UserRole,
};
use jira_clone_backend::project_service::{key_in_use, validate_project_fields, ProjectService};
use jira_clone_backend::user_model::User;

fn oid(n: u8) -> Oid {
    Oid { bytes: [n; 12] }
}

fn schema(name: &str, key: &str) -> CreateProjectSchema {
    CreateProjectSchema { name: name.to_string(), key: key.to_string(), description: None }
}

fn user(n: u8, email: &str) -> User {
    User {
        id: Some(oid(n)),
        username: format!("user{}", n),
        email: email.to_string(),
        password_hash: String::new(),
        first_name: None,
        last_name: None,
        bio: None,
        role: None,
        avatar: None,
        created_at: 0,
        updated_at: 0,
    }
}

fn stored_project(owner: u8, members: &[u8], key: &str) -> Project {
    let mut p = ProjectService::new().create_project(schema("Proyecto", key), oid(owner), false, 5).unwrap();
    p.id = Some(oid(200));
    p.members = members.iter().map(|m| oid(*m)).collect();
    p
}

#[test]
fn creates_a_project_owned_by_its_creator() {
    let p = ProjectService::new()
        .create_project(schema("Test Project", "TEST1"), oid(1), false, 42)
        .unwrap();
    assert!(p.id.is_none());
    assert_eq!(p.name, "Test Project");
    assert_eq!(p.project_key, "TEST1");
    assert_eq!(p.owner_id, oid(1));
    assert!(p.members.is_empty());
    assert_eq!(p.created_at, 42);
    assert_eq!(p.updated_at, 42);
}

#[test]
fn project_fields_are_validated() {
    let svc = ProjectService::new();
    for (name, key) in [("ab", "KEY"), ("Name", "K"), ("Name", "ABCDEFGHIJK"), ("Name", "abc"), ("Name", "AB-1")] {
        assert!(
            matches!(svc.create_project(schema(name, key), oid(1), false, 0), Err(AppError::ValidationError(_))),
            "{} {}",
            name,
            key
        );
    }
    assert!(svc.create_project(schema("Name", "AB"), oid(1), false, 0).is_ok());
    assert!(svc.create_project(schema("Name", "ABCDEFGHIJ"), oid(1), false, 0).is_ok());
}

#[test]
fn field_checks_take_the_pattern_result_as_given() {
    assert!(validate_project_fields("Name", "KEY", true).is_ok());
    assert!(matches!(validate_project_fields("Name", "KEY", false), Err(AppError::ValidationError(_))));
    assert!(matches!(validate_project_fields("No", "KEY", true), Err(AppError::ValidationError(_))));
}

#[test]
fn duplicate_key_is_refused_and_first_project_kept() {
    let svc = ProjectService::new();
    let mut stored: Vec<Project> = Vec::new();
    let taken = key_in_use(&stored, "ABC12");
    let first = svc.create_project(schema("First", "ABC12"), oid(1), taken, 1).unwrap();
    stored.push(first);
    let taken = key_in_use(&stored, "ABC12");
    assert!(taken);
    let second = svc.create_project(schema("Second", "ABC12"), oid(2), taken, 2);
    assert!(matches!(second, Err(AppError::ValidationError(_))));
    assert_eq!(stored.len(), 1);
    assert_eq!(stored[0].name, "First");
    assert_eq!(stored[0].owner_id, oid(1));
    assert!(!key_in_use(&stored, "ABC13"));
}

#[test]
fn membership_add_then_remove() {
    let svc = ProjectService::new();
    let p = stored_project(1, &[], "MEMBERS");
    assert!(!project_access(&p, oid(2)));
    let added = svc
        .add_member(oid(1), AddMemberSchema { email: "b@test.com".to_string() }, Some(p), Some(user(2, "b@test.com")))
        .unwrap();
    assert!(project_access(&added, oid(2)));
    let again = svc
        .add_member(oid(1), AddMemberSchema { email: "b@test.com".to_string() }, Some(added.clone()), Some(user(2, "b@test.com")))
        .unwrap();
    assert_eq!(again.members, vec![oid(2)]);
    let removed = svc.remove_member(oid(1), oid(2), Some(again)).unwrap();
    assert!(!project_access(&removed, oid(2)));
    assert!(matches!(svc.remove_member(oid(1), oid(2), Some(removed)), Err(AppError::NotFound(_))));
}

#[test]
fn membership_changes_are_for_the_owner_only() {
    let svc = ProjectService::new();
    let p = stored_project(1, &[2], "OWN");
    assert!(matches!(
        svc.add_member(oid(2), AddMemberSchema { email: "c@test.com".to_string() }, Some(p.clone()), Some(user(3, "c@test.com"))),
        Err(AppError::Unauthorized(_))
    ));
    assert!(matches!(svc.remove_member(oid(2), oid(2), Some(p.clone())), Err(AppError::Unauthorized(_))));
    assert!(matches!(svc.remove_member(oid(1), oid(1), Some(p.clone())), Err(AppError::ValidationError(_))));
    assert!(matches!(
        svc.add_member(oid(1), AddMemberSchema { email: "not-an-email".to_string() }, Some(p.clone()), None),
        Err(AppError::ValidationError(_))
    ));
    assert!(matches!(
        svc.add_member(oid(1), AddMemberSchema { email: "c@test.com".to_string() }, Some(p.clone()), None),
        Err(AppError::NotFound(_))
    ));
    let same = svc
        .add_member(oid(1), AddMemberSchema { email: "a@test.com".to_string() }, Some(p), Some(user(1, "a@test.com")))
        .unwrap();
    assert_eq!(same.members, vec![oid(2)]);
}

#[test]
fn listing_shows_owned_and_member_projects_with_roles() {
    let svc = ProjectService::new();
    let projects = vec![
        stored_project(1, &[], "PROJ1"),
        stored_project(2, &[1], "PROJ2"),
        stored_project(3, &[2], "PROJ3"),
    ];
    let listed = svc.get_projects_for_user(oid(1), projects.clone());
    assert_eq!(listed.len(), 2);
    assert_eq!(listed[0].project_key, "PROJ1");
    assert_eq!(listed[0].user_role, UserRole::Owner);
    assert_eq!(listed[1].project_key, "PROJ2");
    assert_eq!(listed[1].user_role, UserRole::Member);
    assert!(svc.get_projects_for_user(oid(9), projects).is_empty());
}

#[test]
fn update_and_delete_are_for_the_owner() {
    let svc = ProjectService::new();
    let p = stored_project(1, &[2], "PROJA");
    let patch = UpdateProjectSchema { name: Some("Proyecto Hackeado".to_string()), description: None };
    assert!(matches!(svc.update_project(oid(2), patch, Some(p.clone()), 9), Err(AppError::Unauthorized(_))));
    let patch = UpdateProjectSchema { name: Some("Renamed".to_string()), description: Some("d".to_string()) };
    let q = svc.update_project(oid(1), patch, Some(p.clone()), 9).unwrap();
    assert_eq!(q.name, "Renamed");
    assert_eq!(q.description, Some("d".to_string()));
    assert_eq!(q.updated_at, 9);
    let unchanged = svc.update_project(oid(1), UpdateProjectSchema::default(), Some(p.clone()), 9).unwrap();
    assert_eq!(unchanged.updated_at, p.updated_at);
    let short = UpdateProjectSchema { name: Some("ab".to_string()), description: None };
    assert!(matches!(svc.update_project(oid(1), short, Some(p.clone()), 9), Err(AppError::ValidationError(_))));
    assert!(matches!(svc.delete_project(oid(2), Some(p.clone())), Err(AppError::Unauthorized(_))));
    assert!(svc.delete_project(oid(1), Some(p)).is_ok());
    assert!(matches!(svc.delete_project(oid(1), None), Err(AppError::NotFound(_))));
}

#[test]
fn member_list_holds_members_then_owner() {
    let svc = ProjectService::new();
    let p = stored_project(1, &[2, 3], "TEAM");
    assert_eq!(svc.list_members(oid(3), Some(p.clone())).unwrap(), vec![oid(2), oid(3), oid(1)]);
    assert!(matches!(svc.list_members(oid(4), Some(p)), Err(AppError::Unauthorized(_))));
    let data = svc.members_data(vec![user(2, "b@test.com")]);
    assert_eq!(data[0].email, "b@test.com");
    assert_eq!(data[0].id, "020202020202020202020202");
}
