use jira_clone_backend::errors::AppError;
use jira_clone_backend::ids::Oid;
use jira_clone_backend::image_model::{Image, ImageResponse, ImageUploadQuery, UpdateImageSchema};
use jira_clone_backend::image_service::{file_extension, starts_with, validate_upload, ImageService};

fn oid(n: u8) -> Oid {
    Oid { bytes: [n; 12] }
}

fn upload(svc: &ImageService, name: &str, ct: Option<&str>, custom: Option<&str>, folder: Option<&str>) -> Result<Image, AppError> {
    svc.upload_image(
        1024,
        Some(name.to_string()),
        ct.map(|c| c.to_string()),
        oid(1),
        Some(oid(100)),
        None,
        custom.map(|c| c.to_string()),
        folder.map(|f| f.to_string()),
        5,
    )
}

#[test]
fn extensions_follow_the_last_dot() {
    assert_eq!(file_extension("photo.final.png"), "png");
    assert_eq!(file_extension("noext"), "noext");
    assert_eq!(file_extension("trailing."), "");
    assert!(starts_with("image/png", "image/"));
    assert!(!starts_with("text/plain", "image/"));
}

#[test]
fn uploads_are_limited_to_images_of_ten_mebibytes() {
    assert!(validate_upload(10 * 1024 * 1024, "image/png").is_ok());
    assert!(matches!(validate_upload(10 * 1024 * 1024 + 1, "image/png"), Err(AppError::ValidationError(_))));
    assert!(matches!(validate_upload(10, "text/plain"), Err(AppError::ValidationError(_))));
    let svc = ImageService::new("bucket".to_string());
    assert!(matches!(upload(&svc, "test.txt", Some("text/plain"), None, None), Err(AppError::ValidationError(_))));
    assert!(matches!(upload(&svc, "notes.txt", None, None, None), Err(AppError::ValidationError(_))));
    assert!(matches!(
        svc.upload_image(1, None, Some("image/png".to_string()), oid(1), None, None, None, None, 0),
        Err(AppError::ValidationError(_))
    ));
}

#[test]
fn uploads_are_named_and_placed() {
    let svc = ImageService::new("bucket".to_string());
    let img = upload(&svc, "me.png", Some("image/png"), Some("avatar-1"), Some("profiles")).unwrap();
    assert_eq!(img.filename, "avatar-1.png");
    assert_eq!(img.gcs_object_name, "profiles/avatar-1.png");
    assert_eq!(img.gcs_url, "https://storage.googleapis.com/bucket/profiles/avatar-1.png");
    assert_eq!(img.original_filename, "me.png");
    assert_eq!(img.size, 1024);
    assert_eq!(img.uploaded_by, oid(1));
    assert_eq!(img.project_id, Some(oid(100)));

    let img = upload(&svc, "me.jpg", None, None, None).unwrap();
    assert_eq!(img.content_type, "image/jpeg");
    assert_eq!(img.filename.len(), 36 + 4);
    assert!(img.filename.ends_with(".jpg"));
    assert!(img.gcs_object_name.starts_with("avatar/"));
}

#[test]
fn upload_query_ids_are_parsed() {
    let q = ImageUploadQuery { project_id: Some("646464646464646464646464".to_string()), task_id: None };
    assert_eq!(ImageService::parse_upload_query(q).unwrap(), (Some(oid(100)), None));
    let q = ImageUploadQuery { project_id: None, task_id: Some("bad".to_string()) };
    assert!(matches!(ImageService::parse_upload_query(q), Err(AppError::ValidationError(_))));
}

#[test]
fn only_the_uploader_changes_an_image() {
    let svc = ImageService::new("bucket".to_string());
    let mut img = upload(&svc, "me.png", Some("image/png"), Some("a"), None).unwrap();
    img.id = Some(oid(70));
    let change = UpdateImageSchema {
        filename: Some("renamed.png".to_string()),
        project_id: Some(String::new()),
        task_id: Some("323232323232323232323232".to_string()),
    };
    assert!(matches!(svc.update_image(oid(2), UpdateImageSchema::default(), Some(img.clone()), 9), Err(AppError::Unauthorized(_))));
    let q = svc.update_image(oid(1), change, Some(img.clone()), 9).unwrap();
    assert_eq!(q.filename, "renamed.png");
    assert_eq!(q.project_id, None);
    assert_eq!(q.task_id, Some(oid(50)));
    assert_eq!(q.updated_at, 9);
    let bad = UpdateImageSchema { filename: None, project_id: Some("xyz".to_string()), task_id: None };
    assert!(matches!(svc.update_image(oid(1), bad, Some(img.clone()), 9), Err(AppError::ValidationError(_))));
    assert!(matches!(svc.delete_image(oid(2), Some(img.clone())), Err(AppError::Unauthorized(_))));
    assert!(svc.delete_image(oid(1), Some(img.clone())).is_ok());
    assert!(matches!(svc.get_image(None), Err(AppError::NotFound(_))));
    let shown = svc.get_image(Some(img)).unwrap();
    assert_eq!(shown.id, "464646464646464646464646");
}

#[test]
fn listings_filter_without_membership_checks() {
    let svc = ImageService::new("bucket".to_string());
    let mut a = upload(&svc, "a.png", Some("image/png"), Some("a"), None).unwrap();
    a.id = Some(oid(71));
    let mut b = a.clone();
    b.id = Some(oid(72));
    b.project_id = None;
    b.task_id = Some(oid(50));
    b.uploaded_by = oid(2);
    let all = vec![a, b];
    let by_project: Vec<ImageResponse> = svc.list_images_by_project(oid(100), all.clone());
    assert_eq!(by_project.len(), 1);
    assert_eq!(by_project[0].id, "474747474747474747474747");
    assert_eq!(svc.list_images_by_task(oid(50), all.clone()).len(), 1);
    assert_eq!(svc.list_user_images(oid(2), all.clone()).len(), 1);
    assert_eq!(svc.list_user_images(oid(3), all).len(), 0);
}
