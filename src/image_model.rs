//! Image metadata and its payloads. The bytes themselves live in blob storage
//! under `gcs_object_name`.
use vstd::prelude::*;

use crate::ids::Oid;

verus! {

#[derive(Clone, Debug)]
pub struct Image {
    pub id: Option<Oid>,
    pub filename: String,
    pub original_filename: String,
    pub content_type: String,
    pub size: u64,
    pub gcs_url: String,
    pub gcs_bucket: String,
    pub gcs_object_name: String,
    pub uploaded_by: Oid,
    pub project_id: Option<Oid>,
    pub task_id: Option<Oid>,
    pub created_at: i64,
    pub updated_at: i64,
}

#[derive(Debug, Default)]
pub struct ImageUploadQuery {
    pub project_id: Option<String>,
    pub task_id: Option<String>,
}

/// An image as it is shown to clients.
#[derive(Clone, Debug)]
pub struct ImageResponse {
    pub id: String,
    pub filename: String,
    pub original_filename: String,
    pub content_type: String,
    pub size: u64,
    pub url: String,
    pub created_at: i64,
    pub updated_at: i64,
}

/// A change of an image's metadata. For `project_id` and `task_id`, an empty
/// string detaches the image and any other text must name an identifier.
#[derive(Debug, Default)]
pub struct UpdateImageSchema {
    pub filename: Option<String>,
    pub project_id: Option<String>,
    pub task_id: Option<String>,
}

} // verus!
