//! Authorization, resource rules and task-change notifications of a
//! project/task tracker, verified with Verus.

pub mod auth_service;
pub mod comment_model;
pub mod comment_service;
pub mod date_range_service;
pub mod errors;
pub mod ids;
pub mod image_model;
pub mod image_service;
pub mod lemmas;
pub mod notification;
pub mod permission_service;
pub mod project_models;
pub mod project_service;
pub mod session;
pub mod state;
pub mod task_model;
pub mod task_service;
pub mod user_model;
pub mod validation;
