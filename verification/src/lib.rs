//! The verified core of a cloud dashboard: reconciliation of servers and
//! snapshots into applications, the fetch bookkeeping of the dashboard's
//! state, the protection of the API token at rest and the age labels of
//! fetched data.

pub mod app;
pub mod application;
pub mod decimal;
pub mod image_window;
pub mod models;
pub mod reconcile;
pub mod remote;
pub mod secret;
pub mod timestamp;

pub use crate::app::ServerCruncherApp;
