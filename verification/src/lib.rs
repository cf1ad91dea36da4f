//! Verified core of the VolSync web UI: the decisions and data shaping behind
//! the backup, restore and snapshot workflows.
pub mod backup;
pub mod backup_all;
pub mod client;
pub mod config;
pub mod error;
pub mod inventory;
pub mod json;
pub mod models;
pub mod paths;
pub mod tasks;
pub mod payloads;
pub mod rbac;
pub mod request;
pub mod restore;
pub mod snapshots;
pub mod statics;
pub mod stamps;
pub mod text;
pub mod workflow;
