//! Annotates log records read from container log files with metadata of
//! the pod and container that produced them.

pub mod annotator;
pub mod fields;
pub mod file_info;
pub mod path;
pub mod pod;
pub mod record;
pub mod theorems;
