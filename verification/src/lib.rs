//! A small document store for a task list.
//!
//! The store keeps three collections, each as one JSON document: the active
//! tasks, the trash, and the categories. It never touches a file itself: its
//! functions go from the contents of the files to records, and from records
//! to the new contents.
//!
//! - [`task`] and [`category`]: the records and their JSON shape.
//! - [`json`]: the JSON document tree; [`json_text`]: reading and writing
//!   its text with `serde_json`.
//! - [`record`] and [`codec`]: a collection as JSON text and back.
//! - [`lifecycle`]: trashing, restoring and deleting tasks.
//! - [`store`]: the commands.
//! - [`error`]: the errors and their messages.

pub mod category;
pub mod codec;
pub mod error;
pub mod json;
pub mod json_text;
pub mod lifecycle;
pub mod record;
pub mod store;
pub mod task;
