//! Data model and rules of a terminal journal of projects, subprojects and tasks.
pub mod data;
pub mod error;
pub mod list;
pub mod project;
pub mod prompt;
pub mod journal;
pub mod events;
pub mod appstate;
pub mod widgets;
pub mod crypto;
pub mod layout;
pub mod project_view;
