//! A personal task list: an ordered collection of tasks that can be added to,
//! listed, completed and removed, with every operation stated over a
//! mathematical model of the collection and proved against it.

pub mod command;
pub mod error;
pub mod laws;
pub mod listing;
pub mod location;
pub mod model;
pub mod store;
pub mod task;
pub mod text;
