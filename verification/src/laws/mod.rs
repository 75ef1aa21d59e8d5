//! What the workbench promises of its operations: each law relates what goes in to what
//! comes out, for every input.

pub mod answers;
pub mod arrivals;
pub mod connecting;
pub mod editor;
pub mod events;
pub mod follow_up;
pub mod forms;
pub mod items;
pub mod links;
pub mod numbers;
pub mod opening;
pub mod pointing;
pub mod scopes;
pub mod screen;
pub mod search;
pub mod switching;
pub mod tables;
