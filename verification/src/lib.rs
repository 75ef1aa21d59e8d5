//! Headless model of a request workbench: the editor state of an API client,
//! its request tree and variable scopes, the object-details provider of a SQL
//! editor, and the rules by which saved connections are opened.

pub mod appearance;
pub mod collections;
pub mod commit;
pub mod editing;
pub mod editor_panel;
pub mod environment_panel;
pub mod environments;
pub mod export;
pub mod folders;
pub mod headers;
pub mod home;
pub mod http;
pub mod ids;
pub mod labels;
pub mod laws;
pub mod lookup;
pub mod measures;
pub mod navigation;
pub mod request_store;
pub mod response_panel;
pub mod scripting;
pub mod sections;
pub mod sidebar;
pub mod sql_definition;
pub mod tabs;
pub mod tcp_panel;
pub mod text;
pub mod tree;
pub mod variables;
pub mod view_state;
pub mod widgets;
pub mod workbench;
