//! Verified editor state for the KufEditor desktop application: numeric
//! field editing, notice arbitration, settings persistence scheduling, and
//! the presentation state machines of the patch, mod and save-catalog panes.

pub mod discovery_flow;
pub mod game;
pub mod integer_text;
pub mod mod_actions;
pub mod mod_flow;
pub mod mod_requests;
pub mod mod_status;
pub mod notices;
pub mod patch_messages;
pub mod path_text;
pub mod patch_status;
pub mod save_catalog_status;
pub mod save_list;
pub mod save_selectors;
pub mod number_edit;
pub mod settings;
pub mod work_notices;
