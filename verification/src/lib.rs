//! Model of the cmux terminal multiplexer: layout trees of panes, workspaces
//! of terminal panels with their reported metadata, the reducer for terminal
//! runtime actions, the v2 socket protocol, the sidebar's summaries, saved
//! sessions and their restoration, and the command-line client's requests.

pub mod cli;
pub mod commands;
pub mod ghostty_actions;
pub mod ids;
pub mod layout;
pub mod ordering;
pub mod pane_view;
pub mod panel;
pub mod protocol;
pub mod session;
pub mod shortcuts;
pub mod sidebar;
pub mod startup;
pub mod tab_manager;
pub mod text;
pub mod ui_events;
pub mod workspace;
pub mod workspace_ops;
