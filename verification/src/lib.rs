//! Verified core of the Codex desktop shell: the state the UI owns, the
//! reducer that moves it, and the pure rules behind the views
//! (attachments, palette, diff classification, slash commands, transcript
//! rows, menus, shortcuts, previews).

pub mod message;
pub mod text;
pub mod paths;
pub mod sets;
pub mod drafts;
pub mod attachments;
pub mod state;
pub mod diff_view;
pub mod commands;
pub mod chat;
pub mod command_palette;
pub mod icons;
pub mod plan_view;
pub mod preview;
pub mod board;
pub mod menu;
pub mod keys;
pub mod requests;
pub mod status;
pub mod shell;
pub mod shell_panels;
pub mod shell_files;
pub mod shell_turns;
pub mod shell_models;
pub mod shell_git;
pub mod shell_quest;
pub mod shell_sessions;
pub mod routing;
pub mod laws;
