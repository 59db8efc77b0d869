//! The logic of a Slack command-line client and of its embedded skill bundle manager.
pub mod app_error;
pub mod cli;
pub mod commands;
pub mod config;
pub mod copy;
pub mod discover;
pub mod init;
pub mod json;
pub mod logs;
pub mod metadata;
pub mod resolve;
pub mod skill;
pub mod skill_error;
pub mod slack;
pub mod smith;
pub mod state;
pub mod str_map;
pub mod text;
pub mod validate;
pub mod versions;
