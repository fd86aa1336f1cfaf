use vstd::prelude::*;

pub mod animation;
pub mod arith;
pub mod cli;
pub mod cli_args;
pub mod command;
pub mod components;
pub mod control_panel;
pub mod domain;
pub mod error;
pub mod events;
pub mod footer;
pub mod help;
pub mod intent_view;
pub mod keys;
pub mod labels;
pub mod names;
pub mod order;
pub mod output;
pub mod paths;
pub mod repo_batch;
pub mod repo_catalog;
pub mod repo_index;
pub mod repo_jobs;
pub mod repo_load;
pub mod repo_loader;
pub mod repo_picker;
pub mod repo_rows;
pub mod repo_workspace;
pub mod seqs;
pub mod shell;
pub mod sorting;
pub mod storage;
pub mod text;
pub mod tui_keys;
pub mod tui_loop;
pub mod tui_state;
pub mod workspace_dialog;

pub use storage::WorkStore;
