//! Core of a terminal kanban controller. Sessions of work sit on a board
//! and are bound to terminal sessions that run an assistant.
//!
//! - `app` and `model`: the controller's state and its input-mode state
//!   machine, as executable code and as a transition system over plain
//!   values; `action`, `key` and `mode` are what goes in and out.
//! - `store` and `db`: the record store on SQLite and its records; `sync`
//!   keeps the controller and the store in step.
//! - `tmux`, `git`, `ai`, `card` and `text`: how terminal sessions, branches
//!   and requests to the assistant are named, written and read.

pub mod action;
pub mod ai;
pub mod app;
pub mod card;
pub mod db;
pub mod git;
pub mod key;
pub mod mode;
pub mod model;
pub mod store;
pub mod sync;
pub mod text;
pub mod tmux;
