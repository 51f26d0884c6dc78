//! Menu logic for a task list that is kept by a command-line task store and
//! shown through a popup picker.
//!
//! The library decides and formats; it neither shows a menu nor runs a
//! command. A program drives it: it begins a session, does what the session
//! asks for, and tells the session what came of it, until the session asks
//! for nothing more.
//!
//! - `session`: the course of a session, step by step.
//! - `dialog`: the requests of a session, the replies to them, and the
//!   stages between.
//! - `action`, `menu`: the main menu and the entries of menus.
//! - `task`, `label`: tasks as the menus see them, and their lines.
//! - `links`: the links among the notes of a task.
//! - `command`, `config`: the arguments of task commands, and what their
//!   output means.
//! - `order`: putting entries in order.
//! - `text`: words, lines and the like.
//! - `error`: failures and the words for them.

pub mod action;
pub mod command;
pub mod config;
pub mod dialog;
pub mod error;
pub mod label;
pub mod links;
pub mod menu;
pub mod order;
pub mod session;
pub mod task;
pub mod text;
