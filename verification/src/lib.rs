//! The decisions of the Codex command line tool, apart from its input and output.
//!
//! An executable starts with [`arg0`], which says what its command line asks
//! for; [`dotenv`] and [`path_entry`] prepare its environment. [`app`] is the
//! application on the terminal, with what holds of a whole run of it in
//! [`app_laws`] and of each single step in [`step_laws`].
//! [`conversation_manager`] keeps the conversations with the agent, [`history`]
//! cuts a history back for a fork, and [`agent`] carries events and requests
//! between a conversation and the application.
//!
//! Where a decision depends on the outside world, it is split into steps: the
//! library says what is to be done next, and is told what came of it.

pub mod agent;
pub mod app;
pub mod app_event;
pub mod app_laws;
pub mod arg0;
pub mod chars;
pub mod conversation_manager;
pub mod dotenv;
pub mod history;
pub mod key;
pub mod path_entry;
pub mod protocol;
pub mod step_laws;
pub mod styled;
