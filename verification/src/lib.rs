//! Orchestration core for an interactive manager of encrypted backup
//! repositories.
//!
//! The crate tracks which repositories exist (`registry`), which one is
//! currently unlocked together with its cached snapshot list (`session`),
//! drives the queue of modal workflows (`dialog`), and turns every incoming
//! event into state updates plus outgoing effects (`dispatcher`).  Calls into
//! the backup engine and all rendering live outside this crate: the core only
//! ever consumes typed events and emits typed effects, so the whole state
//! machine is verified here.

pub mod dialog;
pub mod dispatcher;
pub mod events;
pub mod registry;
pub mod session;
pub mod types;
