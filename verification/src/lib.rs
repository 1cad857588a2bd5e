//! A task journal kept as one JSON document.
//!
//! - [`task`]: what a task holds, how one is made and how it is shown.
//! - [`codec`]: which JSON documents are journals, and the document that a
//!   run of tasks is written as. A document so written is read back as the
//!   same tasks.
//! - [`journal`]: the store. `load` and `persist` go between the bytes of
//!   the journal file and its tasks; `Task::add`, `Task::remove`,
//!   `Task::list` and `Task::clear` take the file's bytes and return the
//!   bytes it is to hold next, or the lines to show.
//! - [`cli`]: the command surface, and what comes of each action.
//! - [`json`] and [`clock`]: the calls into `serde_json` and `chrono`, each
//!   with what it is taken to do. These are the parts that are believed;
//!   everything else is proved from them.
//!
//! No function here reads or writes a file, and none panics on any input;
//! [`clock`] says where `chrono` itself gives up on the machine it runs on.

pub mod cli;
pub mod clock;
pub mod codec;
pub mod journal;
pub mod json;
pub mod task;
