//! The command surface: which journal file, what to do with it, and what
//! comes of doing it.

use vstd::prelude::*;
use crate::clock::{instant, now_seconds};
use crate::journal::{lengthened, lists, loaded, stored, JournalError};
use crate::task::{optional_text, texts, Task, TaskView};

verus! {

/// The journal file that is used where none is named.
pub const DEFAULT_JOURNAL_FILE: &'static str = "todo.json";

/// A file path of std, carried through and never looked into.
#[verifier::external_type_specification]
#[verifier::external_body]
pub struct ExPathBuf(std::path::PathBuf);

/// One invocation: the journal file, if one was named, and the action.
#[derive(Debug)]
pub struct Cli {
    pub journal_file: Option<std::path::PathBuf>,
    pub action: Action,
}

/// What to do with the journal.
#[derive(Debug)]
pub enum Action {
    /// Append a task under the given name, with the given tags.
    Add { task: String, tags: Vec<String> },
    /// Delete the task at the given position, counted from 1.
    Remove { index: usize },
    /// Show the tasks, or only those that carry the given tag.
    List { tag: Option<String> },
}

/// What is left to do once an action has been worked out.
#[derive(Debug)]
pub enum Outcome {
    /// Replace the journal file's content by these bytes.
    Write(Vec<u8>),
    /// Print these lines.
    Show(Vec<String>),
}

/// Whether `r` is what comes of an action that leaves the given tasks in
/// the journal: the bytes to write, which hold those tasks, or the error
/// that writing them gave.
pub open spec fn writes(tasks: Seq<TaskView>, r: Result<Outcome, JournalError>) -> bool {
    match stored(tasks) {
        Ok(bytes) => r matches Ok(Outcome::Write(out)) && out@ == bytes && loaded(out@) == Ok::<
            Seq<TaskView>,
            JournalError,
        >(tasks),
        Err(error) => r matches Err(e) && e == error,
    }
}

/// Whether `r` is what comes of an action, taken at the clock's reading
/// `now`, on a journal that holds the given tasks. Only adding looks at the
/// clock.
pub open spec fn performs(
    action: Action,
    tasks: Seq<TaskView>,
    now: i64,
    r: Result<Outcome, JournalError>,
) -> bool {
    match action {
        Action::Add { task, tags } => writes(
            lengthened(tasks, task@, Some(texts(tags@)), now),
            r,
        ),
        Action::Remove { index } => if 1 <= index <= tasks.len() {
            writes(tasks.remove(index - 1), r)
        } else {
            r matches Err(e) && e == JournalError::InvalidIndex
        },
        Action::List { tag } => r matches Ok(Outcome::Show(lines)) && lists(
            texts(lines@),
            tasks,
            optional_text(tag),
        ),
    }
}

/// Whether `r` is what comes of an action, taken at the clock's reading
/// `now`, on the journal file's content. A file that cannot be read as a
/// journal fails every action.
pub open spec fn answers(
    action: Action,
    content: Seq<u8>,
    now: i64,
    r: Result<Outcome, JournalError>,
) -> bool {
    match loaded(content) {
        Ok(tasks) => performs(action, tasks, now, r),
        Err(error) => r matches Err(e) && e == error,
    }
}

/// Works out an action on the journal file's content, at the clock's
/// reading `now`: what to write back, or what to print. A file that cannot
/// be read as a journal fails every action, and nothing is then written or
/// printed.
pub fn perform_at(action: Action, content: &[u8], now: i64) -> (r: Result<Outcome, JournalError>)
    requires
        instant(now),
    ensures
        answers(action, content@, now, r),
{
    match action {
        Action::Add { task, tags } => match Task::add_at(content, task, Some(tags), now) {
            Ok(bytes) => Ok(Outcome::Write(bytes)),
            Err(error) => Err(error),
        },
        Action::Remove { index } => match Task::remove(content, index) {
            Ok(bytes) => Ok(Outcome::Write(bytes)),
            Err(error) => Err(error),
        },
        Action::List { tag } => {
            let found = match &tag {
                Some(tag) => Task::list(content, Some(tag)),
                None => Task::list(content, None),
            };
            match found {
                Ok(lines) => Ok(Outcome::Show(lines)),
                Err(error) => Err(error),
            }
        },
    }
}

/// Works out an action on the journal file's content, now: what
/// [`perform_at`] does at the clock's reading. The clock is read only for
/// adding.
pub fn perform(action: Action, content: &[u8]) -> (r: Result<Outcome, JournalError>)
    ensures
        exists|now: i64| instant(now) && #[trigger] answers(action, content@, now, r),
{
    // Removing and listing do not look at the reading: any instant does.
    let now = match action {
        Action::Add { .. } => now_seconds(),
        _ => 0,
    };
    let r = perform_at(action, content, now);
    assert(answers(action, content@, now, r));
    r
}

} // verus!
