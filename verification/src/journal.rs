//! The journal store: a journal document is read whole, changed in one
//! step, and written whole.
//!
//! Nothing here touches a file. Each operation takes the bytes that the
//! journal file holds and returns the bytes that it is to hold next, or the
//! lines to show; a file that does not exist yet counts as one of no bytes.

use vstd::prelude::*;
use vstd::string::*;
use crate::codec::{decode, encode, journal_of, tree_of_journal};
use crate::clock::{instant, now_seconds};
use crate::json::{parse, parsed, print, printed};
use crate::task::{made, optional_texts, shows, texts, views, Task, TaskView};

verus! {

/// What is shown in place of the tasks of a journal that holds none.
pub const EMPTY_NOTICE: &'static str = "Empty to-do list";

/// Why an operation on the journal did not go through.
#[derive(Clone, Copy, Debug, PartialEq, Eq, Structural)]
pub enum JournalError {
    /// The bytes are no JSON document, or the document is no journal.
    Decode,
    /// The tasks could not be written as JSON that reads back as the same
    /// tasks.
    Encode,
    /// There is no task at the position that was asked for.
    InvalidIndex,
}

impl JournalError {
    /// What the error is called when it is shown.
    pub open spec fn text(self) -> Seq<char> {
        match self {
            JournalError::Decode => "Invalid journal file"@,
            JournalError::Encode => "Journal cannot be written"@,
            JournalError::InvalidIndex => "Invalid Task ID"@,
        }
    }

    /// What the error is called when it is shown.
    pub fn message(&self) -> (r: &'static str)
        ensures
            r@ == self.text(),
    {
        match self {
            JournalError::Decode => "Invalid journal file",
            JournalError::Encode => "Journal cannot be written",
            JournalError::InvalidIndex => "Invalid Task ID",
        }
    }
}

/// Whether a byte is white space to JSON: a space, a tab, a line feed or a
/// carriage return.
pub open spec fn is_space(byte: u8) -> bool {
    byte == 0x20 || byte == 0x09 || byte == 0x0a || byte == 0x0d
}

/// Whether the bytes hold nothing at all: there are none, or only white
/// space.
pub open spec fn blank(bytes: Seq<u8>) -> bool {
    forall|i: int| 0 <= i < bytes.len() ==> is_space(#[trigger] bytes[i])
}

/// The tasks that a journal file of the given bytes holds. A blank file
/// holds none. Any other must be a JSON document that is a journal.
pub open spec fn loaded(bytes: Seq<u8>) -> Result<Seq<TaskView>, JournalError> {
    if blank(bytes) {
        Ok(Seq::empty())
    } else {
        match parsed(bytes) {
            Some(tree) => match journal_of(tree) {
                Some(tasks) => Ok(tasks),
                None => Err(JournalError::Decode),
            },
            None => Err(JournalError::Decode),
        }
    }
}

/// The bytes that a journal of the given tasks is written as: the JSON of
/// its document, as long as those bytes are read back as the same tasks.
pub open spec fn stored(tasks: Seq<TaskView>) -> Result<Seq<u8>, JournalError> {
    match printed(tree_of_journal(tasks)) {
        Some(bytes) => if loaded(bytes) == Ok::<Seq<TaskView>, JournalError>(tasks) {
            Ok(bytes)
        } else {
            Err(JournalError::Encode)
        },
        None => Err(JournalError::Encode),
    }
}

/// Whether `r` is what comes of writing a journal of the given tasks: its
/// bytes, which hold the same tasks again, or the error that writing gave.
pub open spec fn written(tasks: Seq<TaskView>, r: Result<Vec<u8>, JournalError>) -> bool {
    match stored(tasks) {
        Ok(bytes) => r matches Ok(out) && out@ == bytes && loaded(out@) == Ok::<
            Seq<TaskView>,
            JournalError,
        >(tasks),
        Err(error) => r matches Err(e) && e == error,
    }
}

/// The journal that `add` makes of a journal at the clock's reading `now`:
/// the same tasks, and after them a new one of the given name and tags,
/// active, without notes, created at that instant.
pub open spec fn lengthened(
    tasks: Seq<TaskView>,
    name: Seq<char>,
    tags: Option<Seq<Seq<char>>>,
    now: i64,
) -> Seq<TaskView> {
    tasks.push(made(name, tags, None, now))
}

/// Whether the journal `after` is the journal `before` without the task at
/// position `index`, counted from 1: one task less, the others in their
/// order.
pub open spec fn shortened(before: Seq<TaskView>, after: Seq<TaskView>, index: usize) -> bool {
    &&& 1 <= index <= before.len()
    &&& after.len() == before.len() - 1
    &&& after == before.remove(index - 1)
}

/// Whether `r` is what comes of adding a task of the given name and tags,
/// at the clock's reading `now`, to the journal of the given bytes: the
/// bytes of the journal with the new task at its end, which load as that
/// journal, one task longer; or the error that reading or writing gave.
pub open spec fn adds(
    content: Seq<u8>,
    name: Seq<char>,
    tags: Option<Seq<Seq<char>>>,
    now: i64,
    r: Result<Vec<u8>, JournalError>,
) -> bool {
    match loaded(content) {
        Ok(tasks) => written(lengthened(tasks, name, tags, now), r),
        Err(error) => r matches Err(e) && e == error,
    }
}

/// The test of whether a task carries exactly the given tag.
pub open spec fn carries(tag: Seq<char>) -> spec_fn(TaskView) -> bool {
    |task: TaskView| task.tags.contains(tag)
}

/// The tasks that are shown under a filter: with a tag, those that carry
/// exactly that tag; without one, all of them. Their order is kept.
pub open spec fn selected(tasks: Seq<TaskView>, tag: Option<Seq<char>>) -> Seq<TaskView> {
    match tag {
        Some(tag) => tasks.filter(carries(tag)),
        None => tasks,
    }
}

/// A filter by tag shows exactly the tasks of the journal that carry the
/// tag: each task it shows is one of the journal and carries the tag, and no
/// task of the journal that carries the tag is left out. Without a tag every
/// task is shown. Taking one more task into the journal puts it after those
/// shown so far, or nowhere: the order of the journal is kept.
pub proof fn law_selection_exact(tasks: Seq<TaskView>, tag: Seq<char>, next: TaskView)
    ensures
        forall|task: TaskView|
            selected(tasks, Some(tag)).contains(task) <==> tasks.contains(task)
                && task.tags.contains(tag),
        selected(tasks, None) == tasks,
        selected(Seq::empty(), Some(tag)) == Seq::<TaskView>::empty(),
        selected(tasks.push(next), Some(tag)) == if next.tags.contains(tag) {
            selected(tasks, Some(tag)).push(next)
        } else {
            selected(tasks, Some(tag))
        },
{
    let test = carries(tag);
    let shown = tasks.filter(test);
    assert forall|task: TaskView| shown.contains(task) implies tasks.contains(task)
        && task.tags.contains(tag) by {
        let i = choose|i: int| 0 <= i < shown.len() && shown[i] == task;
        tasks.lemma_filter_pred(test, i);
        tasks.lemma_filter_contains_rev(test, task);
    }
    assert forall|task: TaskView| tasks.contains(task) && task.tags.contains(tag) implies
        shown.contains(task) by {
        let i = choose|i: int| 0 <= i < tasks.len() && tasks[i] == task;
        tasks.lemma_filter_contains(test, i);
    }
    lemma_filter_push(tasks, next, test);
    assert(Seq::<TaskView>::empty().filter(test) == Seq::<TaskView>::empty()) by {
        reveal(Seq::filter);
    }
}

/// The text of the tag that may have been given.
pub open spec fn tag_text(tag: Option<&String>) -> Option<Seq<char>> {
    match tag {
        Some(tag) => Some(tag@),
        None => None,
    }
}

/// Whether `lines` is a listing of the tasks under the filter: the notice
/// alone for a journal without tasks; else one line for each task that the
/// filter selects, in their order, each showing that task.
pub open spec fn lists(lines: Seq<Seq<char>>, tasks: Seq<TaskView>, tag: Option<Seq<char>>) -> bool {
    if tasks.len() == 0 {
        lines == seq![EMPTY_NOTICE@]
    } else {
        &&& lines.len() == selected(tasks, tag).len()
        &&& forall|i: int| 0 <= i < lines.len() ==> shows(#[trigger] lines[i], selected(tasks, tag)[i])
    }
}

/// The tasks behind a run of references, as plain values.
pub open spec fn views_of(tasks: Seq<&Task>) -> Seq<TaskView> {
    tasks.map_values(|task: &Task| task@)
}

/// Filtering a run that ends in `last` filters the run before it, and keeps
/// `last` where the test holds of it.
proof fn lemma_filter_push<A>(run: Seq<A>, last: A, test: spec_fn(A) -> bool)
    ensures
        run.push(last).filter(test) == if test(last) {
            run.filter(test).push(last)
        } else {
            run.filter(test)
        },
{
    reveal(Seq::filter);
    assert(run.push(last).drop_last() =~= run);
}

/// Whether the bytes hold nothing at all.
pub fn is_blank(bytes: &[u8]) -> (r: bool)
    ensures
        r == blank(bytes@),
{
    let mut i: usize = 0;
    while i < bytes.len()
        invariant
            i <= bytes.len(),
            forall|j: int| 0 <= j < i ==> is_space(#[trigger] bytes@[j]),
        decreases bytes.len() - i,
    {
        let byte = bytes[i];
        if !(byte == 0x20 || byte == 0x09 || byte == 0x0a || byte == 0x0d) {
            assert(!is_space(bytes@[i as int]));
            return false;
        }
        i = i + 1;
    }
    true
}

/// Reads the tasks of a journal file from its bytes. A blank file, one of
/// no bytes among them, holds no tasks and is no error. Bytes that are no
/// JSON, or JSON that is no journal, are refused.
pub fn load(content: &[u8]) -> (r: Result<Vec<Task>, JournalError>)
    ensures
        match loaded(content@) {
            Ok(tasks) => r matches Ok(found) && views(found@) == tasks,
            Err(error) => r matches Err(e) && e == error,
        },
        blank(content@) ==> (r matches Ok(found) && found@.len() == 0),
{
    if is_blank(content) {
        let found: Vec<Task> = Vec::new();
        assert(views(found@) =~= Seq::<TaskView>::empty());
        return Ok(found);
    }
    match parse(content) {
        Ok(value) => match decode(&value) {
            Some(found) => Ok(found),
            None => Err(JournalError::Decode),
        },
        Err(_) => Err(JournalError::Decode),
    }
}

/// Whether two runs hold equal tasks in the same order.
pub fn same_tasks(a: &Vec<Task>, b: &Vec<Task>) -> (r: bool)
    ensures
        r == (views(a@) == views(b@)),
{
    if a.len() != b.len() {
        assert(views(a@).len() != views(b@).len());
        return false;
    }
    let mut i: usize = 0;
    while i < a.len()
        invariant
            i <= a.len(),
            a.len() == b.len(),
            forall|j: int| 0 <= j < i ==> views(a@)[j] == views(b@)[j],
        decreases a.len() - i,
    {
        if a[i] != b[i] {
            assert(views(a@)[i as int] != views(b@)[i as int]);
            return false;
        }
        i = i + 1;
    }
    assert(views(a@) =~= views(b@));
    true
}

/// Writes the tasks as the bytes of a journal file: the whole journal, as
/// one JSON document. Before the bytes are handed out they are read back,
/// and they are handed out only if they hold the same tasks: what this
/// function returns, `load` reads as the journal that was written.
pub fn persist(tasks: &Vec<Task>) -> (r: Result<Vec<u8>, JournalError>)
    ensures
        written(views(tasks@), r),
        r matches Ok(bytes) ==> loaded(bytes@) == Ok::<Seq<TaskView>, JournalError>(views(tasks@)),
{
    let value = encode(tasks);
    let bytes = match print(&value) {
        Ok(bytes) => bytes,
        Err(_) => {
            return Err(JournalError::Encode);
        },
    };
    match load(bytes.as_slice()) {
        Ok(back) => if same_tasks(&back, tasks) {
            Ok(bytes)
        } else {
            Err(JournalError::Encode)
        },
        Err(_) => Err(JournalError::Encode),
    }
}

/// A journal that was written is read back as the same tasks, in the same
/// order and with the same parts. This holds of every run of tasks, the
/// empty one too.
pub proof fn law_stored_journal_loads(tasks: Seq<TaskView>, bytes: Seq<u8>)
    requires
        stored(tasks) == Ok::<Seq<u8>, JournalError>(bytes),
    ensures
        loaded(bytes) == Ok::<Seq<TaskView>, JournalError>(tasks),
{
}

/// Puts a new task at the end of the journal: active, without notes,
/// created at the clock's reading `now`. The tasks before it stay as they
/// are.
pub fn append_at(tasks: &mut Vec<Task>, name: String, tags: Option<Vec<String>>, now: i64)
    requires
        instant(now),
    ensures
        final(tasks)@.len() == old(tasks)@.len() + 1,
        final(tasks)@.drop_last() == old(tasks)@,
        views(final(tasks)@) == lengthened(views(old(tasks)@), name@, optional_texts(tags), now),
{
    let task = Task::at(name, tags, None, now);
    tasks.push(task);
    assert(tasks@.drop_last() =~= old(tasks)@);
    assert(views(tasks@) =~= views(old(tasks)@).push(task@));
}

/// Puts a new task at the end of the journal: active, without notes,
/// created now. The tasks before it stay as they are.
pub fn append(tasks: &mut Vec<Task>, name: String, tags: Option<Vec<String>>)
    ensures
        final(tasks)@.len() == old(tasks)@.len() + 1,
        final(tasks)@.drop_last() == old(tasks)@,
        exists|now: i64|
            instant(now) && views(final(tasks)@) == #[trigger] lengthened(
                views(old(tasks)@),
                name@,
                optional_texts(tags),
                now,
            ),
{
    append_at(tasks, name, tags, now_seconds());
}

/// Takes the task at a position out of the journal and returns it.
/// Positions count from 1. A position at which there is no task is refused,
/// and the journal is then left as it is.
pub fn remove_at(tasks: &mut Vec<Task>, index: usize) -> (r: Result<Task, JournalError>)
    ensures
        1 <= index <= old(tasks)@.len() ==> (r matches Ok(task) && task == old(tasks)@[index - 1]
            && final(tasks)@ == old(tasks)@.remove(index - 1)
            && final(tasks)@.len() == old(tasks)@.len() - 1),
        !(1 <= index <= old(tasks)@.len()) ==> (r matches Err(e) && e == JournalError::InvalidIndex
            && final(tasks)@ == old(tasks)@),
        views(final(tasks)@) == (if 1 <= index <= old(tasks)@.len() {
            views(old(tasks)@).remove(index - 1)
        } else {
            views(old(tasks)@)
        }),
{
    if index == 0 || index > tasks.len() {
        return Err(JournalError::InvalidIndex);
    }
    let task = tasks.remove(index - 1);
    assert(views(tasks@) =~= views(old(tasks)@).remove(index - 1));
    Ok(task)
}

/// Picks the tasks to show: with a tag, those that carry exactly that tag;
/// without one, all. They come in the order of the journal.
pub fn select<'a>(tasks: &'a Vec<Task>, tag: Option<&String>) -> (r: Vec<&'a Task>)
    ensures
        views_of(r@) == selected(views(tasks@), tag_text(tag)),
{
    let mut shown: Vec<&Task> = Vec::new();
    let mut i: usize = 0;
    proof {
        assert(views(tasks@).take(0) =~= Seq::<TaskView>::empty());
        assert(views_of(shown@) =~= Seq::<TaskView>::empty());
    }
    while i < tasks.len()
        invariant
            i <= tasks.len(),
            views_of(shown@) == selected(views(tasks@).take(i as int), tag_text(tag)),
        decreases tasks.len() - i,
    {
        let keep = match tag {
            Some(tag) => tasks[i].has_tag(tag),
            None => true,
        };
        let ghost earlier = shown@;
        proof {
            let before = views(tasks@).take(i as int);
            assert(views(tasks@).take(i + 1) =~= before.push(tasks@[i as int]@));
            if let Some(tag) = tag {
                lemma_filter_push(before, tasks@[i as int]@, carries(tag@));
            }
        }
        if keep {
            shown.push(&tasks[i]);
            assert(views_of(shown@) =~= views_of(earlier).push(tasks@[i as int]@));
        }
        i = i + 1;
    }
    assert(views(tasks@).take(tasks.len() as int) =~= views(tasks@));
    shown
}

/// Writes the listing of a journal under a filter: the notice alone for a
/// journal without tasks; else one line for each task that the filter
/// selects, in the order of the journal.
pub fn listing(tasks: &Vec<Task>, tag: Option<&String>) -> (r: Vec<String>)
    ensures
        lists(texts(r@), views(tasks@), tag_text(tag)),
{
    let mut lines: Vec<String> = Vec::new();
    if tasks.len() == 0 {
        lines.push(String::from_str(EMPTY_NOTICE));
        assert(texts(lines@) =~= seq![EMPTY_NOTICE@]);
        return lines;
    }
    let shown = select(tasks, tag);
    let mut i: usize = 0;
    while i < shown.len()
        invariant
            i <= shown.len(),
            lines.len() == i,
            forall|j: int| 0 <= j < i ==> shows(#[trigger] lines@[j]@, views_of(shown@)[j]),
        decreases shown.len() - i,
    {
        lines.push(shown[i].render());
        i = i + 1;
    }
    assert forall|j: int| 0 <= j < texts(lines@).len() implies shows(
        #[trigger] texts(lines@)[j],
        views_of(shown@)[j],
    ) by {
        assert(shows(lines@[j]@, views_of(shown@)[j]));
    }
    lines
}

impl Task {
    /// Adds a task to the journal at the clock's reading `now`: reads the
    /// tasks from the file's bytes, puts a new task of the given name and
    /// tags at their end, created at that instant, and returns the bytes of
    /// the journal so made. Names may repeat and tags may be missing. It
    /// fails only where the file cannot be read as a journal or the journal
    /// cannot be written.
    pub fn add_at(content: &[u8], name: String, tags: Option<Vec<String>>, now: i64) -> (r: Result<
        Vec<u8>,
        JournalError,
    >)
        requires
            instant(now),
        ensures
            adds(content@, name@, optional_texts(tags), now, r),
            loaded(content@) matches Ok(tasks) ==> (r matches Ok(out) ==> (loaded(out@) matches Ok(
                after,
            ) && after.len() == tasks.len() + 1 && after == lengthened(
                tasks,
                name@,
                optional_texts(tags),
                now,
            ))),
    {
        let mut tasks = match load(content) {
            Ok(tasks) => tasks,
            Err(error) => {
                return Err(error);
            },
        };
        append_at(&mut tasks, name, tags, now);
        persist(&tasks)
    }

    /// Adds a task to the journal, created now: what [`Task::add_at`] does
    /// at the clock's reading.
    pub fn add(content: &[u8], name: String, tags: Option<Vec<String>>) -> (r: Result<
        Vec<u8>,
        JournalError,
    >)
        ensures
            exists|now: i64|
                instant(now) && #[trigger] adds(content@, name@, optional_texts(tags), now, r),
            loaded(content@) matches Ok(tasks) ==> (r matches Ok(out) ==> (loaded(out@) matches Ok(
                after,
            ) && after.len() == tasks.len() + 1 && after.drop_last() == tasks)),
    {
        let now = now_seconds();
        let r = Task::add_at(content, name, tags, now);
        proof {
            assert(adds(content@, name@, optional_texts(tags), now, r));
            if let Ok(tasks) = loaded(content@) {
                let after = lengthened(tasks, name@, optional_texts(tags), now);
                assert(after.drop_last() =~= tasks);
            }
        }
        r
    }

    /// Removes the task at a position from the journal: reads the tasks
    /// from the file's bytes, takes out the one at `index`, counted from 1,
    /// and returns the bytes of the journal that is left. A position at
    /// which there is no task is refused, whatever the journal holds, and
    /// nothing is then to be written.
    pub fn remove(content: &[u8], index: usize) -> (r: Result<Vec<u8>, JournalError>)
        ensures
            match loaded(content@) {
                Ok(tasks) => if 1 <= index <= tasks.len() {
                    written(tasks.remove(index - 1), r)
                } else {
                    r matches Err(e) && e == JournalError::InvalidIndex
                },
                Err(error) => r matches Err(e) && e == error,
            },
            loaded(content@) matches Ok(tasks) ==> (r matches Ok(out) ==> (loaded(out@) matches Ok(
                after,
            ) && shortened(tasks, after, index))),
    {
        let mut tasks = match load(content) {
            Ok(tasks) => tasks,
            Err(error) => {
                return Err(error);
            },
        };
        match remove_at(&mut tasks, index) {
            Ok(_) => persist(&tasks),
            Err(error) => Err(error),
        }
    }

    /// Lists the journal: reads the tasks from the file's bytes and returns
    /// the lines to show. A journal without tasks gives the notice. With a
    /// tag, only the tasks that carry exactly that tag are shown; a journal
    /// of which the tag selects none gives no line.
    pub fn list(content: &[u8], tag: Option<&String>) -> (r: Result<Vec<String>, JournalError>)
        ensures
            match loaded(content@) {
                Ok(tasks) => r matches Ok(lines) && lists(texts(lines@), tasks, tag_text(tag)),
                Err(error) => r matches Err(e) && e == error,
            },
    {
        match load(content) {
            Ok(tasks) => Ok(listing(&tasks, tag)),
            Err(error) => Err(error),
        }
    }

    /// Empties the journal: reads the tasks from the file's bytes, drops
    /// them all, and returns the bytes of a journal without tasks. A file
    /// that cannot be read as a journal is refused, not overwritten.
    pub fn clear(content: &[u8]) -> (r: Result<Vec<u8>, JournalError>)
        ensures
            match loaded(content@) {
                Ok(_) => written(Seq::empty(), r),
                Err(error) => r matches Err(e) && e == error,
            },
            r matches Ok(out) ==> loaded(out@) == Ok::<Seq<TaskView>, JournalError>(Seq::empty()),
    {
        let mut tasks = match load(content) {
            Ok(tasks) => tasks,
            Err(error) => {
                return Err(error);
            },
        };
        tasks.clear();
        assert(views(tasks@) =~= Seq::<TaskView>::empty());
        persist(&tasks)
    }
}

} // verus!
