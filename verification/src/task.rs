//! The task model: what a task holds, how one is made, and how it is shown.

use vstd::prelude::*;
use vstd::string::*;
use crate::clock::{
    instant, is_instant, local_offset, now_seconds, offset_in_range, stamp, stamp_at,
    STAMP_PATTERN,
};

verus! {

/// The column width that a task's name is padded to when it is shown.
pub const NAME_WIDTH: usize = 50;

/// Whether a task is still to be done.
#[derive(Clone, Copy, Debug, PartialEq, Eq, Structural)]
pub enum State {
    Active,
    Complete,
}

/// One to-do item of the journal.
///
/// The creation instant is kept as seconds since the start of 1970 in UTC,
/// and is always a count that the clock library has an instant for.
#[derive(Debug)]
pub struct Task {
    name: String,
    state: State,
    tags: Vec<String>,
    notes: Option<String>,
    created_at: i64,
}

/// A task as plain values.
pub struct TaskView {
    pub name: Seq<char>,
    pub state: State,
    pub tags: Seq<Seq<char>>,
    pub notes: Option<Seq<char>>,
    pub created_at: i64,
}

/// The texts of a run of strings, one for one.
pub open spec fn texts(strings: Seq<String>) -> Seq<Seq<char>> {
    strings.map_values(|s: String| s@)
}

/// The text of an optional string.
pub open spec fn optional_text(s: Option<String>) -> Option<Seq<char>> {
    match s {
        Some(s) => Some(s@),
        None => None,
    }
}

/// The tasks of a run as plain values, one for one.
pub open spec fn views(tasks: Seq<Task>) -> Seq<TaskView> {
    tasks.map_values(|task: Task| task@)
}

/// A run of spaces.
pub open spec fn spaces(count: nat) -> Seq<char> {
    Seq::new(count, |i: int| ' ')
}

/// The name as it stands in the name column: followed by as many spaces as
/// it lacks to fill the column, or cut to the column where it is longer.
/// Either way it is as wide as the column.
pub open spec fn padded(name: Seq<char>) -> Seq<char> {
    if name.len() < NAME_WIDTH {
        name + spaces((NAME_WIDTH - name.len()) as nat)
    } else {
        name.take(NAME_WIDTH as int)
    }
}

/// The line that shows a task of the given name, created at an instant that
/// is written as `stamp`.
pub open spec fn line_of(name: Seq<char>, stamp: Seq<char>) -> Seq<char> {
    "Task: "@ + padded(name) + " Created at: "@ + stamp
}

/// The given tags, or none.
pub open spec fn tags_or_none(tags: Option<Seq<Seq<char>>>) -> Seq<Seq<char>> {
    match tags {
        Some(tags) => tags,
        None => Seq::empty(),
    }
}

/// The texts of the tags that may have been given.
pub open spec fn optional_texts(tags: Option<Vec<String>>) -> Option<Seq<Seq<char>>> {
    match tags {
        Some(tags) => Some(texts(tags@)),
        None => None,
    }
}

/// The task that is made of a name, tags and notes at the clock's reading
/// `now`: an active one, created at that instant.
pub open spec fn made(
    name: Seq<char>,
    tags: Option<Seq<Seq<char>>>,
    notes: Option<Seq<char>>,
    now: i64,
) -> TaskView {
    TaskView { name, state: State::Active, tags: tags_or_none(tags), notes, created_at: now }
}

/// The line that shows a task on a machine whose local time is `offset`
/// seconds ahead of UTC at the task's creation.
pub open spec fn line_at(task: TaskView, offset: i32) -> Seq<char> {
    line_of(task.name, stamp(task.created_at, offset))
}

/// Whether `line` shows the task, whatever the machine's offset from UTC
/// is: the task's name in the name column, then its creation instant as a
/// clock at some offset shows it.
pub open spec fn shows(line: Seq<char>, task: TaskView) -> bool {
    exists|offset: i32| offset_in_range(offset) && line == #[trigger] line_at(task, offset)
}

/// The name column is of one width for every name, so the creation instant
/// starts at the same place in every line.
pub proof fn law_name_column(name: Seq<char>)
    ensures
        padded(name).len() == NAME_WIDTH,
        name.len() <= NAME_WIDTH ==> padded(name).take(name.len() as int) == name,
        name.len() >= NAME_WIDTH ==> padded(name) == name.take(NAME_WIDTH as int),
{
    if name.len() < NAME_WIDTH {
        assert(padded(name).take(name.len() as int) =~= name);
    } else if name.len() == NAME_WIDTH {
        assert(name.take(NAME_WIDTH as int) =~= name);
        assert(padded(name).take(name.len() as int) =~= name);
    }
}

/// Writes the line for a task of the given name and written instant.
pub fn render_line(name: &str, stamp: &str) -> (line: String)
    ensures
        line@ == line_of(name@, stamp@),
{
    let mut line = String::from_str("Task: ");
    let length = name.unicode_len();
    if length >= NAME_WIDTH {
        line.append(name.substring_char(0, NAME_WIDTH));
        assert(name@.subrange(0, NAME_WIDTH as int) =~= padded(name@));
    } else {
        line.append(name);
        let mut width: usize = length;
        assert(name@ + spaces(0) =~= name@);
        while width < NAME_WIDTH
            invariant
                length == name@.len(),
                length <= width <= NAME_WIDTH,
                line@ == "Task: "@ + (name@ + spaces((width - length) as nat)),
            decreases NAME_WIDTH - width,
        {
            proof {
                reveal_strlit(" ");
                assert(name@ + spaces((width - length) as nat) + " "@ =~= name@ + spaces(
                    (width + 1 - length) as nat,
                ));
            }
            line.append(" ");
            width = width + 1;
        }
    }
    line.append(" Created at: ");
    line.append(stamp);
    line
}

impl View for Task {
    type V = TaskView;

    closed spec fn view(&self) -> TaskView {
        TaskView {
            name: self.name@,
            state: self.state,
            tags: texts(self.tags@),
            notes: optional_text(self.notes),
            created_at: self.created_at,
        }
    }
}

impl Task {
    #[verifier::type_invariant]
    spec fn well_formed(self) -> bool {
        instant(self.created_at)
    }

    /// A new task, created at the clock's reading `now`: active, with the
    /// given name, the given tags or none, and the given notes or none. The
    /// name is taken as it is, empty or not.
    pub fn at(name: String, tags: Option<Vec<String>>, notes: Option<String>, now: i64) -> (task:
        Task)
        requires
            instant(now),
        ensures
            task@ == made(name@, optional_texts(tags), optional_text(notes), now),
    {
        let tags = match tags {
            Some(tags) => tags,
            None => {
                assert(texts(Seq::<String>::empty()) =~= Seq::<Seq<char>>::empty());
                Vec::new()
            },
        };
        Task { name, state: State::Active, tags, notes, created_at: now }
    }

    /// A new task, created now: active, with the given name, the given tags
    /// or none, and the given notes or none. Its creation instant is what
    /// the clock read.
    pub fn new(name: String, tags: Option<Vec<String>>, notes: Option<String>) -> (task: Task)
        ensures
            exists|now: i64|
                instant(now) && task@ == #[trigger] made(
                    name@,
                    optional_texts(tags),
                    optional_text(notes),
                    now,
                ),
    {
        Task::at(name, tags, notes, now_seconds())
    }

    /// A task with every part given. There is none where the count of
    /// seconds is no instant.
    pub fn restore(
        name: String,
        state: State,
        tags: Vec<String>,
        notes: Option<String>,
        created_at: i64,
    ) -> (r: Option<Task>)
        ensures
            r is Some == instant(created_at),
            r matches Some(task) ==> task@ == (TaskView {
                name: name@,
                state,
                tags: texts(tags@),
                notes: optional_text(notes),
                created_at,
            }),
    {
        if is_instant(created_at) {
            Some(Task { name, state, tags, notes, created_at })
        } else {
            None
        }
    }

    /// The task's name.
    pub fn name(&self) -> (r: &String)
        ensures
            r@ == self@.name,
    {
        &self.name
    }

    /// Whether the task is still to be done.
    pub fn state(&self) -> (r: State)
        ensures
            r == self@.state,
    {
        self.state
    }

    /// The task's tags, in the order they were given.
    pub fn tags(&self) -> (r: &Vec<String>)
        ensures
            texts(r@) == self@.tags,
    {
        &self.tags
    }

    /// The task's notes, if it has any.
    pub fn notes(&self) -> (r: &Option<String>)
        ensures
            optional_text(*r) == self@.notes,
    {
        &self.notes
    }

    /// When the task was created, in seconds since the start of 1970 in UTC.
    pub fn created_at(&self) -> (r: i64)
        ensures
            r == self@.created_at,
            instant(r),
    {
        proof {
            use_type_invariant(self);
        }
        self.created_at
    }

    /// Whether the task carries exactly this tag.
    pub fn has_tag(&self, tag: &String) -> (r: bool)
        ensures
            r == self@.tags.contains(tag@),
    {
        let mut i: usize = 0;
        while i < self.tags.len()
            invariant
                i <= self.tags.len(),
                forall|j: int| 0 <= j < i ==> texts(self.tags@)[j] != tag@,
            decreases self.tags.len() - i,
        {
            if self.tags[i] == *tag {
                assert(texts(self.tags@)[i as int] == tag@);
                return true;
            }
            i = i + 1;
        }
        false
    }

    /// The line that shows the task on a machine whose local time is
    /// `offset` seconds ahead of UTC: its name in the name column, then its
    /// creation instant as a clock at that offset shows it.
    pub fn render_at(&self, offset: i32) -> (line: String)
        requires
            offset_in_range(offset),
        ensures
            line@ == line_at(self@, offset),
    {
        proof {
            use_type_invariant(self);
        }
        let written = stamp_at(self.created_at, offset, STAMP_PATTERN);
        render_line(self.name.as_str(), written.as_str())
    }

    /// The line that shows the task: its name in the name column, then its
    /// creation instant in the machine's local time.
    pub fn render(&self) -> (line: String)
        ensures
            shows(line@, self@),
    {
        proof {
            use_type_invariant(self);
        }
        let offset = local_offset(self.created_at);
        let line = self.render_at(offset);
        assert(line@ == line_at(self@, offset));
        line
    }
}

/// Whether two runs of strings hold the same texts in the same order.
fn same_texts(a: &Vec<String>, b: &Vec<String>) -> (r: bool)
    ensures
        r == (texts(a@) == texts(b@)),
{
    if a.len() != b.len() {
        assert(texts(a@).len() != texts(b@).len());
        return false;
    }
    let mut i: usize = 0;
    while i < a.len()
        invariant
            i <= a.len(),
            a.len() == b.len(),
            forall|j: int| 0 <= j < i ==> texts(a@)[j] == texts(b@)[j],
        decreases a.len() - i,
    {
        if a[i] != b[i] {
            assert(texts(a@)[i as int] != texts(b@)[i as int]);
            return false;
        }
        i = i + 1;
    }
    assert(texts(a@) =~= texts(b@));
    true
}

/// Two tasks are equal where all their parts are.
impl PartialEq for Task {
    fn eq(&self, other: &Task) -> (r: bool) {
        let notes = match (&self.notes, &other.notes) {
            (Some(mine), Some(theirs)) => *mine == *theirs,
            (None, None) => true,
            _ => false,
        };
        self.name == other.name && self.state == other.state && same_texts(
            &self.tags,
            &other.tags,
        ) && notes && self.created_at == other.created_at
    }
}

impl vstd::std_specs::cmp::PartialEqSpecImpl for Task {
    open spec fn obeys_eq_spec() -> bool {
        true
    }

    open spec fn eq_spec(&self, other: &Task) -> bool {
        self@ == other@
    }
}


} // verus!
