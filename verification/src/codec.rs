//! The journal's JSON form: which documents are journals, which tasks they
//! hold, and the document that a run of tasks is written as.
//!
//! A journal is an array of objects. Each object gives a task:
//! `name` (a string), `state` (an object whose `type` is `"Active"` or
//! `"Complete"`), `tags` (an array of strings; absent or `null` for none),
//! `notes` (a string; absent or `null` for none) and `creted_at` (whole
//! seconds since the start of 1970 in UTC). Other members are passed over.

use vstd::prelude::*;
use vstd::string::*;
use crate::clock::instant;
use crate::json::{
    as_array, as_i64, as_str, integer, is_null, list, member, members, null, record, shape,
    shapes, text, whole, Tree,
};
use crate::task::{optional_text, texts, views, State, Task, TaskView};

verus! {

/// The member of an object under a key, if it has one.
pub open spec fn field(fields: Map<Seq<char>, Tree>, key: Seq<char>) -> Option<Tree> {
    if fields.contains_key(key) {
        Some(fields[key])
    } else {
        None
    }
}

/// The tree of a value that may be missing.
pub open spec fn found_shape(found: Option<&serde_json::Value>) -> Option<Tree> {
    match found {
        Some(value) => Some(shape(*value)),
        None => None,
    }
}

/// The name that a `name` member gives: it must be there and be a string.
pub open spec fn name_from(found: Option<Tree>) -> Option<Seq<char>> {
    match found {
        Some(Tree::Text(name)) => Some(name),
        _ => None,
    }
}

/// The state that goes by a label.
pub open spec fn state_named(label: Seq<char>) -> Option<State> {
    if label == "Active"@ {
        Some(State::Active)
    } else if label == "Complete"@ {
        Some(State::Complete)
    } else {
        None
    }
}

/// The label that a state goes by.
pub open spec fn state_label(state: State) -> Seq<char> {
    match state {
        State::Active => "Active"@,
        State::Complete => "Complete"@,
    }
}

/// The state that a `state` member gives: it must be there and be an object
/// whose `type` is the label of a state.
pub open spec fn state_from(found: Option<Tree>) -> Option<State> {
    match found {
        Some(Tree::Record(inner)) => match field(inner, "type"@) {
            Some(Tree::Text(label)) => state_named(label),
            _ => None,
        },
        _ => None,
    }
}

/// The text of a string; of anything else, no text.
pub open spec fn text_of(tree: Tree) -> Seq<char> {
    match tree {
        Tree::Text(content) => content,
        _ => Seq::empty(),
    }
}

/// The tags that a `tags` member gives: none where it is absent or `null`;
/// else it must be an array of strings.
pub open spec fn tags_from(found: Option<Tree>) -> Option<Seq<Seq<char>>> {
    match found {
        None => Some(Seq::empty()),
        Some(Tree::Null) => Some(Seq::empty()),
        Some(Tree::List(items)) => if forall|i: int| 0 <= i < items.len() ==> items[i] is Text {
            Some(items.map_values(|item: Tree| text_of(item)))
        } else {
            None
        },
        _ => None,
    }
}

/// The notes that a `notes` member gives: none where it is absent or
/// `null`; else it must be a string.
pub open spec fn notes_from(found: Option<Tree>) -> Option<Option<Seq<char>>> {
    match found {
        None => Some(None),
        Some(Tree::Null) => Some(None),
        Some(Tree::Text(notes)) => Some(Some(notes)),
        _ => None,
    }
}

/// The creation instant that a `creted_at` member gives: it must be there
/// and be a whole number of seconds that is an instant.
pub open spec fn created_from(found: Option<Tree>) -> Option<i64> {
    match found {
        Some(tree) => match whole(tree) {
            Some(seconds) => if instant(seconds) {
                Some(seconds)
            } else {
                None
            },
            None => None,
        },
        None => None,
    }
}

/// The task that a document gives, if it gives one: it must be an object
/// whose members give every part of a task.
pub open spec fn task_of(tree: Tree) -> Option<TaskView> {
    match tree {
        Tree::Record(fields) => match (
            name_from(field(fields, "name"@)),
            state_from(field(fields, "state"@)),
            tags_from(field(fields, "tags"@)),
            notes_from(field(fields, "notes"@)),
            created_from(field(fields, "creted_at"@)),
        ) {
            (Some(name), Some(state), Some(tags), Some(notes), Some(created_at)) => Some(
                TaskView { name, state, tags, notes, created_at },
            ),
            _ => None,
        },
        _ => None,
    }
}

/// The tasks that a document gives, if it is a journal: it must be an array
/// whose every item gives a task.
pub open spec fn journal_of(tree: Tree) -> Option<Seq<TaskView>> {
    match tree {
        Tree::List(items) => if forall|i: int| 0 <= i < items.len() ==> task_of(items[i]) is Some {
            Some(items.map_values(|item: Tree| task_of(item).unwrap()))
        } else {
            None
        },
        _ => None,
    }
}

/// The document that a task is written as.
pub open spec fn tree_of_task(task: TaskView) -> Tree {
    Tree::Record(
        Map::empty().insert("name"@, Tree::Text(task.name)).insert(
            "state"@,
            Tree::Record(Map::empty().insert("type"@, Tree::Text(state_label(task.state)))),
        ).insert("tags"@, Tree::List(task.tags.map_values(|tag: Seq<char>| Tree::Text(tag)))).insert(
            "notes"@,
            match task.notes {
                Some(notes) => Tree::Text(notes),
                None => Tree::Null,
            },
        ).insert("creted_at"@, Tree::Integer(task.created_at as int)),
    )
}

/// The document that a run of tasks is written as.
pub open spec fn tree_of_journal(tasks: Seq<TaskView>) -> Tree {
    Tree::List(tasks.map_values(|task: TaskView| tree_of_task(task)))
}

/// The keys of a task's members differ from each other.
proof fn lemma_keys_differ()
    ensures
        "name"@ != "state"@,
        "name"@ != "tags"@,
        "name"@ != "notes"@,
        "name"@ != "creted_at"@,
        "state"@ != "tags"@,
        "state"@ != "notes"@,
        "state"@ != "creted_at"@,
        "tags"@ != "notes"@,
        "tags"@ != "creted_at"@,
        "notes"@ != "creted_at"@,
        "Active"@ != "Complete"@,
{
    reveal_strlit("name");
    reveal_strlit("state");
    reveal_strlit("tags");
    reveal_strlit("notes");
    reveal_strlit("creted_at");
    reveal_strlit("Active");
    reveal_strlit("Complete");
    assert("name"@.len() == 4);
    assert("state"@.len() == 5);
    assert("tags"@[0] == 't');
    assert("notes"@[0] == 'n');
    assert("creted_at"@.len() == 9);
    assert("Active"@.len() == 6);
    assert("Complete"@.len() == 8);
}

/// A task that is written as a document and read back is the same task.
pub proof fn lemma_task_round_trip(task: TaskView)
    requires
        instant(task.created_at),
    ensures
        task_of(tree_of_task(task)) == Some(task),
{
    lemma_keys_differ();
    let items = task.tags.map_values(|tag: Seq<char>| Tree::Text(tag));
    assert(items.map_values(|item: Tree| text_of(item)) =~= task.tags);
    assert(tags_from(Some(Tree::List(items))) == Some(task.tags));
}

/// Writing a run of tasks as a journal document and reading the document
/// back gives the same tasks, in the same order and with the same parts.
/// This holds of every run, the empty one too.
pub proof fn law_round_trip(tasks: Seq<TaskView>)
    requires
        forall|i: int| 0 <= i < tasks.len() ==> instant(#[trigger] tasks[i].created_at),
    ensures
        journal_of(tree_of_journal(tasks)) == Some(tasks),
{
    let items = tasks.map_values(|task: TaskView| tree_of_task(task));
    assert forall|i: int| 0 <= i < items.len() implies task_of(items[i]) == Some(tasks[i]) by {
        lemma_task_round_trip(tasks[i]);
    }
    assert(items.map_values(|item: Tree| task_of(item).unwrap()) =~= tasks);
}

/// Reads a task's name from its `name` member.
fn decode_name(found: Option<&serde_json::Value>) -> (r: Option<String>)
    ensures
        optional_text(r) == name_from(found_shape(found)),
{
    match found {
        Some(value) => match as_str(value) {
            Some(name) => Some(String::from_str(name)),
            None => None,
        },
        None => None,
    }
}

/// Reads a task's state from its `state` member.
fn decode_state(found: Option<&serde_json::Value>) -> (r: Option<State>)
    ensures
        r == state_from(found_shape(found)),
{
    let value = match found {
        Some(value) => value,
        None => {
            return None;
        },
    };
    let label = match member(value, "type") {
        Some(inner) => match as_str(inner) {
            Some(label) => String::from_str(label),
            None => {
                return None;
            },
        },
        None => {
            return None;
        },
    };
    if label == String::from_str("Active") {
        Some(State::Active)
    } else if label == String::from_str("Complete") {
        Some(State::Complete)
    } else {
        None
    }
}

/// Reads a task's tags from its `tags` member.
fn decode_tags(found: Option<&serde_json::Value>) -> (r: Option<Vec<String>>)
    ensures
        match r {
            Some(tags) => tags_from(found_shape(found)) == Some(texts(tags@)),
            None => tags_from(found_shape(found)) is None,
        },
{
    let value = match found {
        Some(value) => value,
        None => {
            assert(texts(Seq::<String>::empty()) =~= Seq::<Seq<char>>::empty());
            return Some(Vec::new());
        },
    };
    if is_null(value) {
        assert(texts(Seq::<String>::empty()) =~= Seq::<Seq<char>>::empty());
        return Some(Vec::new());
    }
    let items = match as_array(value) {
        Some(items) => items,
        None => {
            return None;
        },
    };
    let mut tags: Vec<String> = Vec::new();
    let mut i: usize = 0;
    while i < items.len()
        invariant
            i <= items.len(),
            tags.len() == i,
            shape(*value) == Tree::List(shapes(items@)),
            found == Some(value),
            !(shape(*value) is Null),
            forall|j: int| 0 <= j < i ==> shapes(items@)[j] == Tree::Text(#[trigger] tags@[j]@),
        decreases items.len() - i,
    {
        match as_str(&items[i]) {
            Some(tag) => {
                tags.push(String::from_str(tag));
            },
            None => {
                assert(!(shapes(items@)[i as int] is Text));
                return None;
            },
        }
        i = i + 1;
    }
    proof {
        let trees = shapes(items@);
        assert forall|j: int| 0 <= j < trees.len() implies trees[j] is Text by {
            assert(trees[j] == Tree::Text(tags@[j]@));
        }
        assert(trees.map_values(|item: Tree| text_of(item)) =~= texts(tags@)) by {
            assert forall|j: int| 0 <= j < trees.len() implies text_of(trees[j]) == tags@[j]@ by {
                assert(trees[j] == Tree::Text(tags@[j]@));
            }
        }
    }
    Some(tags)
}

/// Reads a task's notes from its `notes` member. The outer `None` is a
/// member that gives no notes at all, not even absent ones.
fn decode_notes(found: Option<&serde_json::Value>) -> (r: Option<Option<String>>)
    ensures
        match r {
            Some(notes) => notes_from(found_shape(found)) == Some(optional_text(notes)),
            None => notes_from(found_shape(found)) is None,
        },
{
    match found {
        Some(value) => if is_null(value) {
            Some(None)
        } else {
            match as_str(value) {
                Some(notes) => Some(Some(String::from_str(notes))),
                None => None,
            }
        },
        None => Some(None),
    }
}

/// Reads a task from a JSON value. There is none where the value is no
/// object, or a member that a task needs is missing or of the wrong kind.
pub fn decode_task(value: &serde_json::Value) -> (r: Option<Task>)
    ensures
        match r {
            Some(task) => task_of(shape(*value)) == Some(task@),
            None => task_of(shape(*value)) is None,
        },
{
    let name = match decode_name(member(value, "name")) {
        Some(name) => name,
        None => {
            return None;
        },
    };
    let state = match decode_state(member(value, "state")) {
        Some(state) => state,
        None => {
            return None;
        },
    };
    let tags = match decode_tags(member(value, "tags")) {
        Some(tags) => tags,
        None => {
            return None;
        },
    };
    let notes = match decode_notes(member(value, "notes")) {
        Some(notes) => notes,
        None => {
            return None;
        },
    };
    let created_at = match member(value, "creted_at") {
        Some(found) => match as_i64(found) {
            Some(seconds) => seconds,
            None => {
                return None;
            },
        },
        None => {
            return None;
        },
    };
    Task::restore(name, state, tags, notes, created_at)
}

/// Reads the tasks of a journal from a JSON value, in the order of the
/// document. There are none where the value is no array, or one of its items
/// gives no task.
pub fn decode(value: &serde_json::Value) -> (r: Option<Vec<Task>>)
    ensures
        match r {
            Some(tasks) => journal_of(shape(*value)) == Some(views(tasks@)),
            None => journal_of(shape(*value)) is None,
        },
{
    let items = match as_array(value) {
        Some(items) => items,
        None => {
            return None;
        },
    };
    let mut tasks: Vec<Task> = Vec::new();
    let mut i: usize = 0;
    while i < items.len()
        invariant
            i <= items.len(),
            tasks.len() == i,
            shape(*value) == Tree::List(shapes(items@)),
            forall|j: int| 0 <= j < i ==> task_of(shapes(items@)[j]) == Some(#[trigger] tasks@[j]@),
        decreases items.len() - i,
    {
        match decode_task(&items[i]) {
            Some(task) => {
                tasks.push(task);
            },
            None => {
                assert(task_of(shapes(items@)[i as int]) is None);
                return None;
            },
        }
        i = i + 1;
    }
    proof {
        let trees = shapes(items@);
        assert forall|j: int| 0 <= j < trees.len() implies task_of(trees[j]) is Some by {
            assert(task_of(trees[j]) == Some(tasks@[j]@));
        }
        assert(trees.map_values(|item: Tree| task_of(item).unwrap()) =~= views(tasks@)) by {
            assert forall|j: int| 0 <= j < trees.len() implies task_of(trees[j]).unwrap()
                == tasks@[j]@ by {
                assert(task_of(trees[j]) == Some(tasks@[j]@));
            }
        }
    }
    Some(tasks)
}


/// The label that a state is written under.
fn label(state: State) -> (r: &'static str)
    ensures
        r@ == state_label(state),
{
    match state {
        State::Active => "Active",
        State::Complete => "Complete",
    }
}

/// Writes a task as a JSON value: an object with one member for each part.
pub fn encode_task(task: &Task) -> (r: serde_json::Value)
    ensures
        shape(r) == tree_of_task(task@),
        task_of(shape(r)) == Some(task@),
{
    let source = task.tags();
    let mut tags: Vec<serde_json::Value> = Vec::new();
    let mut i: usize = 0;
    while i < source.len()
        invariant
            i <= source.len(),
            tags.len() == i,
            forall|j: int| 0 <= j < i ==> shape(#[trigger] tags@[j]) == Tree::Text(source@[j]@),
        decreases source.len() - i,
    {
        tags.push(text(source[i].clone()));
        i = i + 1;
    }
    assert(shapes(tags@) =~= task@.tags.map_values(|tag: Seq<char>| Tree::Text(tag))) by {
        assert(texts(source@) == task@.tags);
        assert forall|j: int| 0 <= j < tags.len() implies shapes(tags@)[j] == Tree::Text(
            task@.tags[j],
        ) by {
            assert(shape(tags@[j]) == Tree::Text(source@[j]@));
            assert(texts(source@)[j] == source@[j]@);
        }
    }
    let notes = match task.notes() {
        Some(notes) => text(notes.clone()),
        None => null(),
    };

    let mut inner: Vec<(String, serde_json::Value)> = Vec::new();
    let ghost m0 = Map::<Seq<char>, Tree>::empty();
    assert(members(inner@) == m0);
    let ghost before = inner@;
    inner.push((String::from_str("type"), text(String::from_str(label(task.state())))));
    assert(inner@.drop_last() =~= before);
    assert(members(inner@) == m0.insert("type"@, Tree::Text(state_label(task@.state))));
    let state = record(inner);

    let mut pairs: Vec<(String, serde_json::Value)> = Vec::new();
    assert(members(pairs@) == m0);
    let ghost before = pairs@;
    pairs.push((String::from_str("name"), text(task.name().clone())));
    assert(pairs@.drop_last() =~= before);
    let ghost m1 = m0.insert("name"@, Tree::Text(task@.name));
    assert(members(pairs@) == m1);
    let ghost before = pairs@;
    pairs.push((String::from_str("state"), state));
    assert(pairs@.drop_last() =~= before);
    let ghost m2 = m1.insert(
        "state"@,
        Tree::Record(m0.insert("type"@, Tree::Text(state_label(task@.state)))),
    );
    assert(members(pairs@) == m2);
    let ghost before = pairs@;
    pairs.push((String::from_str("tags"), list(tags)));
    assert(pairs@.drop_last() =~= before);
    let ghost m3 = m2.insert(
        "tags"@,
        Tree::List(task@.tags.map_values(|tag: Seq<char>| Tree::Text(tag))),
    );
    assert(members(pairs@) == m3);
    let ghost before = pairs@;
    pairs.push((String::from_str("notes"), notes));
    assert(pairs@.drop_last() =~= before);
    let ghost m4 = m3.insert(
        "notes"@,
        match task@.notes {
            Some(notes) => Tree::Text(notes),
            None => Tree::Null,
        },
    );
    assert(members(pairs@) == m4);
    let ghost before = pairs@;
    pairs.push((String::from_str("creted_at"), integer(task.created_at())));
    assert(pairs@.drop_last() =~= before);
    assert(members(pairs@) == m4.insert("creted_at"@, Tree::Integer(task@.created_at as int)));
    proof {
        lemma_keys_differ();
        lemma_task_round_trip(task@);
    }
    record(pairs)
}

/// Writes a run of tasks as a JSON value: the array of the tasks' objects,
/// in the order of the run. A document so written is read back as the same
/// tasks.
pub fn encode(tasks: &Vec<Task>) -> (r: serde_json::Value)
    ensures
        shape(r) == tree_of_journal(views(tasks@)),
        journal_of(shape(r)) == Some(views(tasks@)),
{
    let mut items: Vec<serde_json::Value> = Vec::new();
    let mut i: usize = 0;
    while i < tasks.len()
        invariant
            i <= tasks.len(),
            items.len() == i,
            forall|j: int| 0 <= j < i ==> shape(#[trigger] items@[j]) == tree_of_task(tasks@[j]@),
            forall|j: int| 0 <= j < i ==> task_of(shape(#[trigger] items@[j])) == Some(tasks@[j]@),
        decreases tasks.len() - i,
    {
        items.push(encode_task(&tasks[i]));
        i = i + 1;
    }
    proof {
        let trees = shapes(items@);
        assert(trees =~= views(tasks@).map_values(|task: TaskView| tree_of_task(task)));
        assert forall|j: int| 0 <= j < trees.len() implies task_of(trees[j]) is Some by {
            assert(task_of(shape(items@[j])) == Some(tasks@[j]@));
        }
        assert(trees.map_values(|item: Tree| task_of(item).unwrap()) =~= views(tasks@)) by {
            assert forall|j: int| 0 <= j < trees.len() implies task_of(trees[j]).unwrap()
                == tasks@[j]@ by {
                assert(task_of(shape(items@[j])) == Some(tasks@[j]@));
            }
        }
    }
    list(items)
}


} // verus!
