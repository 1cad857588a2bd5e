use rusty_journal::codec::{decode, decode_task, encode, encode_task};
use rusty_journal::journal::{load, persist, JournalError};
use rusty_journal::task::{State, Task};

fn task(name: &str, tags: &[&str], notes: Option<&str>, created_at: i64) -> Task {
    Task::restore(
        name.to_string(),
        State::Active,
        tags.iter().map(|tag| tag.to_string()).collect(),
        notes.map(|text| text.to_string()),
        created_at,
    )
    .unwrap()
}

fn same(a: &Task, b: &Task) -> bool {
    a == b
        && a.name() == b.name()
        && a.state() == b.state()
        && a.tags() == b.tags()
        && a.notes() == b.notes()
        && a.created_at() == b.created_at()
}

#[test]
fn journal_round_trips_through_bytes() {
    let tasks = vec![
        task("buy milk", &["errand", "home"], None, 1_700_000_000),
        task("write \"report\"\n", &[], Some("due friday \u{1F600}"), 0),
        task("", &["", "a b"], Some(""), -86_400),
    ];
    let bytes = persist(&tasks).unwrap();
    let back = load(&bytes).unwrap();
    assert_eq!(back.len(), 3);
    for (a, b) in tasks.iter().zip(back.iter()) {
        assert!(same(a, b));
    }
}

#[test]
fn empty_journal_round_trips() {
    let bytes = persist(&Vec::new()).unwrap();
    assert_eq!(bytes, b"[]".to_vec());
    assert!(load(&bytes).unwrap().is_empty());
}

#[test]
fn completed_task_round_trips() {
    let done = Task::restore("done".to_string(), State::Complete, Vec::new(), None, 5).unwrap();
    let back = load(&persist(&vec![done]).unwrap()).unwrap();
    assert_eq!(back[0].state(), State::Complete);
    assert_eq!(back[0].name(), "done");
}

#[test]
fn journal_is_written_as_an_array_of_objects() {
    let tasks = vec![task("buy milk", &["errand"], None, 1_700_000_000)];
    let bytes = persist(&tasks).unwrap();
    assert_eq!(
        String::from_utf8(bytes).unwrap(),
        "[{\"creted_at\":1700000000,\"name\":\"buy milk\",\"notes\":null,\
         \"state\":{\"type\":\"Active\"},\"tags\":[\"errand\"]}]"
    );
}

#[test]
fn notes_are_written_as_a_string() {
    let tasks = vec![task("a", &[], Some("b"), -1)];
    let bytes = persist(&tasks).unwrap();
    assert_eq!(
        String::from_utf8(bytes).unwrap(),
        "[{\"creted_at\":-1,\"name\":\"a\",\"notes\":\"b\",\"state\":{\"type\":\"Active\"},\"tags\":[]}]"
    );
}

#[test]
fn encoded_task_holds_each_part() {
    let value = encode_task(&task("buy milk", &["errand", "home"], Some("2 l"), 42));
    assert_eq!(value["name"].as_str(), Some("buy milk"));
    assert_eq!(value["state"]["type"].as_str(), Some("Active"));
    assert_eq!(value["tags"].as_array().unwrap().len(), 2);
    assert_eq!(value["tags"][0].as_str(), Some("errand"));
    assert_eq!(value["tags"][1].as_str(), Some("home"));
    assert_eq!(value["notes"].as_str(), Some("2 l"));
    assert_eq!(value["creted_at"].as_i64(), Some(42));
    assert_eq!(value.as_object().unwrap().len(), 5);
    assert_eq!(value["state"].as_object().unwrap().len(), 1);
}

#[test]
fn encoded_task_without_notes_holds_null() {
    let value = encode_task(&task("x", &[], None, 1));
    assert!(value["notes"].is_null());
    assert!(value.as_object().unwrap().contains_key("notes"));
    assert!(value["tags"].as_array().unwrap().is_empty());
}

#[test]
fn encoded_journal_keeps_the_order() {
    let value = encode(&vec![task("one", &[], None, 1), task("two", &[], None, 2)]);
    let items = value.as_array().unwrap();
    assert_eq!(items.len(), 2);
    assert_eq!(items[0]["name"].as_str(), Some("one"));
    assert_eq!(items[1]["name"].as_str(), Some("two"));
}

#[test]
fn decode_reads_what_encode_wrote() {
    let tasks = vec![task("one", &["t"], Some("n"), 1), task("two", &[], None, 2)];
    let back = decode(&encode(&tasks)).unwrap();
    assert_eq!(back.len(), 2);
    assert!(same(&tasks[0], &back[0]));
    assert!(same(&tasks[1], &back[1]));
}

#[test]
fn decode_task_reads_every_member() {
    let value: serde_json::Value = serde_json::from_str(
        "{\"name\":\"n\",\"state\":{\"type\":\"Complete\"},\"tags\":[\"a\",\"b\"],\
         \"notes\":\"m\",\"creted_at\":7,\"extra\":1.5}",
    )
    .unwrap();
    let found = decode_task(&value).unwrap();
    assert_eq!(found.name(), "n");
    assert_eq!(found.state(), State::Complete);
    assert_eq!(found.tags(), &vec!["a".to_string(), "b".to_string()]);
    assert_eq!(found.notes(), &Some("m".to_string()));
    assert_eq!(found.created_at(), 7);
}

#[test]
fn decode_refuses_what_is_no_array() {
    for text in ["{}", "null", "1", "\"tasks\"", "true"] {
        let value: serde_json::Value = serde_json::from_str(text).unwrap();
        assert!(decode(&value).is_none(), "{text}");
    }
}

#[test]
fn tags_and_notes_may_be_absent_or_null() {
    let absent = load(b"[{\"name\":\"play\",\"state\":{\"type\":\"Active\"},\"creted_at\":1700000000}]")
        .unwrap();
    assert_eq!(absent.len(), 1);
    assert_eq!(absent[0].name(), "play");
    assert!(absent[0].tags().is_empty());
    assert_eq!(absent[0].notes(), &None);
    assert_eq!(absent[0].created_at(), 1_700_000_000);
    let null = load(
        b"[{\"name\":\"play\",\"state\":{\"type\":\"Active\"},\"tags\":null,\"notes\":null,\"creted_at\":1}]",
    )
    .unwrap();
    assert!(null[0].tags().is_empty());
    assert_eq!(null[0].notes(), &None);
}

#[test]
fn white_space_and_member_order_do_not_matter() {
    let found = load(
        b" [ { \"creted_at\" : 3 ,\n \"tags\" : [ \"x\" ] , \"state\" : { \"type\" : \"Active\" } , \"name\" : \"n\" } ] \n",
    )
    .unwrap();
    assert_eq!(found.len(), 1);
    assert_eq!(found[0].name(), "n");
    assert_eq!(found[0].tags(), &vec!["x".to_string()]);
    assert_eq!(found[0].created_at(), 3);
}

fn refused(text: &str) {
    assert_eq!(load(text.as_bytes()).err(), Some(JournalError::Decode), "{text}");
}

#[test]
fn malformed_json_is_refused() {
    refused("[");
    refused("[{\"name\"");
    refused("not json");
    refused("[1, 2,]");
    refused("[] []");
    refused("[{\"name\":\"a\",\"state\":{\"type\":\"Active\"},\"creted_at\":1}");
}

#[test]
fn bytes_that_are_no_text_are_refused() {
    assert_eq!(load(&[0xff, 0xfe]).err(), Some(JournalError::Decode));
    assert_eq!(load(b"[\"\xff\"]").err(), Some(JournalError::Decode));
}

#[test]
fn documents_of_the_wrong_shape_are_refused() {
    refused("{}");
    refused("null");
    refused("[1]");
    refused("[[]]");
    refused("[null]");
    refused("[{}]");
}

#[test]
fn a_task_needs_a_name() {
    refused("[{\"state\":{\"type\":\"Active\"},\"creted_at\":1}]");
    refused("[{\"name\":1,\"state\":{\"type\":\"Active\"},\"creted_at\":1}]");
    refused("[{\"name\":null,\"state\":{\"type\":\"Active\"},\"creted_at\":1}]");
}

#[test]
fn a_task_needs_a_known_state() {
    refused("[{\"name\":\"a\",\"creted_at\":1}]");
    refused("[{\"name\":\"a\",\"state\":\"Active\",\"creted_at\":1}]");
    refused("[{\"name\":\"a\",\"state\":{},\"creted_at\":1}]");
    refused("[{\"name\":\"a\",\"state\":{\"type\":\"Done\"},\"creted_at\":1}]");
    refused("[{\"name\":\"a\",\"state\":{\"type\":\"active\"},\"creted_at\":1}]");
    refused("[{\"name\":\"a\",\"state\":{\"type\":1},\"creted_at\":1}]");
}

#[test]
fn tags_must_be_strings() {
    refused("[{\"name\":\"a\",\"state\":{\"type\":\"Active\"},\"tags\":\"x\",\"creted_at\":1}]");
    refused("[{\"name\":\"a\",\"state\":{\"type\":\"Active\"},\"tags\":[\"x\",1],\"creted_at\":1}]");
    refused("[{\"name\":\"a\",\"state\":{\"type\":\"Active\"},\"tags\":{},\"creted_at\":1}]");
}

#[test]
fn notes_must_be_a_string() {
    refused("[{\"name\":\"a\",\"state\":{\"type\":\"Active\"},\"notes\":1,\"creted_at\":1}]");
    refused("[{\"name\":\"a\",\"state\":{\"type\":\"Active\"},\"notes\":[],\"creted_at\":1}]");
}

#[test]
fn the_instant_must_be_whole_seconds_in_range() {
    refused("[{\"name\":\"a\",\"state\":{\"type\":\"Active\"}}]");
    refused("[{\"name\":\"a\",\"state\":{\"type\":\"Active\"},\"creted_at\":1.5}]");
    refused("[{\"name\":\"a\",\"state\":{\"type\":\"Active\"},\"creted_at\":\"1\"}]");
    refused("[{\"name\":\"a\",\"state\":{\"type\":\"Active\"},\"creted_at\":null}]");
    refused("[{\"name\":\"a\",\"state\":{\"type\":\"Active\"},\"creted_at\":9223372036854775807}]");
    refused("[{\"name\":\"a\",\"state\":{\"type\":\"Active\"},\"creted_at\":18446744073709551615}]");
    refused("[{\"name\":\"a\",\"state\":{\"type\":\"Active\"},\"creted_at\":-9223372036854775808}]");
}

#[test]
fn one_bad_task_refuses_the_journal() {
    refused(
        "[{\"name\":\"a\",\"state\":{\"type\":\"Active\"},\"creted_at\":1},\
          {\"name\":\"b\",\"creted_at\":2}]",
    );
}
