//! The JSON documents of the journal, as `serde_json` reads and writes them.
//!
//! A document is held as a `serde_json::Value`. Verus sees nothing inside
//! such a value, so its contents are named by [`shape`], a tree of plain
//! values, and every call into `serde_json` is stated over that tree. The
//! functions of this module are believed rather than proved: each makes one
//! call and says what the call is taken to do.

use vstd::prelude::*;

verus! {

/// What a JSON value holds.
pub enum Tree {
    Null,
    Bool(bool),
    /// A number that `serde_json` keeps as an integer.
    Integer(int),
    /// Any other number, by the bit pattern of the 64-bit float that holds it.
    Decimal(int),
    Text(Seq<char>),
    List(Seq<Tree>),
    Record(Map<Seq<char>, Tree>),
}

#[verifier::external_type_specification]
#[verifier::external_body]
pub struct ExValue(serde_json::Value);

#[verifier::external_type_specification]
#[verifier::external_body]
pub struct ExError(serde_json::Error);

/// The contents of a `serde_json::Value`.
pub uninterp spec fn shape(value: serde_json::Value) -> Tree;

/// The document that `serde_json::from_slice` reads from a run of bytes, if
/// it accepts them.
pub uninterp spec fn parsed(bytes: Seq<u8>) -> Option<Tree>;

/// The bytes that `serde_json::to_vec` writes for a document, if it writes
/// any.
pub uninterp spec fn printed(tree: Tree) -> Option<Seq<u8>>;

/// The trees of a run of values, one for one.
pub open spec fn shapes(values: Seq<serde_json::Value>) -> Seq<Tree> {
    values.map_values(|value: serde_json::Value| shape(value))
}

/// The members of an object built from pairs of key and value, each pair
/// set in turn.
pub open spec fn members(pairs: Seq<(String, serde_json::Value)>) -> Map<Seq<char>, Tree>
    decreases pairs.len(),
{
    if pairs.len() == 0 {
        Map::empty()
    } else {
        members(pairs.drop_last()).insert(pairs.last().0@, shape(pairs.last().1))
    }
}

/// No key occurs twice among the pairs.
pub open spec fn distinct_keys(pairs: Seq<(String, serde_json::Value)>) -> bool {
    forall|i: int, j: int| 0 <= i < j < pairs.len() ==> pairs[i].0@ != pairs[j].0@
}

/// The integer that `as_i64` finds in a value: the value is a number kept as
/// an integer, and it fits.
pub open spec fn whole(tree: Tree) -> Option<i64> {
    match tree {
        Tree::Integer(n) if i64::MIN <= n <= i64::MAX => Some(n as i64),
        _ => None,
    }
}

/// `serde_json::from_slice` at type `Value`: reads the bytes as one JSON
/// document. It succeeds exactly where [`parsed`] has a document, and the
/// value then holds that document.
#[verifier::external_body]
pub(crate) fn parse(bytes: &[u8]) -> (r: Result<serde_json::Value, serde_json::Error>)
    ensures
        match r {
            Ok(value) => parsed(bytes@) == Some(shape(value)),
            Err(_) => parsed(bytes@) is None,
        },
{
    serde_json::from_slice::<serde_json::Value>(bytes)
}

/// `serde_json::to_vec` on a `Value`: writes the document as bytes. It
/// succeeds exactly where [`printed`] has bytes for the document, and returns
/// those.
#[verifier::external_body]
pub(crate) fn print(value: &serde_json::Value) -> (r: Result<Vec<u8>, serde_json::Error>)
    ensures
        match r {
            Ok(bytes) => printed(shape(*value)) == Some(bytes@),
            Err(_) => printed(shape(*value)) is None,
        },
{
    serde_json::to_vec(value)
}

/// `Value::as_array`: the items of an array, and `None` for any other value.
#[verifier::external_body]
pub(crate) fn as_array(value: &serde_json::Value) -> (r: Option<&Vec<serde_json::Value>>)
    ensures
        match r {
            Some(items) => shape(*value) == Tree::List(shapes(items@)),
            None => !(shape(*value) is List),
        },
{
    value.as_array()
}

/// `Value::get` with a string key: the member of an object under that key,
/// and `None` where the value is no object or has no such member.
#[verifier::external_body]
pub(crate) fn member<'a>(value: &'a serde_json::Value, key: &str) -> (r: Option<&'a serde_json::Value>)
    ensures
        match r {
            Some(found) => shape(*value) matches Tree::Record(fields)
                && fields.contains_key(key@) && fields[key@] == shape(*found),
            None => !(shape(*value) matches Tree::Record(fields) && fields.contains_key(key@)),
        },
{
    value.get(key)
}

/// `Value::as_str`: the text of a string, and `None` for any other value.
#[verifier::external_body]
pub(crate) fn as_str(value: &serde_json::Value) -> (r: Option<&str>)
    ensures
        match r {
            Some(text) => shape(*value) == Tree::Text(text@),
            None => !(shape(*value) is Text),
        },
{
    value.as_str()
}

/// `Value::as_i64`: the number, where the value is an integer that fits in
/// 64 bits with a sign, and `None` for any other value.
#[verifier::external_body]
pub(crate) fn as_i64(value: &serde_json::Value) -> (r: Option<i64>)
    ensures
        r == whole(shape(*value)),
{
    value.as_i64()
}

/// `Value::is_null`: whether the value is `null`.
#[verifier::external_body]
pub(crate) fn is_null(value: &serde_json::Value) -> (r: bool)
    ensures
        r == (shape(*value) is Null),
{
    value.is_null()
}

/// `Value::Null`: the value `null`.
#[verifier::external_body]
pub(crate) fn null() -> (r: serde_json::Value)
    ensures
        shape(r) == Tree::Null,
{
    serde_json::Value::Null
}

/// `Value::String`: the string with the given text.
#[verifier::external_body]
pub(crate) fn text(content: String) -> (r: serde_json::Value)
    ensures
        shape(r) == Tree::Text(content@),
{
    serde_json::Value::String(content)
}

/// `Value::from` on an `i64`: the number, kept as an integer.
#[verifier::external_body]
pub(crate) fn integer(n: i64) -> (r: serde_json::Value)
    ensures
        shape(r) == Tree::Integer(n as int),
{
    serde_json::Value::from(n)
}

/// `Value::Array`: the array of the given items, in their order.
#[verifier::external_body]
pub(crate) fn list(items: Vec<serde_json::Value>) -> (r: serde_json::Value)
    ensures
        shape(r) == Tree::List(shapes(items@)),
{
    serde_json::Value::Array(items)
}

/// `Value::Object` on the map collected from pairs of key and value: the
/// object with one member for each pair. The keys must differ, since
/// collecting into a map does not say which of two equal keys it keeps.
#[verifier::external_body]
pub(crate) fn record(pairs: Vec<(String, serde_json::Value)>) -> (r: serde_json::Value)
    requires
        distinct_keys(pairs@),
    ensures
        shape(r) == Tree::Record(members(pairs@)),
{
    serde_json::Value::Object(pairs.into_iter().collect())
}

} // verus!
