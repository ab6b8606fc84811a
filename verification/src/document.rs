//! The BSON documents that the service sends: the liveness command and the
//! record that the test-write endpoint stores.

use vstd::prelude::*;
use mongodb::bson::Document;

verus! {

/// Key of the liveness command.
pub const PING_FIELD: &'static str = "ping";

/// Key of the record's text field.
pub const MESSAGE_FIELD: &'static str = "message";

/// Key of the record's time field.
pub const TIMESTAMP_FIELD: &'static str = "timestamp";

/// The text that every test record carries.
pub const TEST_MESSAGE: &'static str = "Hello from Rust backend!";

/// `mongodb::bson::Document`, an insertion-ordered map from field names to
/// BSON values. Verus sees nothing inside it; [`document_fields`] names what
/// it holds.
#[verifier::external_type_specification]
#[verifier::external_body]
pub struct ExDocument(mongodb::bson::Document);

/// A field's value, as far as this library writes values: a string, a UTC
/// time in milliseconds since the Unix epoch, or a 32-bit integer.
pub enum FieldValue {
    Text(Seq<char>),
    DateTime(i64),
    Int32(i32),
}

/// The fields of a document in the order in which they are stored, each with
/// its key.
pub uninterp spec fn document_fields(doc: Document) -> Seq<(Seq<char>, FieldValue)>;

/// Whether some field of `fields` has the key `key`.
pub open spec fn has_field(fields: Seq<(Seq<char>, FieldValue)>, key: Seq<char>) -> bool {
    exists|i: int| 0 <= i < fields.len() && (#[trigger] fields[i]).0 == key
}

/// `fields` after `key` was set to `value`: a field with that key keeps its
/// place and takes the value, a new key goes to the end.
pub open spec fn with_field(
    fields: Seq<(Seq<char>, FieldValue)>,
    key: Seq<char>,
    value: FieldValue,
) -> Seq<(Seq<char>, FieldValue)> {
    if has_field(fields, key) {
        Seq::new(fields.len(), |i: int| if fields[i].0 == key { (key, value) } else { fields[i] })
    } else {
        fields.push((key, value))
    }
}

/// The fields of the liveness command.
pub open spec fn ping_fields() -> Seq<(Seq<char>, FieldValue)> {
    seq![(PING_FIELD@, FieldValue::Int32(1))]
}

/// The fields of a test record written at `timestamp_millis`.
pub open spec fn test_record_fields(timestamp_millis: i64) -> Seq<(Seq<char>, FieldValue)> {
    seq![
        (MESSAGE_FIELD@, FieldValue::Text(TEST_MESSAGE@)),
        (TIMESTAMP_FIELD@, FieldValue::DateTime(timestamp_millis)),
    ]
}

/// Calls `Document::new`. Trusted: the new document has no fields.
#[verifier::external_body]
fn empty_document() -> (doc: Document)
    ensures
        document_fields(doc) == Seq::<(Seq<char>, FieldValue)>::empty(),
{
    Document::new()
}

/// Calls `Document::insert` with a `&str` value, which is stored as a BSON
/// string. Trusted: the document then holds the key with that string, in the
/// key's old place if it had one and at the end otherwise; no other field
/// changes.
#[verifier::external_body]
fn insert_text(doc: &mut Document, key: &str, value: &str)
    ensures
        document_fields(*final(doc)) == with_field(
            document_fields(*old(doc)),
            key@,
            FieldValue::Text(value@),
        ),
{
    doc.insert(key, value);
}

/// Calls `Document::insert` with the value `DateTime::from_millis(millis)`,
/// which is stored as a BSON time. Trusted: as for a string, with that time
/// as the value.
#[verifier::external_body]
fn insert_datetime(doc: &mut Document, key: &str, millis: i64)
    ensures
        document_fields(*final(doc)) == with_field(
            document_fields(*old(doc)),
            key@,
            FieldValue::DateTime(millis),
        ),
{
    doc.insert(key, mongodb::bson::DateTime::from_millis(millis));
}

/// Calls `Document::insert` with an `i32` value, which is stored as a BSON
/// 32-bit integer. Trusted: as for a string, with that number as the value.
#[verifier::external_body]
fn insert_int32(doc: &mut Document, key: &str, value: i32)
    ensures
        document_fields(*final(doc)) == with_field(
            document_fields(*old(doc)),
            key@,
            FieldValue::Int32(value),
        ),
{
    doc.insert(key, value);
}

/// Calls `DateTime::now` and reads the result's milliseconds since the Unix
/// epoch with `DateTime::timestamp_millis`. Nothing is promised of the clock.
#[verifier::external_body]
fn now_millis() -> i64 {
    mongodb::bson::DateTime::now().timestamp_millis()
}

/// The command that asks the database whether it is there: `{ ping: 1 }`.
pub fn ping_command() -> (doc: Document)
    ensures
        document_fields(doc) == ping_fields(),
{
    let mut doc = empty_document();
    insert_int32(&mut doc, PING_FIELD, 1);
    assert(document_fields(doc) =~= ping_fields());
    doc
}

/// The test record for a write at `timestamp_millis`: the fixed message, then
/// the time.
pub fn test_document(timestamp_millis: i64) -> (doc: Document)
    ensures
        document_fields(doc) == test_record_fields(timestamp_millis),
{
    let mut doc = empty_document();
    insert_text(&mut doc, MESSAGE_FIELD, TEST_MESSAGE);
    proof {
        // The two keys differ, so the time goes behind the message.
        reveal_strlit("message");
        reveal_strlit("timestamp");
        assert(MESSAGE_FIELD@.len() != TIMESTAMP_FIELD@.len());
        assert(document_fields(doc) =~= seq![(MESSAGE_FIELD@, FieldValue::Text(TEST_MESSAGE@))]);
        assert(!has_field(document_fields(doc), TIMESTAMP_FIELD@));
    }
    insert_datetime(&mut doc, TIMESTAMP_FIELD, timestamp_millis);
    assert(document_fields(doc) =~= test_record_fields(timestamp_millis));
    doc
}

/// The test record for a write now. Whatever the clock says, the record is
/// the fixed message followed by one time.
pub fn new_test_document() -> (doc: Document)
    ensures
        exists|t: i64| document_fields(doc) == test_record_fields(t),
{
    let t: i64 = now_millis();
    test_document(t)
}

/// Every test record carries the same message field, and two records are the
/// same exactly when they were written at the same time: one write leaves
/// nothing in the record of another.
pub proof fn records_differ_only_in_time(a: i64, b: i64)
    ensures
        test_record_fields(a)[0] == test_record_fields(b)[0],
        test_record_fields(a) == test_record_fields(b) <==> a == b,
{
    if a != b {
        assert(test_record_fields(a)[1].1 != test_record_fields(b)[1].1);
    }
}

} // verus!
