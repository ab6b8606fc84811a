//! How a test write ended, and the text that tells the caller so.

use vstd::prelude::*;
use vstd::string::StringExecFns;
use mongodb::bson::oid::ObjectId;
use mongodb::bson::Bson;

verus! {

/// What a reply starts with when the record was stored.
pub const INSERTED_PREFIX: &'static str = "Inserted document with ID: ";

/// What a reply starts with when the write failed.
pub const FAILED_PREFIX: &'static str = "Failed to insert: ";

/// The sixteen digits of lower-case hexadecimal, in order.
pub const HEX_DIGITS: &'static str = "0123456789abcdef";

/// The identifier that the store gave to an inserted record.
#[derive(Debug, PartialEq, Eq)]
pub enum InsertedId {
    /// A twelve-byte object identifier: what the driver assigns to a record
    /// that brings no identifier of its own.
    ObjectId([u8; 12]),
    /// Any other BSON value, held as its debug rendering.
    Other(String),
}

/// The end of one test write.
#[derive(Debug, PartialEq, Eq)]
pub enum InsertOutcome {
    /// The record was stored under this identifier.
    Inserted(InsertedId),
    /// The write failed; the string is the driver's description of the error.
    Failed(String),
}

impl Clone for InsertedId {
    fn clone(&self) -> (copy: InsertedId)
        ensures
            copy == *self,
    {
        match self {
            InsertedId::ObjectId(bytes) => InsertedId::ObjectId(*bytes),
            InsertedId::Other(rendered) => InsertedId::Other(rendered.clone()),
        }
    }
}

impl Clone for InsertOutcome {
    fn clone(&self) -> (copy: InsertOutcome)
        ensures
            copy == *self,
    {
        match self {
            InsertOutcome::Inserted(id) => InsertOutcome::Inserted(id.clone()),
            InsertOutcome::Failed(error) => InsertOutcome::Failed(error.clone()),
        }
    }
}

/// Lower-case hexadecimal of `bytes`, two digits for each byte, the high
/// half first.
pub open spec fn hex_text(bytes: Seq<u8>) -> Seq<char>
    decreases bytes.len(),
{
    if bytes.len() == 0 {
        Seq::<char>::empty()
    } else {
        let byte: int = bytes.last() as int;
        hex_text(bytes.drop_last()).push(HEX_DIGITS@[byte / 16]).push(HEX_DIGITS@[byte % 16])
    }
}

/// The debug rendering of the object identifier made of `bytes`: the word
/// `ObjectId`, and in round brackets and double quotes the bytes in
/// hexadecimal.
pub open spec fn object_id_text(bytes: Seq<u8>) -> Seq<char> {
    "ObjectId(\""@ + hex_text(bytes) + "\")"@
}

/// Formats `Bson::ObjectId(ObjectId::from_bytes(bytes))` with `{:?}`.
/// Trusted: the result is `ObjectId("..")` around the lower-case hexadecimal
/// of the twelve bytes.
#[verifier::external_body]
fn object_id_debug(bytes: &[u8; 12]) -> (text: String)
    ensures
        text@ == object_id_text(bytes@),
{
    format!("{:?}", Bson::ObjectId(ObjectId::from_bytes(*bytes)))
}

impl InsertedId {
    /// The identifier as the reply shows it.
    pub open spec fn text(self) -> Seq<char> {
        match self {
            InsertedId::ObjectId(bytes) => object_id_text(bytes@),
            InsertedId::Other(rendered) => rendered@,
        }
    }

    /// Renders the identifier as the reply shows it.
    pub fn render(&self) -> (text: String)
        ensures
            text@ == self.text(),
    {
        match self {
            InsertedId::ObjectId(bytes) => object_id_debug(bytes),
            InsertedId::Other(rendered) => rendered.clone(),
        }
    }
}

impl InsertOutcome {
    /// The reply's text for this outcome.
    pub open spec fn body(self) -> Seq<char> {
        match self {
            InsertOutcome::Inserted(id) => INSERTED_PREFIX@ + id.text(),
            InsertOutcome::Failed(error) => FAILED_PREFIX@ + error@,
        }
    }

    /// Writes the reply's text for this outcome: the identifier behind
    /// [`INSERTED_PREFIX`], or the error's description behind
    /// [`FAILED_PREFIX`].
    pub fn render(&self) -> (text: String)
        ensures
            text@ == self.body(),
    {
        match self {
            InsertOutcome::Inserted(id) => {
                let id_text = id.render();
                String::from_str(INSERTED_PREFIX).concat(id_text.as_str())
            },
            InsertOutcome::Failed(error) => {
                String::from_str(FAILED_PREFIX).concat(error.as_str())
            },
        }
    }
}

/// No two of the sixteen digits are the same character.
proof fn hex_digits_differ(i: int, j: int)
    requires
        0 <= i < 16,
        0 <= j < 16,
        HEX_DIGITS@[i] == HEX_DIGITS@[j],
    ensures
        i == j,
{
    reveal_strlit("0123456789abcdef");
}

/// Hexadecimal takes two characters for each byte.
pub proof fn hex_text_len(bytes: Seq<u8>)
    ensures
        hex_text(bytes).len() == 2 * bytes.len(),
    decreases bytes.len(),
{
    if bytes.len() > 0 {
        hex_text_len(bytes.drop_last());
    }
}

/// Hexadecimal loses nothing: byte strings with the same hexadecimal text
/// are the same byte string.
pub proof fn hex_text_is_injective(a: Seq<u8>, b: Seq<u8>)
    requires
        hex_text(a) == hex_text(b),
    ensures
        a == b,
    decreases a.len(),
{
    hex_text_len(a);
    hex_text_len(b);
    if a.len() > 0 {
        let (x, y) = (a.last() as int, b.last() as int);
        let (head_a, head_b) = (hex_text(a.drop_last()), hex_text(b.drop_last()));
        hex_text_len(a.drop_last());
        hex_text_len(b.drop_last());
        let n = head_a.len() as int;
        assert(hex_text(a)[n] == HEX_DIGITS@[x / 16]);
        assert(hex_text(b)[n] == HEX_DIGITS@[y / 16]);
        assert(hex_text(a)[n + 1] == HEX_DIGITS@[x % 16]);
        assert(hex_text(b)[n + 1] == HEX_DIGITS@[y % 16]);
        hex_digits_differ(x / 16, y / 16);
        hex_digits_differ(x % 16, y % 16);
        assert(head_a =~= hex_text(a).subrange(0, n));
        assert(head_b =~= hex_text(b).subrange(0, n));
        hex_text_is_injective(a.drop_last(), b.drop_last());
        assert(a =~= a.drop_last().push(a.last()));
        assert(b =~= b.drop_last().push(b.last()));
    } else {
        assert(a =~= b);
    }
}

/// Object identifiers that render alike are the same identifier.
pub proof fn object_id_text_is_injective(a: Seq<u8>, b: Seq<u8>)
    requires
        object_id_text(a) == object_id_text(b),
    ensures
        a == b,
{
    let open = "ObjectId(\""@;
    let close = "\")"@;
    let (ha, hb) = (hex_text(a), hex_text(b));
    let n = open.len() as int;
    assert(object_id_text(a).len() == n + ha.len() + close.len());
    assert(object_id_text(b).len() == n + hb.len() + close.len());
    assert(ha =~= object_id_text(a).subrange(n, n + ha.len()));
    assert(hb =~= object_id_text(b).subrange(n, n + hb.len()));
    hex_text_is_injective(a, b);
}

/// Two writes that were given different object identifiers are answered
/// with different texts: a caller can tell the records apart by the reply.
pub proof fn distinct_object_ids_distinct_replies(a: [u8; 12], b: [u8; 12])
    requires
        a@ != b@,
    ensures
        InsertOutcome::Inserted(InsertedId::ObjectId(a)).body() != InsertOutcome::Inserted(
            InsertedId::ObjectId(b),
        ).body(),
{
    let (ta, tb) = (object_id_text(a@), object_id_text(b@));
    if INSERTED_PREFIX@ + ta == INSERTED_PREFIX@ + tb {
        let n = INSERTED_PREFIX@.len() as int;
        assert(ta =~= (INSERTED_PREFIX@ + ta).subrange(n, n + ta.len()));
        assert(tb =~= (INSERTED_PREFIX@ + tb).subrange(n, n + tb.len()));
        object_id_text_is_injective(a@, b@);
    }
}

/// A reply to a failed write is never the reply to a stored record: the
/// text alone, which is all the caller gets, tells the two apart.
pub proof fn failure_never_reads_as_success(id: InsertedId, error: String)
    ensures
        InsertOutcome::Inserted(id).body() != InsertOutcome::Failed(error).body(),
{
    reveal_strlit("Inserted document with ID: ");
    reveal_strlit("Failed to insert: ");
    assert(InsertOutcome::Inserted(id).body()[0] == 'I');
    assert(InsertOutcome::Failed(error).body()[0] == 'F');
}

} // verus!
