//! JSON as the endpoints need it: documents of `serde_json` carried through
//! as they are, and arrays framed element by element.

use vstd::prelude::*;

verus! {

/// Makes `serde_json::Value` known as a type whose values are carried
/// through without being looked into.
#[verifier::external_type_specification]
#[verifier::external_body]
pub struct ExValue(serde_json::Value);

/// The compact text of a document, as `serde_json` writes it through
/// `Display`: no white space, the members of an object in the order of their
/// keys.
pub uninterp spec fn json_text(value: serde_json::Value) -> Seq<char>;

/// What `serde_json::from_str` makes of a text: the compact text of the
/// document it decodes, or `None` where it rejects the text.
pub uninterp spec fn json_decoded(text: Seq<char>) -> Option<Seq<char>>;

/// What `json_value_merge::Merge::merge` leaves in its receiver, as compact
/// text, for the receiver before the call and the argument.
pub uninterp spec fn json_merged(base: serde_json::Value, other: serde_json::Value) -> Seq<char>;

/// Calls `serde_json::from_str` for a `serde_json::Value`. The outcome
/// depends on the text alone; an error is turned into `None`.
#[verifier::external_body]
pub(crate) fn decode(text: &str) -> (document: Option<serde_json::Value>)
    ensures
        match document {
            Some(value) => json_decoded(text@) == Some(json_text(value)),
            None => json_decoded(text@) is None,
        },
{
    serde_json::from_str::<serde_json::Value>(text).ok()
}

/// Calls `serde_json::Value::is_null`. `null` is the one document that is
/// written as `null`: a string is written in quotes, and a number of a
/// document is always finite.
#[verifier::external_body]
pub(crate) fn is_null(value: &serde_json::Value) -> (null: bool)
    ensures
        null == (json_text(*value) == "null"@),
{
    value.is_null()
}

/// Calls `json_value_merge::Merge::merge`, which folds `other` into `base`:
/// members of objects are merged key by key, arrays are joined, and anything
/// else is replaced by `other`. The outcome depends on the two documents
/// alone.
#[verifier::external_body]
pub(crate) fn merge(base: &mut serde_json::Value, other: &serde_json::Value)
    ensures
        json_text(*final(base)) == json_merged(*old(base), *other),
{
    json_value_merge::Merge::merge(base, other)
}

/// The byte `[`, which opens an array.
pub const ARRAY_OPEN: u8 = 0x5b;

/// The byte `]`, which closes an array.
pub const ARRAY_CLOSE: u8 = 0x5d;

/// The byte `,`, which stands between two elements.
pub const SEPARATOR: u8 = 0x2c;

/// The given texts one after the other, with a comma between neighbours.
pub open spec fn joined(items: Seq<Seq<u8>>) -> Seq<u8>
    decreases items.len(),
{
    if items.len() == 0 {
        Seq::empty()
    } else if items.len() == 1 {
        items[0]
    } else {
        joined(items.drop_last()) + seq![SEPARATOR] + items.last()
    }
}

/// The array whose elements are the given texts, in compact form.
pub open spec fn framed(items: Seq<Seq<u8>>) -> Seq<u8> {
    seq![ARRAY_OPEN] + joined(items) + seq![ARRAY_CLOSE]
}

/// Writes an array one element at a time, so that no more than one encoded
/// element has to exist beside the output.
pub struct ArrayWriter {
    out: Vec<u8>,
    fresh: bool,
    items: Ghost<Seq<Seq<u8>>>,
}

impl ArrayWriter {
    #[verifier::type_invariant]
    spec fn well_formed(self) -> bool {
        &&& self.out@ == seq![ARRAY_OPEN] + joined(self.items@)
        &&& self.fresh == (self.items@.len() == 0)
    }

    /// The elements written so far.
    pub closed spec fn elements(self) -> Seq<Seq<u8>> {
        self.items@
    }

    /// A writer that has opened its array and holds no element yet.
    pub fn new() -> (writer: ArrayWriter)
        ensures
            writer.elements() == Seq::<Seq<u8>>::empty(),
    {
        let mut out: Vec<u8> = Vec::new();
        out.push(ARRAY_OPEN);
        assert(out@ =~= seq![ARRAY_OPEN] + joined(Seq::<Seq<u8>>::empty()));
        ArrayWriter { out, fresh: true, items: Ghost(Seq::empty()) }
    }

    /// The writer after one more element, given as its encoded text.
    pub fn element(self, encoded: &[u8]) -> (writer: ArrayWriter)
        ensures
            writer.elements() == self.elements().push(encoded@),
    {
        proof {
            use_type_invariant(&self);
        }
        let ghost before = self.items@;
        let ghost after = before.push(encoded@);
        let fresh = self.fresh;
        let mut out = self.out;
        if !fresh {
            out.push(SEPARATOR);
        }
        let ghost head = out@;
        let mut i: usize = 0;
        while i < encoded.len()
            invariant
                i <= encoded.len(),
                out@ == head + encoded@.take(i as int),
            decreases encoded.len() - i,
        {
            out.push(encoded[i]);
            assert(encoded@.take(i + 1) =~= encoded@.take(i as int).push(encoded@[i as int]));
            i += 1;
        }
        proof {
            assert(encoded@.take(encoded.len() as int) =~= encoded@);
            assert(after.drop_last() =~= before);
            assert(out@ =~= seq![ARRAY_OPEN] + joined(after));
        }
        ArrayWriter { out, fresh: false, items: Ghost(after) }
    }

    /// Closes the array and hands out everything that was written.
    pub fn end(self) -> (bytes: Vec<u8>)
        ensures
            bytes@ == framed(self.elements()),
    {
        proof {
            use_type_invariant(&self);
        }
        let mut out = self.out;
        out.push(ARRAY_CLOSE);
        assert(out@ =~= framed(self.items@));
        out
    }
}

} // verus!
