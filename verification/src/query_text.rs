//! The query text a command span reports: the command document without the
//! fields that identify the session or authenticate the cluster time,
//! rendered as relaxed extended JSON and cut to a byte budget.

use vstd::prelude::*;

use crate::ffi_types::encodable_value;
use crate::change_stream::copy_raw_bson;
use crate::text::{chars_of, concat, string_of};

verus! {

/// The views of a document's fields: each key as text, each value as it is.
pub open spec fn fields_view(v: Seq<(String, bson::RawBson)>) -> Seq<(Seq<char>, bson::RawBson)> {
    v.map_values(|f: (String, bson::RawBson)| (f.0@, f.1))
}

/// The top-level fields of the document with bytes `doc`, in order, or the
/// reader's message when the bytes are not a document or a field cannot be
/// read.
pub uninterp spec fn top_fields_of(doc: Seq<u8>) -> Result<Seq<(Seq<char>, bson::RawBson)>, Seq<char>>;

/// Fields that can be written back into a document: no key holds a zero
/// character, and every value is one the writer accepts.
pub open spec fn writable_fields(f: Seq<(Seq<char>, bson::RawBson)>) -> bool {
    forall|i: int| 0 <= i < f.len() ==> !(#[trigger] f[i]).0.contains('\0') && encodable_value(f[i].1)
}

/// `RawDocument::from_bytes` on `doc` and its iterator: each top-level field's
/// key and an owned copy of its value (`RawBsonRef::to_raw_bson`), or the
/// message of the first error.  The reader takes keys, and the pattern and
/// options of a regular expression, as zero-terminated strings, so none of
/// them holds a zero character.
#[verifier::external_body]
fn top_fields(doc: &[u8]) -> (r: Result<Vec<(String, bson::RawBson)>, String>)
    ensures
        match top_fields_of(doc@) {
            Ok(f) => r matches Ok(v) && fields_view(v@) == f,
            Err(m) => r matches Err(e) && e@ == m,
        },
        r matches Ok(v) ==> writable_fields(fields_view(v@)),
{
    let d = match bson::RawDocument::from_bytes(doc) {
        Ok(d) => d,
        Err(e) => return Err(e.to_string()),
    };
    let mut fields = Vec::new();
    for f in d {
        match f {
            Ok((k, v)) => fields.push((k.to_string(), v.to_raw_bson())),
            Err(e) => return Err(e.to_string()),
        }
    }
    Ok(fields)
}

/// The relaxed extended JSON text of the document made of the fields `f`
/// in order; `None` where that document does not convert to a `Document`.
pub uninterp spec fn fields_json_of(f: Seq<(Seq<char>, bson::RawBson)>) -> Option<Seq<char>>;

/// Appends the fields to a new `RawDocumentBuf` (`append_ref`), converts it
/// with `to_document`, and renders the result with
/// `Bson::into_relaxed_extjson` and `to_string`.  The writer panics on a key
/// or a regular expression holding a zero character; such fields are
/// excluded.
#[verifier::external_body]
fn fields_json(fields: &Vec<(String, bson::RawBson)>) -> (r: Option<String>)
    requires
        writable_fields(fields_view(fields@)),
    ensures
        match fields_json_of(fields_view(fields@)) {
            Some(t) => r matches Some(s) && s@ == t,
            None => r is None,
        },
{
    let mut d = bson::RawDocumentBuf::new();
    for (k, v) in fields {
        d.append_ref(k, v.as_raw_bson_ref());
    }
    match d.to_document() {
        Ok(doc) => Some(bson::Bson::Document(doc).into_relaxed_extjson().to_string()),
        Err(_) => None,
    }
}

/// The fields a query text leaves out: the session id, the database name,
/// the cluster time and its signature.
pub open spec fn redacted_key(k: Seq<char>) -> bool {
    k == "lsid"@ || k == "$db"@ || k == "$clusterTime"@ || k == "signature"@
}

/// The fields of `f` that are not redacted, in order.
pub open spec fn kept_fields(f: Seq<(Seq<char>, bson::RawBson)>) -> Seq<(Seq<char>, bson::RawBson)>
    decreases f.len(),
{
    if f.len() == 0 {
        Seq::empty()
    } else if redacted_key(f.last().0) {
        kept_fields(f.drop_last())
    } else {
        kept_fields(f.drop_last()).push(f.last())
    }
}

fn is_redacted(k: &String) -> (r: bool)
    ensures
        r == redacted_key(k@),
{
    let s = k.as_str();
    crate::text::str_equal(s, "lsid") || crate::text::str_equal(s, "$db")
        || crate::text::str_equal(s, "$clusterTime") || crate::text::str_equal(s, "signature")
}

/// The fields of `fields` that a query text keeps: all but `lsid`, `$db`,
/// `$clusterTime` and `signature`, in order.
pub fn redact_fields(fields: &Vec<(String, bson::RawBson)>) -> (r: Vec<(String, bson::RawBson)>)
    ensures
        fields_view(r@) == kept_fields(fields_view(fields@)),
        writable_fields(fields_view(fields@)) ==> writable_fields(fields_view(r@)),
{
    let ghost all = fields_view(fields@);
    let mut kept: Vec<(String, bson::RawBson)> = Vec::new();
    let mut i: usize = 0;
    while i < fields.len()
        invariant
            i <= fields@.len(),
            all == fields_view(fields@),
            fields_view(kept@) == kept_fields(all.take(i as int)),
            writable_fields(all) ==> writable_fields(fields_view(kept@)),
        decreases fields@.len() - i,
    {
        let ghost before = kept@;
        proof {
            assert(all.take(i + 1).drop_last() =~= all.take(i as int));
            assert(all.take(i + 1).last() == all[i as int]);
        }
        if !is_redacted(&fields[i].0) {
            kept.push((fields[i].0.clone(), copy_raw_bson(&fields[i].1)));
            proof {
                assert(fields_view(kept@) =~= fields_view(before).push(all[i as int]));
            }
        }
        proof {
            if writable_fields(all) {
                assert forall|j: int| 0 <= j < fields_view(kept@).len() implies
                    !(#[trigger] fields_view(kept@)[j]).0.contains('\0')
                    && encodable_value(fields_view(kept@)[j].1) by {
                    if j < before.len() {
                        assert(fields_view(kept@)[j] == fields_view(before)[j]);
                    } else {
                        assert(fields_view(kept@)[j] == all[i as int]);
                    }
                }
            }
        }
        i = i + 1;
    }
    proof {
        assert(all.take(fields@.len() as int) =~= all);
    }
    kept
}

/// The number of bytes UTF-8 takes for `c`.
pub open spec fn utf8_width(c: char) -> nat {
    if (c as u32) < 0x80 {
        1
    } else if (c as u32) < 0x800 {
        2
    } else if (c as u32) < 0x10000 {
        3
    } else {
        4
    }
}

/// The number of bytes UTF-8 takes for `s`.
pub open spec fn utf8_size(s: Seq<char>) -> nat
    decreases s.len(),
{
    if s.len() == 0 {
        0
    } else {
        utf8_size(s.drop_last()) + utf8_width(s.last())
    }
}

/// The first count of leading characters of `s`, from `k` on, whose encoding
/// takes at least `n` bytes, or the length of `s` when there is none.
pub open spec fn boundary_from(s: Seq<char>, n: nat, k: nat) -> nat
    decreases s.len() - k,
{
    if k >= s.len() || utf8_size(s.take(k as int)) >= n {
        k
    } else {
        boundary_from(s, n, k + 1)
    }
}

/// `s` cut at the first character boundary at or past `n` bytes, with `...`
/// appended when anything was cut off.
pub open spec fn truncated_text(s: Seq<char>, n: nat) -> Seq<char> {
    let k = boundary_from(s, n, 0);
    if k < s.len() {
        s.take(k as int) + "..."@
    } else {
        s
    }
}

fn char_width(c: char) -> (r: u128)
    ensures
        r == utf8_width(c),
{
    let v = c as u32;
    if v < 0x80 {
        1
    } else if v < 0x800 {
        2
    } else if v < 0x10000 {
        3
    } else {
        4
    }
}

/// `text` cut at the first character boundary at or past `max_len` bytes,
/// followed by `...` when anything was cut off.
pub fn truncate_text(text: String, max_len: usize) -> (r: String)
    ensures
        r@ == truncated_text(text@, max_len as nat),
{
    let chars = chars_of(text.as_str());
    let ghost s = text@;
    let mut i: usize = 0;
    let mut size: u128 = 0;
    while i < chars.len() && size < max_len as u128
        invariant
            i <= chars@.len(),
            chars@ == s,
            s == text@,
            size == utf8_size(s.take(i as int)),
            size <= 4 * i,
            boundary_from(s, max_len as nat, 0) == boundary_from(s, max_len as nat, i as nat),
        decreases chars@.len() - i,
    {
        let w = char_width(chars[i]);
        proof {
            assert(s.take(i + 1).drop_last() =~= s.take(i as int));
        }
        size = size + w;
        i = i + 1;
    }
    if i < chars.len() {
        let mut prefix: Vec<char> = Vec::new();
        let mut j: usize = 0;
        while j < i
            invariant
                j <= i < chars@.len(),
                chars@ == s,
                prefix@ == s.take(j as int),
            decreases i - j,
        {
            prefix.push(chars[j]);
            j = j + 1;
            assert(prefix@ =~= s.take(j as int));
        }
        let head = string_of(prefix.as_slice());
        concat(head.as_str(), "...")
    } else {
        text
    }
}

/// The query text of the command document with bytes `command` under a
/// budget of `max_len` bytes: its fields but the redacted ones, rendered as
/// relaxed extended JSON and cut to the budget; `None` where the document
/// cannot be read or its fields do not convert.
pub open spec fn query_text_of(command: Seq<u8>, max_len: usize) -> Option<Seq<char>> {
    match top_fields_of(command) {
        Ok(f) => match fields_json_of(kept_fields(f)) {
            Some(t) => Some(truncated_text(t, max_len as nat)),
            None => None,
        },
        Err(_) => None,
    }
}

/// The query text a command span reports for the command document
/// `command`: the document without `lsid`, `$db`, `$clusterTime` and
/// `signature`, as relaxed extended JSON, cut at the first character
/// boundary at or past `max_len` bytes with `...` after a cut.  `None` where
/// the document cannot be read or its fields do not convert.
pub fn query_text(command: &[u8], max_len: usize) -> (r: Option<String>)
    ensures
        match query_text_of(command@, max_len) {
            Some(t) => r matches Some(s) && s@ == t,
            None => r is None,
        },
{
    match top_fields(command) {
        Ok(fields) => {
            let kept = redact_fields(&fields);
            match fields_json(&kept) {
                Some(json) => Some(truncate_text(json, max_len)),
                None => None,
            }
        },
        Err(_) => None,
    }
}

} // verus!
