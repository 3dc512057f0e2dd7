//! The values the C layer passes: BSON documents and values as bytes, arrays
//! of documents, and the read-preference options struct.

use vstd::prelude::*;

use crate::bson_frame::{
    check_document_frame, decode_document, decode_failure, document_decodes, document_frame_ok,
    frame_error_text, invalid_response_with, le_bytes32, u32_le,
};
use crate::change_stream::{raw_lookup, raw_lookup_of};
use crate::error::{DriverError, ErrorKind};

verus! {

/// A BSON document as it crosses the boundary; no bytes stands for a null pointer.
pub struct Bson {
    pub data: Vec<u8>,
}

impl Bson {
    /// The number of bytes.
    pub fn len(&self) -> (r: usize)
        ensures
            r == self.data@.len(),
    {
        self.data.len()
    }

    /// Checks that the bytes are framed as a BSON document.
    pub fn check_document(&self) -> (r: Result<(), DriverError>)
        ensures
            r is Ok <==> document_frame_ok(self.data@),
            r matches Err(e) ==> invalid_response_with(e, frame_error_text(self.data@)),
    {
        check_document_frame(self.data.as_slice())
    }

    /// Decodes a nullable document: absent is `None`; a malformed frame is an
    /// invalid-response error; otherwise the decoder's result.
    pub fn to_doc(bson: Option<&Bson>) -> (r: Result<Option<bson::Document>, DriverError>)
        ensures
            bson is None ==> r matches Ok(None),
            bson matches Some(b) ==> (!document_frame_ok(b.data@) ==> (r matches Err(e)
                && invalid_response_with(e, frame_error_text(b.data@)))),
            bson matches Some(b) ==> (document_frame_ok(b.data@) ==> !(r matches Ok(None))),
            bson matches Some(b) ==> (r is Ok <==> document_decodes(b.data@)),
            bson matches Some(b) ==> (r matches Err(e) ==> decode_failure(e, b.data@)),
    {
        match bson {
            None => Ok(None),
            Some(b) => {
                match b.check_document() {
                    Ok(()) => {},
                    Err(e) => return Err(e),
                }
                match decode_document(b.data.as_slice()) {
                    Ok(d) => Ok(Some(d)),
                    Err(m) => Err(DriverError::new(ErrorKind::InvalidResponse { message: m })),
                }
            },
        }
    }
}

/// A BSON document whose bytes the layer owns and hands out.
pub struct OwnedBson(pub Bson);

impl OwnedBson {
    /// The null document: no bytes.
    pub fn empty() -> (r: OwnedBson)
        ensures
            r.0.data@.len() == 0,
    {
        OwnedBson(Bson { data: Vec::new() })
    }

    /// The encoding of `doc`, a framed document; `None` when the encoder
    /// refuses it.
    pub fn from_doc(doc: &bson::Document) -> (r: Option<OwnedBson>)
        ensures
            r matches Some(b) ==> document_frame_ok(b.0.data@),
    {
        match encode_document(doc) {
            Ok(bytes) => Some(OwnedBson(Bson { data: bytes })),
            Err(_) => None,
        }
    }

    /// A copy of the bytes of a raw document.
    pub fn from_raw(doc: &[u8]) -> (r: OwnedBson)
        ensures
            r.0.data@ == doc@,
    {
        let mut data: Vec<u8> = Vec::new();
        let mut i: usize = 0;
        while i < doc.len()
            invariant
                i <= doc@.len(),
                data@ == doc@.take(i as int),
            decreases doc@.len() - i,
        {
            data.push(doc[i]);
            i = i + 1;
            assert(data@ =~= doc@.take(i as int));
        }
        assert(doc@.take(doc@.len() as int) =~= doc@);
        OwnedBson(Bson { data })
    }
}

/// A single BSON value with its element type byte.
pub struct BsonValue {
    pub data: Vec<u8>,
    pub bson_type: u8,
}

/// The document `{"": value}` that wraps a value of type `t` with bytes `v`:
/// a four-byte length, the type byte, the empty key, the value, a final zero.
pub open spec fn wrapped_value_doc(t: u8, v: Seq<u8>) -> Seq<u8> {
    le_bytes32(v.len() + 7) + seq![t, 0u8] + v + seq![0u8]
}

/// The document bytes that wrap the value `v` of type `t` under the empty key.
pub fn wrap_value(t: u8, v: &[u8]) -> (r: Vec<u8>)
    ensures
        r@ == wrapped_value_doc(t, v@),
{
    let n = v.len();
    let m: u64 = 4294967296;
    let total: u64 = ((n as u64) % m + 7) % m;
    proof {
        assert(((n as nat) % 4294967296 + 7) % 4294967296 == ((n as nat) + 7) % 4294967296)
            by (nonlinear_arith);
    }
    let mut r: Vec<u8> = Vec::new();
    r.push((total % 256) as u8);
    r.push(((total / 256) % 256) as u8);
    r.push(((total / 65536) % 256) as u8);
    r.push(((total / 16777216) % 256) as u8);
    r.push(t);
    r.push(0u8);
    let mut i: usize = 0;
    assert(r@ =~= le_bytes32(n as nat + 7) + seq![t, 0u8] + v@.take(0));
    while i < n
        invariant
            i <= n,
            n == v@.len(),
            r@ == le_bytes32(n as nat + 7) + seq![t, 0u8] + v@.take(i as int),
        decreases n - i,
    {
        r.push(v[i]);
        i = i + 1;
        assert(r@ =~= le_bytes32(n as nat + 7) + seq![t, 0u8] + v@.take(i as int));
    }
    r.push(0u8);
    assert(v@.take(n as int) =~= v@);
    assert(r@ =~= wrapped_value_doc(t, v@));
    r
}

impl BsonValue {
    /// Decodes the value: no bytes is `None`; otherwise the value is wrapped
    /// in the document `{"": value}` and the decoder reads its element under
    /// the empty key.  A document with no such element is an internal error.
    pub fn to_bson(&self) -> (r: Result<Option<bson::RawBson>, DriverError>)
        ensures
            self.data@.len() == 0 ==> r matches Ok(None),
            self.data@.len() > 0 ==> match raw_lookup_of(wrapped_value_doc(self.bson_type, self.data@), ""@) {
                Ok(Some(v)) => r matches Ok(Some(w)) && w == v,
                Ok(None) => r matches Err(e) && e.kind matches ErrorKind::Internal { message }
                    && message@ == "missing wrapped element"@,
                Err(m) => r matches Err(e) && invalid_response_with(e, m),
            },
    {
        if self.data.len() == 0 {
            return Ok(None);
        }
        let doc = wrap_value(self.bson_type, self.data.as_slice());
        proof {
            wrapped_value_is_framed(self.bson_type, self.data@);
        }
        match check_document_frame(doc.as_slice()) {
            Ok(()) => {},
            Err(e) => return Err(e),
        }
        match raw_lookup(doc.as_slice(), "") {
            Ok(Some(v)) => Ok(Some(v)),
            Ok(None) => Err(DriverError::internal_str("missing wrapped element")),
            Err(m) => Err(DriverError::new(ErrorKind::InvalidResponse { message: m })),
        }
    }
}

/// A BSON value whose bytes the layer owns and hands out.
pub struct OwnedBsonValue(pub BsonValue);

/// `bson::Document::to_writer` into a new buffer: the document's encoding,
/// or the encoder's rendered error.  The encoder writes a length prefix
/// holding the length and a final zero, so the encoding is framed; nothing
/// more is stated of the bytes, nor of when the encoder refuses.
#[verifier::external_body]
fn encode_document(doc: &bson::Document) -> (r: Result<Vec<u8>, String>)
    ensures
        r matches Ok(b) ==> document_frame_ok(b@),
{
    let mut bytes = Vec::new();
    match doc.to_writer(&mut bytes) {
        Ok(()) => Ok(bytes),
        Err(e) => Err(e.to_string()),
    }
}

/// The pattern and options of a regular-expression value; `None` for a value
/// of any other type.
pub uninterp spec fn regex_parts_of(v: bson::RawBson) -> Option<(Seq<char>, Seq<char>)>;

/// Tells a `bson::RawBson::RegularExpression` apart and gives its pattern and
/// options.
#[verifier::external_body]
fn regex_parts(v: &bson::RawBson) -> (r: Option<(String, String)>)
    ensures
        match regex_parts_of(*v) {
            Some((p, o)) => r matches Some((a, b)) && a@ == p && b@ == o,
            None => r is None,
        },
{
    match v {
        bson::RawBson::RegularExpression(re) => Some((re.pattern.clone(), re.options.clone())),
        _ => None,
    }
}

/// A value the raw document writer accepts: it writes the pattern and the
/// options of a regular expression as zero-terminated strings, so neither
/// may hold a zero character; every other value is written as it is.
pub open spec fn encodable_value(v: bson::RawBson) -> bool {
    match regex_parts_of(v) {
        Some((p, o)) => !p.contains('\0') && !o.contains('\0'),
        None => true,
    }
}

fn has_zero_char(s: &String) -> (r: bool)
    ensures
        r == s@.contains('\0'),
{
    let v = crate::text::chars_of(s.as_str());
    let mut i: usize = 0;
    while i < v.len()
        invariant
            i <= v@.len(),
            v@ == s@,
            forall|j: int| 0 <= j < i ==> v@[j] != '\0',
        decreases v@.len() - i,
    {
        if v[i] == '\0' {
            return true;
        }
        i = i + 1;
    }
    false
}

/// Whether `v` can be encoded: it is not a regular expression whose pattern
/// or options hold a zero character.
pub fn value_encodable(v: &bson::RawBson) -> (r: bool)
    ensures
        r == encodable_value(*v),
{
    match regex_parts(v) {
        Some((p, o)) => !has_zero_char(&p) && !has_zero_char(&o),
        None => true,
    }
}

/// Looking the empty key up in the document `w` gives `v`.
pub open spec fn reads_back_as(w: Seq<u8>, v: bson::RawBson) -> bool {
    raw_lookup_of(w, ""@) == Ok::<Option<bson::RawBson>, Seq<char>>(Some(v))
}

/// A value as the reader gives values out: not a regular expression, or one
/// whose options are in ascending order (the reader builds regular
/// expressions with `Regex::new`, which sorts the options).
pub open spec fn canonical_value(v: bson::RawBson) -> bool {
    match regex_parts_of(v) {
        Some((_, o)) => forall|i: int, j: int| 0 <= i < j < o.len() ==> (o[i] as u32) <= (o[j] as u32),
        None => true,
    }
}

/// Looking the empty key up in `w` gives `v` back, or, for a regular
/// expression whose options are out of order, the regular expression with
/// the same pattern and the same options sorted.
pub open spec fn reads_back_normalized(w: Seq<u8>, v: bson::RawBson) -> bool {
    if canonical_value(v) {
        reads_back_as(w, v)
    } else {
        exists|u: bson::RawBson|
            #[trigger] raw_lookup_of(w, ""@) == Ok::<Option<bson::RawBson>, Seq<char>>(Some(u))
            && canonical_value(u) && match (regex_parts_of(u), regex_parts_of(v)) {
                (Some((p2, o2)), Some((p, o))) => p2 == p && o2.to_multiset() == o.to_multiset(),
                _ => false,
            }
    }
}

/// `RawDocumentBuf::new` followed by `append_ref("", value)`: the bytes of
/// the document `{"": value}`.  The writer puts the type byte after the
/// length, then the empty key's terminating zero, the value's bytes and the
/// document's final zero, and keeps the length prefix.  Looking the empty
/// key up in what it wrote (`RawDocument::get`, `RawBsonRef::to_raw_bson`)
/// gives the value back, except that the reader sorts a regular
/// expression's options.  The writer panics on a regular expression whose
/// pattern or options hold a zero character; such values are excluded.
#[verifier::external_body]
fn wrap_raw_value(value: &bson::RawBson) -> (r: Vec<u8>)
    requires
        encodable_value(*value),
    ensures
        document_frame_ok(r@),
        r@.len() >= 7,
        r@[5] == 0,
        reads_back_normalized(r@, *value),
{
    let mut d = bson::RawDocumentBuf::new();
    d.append_ref("", value.as_raw_bson_ref());
    d.into_bytes()
}

/// The type and bytes of the value that the document `w = {"": value}`
/// wraps: the byte after the length prefix, and what lies between the empty
/// key and the final zero.
pub open spec fn unwrapped_value(w: Seq<u8>) -> (u8, Seq<u8>) {
    (w[4], w.subrange(6, w.len() - 1))
}

/// `b` holds the type byte and value bytes of `v`: they are read off a
/// framed document `{"": v}` that reads back as `v` (a regular expression's
/// options sorted).
pub open spec fn encodes_value(b: BsonValue, v: bson::RawBson) -> bool {
    exists|w: Seq<u8>|
        #![trigger unwrapped_value(w)]
        {
            &&& document_frame_ok(w)
            &&& w.len() >= 7
            &&& w[5] == 0
            &&& reads_back_normalized(w, v)
            &&& (b.bson_type, b.data@) == unwrapped_value(w)
        }
}

impl OwnedBsonValue {
    /// The type byte and value bytes of `value`, read off the document
    /// `{"": value}` that the encoder writes for it.
    pub fn from_bson(value: &bson::RawBson) -> (r: OwnedBsonValue)
        requires
            encodable_value(*value),
        ensures
            encodes_value(r.0, *value),
    {
        let w = wrap_raw_value(value);
        let n = w.len();
        let mut data: Vec<u8> = Vec::new();
        let mut i: usize = 6;
        while i < n - 1
            invariant
                6 <= i <= n - 1,
                n == w@.len(),
                n >= 7,
                data@ == w@.subrange(6, i as int),
            decreases n - 1 - i,
        {
            data.push(w[i]);
            i = i + 1;
            assert(data@ =~= w@.subrange(6, i as int));
        }
        let r = OwnedBsonValue(BsonValue { data, bson_type: w[4] });
        assert((r.0.bson_type, r.0.data@) == unwrapped_value(w@));
        assert(encodes_value(r.0, *value));
        r
    }
}

proof fn lemma_le_bytes_read_back(x: nat)
    ensures
        u32_le(le_bytes32(x)) == x % 4294967296,
{
    let v = x % 4294967296;
    let b0 = v % 256;
    let b1 = (v / 256) % 256;
    let b2 = (v / 65536) % 256;
    let b3 = (v / 16777216) % 256;
    assert(v == b0 + b1 * 256 + b2 * 65536 + b3 * 16777216) by (nonlinear_arith)
        requires
            v < 4294967296,
            b0 == v % 256,
            b1 == (v / 256) % 256,
            b2 == (v / 65536) % 256,
            b3 == (v / 16777216) % 256,
    ;
}

proof fn lemma_prefix_bytes(b: Seq<u8>, x: nat)
    requires
        b.len() >= 4,
        u32_le(b) == x % 4294967296,
    ensures
        le_bytes32(x) == b.subrange(0, 4),
{
    let v = x % 4294967296;
    let b0 = b[0] as int;
    let b1 = b[1] as int;
    let b2 = b[2] as int;
    let b3 = b[3] as int;
    assert(v == b0 + b1 * 256 + b2 * 65536 + b3 * 16777216);
    assert(v % 256 == b0 && (v / 256) % 256 == b1 && (v / 65536) % 256 == b2 && (v / 16777216) % 256 == b3)
        by (nonlinear_arith)
        requires
            v == b0 + b1 * 256 + b2 * 65536 + b3 * 16777216,
            0 <= b0 < 256,
            0 <= b1 < 256,
            0 <= b2 < 256,
            0 <= b3 < 256,
    ;
    assert(le_bytes32(x) =~= b.subrange(0, 4));
}

/// Wrapping any value bytes gives a framed document.
pub proof fn wrapped_value_is_framed(t: u8, v: Seq<u8>)
    ensures
        document_frame_ok(wrapped_value_doc(t, v)),
{
    let w = wrapped_value_doc(t, v);
    lemma_le_bytes_read_back(v.len() + 7);
    assert(w.len() == v.len() + 7);
    assert(w.subrange(0, 4) =~= le_bytes32(v.len() + 7));
    assert(u32_le(w) == u32_le(le_bytes32(v.len() + 7)));
}

/// Reading a value off its wrapping document and wrapping it again gives
/// back the same document: the two directions of the value encoding agree.
pub proof fn unwrap_then_wrap_round_trips(w: Seq<u8>)
    requires
        document_frame_ok(w),
        w.len() >= 7,
        w[5] == 0,
    ensures
        wrapped_value_doc(unwrapped_value(w).0, unwrapped_value(w).1) == w,
{
    let (t, v) = unwrapped_value(w);
    lemma_prefix_bytes(w, v.len() + 7);
    assert(wrapped_value_doc(t, v) =~= w);
}

/// A value encoded by [`OwnedBsonValue::from_bson`] decodes back to itself
/// through [`BsonValue::to_bson`]: wrapping its bytes again and looking up
/// the empty key gives the value, a regular expression with its options
/// sorted.  (Values with no bytes, such as null, decode to no value instead.)
pub proof fn encoded_value_decodes_back(b: BsonValue, v: bson::RawBson)
    requires
        encodes_value(b, v),
    ensures
        reads_back_normalized(wrapped_value_doc(b.bson_type, b.data@), v),
        canonical_value(v) ==> reads_back_as(wrapped_value_doc(b.bson_type, b.data@), v),
{
    let w = choose|w: Seq<u8>|
        #![trigger unwrapped_value(w)]
        {
            &&& document_frame_ok(w)
            &&& w.len() >= 7
            &&& w[5] == 0
            &&& reads_back_normalized(w, v)
            &&& (b.bson_type, b.data@) == unwrapped_value(w)
        };
    unwrap_then_wrap_round_trips(w);
}

/// Wrapping value bytes and reading them back gives the same type and bytes.
pub proof fn wrap_then_unwrap_round_trips(t: u8, v: Seq<u8>)
    ensures
        unwrapped_value(wrapped_value_doc(t, v)) == (t, v),
{
    let w = wrapped_value_doc(t, v);
    assert(w.subrange(6, w.len() - 1) =~= v);
}

} // verus!

verus! {

/// One element of a BSON array, as far as an array of documents cares.
pub enum ArrayItem {
    /// A document, with its bytes.
    Document(Vec<u8>),
    /// A value of another type.
    NotDocument,
    /// An element the decoder could not read, with its message.
    Malformed(String),
}

/// The view of an [`ArrayItem`].
pub enum ArrayItemView {
    Document(Seq<u8>),
    NotDocument,
    Malformed(Seq<char>),
}

impl View for ArrayItem {
    type V = ArrayItemView;

    open spec fn view(&self) -> ArrayItemView {
        match self {
            ArrayItem::Document(b) => ArrayItemView::Document(b@),
            ArrayItem::NotDocument => ArrayItemView::NotDocument,
            ArrayItem::Malformed(m) => ArrayItemView::Malformed(m@),
        }
    }
}

/// Whether every document among `items` is framed as a BSON document (the
/// decoder hands a document out only after `RawDocument::from_bytes` accepts it).
pub open spec fn items_framed(items: Seq<ArrayItem>) -> bool {
    forall|i: int|
        0 <= i < items.len() ==> (#[trigger] items[i] matches ArrayItem::Document(b)
            ==> document_frame_ok(b@))
}

/// The elements of the BSON array with bytes `array`, as the decoder reads
/// them in order.
pub uninterp spec fn array_items_of(array: Seq<u8>) -> Seq<ArrayItemView>;

/// Iterates the framed BSON array `array` (`RawDocument::from_bytes` and its
/// iterator: an array is a document keyed by position), giving each element,
/// a document's bytes copied.
#[verifier::external_body]
pub(crate) fn raw_array_items(array: &[u8]) -> (r: Vec<ArrayItem>)
    requires
        document_frame_ok(array@),
    ensures
        r@.map_values(|x: ArrayItem| x@) == array_items_of(array@),
        items_framed(r@),
{
    let mut items = Vec::new();
    for item in bson::RawDocument::from_bytes(array).unwrap() {
        items.push(match item.map(|(_, v)| v.as_document()) {
            Ok(Some(d)) => ArrayItem::Document(d.as_bytes().to_vec()),
            Ok(None) => ArrayItem::NotDocument,
            Err(e) => ArrayItem::Malformed(e.to_string()),
        });
    }
    items
}

/// Whether an array descriptor points at anything.
pub struct BsonArrayData {
    pub present: bool,
}

impl BsonArrayData {
    /// Whether the descriptor is a null pointer.
    pub fn is_null(&self) -> (r: bool)
        ensures
            r == !self.present,
    {
        !self.present
    }

    /// Whether the descriptor is a null pointer.
    pub open spec fn spec_is_null(&self) -> bool {
        !self.present
    }
}

/// A descriptor of an array of BSON documents: where it is, and how many.
/// The documents themselves are held by the caller of [`BsonArray::from_array`].
pub struct BsonArray {
    pub data: BsonArrayData,
    pub len: usize,
}

/// The message of the error for an array element that is not a document.
pub open spec fn non_document_message() -> Seq<char> {
    "unexpected non-document in cursor batch array"@
}

/// Whether the first `k` items are all documents.
pub open spec fn documents_up_to(items: Seq<ArrayItemView>, k: int) -> bool {
    forall|j: int| 0 <= j < k ==> #[trigger] items[j] is Document
}

/// The result of reading the array `items`: all documents give their bytes
/// and a descriptor; the first element that is not a document is an error.
pub open spec fn array_read_ok(
    items: Seq<ArrayItemView>,
    r: Result<(Vec<Vec<u8>>, BsonArray), DriverError>,
) -> bool {
    if documents_up_to(items, items.len() as int) {
        r matches Ok((docs, arr)) && docs@.len() == items.len() && arr.len == items.len()
            && (arr.data.spec_is_null() <==> items.len() == 0) && forall|j: int|
            0 <= j < items.len() ==> #[trigger] items[j] == ArrayItemView::Document(docs@[j]@)
    } else {
        exists|k: int|
            0 <= k < items.len() && documents_up_to(items, k) && !(#[trigger] items[k] is Document)
                && match items[k] {
                ArrayItemView::Malformed(m) => r matches Err(e) && invalid_response_with(e, m),
                _ => r matches Err(e) && invalid_response_with(e, non_document_message()),
            }
    }
}

/// A batch of a cursor reply: the encoded array of its documents.
pub struct RawBatch {
    pub docs: Vec<u8>,
}

impl BsonArray {
    /// The null descriptor: no data, no length.
    pub fn null() -> (r: BsonArray)
        ensures
            r.data.spec_is_null(),
            r.len == 0,
    {
        BsonArray { data: BsonArrayData { present: false }, len: 0 }
    }

    /// Whether the descriptor describes no documents.
    pub fn is_empty(&self) -> (r: bool)
        ensures
            r == (self.data.spec_is_null() || self.len == 0),
    {
        return self.data.is_null() || self.len == 0;
    }

    /// Reads an array whose elements must all be documents.
    pub fn from_items(items: &Vec<ArrayItem>) -> (r: Result<(Vec<Vec<u8>>, BsonArray), DriverError>)
        ensures
            array_read_ok(items@.map_values(|x: ArrayItem| x@), r),
    {
        let ghost iv = items@.map_values(|x: ArrayItem| x@);
        let mut docs: Vec<Vec<u8>> = Vec::new();
        let mut i: usize = 0;
        while i < items.len()
            invariant
                i <= items@.len(),
                iv == items@.map_values(|x: ArrayItem| x@),
                docs@.len() == i,
                documents_up_to(iv, i as int),
                forall|j: int| 0 <= j < i ==> #[trigger] iv[j] == ArrayItemView::Document(docs@[j]@),
            decreases items@.len() - i,
        {
            assert(iv[i as int] == items@[i as int]@);
            match &items[i] {
                ArrayItem::Document(b) => {
                    let c = b.clone();
                    assert(c@ =~= b@);
                    docs.push(c);
                },
                ArrayItem::NotDocument => {
                    assert(!(iv[i as int] is Document));
                    return Err(
                        DriverError::invalid_response_str(
                            "unexpected non-document in cursor batch array",
                        ),
                    );
                },
                ArrayItem::Malformed(m) => {
                    assert(!(iv[i as int] is Document));
                    return Err(DriverError::new(ErrorKind::InvalidResponse { message: m.clone() }));
                },
            }
            i = i + 1;
        }
        let n = docs.len();
        let arr = BsonArray { data: BsonArrayData { present: n != 0 }, len: n };
        Ok((docs, arr))
    }

    /// Reads the encoded BSON array `source`, whose elements must all be
    /// documents: gives the documents' bytes and a descriptor of them.
    pub fn from_array(source: &[u8]) -> (r: Result<(Vec<Vec<u8>>, BsonArray), DriverError>)
        requires
            document_frame_ok(source@),
        ensures
            array_read_ok(array_items_of(source@), r),
    {
        let items = raw_array_items(source);
        BsonArray::from_items(&items)
    }

    /// Reads the documents of a cursor batch; see [`BsonArray::from_array`].
    pub fn from_batch(source: &RawBatch) -> (r: Result<(Vec<Vec<u8>>, BsonArray), DriverError>)
        requires
            document_frame_ok(source.docs@),
        ensures
            array_read_ok(array_items_of(source.docs@), r),
    {
        BsonArray::from_array(source.docs.as_slice())
    }
}

} // verus!

verus! {

/// One field of a BSON document, as far as tag sets care.
pub enum FieldItem {
    /// A field whose value is a string.
    Str(String, String),
    /// A field whose value is of another type.
    Other,
    /// A field the decoder could not read, with its message.
    Malformed(String),
}

/// The view of a [`FieldItem`].
pub enum FieldView {
    Str(Seq<char>, Seq<char>),
    Other,
    Malformed(Seq<char>),
}

impl View for FieldItem {
    type V = FieldView;

    open spec fn view(&self) -> FieldView {
        match self {
            FieldItem::Str(k, v) => FieldView::Str(k@, v@),
            FieldItem::Other => FieldView::Other,
            FieldItem::Malformed(m) => FieldView::Malformed(m@),
        }
    }
}

/// The fields of the framed document `doc`, in order, as the decoder reads them.
pub uninterp spec fn document_fields_of(doc: Seq<u8>) -> Seq<FieldView>;

/// One field value of a BSON document, as far as arrays care.
pub enum FieldArray {
    /// An array, with its encoded bytes.
    Array(Vec<u8>),
    /// A value of another type.
    Other,
    /// A field the decoder could not read, with its message.
    Malformed(String),
}

/// The view of a [`FieldArray`].
pub enum FieldArrayView {
    Array(Seq<u8>),
    Other,
    Malformed(Seq<char>),
}

impl View for FieldArray {
    type V = FieldArrayView;

    open spec fn view(&self) -> FieldArrayView {
        match self {
            FieldArray::Array(b) => FieldArrayView::Array(b@),
            FieldArray::Other => FieldArrayView::Other,
            FieldArray::Malformed(m) => FieldArrayView::Malformed(m@),
        }
    }
}

/// The field values of the framed document `doc`, in order, as the decoder
/// reads them, an array by its bytes.
pub uninterp spec fn field_arrays_of(doc: Seq<u8>) -> Seq<FieldArrayView>;

/// The bytes of the array that is the first field of a document with field
/// values `fs`; `None` when there is no field or the first is not an array.
pub open spec fn first_array_bytes(fs: Seq<FieldArrayView>) -> Option<Seq<u8>> {
    if fs.len() > 0 {
        match fs[0] {
            FieldArrayView::Array(b) => Some(b),
            _ => None,
        }
    } else {
        None
    }
}

/// The elements of the array that is the first value of the framed document
/// `doc`; `None` when the first value is absent, unreadable or not an array.
pub open spec fn first_array_items_of(doc: Seq<u8>) -> Option<Seq<ArrayItemView>> {
    match first_array_bytes(field_arrays_of(doc)) {
        Some(b) => Some(array_items_of(b)),
        None => None,
    }
}

/// The boolean value of field `key` of the framed document `doc`; `None` when
/// the field is absent, unreadable or not a boolean.
pub uninterp spec fn bool_field_of(doc: Seq<u8>, key: Seq<char>) -> Option<bool>;

/// Iterates a framed document (`RawDocument::from_bytes` and its iterator),
/// giving each field, with a string value as `(key, value)`.
#[verifier::external_body]
pub(crate) fn document_fields(doc: &[u8]) -> (r: Vec<FieldItem>)
    requires
        document_frame_ok(doc@),
    ensures
        r@.map_values(|x: FieldItem| x@) == document_fields_of(doc@),
{
    let mut out = Vec::new();
    let d = bson::RawDocument::from_bytes(doc).unwrap();
    for field in d {
        out.push(match field {
            Ok((k, v)) => match v.as_str() {
                Some(s) => FieldItem::Str(k.to_string(), s.to_string()),
                None => FieldItem::Other,
            },
            Err(e) => FieldItem::Malformed(e.to_string()),
        });
    }
    out
}

/// Iterates a framed document (`RawDocument::from_bytes` and its iterator,
/// with `RawBsonRef::as_array`), giving each field value, an array by its
/// bytes.  The decoder hands an array out only after `RawDocument::from_bytes`
/// accepts its bytes, so they are framed.
#[verifier::external_body]
fn field_arrays(doc: &[u8]) -> (r: Vec<FieldArray>)
    requires
        document_frame_ok(doc@),
    ensures
        r@.map_values(|x: FieldArray| x@) == field_arrays_of(doc@),
        forall|i: int| 0 <= i < r@.len() ==> (#[trigger] r@[i] matches FieldArray::Array(b) ==> document_frame_ok(b@)),
{
    let mut out = Vec::new();
    for field in bson::RawDocument::from_bytes(doc).unwrap() {
        out.push(match field.map(|(_, v)| v.as_array()) {
            Ok(Some(a)) => FieldArray::Array(a.as_bytes().to_vec()),
            Ok(None) => FieldArray::Other,
            Err(e) => FieldArray::Malformed(e.to_string()),
        });
    }
    out
}

/// The elements of the array that is the first field of a framed document;
/// `None` when the first field is absent, unreadable or not an array.
pub(crate) fn first_array_items(doc: &[u8]) -> (r: Option<Vec<ArrayItem>>)
    requires
        document_frame_ok(doc@),
    ensures
        match first_array_items_of(doc@) {
            None => r is None,
            Some(items) => r matches Some(v) && v@.map_values(|x: ArrayItem| x@) == items
                && items_framed(v@),
        },
{
    let fields = field_arrays(doc);
    proof {
        assert(fields@.len() > 0 ==> fields@.map_values(|x: FieldArray| x@)[0] == fields@[0]@);
    }
    if fields.len() == 0 {
        return None;
    }
    match &fields[0] {
        FieldArray::Array(b) => Some(raw_array_items(b.as_slice())),
        _ => None,
    }
}

/// Looks up a boolean field of a framed document (`RawDocument::get` and
/// `RawBsonRef::as_bool`).
#[verifier::external_body]
pub(crate) fn bool_field(doc: &[u8], key: &str) -> (r: Option<bool>)
    requires
        document_frame_ok(doc@),
    ensures
        r == bool_field_of(doc@, key@),
{
    let d = bson::RawDocument::from_bytes(doc).unwrap();
    d.get(key).ok().flatten().and_then(|v| v.as_bool())
}

/// No key occurs twice among the pairs `p`.
pub open spec fn unique_keys(p: Seq<(Seq<char>, Seq<char>)>) -> bool {
    forall|i: int, j: int| 0 <= i < j < p.len() ==> (#[trigger] p[i]).0 != (#[trigger] p[j]).0
}

/// The pairs `p` with the value `v` under the key `k`: the pair already
/// keyed `k` takes the new value, or the pair is added at the end.
pub open spec fn put_pair(p: Seq<(Seq<char>, Seq<char>)>, k: Seq<char>, v: Seq<char>) -> Seq<(Seq<char>, Seq<char>)> {
    if exists|i: int| 0 <= i < p.len() && (#[trigger] p[i]).0 == k {
        let i = choose|i: int| 0 <= i < p.len() && (#[trigger] p[i]).0 == k;
        p.update(i, (k, v))
    } else {
        p.push((k, v))
    }
}

/// The string fields of a document with fields `fs`, one per key with the
/// last value read for it, or the message of the first field that cannot be
/// read.
pub open spec fn string_fields(fs: Seq<FieldView>) -> Result<Seq<(Seq<char>, Seq<char>)>, Seq<char>>
    decreases fs.len(),
{
    if fs.len() == 0 {
        Ok(Seq::empty())
    } else {
        match string_fields(fs.drop_last()) {
            Err(m) => Err(m),
            Ok(p) => match fs.last() {
                FieldView::Str(k, v) => Ok(put_pair(p, k, v)),
                FieldView::Other => Ok(p),
                FieldView::Malformed(m) => Err(m),
            },
        }
    }
}

/// The tag sets in the array elements `items`: one per document element (its
/// string fields), other elements skipped; or the first read error.
pub open spec fn tag_sets_from(items: Seq<ArrayItemView>) -> Result<Seq<Seq<(Seq<char>, Seq<char>)>>, Seq<char>>
    decreases items.len(),
{
    if items.len() == 0 {
        Ok(Seq::empty())
    } else {
        match tag_sets_from(items.drop_last()) {
            Err(m) => Err(m),
            Ok(p) => match items.last() {
                ArrayItemView::Document(b) => match string_fields(document_fields_of(b)) {
                    Err(m) => Err(m),
                    Ok(ts) => Ok(p.push(ts)),
                },
                ArrayItemView::NotDocument => Ok(p),
                ArrayItemView::Malformed(m) => Err(m),
            },
        }
    }
}

/// The views of a list of `(key, value)` pairs.
pub open spec fn pairs_view(v: Seq<(String, String)>) -> Seq<(Seq<char>, Seq<char>)> {
    v.map_values(|p: (String, String)| (p.0@, p.1@))
}

/// The views of a list of tag sets.
pub open spec fn tag_sets_view(v: Seq<Vec<(String, String)>>) -> Seq<Seq<(Seq<char>, Seq<char>)>> {
    v.map_values(|t: Vec<(String, String)>| pairs_view(t@))
}

fn put_pair_exec(out: &mut Vec<(String, String)>, k: &String, v: &String)
    requires
        unique_keys(pairs_view(old(out)@)),
    ensures
        pairs_view(final(out)@) == put_pair(pairs_view(old(out)@), k@, v@),
        unique_keys(pairs_view(final(out)@)),
{
    let ghost p = pairs_view(out@);
    let mut j: usize = 0;
    while j < out.len()
        invariant
            j <= out@.len(),
            p == pairs_view(out@),
            out@ == old(out)@,
            unique_keys(p),
            forall|m: int| 0 <= m < j ==> (#[trigger] p[m]).0 != k@,
        decreases out@.len() - j,
    {
        if crate::text::str_equal(out[j].0.as_str(), k.as_str()) {
            proof {
                assert(p[j as int].0 == k@);
                assert(exists|i: int| 0 <= i < p.len() && (#[trigger] p[i]).0 == k@);
                let c = choose|i: int| 0 <= i < p.len() && (#[trigger] p[i]).0 == k@;
                assert(c == j) by {
                    if c < j {
                        assert(p[c].0 != k@);
                    } else if c > j {
                        assert(p[j as int].0 != p[c].0);
                    }
                }
                assert(put_pair(p, k@, v@) == p.update(j as int, (k@, v@)));
            }
            out.set(j, (k.clone(), v.clone()));
            proof {
                assert(pairs_view(out@) =~= p.update(j as int, (k@, v@)));
                assert forall|a: int, b: int| 0 <= a < b < pairs_view(out@).len() implies
                    (#[trigger] pairs_view(out@)[a]).0 != (#[trigger] pairs_view(out@)[b]).0 by {
                    assert(p[a].0 != p[b].0);
                }
            }
            return;
        }
        j = j + 1;
    }
    let ghost before = out@;
    out.push((k.clone(), v.clone()));
    proof {
        assert(pairs_view(out@) =~= p.push((k@, v@)));
        assert(!exists|i: int| 0 <= i < p.len() && (#[trigger] p[i]).0 == k@);
        assert forall|a: int, b: int| 0 <= a < b < pairs_view(out@).len() implies
            (#[trigger] pairs_view(out@)[a]).0 != (#[trigger] pairs_view(out@)[b]).0 by {
            if b < p.len() {
                assert(p[a].0 != p[b].0);
            } else {
                assert(p[a].0 != k@);
            }
        }
    }
}

/// The string fields of the framed document `doc`: one per key, holding the
/// last value read for it, where it was first read.
pub fn read_string_fields(doc: &[u8]) -> (r: Result<Vec<(String, String)>, DriverError>)
    requires
        document_frame_ok(doc@),
    ensures
        match string_fields(document_fields_of(doc@)) {
            Ok(p) => r matches Ok(v) && pairs_view(v@) == p,
            Err(m) => r matches Err(e) && invalid_response_with(e, m),
        },
        r matches Ok(v) ==> unique_keys(pairs_view(v@)),
{
    let fields = document_fields(doc);
    let ghost fv = fields@.map_values(|x: FieldItem| x@);
    let mut out: Vec<(String, String)> = Vec::new();
    let mut i: usize = 0;
    assert(fv.take(0) =~= Seq::<FieldView>::empty());
    assert(pairs_view(out@) =~= Seq::<(Seq<char>, Seq<char>)>::empty());
    while i < fields.len()
        invariant
            i <= fields@.len(),
            fv == fields@.map_values(|x: FieldItem| x@),
            fv == document_fields_of(doc@),
            string_fields(fv.take(i as int)) == Ok::<Seq<(Seq<char>, Seq<char>)>, Seq<char>>(
                pairs_view(out@),
            ),
            unique_keys(pairs_view(out@)),
        decreases fields@.len() - i,
    {
        assert(fv.take(i + 1).drop_last() =~= fv.take(i as int));
        assert(fv.take(i + 1).last() == fields@[i as int]@);
        match &fields[i] {
            FieldItem::Str(k, v) => {
                put_pair_exec(&mut out, k, v);
            },
            FieldItem::Other => {},
            FieldItem::Malformed(m) => {
                proof {
                    lemma_string_fields_err_sticky(fv, i as int + 1);
                }
                return Err(DriverError::new(ErrorKind::InvalidResponse { message: m.clone() }));
            },
        }
        i = i + 1;
    }
    assert(fv.take(fields@.len() as int) =~= fv);
    Ok(out)
}

proof fn lemma_string_fields_err_sticky(fs: Seq<FieldView>, k: int)
    requires
        0 <= k <= fs.len(),
        string_fields(fs.take(k)) is Err,
    ensures
        string_fields(fs) == string_fields(fs.take(k)),
    decreases fs.len() - k,
{
    if k < fs.len() {
        assert(fs.take(k + 1).drop_last() =~= fs.take(k));
        lemma_string_fields_err_sticky(fs, k + 1);
    } else {
        assert(fs.take(k) =~= fs);
    }
}

proof fn lemma_tag_sets_err_sticky(items: Seq<ArrayItemView>, k: int)
    requires
        0 <= k <= items.len(),
        tag_sets_from(items.take(k)) is Err,
    ensures
        tag_sets_from(items) == tag_sets_from(items.take(k)),
    decreases items.len() - k,
{
    if k < items.len() {
        assert(items.take(k + 1).drop_last() =~= items.take(k));
        lemma_tag_sets_err_sticky(items, k + 1);
    } else {
        assert(items.take(k) =~= items);
    }
}

/// The tag sets held in the array elements `items`.
pub fn read_tag_sets(items: &Vec<ArrayItem>) -> (r: Result<Vec<Vec<(String, String)>>, DriverError>)
    requires
        items_framed(items@),
    ensures
        match tag_sets_from(items@.map_values(|x: ArrayItem| x@)) {
            Ok(p) => r matches Ok(v) && tag_sets_view(v@) == p,
            Err(m) => r matches Err(e) && invalid_response_with(e, m),
        },
{
    let ghost iv = items@.map_values(|x: ArrayItem| x@);
    let mut out: Vec<Vec<(String, String)>> = Vec::new();
    let mut i: usize = 0;
    assert(iv.take(0) =~= Seq::<ArrayItemView>::empty());
    assert(tag_sets_view(out@) =~= Seq::<Seq<(Seq<char>, Seq<char>)>>::empty());
    while i < items.len()
        invariant
            i <= items@.len(),
            iv == items@.map_values(|x: ArrayItem| x@),
            items_framed(items@),
            tag_sets_from(iv.take(i as int)) == Ok::<
                Seq<Seq<(Seq<char>, Seq<char>)>>,
                Seq<char>,
            >(tag_sets_view(out@)),
        decreases items@.len() - i,
    {
        assert(iv.take(i + 1).drop_last() =~= iv.take(i as int));
        assert(iv.take(i + 1).last() == items@[i as int]@);
        match &items[i] {
            ArrayItem::Document(b) => {
                assert(document_frame_ok(b@));
                let ghost old_out = out@;
                match read_string_fields(b.as_slice()) {
                    Ok(ts) => {
                        let ghost tsv = ts@;
                        out.push(ts);
                        assert(out@ == old_out.push(ts));
                        assert(tag_sets_view(out@) =~= tag_sets_view(old_out).push(pairs_view(tsv)));
                    },
                    Err(e) => {
                        proof {
                            lemma_tag_sets_err_sticky(iv, i as int + 1);
                        }
                        return Err(e);
                    },
                }
            },
            ArrayItem::NotDocument => {},
            ArrayItem::Malformed(m) => {
                proof {
                    lemma_tag_sets_err_sticky(iv, i as int + 1);
                }
                return Err(DriverError::new(ErrorKind::InvalidResponse { message: m.clone() }));
            },
        }
        i = i + 1;
    }
    assert(iv.take(items@.len() as int) =~= iv);
    Ok(out)
}

} // verus!

verus! {

use crate::ffi_utils::{duration_from_secs, secs_duration};
use crate::options::{ReadPreference, ReadPreferenceSettings};

/// Read-preference options as the caller passes them; absent documents and a
/// negative staleness mean "not set".
pub struct ReadPreferenceOptions {
    /// Tag sets: a document whose first value is an array of tag documents.
    pub tags: Option<Bson>,
    /// Maximum staleness in seconds.
    pub max_staleness_seconds: i64,
    /// Hedge options: a document with a boolean `enabled` field.
    pub hedge: Option<Bson>,
}

/// The read-preference modes, numbered as the caller passes them.
#[derive(PartialEq, Eq, Structural, Clone, Copy, Debug)]
pub enum ReadPreferenceType {
    Primary,
    PrimaryPreferred,
    Secondary,
    SecondaryPreferred,
    Nearest,
}

/// The number of a mode.
pub open spec fn mode_code(t: ReadPreferenceType) -> u8 {
    match t {
        ReadPreferenceType::Primary => 0,
        ReadPreferenceType::PrimaryPreferred => 1,
        ReadPreferenceType::Secondary => 2,
        ReadPreferenceType::SecondaryPreferred => 3,
        ReadPreferenceType::Nearest => 4,
    }
}

impl ReadPreferenceType {
    /// The mode's number.
    pub fn code(&self) -> (r: u8)
        ensures
            r == mode_code(*self),
    {
        match self {
            ReadPreferenceType::Primary => 0,
            ReadPreferenceType::PrimaryPreferred => 1,
            ReadPreferenceType::Secondary => 2,
            ReadPreferenceType::SecondaryPreferred => 3,
            ReadPreferenceType::Nearest => 4,
        }
    }

    /// The mode numbered `mode`, if any.
    pub fn from_code(mode: u8) -> (r: Option<ReadPreferenceType>)
        ensures
            r matches Some(t) ==> mode_code(t) == mode,
            r is None <==> mode > 4,
    {
        match mode {
            0 => Some(ReadPreferenceType::Primary),
            1 => Some(ReadPreferenceType::PrimaryPreferred),
            2 => Some(ReadPreferenceType::Secondary),
            3 => Some(ReadPreferenceType::SecondaryPreferred),
            4 => Some(ReadPreferenceType::Nearest),
            _ => None,
        }
    }
}

/// The view of an optional document.
pub open spec fn opt_doc(b: Option<Bson>) -> Option<Seq<u8>> {
    match b {
        Some(x) => Some(x.data@),
        None => None,
    }
}

/// The tag sets the `tags` option holds, or the message of the read error.
pub open spec fn tags_option_value(t: Option<Seq<u8>>) -> Result<Seq<Seq<(Seq<char>, Seq<char>)>>, Seq<char>> {
    match t {
        None => Ok(Seq::empty()),
        Some(b) => if !document_frame_ok(b) {
            Err(frame_error_text(b))
        } else {
            match first_array_items_of(b) {
                None => Ok(Seq::empty()),
                Some(items) => tag_sets_from(items),
            }
        },
    }
}

/// The hedge setting the `hedge` option holds, or the message of the read error.
pub open spec fn hedge_option_value(h: Option<Seq<u8>>) -> Result<Option<bool>, Seq<char>> {
    match h {
        None => Ok(None),
        Some(b) => if !document_frame_ok(b) {
            Err(frame_error_text(b))
        } else {
            Ok(bool_field_of(b, "enabled"@))
        },
    }
}

/// Whether `s` holds the tag sets `ts`, the staleness `secs`, and the hedge `h`.
pub open spec fn settings_are(
    s: ReadPreferenceSettings,
    ts: Seq<Seq<(Seq<char>, Seq<char>)>>,
    secs: i64,
    h: Option<bool>,
) -> bool {
    &&& if ts.len() > 0 {
        s.tag_sets matches Some(v) && tag_sets_view(v@) == ts
    } else {
        s.tag_sets is None
    }
    &&& s.max_staleness == (if secs >= 0 {
        Some(secs_duration(secs as u64))
    } else {
        None
    })
    &&& s.hedge == h
}

/// What parsing `o` gives: the first read error, or the settings when any is set.
pub open spec fn read_preference_options_ok(
    o: ReadPreferenceOptions,
    r: Result<Option<ReadPreferenceSettings>, DriverError>,
) -> bool {
    match tags_option_value(opt_doc(o.tags)) {
        Err(m) => r matches Err(e) && invalid_response_with(e, m),
        Ok(ts) => match hedge_option_value(opt_doc(o.hedge)) {
            Err(m) => r matches Err(e) && invalid_response_with(e, m),
            Ok(h) => if ts.len() > 0 || o.max_staleness_seconds >= 0 || h is Some {
                r matches Ok(Some(s)) && settings_are(s, ts, o.max_staleness_seconds, h)
            } else {
                r matches Ok(None)
            },
        },
    }
}

/// Builds the driver's read-preference settings from the caller's options.
/// Tag sets and staleness are set when given; hedging is set when the hedge
/// document has a boolean `enabled`; `None` when nothing is set.
pub fn parse_read_preference_options(options: &ReadPreferenceOptions) -> (r: Result<
    Option<ReadPreferenceSettings>,
    DriverError,
>)
    ensures
        read_preference_options_ok(*options, r),
{
    let mut tag_sets: Vec<Vec<(String, String)>> = Vec::new();
    assert(tag_sets_view(tag_sets@) =~= Seq::<Seq<(Seq<char>, Seq<char>)>>::empty());
    match &options.tags {
        None => {},
        Some(t) => {
            match t.check_document() {
                Ok(()) => {},
                Err(e) => return Err(e),
            }
            match first_array_items(t.data.as_slice()) {
                None => {},
                Some(items) => {
                    match read_tag_sets(&items) {
                        Ok(v) => {
                            tag_sets = v;
                        },
                        Err(e) => return Err(e),
                    }
                },
            }
        },
    }
    assert(tags_option_value(opt_doc(options.tags)) == Ok::<
        Seq<Seq<(Seq<char>, Seq<char>)>>,
        Seq<char>,
    >(tag_sets_view(tag_sets@)));
    let max_staleness = if options.max_staleness_seconds >= 0 {
        Some(duration_from_secs(options.max_staleness_seconds as u64))
    } else {
        None
    };
    let hedge = match &options.hedge {
        None => None,
        Some(h) => {
            match h.check_document() {
                Ok(()) => {},
                Err(e) => return Err(e),
            }
            bool_field(h.data.as_slice(), "enabled")
        },
    };
    let has_any = tag_sets.len() > 0 || options.max_staleness_seconds >= 0 || hedge.is_some();
    if !has_any {
        return Ok(None);
    }
    let tag_sets = if tag_sets.len() > 0 {
        Some(tag_sets)
    } else {
        None
    };
    Ok(Some(ReadPreferenceSettings { tag_sets, max_staleness, hedge }))
}

/// The mode of a read preference.
pub open spec fn pref_mode(p: ReadPreference) -> ReadPreferenceType {
    match p {
        ReadPreference::Primary => ReadPreferenceType::Primary,
        ReadPreference::PrimaryPreferred { .. } => ReadPreferenceType::PrimaryPreferred,
        ReadPreference::Secondary { .. } => ReadPreferenceType::Secondary,
        ReadPreference::SecondaryPreferred { .. } => ReadPreferenceType::SecondaryPreferred,
        ReadPreference::Nearest { .. } => ReadPreferenceType::Nearest,
    }
}

/// The mode numbers name the read-preference variants, one each: primary
/// is 0, primary-preferred 1, secondary 2, secondary-preferred 3 and
/// nearest 4.
pub proof fn modes_are_numbered_by_variant(p: ReadPreference)
    ensures
        p is Primary <==> mode_code(pref_mode(p)) == 0,
        p is PrimaryPreferred <==> mode_code(pref_mode(p)) == 1,
        p is Secondary <==> mode_code(pref_mode(p)) == 2,
        p is SecondaryPreferred <==> mode_code(pref_mode(p)) == 3,
        p is Nearest <==> mode_code(pref_mode(p)) == 4,
{
}

/// The settings of a read preference (none for the primary mode).
pub open spec fn pref_settings(p: ReadPreference) -> Option<ReadPreferenceSettings> {
    match p {
        ReadPreference::Primary => None,
        ReadPreference::PrimaryPreferred { options } => options,
        ReadPreference::Secondary { options } => options,
        ReadPreference::SecondaryPreferred { options } => options,
        ReadPreference::Nearest { options } => options,
    }
}

/// Whether reading the options `o` fails.
pub open spec fn options_read_fails(o: ReadPreferenceOptions) -> bool {
    tags_option_value(opt_doc(o.tags)) is Err || hedge_option_value(opt_doc(o.hedge)) is Err
}

/// Creates a read preference from a mode number and optional options; `None`
/// for a mode above 4 or options that cannot be read.  The primary mode
/// ignores the options.
pub fn read_preference_create(mode: u8, options: Option<&ReadPreferenceOptions>) -> (r: Option<
    ReadPreference,
>)
    ensures
        mode > 4 ==> r is None,
        mode == 0 ==> r == Some(ReadPreference::Primary),
        (1 <= mode <= 4 && options is None) ==> (r matches Some(p) && mode_code(pref_mode(p))
            == mode && pref_settings(p) is None),
        (1 <= mode <= 4 && options is Some) ==> (r is None <==> options_read_fails(
            *options.unwrap(),
        )),
        (1 <= mode <= 4 && options is Some) ==> (r matches Some(p) ==> mode_code(pref_mode(p))
            == mode && read_preference_options_ok(
            *options.unwrap(),
            Ok::<Option<ReadPreferenceSettings>, DriverError>(pref_settings(p)),
        )),
        r matches Some(p) ==> (mode == 0 <==> p is Primary),
        r matches Some(p) ==> (mode == 1 <==> p is PrimaryPreferred),
        r matches Some(p) ==> (mode == 2 <==> p is Secondary),
        r matches Some(p) ==> (mode == 3 <==> p is SecondaryPreferred),
        r matches Some(p) ==> (mode == 4 <==> p is Nearest),
{
    let t = match ReadPreferenceType::from_code(mode) {
        Some(t) => t,
        None => return None,
    };
    if mode == 0 {
        return Some(ReadPreference::Primary);
    }
    let rust_options = match options {
        None => None,
        Some(o) => match parse_read_preference_options(o) {
            Ok(opts) => opts,
            Err(_) => return None,
        },
    };
    let rp = match t {
        ReadPreferenceType::Primary => ReadPreference::Primary,
        ReadPreferenceType::PrimaryPreferred => ReadPreference::PrimaryPreferred {
            options: rust_options,
        },
        ReadPreferenceType::Secondary => ReadPreference::Secondary { options: rust_options },
        ReadPreferenceType::SecondaryPreferred => ReadPreference::SecondaryPreferred {
            options: rust_options,
        },
        ReadPreferenceType::Nearest => ReadPreference::Nearest { options: rust_options },
    };
    Some(rp)
}

} // verus!
