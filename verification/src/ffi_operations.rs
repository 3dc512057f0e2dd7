//! Argument checks and option building for the collection and database
//! operations: each takes the caller's nullable arguments and gives the
//! names, documents and driver options the operation runs with.

use std::time::Duration;
use vstd::prelude::*;
use vstd::utf8::{decode_utf8, valid_utf8};

use crate::bson_frame::{
    check_document_frame, decode_document, decode_failure, document_decodes, document_frame_ok,
    frame_error_text,
    invalid_response_with,
};
use crate::error::{is_invalid_argument, DriverError, ErrorKind};
use crate::ffi_context::{
    context_read_concern, context_read_preference, context_session, context_write_concern,
    OperationContext, SessionHandle,
};
use crate::change_stream::raw_lookup_of;
use crate::ffi_types::{wrapped_value_doc, Bson, BsonValue};
use crate::ffi_utils::{
    bad_utf8_message, c_char_to_string, c_string_ok, i64_to_duration_ms, i8_to_option_bool,
    millis_duration, opt_bytes,
};
use crate::options::{
    read_preference_same, ReadConcern, ReadPreference, WriteConcern,
};

verus! {

/// An index hint: by index name, or by key pattern.
pub enum Hint {
    Name(String),
    /// The bytes of the key-pattern document.
    Keys(Bson),
}

/// Whether an optional document argument is absent or framed.
pub open spec fn doc_arg_framed(b: Option<&Bson>) -> bool {
    match b {
        Some(x) => document_frame_ok(x.data@),
        None => true,
    }
}

/// What reading a required name gives: the decoded name, the UTF-8 error,
/// or the given message when the name is absent.
pub open spec fn required_name_ok(b: Option<&[u8]>, null_message: Seq<char>, r: Result<String, DriverError>) -> bool {
    match b {
        None => r matches Err(e) && is_invalid_argument(e, null_message),
        Some(x) => if valid_utf8(x@) {
            r matches Ok(s) && s@ == decode_utf8(x@)
        } else {
            r matches Err(e) && is_invalid_argument(e, bad_utf8_message(x@))
        },
    }
}

/// Reads a required name; absent is an invalid-argument error with `null_message`.
pub fn required_name(b: Option<&[u8]>, null_message: &str) -> (r: Result<String, DriverError>)
    ensures
        required_name_ok(b, null_message@, r),
{
    match c_char_to_string(b) {
        Ok(Some(s)) => Ok(s),
        Ok(None) => Err(DriverError::invalid_argument_str(null_message)),
        Err(e) => Err(e),
    }
}

/// An optional document argument reads: absent, or a document that decodes.
pub open spec fn doc_ok(b: Option<Bson>) -> bool {
    match b {
        None => true,
        Some(x) => document_decodes(x.data@),
    }
}

/// An optional comment reads: absent, without bytes, or a value that the
/// decoder finds in its wrapping document.
pub open spec fn comment_ok(c: Option<BsonValue>) -> bool {
    match c {
        None => true,
        Some(v) => v.data@.len() == 0 || raw_lookup_of(wrapped_value_doc(v.bson_type, v.data@), ""@) matches Ok(
            Some(_),
        ),
    }
}

/// A hint reads: a present name is UTF-8; without a name, the key pattern
/// reads as a document.
pub open spec fn hint_ok(name: Option<Vec<u8>>, keys: Option<Bson>) -> bool {
    match name {
        Some(n) => valid_utf8(n@),
        None => doc_ok(keys),
    }
}

/// Reads an optional document argument: absent is `None`; a document that
/// decodes is kept as the caller's bytes; a bad frame or a refused document
/// is an invalid-response error.
pub fn optional_document(b: Option<&Bson>) -> (r: Result<Option<Bson>, DriverError>)
    ensures
        b is None ==> r matches Ok(None),
        b matches Some(x) ==> (!document_frame_ok(x.data@) ==> (r matches Err(e)
            && invalid_response_with(e, frame_error_text(x.data@)))),
        b matches Some(x) ==> (r matches Err(e) ==> decode_failure(e, x.data@)),
        b matches Some(x) ==> (r is Ok ==> (r matches Ok(Some(d)) && d.data@ == x.data@)),
        r is Ok <==> match b {
            None => true,
            Some(x) => document_decodes(x.data@),
        },
{
    match b {
        None => Ok(None),
        Some(x) => match Bson::to_doc(Some(x)) {
            Ok(Some(_)) => Ok(Some(Bson { data: copy_bytes(&x.data) })),
            Ok(None) => Err(DriverError::internal_str("missing document")),
            Err(e) => Err(e),
        },
    }
}

/// The encoding of the empty document `{}`.
pub open spec fn empty_document_bytes() -> Seq<u8> {
    seq![5u8, 0u8, 0u8, 0u8, 0u8]
}

fn copy_bytes(b: &Vec<u8>) -> (r: Vec<u8>)
    ensures
        r@ == b@,
{
    let mut out: Vec<u8> = Vec::new();
    let mut i: usize = 0;
    while i < b.len()
        invariant
            i <= b@.len(),
            out@ == b@.take(i as int),
        decreases b@.len() - i,
    {
        out.push(b[i]);
        i = i + 1;
        assert(out@ =~= b@.take(i as int));
    }
    assert(b@.take(b@.len() as int) =~= b@);
    out
}

/// Reads a filter argument: the caller's document when it decodes, the
/// empty document `{}` when it is absent; a document that does not decode
/// gives its framing or decoder error.
pub fn filter_document(b: Option<&Bson>) -> (r: Result<Bson, DriverError>)
    ensures
        b is None ==> (r matches Ok(d) && d.data@ == empty_document_bytes()),
        b matches Some(x) ==> (r is Ok <==> document_decodes(x.data@)),
        b matches Some(x) ==> (r matches Ok(d) ==> d.data@ == x.data@),
        b matches Some(x) ==> (r matches Err(e) ==> decode_failure(e, x.data@)),
{
    match b {
        None => {
            let v: Vec<u8> = vec![5u8, 0u8, 0u8, 0u8, 0u8];
            assert(v@ =~= empty_document_bytes());
            Ok(Bson { data: v })
        },
        Some(x) => match Bson::to_doc(Some(x)) {
            Ok(Some(_)) => Ok(Bson { data: copy_bytes(&x.data) }),
            Ok(None) => Err(DriverError::internal_str("missing document")),
            Err(e) => Err(e),
        },
    }
}

/// Decodes an optional comment value: absent or without bytes is `None`;
/// otherwise the value its wrapping document holds.
pub fn optional_comment(c: Option<&BsonValue>) -> (r: Result<Option<bson::RawBson>, DriverError>)
    ensures
        c is None ==> r matches Ok(None),
        c matches Some(v) ==> (v.data@.len() == 0 <==> r matches Ok(None)),
        c matches Some(v) ==> (r matches Ok(Some(u)) ==> raw_lookup_of(
            wrapped_value_doc(v.bson_type, v.data@),
            ""@,
        ) == Ok::<Option<bson::RawBson>, Seq<char>>(Some(u))),
        r is Ok <==> match c {
            None => true,
            Some(v) => v.data@.len() == 0 || raw_lookup_of(wrapped_value_doc(v.bson_type, v.data@), ""@) matches Ok(
                Some(_),
            ),
        },
{
    match c {
        None => Ok(None),
        Some(v) => v.to_bson(),
    }
}

/// Reads a hint: a present name wins over a key pattern.
pub fn parse_hint(name: Option<&[u8]>, keys: Option<&Bson>) -> (r: Result<Option<Hint>, DriverError>)
    ensures
        name matches Some(n) ==> (valid_utf8(n@) ==> (r matches Ok(Some(Hint::Name(s))) && s@
            == decode_utf8(n@))),
        name matches Some(n) ==> (!valid_utf8(n@) ==> (r matches Err(e) && is_invalid_argument(
            e,
            bad_utf8_message(n@),
        ))),
        name is None && keys is None ==> r matches Ok(None),
        (name is None && keys is Some && !doc_arg_framed(keys)) ==> (r matches Err(e)
            && invalid_response_with(e, frame_error_text(keys.unwrap().data@))),
        (name is None && keys is Some && r is Ok) ==> (r matches Ok(Some(Hint::Keys(k)))
            && k.data@ == keys.unwrap().data@),
        r is Ok <==> match name {
            Some(n) => valid_utf8(n@),
            None => match keys {
                None => true,
                Some(k) => document_decodes(k.data@),
            },
        },
{
    match c_char_to_string(name) {
        Err(e) => return Err(e),
        Ok(Some(s)) => return Ok(Some(Hint::Name(s))),
        Ok(None) => {},
    }
    match optional_document(keys) {
        Err(e) => Err(e),
        Ok(Some(d)) => Ok(Some(Hint::Keys(d))),
        Ok(None) => Ok(None),
    }
}

} // verus!

verus! {

/// Whether the context fields of a driver option set match the context.
pub open spec fn read_side_from_ctx(
    ctx: Option<&OperationContext>,
    read_concern: Option<ReadConcern>,
    selection_criteria: Option<ReadPreference>,
) -> bool {
    &&& read_concern == (match ctx {
        Some(c) => c.read_concern,
        None => None,
    })
    &&& match ctx {
        Some(c) => match c.read_preference {
            Some(p) => selection_criteria matches Some(q) && read_preference_same(q, p),
            None => selection_criteria is None,
        },
        None => selection_criteria is None,
    }
}

/// The write concern of a context.
pub open spec fn ctx_write_concern(ctx: Option<&OperationContext>) -> Option<WriteConcern> {
    match ctx {
        Some(c) => c.write_concern,
        None => None,
    }
}

/// A duration option from a millisecond count, negative meaning unset.
pub open spec fn ms_option(ms: i64) -> Option<Duration> {
    if ms < 0 {
        None
    } else {
        Some(millis_duration(ms as u64))
    }
}

/// The view of an optional owned byte string as a slice.
fn slice_of(b: &Option<Vec<u8>>) -> (r: Option<&[u8]>)
    ensures
        opt_bytes(r) == (match *b {
            Some(x) => Some(x@),
            None => None,
        }),
        r is None <==> b is None,
{
    match b {
        None => None,
        Some(x) => Some(x.as_slice()),
    }
}

/// Whether the optional hint name, hint keys, collation, extra documents and
/// comment of an option set are free of framing and UTF-8 faults.
pub open spec fn doc_args_sound(
    hint_name: Option<Vec<u8>>,
    docs: Seq<Option<Bson>>,
) -> bool {
    &&& (hint_name matches Some(n) ==> valid_utf8(n@))
    &&& forall|i: int| 0 <= i < docs.len() ==> (#[trigger] docs[i] matches Some(b)
        ==> document_frame_ok(b.data@))
}

/// Whether `h` is the hint read from `name` and `keys`.
pub open spec fn hint_from(name: Option<Vec<u8>>, keys: Option<Bson>, h: Option<Hint>) -> bool {
    match name {
        Some(n) => h matches Some(Hint::Name(x)) && x@ == decode_utf8(n@),
        None => match keys {
            None => h is None,
            Some(k) => h matches Some(Hint::Keys(x)) && x.data@ == k.data@,
        },
    }
}

/// Whether the optional comment `c` was read into `v`: absent or empty stays
/// absent; otherwise `v` is the value its wrapping document holds.
pub open spec fn comment_from(c: Option<BsonValue>, v: Option<bson::RawBson>) -> bool {
    match c {
        None => v is None,
        Some(x) => if x.data@.len() == 0 {
            v is None
        } else {
            v matches Some(u) && raw_lookup_of(wrapped_value_doc(x.bson_type, x.data@), ""@)
                == Ok::<Option<bson::RawBson>, Seq<char>>(Some(u))
        },
    }
}

/// Whether the optional document `b` was read into `d`: absent stays
/// absent, a document keeps the caller's bytes.
pub open spec fn doc_from(b: Option<Bson>, d: Option<Bson>) -> bool {
    match b {
        None => d is None,
        Some(x) => d matches Some(y) && y.data@ == x.data@,
    }
}

/// Options for `aggregate`, as the caller passes them.
pub struct AggregateOptions {
    pub allow_disk_use: i8,
    pub batch_size: i32,
    pub bypass_document_validation: i8,
    pub collation: Option<Bson>,
    pub comment: Option<BsonValue>,
    pub hint_name: Option<Vec<u8>>,
    pub hint_keys: Option<Bson>,
    pub max_time_ms: i64,
    pub let_vars: Option<Bson>,
}

/// The driver options an aggregation runs with.
pub struct AggregateSettings {
    pub read_concern: Option<ReadConcern>,
    pub write_concern: Option<WriteConcern>,
    pub selection_criteria: Option<ReadPreference>,
    pub allow_disk_use: Option<bool>,
    pub batch_size: Option<u32>,
    pub bypass_document_validation: Option<bool>,
    pub collation: Option<Bson>,
    pub comment: Option<bson::RawBson>,
    pub hint: Option<Hint>,
    pub max_time: Option<Duration>,
    pub let_vars: Option<Bson>,
}

/// The tri-state flag `v` decoded.
pub open spec fn tri(v: i8) -> Option<bool> {
    if v == 0 {
        Some(false)
    } else if v == 1 {
        Some(true)
    } else {
        None
    }
}

/// Builds the aggregation options: concerns and read preference from the
/// context, the rest from `opts` when given.
pub fn parse_aggregate_options(opts: Option<&AggregateOptions>, ctx: Option<&OperationContext>) -> (r:
    Result<AggregateSettings, DriverError>)
    ensures
        r matches Ok(s) ==> read_side_from_ctx(ctx, s.read_concern, s.selection_criteria)
            && s.write_concern == ctx_write_concern(ctx),
        opts is None ==> (r matches Ok(s) && s.allow_disk_use is None && s.batch_size is None
            && s.bypass_document_validation is None && s.collation is None && s.comment is None
            && s.hint is None && s.max_time is None && s.let_vars is None),
        opts matches Some(o) ==> (r matches Ok(s) ==> s.allow_disk_use == tri(o.allow_disk_use)
            && s.batch_size == (if o.batch_size >= 0 {
            Some(o.batch_size as u32)
        } else {
            None
        }) && s.bypass_document_validation == tri(o.bypass_document_validation) && s.max_time
            == ms_option(o.max_time_ms) && hint_from(o.hint_name, o.hint_keys, s.hint)
            && comment_from(o.comment, s.comment) && doc_from(o.collation, s.collation) && doc_from(
            o.let_vars,
            s.let_vars,
        )),
        opts matches Some(o) ==> (!doc_args_sound(
            o.hint_name,
            seq![o.collation, o.let_vars, if o.hint_name is None { o.hint_keys } else { None }],
        ) ==> r is Err),
        opts matches Some(o) ==> (r is Ok <==> doc_ok(o.collation) && comment_ok(o.comment) && hint_ok(
            o.hint_name,
            o.hint_keys,
        ) && doc_ok(o.let_vars)),
{
    let read_concern = context_read_concern(ctx);
    let write_concern = context_write_concern(ctx);
    let selection_criteria = context_read_preference(ctx);
    let o = match opts {
        None => {
            return Ok(
                AggregateSettings {
                    read_concern,
                    write_concern,
                    selection_criteria,
                    allow_disk_use: None,
                    batch_size: None,
                    bypass_document_validation: None,
                    collation: None,
                    comment: None,
                    hint: None,
                    max_time: None,
                    let_vars: None,
                },
            )
        },
        Some(o) => o,
    };
    let allow_disk_use = i8_to_option_bool(o.allow_disk_use);
    let batch_size = if o.batch_size >= 0 {
        Some(o.batch_size as u32)
    } else {
        None
    };
    let bypass_document_validation = i8_to_option_bool(o.bypass_document_validation);
    let collation = match optional_document(o.collation.as_ref()) {
        Ok(x) => x,
        Err(e) => return Err(e),
    };
    let comment = match optional_comment(o.comment.as_ref()) {
        Ok(x) => x,
        Err(e) => return Err(e),
    };
    let hint = match parse_hint(slice_of(&o.hint_name), o.hint_keys.as_ref()) {
        Ok(x) => x,
        Err(e) => return Err(e),
    };
    let max_time = i64_to_duration_ms(o.max_time_ms);
    let let_vars = match optional_document(o.let_vars.as_ref()) {
        Ok(x) => x,
        Err(e) => return Err(e),
    };
    Ok(
        AggregateSettings {
            read_concern,
            write_concern,
            selection_criteria,
            allow_disk_use,
            batch_size,
            bypass_document_validation,
            collation,
            comment,
            hint,
            max_time,
            let_vars,
        },
    )
}

} // verus!

verus! {

/// Options for `count_documents`, as the caller passes them.
pub struct CountOptions {
    pub collation: Option<Bson>,
    pub hint_name: Option<Vec<u8>>,
    pub hint_keys: Option<Bson>,
    pub limit: i64,
    pub skip: i64,
    pub max_time_ms: i64,
    pub comment: Option<BsonValue>,
}

/// The driver options `count_documents` runs with.
pub struct CountSettings {
    pub read_concern: Option<ReadConcern>,
    pub selection_criteria: Option<ReadPreference>,
    pub hint: Option<Hint>,
    pub collation: Option<Bson>,
    pub limit: Option<u64>,
    pub skip: Option<u64>,
    pub max_time: Option<Duration>,
    pub comment: Option<bson::RawBson>,
}

/// A count option, negative meaning unset.
pub open spec fn count_option(v: i64) -> Option<u64> {
    if v >= 0 {
        Some(v as u64)
    } else {
        None
    }
}

/// Builds the `count_documents` options.
pub fn parse_count_options(opts: Option<&CountOptions>, ctx: Option<&OperationContext>) -> (r: Result<
    CountSettings,
    DriverError,
>)
    ensures
        r matches Ok(s) ==> read_side_from_ctx(ctx, s.read_concern, s.selection_criteria),
        opts is None ==> (r matches Ok(s) && s.hint is None && s.collation is None && s.limit is None
            && s.skip is None && s.max_time is None && s.comment is None),
        opts matches Some(o) ==> (r matches Ok(s) ==> s.limit == count_option(o.limit) && s.skip
            == count_option(o.skip) && s.max_time == ms_option(o.max_time_ms) && hint_from(
            o.hint_name,
            o.hint_keys,
            s.hint,
        ) && comment_from(o.comment, s.comment) && doc_from(o.collation, s.collation)),
        opts matches Some(o) ==> (!doc_args_sound(
            o.hint_name,
            seq![o.collation, if o.hint_name is None { o.hint_keys } else { None }],
        ) ==> r is Err),
        opts matches Some(o) ==> (r is Ok <==> hint_ok(o.hint_name, o.hint_keys) && doc_ok(o.collation)
            && comment_ok(o.comment)),
{
    let read_concern = context_read_concern(ctx);
    let selection_criteria = context_read_preference(ctx);
    let o = match opts {
        None => {
            return Ok(
                CountSettings {
                    read_concern,
                    selection_criteria,
                    hint: None,
                    collation: None,
                    limit: None,
                    skip: None,
                    max_time: None,
                    comment: None,
                },
            )
        },
        Some(o) => o,
    };
    let hint = match parse_hint(slice_of(&o.hint_name), o.hint_keys.as_ref()) {
        Ok(x) => x,
        Err(e) => return Err(e),
    };
    let collation = match optional_document(o.collation.as_ref()) {
        Ok(x) => x,
        Err(e) => return Err(e),
    };
    let limit = if o.limit >= 0 {
        Some(o.limit as u64)
    } else {
        None
    };
    let skip = if o.skip >= 0 {
        Some(o.skip as u64)
    } else {
        None
    };
    let max_time = i64_to_duration_ms(o.max_time_ms);
    let comment = match optional_comment(o.comment.as_ref()) {
        Ok(x) => x,
        Err(e) => return Err(e),
    };
    Ok(
        CountSettings {
            read_concern,
            selection_criteria,
            hint,
            collation,
            limit,
            skip,
            max_time,
            comment,
        },
    )
}

/// Options for `estimated_document_count`, as the caller passes them.
pub struct EstimatedDocumentCountOptions {
    pub max_time_ms: i64,
    pub comment: Option<BsonValue>,
}

/// The driver options `estimated_document_count` runs with.
pub struct EstimatedCountSettings {
    pub read_concern: Option<ReadConcern>,
    pub selection_criteria: Option<ReadPreference>,
    pub max_time: Option<Duration>,
    pub comment: Option<bson::RawBson>,
}

/// Builds the `estimated_document_count` options.
pub fn parse_estimated_options(
    opts: Option<&EstimatedDocumentCountOptions>,
    ctx: Option<&OperationContext>,
) -> (r: Result<EstimatedCountSettings, DriverError>)
    ensures
        r matches Ok(s) ==> read_side_from_ctx(ctx, s.read_concern, s.selection_criteria),
        opts is None ==> (r matches Ok(s) && s.max_time is None && s.comment is None),
        opts matches Some(o) ==> (r matches Ok(s) ==> s.max_time == ms_option(o.max_time_ms)
            && comment_from(o.comment, s.comment)),
        opts matches Some(o) ==> (o.comment is None ==> r is Ok),
        opts matches Some(o) ==> (r is Ok <==> comment_ok(o.comment)),
{
    let read_concern = context_read_concern(ctx);
    let selection_criteria = context_read_preference(ctx);
    let o = match opts {
        None => {
            return Ok(
                EstimatedCountSettings {
                    read_concern,
                    selection_criteria,
                    max_time: None,
                    comment: None,
                },
            )
        },
        Some(o) => o,
    };
    let max_time = i64_to_duration_ms(o.max_time_ms);
    let comment = match optional_comment(o.comment.as_ref()) {
        Ok(x) => x,
        Err(e) => return Err(e),
    };
    Ok(EstimatedCountSettings { read_concern, selection_criteria, max_time, comment })
}

/// Options for the delete operations, as the caller passes them.
pub struct DeleteOptions {
    pub collation: Option<Bson>,
    pub hint_name: Option<Vec<u8>>,
    pub hint_keys: Option<Bson>,
    pub let_vars: Option<Bson>,
    pub comment: Option<BsonValue>,
}

/// The driver options a delete runs with.
pub struct DeleteSettings {
    pub write_concern: Option<WriteConcern>,
    pub hint: Option<Hint>,
    pub collation: Option<Bson>,
    pub let_vars: Option<Bson>,
    pub comment: Option<bson::RawBson>,
}

/// Builds the delete options: the write concern from the context.
pub fn parse_delete_options(opts: Option<&DeleteOptions>, ctx: Option<&OperationContext>) -> (r:
    Result<DeleteSettings, DriverError>)
    ensures
        r matches Ok(s) ==> s.write_concern == ctx_write_concern(ctx),
        opts is None ==> (r matches Ok(s) && s.hint is None && s.collation is None && s.let_vars
            is None && s.comment is None),
        opts matches Some(o) ==> (r matches Ok(s) ==> hint_from(o.hint_name, o.hint_keys, s.hint)
            && comment_from(o.comment, s.comment) && doc_from(o.collation, s.collation) && doc_from(
            o.let_vars,
            s.let_vars,
        )),
        opts matches Some(o) ==> (!doc_args_sound(
            o.hint_name,
            seq![o.collation, o.let_vars, if o.hint_name is None { o.hint_keys } else { None }],
        ) ==> r is Err),
        opts matches Some(o) ==> (r is Ok <==> hint_ok(o.hint_name, o.hint_keys) && doc_ok(o.collation)
            && doc_ok(o.let_vars) && comment_ok(o.comment)),
{
    let write_concern = context_write_concern(ctx);
    let o = match opts {
        None => {
            return Ok(
                DeleteSettings {
                    write_concern,
                    hint: None,
                    collation: None,
                    let_vars: None,
                    comment: None,
                },
            )
        },
        Some(o) => o,
    };
    let hint = match parse_hint(slice_of(&o.hint_name), o.hint_keys.as_ref()) {
        Ok(x) => x,
        Err(e) => return Err(e),
    };
    let collation = match optional_document(o.collation.as_ref()) {
        Ok(x) => x,
        Err(e) => return Err(e),
    };
    let let_vars = match optional_document(o.let_vars.as_ref()) {
        Ok(x) => x,
        Err(e) => return Err(e),
    };
    let comment = match optional_comment(o.comment.as_ref()) {
        Ok(x) => x,
        Err(e) => return Err(e),
    };
    Ok(DeleteSettings { write_concern, hint, collation, let_vars, comment })
}

/// Options for `distinct`, as the caller passes them.
pub struct DistinctOptions {
    pub collation: Option<Bson>,
    pub hint_name: Option<Vec<u8>>,
    pub hint_keys: Option<Bson>,
    pub max_time_ms: i64,
    pub comment: Option<BsonValue>,
}

/// The driver options `distinct` runs with.
pub struct DistinctSettings {
    pub read_concern: Option<ReadConcern>,
    pub selection_criteria: Option<ReadPreference>,
    pub hint: Option<Hint>,
    pub collation: Option<Bson>,
    pub max_time: Option<Duration>,
    pub comment: Option<bson::RawBson>,
}

/// Builds the `distinct` options.
pub fn parse_distinct_options(opts: Option<&DistinctOptions>, ctx: Option<&OperationContext>) -> (r:
    Result<DistinctSettings, DriverError>)
    ensures
        r matches Ok(s) ==> read_side_from_ctx(ctx, s.read_concern, s.selection_criteria),
        opts is None ==> (r matches Ok(s) && s.hint is None && s.collation is None && s.max_time
            is None && s.comment is None),
        opts matches Some(o) ==> (r matches Ok(s) ==> s.max_time == ms_option(o.max_time_ms)
            && hint_from(o.hint_name, o.hint_keys, s.hint) && comment_from(o.comment, s.comment)
            && doc_from(o.collation, s.collation)),
        opts matches Some(o) ==> (!doc_args_sound(
            o.hint_name,
            seq![o.collation, if o.hint_name is None { o.hint_keys } else { None }],
        ) ==> r is Err),
        opts matches Some(o) ==> (r is Ok <==> hint_ok(o.hint_name, o.hint_keys) && doc_ok(o.collation)
            && comment_ok(o.comment)),
{
    let read_concern = context_read_concern(ctx);
    let selection_criteria = context_read_preference(ctx);
    let o = match opts {
        None => {
            return Ok(
                DistinctSettings {
                    read_concern,
                    selection_criteria,
                    hint: None,
                    collation: None,
                    max_time: None,
                    comment: None,
                },
            )
        },
        Some(o) => o,
    };
    let hint = match parse_hint(slice_of(&o.hint_name), o.hint_keys.as_ref()) {
        Ok(x) => x,
        Err(e) => return Err(e),
    };
    let collation = match optional_document(o.collation.as_ref()) {
        Ok(x) => x,
        Err(e) => return Err(e),
    };
    let max_time = i64_to_duration_ms(o.max_time_ms);
    let comment = match optional_comment(o.comment.as_ref()) {
        Ok(x) => x,
        Err(e) => return Err(e),
    };
    Ok(DistinctSettings { read_concern, selection_criteria, hint, collation, max_time, comment })
}

/// The driver options an insert runs with.
pub struct InsertSettings {
    pub bypass_document_validation: Option<bool>,
    pub ordered: Option<bool>,
    pub comment: Option<bson::RawBson>,
    pub write_concern: Option<WriteConcern>,
}

/// A flag where a negative value means unset and any other non-zero value `true`.
pub open spec fn flag_option(v: i8) -> Option<bool> {
    if v >= 0 {
        Some(v != 0)
    } else {
        None
    }
}

/// Builds the insert options; `ordered` is given only for batch inserts.
pub fn insert_options(
    bypass_document_validation: i8,
    ordered: Option<bool>,
    comment: Option<&BsonValue>,
    ctx: Option<&OperationContext>,
) -> (r: Result<InsertSettings, DriverError>)
    ensures
        r matches Ok(s) ==> s.bypass_document_validation == flag_option(bypass_document_validation)
            && s.ordered == ordered && s.write_concern == ctx_write_concern(ctx),
        r matches Ok(s) ==> match comment {
            None => s.comment is None,
            Some(c) => (c.data@.len() == 0 <==> s.comment is None),
        },
        comment is None ==> r is Ok,
        r is Ok <==> match comment {
            None => true,
            Some(v) => v.data@.len() == 0 || raw_lookup_of(wrapped_value_doc(v.bson_type, v.data@), ""@) matches Ok(
                Some(_),
            ),
        },
{
    let bdv = if bypass_document_validation >= 0 {
        Some(bypass_document_validation != 0)
    } else {
        None
    };
    let c = match optional_comment(comment) {
        Ok(x) => x,
        Err(e) => return Err(e),
    };
    Ok(
        InsertSettings {
            bypass_document_validation: bdv,
            ordered,
            comment: c,
            write_concern: context_write_concern(ctx),
        },
    )
}

/// The driver options `find` runs with.
pub struct FindSettings {
    pub allow_disk_use: Option<bool>,
    pub read_concern: Option<ReadConcern>,
    pub selection_criteria: Option<ReadPreference>,
}

/// Builds the `find` options.
pub fn find_options(allow_disk_use: bool, ctx: Option<&OperationContext>) -> (r: FindSettings)
    ensures
        r.allow_disk_use == Some(allow_disk_use),
        read_side_from_ctx(ctx, r.read_concern, r.selection_criteria),
{
    FindSettings {
        allow_disk_use: Some(allow_disk_use),
        read_concern: context_read_concern(ctx),
        selection_criteria: context_read_preference(ctx),
    }
}

/// The database and collection an operation targets.
pub struct CollectionTarget {
    pub db_name: String,
    pub coll_name: String,
}

/// `e` is the error reading the failed required name `b` gives: the
/// `null_message` when it is absent, the UTF-8 error when it is not UTF-8.
pub open spec fn name_failure(b: Option<&[u8]>, null_message: Seq<char>, e: DriverError) -> bool {
    match b {
        None => is_invalid_argument(e, null_message),
        Some(x) => is_invalid_argument(e, bad_utf8_message(x@)),
    }
}

/// What checking a collection operation's client and names gives: the
/// client first, then the database name, then the collection name.
pub open spec fn collection_target_ok(
    client_present: bool,
    db_name: Option<&[u8]>,
    coll_name: Option<&[u8]>,
    r: Result<CollectionTarget, DriverError>,
) -> bool {
    if !client_present {
        r matches Err(e) && is_invalid_argument(e, "client cannot be null"@)
    } else {
        match required_name_spec(db_name) {
            Err(()) => r matches Err(e) && name_failure(db_name, "db_name cannot be null"@, e),
            Ok(d) => match required_name_spec(coll_name) {
                Err(()) => r matches Err(e) && name_failure(coll_name, "coll_name cannot be null"@, e),
                Ok(c) => r matches Ok(t) && t.db_name@ == d && t.coll_name@ == c,
            },
        }
    }
}

/// The decoded required name, or `Err` when absent or not UTF-8.
pub open spec fn required_name_spec(b: Option<&[u8]>) -> Result<Seq<char>, ()> {
    match b {
        Some(x) => if valid_utf8(x@) {
            Ok(decode_utf8(x@))
        } else {
            Err(())
        },
        None => Err(()),
    }
}

/// Checks the client and reads the database and collection names of a
/// collection operation, in the order the operation reports problems.
pub fn collection_target(
    client_present: bool,
    db_name: Option<&[u8]>,
    coll_name: Option<&[u8]>,
) -> (r: Result<CollectionTarget, DriverError>)
    ensures
        collection_target_ok(client_present, db_name, coll_name, r),
        client_present ==> (db_name is None ==> (r matches Err(e) && is_invalid_argument(
            e,
            "db_name cannot be null"@,
        ))),
        client_present ==> (required_name_spec(db_name) is Ok && coll_name is None ==> (r matches Err(
            e,
        ) && is_invalid_argument(e, "coll_name cannot be null"@))),
{
    if !client_present {
        return Err(DriverError::invalid_argument_str("client cannot be null"));
    }
    let db = match required_name(db_name, "db_name cannot be null") {
        Ok(x) => x,
        Err(e) => return Err(e),
    };
    let coll = match required_name(coll_name, "coll_name cannot be null") {
        Ok(x) => x,
        Err(e) => return Err(e),
    };
    Ok(CollectionTarget { db_name: db, coll_name: coll })
}

/// The target of `distinct`: the collection and the field whose values are wanted.
pub struct DistinctTarget {
    pub target: CollectionTarget,
    pub field_name: String,
}

/// Checks the client and reads the database, collection and field names of
/// `distinct`, in that order, each failing name reported as it reads.
pub fn distinct_target(
    client_present: bool,
    db_name: Option<&[u8]>,
    coll_name: Option<&[u8]>,
    field_name: Option<&[u8]>,
) -> (r: Result<DistinctTarget, DriverError>)
    ensures
        !client_present ==> (r matches Err(e) && is_invalid_argument(e, "client cannot be null"@)),
        client_present ==> match required_name_spec(db_name) {
            Err(()) => r matches Err(e) && name_failure(db_name, "db_name cannot be null"@, e),
            Ok(d) => match required_name_spec(coll_name) {
                Err(()) => r matches Err(e) && name_failure(coll_name, "coll_name cannot be null"@, e),
                Ok(c) => match required_name_spec(field_name) {
                    Err(()) => r matches Err(e) && name_failure(field_name, "field_name cannot be null"@, e),
                    Ok(f) => r matches Ok(t) && t.target.db_name@ == d && t.target.coll_name@ == c
                        && t.field_name@ == f,
                },
            },
        },
{
    let target = match collection_target(client_present, db_name, coll_name) {
        Ok(t) => t,
        Err(e) => return Err(e),
    };
    let field = match required_name(field_name, "field_name cannot be null") {
        Ok(f) => f,
        Err(e) => return Err(e),
    };
    Ok(DistinctTarget { target, field_name: field })
}

/// Checks the client and reads the database name of a database operation.
pub fn database_target(client_present: bool, db_name: Option<&[u8]>) -> (r: Result<String, DriverError>)
    ensures
        !client_present ==> (r matches Err(e) && is_invalid_argument(e, "client cannot be null"@)),
        client_present ==> required_name_ok(db_name, "db_name cannot be null"@, r),
{
    if !client_present {
        return Err(DriverError::invalid_argument_str("client cannot be null"));
    }
    required_name(db_name, "db_name cannot be null")
}

/// Reads the pipeline stages of an aggregation: each must decode as a
/// document, and the stages are the caller's documents, in order.  The first
/// stage that does not decode gives the error.
pub fn pipeline_from_array(pipeline: &Vec<Bson>) -> (r: Result<Vec<Bson>, DriverError>)
    ensures
        r is Ok <==> forall|i: int| 0 <= i < pipeline@.len() ==> document_decodes(#[trigger] pipeline@[i].data@),
        r matches Ok(v) ==> v@.len() == pipeline@.len() && forall|i: int|
            0 <= i < v@.len() ==> (#[trigger] v@[i]).data@ == pipeline@[i].data@,
        r matches Err(e) ==> exists|k: int|
            0 <= k < pipeline@.len() && (forall|j: int| 0 <= j < k ==> document_decodes(#[trigger] pipeline@[j].data@))
                && !document_decodes(#[trigger] pipeline@[k].data@) && decode_failure(e, pipeline@[k].data@),
{
    let mut docs: Vec<Bson> = Vec::new();
    let mut i: usize = 0;
    while i < pipeline.len()
        invariant
            i <= pipeline@.len(),
            docs@.len() == i,
            forall|j: int| 0 <= j < i ==> document_decodes(#[trigger] pipeline@[j].data@),
            forall|j: int| 0 <= j < i ==> (#[trigger] docs@[j]).data@ == pipeline@[j].data@,
        decreases pipeline@.len() - i,
    {
        match Bson::to_doc(Some(&pipeline[i])) {
            Ok(Some(_)) => docs.push(Bson { data: copy_bytes(&pipeline[i].data) }),
            Ok(None) => return Err(DriverError::internal_str("missing document")),
            Err(e) => {
                assert(!document_decodes(pipeline@[i as int].data@));
                return Err(e);
            },
        }
        i = i + 1;
    }
    Ok(docs)
}

/// Checks the arguments of `insert_many`: a client, at least one document,
/// then the names.
pub fn insert_many_target(
    client_present: bool,
    documents_empty: bool,
    db_name: Option<&[u8]>,
    coll_name: Option<&[u8]>,
) -> (r: Result<CollectionTarget, DriverError>)
    ensures
        !client_present ==> (r matches Err(e) && is_invalid_argument(e, "client cannot be null"@)),
        client_present && documents_empty ==> (r matches Err(e) && is_invalid_argument(
            e,
            "documents cannot be empty"@,
        )),
        client_present && !documents_empty ==> collection_target_ok(true, db_name, coll_name, r),
{
    if !client_present {
        return Err(DriverError::invalid_argument_str("client cannot be null"));
    }
    if documents_empty {
        return Err(DriverError::invalid_argument_str("documents cannot be empty"));
    }
    collection_target(true, db_name, coll_name)
}

/// Checks the arguments of an operation that needs a document (`what`):
/// a client, the document, then the names.
pub fn document_op_target(
    client_present: bool,
    document_present: bool,
    missing_document_message: &str,
    db_name: Option<&[u8]>,
    coll_name: Option<&[u8]>,
) -> (r: Result<CollectionTarget, DriverError>)
    ensures
        !client_present ==> (r matches Err(e) && is_invalid_argument(e, "client cannot be null"@)),
        client_present && !document_present ==> (r matches Err(e) && is_invalid_argument(
            e,
            missing_document_message@,
        )),
        client_present && document_present ==> collection_target_ok(true, db_name, coll_name, r),
{
    if !client_present {
        return Err(DriverError::invalid_argument_str("client cannot be null"));
    }
    if !document_present {
        return Err(DriverError::invalid_argument_str(missing_document_message));
    }
    collection_target(true, db_name, coll_name)
}

/// The arguments `run_command` runs with.
pub struct CommandArgs {
    pub db_name: String,
    pub selection_criteria: Option<ReadPreference>,
    pub command: Vec<u8>,
    pub session: Option<SessionHandle>,
}

/// Checks the arguments of `run_command`: a client, a command, the
/// database name, and a framed command document.
pub fn run_command_args(
    client_present: bool,
    ctx: Option<&OperationContext>,
    db_name: Option<&[u8]>,
    command: Option<&Bson>,
) -> (r: Result<CommandArgs, DriverError>)
    ensures
        !client_present ==> (r matches Err(e) && is_invalid_argument(e, "client cannot be null"@)),
        client_present && command is None ==> (r matches Err(e) && is_invalid_argument(
            e,
            "command cannot be null"@,
        )),
        client_present && command is Some ==> (r is Ok <==> required_name_spec(db_name) is Ok
            && document_frame_ok(command.unwrap().data@)),
        client_present && command is Some && required_name_spec(db_name) is Err ==> (r matches Err(e)
            && name_failure(db_name, "db_name cannot be null"@, e)),
        client_present && command is Some && required_name_spec(db_name) is Ok && !document_frame_ok(
            command.unwrap().data@,
        ) ==> (r matches Err(e) && invalid_response_with(e, frame_error_text(command.unwrap().data@))),
        r matches Ok(a) ==> a.command@ == command.unwrap().data@ && Ok::<Seq<char>, ()>(
            a.db_name@,
        ) == required_name_spec(db_name) && a.session == (match ctx {
            Some(c) => c.session,
            None => None,
        }),
{
    if !client_present {
        return Err(DriverError::invalid_argument_str("client cannot be null"));
    }
    let cmd = match command {
        None => return Err(DriverError::invalid_argument_str("command cannot be null")),
        Some(c) => c,
    };
    let db = match required_name(db_name, "db_name cannot be null") {
        Ok(x) => x,
        Err(e) => return Err(e),
    };
    let selection_criteria = context_read_preference(ctx);
    match check_document_frame(cmd.data.as_slice()) {
        Ok(()) => {},
        Err(e) => return Err(e),
    }
    let copy = crate::ffi_types::OwnedBson::from_raw(cmd.data.as_slice());
    Ok(CommandArgs { db_name: db, selection_criteria, command: copy.0.data, session: context_session(ctx) })
}

} // verus!
