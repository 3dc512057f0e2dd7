//! Cursor iteration checks and results, and the hand-off of an operation's
//! outcome to the caller's callback.

use vstd::prelude::*;

use crate::bson_frame::invalid_response_with;
use crate::error::{is_invalid_argument, DriverError};
use crate::ffi_error::{reports, Error};
use crate::ffi_types::{array_read_ok, encodable_value, encodes_value, ArrayItem, Bson, BsonArray, OwnedBson, OwnedBsonValue};

verus! {

/// How a cursor was created: without or with an explicit session.
#[derive(PartialEq, Eq, Structural, Clone, Copy, Debug)]
pub enum CursorKind {
    Base,
    Session,
}

/// The state of a cursor handle as `get_more` finds it.
#[derive(PartialEq, Eq, Structural, Clone, Copy, Debug)]
pub struct CursorState {
    pub kind: CursorKind,
    /// Whether another iteration holds the cursor's lock.
    pub in_use: bool,
}

/// Checks that a `get_more` may start: a client and a cursor are given, the
/// cursor is not in use, and a session is given exactly when the cursor was
/// created with one.
pub fn get_more_check(client_present: bool, cursor: Option<CursorState>, session_present: bool) -> (r:
    Result<(), DriverError>)
    ensures
        !client_present ==> (r matches Err(e) && is_invalid_argument(e, "client cannot be null"@)),
        client_present && cursor is None ==> (r matches Err(e) && is_invalid_argument(
            e,
            "cursor cannot be null"@,
        )),
        cursor matches Some(c) ==> (client_present && c.in_use ==> (r matches Err(e)
            && is_invalid_argument(e, "cannot iterate on a cursor already in use"@))),
        cursor matches Some(c) ==> (client_present && !c.in_use && c.kind == CursorKind::Base
            && session_present ==> (r matches Err(e) && is_invalid_argument(
            e,
            "cursors created without a session must not be iterated with one"@,
        ))),
        cursor matches Some(c) ==> (client_present && !c.in_use && c.kind == CursorKind::Session
            && !session_present ==> (r matches Err(e) && is_invalid_argument(
            e,
            "cursors created with a session must be iterated with that session"@,
        ))),
        r is Ok <==> (cursor matches Some(c) && client_present && !c.in_use && (c.kind
            == CursorKind::Session <==> session_present)),
{
    if !client_present {
        return Err(DriverError::invalid_argument_str("client cannot be null"));
    }
    let c = match cursor {
        None => return Err(DriverError::invalid_argument_str("cursor cannot be null")),
        Some(c) => c,
    };
    if c.in_use {
        return Err(DriverError::invalid_argument_str("cannot iterate on a cursor already in use"));
    }
    match c.kind {
        CursorKind::Base => {
            if session_present {
                return Err(
                    DriverError::invalid_argument_str(
                        "cursors created without a session must not be iterated with one",
                    ),
                );
            }
        },
        CursorKind::Session => {
            if !session_present {
                return Err(
                    DriverError::invalid_argument_str(
                        "cursors created with a session must be iterated with that session",
                    ),
                );
            }
        },
    }
    Ok(())
}

/// What a `get_more` hands back once the batch arrives: whether the cursor
/// is exhausted and the batch document; no batch at all is an invalid response.
pub fn get_more_outcome(batch: Option<Result<Vec<u8>, DriverError>>, exhausted: bool) -> (r: Result<
    (bool, Bson),
    DriverError,
>)
    ensures
        batch is None ==> (r matches Err(e) && invalid_response_with(
            e,
            "no batch returned for unexhausted cursor"@,
        )),
        batch matches Some(Err(e)) ==> r == Err::<(bool, Bson), DriverError>(e),
        batch matches Some(Ok(b)) ==> (r matches Ok((x, d)) && x == exhausted && d.data@ == b@),
{
    match batch {
        None => Err(DriverError::invalid_response_str("no batch returned for unexhausted cursor")),
        Some(Err(e)) => Err(e),
        Some(Ok(b)) => Ok((exhausted, Bson { data: b })),
    }
}

/// The result of a cursor-returning operation: the cursor (absent once
/// exhausted), whether it is exhausted, and the first batch.
pub struct CursorResult<C> {
    pub cursor: Option<C>,
    pub exhausted: bool,
    pub first_batch: BsonArray,
}

/// Builds the result of a cursor-returning operation from its first batch;
/// an exhausted cursor is dropped rather than handed out.
pub fn cursor_result<C>(cursor: C, exhausted: bool, first_batch: Option<Result<Vec<ArrayItem>, DriverError>>) -> (r:
    Result<(Vec<Vec<u8>>, CursorResult<C>), DriverError>)
    ensures
        first_batch matches Some(Err(e)) ==> r == Err::<(Vec<Vec<u8>>, CursorResult<C>), DriverError>(
            e,
        ),
        first_batch is None ==> (r matches Ok((docs, res)) && docs@.len() == 0
            && res.first_batch.data.spec_is_null() && res.first_batch.len == 0),
        first_batch matches Some(Ok(items)) ==> array_read_ok(
            items@.map_values(|x: ArrayItem| x@),
            match r {
                Ok((d, res)) => Ok((d, res.first_batch)),
                Err(e) => Err(e),
            },
        ),
        r matches Ok((_, res)) ==> res.exhausted == exhausted && (res.cursor is None <==> exhausted)
            && (!exhausted ==> res.cursor == Some(cursor)),
{
    let (docs, arr) = match first_batch {
        None => (Vec::new(), BsonArray::null()),
        Some(Err(e)) => return Err(e),
        Some(Ok(items)) => match BsonArray::from_items(&items) {
            Ok(x) => x,
            Err(e) => return Err(e),
        },
    };
    let c = if exhausted {
        None
    } else {
        Some(cursor)
    };
    Ok((docs, CursorResult { cursor: c, exhausted, first_batch: arr }))
}

/// Splits an outcome into the two callback arguments: the result on success,
/// the error on failure; exactly one is present.
pub fn callback_arguments<Out, E>(result: &Result<Out, E>) -> (r: (Option<&Out>, Option<&E>))
    ensures
        result matches Ok(o) ==> r.0 == Some(o) && r.1 is None,
        result matches Err(e) ==> r.0 is None && r.1 == Some(e),
        r.0 is Some != r.1 is Some,
{
    match result {
        Ok(o) => (Some(o), None),
        Err(e) => (None, Some(e)),
    }
}

/// Reports a setup failure to the caller: a success passes through, a driver
/// error becomes the caller's error value.
pub fn report_setup<R>(result: Result<R, DriverError>) -> (r: Result<R, Error>)
    ensures
        result matches Ok(v) ==> r == Ok::<R, Error>(v),
        result matches Err(e) ==> r matches Err(x) && reports(x, e),
{
    match result {
        Ok(v) => Ok(v),
        Err(e) => Err(Error::from_driver_error(&e)),
    }
}

/// A finished operation waiting for the caller's executor to deliver it.
pub struct PendingCallback<Out, E> {
    result: Result<Out, E>,
}

impl<Out, E> PendingCallback<Out, E> {
    /// Holds a finished operation's outcome.
    pub fn new(result: Result<Out, E>) -> (r: PendingCallback<Out, E>)
        ensures
            r.outcome() == result,
    {
        PendingCallback { result }
    }

    /// The outcome held.
    pub closed spec fn outcome(&self) -> Result<Out, E> {
        self.result
    }

    /// Delivers the outcome once, consuming the pending callback: the callback
    /// arguments are the result or the error, exactly one of them.
    pub fn invoke(self) -> (r: (Option<Out>, Option<E>))
        ensures
            self.outcome() matches Ok(o) ==> r.0 == Some(o) && r.1 is None,
            self.outcome() matches Err(e) ==> r.0 is None && r.1 == Some(e),
    {
        match self.result {
            Ok(o) => (Some(o), None),
            Err(e) => (None, Some(e)),
        }
    }
}

/// The dispatcher a client delivers callbacks through.
#[derive(PartialEq, Eq, Structural, Clone, Copy, Debug)]
pub struct Dispatcher {
    /// Identifies the caller's dispatch function.
    pub dispatch_fn: usize,
    /// The caller's context, passed back on each dispatch.
    pub context: usize,
}

/// The dispatcher after the caller sets one: a null function clears it.
pub fn dispatcher_update(dispatch_fn: usize, context: usize) -> (r: Option<Dispatcher>)
    ensures
        dispatch_fn == 0 ==> r is None,
        dispatch_fn != 0 ==> r == Some(Dispatcher { dispatch_fn, context }),
{
    if dispatch_fn == 0 {
        None
    } else {
        Some(Dispatcher { dispatch_fn, context })
    }
}

/// The `_id` of an inserted document at a batch position.
pub struct InsertedId {
    pub index: usize,
    pub id: OwnedBsonValue,
}

/// The result of `insert_one`.
pub struct InsertOneResult {
    pub inserted_id: OwnedBsonValue,
}

/// The result of `insert_many`.
pub struct InsertManyResult {
    pub inserted_ids: Vec<InsertedId>,
}

/// The result of a delete.
pub struct DeleteResult {
    pub deleted_count: u64,
}

/// The result of `distinct`.
pub struct DistinctResult {
    pub values: Vec<OwnedBsonValue>,
}

/// The result of `insert_one`: the inserted id, encoded.
pub fn insert_one_result(id: &bson::RawBson) -> (r: InsertOneResult)
    requires
        encodable_value(*id),
    ensures
        encodes_value(r.inserted_id.0, *id),
{
    InsertOneResult { inserted_id: OwnedBsonValue::from_bson(id) }
}

/// The result of `insert_many`: each inserted id, encoded, with its position
/// in the batch, in the order given.
pub fn insert_many_result(ids: &Vec<(usize, bson::RawBson)>) -> (r: InsertManyResult)
    requires
        forall|i: int| 0 <= i < ids@.len() ==> encodable_value(#[trigger] ids@[i].1),
    ensures
        r.inserted_ids@.len() == ids@.len(),
        forall|i: int|
            0 <= i < ids@.len() ==> (#[trigger] r.inserted_ids@[i]).index == ids@[i].0 && encodes_value(
                r.inserted_ids@[i].id.0,
                ids@[i].1,
            ),
{
    let mut out: Vec<InsertedId> = Vec::new();
    let mut i: usize = 0;
    while i < ids.len()
        invariant
            i <= ids@.len(),
            out@.len() == i,
            forall|j: int| 0 <= j < ids@.len() ==> encodable_value(#[trigger] ids@[j].1),
            forall|j: int|
                0 <= j < i ==> (#[trigger] out@[j]).index == ids@[j].0 && encodes_value(out@[j].id.0, ids@[j].1),
        decreases ids@.len() - i,
    {
        let (index, id) = &ids[i];
        out.push(InsertedId { index: *index, id: OwnedBsonValue::from_bson(id) });
        i = i + 1;
    }
    InsertManyResult { inserted_ids: out }
}

/// The result of `distinct`: each value, encoded, in the order given.
pub fn distinct_result(values: &Vec<bson::RawBson>) -> (r: DistinctResult)
    requires
        forall|i: int| 0 <= i < values@.len() ==> encodable_value(#[trigger] values@[i]),
    ensures
        r.values@.len() == values@.len(),
        forall|i: int| 0 <= i < values@.len() ==> encodes_value((#[trigger] r.values@[i]).0, values@[i]),
{
    let mut out: Vec<OwnedBsonValue> = Vec::new();
    let mut i: usize = 0;
    while i < values.len()
        invariant
            i <= values@.len(),
            out@.len() == i,
            forall|j: int| 0 <= j < values@.len() ==> encodable_value(#[trigger] values@[j]),
            forall|j: int| 0 <= j < i ==> encodes_value((#[trigger] out@[j]).0, values@[j]),
        decreases values@.len() - i,
    {
        out.push(OwnedBsonValue::from_bson(&values[i]));
        i = i + 1;
    }
    DistinctResult { values: out }
}

/// The reply of `run_command` handed to the caller.
pub fn command_reply(reply: &[u8]) -> (r: OwnedBson)
    ensures
        r.0.data@ == reply@,
{
    OwnedBson::from_raw(reply)
}

} // verus!
