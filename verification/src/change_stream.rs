//! Resume bookkeeping of change streams: which resume token is cached after
//! each advance of the underlying cursor, and when a failed advance is
//! answered by an automatic resume.
//!
//! The stream itself (polling the cursor, running the resume aggregation)
//! happens around these functions: they take what the cursor gave and say
//! what to do next.

use vstd::prelude::*;

use crate::bson_frame::document_frame_ok;
use crate::error::{is_invalid_response, DriverError, ErrorKind};
use crate::ffi_context::SessionHandle;
use crate::watch::{AggregateTarget, ChangeStreamSettings};

verus! {

#[verifier::external_type_specification]
#[verifier::external_body]
pub struct ExTimestamp(bson::Timestamp);

/// A token from which a change stream can be resumed: the `_id` of a change
/// event, or the post-batch token the server sent with a batch.
pub struct ResumeToken(pub bson::RawBson);

/// What `RawDocument::get` gives for `key` in the framed document `doc`, the
/// value taken as an owned raw value: the rendered error of the first element
/// that could not be read before `key` was found, or the value, if present.
pub uninterp spec fn raw_lookup_of(doc: Seq<u8>, key: Seq<char>) -> Result<Option<bson::RawBson>, Seq<char>>;

/// `bson::RawDocument::get` on a framed document, with `RawBsonRef::to_raw_bson`.
#[verifier::external_body]
pub(crate) fn raw_lookup(doc: &[u8], key: &str) -> (r: Result<Option<bson::RawBson>, String>)
    requires
        document_frame_ok(doc@),
    ensures
        match raw_lookup_of(doc@, key@) {
            Ok(v) => r matches Ok(w) && w == v,
            Err(m) => r matches Err(e) && e@ == m,
        },
{
    match bson::RawDocument::from_bytes(doc) {
        Ok(d) => match d.get(key) {
            Ok(v) => Ok(v.map(|x| x.to_raw_bson())),
            Err(e) => Err(e.to_string()),
        },
        Err(e) => Err(e.to_string()),
    }
}

/// `<bson::RawBson as Clone>::clone`: a structural copy.
#[verifier::external_body]
pub(crate) fn copy_raw_bson(v: &bson::RawBson) -> (r: bson::RawBson)
    ensures
        r == *v,
{
    v.clone()
}

impl ResumeToken {
    /// A copy of this token.
    pub fn duplicate(&self) -> (r: ResumeToken)
        ensures
            r == *self,
    {
        ResumeToken(copy_raw_bson(&self.0))
    }
}

/// A copy of an optional token.
fn duplicate_token(t: &Option<ResumeToken>) -> (r: Option<ResumeToken>)
    ensures
        r == *t,
{
    match t {
        Some(t) => Some(t.duplicate()),
        None => None,
    }
}

/// Why no token could be taken from a change document: the `_id` lookup met
/// an unreadable element (with the decoder's message), or there is no `_id`.
pub enum TokenFailure {
    Malformed(Seq<char>),
    Missing,
}

/// The token to cache after the cursor handed out `doc` (`None`: no document),
/// given whether `doc` was the last of its batch and the batch's post-batch
/// token: the post-batch token for the last document of a batch that has one,
/// else the document's `_id`.
pub open spec fn token_after(
    doc: Option<Seq<u8>>,
    is_last: bool,
    batch_token: Option<ResumeToken>,
) -> Result<Option<ResumeToken>, TokenFailure> {
    match doc {
        None => Ok(None),
        Some(d) => match raw_lookup_of(d, "_id"@) {
            Err(m) => Err(TokenFailure::Malformed(m)),
            Ok(None) => Err(TokenFailure::Missing),
            Ok(Some(v)) => if is_last && batch_token is Some {
                Ok(batch_token)
            } else {
                Ok(Some(ResumeToken(v)))
            },
        },
    }
}

/// `e` is the driver error that reports `f`.
pub open spec fn reports_token_failure(e: DriverError, f: TokenFailure) -> bool {
    match f {
        TokenFailure::Malformed(m) => is_invalid_response(e, m),
        TokenFailure::Missing => {
            &&& e.kind is MissingResumeToken
            &&& e.labels@.len() == 0
            &&& e.server_response is None
        },
    }
}

/// The bytes of an optional borrowed document.
pub open spec fn opt_bytes_view(d: Option<&[u8]>) -> Option<Seq<u8>> {
    match d {
        Some(b) => Some(b@),
        None => None,
    }
}

/// The token behind an optional borrow.
pub open spec fn opt_token(t: Option<&ResumeToken>) -> Option<ResumeToken> {
    match t {
        Some(t) => Some(*t),
        None => None,
    }
}

/// The token to cache after the cursor handed out `batch_value`; see
/// [`token_after`].  A document without `_id` is a missing-resume-token error.
pub fn get_resume_token(
    batch_value: Option<&[u8]>,
    is_last: bool,
    batch_token: Option<&ResumeToken>,
) -> (r: Result<Option<ResumeToken>, DriverError>)
    requires
        batch_value matches Some(d) ==> document_frame_ok(d@),
    ensures
        match token_after(opt_bytes_view(batch_value), is_last, opt_token(batch_token)) {
            Ok(t) => r matches Ok(u) && u == t,
            Err(f) => r matches Err(e) && reports_token_failure(e, f),
        },
{
    match batch_value {
        None => Ok(None),
        Some(doc) => {
            let id = raw_lookup(doc, "_id");
            match id {
                Err(m) => Err(DriverError::new(ErrorKind::InvalidResponse { message: m })),
                Ok(None) => Err(DriverError::new(ErrorKind::MissingResumeToken)),
                Ok(Some(v)) => {
                    if is_last && batch_token.is_some() {
                        match batch_token {
                            Some(t) => Ok(Some(t.duplicate())),
                            None => Ok(None),
                        }
                    } else {
                        Ok(Some(ResumeToken(v)))
                    }
                },
            }
        },
    }
}

/// What a change stream carries from one cursor to the next when it resumes.
pub struct ChangeStreamData {
    /// The `operationTime` of the initial `aggregate`.
    pub initial_operation_time: Option<bson::Timestamp>,
    /// The cached resume token.
    pub resume_token: Option<ResumeToken>,
    /// Whether an automatic resume has been attempted since the last
    /// successful one.
    pub resume_attempted: bool,
    /// Whether the stream has handed out a document.
    pub document_returned: bool,
    /// The implicit session the first cursor of the stream was created with.
    pub implicit_session: Option<SessionHandle>,
}

/// `d` with its implicit session removed.
pub open spec fn without_session(d: ChangeStreamData) -> ChangeStreamData {
    ChangeStreamData {
        initial_operation_time: d.initial_operation_time,
        resume_token: d.resume_token,
        resume_attempted: d.resume_attempted,
        document_returned: d.document_returned,
        implicit_session: None,
    }
}

impl ChangeStreamData {
    /// Data of a stream that has not started: nothing cached, nothing attempted.
    pub fn new() -> (r: ChangeStreamData)
        ensures
            r.initial_operation_time is None,
            r.resume_token is None,
            !r.resume_attempted,
            !r.document_returned,
            r.implicit_session is None,
    {
        ChangeStreamData {
            initial_operation_time: None,
            resume_token: None,
            resume_attempted: false,
            document_returned: false,
            implicit_session: None,
        }
    }

    /// The cached token to resume after the most recently handed-out change.
    pub fn resume_token(&self) -> (r: Option<ResumeToken>)
        ensures
            r == self.resume_token,
    {
        duplicate_token(&self.resume_token)
    }

    /// Copies this data for a resume, moving the implicit session into the
    /// copy: this data keeps everything but the session.
    pub fn take(&mut self) -> (r: ChangeStreamData)
        ensures
            r == *old(self),
            *final(self) == without_session(*old(self)),
    {
        ChangeStreamData {
            initial_operation_time: self.initial_operation_time,
            resume_token: duplicate_token(&self.resume_token),
            resume_attempted: self.resume_attempted,
            document_returned: self.document_returned,
            implicit_session: self.implicit_session.take(),
        }
    }

    /// Records that a resume succeeded, so that a later failure may resume
    /// again.
    pub fn resumed(&mut self)
        ensures
            *final(self) == (ChangeStreamData { resume_attempted: false, ..*old(self) }),
    {
        self.resume_attempted = false;
    }
}

/// What a `watch` was called with, kept to open the stream again on resume.
pub struct WatchArgs {
    /// The stages that follow the `$changeStream` stage.
    pub pipeline: Vec<bson::Document>,
    /// What the stream watches.
    pub target: AggregateTarget,
    /// The options of the `$changeStream` stage.
    pub options: Option<ChangeStreamSettings>,
}

/// A cursor of change events together with what resuming it needs.
pub struct CursorWrapper<Inner> {
    pub cursor: Inner,
    pub args: WatchArgs,
    pub data: ChangeStreamData,
}

impl<Inner> CursorWrapper<Inner> {
    /// Wraps `cursor` with the arguments and data it was opened with.
    pub fn new(cursor: Inner, args: WatchArgs, data: ChangeStreamData) -> (r: CursorWrapper<Inner>)
        ensures
            r.cursor == cursor,
            r.args == args,
            r.data == data,
    {
        CursorWrapper { cursor, args, data }
    }
}

/// What one advance of the underlying cursor gave.
pub enum CursorOutcome {
    /// The cursor handed out `document` (`None`: it has no further document);
    /// `batch_exhausted` says whether its batch is now empty, and
    /// `post_batch_token` is the token the server sent with the batch.
    Advanced { document: Option<Vec<u8>>, batch_exhausted: bool, post_batch_token: Option<ResumeToken> },
    /// The cursor failed with `error`; `resumable` says whether a change
    /// stream may resume after it.
    Failed { error: DriverError, resumable: bool },
}

/// What the change stream does next.
pub enum StreamStep {
    /// Hand out this document, or end (`None`).
    Deliver(Option<Vec<u8>>),
    /// Report this error.
    Fail(DriverError),
    /// Open a new cursor from these data and go on with it.
    Resume(ChangeStreamData),
}

/// The bytes of an optional owned document.
pub open spec fn opt_vec_view(d: Option<Vec<u8>>) -> Option<Seq<u8>> {
    match d {
        Some(b) => Some(b@),
        None => None,
    }
}

/// `outcome` is well formed: a handed-out document is a framed document.
pub open spec fn outcome_framed(outcome: CursorOutcome) -> bool {
    outcome matches CursorOutcome::Advanced { document: Some(d), .. } ==> document_frame_ok(d@)
}

/// One polling step of a change stream: from data `old` and a cursor
/// outcome to data `new` and the step taken.  A handed-out document updates
/// the cached token; a resumable failure resumes only when no resume was
/// attempted since the last successful one, handing the cursor's implicit
/// session `cursor_session` to the new cursor.
pub open spec fn poll_step_spec(
    old: ChangeStreamData,
    outcome: CursorOutcome,
    cursor_session: Option<SessionHandle>,
    new: ChangeStreamData,
    step: StreamStep,
) -> bool {
    match outcome {
        CursorOutcome::Advanced { document, batch_exhausted, post_batch_token } => {
            match token_after(opt_vec_view(document), batch_exhausted, post_batch_token) {
                Ok(t) => {
                    &&& new == (ChangeStreamData { resume_token: t, ..old })
                    &&& step == StreamStep::Deliver(document)
                },
                Err(f) => {
                    &&& new == old
                    &&& step matches StreamStep::Fail(e) && reports_token_failure(e, f)
                },
            }
        },
        CursorOutcome::Failed { error, resumable } => {
            if resumable && !old.resume_attempted {
                &&& new == without_session(ChangeStreamData { resume_attempted: true, ..old })
                &&& step == StreamStep::Resume(
                    ChangeStreamData { resume_attempted: true, implicit_session: cursor_session, ..old },
                )
            } else {
                &&& new == old
                &&& step == StreamStep::Fail(error)
            }
        },
    }
}

/// One step of `next_if_any`: like polling, but a handed-out document marks
/// the stream as having returned one, and every resumable failure resumes.
pub open spec fn advance_step_spec(
    old: ChangeStreamData,
    outcome: CursorOutcome,
    new: ChangeStreamData,
    step: StreamStep,
) -> bool {
    match outcome {
        CursorOutcome::Advanced { document, batch_exhausted, post_batch_token } => {
            match token_after(opt_vec_view(document), batch_exhausted, post_batch_token) {
                Ok(t) => {
                    &&& new == (ChangeStreamData {
                        resume_token: t,
                        document_returned: old.document_returned || document is Some,
                        ..old
                    })
                    &&& step == StreamStep::Deliver(document)
                },
                Err(f) => {
                    &&& new == old
                    &&& step matches StreamStep::Fail(e) && reports_token_failure(e, f)
                },
            }
        },
        CursorOutcome::Failed { error, resumable } => {
            if resumable {
                &&& new == without_session(old)
                &&& step == StreamStep::Resume(old)
            } else {
                &&& new == old
                &&& step == StreamStep::Fail(error)
            }
        },
    }
}

impl ChangeStreamData {
    /// Decides what a polled change stream does with what its cursor gave.
    pub fn poll_step(&mut self, outcome: CursorOutcome, cursor_session: Option<SessionHandle>) -> (r: StreamStep)
        requires
            outcome_framed(outcome),
        ensures
            poll_step_spec(*old(self), outcome, cursor_session, *final(self), r),
    {
        match outcome {
            CursorOutcome::Advanced { document, batch_exhausted, post_batch_token } => {
                let t = match &document {
                    Some(d) => get_resume_token(Some(d.as_slice()), batch_exhausted, post_batch_token.as_ref()),
                    None => get_resume_token(None, batch_exhausted, post_batch_token.as_ref()),
                };
                match t {
                    Ok(t) => {
                        self.resume_token = t;
                        StreamStep::Deliver(document)
                    },
                    Err(e) => StreamStep::Fail(e),
                }
            },
            CursorOutcome::Failed { error, resumable } => {
                if resumable && !self.resume_attempted {
                    self.resume_attempted = true;
                    let mut data = self.take();
                    data.implicit_session = cursor_session;
                    StreamStep::Resume(data)
                } else {
                    StreamStep::Fail(error)
                }
            },
        }
    }

    /// Decides what `next_if_any` does with what its cursor gave.
    pub fn advance_step(&mut self, outcome: CursorOutcome) -> (r: StreamStep)
        requires
            outcome_framed(outcome),
        ensures
            advance_step_spec(*old(self), outcome, *final(self), r),
    {
        match outcome {
            CursorOutcome::Advanced { document, batch_exhausted, post_batch_token } => {
                let t = match &document {
                    Some(d) => get_resume_token(Some(d.as_slice()), batch_exhausted, post_batch_token.as_ref()),
                    None => get_resume_token(None, batch_exhausted, post_batch_token.as_ref()),
                };
                match t {
                    Ok(t) => {
                        self.resume_token = t;
                        if document.is_some() {
                            self.document_returned = true;
                        }
                        StreamStep::Deliver(document)
                    },
                    Err(e) => StreamStep::Fail(e),
                }
            },
            CursorOutcome::Failed { error, resumable } => {
                if resumable {
                    StreamStep::Resume(self.take())
                } else {
                    StreamStep::Fail(error)
                }
            },
        }
    }
}

/// A polled change stream resumes at most once between successful resumes:
/// of two resumable failures in a row, the second is reported, and the first
/// resumes exactly when no resume was pending.
pub proof fn poll_resumes_at_most_once(
    d0: ChangeStreamData,
    e1: DriverError,
    e2: DriverError,
    s1: Option<SessionHandle>,
    s2: Option<SessionHandle>,
    d1: ChangeStreamData,
    r1: StreamStep,
    d2: ChangeStreamData,
    r2: StreamStep,
)
    requires
        poll_step_spec(d0, CursorOutcome::Failed { error: e1, resumable: true }, s1, d1, r1),
        poll_step_spec(d1, CursorOutcome::Failed { error: e2, resumable: true }, s2, d2, r2),
    ensures
        r1 is Resume <==> !d0.resume_attempted,
        r2 == StreamStep::Fail(e2),
{
}

/// After a successful resume, a resumable failure resumes again.
pub proof fn poll_resumes_after_success(
    d0: ChangeStreamData,
    e: DriverError,
    s: Option<SessionHandle>,
    d1: ChangeStreamData,
    r: StreamStep,
)
    requires
        poll_step_spec(
            ChangeStreamData { resume_attempted: false, ..d0 },
            CursorOutcome::Failed { error: e, resumable: true },
            s,
            d1,
            r,
        ),
    ensures
        r is Resume,
        d1.resume_attempted,
{
}

/// A failure that is not resumable is always reported, and changes nothing.
pub proof fn poll_reports_other_failures(
    d0: ChangeStreamData,
    e: DriverError,
    s: Option<SessionHandle>,
    d1: ChangeStreamData,
    r: StreamStep,
)
    requires
        poll_step_spec(d0, CursorOutcome::Failed { error: e, resumable: false }, s, d1, r),
    ensures
        r == StreamStep::Fail(e),
        d1 == d0,
{
}

/// After a document is handed out, the cached token is the document's `_id`,
/// unless the document ends a batch that carries a post-batch token, in which
/// case it is that token.
pub proof fn poll_caches_token_of_delivered(
    d0: ChangeStreamData,
    doc: Vec<u8>,
    last: bool,
    batch_token: Option<ResumeToken>,
    s: Option<SessionHandle>,
    d1: ChangeStreamData,
    r: StreamStep,
)
    requires
        poll_step_spec(
            d0,
            CursorOutcome::Advanced { document: Some(doc), batch_exhausted: last, post_batch_token: batch_token },
            s,
            d1,
            r,
        ),
        r is Deliver,
    ensures
        raw_lookup_of(doc@, "_id"@) matches Ok(Some(v)) && d1.resume_token == (if last && batch_token is Some {
            batch_token
        } else {
            Some(ResumeToken(v))
        }),
        d1.resume_attempted == d0.resume_attempted,
        d1.implicit_session == d0.implicit_session,
{
}

/// Taking the data twice moves the implicit session once: the second copy
/// has no session, and everything else is kept.
pub proof fn take_moves_session_once(d: ChangeStreamData)
    ensures
        without_session(without_session(d)).implicit_session is None,
        without_session(d).resume_token == d.resume_token,
        without_session(d).resume_attempted == d.resume_attempted,
        without_session(d).document_returned == d.document_returned,
        without_session(d).initial_operation_time == d.initial_operation_time,
{
}

} // verus!
