use bson::{RawBson, RawDocumentBuf};
use mongo_ffi_core::change_stream::{
    get_resume_token, ChangeStreamData, CursorOutcome, CursorWrapper, ResumeToken, StreamStep, WatchArgs,
};
use mongo_ffi_core::error::{DriverError, ErrorKind};
use mongo_ffi_core::ffi_context::SessionHandle;
use mongo_ffi_core::watch::AggregateTarget;

fn event(id: i32) -> Vec<u8> {
    let mut d = RawDocumentBuf::new();
    d.append("_id", id);
    d.append("operationType", "insert");
    d.into_bytes()
}

fn no_id_event() -> Vec<u8> {
    let mut d = RawDocumentBuf::new();
    d.append("operationType", "insert");
    d.into_bytes()
}

fn io_error() -> DriverError {
    DriverError::new(ErrorKind::Io { message: "connection reset".to_string() })
}

fn token(v: i32) -> ResumeToken {
    ResumeToken(RawBson::Int32(v))
}

#[test]
fn resume_token_is_the_document_id() {
    let doc = event(7);
    let t = get_resume_token(Some(doc.as_slice()), false, None).unwrap();
    assert_eq!(t.map(|t| t.0), Some(RawBson::Int32(7)));
}

#[test]
fn last_document_of_a_batch_takes_the_batch_token() {
    let doc = event(7);
    let batch = token(99);
    let t = get_resume_token(Some(doc.as_slice()), true, Some(&batch)).unwrap();
    assert_eq!(t.map(|t| t.0), Some(RawBson::Int32(99)));
    let t = get_resume_token(Some(doc.as_slice()), false, Some(&batch)).unwrap();
    assert_eq!(t.map(|t| t.0), Some(RawBson::Int32(7)));
    let t = get_resume_token(Some(doc.as_slice()), true, None).unwrap();
    assert_eq!(t.map(|t| t.0), Some(RawBson::Int32(7)));
}

#[test]
fn no_document_gives_no_token() {
    let batch = token(1);
    assert!(get_resume_token(None, true, Some(&batch)).unwrap().is_none());
}

#[test]
fn document_without_id_is_missing_resume_token() {
    let doc = no_id_event();
    let err = get_resume_token(Some(doc.as_slice()), false, None).err().expect("no _id");
    assert!(matches!(err.kind, ErrorKind::MissingResumeToken));
}

#[test]
fn take_moves_the_session_out() {
    let mut d = ChangeStreamData::new();
    d.implicit_session = Some(SessionHandle(3));
    d.resume_token = Some(token(5));
    d.resume_attempted = true;
    let t = d.take();
    assert_eq!(t.implicit_session.map(|s| s.0), Some(3));
    assert!(d.implicit_session.is_none());
    assert_eq!(t.resume_token.map(|x| x.0), Some(RawBson::Int32(5)));
    assert_eq!(d.resume_token().map(|x| x.0), Some(RawBson::Int32(5)));
    assert!(t.resume_attempted && d.resume_attempted);
    assert!(d.take().implicit_session.is_none());
}

#[test]
fn polled_stream_resumes_once_between_successes() {
    let mut d = ChangeStreamData::new();
    let first = d.poll_step(CursorOutcome::Failed { error: io_error(), resumable: true }, Some(SessionHandle(8)));
    match first {
        StreamStep::Resume(data) => {
            assert!(data.resume_attempted);
            assert_eq!(data.implicit_session.map(|s| s.0), Some(8));
        }
        _ => panic!("the first resumable error resumes"),
    }
    let second = d.poll_step(CursorOutcome::Failed { error: io_error(), resumable: true }, None);
    assert!(matches!(second, StreamStep::Fail(_)));

    d.resumed();
    let third = d.poll_step(CursorOutcome::Failed { error: io_error(), resumable: true }, None);
    assert!(matches!(third, StreamStep::Resume(_)));
}

#[test]
fn polled_stream_reports_other_errors() {
    let mut d = ChangeStreamData::new();
    let step = d.poll_step(CursorOutcome::Failed { error: io_error(), resumable: false }, None);
    match step {
        StreamStep::Fail(e) => assert!(matches!(e.kind, ErrorKind::Io { .. })),
        _ => panic!("a non-resumable error is reported"),
    }
    assert!(!d.resume_attempted);
}

#[test]
fn polled_document_updates_the_token() {
    let mut d = ChangeStreamData::new();
    let step = d.poll_step(
        CursorOutcome::Advanced { document: Some(event(11)), batch_exhausted: false, post_batch_token: None },
        None,
    );
    assert!(matches!(step, StreamStep::Deliver(Some(_))));
    assert_eq!(d.resume_token().map(|t| t.0), Some(RawBson::Int32(11)));

    let step = d.poll_step(
        CursorOutcome::Advanced { document: Some(no_id_event()), batch_exhausted: false, post_batch_token: None },
        None,
    );
    assert!(matches!(step, StreamStep::Fail(_)));
    assert_eq!(d.resume_token().map(|t| t.0), Some(RawBson::Int32(11)));
}

#[test]
fn next_if_any_marks_a_returned_document_and_always_resumes() {
    let mut d = ChangeStreamData::new();
    let step = d.advance_step(CursorOutcome::Advanced { document: None, batch_exhausted: true, post_batch_token: Some(token(4)) });
    assert!(matches!(step, StreamStep::Deliver(None)));
    assert!(!d.document_returned);
    let step = d.advance_step(CursorOutcome::Advanced {
        document: Some(event(2)),
        batch_exhausted: true,
        post_batch_token: Some(token(4)),
    });
    assert!(matches!(step, StreamStep::Deliver(Some(_))));
    assert!(d.document_returned);
    assert_eq!(d.resume_token().map(|t| t.0), Some(RawBson::Int32(4)));

    assert!(matches!(d.advance_step(CursorOutcome::Failed { error: io_error(), resumable: true }), StreamStep::Resume(_)));
    assert!(matches!(d.advance_step(CursorOutcome::Failed { error: io_error(), resumable: true }), StreamStep::Resume(_)));
    assert!(matches!(d.advance_step(CursorOutcome::Failed { error: io_error(), resumable: false }), StreamStep::Fail(_)));
}

#[test]
fn cursor_wrapper_keeps_its_parts() {
    let args = WatchArgs { pipeline: Vec::new(), target: AggregateTarget::Database("db".to_string()), options: None };
    let w = CursorWrapper::new(17u64, args, ChangeStreamData::new());
    assert_eq!(w.cursor, 17);
    assert!(w.args.pipeline.is_empty());
    assert!(w.data.resume_token.is_none());
}
