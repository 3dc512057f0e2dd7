//! A cursor tied to an explicit session, and the stream view that borrows its
//! iteration state while the session is in use.
//!
//! While a stream is live the cursor holds no state; when the stream is
//! finished the state goes back into the cursor, so the cursor always sees
//! the state the stream left.

use vstd::prelude::*;

use crate::ffi_context::SessionHandle;
use crate::options::ServerAddress;

verus! {

/// Iteration state of a cursor: the documents of the current batch, the
/// current one first.
pub struct CursorState {
    pub buffer: Vec<Vec<u8>>,
}

/// The server-side cursor: its id, the server it lives on, and the server
/// to kill it on when it is dropped, if that is another one.
pub struct RawCursor {
    pub id: u64,
    pub address: ServerAddress,
    pub drop_address: Option<ServerAddress>,
}

/// A cursor whose operations run in a session that the caller supplies.
/// `state` is `None` exactly while a [`SessionCursorStream`] holds it.
pub struct SessionCursor<T> {
    pub state: Option<CursorState>,
    pub raw: RawCursor,
    pub marker: core::marker::PhantomData<T>,
}

/// A stream over a [`SessionCursor`] that holds the cursor's state and the
/// session while it is live.
pub struct SessionCursorStream<T> {
    pub state: CursorState,
    pub session: SessionHandle,
    pub marker: core::marker::PhantomData<T>,
}

/// The cursor after its state was lent to a stream.
pub open spec fn lent<T>(c: SessionCursor<T>) -> SessionCursor<T> {
    SessionCursor { state: None, raw: c.raw, marker: c.marker }
}

/// The cursor after `s` handed its state back.
pub open spec fn given_back<T>(c: SessionCursor<T>, s: SessionCursorStream<T>) -> SessionCursor<T> {
    SessionCursor { state: Some(s.state), raw: c.raw, marker: c.marker }
}

impl<T> SessionCursor<T> {
    /// A cursor over a first batch, with the given server-side cursor.
    pub fn new(raw: RawCursor, first_batch: Vec<Vec<u8>>) -> (r: SessionCursor<T>)
        ensures
            r.raw == raw,
            r.state matches Some(s) && s.buffer@ == first_batch@,
    {
        SessionCursor { state: Some(CursorState { buffer: first_batch }), raw, marker: core::marker::PhantomData }
    }

    /// Lends the iteration state to a stream that runs in `session`.
    pub fn stream(&mut self, session: SessionHandle) -> (r: SessionCursorStream<T>)
        requires
            old(self).state is Some,
        ensures
            *final(self) == lent(*old(self)),
            r.state == old(self).state.unwrap(),
            r.session == session,
    {
        let state = self.state.take().unwrap();
        SessionCursorStream { state, session, marker: core::marker::PhantomData }
    }

    /// The iteration state.
    pub fn state(&self) -> (r: &CursorState)
        requires
            self.state is Some,
        ensures
            *r == self.state.unwrap(),
    {
        self.state.as_ref().unwrap()
    }

    /// The iteration state, to change.
    pub fn state_mut(&mut self) -> (r: &mut CursorState)
        requires
            old(self).state is Some,
        ensures
            *r == old(self).state.unwrap(),
            *final(self) == (SessionCursor { state: Some(*final(r)), ..*old(self) }),
    {
        self.state.as_mut().unwrap()
    }

    /// The server the cursor lives on.
    pub fn address(&self) -> (r: &ServerAddress)
        ensures
            *r == self.raw.address,
    {
        &self.raw.address
    }

    /// Has the cursor killed on `address` when it is dropped.
    pub fn set_drop_address(&mut self, address: ServerAddress)
        ensures
            final(self).raw.drop_address == Some(address),
            final(self).raw.id == old(self).raw.id,
            final(self).raw.address == old(self).raw.address,
            final(self).state == old(self).state,
    {
        self.raw.drop_address = Some(address);
    }

    /// The same cursor, handing out documents as `D`.
    pub fn with_type<D>(self) -> (r: SessionCursor<D>)
        ensures
            r.state == self.state,
            r.raw == self.raw,
    {
        SessionCursor { state: self.state, raw: self.raw, marker: core::marker::PhantomData }
    }

    /// The current document.
    pub fn current(&self) -> (r: &Vec<u8>)
        requires
            self.state matches Some(s) && s.buffer@.len() > 0,
        ensures
            *r == self.state.unwrap().buffer@[0],
    {
        let s = self.state.as_ref().unwrap();
        &s.buffer[0]
    }
}

impl<T> SessionCursorStream<T> {
    /// Ends the stream, handing its state back to `cursor`.
    pub fn finish(self, cursor: &mut SessionCursor<T>)
        ensures
            *final(cursor) == given_back(*old(cursor), self),
    {
        cursor.state = Some(self.state);
    }
}

/// Lending the state to a stream and finishing the stream gives back the
/// cursor as it was.
pub proof fn stream_then_finish_restores<T>(c: SessionCursor<T>, session: SessionHandle)
    requires
        c.state is Some,
    ensures
        given_back(
            lent(c),
            SessionCursorStream { state: c.state.unwrap(), session, marker: c.marker },
        ) == c,
{
}

/// The cursor after each state of `states` in turn was produced by a stream
/// over it in `session` and handed back.
pub open spec fn after_streams<T>(c: SessionCursor<T>, states: Seq<CursorState>, session: SessionHandle) -> SessionCursor<T>
    decreases states.len(),
{
    if states.len() == 0 {
        c
    } else {
        let before = after_streams(c, states.drop_last(), session);
        given_back(lent(before), SessionCursorStream { state: states.last(), session, marker: c.marker })
    }
}

/// However many streams ran over the cursor, and whatever each did to the
/// iteration state, the cursor then holds the state the last stream left and
/// the same server-side cursor.
pub proof fn cursor_sees_last_stream_state<T>(c: SessionCursor<T>, states: Seq<CursorState>, session: SessionHandle)
    requires
        states.len() > 0,
    ensures
        after_streams(c, states, session).state == Some(states.last()),
        after_streams(c, states, session).raw == c.raw,
    decreases states.len(),
{
    if states.len() > 1 {
        cursor_sees_last_stream_state(c, states.drop_last(), session);
    } else {
        assert(after_streams(c, states.drop_last(), session) == c);
    }
}

} // verus!
