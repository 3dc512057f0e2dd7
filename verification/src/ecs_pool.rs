//! Connection bookkeeping of the experimental entity-based client: which
//! connections are checked in, checking one out and back in, and the
//! numbering of new connections.

use vstd::prelude::*;

use crate::address::copy_address;
use crate::options::{ClientOptions, ServerAddress};
use crate::sdam_server::address_view;

verus! {

/// The connections of the client, by entity index, each checked in or out,
/// and the id the next new connection gets.
pub struct ConnectionWorld {
    pub checked_in: Vec<bool>,
    pub next_connection_id: u32,
}

/// A connection about to be established: its id and the address it goes to.
pub struct PendingConnection {
    pub id: u32,
    pub address: ServerAddress,
}

impl ConnectionWorld {
    /// A world with no connections, numbering from zero.
    pub fn new() -> (r: ConnectionWorld)
        ensures
            r.checked_in@.len() == 0,
            r.next_connection_id == 0,
    {
        ConnectionWorld { checked_in: Vec::new(), next_connection_id: 0 }
    }

    /// Checks out a checked-in connection, if there is one.  Which one is
    /// left open: any checked-in connection may be handed out.
    pub fn check_out_connection(&mut self) -> (r: Option<usize>)
        ensures
            match r {
                Some(i) => i < old(self).checked_in@.len() && old(self).checked_in@[i as int]
                    && final(self).checked_in@ == old(self).checked_in@.update(i as int, false),
                None => (forall|j: int| 0 <= j < old(self).checked_in@.len() ==> !#[trigger] old(self).checked_in@[j])
                    && final(self).checked_in@ == old(self).checked_in@,
            },
            final(self).next_connection_id == old(self).next_connection_id,
    {
        let mut i: usize = 0;
        while i < self.checked_in.len()
            invariant
                i <= self.checked_in@.len(),
                self.checked_in@ == old(self).checked_in@,
                self.next_connection_id == old(self).next_connection_id,
                forall|j: int| 0 <= j < i ==> !#[trigger] self.checked_in@[j],
            decreases self.checked_in@.len() - i,
        {
            if self.checked_in[i] {
                self.checked_in.set(i, false);
                return Some(i);
            }
            i = i + 1;
        }
        None
    }

    /// Checks connection `i` back in.
    pub fn check_in(&mut self, i: usize)
        requires
            i < old(self).checked_in@.len(),
        ensures
            final(self).checked_in@ == old(self).checked_in@.update(i as int, true),
            final(self).next_connection_id == old(self).next_connection_id,
    {
        self.checked_in.set(i, true);
    }

    /// Adds a newly established connection, checked out, and gives its index.
    pub fn add_checked_out(&mut self) -> (r: usize)
        ensures
            r == old(self).checked_in@.len(),
            final(self).checked_in@ == old(self).checked_in@.push(false),
            final(self).next_connection_id == old(self).next_connection_id,
    {
        let i = self.checked_in.len();
        self.checked_in.push(false);
        i
    }

    /// A new connection to the first host of `opts`, with the next id.
    pub fn new_pending_connection(&mut self, opts: &ClientOptions) -> (r: PendingConnection)
        requires
            opts.hosts@.len() > 0,
            old(self).next_connection_id < u32::MAX,
        ensures
            r.id == old(self).next_connection_id,
            address_view(r.address) == address_view(opts.hosts@[0]),
            final(self).next_connection_id == old(self).next_connection_id + 1,
            final(self).checked_in@ == old(self).checked_in@,
    {
        let id = self.next_connection_id;
        self.next_connection_id = id + 1;
        PendingConnection { id, address: copy_address(&opts.hosts[0]) }
    }
}

/// A connection that was checked out is not handed out again before it is
/// checked back in: a second check-out gives another connection, or none.
pub proof fn checked_out_is_not_handed_out_again(s0: Seq<bool>, i: int, s1: Seq<bool>, j: int)
    requires
        0 <= i < s0.len(),
        s0[i],
        s1 == s0.update(i, false),
        0 <= j < s1.len(),
        s1[j],
    ensures
        j != i,
{
}

/// Checking a connection out and back in leaves the connections as they were.
pub proof fn check_out_then_in_restores(s0: Seq<bool>, i: int)
    requires
        0 <= i < s0.len(),
        s0[i],
    ensures
        s0.update(i, false).update(i, true) == s0,
{
    assert(s0.update(i, false).update(i, true) =~= s0);
}

} // verus!
