//! A log of received events, each stamped with the time it arrived, with a
//! generation number that changes whenever events are removed.
//!
//! Locking and waking waiters belong to whoever shares the log; the log
//! itself is plain data.

use vstd::prelude::*;

verus! {

#[verifier::external_type_specification]
#[verifier::external_body]
pub struct ExOffsetDateTime(time::OffsetDateTime);

/// `time::OffsetDateTime::now_utc`: the current time.  It depends on the
/// clock, so nothing is stated of it.
#[verifier::external_body]
fn now_utc() -> (r: time::OffsetDateTime) {
    time::OffsetDateTime::now_utc()
}

/// The events of a sequence of stamped events, in order.
pub open spec fn events_of<T>(d: Seq<(T, time::OffsetDateTime)>) -> Seq<T> {
    d.map_values(|p: (T, time::OffsetDateTime)| p.0)
}

/// The values inside the `Some`s of `s`, in order.
pub open spec fn somes<R>(s: Seq<Option<R>>) -> Seq<R>
    decreases s.len(),
{
    if s.len() == 0 {
        Seq::empty()
    } else {
        somes(s.drop_last()) + match s.last() {
            Some(v) => seq![v],
            None => Seq::empty(),
        }
    }
}

/// The elements of `d` whose flag in `keep` is set, in order.
pub open spec fn kept<A>(d: Seq<A>, keep: Seq<bool>) -> Seq<A>
    decreases d.len(),
{
    if d.len() == 0 || keep.len() != d.len() {
        Seq::empty()
    } else {
        kept(d.drop_last(), keep.drop_last()) + if keep.last() {
            seq![d.last()]
        } else {
            Seq::empty()
        }
    }
}

/// Received events with their arrival times, oldest first, and a generation
/// that counts the operations that removed events.
pub struct EventLog<T> {
    pub data: Vec<(T, time::OffsetDateTime)>,
    pub generation: u64,
}

impl<T> EventLog<T> {
    /// An empty log at generation zero.
    pub fn new() -> (r: EventLog<T>)
        ensures
            r.data@.len() == 0,
            r.generation == 0,
    {
        EventLog { data: Vec::new(), generation: 0 }
    }

    /// The results of `f` on the events, in order, without the `None`s.
    pub fn filter_map<R, F: Fn(&T) -> Option<R>>(&self, f: F) -> (r: Vec<R>)
        requires
            forall|i: int| 0 <= i < self.data@.len() ==> call_requires(f, (&#[trigger] self.data@[i].0,)),
        ensures
            exists|outs: Seq<Option<R>>|
                {
                    &&& outs.len() == self.data@.len()
                    &&& forall|i: int|
                        0 <= i < outs.len() ==> call_ensures(f, (&self.data@[i].0,), #[trigger] outs[i])
                    &&& r@ == somes(outs)
                },
    {
        let mut out: Vec<R> = Vec::new();
        let ghost mut outs: Seq<Option<R>> = Seq::empty();
        let mut i: usize = 0;
        while i < self.data.len()
            invariant
                0 <= i <= self.data@.len(),
                outs.len() == i,
                forall|j: int| 0 <= j < self.data@.len() ==> call_requires(f, (&#[trigger] self.data@[j].0,)),
                forall|j: int| 0 <= j < i ==> call_ensures(f, (&self.data@[j].0,), #[trigger] outs[j]),
                out@ == somes(outs),
            decreases self.data@.len() - i,
        {
            let o = f(&self.data[i].0);
            proof {
                let next = outs.push(o);
                assert(next.drop_last() =~= outs);
                outs = next;
            }
            match o {
                Some(v) => {
                    out.push(v);
                },
                None => {},
            }
            i += 1;
        }
        out
    }

    /// Adds an event stamped with the current time; the generation stays.
    pub fn push(&mut self, ev: T)
        ensures
            final(self).generation == old(self).generation,
            events_of(final(self).data@) == events_of(old(self).data@).push(ev),
            final(self).data@.drop_last() == old(self).data@,
    {
        let now = now_utc();
        self.data.push((ev, now));
        proof {
            assert(events_of(self.data@) =~= events_of(old(self).data@).push(ev));
            assert(self.data@.drop_last() =~= old(self).data@);
        }
    }

    /// Removes every event and starts a new generation.
    pub fn clear(&mut self)
        requires
            old(self).generation < u64::MAX,
        ensures
            final(self).generation == old(self).generation + 1,
            final(self).data@.len() == 0,
    {
        self.generation = self.generation + 1;
        self.data.clear();
    }

    /// Removes and returns every event, oldest first, and starts a new
    /// generation.
    pub fn take(&mut self) -> (r: Vec<T>)
        requires
            old(self).generation < u64::MAX,
        ensures
            final(self).generation == old(self).generation + 1,
            final(self).data@.len() == 0,
            r@ == events_of(old(self).data@),
    {
        self.generation = self.generation + 1;
        let mut data: Vec<(T, time::OffsetDateTime)> = Vec::new();
        core::mem::swap(&mut data, &mut self.data);
        let mut out: Vec<T> = Vec::new();
        let ghost all = data@;
        let mut rest = data;
        proof {
            assert(rest@ =~= all.subrange(0, all.len() as int));
        }
        while rest.len() > 0
            invariant
                rest@.len() + out@.len() == all.len(),
                rest@ =~= all.subrange(out@.len() as int, all.len() as int),
                out@ =~= events_of(all.subrange(0, out@.len() as int)),
            decreases rest@.len(),
        {
            let ghost k: int = out@.len() as int;
            let (ev, _) = rest.remove(0);
            out.push(ev);
            proof {
                assert(rest@ =~= all.subrange(k + 1, all.len() as int));
                assert(out@ =~= events_of(all.subrange(0, k + 1)));
            }
        }
        proof {
            assert(all.subrange(0, all.len() as int) =~= all);
        }
        out
    }

    /// Keeps the events on which `keep` says `true`, in order, and starts a
    /// new generation.
    pub fn retain<F: Fn(&T) -> bool>(&mut self, keep: F)
        requires
            old(self).generation < u64::MAX,
            forall|i: int| 0 <= i < old(self).data@.len() ==> call_requires(keep, (&#[trigger] old(self).data@[i].0,)),
        ensures
            final(self).generation == old(self).generation + 1,
            exists|flags: Seq<bool>|
                {
                    &&& flags.len() == old(self).data@.len()
                    &&& forall|i: int|
                        0 <= i < flags.len() ==> call_ensures(keep, (&old(self).data@[i].0,), #[trigger] flags[i])
                    &&& final(self).data@ == kept(old(self).data@, flags)
                },
    {
        self.generation = self.generation + 1;
        let mut data: Vec<(T, time::OffsetDateTime)> = Vec::new();
        core::mem::swap(&mut data, &mut self.data);
        let ghost all = data@;
        let mut rest = data;
        proof {
            assert(rest@ =~= all.subrange(0, all.len() as int));
        }
        let mut out: Vec<(T, time::OffsetDateTime)> = Vec::new();
        let ghost mut flags: Seq<bool> = Seq::empty();
        while rest.len() > 0
            invariant
                rest@.len() + flags.len() == all.len(),
                rest@ =~= all.subrange(flags.len() as int, all.len() as int),
                forall|j: int| 0 <= j < all.len() ==> call_requires(keep, (&#[trigger] all[j].0,)),
                forall|j: int| 0 <= j < flags.len() ==> call_ensures(keep, (&all[j].0,), #[trigger] flags[j]),
                out@ == kept(all.subrange(0, flags.len() as int), flags),
            decreases rest@.len(),
        {
            let ghost k: int = flags.len() as int;
            let item = rest.remove(0);
            proof {
                assert(item == all[k]);
            }
            let b = keep(&item.0);
            proof {
                let nf = flags.push(b);
                let ns = all.subrange(0, k + 1);
                assert(nf.drop_last() =~= flags);
                assert(ns.drop_last() =~= all.subrange(0, k as int));
                assert(ns.last() == item);
                flags = nf;
                assert(rest@ =~= all.subrange(k + 1, all.len() as int));
            }
            if b {
                out.push(item);
            }
        }
        proof {
            assert(all.subrange(0, all.len() as int) =~= all);
        }
        self.data = out;
    }
}

impl<T: Clone> EventLog<T> {
    /// Copies of the events, oldest first.
    pub fn get(&self) -> (r: Vec<T>)
        ensures
            r@.len() == self.data@.len(),
            forall|i: int| 0 <= i < r@.len() ==> cloned::<T>(self.data@[i].0, #[trigger] r@[i]),
    {
        let mut out: Vec<T> = Vec::new();
        let mut i: usize = 0;
        while i < self.data.len()
            invariant
                0 <= i <= self.data@.len(),
                out@.len() == i,
                forall|j: int| 0 <= j < i ==> cloned::<T>(self.data@[j].0, #[trigger] out@[j]),
            decreases self.data@.len() - i,
        {
            let ev = self.data[i].0.clone();
            out.push(ev);
            i += 1;
        }
        out
    }

    /// Copies of the events with their arrival times, oldest first.
    pub fn get_timed(&self) -> (r: Vec<(T, time::OffsetDateTime)>)
        ensures
            r@.len() == self.data@.len(),
            forall|i: int|
                0 <= i < r@.len() ==> cloned::<T>(self.data@[i].0, #[trigger] r@[i].0) && r@[i].1
                    == self.data@[i].1,
    {
        let mut out: Vec<(T, time::OffsetDateTime)> = Vec::new();
        let mut i: usize = 0;
        while i < self.data.len()
            invariant
                0 <= i <= self.data@.len(),
                out@.len() == i,
                forall|j: int|
                    0 <= j < i ==> cloned::<T>(self.data@[j].0, #[trigger] out@[j].0) && out@[j].1
                        == self.data@[j].1,
            decreases self.data@.len() - i,
        {
            let ev = self.data[i].0.clone();
            let at = self.data[i].1;
            out.push((ev, at));
            i += 1;
        }
        out
    }
}

/// Whatever was in the log, taking after a push gives the earlier events
/// followed by the pushed one, and leaves the log empty.
pub proof fn take_after_push_gives_all<T>(
    before: Seq<(T, time::OffsetDateTime)>,
    after: Seq<(T, time::OffsetDateTime)>,
    ev: T,
)
    requires
        events_of(after) == events_of(before).push(ev),
    ensures
        events_of(after).last() == ev,
        events_of(after).drop_last() == events_of(before),
{
    assert(events_of(after).drop_last() =~= events_of(before));
}

} // verus!
