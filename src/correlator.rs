//! Correlation of inbound frames with the calls waiting for them.
//!
//! A connection keeps two tables, both keyed by message id: calls, each
//! resolved by the first frame that carries its id and then removed; and
//! subscriptions, each fed every frame that carries its id until it is
//! removed explicitly. The handles stored are whatever the connection uses to
//! complete a call or to feed a subscription.

use vstd::prelude::*;
use crate::envelope::{MessageId, Response};

verus! {

/// No two entries share an id.
pub open spec fn ids_unique<H>(entries: Seq<(Seq<char>, H)>) -> bool {
    forall|i: int, j: int|
        0 <= i < j < entries.len() ==> #[trigger] entries[i].0 != #[trigger] entries[j].0
}

/// Some entry has the id.
pub open spec fn has_id<H>(entries: Seq<(Seq<char>, H)>, id: Seq<char>) -> bool {
    exists|i: int| 0 <= i < entries.len() && #[trigger] entries[i].0 == id
}

/// Where the entry with the id stands.
pub open spec fn index_of<H>(entries: Seq<(Seq<char>, H)>, id: Seq<char>) -> int {
    choose|i: int| 0 <= i < entries.len() && #[trigger] entries[i].0 == id
}

/// Registering an id: the entry is added after the others.
pub open spec fn registered<H>(entries: Seq<(Seq<char>, H)>, id: Seq<char>, handle: H) -> Seq<(Seq<char>, H)> {
    entries.push((id, handle))
}

/// Resolving a frame's id: the handle registered under it, and the entries
/// without it; nothing, and the entries as they were, when none has it.
pub open spec fn resolved<H>(entries: Seq<(Seq<char>, H)>, id: Seq<char>) -> (Option<H>, Seq<(Seq<char>, H)>) {
    if has_id(entries, id) {
        let i = index_of(entries, id);
        (Some(entries[i].1), entries.remove(i))
    } else {
        (None, entries)
    }
}

proof fn lemma_index_of_unique<H>(entries: Seq<(Seq<char>, H)>, id: Seq<char>, i: int)
    requires
        ids_unique(entries),
        0 <= i < entries.len(),
        entries[i].0 == id,
    ensures
        has_id(entries, id),
        index_of(entries, id) == i,
{
    assert(has_id(entries, id));
    let j = index_of(entries, id);
    if j < i {
        assert(entries[j].0 != entries[i].0);
    } else if i < j {
        assert(entries[i].0 != entries[j].0);
    }
}

/// A handle registered under an id that is not pending is what a frame with
/// that id resolves, and every other pending call keeps its place and its
/// handle.
pub proof fn lemma_exclusive_delivery<H>(entries: Seq<(Seq<char>, H)>, id: Seq<char>, handle: H)
    requires
        ids_unique(entries),
        !has_id(entries, id),
    ensures
        resolved(registered(entries, id, handle), id) == (Some(handle), entries),
{
    let after = registered(entries, id, handle);
    assert(ids_unique(after)) by {
        assert forall|i: int, j: int| 0 <= i < j < after.len() implies after[i].0 != after[j].0 by {
            if j == entries.len() {
                assert(entries[i].0 == after[i].0);
            }
        }
    }
    lemma_index_of_unique(after, id, entries.len() as int);
    assert(after.remove(entries.len() as int) =~= entries);
}

/// A frame whose id no call is waiting for changes nothing.
pub proof fn lemma_orphan_frame_dropped<H>(entries: Seq<(Seq<char>, H)>, id: Seq<char>)
    requires
        !has_id(entries, id),
    ensures
        resolved(entries, id) == (None::<H>, entries),
{
}

/// Resolving one call leaves every other pending call, with its handle.
pub proof fn lemma_others_untouched<H>(entries: Seq<(Seq<char>, H)>, id: Seq<char>, other: int)
    requires
        ids_unique(entries),
        0 <= other < entries.len(),
        entries[other].0 != id,
    ensures
        resolved(entries, id).1.contains(entries[other]),
{
    if has_id(entries, id) {
        let i = index_of(entries, id);
        let rest = entries.remove(i);
        if other < i {
            assert(rest[other] == entries[other]);
        } else {
            assert(rest[other - 1] == entries[other]);
        }
    } else {
        assert(entries[other] == entries[other]);
    }
}

/// A response holds exactly one of a result and an error.
pub open spec fn well_formed(response: Response) -> bool {
    response.content.result is Some != response.content.error is Some
}

/// Where an inbound response goes.
pub enum Dispatch<C> {
    /// To the call that was waiting for it, whose handle this is.
    Call(C),
    /// To the subscription under its id, which stays registered.
    Subscription,
    /// Nowhere: it is malformed, has no id, or nobody waits for it.
    Dropped,
}

/// The tables of pending calls and of subscriptions.
pub struct Correlator<C, S> {
    calls: Vec<(MessageId, C)>,
    subscriptions: Vec<(MessageId, S)>,
}

/// The id and the handle of each entry.
pub open spec fn entries_view<H>(v: Seq<(String, H)>) -> Seq<(Seq<char>, H)> {
    v.map_values(|e: (String, H)| (e.0@, e.1))
}

/// Looks for the entry with the id.
fn find<H>(entries: &Vec<(MessageId, H)>, id: &MessageId) -> (r: Option<usize>)
    ensures
        r matches Some(i) ==> i < entries@.len() && entries_view(entries@)[i as int].0 == id@,
        r is None ==> !has_id(entries_view(entries@), id@),
{
    let mut i: usize = 0;
    while i < entries.len()
        invariant
            i <= entries@.len(),
            forall|j: int| 0 <= j < i ==> entries_view(entries@)[j].0 != id@,
        decreases entries@.len() - i,
    {
        if entries[i].0 == *id {
            return Some(i);
        }
        i = i + 1;
    }
    None
}

impl<C, S> Correlator<C, S> {
    /// Neither table holds an id twice.
    pub open spec fn wf(self) -> bool {
        &&& ids_unique(self.calls_view())
        &&& ids_unique(self.subscriptions_view())
    }

    /// The pending calls, in the order they were registered.
    pub closed spec fn calls_view(self) -> Seq<(Seq<char>, C)> {
        entries_view(self.calls@)
    }

    /// The live subscriptions, in the order they were registered.
    pub closed spec fn subscriptions_view(self) -> Seq<(Seq<char>, S)> {
        entries_view(self.subscriptions@)
    }

    pub fn new() -> (r: Self)
        ensures
            r.wf(),
            r.calls_view() == Seq::<(Seq<char>, C)>::empty(),
            r.subscriptions_view() == Seq::<(Seq<char>, S)>::empty(),
    {
        let r = Correlator { calls: Vec::new(), subscriptions: Vec::new() };
        assert(entries_view(r.calls@) =~= Seq::<(Seq<char>, C)>::empty());
        assert(entries_view(r.subscriptions@) =~= Seq::<(Seq<char>, S)>::empty());
        r
    }

    /// Whether a call is waiting under the id.
    pub fn is_pending(&self, id: &MessageId) -> (r: bool)
        requires
            self.wf(),
        ensures
            r == has_id(self.calls_view(), id@),
    {
        find(&self.calls, id).is_some()
    }

    /// Registers a call under an id, which must happen before its request is
    /// written; an id that is already pending is refused and the handle
    /// handed back.
    pub fn register_call(&mut self, id: MessageId, handle: C) -> (r: Result<(), C>)
        requires
            old(self).wf(),
        ensures
            final(self).wf(),
            r is Ok <==> !has_id(old(self).calls_view(), id@),
            r is Ok ==> final(self).calls_view() == registered(old(self).calls_view(), id@, handle),
            r matches Err(h) ==> h == handle && final(self).calls_view() == old(self).calls_view(),
            final(self).subscriptions_view() == old(self).subscriptions_view(),
    {
        if find(&self.calls, &id).is_some() {
            return Err(handle);
        }
        let ghost before = self.calls@;
        let ghost key = id@;
        self.calls.push((id, handle));
        proof {
            assert(entries_view(self.calls@) =~= entries_view(before).push((key, handle)));
            let v = entries_view(self.calls@);
            assert forall|i: int, j: int| 0 <= i < j < v.len() implies v[i].0 != v[j].0 by {
                if j == v.len() - 1 {
                    assert(v[i] == entries_view(before)[i]);
                }
            }
        }
        Ok(())
    }

    /// Registers a call under the decimal text of `draw`, and returns that
    /// id; when a call is already pending under it, hands the handle back so
    /// that the caller can draw again.
    pub fn open_call(&mut self, draw: u64, handle: C) -> (r: Result<MessageId, C>)
        requires
            old(self).wf(),
        ensures
            final(self).wf(),
            r matches Ok(id) ==> id@ == decimal(draw as nat) && !has_id(old(self).calls_view(), id@)
                && final(self).calls_view() == registered(old(self).calls_view(), id@, handle),
            r matches Err(h) ==> h == handle && has_id(old(self).calls_view(), decimal(draw as nat))
                && final(self).calls_view() == old(self).calls_view(),
            final(self).subscriptions_view() == old(self).subscriptions_view(),
    {
        let id = decimal_text(draw);
        let key = id.clone();
        match self.register_call(id, handle) {
            Ok(()) => Ok(key),
            Err(h) => Err(h),
        }
    }

    /// Registers a call under a freshly drawn random id.
    pub fn open_random_call(&mut self, handle: C) -> (r: Result<MessageId, C>)
        requires
            old(self).wf(),
        ensures
            final(self).wf(),
            r matches Ok(id) ==> !has_id(old(self).calls_view(), id@)
                && final(self).calls_view() == registered(old(self).calls_view(), id@, handle),
            r matches Err(h) ==> h == handle && final(self).calls_view() == old(self).calls_view(),
            r is Err ==> exists|d: u64| has_id(old(self).calls_view(), #[trigger] decimal(d as nat)),
            old(self).calls_view().len() == 0 ==> r is Ok,
            final(self).subscriptions_view() == old(self).subscriptions_view(),
    {
        let draw: u64 = rand::random::<u64>();
        self.open_call(draw, handle)
    }

    /// Decides where an inbound response goes: a response that holds neither
    /// or both of a result and an error is dropped; otherwise the call
    /// pending under its id takes it (and leaves the table), else the
    /// subscription under its id is fed it (and stays), else it is dropped.
    pub fn dispatch(&mut self, response: &Response) -> (r: Dispatch<C>)
        requires
            old(self).wf(),
        ensures
            final(self).wf(),
            final(self).subscriptions_view() == old(self).subscriptions_view(),
            !well_formed(*response) || response.id is None ==> r is Dropped
                && final(self).calls_view() == old(self).calls_view(),
            well_formed(*response) && response.id is Some ==> ({
                let k = response.id->Some_0@;
                let (taken, rest) = resolved(old(self).calls_view(), k);
                &&& final(self).calls_view() == rest
                &&& taken matches Some(h) ==> r == Dispatch::Call(h)
                &&& taken is None && has_id(old(self).subscriptions_view(), k) ==> r is Subscription
                &&& taken is None && !has_id(old(self).subscriptions_view(), k) ==> r is Dropped
            }),
    {
        if !response.is_well_formed() {
            return Dispatch::Dropped;
        }
        match &response.id {
            None => Dispatch::Dropped,
            Some(k) => match self.take_call(k) {
                Some(h) => Dispatch::Call(h),
                None => {
                    if find(&self.subscriptions, k).is_some() {
                        Dispatch::Subscription
                    } else {
                        Dispatch::Dropped
                    }
                },
            },
        }
    }

    /// Takes the call that a frame with this id answers: the handle
    /// registered under the id, removed from the table; nothing, with the
    /// table unchanged, when the frame has no id or no call waits for it.
    pub fn resolve(&mut self, id: &Option<MessageId>) -> (r: Option<C>)
        requires
            old(self).wf(),
        ensures
            final(self).wf(),
            id is None ==> r is None && final(self).calls_view() == old(self).calls_view(),
            id matches Some(k) ==> (r, final(self).calls_view()) == resolved(old(self).calls_view(), k@),
            final(self).subscriptions_view() == old(self).subscriptions_view(),
    {
        match id {
            None => None,
            Some(k) => self.take_call(k),
        }
    }

    /// Removes the call pending under the id, when there is one, and returns
    /// its handle: for a frame that answers it, or for a call that was
    /// abandoned or timed out.
    pub fn take_call(&mut self, id: &MessageId) -> (r: Option<C>)
        requires
            old(self).wf(),
        ensures
            final(self).wf(),
            (r, final(self).calls_view()) == resolved(old(self).calls_view(), id@),
            final(self).subscriptions_view() == old(self).subscriptions_view(),
    {
        match find(&self.calls, id) {
            None => None,
            Some(i) => {
                let ghost before = self.calls@;
                proof {
                    lemma_index_of_unique(entries_view(before), id@, i as int);
                }
                let (_, handle) = self.calls.remove(i);
                proof {
                    assert(entries_view(self.calls@) =~= entries_view(before).remove(i as int));
                    lemma_remove_keeps_unique(entries_view(before), i as int);
                }
                Some(handle)
            },
        }
    }

    /// Registers a subscription under the id that acknowledged it; an id
    /// already subscribed is refused and the handle handed back.
    pub fn register_subscription(&mut self, id: MessageId, handle: S) -> (r: Result<(), S>)
        requires
            old(self).wf(),
        ensures
            final(self).wf(),
            r is Ok <==> !has_id(old(self).subscriptions_view(), id@),
            r is Ok ==> final(self).subscriptions_view() == registered(
                old(self).subscriptions_view(),
                id@,
                handle,
            ),
            r matches Err(h) ==> h == handle && final(self).subscriptions_view() == old(
                self,
            ).subscriptions_view(),
            final(self).calls_view() == old(self).calls_view(),
    {
        if find(&self.subscriptions, &id).is_some() {
            return Err(handle);
        }
        let ghost before = self.subscriptions@;
        let ghost key = id@;
        self.subscriptions.push((id, handle));
        proof {
            assert(entries_view(self.subscriptions@) =~= entries_view(before).push((key, handle)));
            let v = entries_view(self.subscriptions@);
            assert forall|i: int, j: int| 0 <= i < j < v.len() implies v[i].0 != v[j].0 by {
                if j == v.len() - 1 {
                    assert(v[i] == entries_view(before)[i]);
                }
            }
        }
        Ok(())
    }

    /// The subscription that a frame with this id feeds; it stays
    /// registered.
    pub fn subscription(&self, id: &MessageId) -> (r: Option<&S>)
        requires
            self.wf(),
        ensures
            r is Some <==> has_id(self.subscriptions_view(), id@),
            r matches Some(h) ==> *h == self.subscriptions_view()[index_of(
                self.subscriptions_view(),
                id@,
            )].1,
    {
        match find(&self.subscriptions, id) {
            None => None,
            Some(i) => {
                proof {
                    lemma_index_of_unique(entries_view(self.subscriptions@), id@, i as int);
                }
                Some(&self.subscriptions[i].1)
            },
        }
    }

    /// Ends the subscription under the id and returns its handle.
    pub fn unsubscribe(&mut self, id: &MessageId) -> (r: Option<S>)
        requires
            old(self).wf(),
        ensures
            final(self).wf(),
            (r, final(self).subscriptions_view()) == resolved(old(self).subscriptions_view(), id@),
            final(self).calls_view() == old(self).calls_view(),
    {
        match find(&self.subscriptions, id) {
            None => None,
            Some(i) => {
                let ghost before = self.subscriptions@;
                proof {
                    lemma_index_of_unique(entries_view(before), id@, i as int);
                }
                let (_, handle) = self.subscriptions.remove(i);
                proof {
                    assert(entries_view(self.subscriptions@) =~= entries_view(before).remove(i as int));
                    lemma_remove_keeps_unique(entries_view(before), i as int);
                }
                Some(handle)
            },
        }
    }

    /// Empties both tables, as when the socket closes, and returns every
    /// pending call's handle and every subscription's handle, so that each
    /// can be failed.
    pub fn close(&mut self) -> (r: (Vec<C>, Vec<S>))
        requires
            old(self).wf(),
        ensures
            final(self).wf(),
            r.0@ == old(self).calls_view().map_values(|e: (Seq<char>, C)| e.1),
            r.1@ == old(self).subscriptions_view().map_values(|e: (Seq<char>, S)| e.1),
            final(self).calls_view() == Seq::<(Seq<char>, C)>::empty(),
            final(self).subscriptions_view() == Seq::<(Seq<char>, S)>::empty(),
    {
        let mut calls: Vec<(MessageId, C)> = Vec::new();
        let mut subscriptions: Vec<(MessageId, S)> = Vec::new();
        std::mem::swap(&mut calls, &mut self.calls);
        std::mem::swap(&mut subscriptions, &mut self.subscriptions);
        proof {
            assert(entries_view(self.calls@) =~= Seq::<(Seq<char>, C)>::empty());
            assert(entries_view(self.subscriptions@) =~= Seq::<(Seq<char>, S)>::empty());
        }
        (handles_of(calls), handles_of(subscriptions))
    }
}

proof fn lemma_remove_keeps_unique<H>(entries: Seq<(Seq<char>, H)>, k: int)
    requires
        ids_unique(entries),
        0 <= k < entries.len(),
    ensures
        ids_unique(entries.remove(k)),
{
    let rest = entries.remove(k);
    assert forall|i: int, j: int| 0 <= i < j < rest.len() implies rest[i].0 != rest[j].0 by {
        let a = if i < k { i } else { i + 1 };
        let b = if j < k { j } else { j + 1 };
        assert(rest[i] == entries[a]);
        assert(rest[j] == entries[b]);
    }
}

/// The handles of the entries, in order.
fn handles_of<H>(entries: Vec<(MessageId, H)>) -> (r: Vec<H>)
    ensures
        r@ == entries_view(entries@).map_values(|e: (Seq<char>, H)| e.1),
{
    let mut entries = entries;
    let ghost all = entries_view(entries@);
    let mut out: Vec<H> = Vec::new();
    while entries.len() > 0
        invariant
            out@.len() + entries@.len() == all.len(),
            out@ == all.subrange(0, out@.len() as int).map_values(|e: (Seq<char>, H)| e.1),
            entries_view(entries@) == all.subrange(out@.len() as int, all.len() as int),
        decreases entries@.len(),
    {
        let ghost done = out@.len() as int;
        let ghost before = entries@;
        let (_, h) = entries.remove(0);
        proof {
            assert(entries_view(before)[0] == all[done]);
            assert(entries_view(entries@) =~= entries_view(before).drop_first());
        }
        out.push(h);
        proof {
            assert(out@ =~= all.subrange(0, out@.len() as int).map_values(|e: (Seq<char>, H)| e.1));
            assert(entries_view(entries@) =~= all.subrange(out@.len() as int, all.len() as int));
        }
    }
    assert(out@ =~= all.map_values(|e: (Seq<char>, H)| e.1));
    out
}

/// The decimal digit of a value below 10.
pub open spec fn digit_char(d: nat) -> char {
    (('0' as u8) + (d as u8)) as char
}

/// The decimal text of a number: its digits, most significant first, without
/// leading zeros.
pub open spec fn decimal(n: nat) -> Seq<char>
    decreases n,
{
    if n < 10 {
        seq![digit_char(n)]
    } else {
        decimal(n / 10).push(digit_char(n % 10))
    }
}

/// Relies on the Display of u64, through to_string: the decimal digits, with
/// no sign and no leading zeros.
#[verifier::external_body]
fn decimal_text(n: u64) -> (r: String)
    ensures
        r@ == decimal(n as nat),
{
    n.to_string()
}

/// Relies on rand's random, which draws from the thread-local generator;
/// nothing is stated of the value drawn.
pub assume_specification<T>[ rand::random::<T> ]() -> (r: T)
    where
        rand::distributions::Standard: rand::distributions::Distribution<T>,
;

} // verus!
