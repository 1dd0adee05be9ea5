//! The channel registry owned by the reader task.
//!
//! The registry maps channel ids to their resources: the set of pending
//! RPC waiters (one single-shot slot per method key) and the optional
//! dispatcher of asynchronous server pushes.  The reader task is the only
//! mutator; the facades talk to it through management commands.
//!
//! The registry is generic over the waiter slot type `W` and the
//! dispatcher handle type `D`, so the asynchronous plumbing outside the
//! crate can store its one-shot senders and queue handles here while the
//! bookkeeping stays verified.

use vstd::prelude::*;
use crate::error::ErrorKind;
use crate::method::MethodKey;

verus! {

/// One pending RPC waiter: the single-shot `slot` receives the next
/// method frame whose key is `key`.
pub struct Waiter<W> {
    pub key: MethodKey,
    pub slot: W,
}

/// The per-channel state: pending waiters plus the optional dispatcher
/// of asynchronous server pushes (`None` only for channel 0).
pub struct ChannelResource<W, D> {
    pub waiters: Vec<Waiter<W>>,
    pub dispatcher: Option<D>,
}

/// At most one waiter per method key at a time.
pub open spec fn waiter_keys_unique<W>(s: Seq<Waiter<W>>) -> bool {
    forall|i: int, j: int| 0 <= i < j < s.len() ==> s[i].key != s[j].key
}

/// The slot pending for key `k`, scanning from the most recent entry.
/// Under `waiter_keys_unique` the scan order is irrelevant.
pub open spec fn waiter_slot_for<W>(s: Seq<Waiter<W>>, k: MethodKey) -> Option<W>
    decreases s.len(),
{
    if s.len() == 0 {
        None
    } else if s.last().key == k {
        Some(s.last().slot)
    } else {
        waiter_slot_for(s.drop_last(), k)
    }
}

/// Whether some waiter is pending for key `k`.
pub open spec fn has_waiter_for<W>(s: Seq<Waiter<W>>, k: MethodKey) -> bool {
    waiter_slot_for(s, k) is Some
}

/// No waiter is pending for `k` exactly when no entry carries `k`.
pub proof fn lemma_waiter_absent_iff<W>(s: Seq<Waiter<W>>, k: MethodKey)
    ensures
        (waiter_slot_for(s, k) is None) <==> (forall|i: int|
            0 <= i < s.len() ==> s[i].key != k),
    decreases s.len(),
{
    if s.len() > 0 {
        lemma_waiter_absent_iff(s.drop_last(), k);
        assert(forall|i: int| 0 <= i < s.len() - 1 ==> s.drop_last()[i] == s[i]);
    }
}

/// Removing the (unique) waiter for `k` leaves no waiter for `k` and
/// every other key's waiter untouched.
pub proof fn lemma_waiter_remove<W>(s: Seq<Waiter<W>>, i: int, k: MethodKey)
    requires
        0 <= i < s.len(),
        s[i].key == k,
        waiter_keys_unique(s),
    ensures
        waiter_slot_for(s, k) == Some(s[i].slot),
        waiter_slot_for(s.remove(i), k) is None,
        forall|k2: MethodKey| k2 != k ==> waiter_slot_for(s.remove(i), k2)
            == waiter_slot_for(s, k2),
        waiter_keys_unique(s.remove(i)),
    decreases s.len(),
{
    let r = s.remove(i);
    assert forall|i2: int, j2: int| 0 <= i2 < j2 < r.len() implies r[i2].key != r[j2].key by {
        assert(r[i2] == if i2 < i { s[i2] } else { s[i2 + 1] });
        assert(r[j2] == if j2 < i { s[j2] } else { s[j2 + 1] });
    }
    if i == s.len() - 1 {
        assert(r =~= s.drop_last());
        lemma_waiter_absent_iff(s.drop_last(), k);
        assert forall|j: int| 0 <= j < s.len() - 1 implies s.drop_last()[j].key != k by {
            assert(s.drop_last()[j] == s[j]);
        }
    } else {
        assert(s.last().key != k);
        assert(r.last() == s.last());
        assert(r.drop_last() =~= s.drop_last().remove(i));
        assert(s.drop_last()[i] == s[i]);
        lemma_waiter_remove(s.drop_last(), i, k);
        assert forall|k2: MethodKey| k2 != k implies waiter_slot_for(r, k2)
            == waiter_slot_for(s, k2) by {
            if r.last().key != k2 {
                assert(waiter_slot_for(r, k2) == waiter_slot_for(r.drop_last(), k2));
                assert(waiter_slot_for(s, k2) == waiter_slot_for(s.drop_last(), k2));
            }
        }
    }
}

/// Finds the waiter pending for `key`, if any, as an index into `ws`.
pub fn find_waiter_index<W>(ws: &Vec<Waiter<W>>, key: MethodKey) -> (r: Option<usize>)
    ensures
        match r {
            Some(i) => i < ws@.len() && ws@[i as int].key == key
                && waiter_slot_for(ws@, key) == Some(ws@[i as int].slot),
            None => waiter_slot_for(ws@, key) is None,
        },
{
    let mut i: usize = ws.len();
    assert(ws@.subrange(0, i as int) =~= ws@);
    while i > 0
        invariant
            i <= ws@.len(),
            waiter_slot_for(ws@, key) == waiter_slot_for(ws@.subrange(0, i as int), key),
        decreases i,
    {
        let prefix = Ghost(ws@.subrange(0, i as int));
        proof {
            assert(prefix@.last() == ws@[i - 1]);
            assert(prefix@.drop_last() =~= ws@.subrange(0, i - 1));
        }
        if ws[i - 1].key == key {
            return Some(i - 1);
        }
        i = i - 1;
    }
    assert(ws@.subrange(0, 0) =~= Seq::<Waiter<W>>::empty());
    None
}

impl<W, D> ChannelResource<W, D> {
    /// A fresh resource: no pending waiters.
    pub open spec fn wf(&self) -> bool {
        waiter_keys_unique(self.waiters@)
    }

    pub fn new(dispatcher: Option<D>) -> (r: Self)
        ensures
            r.wf(),
            r.waiters@.len() == 0,
            r.dispatcher == dispatcher,
    {
        ChannelResource { waiters: Vec::new(), dispatcher }
    }
}

/// Channel-id to resource map, plus the allocation hint `next_id`.
/// `slots[id]` is the resource of channel `id`; the vector's length is
/// `channel_max + 1`, so ids `0..=channel_max` are representable.
pub struct ChannelRegistry<W, D> {
    pub slots: Vec<Option<ChannelResource<W, D>>>,
    pub next_id: u16,
}

/// Position of `id` in the allocation scan `next_id..=channel_max`
/// followed by `1..next_id`.
pub open spec fn scan_rank(next_id: u16, channel_max: u16, id: u16) -> int {
    if id >= next_id {
        id - next_id
    } else {
        channel_max + 1 - next_id + id - 1
    }
}

impl<W, D> ChannelRegistry<W, D> {
    pub open spec fn spec_channel_max(&self) -> u16 {
        (self.slots@.len() - 1) as u16
    }

    pub open spec fn spec_registered(&self, id: u16) -> bool {
        id < self.slots@.len() && self.slots@[id as int] is Some
    }

    pub open spec fn spec_resource(&self, id: u16) -> ChannelResource<W, D>
        recommends
            self.spec_registered(id),
    {
        self.slots@[id as int]->0
    }

    pub open spec fn wf(&self) -> bool {
        &&& 2 <= self.slots@.len() <= 65536
        &&& 1 <= self.next_id < self.slots@.len()
        &&& forall|i: int| 0 <= i < self.slots@.len() && self.slots@[i] is Some
            ==> (#[trigger] self.slots@[i])->0.wf()
    }

    /// An empty registry for channels `0..=channel_max`.
    pub fn new(channel_max: u16) -> (r: Self)
        requires
            channel_max >= 1,
        ensures
            r.wf(),
            r.spec_channel_max() == channel_max,
            r.next_id == 1,
            forall|id: u16| !r.spec_registered(id),
    {
        let n: usize = channel_max as usize + 1;
        let mut slots: Vec<Option<ChannelResource<W, D>>> = Vec::new();
        let mut i: usize = 0;
        while i < n
            invariant
                i <= n,
                slots@.len() == i,
                forall|j: int| 0 <= j < i ==> slots@[j] is None,
            decreases n - i,
        {
            slots.push(None);
            i = i + 1;
        }
        ChannelRegistry { slots, next_id: 1 }
    }

    pub fn channel_max(&self) -> (m: u16)
        requires
            self.wf(),
        ensures
            m == self.spec_channel_max(),
    {
        (self.slots.len() - 1) as u16
    }

    pub fn is_registered(&self, id: u16) -> (b: bool)
        ensures
            b == self.spec_registered(id),
    {
        (id as usize) < self.slots.len() && self.slots[id as usize].is_some()
    }

    /// The first free id in scan order starting at `next_id`, if any.
    fn find_free(&self) -> (r: Option<u16>)
        requires
            self.wf(),
        ensures
            match r {
                Some(id) => 1 <= id <= self.spec_channel_max() && !self.spec_registered(id)
                    && forall|j: u16|
                        1 <= j <= self.spec_channel_max()
                        && scan_rank(self.next_id, self.spec_channel_max(), j)
                            < scan_rank(self.next_id, self.spec_channel_max(), id)
                        ==> self.spec_registered(j),
                None => forall|j: u16|
                    1 <= j <= self.spec_channel_max() ==> self.spec_registered(j),
            },
    {
        let max = self.channel_max();
        let span: u16 = max - self.next_id + 1;
        let mut rank: u16 = 0;
        while rank < max
            invariant
                self.wf(),
                max == self.spec_channel_max(),
                span == max - self.next_id + 1,
                rank <= max,
                forall|j: u16|
                    1 <= j <= max && scan_rank(self.next_id, max, j) < rank
                    ==> self.spec_registered(j),
            decreases max - rank,
        {
            let id: u16 = if rank < span {
                self.next_id + rank
            } else {
                rank - span + 1
            };
            assert(scan_rank(self.next_id, max, id) == rank);
            assert(1 <= id && id <= max);
            if !self.slots[id as usize].is_some() {
                return Some(id);
            }
            proof {
                assert forall|j: u16|
                    1 <= j <= max && scan_rank(self.next_id, max, j) == rank implies j == id by {}
            }
            rank = rank + 1;
        }
        proof {
            assert forall|j: u16| 1 <= j <= max implies scan_rank(self.next_id, max, j) < max by {}
        }
        None
    }

    /// Allocates the first free id in scan order, installs the resource
    /// there, and advances `next_id` past the found id (wrapping to 1).
    /// Returns `None`, changing nothing, when all ids are taken.
    pub fn allocate(&mut self, resource: ChannelResource<W, D>) -> (r: Option<u16>)
        requires
            old(self).wf(),
            resource.wf(),
        ensures
            final(self).wf(),
            final(self).spec_channel_max() == old(self).spec_channel_max(),
            match r {
                Some(id) => {
                    &&& 1 <= id <= old(self).spec_channel_max()
                    &&& !old(self).spec_registered(id)
                    &&& forall|j: u16|
                        1 <= j <= old(self).spec_channel_max()
                        && scan_rank(old(self).next_id, old(self).spec_channel_max(), j)
                            < scan_rank(old(self).next_id, old(self).spec_channel_max(), id)
                        ==> old(self).spec_registered(j)
                    &&& final(self).slots@ == old(self).slots@.update(id as int, Some(resource))
                    &&& final(self).next_id == (if id == old(self).spec_channel_max() { 1u16 } else {
                        (id + 1) as u16
                    })
                },
                None => {
                    &&& *final(self) == *old(self)
                    &&& forall|j: u16|
                        1 <= j <= old(self).spec_channel_max() ==> old(self).spec_registered(j)
                },
            },
    {
        let max = self.channel_max();
        match self.find_free() {
            Some(id) => {
                self.slots[id as usize] = Some(resource);
                self.next_id = if id == max {
                    1
                } else {
                    id + 1
                };
                Some(id)
            },
            None => None,
        }
    }

    /// Installs the resource exactly at `id`, failing if `id` is out of
    /// range or occupied.
    pub fn register_at(&mut self, id: u16, resource: ChannelResource<W, D>) -> (ok: bool)
        requires
            old(self).wf(),
            resource.wf(),
        ensures
            final(self).wf(),
            final(self).spec_channel_max() == old(self).spec_channel_max(),
            final(self).next_id == old(self).next_id,
            ok == (id < old(self).slots@.len() && !old(self).spec_registered(id)),
            ok ==> final(self).slots@ == old(self).slots@.update(id as int, Some(resource)),
            !ok ==> *final(self) == *old(self),
    {
        if (id as usize) < self.slots.len() && !self.slots[id as usize].is_some() {
            self.slots[id as usize] = Some(resource);
            true
        } else {
            false
        }
    }

    /// Removes channel `id`, handing its resource back so the caller can
    /// fail the pending waiters and shut the dispatcher down.
    pub fn unregister(&mut self, id: u16) -> (r: Option<ChannelResource<W, D>>)
        requires
            old(self).wf(),
        ensures
            final(self).wf(),
            final(self).spec_channel_max() == old(self).spec_channel_max(),
            final(self).next_id == old(self).next_id,
            match r {
                Some(res) => old(self).spec_registered(id) && res == old(self).spec_resource(id)
                    && final(self).slots@ == old(self).slots@.update(id as int, None),
                None => !old(self).spec_registered(id) && *final(self) == *old(self),
            },
    {
        if (id as usize) < self.slots.len() {
            if self.slots[id as usize].is_some() {
                let slot = &mut self.slots[id as usize];
                let r = slot.take();
                return r;
            }
        }
        None
    }

    /// Attaches a waiter for `key` on channel `id`.  Rejects a second
    /// waiter for a pending key (`DuplicateResponder`) and a channel
    /// that is not registered (`ChannelClosed`).
    pub fn register_responder(&mut self, id: u16, key: MethodKey, slot: W) -> (r: Result<
        (),
        ErrorKind,
    >)
        requires
            old(self).wf(),
        ensures
            final(self).wf(),
            final(self).spec_channel_max() == old(self).spec_channel_max(),
            final(self).next_id == old(self).next_id,
            (r is Ok) == (old(self).spec_registered(id)
                && !has_waiter_for(old(self).spec_resource(id).waiters@, key)),
            match r {
                Ok(()) => {
                    &&& old(self).spec_registered(id)
                    &&& !has_waiter_for(old(self).spec_resource(id).waiters@, key)
                    &&& final(self).spec_registered(id)
                    &&& waiter_slot_for(final(self).spec_resource(id).waiters@, key)
                        == Some(slot)
                    &&& forall|k2: MethodKey| k2 != key
                        ==> waiter_slot_for(final(self).spec_resource(id).waiters@, k2)
                            == waiter_slot_for(old(self).spec_resource(id).waiters@, k2)
                    &&& final(self).spec_resource(id).dispatcher
                        == old(self).spec_resource(id).dispatcher
                    &&& forall|c2: u16| c2 != id
                        ==> final(self).spec_registered(c2) == old(self).spec_registered(c2)
                            && (old(self).spec_registered(c2) ==> final(self).spec_resource(c2)
                                == old(self).spec_resource(c2))
                },
                Err(e) => {
                    &&& *final(self) == *old(self)
                    &&& (e == (ErrorKind::DuplicateResponder)) == (
                        old(self).spec_registered(id)
                        && has_waiter_for(old(self).spec_resource(id).waiters@, key))
                    &&& (e matches ErrorKind::ChannelClosed { .. })
                        == !old(self).spec_registered(id)
                },
            },
    {
        if (id as usize) >= self.slots.len() || !self.slots[id as usize].is_some() {
            return Err(ErrorKind::ChannelClosed { code: 0, text: String::new() });
        }
        let dup = match &self.slots[id as usize] {
            Some(res) => find_waiter_index(&res.waiters, key).is_some(),
            None => false,
        };
        if dup {
            return Err(ErrorKind::DuplicateResponder);
        }
        let ghost old_slots = self.slots@;
        let entry = &mut self.slots[id as usize];
        match entry {
            Some(res) => {
                let ghost old_waiters = res.waiters@;
                res.waiters.push(Waiter { key, slot });
                proof {
                    let new_waiters = old_waiters.push(Waiter { key, slot });
                    assert(new_waiters.drop_last() =~= old_waiters);
                    lemma_waiter_absent_iff(old_waiters, key);
                    assert forall|i2: int, j2: int|
                        0 <= i2 < j2 < new_waiters.len() implies new_waiters[i2].key
                        != new_waiters[j2].key by {
                        assert(i2 < old_waiters.len());
                        assert(new_waiters[i2] == old_waiters[i2]);
                    }
                }
                Ok(())
            },
            None => {
                proof {
                    assert(false);
                }
                Err(ErrorKind::DecodeError)
            },
        }
    }

    /// Detaches and returns the waiter pending for `key` on channel `id`.
    pub fn take_responder(&mut self, id: u16, key: MethodKey) -> (r: Option<W>)
        requires
            old(self).wf(),
        ensures
            final(self).wf(),
            final(self).spec_channel_max() == old(self).spec_channel_max(),
            final(self).next_id == old(self).next_id,
            match r {
                Some(slot) => {
                    &&& old(self).spec_registered(id)
                    &&& waiter_slot_for(old(self).spec_resource(id).waiters@, key)
                        == Some(slot)
                    &&& final(self).spec_registered(id)
                    &&& waiter_slot_for(final(self).spec_resource(id).waiters@, key) is None
                    &&& forall|k2: MethodKey| k2 != key
                        ==> waiter_slot_for(final(self).spec_resource(id).waiters@, k2)
                            == waiter_slot_for(old(self).spec_resource(id).waiters@, k2)
                    &&& final(self).spec_resource(id).dispatcher
                        == old(self).spec_resource(id).dispatcher
                    &&& forall|c2: u16| c2 != id
                        ==> final(self).spec_registered(c2) == old(self).spec_registered(c2)
                            && (old(self).spec_registered(c2) ==> final(self).spec_resource(c2)
                                == old(self).spec_resource(c2))
                },
                None => *final(self) == *old(self) && (!old(self).spec_registered(id)
                    || !has_waiter_for(old(self).spec_resource(id).waiters@, key)),
            },
    {
        if (id as usize) >= self.slots.len() || !self.slots[id as usize].is_some() {
            return None;
        }
        let found = match &self.slots[id as usize] {
            Some(res) => find_waiter_index(&res.waiters, key),
            None => None,
        };
        match found {
            Some(i) => {
                let entry = &mut self.slots[id as usize];
                match entry {
                    Some(res) => {
                        let ghost old_waiters = res.waiters@;
                        let w = res.waiters.remove(i);
                        proof {
                            lemma_waiter_remove(old_waiters, i as int, key);
                        }
                        Some(w.slot)
                    },
                    None => {
                        proof {
                            assert(false);
                        }
                        None
                    },
                }
            },
            None => None,
        }
    }
}

/// A channel id freed by unregistration is eligible for reuse: after
/// the removal (which `unregister` pins as an update of slot `id` to
/// `None`) the id is free again, so a later registration at that id
/// succeeds and a later allocation cannot report exhaustion.
pub proof fn lemma_channel_id_reusable<W, D>(
    pre: ChannelRegistry<W, D>,
    post: ChannelRegistry<W, D>,
    id: u16,
)
    requires
        pre.wf(),
        1 <= id <= pre.spec_channel_max(),
        post.slots@ == pre.slots@.update(id as int, None),
    ensures
        !post.spec_registered(id),
        id < post.slots@.len(),
        exists|j: u16| 1 <= j <= pre.spec_channel_max() && !post.spec_registered(j),
{
    assert(1 <= id <= pre.spec_channel_max() && !post.spec_registered(id));
}

} // verus!
