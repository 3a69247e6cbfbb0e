use vstd::prelude::*;

use crate::envelope::MsgPayload;

verus! {

/// What waits for `identity` in the queue model `q`, oldest first.
pub open spec fn queued(q: Map<Seq<char>, Seq<MsgPayload>>, identity: Seq<char>) -> Seq<MsgPayload> {
    if q.contains_key(identity) {
        q[identity]
    } else {
        Seq::empty()
    }
}

/// The queue model `q` after `m` arrived for `identity`.
pub open spec fn enqueued(
    q: Map<Seq<char>, Seq<MsgPayload>>,
    identity: Seq<char>,
    m: MsgPayload,
) -> Map<Seq<char>, Seq<MsgPayload>> {
    q.insert(identity, queued(q, identity).push(m))
}

/// The queue model `q` after each of `ms` arrived for `identity`, in order.
pub open spec fn enqueued_all(
    q: Map<Seq<char>, Seq<MsgPayload>>,
    identity: Seq<char>,
    ms: Seq<MsgPayload>,
) -> Map<Seq<char>, Seq<MsgPayload>>
    decreases ms.len(),
{
    if ms.len() == 0 {
        q
    } else {
        enqueued(enqueued_all(q, identity, ms.drop_last()), identity, ms.last())
    }
}

/// Envelopes that arrive for an identity one after another wait behind what
/// was already queued for it, in the order they arrived; draining hands out
/// exactly that sequence, and a second drain finds nothing.
pub proof fn lemma_fifo_drain_once(
    q: Map<Seq<char>, Seq<MsgPayload>>,
    identity: Seq<char>,
    ms: Seq<MsgPayload>,
)
    ensures
        queued(enqueued_all(q, identity, ms), identity) == queued(q, identity) + ms,
        queued(enqueued_all(q, identity, ms).remove(identity), identity) == Seq::<MsgPayload>::empty(),
    decreases ms.len(),
{
    if ms.len() > 0 {
        lemma_fifo_drain_once(q, identity, ms.drop_last());
        assert(queued(q, identity) + ms.drop_last() + seq![ms.last()] =~= queued(q, identity) + ms);
    } else {
        assert(queued(q, identity) + ms =~= queued(q, identity));
    }
}

struct QueueEntry {
    identity: String,
    items: Vec<MsgPayload>,
}

/// Envelopes kept for identities that had no session when they arrived.
pub struct OfflineQueue {
    entries: Vec<QueueEntry>,
    model: Ghost<Map<Seq<char>, Seq<MsgPayload>>>,
}

impl View for OfflineQueue {
    type V = Map<Seq<char>, Seq<MsgPayload>>;

    closed spec fn view(&self) -> Map<Seq<char>, Seq<MsgPayload>> {
        self.model@
    }
}

impl OfflineQueue {
    /// The entries hold distinct identities, and each entry holds what the
    /// model keeps for its identity.
    pub closed spec fn wf(&self) -> bool {
        &&& forall|i: int, j: int|
            0 <= i < j < self.entries@.len() ==> (#[trigger] self.entries@[i]).identity@
                != (#[trigger] self.entries@[j]).identity@
        &&& forall|i: int|
            0 <= i < self.entries@.len() ==> {
                &&& self.model@.contains_key((#[trigger] self.entries@[i]).identity@)
                &&& self.model@[self.entries@[i].identity@] == self.entries@[i].items@
            }
        &&& forall|k: Seq<char>|
            #[trigger] self.model@.contains_key(k) ==> exists|i: int|
                0 <= i < self.entries@.len() && (#[trigger] self.entries@[i]).identity@ == k
    }

    /// A queue that holds nothing.
    pub fn new() -> (r: OfflineQueue)
        ensures
            r.wf(),
            r@ == Map::<Seq<char>, Seq<MsgPayload>>::empty(),
    {
        OfflineQueue { entries: Vec::new(), model: Ghost(Map::empty()) }
    }

    fn find(&self, identity: &String) -> (r: Option<usize>)
        requires
            self.wf(),
        ensures
            match r {
                Some(i) => i < self.entries@.len() && self.entries@[i as int].identity@ == identity@,
                None => !self@.contains_key(identity@),
            },
    {
        let n = self.entries.len();
        let mut i: usize = 0;
        while i < n
            invariant
                n == self.entries@.len(),
                i <= n,
                forall|j: int| 0 <= j < i ==> (#[trigger] self.entries@[j]).identity@ != identity@,
            decreases n - i,
        {
            if self.entries[i].identity == *identity {
                return Some(i);
            }
            i = i + 1;
        }
        None
    }

    /// How many envelopes wait for `identity`.
    pub fn pending(&self, identity: &String) -> (r: usize)
        requires
            self.wf(),
        ensures
            r == queued(self@, identity@).len(),
    {
        match self.find(identity) {
            Some(i) => self.entries[i].items.len(),
            None => 0,
        }
    }

    /// Appends `m` to what waits for `identity`.
    pub fn enqueue(&mut self, identity: String, m: MsgPayload)
        requires
            old(self).wf(),
        ensures
            final(self).wf(),
            final(self)@ == enqueued(old(self)@, identity@, m),
    {
        let ghost key = identity@;
        let ghost items = queued(self@, key).push(m);
        let entry = match self.find(&identity) {
            Some(i) => {
                let mut e = self.entries.remove(i);
                e.items.push(m);
                e
            },
            None => {
                let mut v: Vec<MsgPayload> = Vec::new();
                v.push(m);
                QueueEntry { identity, items: v }
            },
        };
        self.entries.push(entry);
        self.model = Ghost(self.model@.insert(key, items));
        proof {
            let n = self.entries@.len();
            assert(self.entries@[n - 1].identity@ == key);
            assert forall|k: Seq<char>| #[trigger] self.model@.contains_key(k) implies exists|i: int|
                0 <= i < self.entries@.len() && (#[trigger] self.entries@[i]).identity@ == k by {
                if k != key {
                    let j = choose|j: int|
                        0 <= j < old(self).entries@.len() && (#[trigger] old(self).entries@[j]).identity@ == k;
                    let old_entries = old(self).entries@;
                    if old_entries.len() == self.entries@.len() - 1 {
                        assert(self.entries@[j].identity@ == k);
                    } else {
                        let r = choose|r: int|
                            0 <= r < old_entries.len() && old_entries[r].identity@ == key;
                        if j < r {
                            assert(self.entries@[j].identity@ == k);
                        } else {
                            assert(self.entries@[j - 1].identity@ == k);
                        }
                    }
                } else {
                    assert(self.entries@[n - 1].identity@ == k);
                }
            }
        }
    }

    /// Takes out everything that waits for `identity`, oldest first.
    pub fn drain(&mut self, identity: &String) -> (r: Vec<MsgPayload>)
        requires
            old(self).wf(),
        ensures
            final(self).wf(),
            r@ == queued(old(self)@, identity@),
            final(self)@ == old(self)@.remove(identity@),
    {
        match self.find(identity) {
            Some(i) => {
                let e = self.entries.remove(i);
                self.model = Ghost(self.model@.remove(identity@));
                proof {
                    let old_entries = old(self).entries@;
                    assert forall|k: Seq<char>| #[trigger] self.model@.contains_key(k) implies exists|j: int|
                        0 <= j < self.entries@.len() && (#[trigger] self.entries@[j]).identity@ == k by {
                        let j = choose|j: int|
                            0 <= j < old_entries.len() && (#[trigger] old_entries[j]).identity@ == k;
                        if j < i {
                            assert(self.entries@[j].identity@ == k);
                        } else {
                            assert(self.entries@[j - 1].identity@ == k);
                        }
                    }
                }
                e.items
            },
            None => {
                proof {
                    assert(self.model@.remove(identity@) =~= self.model@);
                }
                Vec::new()
            },
        }
    }
}

} // verus!
