use vstd::prelude::*;

verus! {

/// The number by which the registry knows a live connection.
pub type ConnId = u64;

/// The sessions `sessions` after logins of `identity` on each of `conns`,
/// in order.
pub open spec fn after_logins(
    sessions: Map<Seq<char>, ConnId>,
    identity: Seq<char>,
    conns: Seq<ConnId>,
) -> Map<Seq<char>, ConnId>
    decreases conns.len(),
{
    if conns.len() == 0 {
        sessions
    } else {
        after_logins(sessions, identity, conns.drop_last()).insert(identity, conns.last())
    }
}

/// However many logins of one identity succeed, it holds a single session
/// afterwards, that of the last login; the sessions of other identities stay
/// as they were.
pub proof fn lemma_last_login_wins(
    sessions: Map<Seq<char>, ConnId>,
    identity: Seq<char>,
    conns: Seq<ConnId>,
)
    requires
        conns.len() > 0,
    ensures
        after_logins(sessions, identity, conns).contains_key(identity),
        after_logins(sessions, identity, conns)[identity] == conns.last(),
        after_logins(sessions, identity, conns).dom() == sessions.dom().insert(identity),
        forall|k: Seq<char>|
            k != identity && #[trigger] sessions.contains_key(k) ==> after_logins(sessions, identity, conns)[k]
                == sessions[k],
    decreases conns.len(),
{
    let prev = after_logins(sessions, identity, conns.drop_last());
    assert(after_logins(sessions, identity, conns) == prev.insert(identity, conns.last()));
    if conns.len() > 1 {
        lemma_last_login_wins(sessions, identity, conns.drop_last());
        assert(prev.dom().insert(identity) =~= sessions.dom().insert(identity));
    } else {
        assert(conns.drop_last().len() == 0);
        assert(prev == sessions);
    }
    assert(after_logins(sessions, identity, conns).dom() =~= sessions.dom().insert(identity));
}

struct SessionEntry {
    identity: String,
    conn: ConnId,
}

/// The sessions of authenticated identities: at most one live connection per
/// identity.
pub struct SessionRegistry {
    entries: Vec<SessionEntry>,
    model: Ghost<Map<Seq<char>, ConnId>>,
}

impl View for SessionRegistry {
    type V = Map<Seq<char>, ConnId>;

    closed spec fn view(&self) -> Map<Seq<char>, ConnId> {
        self.model@
    }
}

impl SessionRegistry {
    /// The entries hold distinct identities, and each entry is what the
    /// model maps its identity to.
    pub closed spec fn wf(&self) -> bool {
        &&& forall|i: int, j: int|
            0 <= i < j < self.entries@.len() ==> (#[trigger] self.entries@[i]).identity@
                != (#[trigger] self.entries@[j]).identity@
        &&& forall|i: int|
            0 <= i < self.entries@.len() ==> {
                &&& self.model@.contains_key((#[trigger] self.entries@[i]).identity@)
                &&& self.model@[self.entries@[i].identity@] == self.entries@[i].conn
            }
        &&& forall|k: Seq<char>|
            #[trigger] self.model@.contains_key(k) ==> exists|i: int|
                0 <= i < self.entries@.len() && (#[trigger] self.entries@[i]).identity@ == k
    }

    /// A registry without sessions.
    pub fn new() -> (r: SessionRegistry)
        ensures
            r.wf(),
            r@ == Map::<Seq<char>, ConnId>::empty(),
    {
        SessionRegistry { entries: Vec::new(), model: Ghost(Map::empty()) }
    }

    fn find(&self, identity: &String) -> (r: Option<usize>)
        requires
            self.wf(),
        ensures
            match r {
                Some(i) => i < self.entries@.len() && self.entries@[i as int].identity@ == identity@,
                None => !self@.contains_key(identity@),
            },
    {
        let n = self.entries.len();
        let mut i: usize = 0;
        while i < n
            invariant
                n == self.entries@.len(),
                i <= n,
                forall|j: int| 0 <= j < i ==> (#[trigger] self.entries@[j]).identity@ != identity@,
            decreases n - i,
        {
            if self.entries[i].identity == *identity {
                return Some(i);
            }
            i = i + 1;
        }
        None
    }

    /// The connection that holds the session of `identity`, if any.
    pub fn get(&self, identity: &String) -> (r: Option<ConnId>)
        requires
            self.wf(),
        ensures
            r == (if self@.contains_key(identity@) {
                Some(self@[identity@])
            } else {
                None
            }),
    {
        match self.find(identity) {
            Some(i) => Some(self.entries[i].conn),
            None => None,
        }
    }

    /// Gives the session of `identity` to `conn`; a session that another
    /// connection held for it ends.
    pub fn put(&mut self, identity: String, conn: ConnId)
        requires
            old(self).wf(),
        ensures
            final(self).wf(),
            final(self)@ == old(self)@.insert(identity@, conn),
    {
        let ghost key = identity@;
        match self.find(&identity) {
            Some(i) => {
                self.entries.remove(i);
            },
            None => {},
        }
        self.entries.push(SessionEntry { identity, conn });
        self.model = Ghost(self.model@.insert(key, conn));
        proof {
            let n = self.entries@.len();
            assert(self.entries@[n - 1].identity@ == key);
            assert forall|k: Seq<char>| #[trigger] self.model@.contains_key(k) implies exists|i: int|
                0 <= i < self.entries@.len() && (#[trigger] self.entries@[i]).identity@ == k by {
                if k != key {
                    let j = choose|j: int|
                        0 <= j < old(self).entries@.len() && (#[trigger] old(self).entries@[j]).identity@ == k;
                    let old_entries = old(self).entries@;
                    if old_entries.len() == self.entries@.len() - 1 {
                        assert(self.entries@[j].identity@ == k);
                    } else {
                        let r = choose|r: int|
                            0 <= r < old_entries.len() && old_entries[r].identity@ == key;
                        if j < r {
                            assert(self.entries@[j].identity@ == k);
                        } else {
                            assert(self.entries@[j - 1].identity@ == k);
                        }
                    }
                } else {
                    assert(self.entries@[n - 1].identity@ == k);
                }
            }
        }
    }

    /// Ends the session of `identity` if `conn` still holds it. Answers
    /// whether it did.
    pub fn remove_if(&mut self, identity: &String, conn: ConnId) -> (r: bool)
        requires
            old(self).wf(),
        ensures
            final(self).wf(),
            r == (old(self)@.contains_key(identity@) && old(self)@[identity@] == conn),
            final(self)@ == (if r {
                old(self)@.remove(identity@)
            } else {
                old(self)@
            }),
    {
        match self.find(identity) {
            Some(i) => {
                if self.entries[i].conn == conn {
                    self.entries.remove(i);
                    self.model = Ghost(self.model@.remove(identity@));
                    proof {
                        let old_entries = old(self).entries@;
                        assert forall|k: Seq<char>| #[trigger] self.model@.contains_key(k) implies exists|j: int|
                            0 <= j < self.entries@.len() && (#[trigger] self.entries@[j]).identity@ == k by {
                            let j = choose|j: int|
                                0 <= j < old_entries.len() && (#[trigger] old_entries[j]).identity@ == k;
                            if j < i {
                                assert(self.entries@[j].identity@ == k);
                            } else {
                                assert(self.entries@[j - 1].identity@ == k);
                            }
                        }
                    }
                    true
                } else {
                    false
                }
            },
            None => false,
        }
    }
}

} // verus!
