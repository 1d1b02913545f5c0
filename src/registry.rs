use vstd::hash_map::StringHashMap;
use vstd::prelude::*;

verus! {

/// The live sessions of a gateway: for each session identifier, the sender
/// through which messages posted by the client reach that session.
#[verifier::reject_recursive_types(S)]
pub struct SessionRegistry<S> {
    senders: StringHashMap<S>,
}

impl<S> View for SessionRegistry<S> {
    type V = Map<Seq<char>, S>;

    closed spec fn view(&self) -> Map<Seq<char>, S> {
        self.senders@
    }
}

impl<S> SessionRegistry<S> {
    /// An empty registry.
    pub fn new() -> (r: Self)
        ensures
            r@ == Map::<Seq<char>, S>::empty(),
    {
        SessionRegistry { senders: StringHashMap::new() }
    }

    /// Adds a session. The identifier must not be registered yet.
    pub fn insert(&mut self, id: String, sender: S)
        requires
            !old(self)@.contains_key(id@),
        ensures
            final(self)@ == old(self)@.insert(id@, sender),
    {
        self.senders.insert(id, sender);
    }

    /// The sender of a session, if it is registered.
    pub fn get(&self, id: &str) -> (r: Option<&S>)
        ensures
            match r {
                Some(s) => self@.contains_key(id@) && *s == self@[id@],
                None => !self@.contains_key(id@),
            },
    {
        self.senders.get(id)
    }

    /// Whether a session is registered.
    pub fn contains(&self, id: &str) -> (r: bool)
        ensures
            r == self@.contains_key(id@),
    {
        self.senders.contains_key(id)
    }

    /// Removes a session; removing one that is absent changes nothing.
    /// Returns whether the session was registered before the call.
    pub fn remove(&mut self, id: &str) -> (removed: bool)
        ensures
            final(self)@ == old(self)@.remove(id@),
            removed == old(self)@.contains_key(id@),
    {
        let removed = self.senders.contains_key(id);
        self.senders.remove(id);
        removed
    }

    /// The number of registered sessions.
    pub fn len(&self) -> (r: usize)
        ensures
            r == self@.len(),
    {
        self.senders.len()
    }

    /// Whether no session is registered.
    pub fn is_empty(&self) -> (r: bool)
        ensures
            r == self@.is_empty(),
    {
        self.senders.is_empty()
    }

    /// Registers `sender` under `id` unless `id` is registered already, in
    /// which case nothing changes. Returns whether it was registered.
    pub fn try_register(&mut self, id: String, sender: S) -> (added: bool)
        ensures
            added == !old(self)@.contains_key(id@),
            final(self)@ == (if added {
                old(self)@.insert(id@, sender)
            } else {
                old(self)@
            }),
    {
        if self.senders.contains_key(id.as_str()) {
            false
        } else {
            self.senders.insert(id, sender);
            true
        }
    }
}

/// What is left of `m` once each of `ids` is removed in turn.
pub open spec fn remove_all<S>(m: Map<Seq<char>, S>, ids: Seq<Seq<char>>) -> Map<Seq<char>, S>
    decreases ids.len(),
{
    if ids.len() == 0 {
        m
    } else {
        remove_all(m.remove(ids[0]), ids.drop_first())
    }
}

/// When every session is closed, in any order and even more than once, the
/// registry is empty: no entry outlives a shutdown.
pub proof fn lemma_close_all<S>(m: Map<Seq<char>, S>, ids: Seq<Seq<char>>)
    requires
        forall|k: Seq<char>| m.contains_key(k) ==> ids.contains(k),
    ensures
        remove_all(m, ids) == Map::<Seq<char>, S>::empty(),
    decreases ids.len(),
{
    if ids.len() == 0 {
        assert(m =~= Map::<Seq<char>, S>::empty()) by {
            assert forall|k: Seq<char>| !m.contains_key(k) by {
                if m.contains_key(k) {
                    assert(ids.contains(k));
                }
            }
        }
    } else {
        let rest = ids.drop_first();
        let m2 = m.remove(ids[0]);
        assert forall|k: Seq<char>| m2.contains_key(k) implies rest.contains(k) by {
            assert(ids.contains(k));
            let j = choose|j: int| 0 <= j < ids.len() && ids[j] == k;
            assert(j != 0);
            assert(rest[j - 1] == k);
        }
        lemma_close_all(m2, rest);
    }
}

/// Removing a session twice leaves the registry as removing it once does,
/// and the second removal reports that nothing was there.
pub proof fn lemma_remove_idempotent<S>(m: Map<Seq<char>, S>, id: Seq<char>)
    ensures
        m.remove(id).remove(id) == m.remove(id),
        !m.remove(id).contains_key(id),
{
    assert(m.remove(id).remove(id) =~= m.remove(id));
}

/// A session that is opened and then closed is absent afterwards, and every
/// other session keeps its sender: the registry is as it was before.
pub proof fn lemma_open_then_close<S>(m: Map<Seq<char>, S>, id: Seq<char>, sender: S)
    requires
        !m.contains_key(id),
    ensures
        m.insert(id, sender).contains_key(id),
        m.insert(id, sender)[id] == sender,
        !m.insert(id, sender).remove(id).contains_key(id),
        m.insert(id, sender).remove(id) == m,
{
    assert(m.insert(id, sender).remove(id) =~= m);
}

/// Closing one session leaves every other session registered with its sender.
pub proof fn lemma_close_keeps_others<S>(m: Map<Seq<char>, S>, id: Seq<char>, other: Seq<char>)
    requires
        other != id,
    ensures
        m.remove(id).contains_key(other) == m.contains_key(other),
        m.contains_key(other) ==> m.remove(id)[other] == m[other],
{
}

} // verus!
