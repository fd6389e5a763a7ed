use vstd::prelude::*;

use crate::text::str_eq;

verus! {

#[verifier::external_type_specification]
#[verifier::external_body]
#[verifier::reject_recursive_types(T)]
pub struct ExOneshotSender<T>(tokio::sync::oneshot::Sender<T>);

/// Relies on tokio's `oneshot::Sender::send`: it consumes the sender and hands
/// the value to the receiver if the receiver is still there. Whether it was
/// there is up to the other side, so nothing is promised of the result.
pub assume_specification<T>[ tokio::sync::oneshot::Sender::<T>::send ](
    s: tokio::sync::oneshot::Sender<T>,
    t: T,
) -> Result<(), T>;

/// A one-shot cancellation signal for one running execution. Dropping it
/// without firing means that no kill was asked for.
pub struct KillHandle {
    sender: tokio::sync::oneshot::Sender<()>,
}

impl KillHandle {
    /// Wraps the sending half of a one-shot channel.
    pub fn new(sender: tokio::sync::oneshot::Sender<()>) -> (r: KillHandle) {
        KillHandle { sender }
    }

    /// Fires the signal. The handle is consumed, so it fires at most once; the
    /// result says whether the execution was still listening.
    pub fn fire(self) -> (r: bool) {
        match self.sender.send(()) {
            Ok(()) => true,
            Err(()) => false,
        }
    }
}

/// The process-wide map from execution id to kill handle.
pub struct KillRegistry {
    entries: Vec<(String, KillHandle)>,
    model: Ghost<Map<Seq<char>, KillHandle>>,
}

impl View for KillRegistry {
    type V = Map<Seq<char>, KillHandle>;

    closed spec fn view(&self) -> Map<Seq<char>, KillHandle> {
        self.model@
    }
}

impl KillRegistry {
    /// The entries and the map agree, and no id appears twice.
    pub closed spec fn wf(&self) -> bool {
        let e = self.entries@;
        let m = self.model@;
        &&& forall|i: int|
            0 <= i < e.len() ==> #[trigger] m.contains_key(e[i].0@) && m[e[i].0@] == e[i].1
        &&& forall|k: Seq<char>|
            #[trigger] m.contains_key(k) ==> exists|i: int| 0 <= i < e.len() && e[i].0@ == k
        &&& forall|i: int, j: int|
            0 <= i < e.len() && 0 <= j < e.len() && i != j ==> #[trigger] e[i].0@ != #[trigger] e[j].0@
    }

    /// An empty registry.
    pub fn new() -> (r: KillRegistry)
        ensures
            r.wf(),
            r@ == Map::<Seq<char>, KillHandle>::empty(),
    {
        KillRegistry { entries: Vec::new(), model: Ghost(Map::empty()) }
    }

    /// The position of `id` among the entries.
    fn position(&self, id: &str) -> (r: Option<usize>)
        requires
            self.wf(),
        ensures
            r matches Some(i) ==> i < self.entries@.len() && self.entries@[i as int].0@ == id@,
            r is None ==> !self@.contains_key(id@),
    {
        let mut i: usize = 0;
        while i < self.entries.len()
            invariant
                self.wf(),
                i <= self.entries@.len(),
                forall|j: int| 0 <= j < i ==> #[trigger] self.entries@[j].0@ != id@,
            decreases self.entries@.len() - i,
        {
            if str_eq(self.entries[i].0.as_str(), id) {
                return Some(i);
            }
            i = i + 1;
        }
        None
    }

    /// Drops entry `i` from both the entries and the map.
    fn take_at(&mut self, i: usize) -> (r: KillHandle)
        requires
            old(self).wf(),
            i < old(self).entries@.len(),
        ensures
            final(self).wf(),
            final(self)@ == old(self)@.remove(old(self).entries@[i as int].0@),
            r == old(self)@[old(self).entries@[i as int].0@],
    {
        let ghost e = self.entries@;
        let ghost k = e[i as int].0@;
        let ghost m = self.model@;
        assert(m.contains_key(e[i as int].0@));
        let (_, h) = self.entries.remove(i);
        self.model = Ghost(self.model@.remove(k));
        let ghost e2 = self.entries@;
        assert forall|j: int| 0 <= j < e2.len() implies #[trigger] self.model@.contains_key(e2[j].0@)
            && self.model@[e2[j].0@] == e2[j].1 by {
            let oj = if j < i {
                j
            } else {
                j + 1
            };
            assert(e2[j] == e[oj]);
            assert(e[oj].0@ != e[i as int].0@);
            assert(m.contains_key(e[oj].0@));
        }
        assert forall|k2: Seq<char>| #[trigger] self.model@.contains_key(k2) implies exists|j: int|
            0 <= j < e2.len() && e2[j].0@ == k2 by {
            let oj = choose|oj: int| 0 <= oj < e.len() && e[oj].0@ == k2;
            assert(oj != i);
            let j = if oj < i {
                oj
            } else {
                oj - 1
            };
            assert(e2[j] == e[oj]);
        }
        assert forall|a: int, b: int|
            0 <= a < e2.len() && 0 <= b < e2.len() && a != b implies #[trigger] e2[a].0@
            != #[trigger] e2[b].0@ by {
            let oa = if a < i {
                a
            } else {
                a + 1
            };
            let ob = if b < i {
                b
            } else {
                b + 1
            };
            assert(e2[a] == e[oa]);
            assert(e2[b] == e[ob]);
        }
        h
    }

    /// Installs `handle` under `id`. A handle already there is replaced and
    /// dropped without being fired.
    pub fn insert(&mut self, id: String, handle: KillHandle)
        requires
            old(self).wf(),
        ensures
            final(self).wf(),
            final(self)@ == old(self)@.insert(id@, handle),
    {
        match self.position(id.as_str()) {
            Some(i) => {
                let _replaced = self.take_at(i);
                assert(old(self)@.remove(id@).insert(id@, handle) =~= old(self)@.insert(id@, handle));
            },
            None => {
                assert(old(self)@.remove(id@) =~= old(self)@);
            },
        }
        let ghost e = self.entries@;
        let ghost m = self.model@;
        let ghost k = id@;
        assert(!m.contains_key(k));
        self.entries.push((id, handle));
        self.model = Ghost(m.insert(k, handle));
        let ghost e2 = self.entries@;
        assert forall|j: int| 0 <= j < e2.len() implies #[trigger] self.model@.contains_key(e2[j].0@)
            && self.model@[e2[j].0@] == e2[j].1 by {
            if j < e.len() {
                assert(e2[j] == e[j]);
                assert(m.contains_key(e[j].0@));
            }
        }
        assert forall|k2: Seq<char>| #[trigger] self.model@.contains_key(k2) implies exists|j: int|
            0 <= j < e2.len() && e2[j].0@ == k2 by {
            if k2 == k {
                assert(e2[e.len() as int].0@ == k);
            } else {
                let j = choose|j: int| 0 <= j < e.len() && e[j].0@ == k2;
                assert(e2[j] == e[j]);
            }
        }
        assert forall|a: int, b: int|
            0 <= a < e2.len() && 0 <= b < e2.len() && a != b implies #[trigger] e2[a].0@
            != #[trigger] e2[b].0@ by {
            if a < e.len() {
                assert(e2[a] == e[a]);
                assert(m.contains_key(e[a].0@));
            }
            if b < e.len() {
                assert(e2[b] == e[b]);
                assert(m.contains_key(e[b].0@));
            }
        }
    }

    /// Removes and returns the handle under `id`, if there is one; removing an
    /// absent id changes nothing.
    pub fn remove(&mut self, id: &str) -> (r: Option<KillHandle>)
        requires
            old(self).wf(),
        ensures
            final(self).wf(),
            final(self)@ == old(self)@.remove(id@),
            r is Some <==> old(self)@.contains_key(id@),
            r matches Some(h) ==> h == old(self)@[id@],
    {
        match self.position(id) {
            Some(i) => Some(self.take_at(i)),
            None => {
                assert(old(self)@.remove(id@) =~= old(self)@);
                None
            },
        }
    }

    /// Removes the handle under `id` and fires it; the result says whether a
    /// handle was found.
    pub fn kill(&mut self, id: &str) -> (r: bool)
        requires
            old(self).wf(),
        ensures
            final(self).wf(),
            final(self)@ == old(self)@.remove(id@),
            r == old(self)@.contains_key(id@),
    {
        match self.remove(id) {
            Some(handle) => {
                let _delivered = handle.fire();
                true
            },
            None => false,
        }
    }

    /// Whether a handle is installed under `id`.
    pub fn contains(&self, id: &str) -> (r: bool)
        requires
            self.wf(),
        ensures
            r == self@.contains_key(id@),
    {
        self.position(id).is_some()
    }

    /// Whether no handle is installed.
    pub fn is_empty(&self) -> (r: bool)
        requires
            self.wf(),
        ensures
            r <==> self@ == Map::<Seq<char>, KillHandle>::empty(),
    {
        if self.entries.len() == 0 {
            assert(self@ =~= Map::<Seq<char>, KillHandle>::empty());
            true
        } else {
            assert(self@.contains_key(self.entries@[0].0@));
            false
        }
    }
}

/// Answers a kill request: fires the handle of `execution_id` if one is
/// installed, and says whether one was found. No executor is involved.
pub fn process_kill_request(registry: &mut KillRegistry, execution_id: &str) -> (r: bool)
    requires
        old(registry).wf(),
    ensures
        final(registry).wf(),
        final(registry)@ == old(registry)@.remove(execution_id@),
        !final(registry)@.contains_key(execution_id@),
        r == old(registry)@.contains_key(execution_id@),
{
    registry.kill(execution_id)
}

/// Installing a handle and then removing it leaves a registry as it was before
/// the id was there; in particular an empty registry stays empty.
pub proof fn insert_then_remove(m: Map<Seq<char>, KillHandle>, id: Seq<char>, h: KillHandle)
    ensures
        m.insert(id, h).remove(id) == m.remove(id),
        m == Map::<Seq<char>, KillHandle>::empty() ==> m.insert(id, h).remove(id) == m,
{
    assert(m.insert(id, h).remove(id) =~= m.remove(id));
    if m == Map::<Seq<char>, KillHandle>::empty() {
        assert(m.remove(id) =~= m);
    }
}

/// Removing an id twice does what removing it once does.
pub proof fn remove_twice(m: Map<Seq<char>, KillHandle>, id: Seq<char>)
    ensures
        m.remove(id).remove(id) == m.remove(id),
        !m.remove(id).contains_key(id),
{
    assert(m.remove(id).remove(id) =~= m.remove(id));
}

} // verus!
