use vstd::prelude::*;

verus! {

/// An exclusive permit to use one executor: its slot, and the generation of
/// the executor in that slot when it was lent.
#[derive(Clone, Copy, Debug, PartialEq, Eq, Structural)]
pub struct Lease {
    pub slot: usize,
    pub generation: u64,
}

/// Why the pool refused.
#[derive(Clone, Copy, Debug, PartialEq, Eq, Structural)]
pub enum PoolError {
    /// Every executor is lent out.
    Exhausted,
    /// The lease does not name an executor that is lent out under it.
    StaleLease,
}

/// One slot as the contracts see it: the generation of its executor, and
/// whether that executor is lent out.
pub ghost struct SlotView {
    pub generation: u64,
    pub leased: bool,
}

/// The generation of the executor that replaces a discarded one.
pub open spec fn next_generation(g: u64) -> u64 {
    if g == u64::MAX {
        0
    } else {
        (g + 1) as u64
    }
}

/// How many executors are lent out.
pub open spec fn leased_count(s: Seq<SlotView>) -> nat
    decreases s.len(),
{
    if s.len() == 0 {
        0
    } else {
        leased_count(s.drop_last()) + if s.last().leased {
            1nat
        } else {
            0nat
        }
    }
}

/// Whether `l` is the lease under which its slot's executor is lent out.
pub open spec fn lease_is_live(s: Seq<SlotView>, l: Lease) -> bool {
    l.slot < s.len() && s[l.slot as int].leased && s[l.slot as int].generation == l.generation
}

/// The first free slot, if any.
pub open spec fn first_free(s: Seq<SlotView>) -> Option<int> {
    if exists|i: int| 0 <= i < s.len() && !s[i].leased {
        Some(choose|i: int| 0 <= i < s.len() && !s[i].leased && forall|j: int| 0 <= j < i ==> s[j].leased)
    } else {
        None
    }
}

/// A fixed number of executor slots, each lent to at most one execution at
/// a time.
pub struct ExecutorPool {
    generations: Vec<u64>,
    leased: Vec<bool>,
}

impl View for ExecutorPool {
    type V = Seq<SlotView>;

    closed spec fn view(&self) -> Seq<SlotView> {
        Seq::new(
            self.generations@.len(),
            |i: int| SlotView { generation: self.generations@[i], leased: self.leased@[i] },
        )
    }
}

impl ExecutorPool {
    pub closed spec fn wf(&self) -> bool {
        self.generations@.len() == self.leased@.len()
    }

    /// A pool of `capacity` executors, none of them lent out.
    pub fn new(capacity: usize) -> (r: ExecutorPool)
        ensures
            r.wf(),
            r@.len() == capacity,
            forall|i: int| 0 <= i < capacity ==> !(#[trigger] r@[i]).leased && r@[i].generation == 0,
    {
        let mut generations: Vec<u64> = Vec::new();
        let mut leased: Vec<bool> = Vec::new();
        let mut i: usize = 0;
        while i < capacity
            invariant
                i <= capacity,
                generations@.len() == i,
                leased@.len() == i,
                forall|j: int| 0 <= j < i ==> generations@[j] == 0 && !leased@[j],
            decreases capacity - i,
        {
            generations.push(0);
            leased.push(false);
            i = i + 1;
        }
        ExecutorPool { generations, leased }
    }

    /// How many executors the pool holds.
    pub fn capacity(&self) -> (r: usize)
        requires
            self.wf(),
        ensures
            r == self@.len(),
    {
        self.generations.len()
    }

    /// Lends the first free executor.
    pub fn acquire(&mut self) -> (r: Result<Lease, PoolError>)
        requires
            old(self).wf(),
        ensures
            final(self).wf(),
            r is Ok <==> first_free(old(self)@) is Some,
            r is Err ==> r == Err::<Lease, PoolError>(PoolError::Exhausted) && final(self)@ == old(
                self,
            )@,
            r matches Ok(l) ==> {
                &&& l.slot == first_free(old(self)@)->0
                &&& l.generation == old(self)@[l.slot as int].generation
                &&& final(self)@ == old(self)@.update(
                    l.slot as int,
                    SlotView { generation: l.generation, leased: true },
                )
                &&& lease_is_live(final(self)@, l)
            },
    {
        let mut i: usize = 0;
        while i < self.leased.len()
            invariant
                self.wf(),
                self@ == old(self)@,
                self.leased@ == old(self).leased@,
                i <= self.leased@.len(),
                forall|j: int| 0 <= j < i ==> #[trigger] self.leased@[j],
            decreases self.leased@.len() - i,
        {
            if !self.leased[i] {
                let ghost s = self@;
                assert(!s[i as int].leased);
                assert(forall|j: int| 0 <= j < i ==> s[j].leased);
                assert(0 <= i < s.len() && !s[i as int].leased && forall|j: int| 0 <= j < i ==> s[j].leased);
                let ghost c = choose|c: int| 0 <= c < s.len() && !s[c].leased && forall|j: int| 0 <= j < c ==> s[j].leased;
                assert(c == i) by {
                    if c < i {
                        assert(s[c].leased);
                    } else if c > i {
                        assert(s[i as int].leased);
                    }
                }
                self.leased.set(i, true);
                let l = Lease { slot: i, generation: self.generations[i] };
                assert(self@ =~= s.update(i as int, SlotView { generation: l.generation, leased: true }));
                return Ok(l);
            }
            i = i + 1;
        }
        assert(first_free(self@) is None) by {
            if exists|k: int| 0 <= k < self@.len() && !self@[k].leased {
                let k = choose|k: int| 0 <= k < self@.len() && !self@[k].leased;
                assert(self.leased@[k]);
                assert(self@[k].leased);
            }
        }
        Err(PoolError::Exhausted)
    }

    /// Takes back an executor that ended its session normally.
    pub fn release(&mut self, l: Lease) -> (r: Result<(), PoolError>)
        requires
            old(self).wf(),
        ensures
            final(self).wf(),
            r is Ok <==> lease_is_live(old(self)@, l),
            r is Ok ==> final(self)@ == old(self)@.update(
                l.slot as int,
                SlotView { generation: l.generation, leased: false },
            ),
            r is Err ==> r == Err::<(), PoolError>(PoolError::StaleLease) && final(self)@ == old(
                self,
            )@,
    {
        if l.slot >= self.leased.len() || !self.leased[l.slot] || self.generations[l.slot]
            != l.generation {
            return Err(PoolError::StaleLease);
        }
        let ghost s = self@;
        self.leased.set(l.slot, false);
        assert(self@ =~= s.update(l.slot as int, SlotView { generation: l.generation, leased: false }));
        Ok(())
    }

    /// Throws away an executor whose session ended abnormally; a fresh one,
    /// of the next generation, takes its slot.
    pub fn discard(&mut self, l: Lease) -> (r: Result<(), PoolError>)
        requires
            old(self).wf(),
        ensures
            final(self).wf(),
            r is Ok <==> lease_is_live(old(self)@, l),
            r is Ok ==> final(self)@ == old(self)@.update(
                l.slot as int,
                SlotView { generation: next_generation(l.generation), leased: false },
            ),
            r is Err ==> r == Err::<(), PoolError>(PoolError::StaleLease) && final(self)@ == old(
                self,
            )@,
    {
        if l.slot >= self.leased.len() || !self.leased[l.slot] || self.generations[l.slot]
            != l.generation {
            return Err(PoolError::StaleLease);
        }
        let ghost s = self@;
        let next = if l.generation == u64::MAX {
            0
        } else {
            l.generation + 1
        };
        self.generations.set(l.slot, next);
        self.leased.set(l.slot, false);
        assert(self@ =~= s.update(
            l.slot as int,
            SlotView { generation: next_generation(l.generation), leased: false },
        ));
        Ok(())
    }

    /// How many executors are lent out.
    pub fn outstanding(&self) -> (r: usize)
        requires
            self.wf(),
        ensures
            r == leased_count(self@),
    {
        let mut count: usize = 0;
        let mut i: usize = 0;
        while i < self.leased.len()
            invariant
                self.wf(),
                i <= self.leased@.len(),
                count == leased_count(self@.take(i as int)),
                count <= i,
            decreases self.leased@.len() - i,
        {
            assert(self@.take(i + 1).drop_last() =~= self@.take(i as int));
            if self.leased[i] {
                count = count + 1;
            }
            i = i + 1;
        }
        assert(self@.take(self.leased@.len() as int) =~= self@);
        count
    }
}

/// Never are more executors lent out than the pool holds.
pub proof fn outstanding_within_capacity(s: Seq<SlotView>)
    ensures
        leased_count(s) <= s.len(),
    decreases s.len(),
{
    if s.len() > 0 {
        outstanding_within_capacity(s.drop_last());
    }
}

/// A lease that was returned or discarded can no longer be returned or
/// discarded: each lease is resolved exactly once.
pub proof fn resolved_lease_is_stale(s: Seq<SlotView>, l: Lease)
    requires
        lease_is_live(s, l),
    ensures
        !lease_is_live(
            s.update(l.slot as int, SlotView { generation: l.generation, leased: false }),
            l,
        ),
        !lease_is_live(
            s.update(
                l.slot as int,
                SlotView { generation: next_generation(l.generation), leased: false },
            ),
            l,
        ),
{
}

} // verus!
