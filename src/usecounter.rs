//! The activation counter that idles background work: a set of permits, each
//! activated or not, whose activated count wakes waiters when it leaves or
//! reaches zero.
use vstd::prelude::*;

verus! {

#[derive(Clone, Copy, Debug, PartialEq, Eq, Structural)]
pub enum PermitState {
    Activated,
    Deactivated,
    Dropped,
}

/// What a change to the permits tells the waiters.
#[derive(Clone, Copy, Debug, PartialEq, Eq, Structural)]
pub enum Edge {
    /// The count stayed zero or stayed above zero.
    Unchanged,
    /// The count went from zero to above zero: wake the waiters for users.
    Acquired,
    /// The count went from above zero to zero: wake the waiters for no users.
    Released,
}

/// The edge between two activated counts.
pub open spec fn edge_of(before: nat, after: nat) -> Edge {
    if before == 0 && after > 0 {
        Edge::Acquired
    } else if before > 0 && after == 0 {
        Edge::Released
    } else {
        Edge::Unchanged
    }
}

/// How many of the permits are activated.
pub open spec fn count_active(s: Seq<PermitState>) -> nat
    decreases s.len(),
{
    if s.len() == 0 {
        0
    } else {
        count_active(s.drop_last()) + if s.last() == PermitState::Activated {
            1nat
        } else {
            0nat
        }
    }
}

proof fn lemma_count_bound(s: Seq<PermitState>)
    ensures
        count_active(s) <= s.len(),
    decreases s.len(),
{
    if s.len() > 0 {
        lemma_count_bound(s.drop_last());
    }
}

proof fn lemma_count_push(s: Seq<PermitState>, v: PermitState)
    ensures
        count_active(s.push(v)) == count_active(s) + if v == PermitState::Activated {
            1nat
        } else {
            0nat
        },
{
    assert(s.push(v).drop_last() =~= s);
}

proof fn lemma_count_update(s: Seq<PermitState>, i: int, v: PermitState)
    requires
        0 <= i < s.len(),
    ensures
        count_active(s.update(i, v)) + (if s[i] == PermitState::Activated {
            1nat
        } else {
            0nat
        }) == count_active(s) + (if v == PermitState::Activated {
            1nat
        } else {
            0nat
        }),
    decreases s.len(),
{
    let t = s.update(i, v);
    if i == s.len() - 1 {
        assert(t.drop_last() =~= s.drop_last());
    } else {
        lemma_count_update(s.drop_last(), i, v);
        assert(t.drop_last() =~= s.drop_last().update(i, v));
    }
}

/// A handle on one permit of a counter.
#[derive(Debug, PartialEq, Eq, Structural)]
pub struct Permit {
    pub id: usize,
}

pub struct UseCounter {
    slots: Vec<PermitState>,
    active: usize,
}

impl UseCounter {
    /// The state of each permit, by handle.
    pub closed spec fn permits(&self) -> Seq<PermitState> {
        self.slots@
    }

    /// How many permits are activated.
    pub open spec fn users(&self) -> nat {
        count_active(self.permits())
    }

    /// The cached count is the number of activated permits.
    pub closed spec fn wf(&self) -> bool {
        self.active == count_active(self.slots@)
    }

    pub open spec fn owns(&self, p: &Permit) -> bool {
        p.id < self.permits().len()
    }

    pub fn new() -> (r: UseCounter)
        ensures
            r.wf(),
            r.permits() == Seq::<PermitState>::empty(),
            r.users() == 0,
    {
        UseCounter { slots: Vec::new(), active: 0 }
    }

    /// How many permits are activated.
    pub fn active_users(&self) -> (r: usize)
        requires
            self.wf(),
        ensures
            r == self.users(),
    {
        self.active
    }

    fn create(&mut self, state: PermitState) -> (r: (Permit, Edge))
        requires
            old(self).wf(),
            state != PermitState::Dropped,
        ensures
            final(self).wf(),
            final(self).permits() == old(self).permits().push(state),
            r.0.id == old(self).permits().len(),
            final(self).users() == old(self).users() + if state == PermitState::Activated {
                1nat
            } else {
                0nat
            },
            r.1 == edge_of(old(self).users(), final(self).users()),
    {
        proof {
            lemma_count_push(self.slots@, state);
        }
        let before = self.active;
        let id = self.slots.len();
        self.slots.push(state);
        // the count is at most the number of permits, itself a usize
        let _permits = self.slots.len();
        proof {
            lemma_count_bound(self.slots@);
        }
        if state == PermitState::Activated {
            self.active = self.active + 1;
        }
        let edge = if before == 0 && self.active > 0 {
            Edge::Acquired
        } else {
            Edge::Unchanged
        };
        (Permit { id }, edge)
    }

    /// A new permit that counts as a user at once.
    pub fn create_activated(&mut self) -> (r: (Permit, Edge))
        requires
            old(self).wf(),
        ensures
            final(self).wf(),
            final(self).permits() == old(self).permits().push(PermitState::Activated),
            final(self).users() == old(self).users() + 1,
            final(self).owns(&r.0),
            r.0.id == old(self).permits().len(),
            r.1 == edge_of(old(self).users(), final(self).users()),
    {
        self.create(PermitState::Activated)
    }

    /// A new permit that does not count until it is activated.
    pub fn create_deactivated(&mut self) -> (r: Permit)
        requires
            old(self).wf(),
        ensures
            final(self).wf(),
            final(self).permits() == old(self).permits().push(PermitState::Deactivated),
            final(self).users() == old(self).users(),
            final(self).owns(&r),
            r.id == old(self).permits().len(),
    {
        proof {
            lemma_count_push(self.slots@, PermitState::Deactivated);
        }
        self.create(PermitState::Deactivated).0
    }

    fn set(&mut self, p: &Permit, state: PermitState) -> (r: Edge)
        requires
            old(self).wf(),
            old(self).owns(p),
        ensures
            final(self).wf(),
            final(self).permits() == if old(self).permits()[p.id as int] == PermitState::Dropped {
                old(self).permits()
            } else {
                old(self).permits().update(p.id as int, state)
            },
            r == edge_of(old(self).users(), final(self).users()),
    {
        let current = self.slots[p.id];
        if current == PermitState::Dropped {
            return Edge::Unchanged;
        }
        proof {
            lemma_count_update(self.slots@, p.id as int, state);
            lemma_count_update(self.slots@, p.id as int, PermitState::Deactivated);
        }
        let before = self.active;
        self.slots.set(p.id, state);
        // the count is at most the number of permits, itself a usize
        let _permits = self.slots.len();
        proof {
            lemma_count_bound(self.slots@);
        }
        if current == PermitState::Activated {
            self.active = self.active - 1;
        }
        if state == PermitState::Activated {
            self.active = self.active + 1;
        }
        if before == 0 && self.active > 0 {
            Edge::Acquired
        } else if before > 0 && self.active == 0 {
            Edge::Released
        } else {
            Edge::Unchanged
        }
    }

    /// Makes the permit count as a user; a dropped permit stays dropped.
    pub fn activate(&mut self, p: &Permit) -> (r: Edge)
        requires
            old(self).wf(),
            old(self).owns(p),
        ensures
            final(self).wf(),
            final(self).permits() == if old(self).permits()[p.id as int] == PermitState::Dropped {
                old(self).permits()
            } else {
                old(self).permits().update(p.id as int, PermitState::Activated)
            },
            r == edge_of(old(self).users(), final(self).users()),
    {
        self.set(p, PermitState::Activated)
    }

    /// Stops the permit counting as a user; a dropped permit stays dropped.
    pub fn deactivate(&mut self, p: &Permit) -> (r: Edge)
        requires
            old(self).wf(),
            old(self).owns(p),
        ensures
            final(self).wf(),
            final(self).permits() == if old(self).permits()[p.id as int] == PermitState::Dropped {
                old(self).permits()
            } else {
                old(self).permits().update(p.id as int, PermitState::Deactivated)
            },
            r == edge_of(old(self).users(), final(self).users()),
    {
        self.set(p, PermitState::Deactivated)
    }

    /// Gives the permit up; it no longer counts.
    pub fn drop_permit(&mut self, p: Permit) -> (r: Edge)
        requires
            old(self).wf(),
            old(self).owns(&p),
        ensures
            final(self).wf(),
            final(self).permits() == old(self).permits().update(p.id as int, PermitState::Dropped),
            r == edge_of(old(self).users(), final(self).users()),
    {
        let r = self.set(&p, PermitState::Dropped);
        proof {
            if old(self).permits()[p.id as int] == PermitState::Dropped {
                assert(old(self).permits().update(p.id as int, PermitState::Dropped) =~= old(
                    self,
                ).permits());
            }
        }
        r
    }
}

/// The edges fire on the transitions of the activated count and nowhere else:
/// the waiters for users wake exactly when it leaves zero, the waiters for no
/// users exactly when it returns to zero.
pub proof fn lemma_permit_edges(before: nat, after: nat)
    ensures
        (edge_of(before, after) == Edge::Acquired) <==> (before == 0 && after > 0),
        (edge_of(before, after) == Edge::Released) <==> (before > 0 && after == 0),
        (edge_of(before, after) == Edge::Unchanged) <==> ((before == 0) == (after == 0)),
{
}

/// Changing one permit moves the activated count by at most one, so a run of
/// changes passes zero only through the edges above, one at a time.
pub proof fn lemma_permit_step(s: Seq<PermitState>, i: int, v: PermitState)
    requires
        0 <= i < s.len(),
    ensures
        count_active(s.update(i, v)) <= count_active(s) + 1,
        count_active(s) <= count_active(s.update(i, v)) + 1,
{
    lemma_count_update(s, i, v);
}

} // verus!
