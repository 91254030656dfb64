use vstd::prelude::*;

use std::collections::HashMap;

use crate::error::DojoError;

verus! {

broadcast use vstd::std_specs::hash::group_hash_axioms;

#[verifier::external_type_specification]
#[verifier::external_body]
#[verifier::reject_recursive_types(T)]
pub struct ExJoinHandle<T>(tokio::task::JoinHandle<T>);

#[verifier::external_type_specification]
#[verifier::external_body]
pub struct ExJoinError(tokio::task::JoinError);

/// `JoinHandle::abort` (tokio): asks the runtime to cancel the task behind the
/// handle. Its source forwards to the task's remote abort, returns at once and
/// does not panic. What it does to the task is an effect on the runtime, not a
/// value, so nothing is stated of it.
#[verifier::external_body]
fn abort_task(handle: &tokio::task::JoinHandle<()>) {
    handle.abort()
}

/// The state of the subscriptions of one client: the id the next
/// subscription will receive, and the running update tasks by id.
pub struct SubscriptionRegistry {
    next_id: u64,
    handles: HashMap<u64, tokio::task::JoinHandle<()>>,
    aborted: Ghost<Set<tokio::task::JoinHandle<()>>>,
}

/// The model of a registry.
pub struct RegistryView {
    /// The id that the next allocation hands out.
    pub next_id: u64,
    /// The active subscriptions: each id with the task forwarding its updates.
    pub active: Map<u64, tokio::task::JoinHandle<()>>,
    /// The tasks that cancellations have aborted.
    pub aborted: Set<tokio::task::JoinHandle<()>>,
}

/// The id that follows `id`: ids are handed out in increasing order and wrap
/// around after `u64::MAX`, as an atomic `fetch_add` does.
pub open spec fn id_after(id: u64) -> u64 {
    if id == u64::MAX {
        0
    } else {
        (id + 1) as u64
    }
}

impl RegistryView {
    /// Allocating an id: the registry's next id is handed out and advanced;
    /// the active subscriptions are untouched.
    pub open spec fn allocate(self) -> (RegistryView, u64) {
        (RegistryView { next_id: id_after(self.next_id), active: self.active, aborted: self.aborted }, self.next_id)
    }

    /// Registering the task `handle` under `id`.
    pub open spec fn register(self, id: u64, handle: tokio::task::JoinHandle<()>) -> RegistryView {
        RegistryView { next_id: self.next_id, active: self.active.insert(id, handle), aborted: self.aborted }
    }

    /// Cancelling `id`: the task of an active subscription is aborted, the
    /// subscription is removed and the call succeeds; an unknown id is a
    /// subscription error and changes nothing.
    pub open spec fn cancel(self, id: u64) -> (RegistryView, Result<(), DojoError>) {
        if self.active.contains_key(id) {
            (
                RegistryView {
                    next_id: self.next_id,
                    active: self.active.remove(id),
                    aborted: self.aborted.insert(self.active[id]),
                },
                Ok(()),
            )
        } else {
            (self, Err(DojoError::SubscriptionError))
        }
    }

    /// The state after `k` allocations.
    pub open spec fn allocate_times(self, k: nat) -> RegistryView
        decreases k,
    {
        if k == 0 {
            self
        } else {
            self.allocate_times((k - 1) as nat).allocate().0
        }
    }
}


/// Cancelling a subscription right after registering it succeeds and leaves
/// the registry without that id; when the id was fresh, the registry is back
/// to where it was before the registration.
pub proof fn law_cancel_undoes_register(m: RegistryView, id: u64, handle: tokio::task::JoinHandle<()>)
    ensures
        m.register(id, handle).cancel(id).1 == Ok::<(), DojoError>(()),
        m.register(id, handle).cancel(id).0 == (RegistryView {
            next_id: m.next_id,
            active: m.active.remove(id),
            aborted: m.aborted.insert(handle),
        }),
        !m.active.contains_key(id) ==> m.register(id, handle).cancel(id).0.active == m.active,
{
    assert(m.active.insert(id, handle).remove(id) =~= m.active.remove(id));
    if !m.active.contains_key(id) {
        assert(m.active.remove(id) =~= m.active);
    }
}

/// Cancelling an active subscription succeeds and aborts exactly the task
/// registered under its id, whatever other subscriptions remain; no other
/// task is aborted and no other subscription is removed.
pub proof fn law_cancel_aborts_its_task(m: RegistryView, id: u64)
    requires
        m.active.contains_key(id),
    ensures
        m.cancel(id).1 is Ok,
        m.cancel(id).0.aborted.contains(m.active[id]),
        forall|h: tokio::task::JoinHandle<()>| #[trigger] m.cancel(id).0.aborted.contains(h)
            ==> (h == m.active[id] || m.aborted.contains(h)),
        !m.cancel(id).0.active.contains_key(id),
        forall|other: u64| other != id ==> (#[trigger] m.cancel(id).0.active.contains_key(other)
            == m.active.contains_key(other)),
{
}

/// Cancelling an id that is not active fails with a subscription error and
/// aborts nothing.
pub proof fn law_cancel_unknown_fails(m: RegistryView, id: u64)
    requires
        !m.active.contains_key(id),
    ensures
        m.cancel(id).1 == Err::<(), DojoError>(DojoError::SubscriptionError),
        m.cancel(id).0.aborted == m.aborted,
        m.cancel(id).0.active == m.active,
{
}

/// A subscription can be cancelled once: cancelling the same id again is a
/// subscription error and changes nothing.
pub proof fn law_cancel_twice_fails(m: RegistryView, id: u64)
    ensures
        m.cancel(id).0.cancel(id) == (m.cancel(id).0, Err::<(), DojoError>(DojoError::SubscriptionError)),
{
}

/// Cancelling one subscription leaves every other subscription as it was.
pub proof fn law_cancel_keeps_others(m: RegistryView, id: u64, other: u64)
    requires
        other != id,
    ensures
        m.cancel(id).0.active.contains_key(other) == m.active.contains_key(other),
        m.active.contains_key(other) ==> m.cancel(id).0.active[other] == m.active[other],
        m.cancel(id).0.next_id == m.next_id,
{
}

/// After `k` allocations the next id is the starting one plus `k`, modulo
/// 2^64, and the active subscriptions are untouched.
pub proof fn law_allocation_counts_up(m: RegistryView, k: nat)
    ensures
        m.allocate_times(k).next_id == (m.next_id + k) % 0x1_0000_0000_0000_0000,
        m.allocate_times(k).active == m.active,
    decreases k,
{
    if k > 0 {
        law_allocation_counts_up(m, (k - 1) as nat);
    }
}

/// Allocations hand out distinct ids: the ids of the `j`-th and the `k`-th
/// allocation from the same state differ as long as fewer than 2^64
/// allocations separate them.
pub proof fn law_allocated_ids_distinct(m: RegistryView, j: nat, k: nat)
    requires
        j < k,
        k - j < 0x1_0000_0000_0000_0000,
    ensures
        m.allocate_times(j).allocate().1 != m.allocate_times(k).allocate().1,
{
    law_allocation_counts_up(m, j);
    law_allocation_counts_up(m, k);
    let a = m.next_id + j;
    let b = m.next_id + k;
    assert(a % 0x1_0000_0000_0000_0000 != b % 0x1_0000_0000_0000_0000) by (nonlinear_arith)
        requires
            a < b,
            b - a < 0x1_0000_0000_0000_0000,
            a >= 0,
    ;
}

impl View for SubscriptionRegistry {
    type V = RegistryView;

    closed spec fn view(&self) -> RegistryView {
        RegistryView { next_id: self.next_id, active: self.handles@, aborted: self.aborted@ }
    }
}

impl SubscriptionRegistry {
    /// An empty registry whose first subscription gets id 0.
    pub fn new() -> (r: SubscriptionRegistry)
        ensures
            r@.next_id == 0,
            r@.active == Map::<u64, tokio::task::JoinHandle<()>>::empty(),
            r@.aborted == Set::<tokio::task::JoinHandle<()>>::empty(),
    {
        SubscriptionRegistry { next_id: 0, handles: HashMap::new(), aborted: Ghost(Set::empty()) }
    }

    /// Hands out the id of a new subscription.
    pub fn allocate_id(&mut self) -> (id: u64)
        ensures
            (final(self)@, id) == old(self)@.allocate(),
    {
        let id = self.next_id;
        self.next_id = if self.next_id == u64::MAX {
            0
        } else {
            self.next_id + 1
        };
        id
    }

    /// Records the task that forwards the updates of subscription `id`.
    pub fn register(&mut self, id: u64, handle: tokio::task::JoinHandle<()>)
        ensures
            final(self)@ == old(self)@.register(id, handle),
    {
        self.handles.insert(id, handle);
    }

    /// Cancels subscription `id`: its task is aborted and forgotten. Fails
    /// with a subscription error when no active subscription has that id.
    pub fn cancel(&mut self, id: u64) -> (r: Result<(), DojoError>)
        ensures
            (final(self)@, r) == old(self)@.cancel(id),
            r is Ok <==> old(self)@.active.contains_key(id),
            r is Err ==> r == Err::<(), DojoError>(DojoError::SubscriptionError) && final(self)@ == old(self)@,
            r is Ok ==> final(self)@.aborted == old(self)@.aborted.insert(old(self)@.active[id]),
            r is Ok ==> final(self)@.active == old(self)@.active.remove(id),
            final(self)@.next_id == old(self)@.next_id,
    {
        let removed = self.handles.remove(&id);
        match removed {
            Some(handle) => {
                self.stop(&handle);
                Ok(())
            },
            None => {
                assert(self.handles@ =~= old(self).handles@);
                Err(DojoError::SubscriptionError)
            },
        }
    }

    /// Aborts the task `handle` and records it as aborted.
    fn stop(&mut self, handle: &tokio::task::JoinHandle<()>)
        ensures
            final(self)@ == (RegistryView {
                next_id: old(self)@.next_id,
                active: old(self)@.active,
                aborted: old(self)@.aborted.insert(*handle),
            }),
    {
        abort_task(handle);
        proof {
            self.aborted@ = self.aborted@.insert(*handle);
        }
    }

    /// Whether `id` names an active subscription.
    pub fn is_active(&self, id: u64) -> (b: bool)
        ensures
            b == self@.active.contains_key(id),
    {
        self.handles.contains_key(&id)
    }

    /// The id the next subscription will receive.
    pub fn next_id(&self) -> (id: u64)
        ensures
            id == self@.next_id,
    {
        self.next_id
    }
}

} // verus!
