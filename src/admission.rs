use vstd::prelude::*;

use std::sync::atomic::AtomicUsize;
use std::sync::atomic::Ordering;
use std::sync::Arc;

verus! {

/// The count that admitting one more connection leads to, from `active`
/// connections under a limit of `max`; `None` when the limit is reached.
pub open spec fn admit_successor(active: usize, max: usize) -> Option<usize> {
    if active < max {
        Some((active + 1) as usize)
    } else {
        None
    }
}

/// The count that releasing one connection leads to, from `active`
/// connections; `None` when there is nothing to release.
pub open spec fn release_successor(active: usize) -> Option<usize> {
    if active > 0 {
        Some((active - 1) as usize)
    } else {
        None
    }
}

/// One admission step on a count that was observed to be `active`.
pub fn admit_step(active: usize, max: usize) -> (r: Option<usize>)
    ensures
        r == admit_successor(active, max),
{
    if active < max {
        Some(active + 1)
    } else {
        None
    }
}

/// One release step on a count that was observed to be `active`.
pub fn release_step(active: usize) -> (r: Option<usize>)
    ensures
        r == release_successor(active),
{
    if active > 0 {
        Some(active - 1)
    } else {
        None
    }
}

/// The count after an admission attempt, from what the conditional update
/// on the shared count reported: `Ok(prev)` when it stored `prev + 1`,
/// `Err(prev)` when it found `prev` and stored nothing.
pub fn count_after_admit(seen: Result<usize, usize>) -> (r: usize)
    requires
        seen matches Ok(p) ==> p < usize::MAX,
    ensures
        seen matches Ok(p) ==> r == p + 1,
        seen matches Err(p) ==> r == p,
{
    match seen {
        Ok(prev) => prev + 1,
        Err(prev) => prev,
    }
}

/// The count after a release, from what the conditional update on the shared
/// count reported: `Ok(prev)` when it stored `prev - 1`, `Err(_)` when it
/// found the count at zero and left it there.
pub fn count_after_release(seen: Result<usize, usize>) -> (r: usize)
    requires
        seen matches Ok(p) ==> p > 0,
    ensures
        seen matches Ok(p) ==> r == p - 1,
        seen is Err ==> r == 0,
{
    match seen {
        Ok(prev) => prev - 1,
        Err(_) => 0,
    }
}

/// Relies on `AtomicUsize::fetch_update`: it reads the value, asks `f` for a
/// successor and stores it only if the value has not changed meanwhile,
/// trying again otherwise. It returns `Ok(previous)` when `f` gave `Some(_)`
/// on `previous` (and that successor was stored), `Err(previous)` when `f`
/// gave `None` (and nothing was stored).
#[verifier::external_body]
fn fetch_update<F: Fn(usize) -> Option<usize>>(counter: &AtomicUsize, f: F) -> (r: Result<
    usize,
    usize,
>)
    requires
        forall|c: usize| call_requires(f, (c,)),
    ensures
        r matches Ok(p) ==> exists|n: usize| call_ensures(f, (p,), Some(n)),
        r matches Err(p) ==> call_ensures(f, (p,), None),
{
    counter.fetch_update(Ordering::Relaxed, Ordering::Relaxed, f)
}

/// Bounds how many connections are live at once. The count is shared by
/// every handle taken from it and changes only by one conditional atomic
/// step at a time, so concurrent admissions and releases behave as if they
/// ran one after the other in some order.
pub struct AdmissionController {
    counter: Arc<AtomicUsize>,
    max: usize,
}

/// Proof that one connection was admitted. It is not `Clone`: releasing
/// consumes it, so each admission is given back at most once.
pub struct Permit {
    counter: Arc<AtomicUsize>,
    max: usize,
    active: usize,
}

impl AdmissionController {
    /// The largest number of connections admitted at once.
    pub closed spec fn limit(&self) -> usize {
        self.max
    }

    /// A controller with no live connection and the given limit.
    pub fn new(max_connections: usize) -> (r: Self)
        ensures
            r.limit() == max_connections,
    {
        AdmissionController { counter: Arc::new(AtomicUsize::new(0)), max: max_connections }
    }

    /// The largest number of connections admitted at once.
    pub fn max_connections(&self) -> (r: usize)
        ensures
            r == self.limit(),
    {
        self.max
    }

    /// Admits one more connection if fewer than the limit are live. When it
    /// does, the count went from some `n` below the limit to `n + 1`, and that
    /// new count is returned beside the permit; when it does not, the count
    /// it saw, at or above the limit, is returned and left as it was.
    pub fn try_admit(&self) -> (r: (Option<Permit>, usize))
        ensures
            match r.0 {
                Some(p) => {
                    &&& 1 <= r.1 <= self.limit()
                    &&& p.active() == r.1
                    &&& p.limit() == self.limit()
                },
                None => r.1 >= self.limit(),
            },
    {
        let max = self.max;
        let step = |c: usize| -> (n: Option<usize>)
            ensures
                n == admit_successor(c, max),
            { admit_step(c, max) };
        let seen = fetch_update(&self.counter, step);
        let active = count_after_admit(seen);
        match seen {
            Ok(_) => (Some(Permit { counter: Arc::clone(&self.counter), max, active }), active),
            Err(_) => (None, active),
        }
    }

    /// The number of live connections as read at this moment. Other tasks
    /// may change it at any time, so nothing is promised of the value.
    pub fn active(&self) -> usize {
        self.counter.load(Ordering::Relaxed)
    }
}

impl Permit {
    /// The count right after this admission.
    pub closed spec fn active(&self) -> usize {
        self.active
    }

    /// The limit of the controller that issued this permit.
    pub closed spec fn limit(&self) -> usize {
        self.max
    }

    /// The count right after this admission.
    pub fn admitted_count(&self) -> (r: usize)
        ensures
            r == self.active(),
    {
        self.active
    }

    /// Gives the slot back. The count goes from some `n` to `n - 1` and that
    /// new count is returned (see `count_after_release`); a count already at
    /// zero stays at zero, which live permits never let happen.
    pub fn release(self) -> (r: usize)
        ensures
            r < usize::MAX,
    {
        let step = |c: usize| -> (n: Option<usize>)
            ensures
                n == release_successor(c),
            { release_step(c) };
        count_after_release(fetch_update(&self.counter, step))
    }
}

} // verus!

verus! {

/// Holds a permit for the life of one connection handler. The slot is given
/// back at most once, however often `release` is called; the owner calls it
/// on every way out of the handler (normal return, error, or unwinding).
pub struct SlotGuard {
    permit: Option<Permit>,
}

impl SlotGuard {
    pub closed spec fn holds(&self) -> bool {
        self.permit is Some
    }

    /// Takes charge of `permit`.
    pub fn new(permit: Permit) -> (r: Self)
        ensures
            r.holds(),
    {
        SlotGuard { permit: Some(permit) }
    }

    /// Gives the slot back now and returns the new count; a guard that has
    /// released already does nothing and returns `None`.
    pub fn release(&mut self) -> (r: Option<usize>)
        ensures
            !final(self).holds(),
            r is Some <==> old(self).holds(),
            r matches Some(n) ==> n < usize::MAX,
    {
        match self.permit.take() {
            Some(p) => Some(p.release()),
            None => None,
        }
    }
}

} // verus!
