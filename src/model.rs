use vstd::prelude::*;

use crate::acceptor::Phase;

verus! {

/// The whole server as one sequential state: concurrent admissions and
/// releases on the shared count take effect one at a time, so every run is
/// some sequence of these steps.
pub struct Snapshot {
    pub phase: Phase,
    pub active: nat,
    pub max: nat,
}

/// One step of the server: an event of the accept loop, or a handler that
/// ends and gives its slot back.
pub enum Step {
    Arrive,
    AcceptFailed,
    Shutdown,
    Release,
}

/// What a step did.
pub enum Outcome {
    Admitted,
    Rejected,
    Resumed,
    Reported(nat),
    Ignored,
    Released,
}

pub open spec fn next(s: Snapshot, e: Step) -> (Snapshot, Outcome) {
    match e {
        Step::Release => {
            if s.active > 0 {
                (Snapshot { active: (s.active - 1) as nat, ..s }, Outcome::Released)
            } else {
                (s, Outcome::Released)
            }
        },
        _ => if s.phase != Phase::Listening {
            (s, Outcome::Ignored)
        } else {
            match e {
                Step::Arrive => if s.active < s.max {
                    (Snapshot { active: s.active + 1, ..s }, Outcome::Admitted)
                } else {
                    (s, Outcome::Rejected)
                },
                Step::AcceptFailed => (s, Outcome::Resumed),
                _ => (Snapshot { phase: Phase::Stopped, ..s }, Outcome::Reported(s.active)),
            }
        },
    }
}

/// The state after running `steps` from `s`.
pub open spec fn run(s: Snapshot, steps: Seq<Step>) -> Snapshot
    decreases steps.len(),
{
    if steps.len() == 0 {
        s
    } else {
        run(next(s, steps[0]).0, steps.drop_first())
    }
}

/// How many of `steps`, run from `s`, admitted a connection.
pub open spec fn admissions(s: Snapshot, steps: Seq<Step>) -> nat
    decreases steps.len(),
{
    if steps.len() == 0 {
        0
    } else {
        let (t, o) = next(s, steps[0]);
        (if o is Admitted {
            1nat
        } else {
            0nat
        }) + admissions(t, steps.drop_first())
    }
}

/// How many of `steps` are releases.
pub open spec fn releases(steps: Seq<Step>) -> nat
    decreases steps.len(),
{
    if steps.len() == 0 {
        0
    } else {
        (if steps[0] is Release {
            1nat
        } else {
            0nat
        }) + releases(steps.drop_first())
    }
}

/// Every release in `steps`, run from `s`, gives back a slot that is live:
/// it never comes while the count is zero.
pub open spec fn releases_backed(s: Snapshot, steps: Seq<Step>) -> bool
    decreases steps.len(),
{
    if steps.len() == 0 {
        true
    } else {
        (steps[0] is Release ==> s.active > 0) && releases_backed(
            next(s, steps[0]).0,
            steps.drop_first(),
        )
    }
}

/// `m` connections, each admitted and then released before the next.
pub open spec fn cycles(m: nat) -> Seq<Step>
    decreases m,
{
    if m == 0 {
        Seq::empty()
    } else {
        seq![Step::Arrive, Step::Release] + cycles((m - 1) as nat)
    }
}

proof fn lemma_run_bounded(s: Snapshot, steps: Seq<Step>)
    requires
        s.active <= s.max,
    ensures
        run(s, steps).active <= s.max,
        run(s, steps).max == s.max,
    decreases steps.len(),
{
    if steps.len() > 0 {
        lemma_run_bounded(next(s, steps[0]).0, steps.drop_first());
    }
}

/// Whatever admissions and releases happen, in whatever order, the live count
/// never exceeds the limit at any point (and, being a natural number, never
/// goes below zero).
pub proof fn lemma_active_within_limit(s: Snapshot, steps: Seq<Step>)
    requires
        s.active <= s.max,
    ensures
        forall|i: int| 0 <= i <= steps.len() ==> #[trigger] run(s, steps.take(i)).active <= s.max,
{
    assert forall|i: int| 0 <= i <= steps.len() implies #[trigger] run(s, steps.take(i)).active
        <= s.max by {
        lemma_run_bounded(s, steps.take(i));
    }
}

proof fn lemma_run_append(s: Snapshot, a: Seq<Step>, b: Seq<Step>)
    ensures
        run(s, a + b) == run(run(s, a), b),
    decreases a.len(),
{
    if a.len() > 0 {
        assert((a + b).drop_first() == a.drop_first() + b);
        lemma_run_append(next(s, a[0]).0, a.drop_first(), b);
    } else {
        assert(a + b == b);
    }
}

/// After any number of connections that each come and go before the next,
/// with none live at the start, none is live at the end.
pub proof fn lemma_cycles_leave_none_active(s: Snapshot, m: nat)
    requires
        s.active == 0,
    ensures
        run(s, cycles(m)).active == 0,
    decreases m,
{
    if m > 0 {
        let pair = seq![Step::Arrive, Step::Release];
        lemma_run_append(s, pair, cycles((m - 1) as nat));
        let t = next(s, Step::Arrive).0;
        assert(pair.drop_first() =~= seq![Step::Release]);
        assert(seq![Step::Release].drop_first() =~= Seq::<Step>::empty());
        assert(pair[0] == Step::Arrive);
        assert(run(s, pair) == run(t, seq![Step::Release]));
        assert(seq![Step::Release][0] == Step::Release);
        assert(run(t, seq![Step::Release]) == run(next(t, Step::Release).0, Seq::<Step>::empty()));
        assert(run(s, pair) == next(t, Step::Release).0);
        lemma_cycles_leave_none_active(run(s, pair), (m - 1) as nat);
    }
}

proof fn lemma_stopped_admits_nothing(s: Snapshot, steps: Seq<Step>)
    requires
        s.phase == Phase::Stopped,
    ensures
        admissions(s, steps) == 0,
        run(s, steps).active <= s.active,
        run(s, steps).phase == Phase::Stopped,
    decreases steps.len(),
{
    if steps.len() > 0 {
        lemma_stopped_admits_nothing(next(s, steps[0]).0, steps.drop_first());
    }
}

/// A shutdown while listening with `k` connections live reports `k` and stops
/// the loop; after it, whatever follows, no connection is admitted and the
/// live count only goes down.
pub proof fn lemma_shutdown_reports_in_flight(s: Snapshot, later: Seq<Step>)
    requires
        s.phase == Phase::Listening,
    ensures
        next(s, Step::Shutdown).1 == Outcome::Reported(s.active),
        next(s, Step::Shutdown).0.phase == Phase::Stopped,
        next(s, Step::Shutdown).0.active == s.active,
        admissions(next(s, Step::Shutdown).0, later) == 0,
        run(next(s, Step::Shutdown).0, later).active <= s.active,
{
    lemma_stopped_admits_nothing(next(s, Step::Shutdown).0, later);
}

/// Each admission is matched by one release: when every release gives back a
/// live slot, the count at the end is the count at the start plus the
/// admissions minus the releases. So once each admitted connection has been
/// released exactly once, the count is back where it began.
pub proof fn lemma_release_accounting(s: Snapshot, steps: Seq<Step>)
    requires
        releases_backed(s, steps),
    ensures
        run(s, steps).active + releases(steps) == s.active + admissions(s, steps),
        admissions(s, steps) == releases(steps) ==> run(s, steps).active == s.active,
    decreases steps.len(),
{
    if steps.len() > 0 {
        lemma_release_accounting(next(s, steps[0]).0, steps.drop_first());
    }
}

} // verus!
