//! What holds of every negotiation, proved over the controller's transitions.
use vstd::prelude::*;
use crate::controller::{
    backend_of, failure_of, Action, BackendKind, Event, FallbackController, NegotiationError,
    Phase, Stage, PRIMARY_TARGET,
};
use crate::limits::{lemma_required_within, within};

verus! {

/// When any step of the primary attempt fails, its render target is detached,
/// nothing of the attempt is kept, and the secondary attempt starts on a fresh
/// render target that differs from the primary one.
pub proof fn lemma_primary_failure_falls_back<S, A, D, Q>(c: FallbackController<S, A>, e: Event<S, A, D, Q>)
    requires
        c.wf(),
        c.phase == Phase::TryPrimary,
        failure_of(c.stage, e) is Some,
    ensures
        ({
            let (n, a) = c.next(e);
            &&& n.wf()
            &&& n.phase == Phase::TrySecondary
            &&& n.stage == Stage::AwaitSurface
            &&& n.surface is None
            &&& n.adapter is None
            &&& n.target != c.target
            &&& a == Action::<S, A, D, Q>::CreateSurface {
                backend: BackendKind::PortableGlApi,
                target: n.target,
                discard: Some(c.target),
            }
        }),
{
}

/// A finished negotiation ignores whatever comes after: it stays as it is and
/// asks for nothing.
pub proof fn lemma_finished_is_inert<S, A, D, Q>(c: FallbackController<S, A>, events: Seq<Event<S, A, D, Q>>)
    requires
        c.phase == Phase::Finished,
    ensures
        c.run(events).0 == c,
        c.run(events).1.len() == events.len(),
        forall|i: int| 0 <= i < events.len() ==> c.run(events).1[i] is Idle,
    decreases events.len(),
{
    if events.len() > 0 {
        lemma_finished_is_inert(c, events.drop_last());
    }
}

/// Once the secondary attempt runs, no further attempt is ever started: a
/// negotiation makes at most one fallback.
pub proof fn lemma_no_attempt_after_secondary<S, A, D, Q>(c: FallbackController<S, A>, events: Seq<Event<S, A, D, Q>>)
    requires
        c.wf(),
        c.phase == Phase::TrySecondary,
    ensures
        c.run(events).0.wf(),
        c.run(events).0.phase != Phase::TryPrimary,
        c.run(events).1.len() == events.len(),
        forall|i: int| 0 <= i < events.len() ==> !(c.run(events).1[i] is CreateSurface),
    decreases events.len(),
{
    if events.len() > 0 {
        lemma_no_attempt_after_secondary(c, events.drop_last());
    }
}

/// A primary attempt whose device request succeeds yields a context of the
/// primary backend on the primary render target, and nothing is started after
/// it: no secondary render target is ever allocated.
pub proof fn lemma_primary_success_is_final<S, A, D, Q>(
    c: FallbackController<S, A>,
    d: D,
    q: Q,
    later: Seq<Event<S, A, D, Q>>,
)
    requires
        c.wf(),
        c.phase == Phase::TryPrimary,
        c.stage == Stage::AwaitDevice,
    ensures
        ({
            let (n, a) = c.next(Event::DeviceReady(d, q));
            &&& a is Ready
            &&& a->Ready_0.backend == BackendKind::PrimaryGpuApi
            &&& a->Ready_0.target == PRIMARY_TARGET
            &&& n.phase == Phase::Finished
            &&& forall|i: int| 0 <= i < later.len() ==> !(n.run(later).1[i] is CreateSurface)
        }),
{
    let (n, a) = c.next(Event::<S, A, D, Q>::DeviceReady(d, q));
    lemma_finished_is_inert(n, later);
}

/// A context is made of the surface and adapter that the running attempt
/// holds, and of the device and queue that answer it, on that attempt's render
/// target and backend. An attempt starts holding nothing, so no context mixes
/// handles of two attempts.
pub proof fn lemma_context_from_one_attempt<S, A, D, Q>(c: FallbackController<S, A>, e: Event<S, A, D, Q>)
    requires
        c.wf(),
    ensures
        ({
            let (n, a) = c.next(e);
            &&& a is CreateSurface ==> n.surface is None && n.adapter is None
            &&& a is Ready ==> {
                &&& c.phase != Phase::Finished
                &&& c.stage == Stage::AwaitDevice
                &&& e is DeviceReady
                &&& a->Ready_0.surface == c.surface->Some_0
                &&& a->Ready_0.adapter == c.adapter->Some_0
                &&& a->Ready_0.device == e->DeviceReady_0
                &&& a->Ready_0.queue == e->DeviceReady_1
                &&& a->Ready_0.target == c.target
                &&& a->Ready_0.backend == backend_of(c.phase)
            }
        }),
{
}

/// Where the running attempt of `acts` began: just after the last action that
/// started an attempt, or at the start when none did.
pub open spec fn attempt_start<S, A, D, Q>(acts: Seq<Action<S, A, D, Q>>) -> int
    decreases acts.len(),
{
    if acts.len() == 0 {
        0
    } else if acts.last() is CreateSurface {
        acts.len() as int
    } else {
        attempt_start(acts.drop_last())
    }
}

/// `events[j]` delivered the surface `s`.
pub open spec fn delivers_surface<S, A, D, Q>(events: Seq<Event<S, A, D, Q>>, j: int, s: S) -> bool {
    events[j] == Event::<S, A, D, Q>::SurfaceCreated(s)
}

/// `events[j]` delivered the adapter `a`.
pub open spec fn delivers_adapter<S, A, D, Q>(events: Seq<Event<S, A, D, Q>>, j: int, a: A) -> bool {
    events[j] is AdapterFound && events[j]->AdapterFound_0 == a
}

proof fn lemma_attempt_start_bounded<S, A, D, Q>(acts: Seq<Action<S, A, D, Q>>)
    ensures
        0 <= attempt_start(acts) <= acts.len(),
    decreases acts.len(),
{
    if acts.len() > 0 {
        lemma_attempt_start_bounded(acts.drop_last());
    }
}

/// What a controller holds after a run, from a state that held nothing, was
/// delivered by an event of the running attempt.
proof fn lemma_held_from_attempt<S, A, D, Q>(c: FallbackController<S, A>, events: Seq<Event<S, A, D, Q>>)
    requires
        c.wf(),
        c.surface is None,
        c.adapter is None,
    ensures
        ({
            let (m, acts) = c.run(events);
            &&& m.wf()
            &&& acts.len() == events.len()
            &&& m.surface is Some ==> exists|j: int|
                attempt_start(acts) <= j < events.len() && delivers_surface(events, j, m.surface->Some_0)
            &&& m.adapter is Some ==> exists|j: int|
                attempt_start(acts) <= j < events.len() && delivers_adapter(events, j, m.adapter->Some_0)
        }),
    decreases events.len(),
{
    if events.len() > 0 {
        let prefix = events.drop_last();
        lemma_held_from_attempt(c, prefix);
        let (m0, acts0) = c.run(prefix);
        let e = events.last();
        let (m, a) = m0.next(e);
        let acts = acts0.push(a);
        assert(acts.drop_last() =~= acts0);
        lemma_attempt_start_bounded(acts0);
        if !(a is CreateSurface) {
            assert(attempt_start(acts) == attempt_start(acts0));
            if m.surface is Some {
                if m0.surface is Some && m.surface == m0.surface {
                    let j = choose|j: int|
                        attempt_start(acts0) <= j < prefix.len() && delivers_surface(prefix, j, m0.surface->Some_0);
                    assert(delivers_surface(events, j, m.surface->Some_0));
                } else {
                    assert(delivers_surface(events, events.len() - 1, m.surface->Some_0));
                }
            }
            if m.adapter is Some {
                if m0.adapter is Some && m.adapter == m0.adapter {
                    let j = choose|j: int|
                        attempt_start(acts0) <= j < prefix.len() && delivers_adapter(prefix, j, m0.adapter->Some_0);
                    assert(delivers_adapter(events, j, m.adapter->Some_0));
                } else {
                    assert(delivers_adapter(events, events.len() - 1, m.adapter->Some_0));
                }
            }
        }
    }
}

/// Over any run from a state that holds nothing (a new negotiation among
/// them): when the last action hands out a context, its surface and its
/// adapter were delivered by events of the attempt that was running, after the
/// last action that started an attempt, and its device and queue by the last
/// event. No context mixes handles of two attempts.
pub proof fn lemma_context_handles_share_an_attempt<S, A, D, Q>(
    c: FallbackController<S, A>,
    events: Seq<Event<S, A, D, Q>>,
)
    requires
        c.wf(),
        c.surface is None,
        c.adapter is None,
        events.len() > 0,
    ensures
        ({
            let (m, acts) = c.run(events);
            let start = attempt_start(acts.drop_last());
            let n = events.len() - 1;
            acts.last() is Ready ==> {
                let ctx = acts.last()->Ready_0;
                &&& exists|j: int| start <= j < n && delivers_surface(events, j, ctx.surface)
                &&& exists|j: int| start <= j < n && delivers_adapter(events, j, ctx.adapter)
                &&& events[n] == Event::<S, A, D, Q>::DeviceReady(ctx.device, ctx.queue)
            }
        }),
{
    let prefix = events.drop_last();
    lemma_held_from_attempt(c, prefix);
    let (m0, acts0) = c.run(prefix);
    let (m, a) = m0.next(events.last());
    assert(acts0.push(a).drop_last() =~= acts0);
    lemma_context_from_one_attempt(m0, events.last());
    lemma_attempt_start_bounded(acts0);
    if a is Ready {
        let ctx = a->Ready_0;
        let j = choose|j: int|
            attempt_start(acts0) <= j < prefix.len() && delivers_surface(prefix, j, m0.surface->Some_0);
        assert(delivers_surface(events, j, ctx.surface));
        let k = choose|k: int|
            attempt_start(acts0) <= k < prefix.len() && delivers_adapter(prefix, k, m0.adapter->Some_0);
        assert(delivers_adapter(events, k, ctx.adapter));
    }
}

/// The limits of a device request never exceed what the adapter of the
/// attempt reported.
pub proof fn lemma_device_request_within_adapter<S, A, D, Q>(c: FallbackController<S, A>, e: Event<S, A, D, Q>)
    requires
        c.wf(),
    ensures
        ({
            let (n, a) = c.next(e);
            a is RequestDevice ==> e is AdapterFound && within(a->limits, e->AdapterFound_1)
        }),
{
    if let Event::AdapterFound(_, reported) = e {
        lemma_required_within(c.baseline, reported);
    }
}

/// When the secondary attempt fails, the final error is that failure, under the
/// secondary backend; the primary attempt's failure stays recorded beside it.
pub proof fn lemma_secondary_failure_is_reported<S, A, D, Q>(c: FallbackController<S, A>, e: Event<S, A, D, Q>)
    requires
        c.wf(),
        c.phase == Phase::TrySecondary,
        failure_of(c.stage, e) is Some,
    ensures
        ({
            let (n, a) = c.next(e);
            let (kind, detail) = failure_of(c.stage, e)->Some_0;
            &&& n.phase == Phase::Finished
            &&& n.primary_failure == c.primary_failure
            &&& a == Action::<S, A, D, Q>::Fail(NegotiationError { kind, backend: BackendKind::PortableGlApi, detail })
        }),
{
}

} // verus!
