//! The backend fallback controller.
//!
//! Acquiring a GPU context alternates platform work (creating a surface,
//! awaiting an adapter, awaiting a device) with decisions. The decisions live
//! here, as a state machine: the driver performs each `Action` that `step`
//! returns and feeds back what came of it as an `Event`. An attempt runs surface
//! creation, adapter lookup and the device request against one backend and stops
//! at its first failure. A failed primary attempt is torn down and the whole
//! sequence is run once more against the secondary backend, on a fresh render
//! target. A failure there is final.
use vstd::prelude::*;
use crate::limits::{required, required_limits, portable_baseline};

verus! {

/// A graphics API family, in the order in which they are tried.
#[derive(Clone, Copy, Debug, PartialEq, Eq, Structural)]
pub enum BackendKind {
    /// The browser-native, high-performance GPU API.
    PrimaryGpuApi,
    /// The portable GL-based API.
    PortableGlApi,
}

/// The step of an attempt that failed.
#[derive(Clone, Copy, Debug, PartialEq, Eq, Structural)]
pub enum FailureKind {
    SurfaceCreationFailed,
    NoCompatibleAdapter,
    DeviceRequestFailed,
}

/// Why an attempt failed, and under which backend.
#[derive(Clone, Debug)]
pub struct NegotiationError {
    pub kind: FailureKind,
    pub backend: BackendKind,
    /// The platform's own diagnostic, where it gave one.
    pub detail: Option<String>,
}

/// The text of a failure that came with no diagnostic of its own.
pub open spec fn default_text(kind: FailureKind, backend: BackendKind) -> Seq<char> {
    match (kind, backend) {
        (FailureKind::SurfaceCreationFailed, BackendKind::PrimaryGpuApi) => "Surface creation failed for WebGPU backend"@,
        (FailureKind::SurfaceCreationFailed, BackendKind::PortableGlApi) => "Surface creation failed for WebGL backend"@,
        (FailureKind::NoCompatibleAdapter, BackendKind::PrimaryGpuApi) => "No suitable adapter found for WebGPU backend"@,
        (FailureKind::NoCompatibleAdapter, BackendKind::PortableGlApi) => "No suitable adapter found for WebGL backend"@,
        (FailureKind::DeviceRequestFailed, BackendKind::PrimaryGpuApi) => "Device request failed for WebGPU backend"@,
        (FailureKind::DeviceRequestFailed, BackendKind::PortableGlApi) => "Device request failed for WebGL backend"@,
    }
}

impl NegotiationError {
    /// The text reported for this failure.
    pub open spec fn message_spec(self) -> Seq<char> {
        match self.detail {
            Some(d) => d@,
            None => default_text(self.kind, self.backend),
        }
    }

    /// The platform's diagnostic where there is one, else a sentence that names
    /// the failed step and the backend.
    pub fn message(&self) -> (r: String)
        ensures
            r@ == self.message_spec(),
    {
        match &self.detail {
            Some(d) => d.clone(),
            None => match (self.kind, self.backend) {
                (FailureKind::SurfaceCreationFailed, BackendKind::PrimaryGpuApi) => "Surface creation failed for WebGPU backend".to_string(),
                (FailureKind::SurfaceCreationFailed, BackendKind::PortableGlApi) => "Surface creation failed for WebGL backend".to_string(),
                (FailureKind::NoCompatibleAdapter, BackendKind::PrimaryGpuApi) => "No suitable adapter found for WebGPU backend".to_string(),
                (FailureKind::NoCompatibleAdapter, BackendKind::PortableGlApi) => "No suitable adapter found for WebGL backend".to_string(),
                (FailureKind::DeviceRequestFailed, BackendKind::PrimaryGpuApi) => "Device request failed for WebGPU backend".to_string(),
                (FailureKind::DeviceRequestFailed, BackendKind::PortableGlApi) => "Device request failed for WebGL backend".to_string(),
            },
        }
    }
}

/// A usable context: all four handles come from one attempt, on the render
/// target `target`, under `backend`.
pub struct GraphicsContext<S, A, D, Q> {
    pub backend: BackendKind,
    pub target: u64,
    pub surface: S,
    pub adapter: A,
    pub device: D,
    pub queue: Q,
}

/// What came of the last action.
pub enum Event<S, A, D, Q> {
    SurfaceCreated(S),
    SurfaceFailed(String),
    /// An adapter, with the limits that it reports.
    AdapterFound(A, wgpu::Limits),
    NoAdapter,
    DeviceReady(D, Q),
    DeviceFailed(String),
}

/// What the driver is to do next.
pub enum Action<S, A, D, Q> {
    /// Detach the render target `discard`, if any; then allocate a fresh render
    /// target known as `target`, attach it, and create a surface on it for
    /// `backend`.
    CreateSurface { backend: BackendKind, target: u64, discard: Option<u64> },
    /// Ask `backend` for an adapter, not a fallback one, that can present to
    /// the surface of this attempt, with the default power preference.
    RequestAdapter { backend: BackendKind },
    /// Ask the adapter of this attempt for a device and a queue with these
    /// limits, no optional features, and memory use favoured.
    RequestDevice { backend: BackendKind, limits: wgpu::Limits },
    /// Negotiation succeeded.
    Ready(GraphicsContext<S, A, D, Q>),
    /// Negotiation failed for good.
    Fail(NegotiationError),
    /// Nothing to do: the event did not answer the last action.
    Idle,
}

/// Which attempt is running.
#[derive(Clone, Copy, Debug, PartialEq, Eq, Structural)]
pub enum Phase {
    TryPrimary,
    TrySecondary,
    Finished,
}

/// What the running attempt waits for.
#[derive(Clone, Copy, Debug, PartialEq, Eq, Structural)]
pub enum Stage {
    AwaitSurface,
    AwaitAdapter,
    AwaitDevice,
}

/// The render target of the primary attempt.
pub const PRIMARY_TARGET: u64 = 0;

/// The render target of the secondary attempt.
pub const SECONDARY_TARGET: u64 = 1;

/// The state of a negotiation. `surface` and `adapter` are those of the
/// running attempt, and no other.
pub struct FallbackController<S, A> {
    pub phase: Phase,
    pub stage: Stage,
    pub target: u64,
    pub baseline: wgpu::Limits,
    pub surface: Option<S>,
    pub adapter: Option<A>,
    /// Why the primary attempt failed, kept once the secondary one runs.
    pub primary_failure: Option<NegotiationError>,
}

/// The backend that an attempt in `phase` runs against.
pub open spec fn backend_of(phase: Phase) -> BackendKind {
    if phase == Phase::TryPrimary {
        BackendKind::PrimaryGpuApi
    } else {
        BackendKind::PortableGlApi
    }
}

/// The failure that `e` reports, where it answers what `stage` waits for.
pub open spec fn failure_of<S, A, D, Q>(stage: Stage, e: Event<S, A, D, Q>) -> Option<(FailureKind, Option<String>)> {
    match e {
        Event::SurfaceFailed(m) => if stage == Stage::AwaitSurface {
            Some((FailureKind::SurfaceCreationFailed, Some(m)))
        } else {
            None
        },
        Event::NoAdapter => if stage == Stage::AwaitAdapter {
            Some((FailureKind::NoCompatibleAdapter, None))
        } else {
            None
        },
        Event::DeviceFailed(m) => if stage == Stage::AwaitDevice {
            Some((FailureKind::DeviceRequestFailed, Some(m)))
        } else {
            None
        },
        _ => None,
    }
}

impl<S, A> FallbackController<S, A> {
    /// The state invariant.
    pub open spec fn wf(self) -> bool {
        &&& self.phase == Phase::TryPrimary ==> self.target == PRIMARY_TARGET && self.primary_failure is None
        &&& self.phase == Phase::TrySecondary ==> self.target == SECONDARY_TARGET
        &&& self.phase == Phase::Finished ==> self.surface is None && self.adapter is None
        &&& self.phase != Phase::Finished ==> match self.stage {
            Stage::AwaitSurface => self.surface is None && self.adapter is None,
            Stage::AwaitAdapter => self.surface is Some && self.adapter is None,
            Stage::AwaitDevice => self.surface is Some && self.adapter is Some,
        }
    }

    /// The state in which a negotiation that starts from `baseline` begins.
    pub open spec fn initial(baseline: wgpu::Limits) -> Self {
        FallbackController {
            phase: Phase::TryPrimary,
            stage: Stage::AwaitSurface,
            target: PRIMARY_TARGET,
            baseline,
            surface: None,
            adapter: None,
            primary_failure: None,
        }
    }

    /// The first action of a negotiation in state `self`.
    pub open spec fn opening_spec<D, Q>(self) -> Action<S, A, D, Q> {
        if self.phase == Phase::TryPrimary && self.stage == Stage::AwaitSurface {
            Action::CreateSurface { backend: BackendKind::PrimaryGpuApi, target: self.target, discard: None }
        } else {
            Action::Idle
        }
    }

    /// The state after the running attempt failed with `err`, and the action
    /// that follows.
    pub open spec fn after_failure<D, Q>(self, err: NegotiationError) -> (Self, Action<S, A, D, Q>) {
        if self.phase == Phase::TryPrimary {
            (
                FallbackController {
                    phase: Phase::TrySecondary,
                    stage: Stage::AwaitSurface,
                    target: SECONDARY_TARGET,
                    surface: None,
                    adapter: None,
                    primary_failure: Some(err),
                    ..self
                },
                Action::CreateSurface {
                    backend: BackendKind::PortableGlApi,
                    target: SECONDARY_TARGET,
                    discard: Some(self.target),
                },
            )
        } else {
            (
                FallbackController { phase: Phase::Finished, surface: None, adapter: None, ..self },
                Action::Fail(err),
            )
        }
    }

    /// One transition: the next state and the next action, given what came of
    /// the last action.
    pub open spec fn next<D, Q>(self, e: Event<S, A, D, Q>) -> (Self, Action<S, A, D, Q>) {
        let backend = backend_of(self.phase);
        if self.phase == Phase::Finished {
            (self, Action::Idle)
        } else if let Some((kind, detail)) = failure_of(self.stage, e) {
            self.after_failure(NegotiationError { kind, backend, detail })
        } else {
            match e {
                Event::SurfaceCreated(s) => if self.stage == Stage::AwaitSurface {
                    (
                        FallbackController { stage: Stage::AwaitAdapter, surface: Some(s), ..self },
                        Action::RequestAdapter { backend },
                    )
                } else {
                    (self, Action::Idle)
                },
                Event::AdapterFound(a, reported) => if self.stage == Stage::AwaitAdapter {
                    (
                        FallbackController { stage: Stage::AwaitDevice, adapter: Some(a), ..self },
                        Action::RequestDevice { backend, limits: required(self.baseline, reported) },
                    )
                } else {
                    (self, Action::Idle)
                },
                Event::DeviceReady(d, q) => if self.stage == Stage::AwaitDevice {
                    (
                        FallbackController { phase: Phase::Finished, surface: None, adapter: None, ..self },
                        Action::Ready(GraphicsContext {
                            backend,
                            target: self.target,
                            surface: self.surface->Some_0,
                            adapter: self.adapter->Some_0,
                            device: d,
                            queue: q,
                        }),
                    )
                } else {
                    (self, Action::Idle)
                },
                _ => (self, Action::Idle),
            }
        }
    }
    /// The state after feeding `events` in order, and the actions returned.
    pub open spec fn run<D, Q>(self, events: Seq<Event<S, A, D, Q>>) -> (Self, Seq<Action<S, A, D, Q>>)
        decreases events.len(),
    {
        if events.len() == 0 {
            (self, Seq::empty())
        } else {
            let (m, acts) = self.run(events.drop_last());
            let (n, a) = m.next(events.last());
            (n, acts.push(a))
        }
    }

    /// A negotiation that starts from the portable baseline limits.
    pub fn new() -> (r: Self)
        ensures
            r == Self::initial(r.baseline),
            r.wf(),
            r.baseline.max_uniform_buffers_per_shader_stage == 11,
            r.baseline.max_vertex_buffer_array_stride == 255,
            r.baseline.max_inter_stage_shader_components == 31,
    {
        FallbackController {
            phase: Phase::TryPrimary,
            stage: Stage::AwaitSurface,
            target: PRIMARY_TARGET,
            baseline: portable_baseline(),
            surface: None,
            adapter: None,
            primary_failure: None,
        }
    }

    /// The first action: a primary attempt on a fresh render target.
    pub fn opening<D, Q>(&self) -> (r: Action<S, A, D, Q>)
        ensures
            r == self.opening_spec::<D, Q>(),
    {
        if self.phase == Phase::TryPrimary && self.stage == Stage::AwaitSurface {
            Action::CreateSurface { backend: BackendKind::PrimaryGpuApi, target: self.target, discard: None }
        } else {
            Action::Idle
        }
    }

    /// The running attempt failed with `err`: tear it down and start the
    /// secondary attempt, or give up where this was the secondary one.
    fn fail<D, Q>(&mut self, err: NegotiationError) -> (r: Action<S, A, D, Q>)
        requires
            old(self).wf(),
            old(self).phase != Phase::Finished,
        ensures
            (*final(self), r) == old(self).after_failure::<D, Q>(err),
            final(self).wf(),
    {
        self.surface = None;
        self.adapter = None;
        if self.phase == Phase::TryPrimary {
            let discard = self.target;
            self.phase = Phase::TrySecondary;
            self.stage = Stage::AwaitSurface;
            self.target = SECONDARY_TARGET;
            self.primary_failure = Some(err);
            Action::CreateSurface { backend: BackendKind::PortableGlApi, target: SECONDARY_TARGET, discard: Some(discard) }
        } else {
            self.phase = Phase::Finished;
            Action::Fail(err)
        }
    }

    /// Takes in what came of the last action and returns the next one.
    pub fn step<D, Q>(&mut self, e: Event<S, A, D, Q>) -> (r: Action<S, A, D, Q>)
        requires
            old(self).wf(),
        ensures
            (*final(self), r) == old(self).next(e),
            final(self).wf(),
    {
        if self.phase == Phase::Finished {
            return Action::Idle;
        }
        let backend = if self.phase == Phase::TryPrimary {
            BackendKind::PrimaryGpuApi
        } else {
            BackendKind::PortableGlApi
        };
        match e {
            Event::SurfaceCreated(s) => {
                if self.stage == Stage::AwaitSurface {
                    self.stage = Stage::AwaitAdapter;
                    self.surface = Some(s);
                    Action::RequestAdapter { backend }
                } else {
                    Action::Idle
                }
            },
            Event::SurfaceFailed(m) => {
                if self.stage == Stage::AwaitSurface {
                    self.fail(NegotiationError { kind: FailureKind::SurfaceCreationFailed, backend, detail: Some(m) })
                } else {
                    Action::Idle
                }
            },
            Event::AdapterFound(a, reported) => {
                if self.stage == Stage::AwaitAdapter {
                    let limits = required_limits(&self.baseline, &reported);
                    self.stage = Stage::AwaitDevice;
                    self.adapter = Some(a);
                    Action::RequestDevice { backend, limits }
                } else {
                    Action::Idle
                }
            },
            Event::NoAdapter => {
                if self.stage == Stage::AwaitAdapter {
                    self.fail(NegotiationError { kind: FailureKind::NoCompatibleAdapter, backend, detail: None })
                } else {
                    Action::Idle
                }
            },
            Event::DeviceReady(d, q) => {
                if self.stage == Stage::AwaitDevice {
                    let surface = self.surface.take();
                    let adapter = self.adapter.take();
                    self.phase = Phase::Finished;
                    match (surface, adapter) {
                        (Some(surface), Some(adapter)) => Action::Ready(
                            GraphicsContext { backend, target: self.target, surface, adapter, device: d, queue: q },
                        ),
                        _ => Action::Idle,
                    }
                } else {
                    Action::Idle
                }
            },
            Event::DeviceFailed(m) => {
                if self.stage == Stage::AwaitDevice {
                    self.fail(NegotiationError { kind: FailureKind::DeviceRequestFailed, backend, detail: Some(m) })
                } else {
                    Action::Idle
                }
            },
        }
    }
}

} // verus!
