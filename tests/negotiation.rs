use gpu_context::controller::{
    Action, BackendKind, Event, FailureKind, FallbackController, GraphicsContext, NegotiationError,
    Phase, PRIMARY_TARGET, SECONDARY_TARGET,
};

type Ctl = FallbackController<u32, u32>;
type Act = Action<u32, u32, u32, u32>;
type Ev = Event<u32, u32, u32, u32>;

/// A document that holds the attached render targets, in order.
struct Document {
    attached: Vec<u64>,
    allocated: Vec<u64>,
}

impl Document {
    fn new() -> Self {
        Document { attached: Vec::new(), allocated: Vec::new() }
    }

    /// Performs the part of `CreateSurface` that touches the document.
    fn apply(&mut self, action: &Act) {
        if let Action::CreateSurface { target, discard, .. } = action {
            if let Some(old) = discard {
                self.attached.retain(|t| t != old);
            }
            self.allocated.push(*target);
            self.attached.push(*target);
        }
    }
}

/// Feeds `events` after the opening action; returns the last action.
fn drive(ctl: &mut Ctl, doc: &mut Document, events: Vec<Ev>) -> Act {
    let mut action: Act = ctl.opening();
    doc.apply(&action);
    for e in events {
        action = ctl.step(e);
        doc.apply(&action);
    }
    action
}

fn adapter_limits() -> wgpu::Limits {
    wgpu::Limits::default()
}

fn ready(action: Act) -> GraphicsContext<u32, u32, u32, u32> {
    match action {
        Action::Ready(ctx) => ctx,
        _ => panic!("expected a context"),
    }
}

fn failed(action: Act) -> NegotiationError {
    match action {
        Action::Fail(err) => err,
        _ => panic!("expected a failure"),
    }
}

#[test]
fn primary_surface_failure_falls_back_to_portable() {
    let mut ctl = Ctl::new();
    let mut doc = Document::new();
    let last = drive(
        &mut ctl,
        &mut doc,
        vec![
            Event::SurfaceFailed("WebGPU is not supported".to_string()),
            Event::SurfaceCreated(11),
            Event::AdapterFound(21, adapter_limits()),
            Event::DeviceReady(31, 41),
        ],
    );
    let ctx = ready(last);
    assert_eq!(ctx.backend, BackendKind::PortableGlApi);
    assert_eq!(ctx.target, SECONDARY_TARGET);
    assert_eq!(doc.allocated, vec![PRIMARY_TARGET, SECONDARY_TARGET]);
    assert_eq!(doc.attached, vec![SECONDARY_TARGET]);
    let first = ctl.primary_failure.as_ref().unwrap();
    assert_eq!(first.kind, FailureKind::SurfaceCreationFailed);
    assert_eq!(first.backend, BackendKind::PrimaryGpuApi);
}

#[test]
fn both_backends_without_adapter_report_secondary() {
    let mut ctl = Ctl::new();
    let mut doc = Document::new();
    let last = drive(
        &mut ctl,
        &mut doc,
        vec![Event::SurfaceCreated(10), Event::NoAdapter, Event::SurfaceCreated(11), Event::NoAdapter],
    );
    let err = failed(last);
    assert_eq!(err.kind, FailureKind::NoCompatibleAdapter);
    assert_eq!(err.backend, BackendKind::PortableGlApi);
    assert_eq!(err.message(), "No suitable adapter found for WebGL backend");
    assert_eq!(ctl.phase, Phase::Finished);
}

#[test]
fn primary_success_tags_primary_and_allocates_once() {
    let mut ctl = Ctl::new();
    let mut doc = Document::new();
    let last = drive(
        &mut ctl,
        &mut doc,
        vec![Event::SurfaceCreated(10), Event::AdapterFound(20, adapter_limits()), Event::DeviceReady(30, 40)],
    );
    let ctx = ready(last);
    assert_eq!(ctx.backend, BackendKind::PrimaryGpuApi);
    assert_eq!(ctx.target, PRIMARY_TARGET);
    assert_eq!(doc.allocated, vec![PRIMARY_TARGET]);
    assert_eq!(doc.attached, vec![PRIMARY_TARGET]);
    assert!(ctl.primary_failure.is_none());
}

#[test]
fn fallback_uses_a_fresh_target_once() {
    for failing in 0..3 {
        let mut ctl = Ctl::new();
        let mut doc = Document::new();
        let mut events: Vec<Ev> = Vec::new();
        match failing {
            0 => events.push(Event::SurfaceFailed("no surface".to_string())),
            1 => {
                events.push(Event::SurfaceCreated(10));
                events.push(Event::NoAdapter);
            }
            _ => {
                events.push(Event::SurfaceCreated(10));
                events.push(Event::AdapterFound(20, adapter_limits()));
                events.push(Event::DeviceFailed("device lost".to_string()));
            }
        }
        let action = drive(&mut ctl, &mut doc, events);
        match action {
            Action::CreateSurface { backend, target, discard } => {
                assert_eq!(backend, BackendKind::PortableGlApi);
                assert_ne!(target, PRIMARY_TARGET);
                assert_eq!(discard, Some(PRIMARY_TARGET));
            }
            _ => panic!("expected a second attempt"),
        }
        let last = ctl.step(Event::SurfaceFailed("no GL either".to_string()));
        let err = failed(last);
        assert_eq!(err.backend, BackendKind::PortableGlApi);
        assert_eq!(doc.allocated.len(), 2);
        let after: Act = ctl.step(Event::SurfaceCreated(12));
        assert!(matches!(after, Action::Idle));
    }
}

#[test]
fn finished_negotiation_asks_for_nothing() {
    let mut ctl = Ctl::new();
    let mut doc = Document::new();
    drive(
        &mut ctl,
        &mut doc,
        vec![Event::SurfaceCreated(10), Event::AdapterFound(20, adapter_limits()), Event::DeviceReady(30, 40)],
    );
    let late: Vec<Ev> = vec![Event::SurfaceFailed("late".to_string()), Event::NoAdapter, Event::SurfaceCreated(11)];
    for e in late {
        let a: Act = ctl.step(e);
        assert!(matches!(a, Action::Idle));
    }
    assert_eq!(ctl.phase, Phase::Finished);
}

#[test]
fn context_handles_come_from_the_winning_attempt() {
    let mut ctl = Ctl::new();
    let mut doc = Document::new();
    let last = drive(
        &mut ctl,
        &mut doc,
        vec![
            Event::SurfaceCreated(10),
            Event::AdapterFound(20, adapter_limits()),
            Event::DeviceFailed("rejected".to_string()),
            Event::SurfaceCreated(11),
            Event::AdapterFound(21, adapter_limits()),
            Event::DeviceReady(31, 41),
        ],
    );
    let ctx = ready(last);
    assert_eq!((ctx.surface, ctx.adapter, ctx.device, ctx.queue), (11, 21, 31, 41));
}

#[test]
fn device_request_stays_within_a_small_adapter() {
    let mut small = wgpu::Limits::downlevel_webgl2_defaults();
    small.max_uniform_buffers_per_shader_stage = 4;
    small.max_vertex_buffer_array_stride = 128;
    small.min_uniform_buffer_offset_alignment = 512;
    small.max_texture_dimension_2d = 1024;
    let mut ctl = Ctl::new();
    let mut doc = Document::new();
    let last = drive(&mut ctl, &mut doc, vec![Event::SurfaceCreated(10), Event::AdapterFound(20, small.clone())]);
    match last {
        Action::RequestDevice { backend, limits } => {
            assert_eq!(backend, BackendKind::PrimaryGpuApi);
            assert!(limits.check_limits(&small));
            assert_eq!(limits.max_uniform_buffers_per_shader_stage, 4);
            assert_eq!(limits.max_vertex_buffer_array_stride, 128);
            assert_eq!(limits.min_uniform_buffer_offset_alignment, 512);
            assert_eq!(limits.max_texture_dimension_2d, 1024);
        }
        _ => panic!("expected a device request"),
    }
}

#[test]
fn secondary_failure_detail_is_reported() {
    let mut ctl = Ctl::new();
    let mut doc = Document::new();
    let last = drive(
        &mut ctl,
        &mut doc,
        vec![
            Event::SurfaceCreated(10),
            Event::AdapterFound(20, adapter_limits()),
            Event::DeviceFailed("primary device rejected".to_string()),
            Event::SurfaceCreated(11),
            Event::AdapterFound(21, adapter_limits()),
            Event::DeviceFailed("secondary device rejected".to_string()),
        ],
    );
    let err = failed(last);
    assert_eq!(err.kind, FailureKind::DeviceRequestFailed);
    assert_eq!(err.backend, BackendKind::PortableGlApi);
    assert_eq!(err.message(), "secondary device rejected");
    let first = ctl.primary_failure.as_ref().unwrap();
    assert_eq!(first.message(), "primary device rejected");
    assert_eq!(first.backend, BackendKind::PrimaryGpuApi);
}

#[test]
fn event_out_of_turn_is_ignored() {
    let mut ctl = Ctl::new();
    let opening: Act = ctl.opening();
    assert!(matches!(opening, Action::CreateSurface { backend: BackendKind::PrimaryGpuApi, target: PRIMARY_TARGET, discard: None }));
    let a: Act = ctl.step(Event::DeviceReady(30, 40));
    assert!(matches!(a, Action::Idle));
    let a: Act = ctl.step(Event::NoAdapter);
    assert!(matches!(a, Action::Idle));
    assert_eq!(ctl.phase, Phase::TryPrimary);
    let a: Act = ctl.step(Event::SurfaceCreated(10));
    assert!(matches!(a, Action::RequestAdapter { backend: BackendKind::PrimaryGpuApi }));
}

#[test]
fn messages_without_detail_name_step_and_backend() {
    let cases = vec![
        (FailureKind::SurfaceCreationFailed, BackendKind::PrimaryGpuApi, "Surface creation failed for WebGPU backend"),
        (FailureKind::NoCompatibleAdapter, BackendKind::PrimaryGpuApi, "No suitable adapter found for WebGPU backend"),
        (FailureKind::DeviceRequestFailed, BackendKind::PortableGlApi, "Device request failed for WebGL backend"),
    ];
    for (kind, backend, text) in cases {
        let err = NegotiationError { kind, backend, detail: None };
        assert_eq!(err.message(), text);
    }
    let err = NegotiationError {
        kind: FailureKind::SurfaceCreationFailed,
        backend: BackendKind::PortableGlApi,
        detail: Some("canvas refused".to_string()),
    };
    assert_eq!(err.message(), "canvas refused");
}
