use gpu_context::limits::{clamp_to, portable_baseline, required_limits};

#[test]
fn baseline_is_the_webgl2_profile() {
    let b = portable_baseline();
    assert_eq!(b, wgpu::Limits::downlevel_webgl2_defaults());
    assert_eq!(b.max_uniform_buffers_per_shader_stage, 11);
    assert_eq!(b.max_vertex_buffer_array_stride, 255);
    assert_eq!(b.max_inter_stage_shader_components, 31);
}

#[test]
fn request_takes_the_adapter_resolution() {
    let baseline = portable_baseline();
    let adapter = wgpu::Limits::default();
    let r = required_limits(&baseline, &adapter);
    assert_eq!(r.max_texture_dimension_1d, adapter.max_texture_dimension_1d);
    assert_eq!(r.max_texture_dimension_2d, 8192);
    assert_ne!(baseline.max_texture_dimension_2d, 8192);
    assert_eq!(r.max_uniform_buffers_per_shader_stage, 11);
    assert_eq!(r.max_storage_buffers_per_shader_stage, 0);
    assert!(r.check_limits(&adapter));
}

#[test]
fn clamp_lowers_maxima_and_raises_minima() {
    let mut req = wgpu::Limits::default();
    req.max_bind_groups = 8;
    req.max_buffer_size = 1 << 30;
    req.min_storage_buffer_offset_alignment = 64;
    let mut cap = wgpu::Limits::default();
    cap.max_bind_groups = 4;
    cap.max_buffer_size = 1 << 20;
    cap.min_storage_buffer_offset_alignment = 256;
    let r = clamp_to(&req, &cap);
    assert_eq!(r.max_bind_groups, 4);
    assert_eq!(r.max_buffer_size, 1 << 20);
    assert_eq!(r.min_storage_buffer_offset_alignment, 256);
    assert_eq!(r.max_vertex_buffers, req.max_vertex_buffers);
    assert!(r.check_limits(&cap));
}

#[test]
fn add_sums() {
    assert_eq!(gpu_context::add(2, 3), 5);
    assert_eq!(gpu_context::add(0, u32::MAX), u32::MAX);
}
