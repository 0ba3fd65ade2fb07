//! Device limits: the portable baseline that a device request starts from, and
//! how it is fitted to what a selected adapter reports.
//!
//! Limits named `max_*` are better when higher; the three named `min_*` are
//! better when lower. An adapter "supports" a request when every `max_*` limit of
//! the request is at most the adapter's and every `min_*` limit at least the
//! adapter's.
use vstd::prelude::*;

verus! {

/// wgpu's `Limits`: a struct of public integer fields, one per limit, which
/// the functions below read and build field by field.
#[verifier::external_type_specification]
pub struct ExLimits(wgpu::Limits);

/// Relies on wgpu's `Limits::downlevel_webgl2_defaults`: the limit set that
/// every WebGL2 device meets. Its source sets these limits explicitly and takes
/// the rest from the general downlevel defaults.
pub assume_specification[ wgpu::Limits::downlevel_webgl2_defaults ]() -> (r: wgpu::Limits)
    ensures
        r.max_uniform_buffers_per_shader_stage == 11,
        r.max_storage_buffers_per_shader_stage == 0,
        r.max_storage_textures_per_shader_stage == 0,
        r.max_dynamic_storage_buffers_per_pipeline_layout == 0,
        r.max_storage_buffer_binding_size == 0,
        r.max_vertex_buffer_array_stride == 255,
        r.max_compute_workgroup_storage_size == 0,
        r.max_compute_invocations_per_workgroup == 0,
        r.max_compute_workgroup_size_x == 0,
        r.max_compute_workgroup_size_y == 0,
        r.max_compute_workgroup_size_z == 0,
        r.max_compute_workgroups_per_dimension == 0,
        r.min_subgroup_size == 0,
        r.max_subgroup_size == 0,
        r.max_inter_stage_shader_components == 31,
;

/// Relies on the `Clone` that wgpu derives for `Limits`, a struct of integers:
/// the copy has the same limits.
pub assume_specification[ <wgpu::Limits as Clone>::clone ](l: &wgpu::Limits) -> (r: wgpu::Limits)
    ensures
        r == *l,
;

/// Relies on wgpu's `Limits::using_resolution`: the three texture-dimension
/// limits are taken from `other`, every other limit from `l`.
pub assume_specification[ wgpu::Limits::using_resolution ](l: wgpu::Limits, other: wgpu::Limits) -> (r: wgpu::Limits)
    ensures
        r == with_resolution_of(l, other),
;

/// `l` with the texture-dimension limits of `other`.
pub open spec fn with_resolution_of(l: wgpu::Limits, other: wgpu::Limits) -> wgpu::Limits {
    wgpu::Limits {
        max_texture_dimension_1d: other.max_texture_dimension_1d,
        max_texture_dimension_2d: other.max_texture_dimension_2d,
        max_texture_dimension_3d: other.max_texture_dimension_3d,
        max_texture_array_layers: l.max_texture_array_layers,
        max_bind_groups: l.max_bind_groups,
        max_bindings_per_bind_group: l.max_bindings_per_bind_group,
        max_dynamic_uniform_buffers_per_pipeline_layout: l.max_dynamic_uniform_buffers_per_pipeline_layout,
        max_dynamic_storage_buffers_per_pipeline_layout: l.max_dynamic_storage_buffers_per_pipeline_layout,
        max_sampled_textures_per_shader_stage: l.max_sampled_textures_per_shader_stage,
        max_samplers_per_shader_stage: l.max_samplers_per_shader_stage,
        max_storage_buffers_per_shader_stage: l.max_storage_buffers_per_shader_stage,
        max_storage_textures_per_shader_stage: l.max_storage_textures_per_shader_stage,
        max_uniform_buffers_per_shader_stage: l.max_uniform_buffers_per_shader_stage,
        max_uniform_buffer_binding_size: l.max_uniform_buffer_binding_size,
        max_storage_buffer_binding_size: l.max_storage_buffer_binding_size,
        max_vertex_buffers: l.max_vertex_buffers,
        max_buffer_size: l.max_buffer_size,
        max_vertex_attributes: l.max_vertex_attributes,
        max_vertex_buffer_array_stride: l.max_vertex_buffer_array_stride,
        min_uniform_buffer_offset_alignment: l.min_uniform_buffer_offset_alignment,
        min_storage_buffer_offset_alignment: l.min_storage_buffer_offset_alignment,
        max_inter_stage_shader_components: l.max_inter_stage_shader_components,
        max_color_attachments: l.max_color_attachments,
        max_color_attachment_bytes_per_sample: l.max_color_attachment_bytes_per_sample,
        max_compute_workgroup_storage_size: l.max_compute_workgroup_storage_size,
        max_compute_invocations_per_workgroup: l.max_compute_invocations_per_workgroup,
        max_compute_workgroup_size_x: l.max_compute_workgroup_size_x,
        max_compute_workgroup_size_y: l.max_compute_workgroup_size_y,
        max_compute_workgroup_size_z: l.max_compute_workgroup_size_z,
        max_compute_workgroups_per_dimension: l.max_compute_workgroups_per_dimension,
        min_subgroup_size: l.min_subgroup_size,
        max_subgroup_size: l.max_subgroup_size,
        max_push_constant_size: l.max_push_constant_size,
        max_non_sampler_bindings: l.max_non_sampler_bindings,
    }
}

/// Every limit of `req` lies within what `cap` supports.
pub open spec fn within(req: wgpu::Limits, cap: wgpu::Limits) -> bool {
    req.max_texture_dimension_1d <= cap.max_texture_dimension_1d
        && req.max_texture_dimension_2d <= cap.max_texture_dimension_2d
        && req.max_texture_dimension_3d <= cap.max_texture_dimension_3d
        && req.max_texture_array_layers <= cap.max_texture_array_layers
        && req.max_bind_groups <= cap.max_bind_groups
        && req.max_bindings_per_bind_group <= cap.max_bindings_per_bind_group
        && req.max_dynamic_uniform_buffers_per_pipeline_layout <= cap.max_dynamic_uniform_buffers_per_pipeline_layout
        && req.max_dynamic_storage_buffers_per_pipeline_layout <= cap.max_dynamic_storage_buffers_per_pipeline_layout
        && req.max_sampled_textures_per_shader_stage <= cap.max_sampled_textures_per_shader_stage
        && req.max_samplers_per_shader_stage <= cap.max_samplers_per_shader_stage
        && req.max_storage_buffers_per_shader_stage <= cap.max_storage_buffers_per_shader_stage
        && req.max_storage_textures_per_shader_stage <= cap.max_storage_textures_per_shader_stage
        && req.max_uniform_buffers_per_shader_stage <= cap.max_uniform_buffers_per_shader_stage
        && req.max_uniform_buffer_binding_size <= cap.max_uniform_buffer_binding_size
        && req.max_storage_buffer_binding_size <= cap.max_storage_buffer_binding_size
        && req.max_vertex_buffers <= cap.max_vertex_buffers
        && req.max_buffer_size <= cap.max_buffer_size
        && req.max_vertex_attributes <= cap.max_vertex_attributes
        && req.max_vertex_buffer_array_stride <= cap.max_vertex_buffer_array_stride
        && req.min_uniform_buffer_offset_alignment >= cap.min_uniform_buffer_offset_alignment
        && req.min_storage_buffer_offset_alignment >= cap.min_storage_buffer_offset_alignment
        && req.max_inter_stage_shader_components <= cap.max_inter_stage_shader_components
        && req.max_color_attachments <= cap.max_color_attachments
        && req.max_color_attachment_bytes_per_sample <= cap.max_color_attachment_bytes_per_sample
        && req.max_compute_workgroup_storage_size <= cap.max_compute_workgroup_storage_size
        && req.max_compute_invocations_per_workgroup <= cap.max_compute_invocations_per_workgroup
        && req.max_compute_workgroup_size_x <= cap.max_compute_workgroup_size_x
        && req.max_compute_workgroup_size_y <= cap.max_compute_workgroup_size_y
        && req.max_compute_workgroup_size_z <= cap.max_compute_workgroup_size_z
        && req.max_compute_workgroups_per_dimension <= cap.max_compute_workgroups_per_dimension
        && req.min_subgroup_size >= cap.min_subgroup_size
        && req.max_subgroup_size <= cap.max_subgroup_size
        && req.max_push_constant_size <= cap.max_push_constant_size
        && req.max_non_sampler_bindings <= cap.max_non_sampler_bindings
}

/// The smaller of two values.
pub open spec fn lower(a: int, b: int) -> int {
    if a <= b { a } else { b }
}

/// The larger of two values.
pub open spec fn higher(a: int, b: int) -> int {
    if a <= b { b } else { a }
}

/// `req` with each limit brought within `cap`, and left as it is where it
/// already was.
pub open spec fn clamped(req: wgpu::Limits, cap: wgpu::Limits) -> wgpu::Limits {
    wgpu::Limits {
        max_texture_dimension_1d: lower(req.max_texture_dimension_1d as int, cap.max_texture_dimension_1d as int) as u32,
        max_texture_dimension_2d: lower(req.max_texture_dimension_2d as int, cap.max_texture_dimension_2d as int) as u32,
        max_texture_dimension_3d: lower(req.max_texture_dimension_3d as int, cap.max_texture_dimension_3d as int) as u32,
        max_texture_array_layers: lower(req.max_texture_array_layers as int, cap.max_texture_array_layers as int) as u32,
        max_bind_groups: lower(req.max_bind_groups as int, cap.max_bind_groups as int) as u32,
        max_bindings_per_bind_group: lower(req.max_bindings_per_bind_group as int, cap.max_bindings_per_bind_group as int) as u32,
        max_dynamic_uniform_buffers_per_pipeline_layout: lower(req.max_dynamic_uniform_buffers_per_pipeline_layout as int, cap.max_dynamic_uniform_buffers_per_pipeline_layout as int) as u32,
        max_dynamic_storage_buffers_per_pipeline_layout: lower(req.max_dynamic_storage_buffers_per_pipeline_layout as int, cap.max_dynamic_storage_buffers_per_pipeline_layout as int) as u32,
        max_sampled_textures_per_shader_stage: lower(req.max_sampled_textures_per_shader_stage as int, cap.max_sampled_textures_per_shader_stage as int) as u32,
        max_samplers_per_shader_stage: lower(req.max_samplers_per_shader_stage as int, cap.max_samplers_per_shader_stage as int) as u32,
        max_storage_buffers_per_shader_stage: lower(req.max_storage_buffers_per_shader_stage as int, cap.max_storage_buffers_per_shader_stage as int) as u32,
        max_storage_textures_per_shader_stage: lower(req.max_storage_textures_per_shader_stage as int, cap.max_storage_textures_per_shader_stage as int) as u32,
        max_uniform_buffers_per_shader_stage: lower(req.max_uniform_buffers_per_shader_stage as int, cap.max_uniform_buffers_per_shader_stage as int) as u32,
        max_uniform_buffer_binding_size: lower(req.max_uniform_buffer_binding_size as int, cap.max_uniform_buffer_binding_size as int) as u32,
        max_storage_buffer_binding_size: lower(req.max_storage_buffer_binding_size as int, cap.max_storage_buffer_binding_size as int) as u32,
        max_vertex_buffers: lower(req.max_vertex_buffers as int, cap.max_vertex_buffers as int) as u32,
        max_buffer_size: lower(req.max_buffer_size as int, cap.max_buffer_size as int) as u64,
        max_vertex_attributes: lower(req.max_vertex_attributes as int, cap.max_vertex_attributes as int) as u32,
        max_vertex_buffer_array_stride: lower(req.max_vertex_buffer_array_stride as int, cap.max_vertex_buffer_array_stride as int) as u32,
        min_uniform_buffer_offset_alignment: higher(req.min_uniform_buffer_offset_alignment as int, cap.min_uniform_buffer_offset_alignment as int) as u32,
        min_storage_buffer_offset_alignment: higher(req.min_storage_buffer_offset_alignment as int, cap.min_storage_buffer_offset_alignment as int) as u32,
        max_inter_stage_shader_components: lower(req.max_inter_stage_shader_components as int, cap.max_inter_stage_shader_components as int) as u32,
        max_color_attachments: lower(req.max_color_attachments as int, cap.max_color_attachments as int) as u32,
        max_color_attachment_bytes_per_sample: lower(req.max_color_attachment_bytes_per_sample as int, cap.max_color_attachment_bytes_per_sample as int) as u32,
        max_compute_workgroup_storage_size: lower(req.max_compute_workgroup_storage_size as int, cap.max_compute_workgroup_storage_size as int) as u32,
        max_compute_invocations_per_workgroup: lower(req.max_compute_invocations_per_workgroup as int, cap.max_compute_invocations_per_workgroup as int) as u32,
        max_compute_workgroup_size_x: lower(req.max_compute_workgroup_size_x as int, cap.max_compute_workgroup_size_x as int) as u32,
        max_compute_workgroup_size_y: lower(req.max_compute_workgroup_size_y as int, cap.max_compute_workgroup_size_y as int) as u32,
        max_compute_workgroup_size_z: lower(req.max_compute_workgroup_size_z as int, cap.max_compute_workgroup_size_z as int) as u32,
        max_compute_workgroups_per_dimension: lower(req.max_compute_workgroups_per_dimension as int, cap.max_compute_workgroups_per_dimension as int) as u32,
        min_subgroup_size: higher(req.min_subgroup_size as int, cap.min_subgroup_size as int) as u32,
        max_subgroup_size: lower(req.max_subgroup_size as int, cap.max_subgroup_size as int) as u32,
        max_push_constant_size: lower(req.max_push_constant_size as int, cap.max_push_constant_size as int) as u32,
        max_non_sampler_bindings: lower(req.max_non_sampler_bindings as int, cap.max_non_sampler_bindings as int) as u32,
    }
}

/// The limit set to request from an adapter that reports `adapter`: `baseline`
/// with the adapter's texture resolution, brought within what the adapter
/// supports.
pub open spec fn required(baseline: wgpu::Limits, adapter: wgpu::Limits) -> wgpu::Limits {
    clamped(with_resolution_of(baseline, adapter), adapter)
}

fn lower_u32(a: u32, b: u32) -> (r: u32)
    ensures
        r == lower(a as int, b as int),
{
    if a <= b { a } else { b }
}

fn higher_u32(a: u32, b: u32) -> (r: u32)
    ensures
        r == higher(a as int, b as int),
{
    if a <= b { b } else { a }
}

/// Brings each limit of `req` within what `cap` supports.
pub fn clamp_to(req: &wgpu::Limits, cap: &wgpu::Limits) -> (r: wgpu::Limits)
    ensures
        r == clamped(*req, *cap),
        within(r, *cap),
{
    wgpu::Limits {
        max_texture_dimension_1d: lower_u32(req.max_texture_dimension_1d, cap.max_texture_dimension_1d),
        max_texture_dimension_2d: lower_u32(req.max_texture_dimension_2d, cap.max_texture_dimension_2d),
        max_texture_dimension_3d: lower_u32(req.max_texture_dimension_3d, cap.max_texture_dimension_3d),
        max_texture_array_layers: lower_u32(req.max_texture_array_layers, cap.max_texture_array_layers),
        max_bind_groups: lower_u32(req.max_bind_groups, cap.max_bind_groups),
        max_bindings_per_bind_group: lower_u32(req.max_bindings_per_bind_group, cap.max_bindings_per_bind_group),
        max_dynamic_uniform_buffers_per_pipeline_layout: lower_u32(req.max_dynamic_uniform_buffers_per_pipeline_layout, cap.max_dynamic_uniform_buffers_per_pipeline_layout),
        max_dynamic_storage_buffers_per_pipeline_layout: lower_u32(req.max_dynamic_storage_buffers_per_pipeline_layout, cap.max_dynamic_storage_buffers_per_pipeline_layout),
        max_sampled_textures_per_shader_stage: lower_u32(req.max_sampled_textures_per_shader_stage, cap.max_sampled_textures_per_shader_stage),
        max_samplers_per_shader_stage: lower_u32(req.max_samplers_per_shader_stage, cap.max_samplers_per_shader_stage),
        max_storage_buffers_per_shader_stage: lower_u32(req.max_storage_buffers_per_shader_stage, cap.max_storage_buffers_per_shader_stage),
        max_storage_textures_per_shader_stage: lower_u32(req.max_storage_textures_per_shader_stage, cap.max_storage_textures_per_shader_stage),
        max_uniform_buffers_per_shader_stage: lower_u32(req.max_uniform_buffers_per_shader_stage, cap.max_uniform_buffers_per_shader_stage),
        max_uniform_buffer_binding_size: lower_u32(req.max_uniform_buffer_binding_size, cap.max_uniform_buffer_binding_size),
        max_storage_buffer_binding_size: lower_u32(req.max_storage_buffer_binding_size, cap.max_storage_buffer_binding_size),
        max_vertex_buffers: lower_u32(req.max_vertex_buffers, cap.max_vertex_buffers),
        max_buffer_size: if req.max_buffer_size <= cap.max_buffer_size { req.max_buffer_size } else { cap.max_buffer_size },
        max_vertex_attributes: lower_u32(req.max_vertex_attributes, cap.max_vertex_attributes),
        max_vertex_buffer_array_stride: lower_u32(req.max_vertex_buffer_array_stride, cap.max_vertex_buffer_array_stride),
        min_uniform_buffer_offset_alignment: higher_u32(req.min_uniform_buffer_offset_alignment, cap.min_uniform_buffer_offset_alignment),
        min_storage_buffer_offset_alignment: higher_u32(req.min_storage_buffer_offset_alignment, cap.min_storage_buffer_offset_alignment),
        max_inter_stage_shader_components: lower_u32(req.max_inter_stage_shader_components, cap.max_inter_stage_shader_components),
        max_color_attachments: lower_u32(req.max_color_attachments, cap.max_color_attachments),
        max_color_attachment_bytes_per_sample: lower_u32(req.max_color_attachment_bytes_per_sample, cap.max_color_attachment_bytes_per_sample),
        max_compute_workgroup_storage_size: lower_u32(req.max_compute_workgroup_storage_size, cap.max_compute_workgroup_storage_size),
        max_compute_invocations_per_workgroup: lower_u32(req.max_compute_invocations_per_workgroup, cap.max_compute_invocations_per_workgroup),
        max_compute_workgroup_size_x: lower_u32(req.max_compute_workgroup_size_x, cap.max_compute_workgroup_size_x),
        max_compute_workgroup_size_y: lower_u32(req.max_compute_workgroup_size_y, cap.max_compute_workgroup_size_y),
        max_compute_workgroup_size_z: lower_u32(req.max_compute_workgroup_size_z, cap.max_compute_workgroup_size_z),
        max_compute_workgroups_per_dimension: lower_u32(req.max_compute_workgroups_per_dimension, cap.max_compute_workgroups_per_dimension),
        min_subgroup_size: higher_u32(req.min_subgroup_size, cap.min_subgroup_size),
        max_subgroup_size: lower_u32(req.max_subgroup_size, cap.max_subgroup_size),
        max_push_constant_size: lower_u32(req.max_push_constant_size, cap.max_push_constant_size),
        max_non_sampler_bindings: lower_u32(req.max_non_sampler_bindings, cap.max_non_sampler_bindings),
    }
}

/// The limits to request from an adapter that reports `adapter`, starting from
/// `baseline`: the adapter's texture resolution, and nothing beyond what the
/// adapter supports.
pub fn required_limits(baseline: &wgpu::Limits, adapter: &wgpu::Limits) -> (r: wgpu::Limits)
    ensures
        r == required(*baseline, *adapter),
        within(r, *adapter),
{
    let raised = baseline.clone().using_resolution(adapter.clone());
    clamp_to(&raised, adapter)
}

/// The portable baseline: the limits that every WebGL2 device meets.
pub fn portable_baseline() -> (r: wgpu::Limits)
    ensures
        r.max_uniform_buffers_per_shader_stage == 11,
        r.max_vertex_buffer_array_stride == 255,
        r.max_inter_stage_shader_components == 31,
{
    wgpu::Limits::downlevel_webgl2_defaults()
}

/// A request fitted to an adapter never asks for more than the adapter
/// supports, whatever the baseline.
pub proof fn lemma_required_within(baseline: wgpu::Limits, adapter: wgpu::Limits)
    ensures
        within(required(baseline, adapter), adapter),
{
}

} // verus!
