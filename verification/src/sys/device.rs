//! Records and handle types of the device level.

use vstd::prelude::*;
use crate::sys::common::{VkBool32, VkStructureType};

verus! {

pub type VkDevice = usize;

pub type VkQueue = usize;

/// Fine-grained feature toggles of the device; every field is a 32-bit
/// boolean at the ABI. The default requests no optional feature.
#[derive(Clone, Copy, Debug, PartialEq, Eq, Structural)]
pub struct VkPhysicalDeviceFeatures {
    pub robust_buffer_access: VkBool32,
    pub full_draw_index_uint32: VkBool32,
    pub image_cube_array: VkBool32,
    pub independent_blend: VkBool32,
    pub geometry_shader: VkBool32,
    pub tessellation_shader: VkBool32,
    pub sample_rate_shading: VkBool32,
    pub dual_src_blend: VkBool32,
    pub logic_op: VkBool32,
    pub multi_draw_indirect: VkBool32,
    pub draw_indirect_first_instance: VkBool32,
    pub depth_clamp: VkBool32,
    pub depth_bias_clamp: VkBool32,
    pub fill_mode_non_solid: VkBool32,
    pub depth_bounds: VkBool32,
    pub wide_lines: VkBool32,
    pub large_points: VkBool32,
    pub alpha_to_one: VkBool32,
    pub multi_viewport: VkBool32,
    pub sampler_anisotropy: VkBool32,
    pub texture_compression_etc2: VkBool32,
    pub texture_compression_astc_ldr: VkBool32,
    pub texture_compression_bc: VkBool32,
    pub occlusion_query_precise: VkBool32,
    pub pipeline_statistics_query: VkBool32,
    pub vertex_pipeline_stores_and_atomics: VkBool32,
    pub fragment_stores_and_atomics: VkBool32,
    pub shader_tessellation_and_geometry_point_size: VkBool32,
    pub shader_image_gather_extended: VkBool32,
    pub shader_storage_image_extended_formats: VkBool32,
    pub shader_storage_image_multisample: VkBool32,
    pub shader_storage_image_read_without_format: VkBool32,
    pub shader_storage_image_write_without_format: VkBool32,
    pub shader_uniform_buffer_array_dynamic_indexing: VkBool32,
    pub shader_sampled_image_array_dynamic_indexing: VkBool32,
    pub shader_storage_buffer_array_dynamic_indexing: VkBool32,
    pub shader_storage_image_array_dynamic_indexing: VkBool32,
    pub shader_clip_distance: VkBool32,
    pub shader_cull_distance: VkBool32,
    pub shader_float64: VkBool32,
    pub shader_int64: VkBool32,
    pub shader_int16: VkBool32,
    pub shader_resource_residency: VkBool32,
    pub shader_resource_min_lod: VkBool32,
    pub sparse_binding: VkBool32,
    pub sparse_residency_buffer: VkBool32,
    pub sparse_residency_image2_d: VkBool32,
    pub sparse_residency_image3_d: VkBool32,
    pub sparse_residency2_samples: VkBool32,
    pub sparse_residency4_samples: VkBool32,
    pub sparse_residency8_samples: VkBool32,
    pub sparse_residency16_samples: VkBool32,
    pub sparse_residency_aliased: VkBool32,
    pub variable_multisample_rate: VkBool32,
    pub inherited_queries: VkBool32,
}

impl VkPhysicalDeviceFeatures {
    /// The all-disabled feature set.
    pub open spec fn spec_default() -> VkPhysicalDeviceFeatures {
        VkPhysicalDeviceFeatures {
                robust_buffer_access: VkBool32::False,
                full_draw_index_uint32: VkBool32::False,
                image_cube_array: VkBool32::False,
                independent_blend: VkBool32::False,
                geometry_shader: VkBool32::False,
                tessellation_shader: VkBool32::False,
                sample_rate_shading: VkBool32::False,
                dual_src_blend: VkBool32::False,
                logic_op: VkBool32::False,
                multi_draw_indirect: VkBool32::False,
                draw_indirect_first_instance: VkBool32::False,
                depth_clamp: VkBool32::False,
                depth_bias_clamp: VkBool32::False,
                fill_mode_non_solid: VkBool32::False,
                depth_bounds: VkBool32::False,
                wide_lines: VkBool32::False,
                large_points: VkBool32::False,
                alpha_to_one: VkBool32::False,
                multi_viewport: VkBool32::False,
                sampler_anisotropy: VkBool32::False,
                texture_compression_etc2: VkBool32::False,
                texture_compression_astc_ldr: VkBool32::False,
                texture_compression_bc: VkBool32::False,
                occlusion_query_precise: VkBool32::False,
                pipeline_statistics_query: VkBool32::False,
                vertex_pipeline_stores_and_atomics: VkBool32::False,
                fragment_stores_and_atomics: VkBool32::False,
                shader_tessellation_and_geometry_point_size: VkBool32::False,
                shader_image_gather_extended: VkBool32::False,
                shader_storage_image_extended_formats: VkBool32::False,
                shader_storage_image_multisample: VkBool32::False,
                shader_storage_image_read_without_format: VkBool32::False,
                shader_storage_image_write_without_format: VkBool32::False,
                shader_uniform_buffer_array_dynamic_indexing: VkBool32::False,
                shader_sampled_image_array_dynamic_indexing: VkBool32::False,
                shader_storage_buffer_array_dynamic_indexing: VkBool32::False,
                shader_storage_image_array_dynamic_indexing: VkBool32::False,
                shader_clip_distance: VkBool32::False,
                shader_cull_distance: VkBool32::False,
                shader_float64: VkBool32::False,
                shader_int64: VkBool32::False,
                shader_int16: VkBool32::False,
                shader_resource_residency: VkBool32::False,
                shader_resource_min_lod: VkBool32::False,
                sparse_binding: VkBool32::False,
                sparse_residency_buffer: VkBool32::False,
                sparse_residency_image2_d: VkBool32::False,
                sparse_residency_image3_d: VkBool32::False,
                sparse_residency2_samples: VkBool32::False,
                sparse_residency4_samples: VkBool32::False,
                sparse_residency8_samples: VkBool32::False,
                sparse_residency16_samples: VkBool32::False,
                sparse_residency_aliased: VkBool32::False,
                variable_multisample_rate: VkBool32::False,
                inherited_queries: VkBool32::False,
        }
    }
}

impl Default for VkPhysicalDeviceFeatures {
    fn default() -> (r: Self)
        ensures
            r == VkPhysicalDeviceFeatures::spec_default(),
    {
        VkPhysicalDeviceFeatures {
                robust_buffer_access: VkBool32::False,
                full_draw_index_uint32: VkBool32::False,
                image_cube_array: VkBool32::False,
                independent_blend: VkBool32::False,
                geometry_shader: VkBool32::False,
                tessellation_shader: VkBool32::False,
                sample_rate_shading: VkBool32::False,
                dual_src_blend: VkBool32::False,
                logic_op: VkBool32::False,
                multi_draw_indirect: VkBool32::False,
                draw_indirect_first_instance: VkBool32::False,
                depth_clamp: VkBool32::False,
                depth_bias_clamp: VkBool32::False,
                fill_mode_non_solid: VkBool32::False,
                depth_bounds: VkBool32::False,
                wide_lines: VkBool32::False,
                large_points: VkBool32::False,
                alpha_to_one: VkBool32::False,
                multi_viewport: VkBool32::False,
                sampler_anisotropy: VkBool32::False,
                texture_compression_etc2: VkBool32::False,
                texture_compression_astc_ldr: VkBool32::False,
                texture_compression_bc: VkBool32::False,
                occlusion_query_precise: VkBool32::False,
                pipeline_statistics_query: VkBool32::False,
                vertex_pipeline_stores_and_atomics: VkBool32::False,
                fragment_stores_and_atomics: VkBool32::False,
                shader_tessellation_and_geometry_point_size: VkBool32::False,
                shader_image_gather_extended: VkBool32::False,
                shader_storage_image_extended_formats: VkBool32::False,
                shader_storage_image_multisample: VkBool32::False,
                shader_storage_image_read_without_format: VkBool32::False,
                shader_storage_image_write_without_format: VkBool32::False,
                shader_uniform_buffer_array_dynamic_indexing: VkBool32::False,
                shader_sampled_image_array_dynamic_indexing: VkBool32::False,
                shader_storage_buffer_array_dynamic_indexing: VkBool32::False,
                shader_storage_image_array_dynamic_indexing: VkBool32::False,
                shader_clip_distance: VkBool32::False,
                shader_cull_distance: VkBool32::False,
                shader_float64: VkBool32::False,
                shader_int64: VkBool32::False,
                shader_int16: VkBool32::False,
                shader_resource_residency: VkBool32::False,
                shader_resource_min_lod: VkBool32::False,
                sparse_binding: VkBool32::False,
                sparse_residency_buffer: VkBool32::False,
                sparse_residency_image2_d: VkBool32::False,
                sparse_residency_image3_d: VkBool32::False,
                sparse_residency2_samples: VkBool32::False,
                sparse_residency4_samples: VkBool32::False,
                sparse_residency8_samples: VkBool32::False,
                sparse_residency16_samples: VkBool32::False,
                sparse_residency_aliased: VkBool32::False,
                variable_multisample_rate: VkBool32::False,
                inherited_queries: VkBool32::False,
        }
    }
}

#[derive(Clone, Copy, Debug, PartialEq, Eq, Structural)]
pub enum VkDeviceQueueCreateFlags {
    Reserved,
}

impl VkDeviceQueueCreateFlags {
    /// The only representable value; the ABI reserves the whole word.
    pub fn code(self) -> (c: u32)
        ensures
            c == 0,
    {
        0
    }
}

/// Request record for the queues of one family: how many queues of
/// `queue_family_index` the device is created with. At the ABI the record
/// additionally points at `queue_count` scheduling priorities.
#[derive(Clone, Copy, Debug, PartialEq, Eq, Structural)]
pub struct VkDeviceQueueCreateInfo {
    pub s_type: VkStructureType,
    pub flags: VkDeviceQueueCreateFlags,
    pub queue_family_index: u32,
    pub queue_count: u32,
}

#[derive(Clone, Copy, Debug, PartialEq, Eq, Structural)]
pub enum VkDeviceCreateFlags {
    Reserved,
}

impl VkDeviceCreateFlags {
    /// The only representable value; the ABI reserves the whole word.
    pub fn code(self) -> (c: u32)
        ensures
            c == 0,
    {
        0
    }
}

/// Request record for device creation. The ABI carries each list as a count
/// plus a pointer; the counts are the lengths of the lists held here.
pub struct VkDeviceCreateInfo {
    pub s_type: VkStructureType,
    pub flags: VkDeviceCreateFlags,
    pub p_queue_create_infos: Vec<VkDeviceQueueCreateInfo>,
    pub pp_enabled_layer_names: Vec<String>,
    pub pp_enabled_extension_names: Vec<String>,
    pub p_enabled_features: VkPhysicalDeviceFeatures,
}

} // verus!
