use vstd::prelude::*;

verus! {

/// Numeric bounds on what a device supports.
///
/// Most limits are maxima, where higher is better; the alignments and the
/// least subgroup size are minima, where lower is better.
#[derive(Clone, Copy, Debug, PartialEq, Eq, Hash, Structural)]
pub struct Limits {
    /// Largest width of a one-dimensional texture.
    pub max_texture_dimension_1d: u32,
    /// Largest width and height of a two-dimensional texture.
    pub max_texture_dimension_2d: u32,
    /// Largest width, height and depth of a three-dimensional texture.
    pub max_texture_dimension_3d: u32,
    /// Largest number of array layers of a two-dimensional texture.
    pub max_texture_array_layers: u32,
    /// Number of bind groups that a pipeline may use at once.
    pub max_bind_groups: u32,
    /// Largest binding index in a bind group layout.
    pub max_bindings_per_bind_group: u32,
    /// Dynamic uniform buffer bindings in one pipeline layout.
    pub max_dynamic_uniform_buffers_per_pipeline_layout: u32,
    /// Dynamic storage buffer bindings in one pipeline layout.
    pub max_dynamic_storage_buffers_per_pipeline_layout: u32,
    /// Sampled textures visible to one shader stage.
    pub max_sampled_textures_per_shader_stage: u32,
    /// Samplers visible to one shader stage.
    pub max_samplers_per_shader_stage: u32,
    /// Storage buffers visible to one shader stage.
    pub max_storage_buffers_per_shader_stage: u32,
    /// Storage textures visible to one shader stage.
    pub max_storage_textures_per_shader_stage: u32,
    /// Uniform buffers visible to one shader stage.
    pub max_uniform_buffers_per_shader_stage: u32,
    /// Largest size in bytes of a uniform buffer binding.
    pub max_uniform_buffer_binding_size: u32,
    /// Largest size in bytes of a storage buffer binding.
    pub max_storage_buffer_binding_size: u32,
    /// Number of vertex buffers of a render pipeline.
    pub max_vertex_buffers: u32,
    /// Largest size in bytes of a buffer.
    pub max_buffer_size: u64,
    /// Number of vertex attributes over all vertex buffers of a render pipeline.
    pub max_vertex_attributes: u32,
    /// Largest array stride of a vertex buffer.
    pub max_vertex_buffer_array_stride: u32,
    /// Alignment of uniform buffer binding offsets; lower is better.
    pub min_uniform_buffer_offset_alignment: u32,
    /// Alignment of storage buffer binding offsets; lower is better.
    pub min_storage_buffer_offset_alignment: u32,
    /// Scalars passed between shader stages.
    pub max_inter_stage_shader_components: u32,
    /// Number of color attachments.
    pub max_color_attachments: u32,
    /// Bytes of one sample over all color attachments.
    pub max_color_attachment_bytes_per_sample: u32,
    /// Bytes of workgroup memory of a compute entry point.
    pub max_compute_workgroup_storage_size: u32,
    /// Invocations in one compute workgroup.
    pub max_compute_invocations_per_workgroup: u32,
    /// Largest x size of a compute workgroup.
    pub max_compute_workgroup_size_x: u32,
    /// Largest y size of a compute workgroup.
    pub max_compute_workgroup_size_y: u32,
    /// Largest z size of a compute workgroup.
    pub max_compute_workgroup_size_z: u32,
    /// Largest number of workgroups in each dimension of a dispatch.
    pub max_compute_workgroups_per_dimension: u32,
    /// Least number of invocations in a subgroup; higher is better.
    pub min_subgroup_size: u32,
    /// Greatest number of invocations in a subgroup; lower is better.
    pub max_subgroup_size: u32,
    /// Bytes of push constant data.
    pub max_push_constant_size: u32,
    /// Bindings other than samplers over all bind groups.
    pub max_non_sampler_bindings: u32,
}

/// One comparison of a requested limit against an allowed one.
#[derive(Clone, Copy, Debug, PartialEq, Eq, Hash)]
pub struct LimitCheck {
    /// The name of the limit.
    pub name: &'static str,
    /// The requested value.
    pub requested: u64,
    /// The allowed value.
    pub allowed: u64,
    /// Whether the requested value must be at most the allowed one (a maximum),
    /// rather than at least it (a minimum).
    pub at_most: bool,
}

/// A limit whose requested value the allowed one does not cover.
#[derive(Clone, Copy, Debug, PartialEq, Eq, Hash)]
pub struct LimitFailure {
    /// The name of the limit.
    pub name: &'static str,
    /// The requested value.
    pub requested: u64,
    /// The allowed value.
    pub allowed: u64,
}

impl LimitCheck {
    /// Whether the requested value is within what is allowed.
    pub open spec fn passes(self) -> bool {
        if self.at_most {
            self.requested <= self.allowed
        } else {
            self.requested >= self.allowed
        }
    }

    /// The failure that this comparison reports.
    pub open spec fn failure(self) -> LimitFailure {
        LimitFailure { name: self.name, requested: self.requested, allowed: self.allowed }
    }
}

/// The failures among `checks`, in order.
pub open spec fn failures_of(checks: Seq<LimitCheck>) -> Seq<LimitFailure>
    decreases checks.len(),
{
    if checks.len() == 0 {
        Seq::empty()
    } else {
        let last = checks.last();
        failures_of(checks.drop_last()) + if last.passes() {
            Seq::<LimitFailure>::empty()
        } else {
            seq![last.failure()]
        }
    }
}

/// The failures of a prefix of `checks` are a prefix of its failures.
proof fn lemma_failures_prefix(checks: Seq<LimitCheck>, j: int)
    requires
        0 <= j <= checks.len(),
    ensures
        failures_of(checks.subrange(0, j)).len() <= failures_of(checks).len(),
        failures_of(checks.subrange(0, j)) == failures_of(checks).subrange(
            0,
            failures_of(checks.subrange(0, j)).len() as int,
        ),
    decreases checks.len(),
{
    if j < checks.len() {
        assert(checks.drop_last().subrange(0, j) =~= checks.subrange(0, j));
        lemma_failures_prefix(checks.drop_last(), j);
        assert(failures_of(checks) =~= failures_of(checks.drop_last()) + if checks.last().passes() {
            Seq::<LimitFailure>::empty()
        } else {
            seq![checks.last().failure()]
        });
    } else {
        assert(checks.subrange(0, j) =~= checks);
    }
}

/// The comparisons report no failure exactly when every one of them passes.
pub proof fn lemma_no_failures_iff_all_pass(checks: Seq<LimitCheck>)
    ensures
        failures_of(checks).len() == 0 <==> forall|i: int|
            0 <= i < checks.len() ==> (#[trigger] checks[i]).passes(),
    decreases checks.len(),
{
    if checks.len() > 0 {
        let init = checks.drop_last();
        lemma_no_failures_iff_all_pass(init);
        if failures_of(checks).len() == 0 {
            assert forall|i: int| 0 <= i < checks.len() implies (#[trigger] checks[i]).passes() by {
                if i < init.len() {
                    assert(init[i] == checks[i]);
                }
            }
        } else if !checks.last().passes() {
            assert(!checks[checks.len() - 1].passes());
        } else {
            let i = choose|i: int| 0 <= i < init.len() && !(#[trigger] init[i]).passes();
            assert(checks[i] == init[i]);
        }
    }
}

/// The comparison of a maximum: the requested value must be at most the allowed one.
pub open spec fn at_most(name: &'static str, requested: u64, allowed: u64) -> LimitCheck {
    LimitCheck { name, requested, allowed, at_most: true }
}

/// The comparison of a minimum: the requested value must be at least the allowed one.
pub open spec fn at_least(name: &'static str, requested: u64, allowed: u64) -> LimitCheck {
    LimitCheck { name, requested, allowed, at_most: false }
}

/// The comparison of a maximum.
fn at_most_check(name: &'static str, requested: u64, allowed: u64) -> (r: LimitCheck)
    ensures
        r == at_most(name, requested, allowed),
{
    LimitCheck { name, requested, allowed, at_most: true }
}

/// The comparison of a minimum.
fn at_least_check(name: &'static str, requested: u64, allowed: u64) -> (r: LimitCheck)
    ensures
        r == at_least(name, requested, allowed),
{
    LimitCheck { name, requested, allowed, at_most: false }
}

impl Limits {
    /// The limits that every device supporting the standard offers.
    pub open spec fn spec_defaults() -> Limits {
        Limits {
            max_texture_dimension_1d: 8192,
            max_texture_dimension_2d: 8192,
            max_texture_dimension_3d: 2048,
            max_texture_array_layers: 256,
            max_bind_groups: 4,
            max_bindings_per_bind_group: 1000,
            max_dynamic_uniform_buffers_per_pipeline_layout: 8,
            max_dynamic_storage_buffers_per_pipeline_layout: 4,
            max_sampled_textures_per_shader_stage: 16,
            max_samplers_per_shader_stage: 16,
            max_storage_buffers_per_shader_stage: 8,
            max_storage_textures_per_shader_stage: 4,
            max_uniform_buffers_per_shader_stage: 12,
            max_uniform_buffer_binding_size: 0x10000,
            max_storage_buffer_binding_size: 0x8000000,
            max_vertex_buffers: 8,
            max_buffer_size: 0x10000000,
            max_vertex_attributes: 16,
            max_vertex_buffer_array_stride: 2048,
            min_uniform_buffer_offset_alignment: 256,
            min_storage_buffer_offset_alignment: 256,
            max_inter_stage_shader_components: 60,
            max_color_attachments: 8,
            max_color_attachment_bytes_per_sample: 32,
            max_compute_workgroup_storage_size: 16384,
            max_compute_invocations_per_workgroup: 256,
            max_compute_workgroup_size_x: 256,
            max_compute_workgroup_size_y: 256,
            max_compute_workgroup_size_z: 64,
            max_compute_workgroups_per_dimension: 65535,
            min_subgroup_size: 0,
            max_subgroup_size: 0,
            max_push_constant_size: 0,
            max_non_sampler_bindings: 1000000,
        }
    }

    /// The limits that every device supporting the standard offers.
    pub fn defaults() -> (r: Self)
        ensures
            r == Self::spec_defaults(),
    {
        Limits {
            max_texture_dimension_1d: 8192,
            max_texture_dimension_2d: 8192,
            max_texture_dimension_3d: 2048,
            max_texture_array_layers: 256,
            max_bind_groups: 4,
            max_bindings_per_bind_group: 1000,
            max_dynamic_uniform_buffers_per_pipeline_layout: 8,
            max_dynamic_storage_buffers_per_pipeline_layout: 4,
            max_sampled_textures_per_shader_stage: 16,
            max_samplers_per_shader_stage: 16,
            max_storage_buffers_per_shader_stage: 8,
            max_storage_textures_per_shader_stage: 4,
            max_uniform_buffers_per_shader_stage: 12,
            max_uniform_buffer_binding_size: 0x10000,
            max_storage_buffer_binding_size: 0x8000000,
            max_vertex_buffers: 8,
            max_buffer_size: 0x10000000,
            max_vertex_attributes: 16,
            max_vertex_buffer_array_stride: 2048,
            min_uniform_buffer_offset_alignment: 256,
            min_storage_buffer_offset_alignment: 256,
            max_inter_stage_shader_components: 60,
            max_color_attachments: 8,
            max_color_attachment_bytes_per_sample: 32,
            max_compute_workgroup_storage_size: 16384,
            max_compute_invocations_per_workgroup: 256,
            max_compute_workgroup_size_x: 256,
            max_compute_workgroup_size_y: 256,
            max_compute_workgroup_size_z: 64,
            max_compute_workgroups_per_dimension: 65535,
            min_subgroup_size: 0,
            max_subgroup_size: 0,
            max_push_constant_size: 0,
            max_non_sampler_bindings: 1000000,
        }
    }

    /// The defaults, lowered to what older hardware offers.
    pub open spec fn spec_downlevel_defaults() -> Limits {
        Limits {
            max_texture_dimension_1d: 2048,
            max_texture_dimension_2d: 2048,
            max_texture_dimension_3d: 256,
            max_storage_buffers_per_shader_stage: 4,
            max_uniform_buffer_binding_size: 0x4000,
            max_compute_workgroup_storage_size: 16352,
            ..Self::spec_defaults()
        }
    }

    /// The defaults, lowered to what older hardware offers.
    pub fn downlevel_defaults() -> (r: Self)
        ensures
            r == Self::spec_downlevel_defaults(),
    {
        Limits {
            max_texture_dimension_1d: 2048,
            max_texture_dimension_2d: 2048,
            max_texture_dimension_3d: 256,
            max_storage_buffers_per_shader_stage: 4,
            max_uniform_buffer_binding_size: 0x4000,
            max_compute_workgroup_storage_size: 16352,
            ..Self::defaults()
        }
    }

    /// The downlevel defaults, lowered further to what WebGL2 offers.
    pub open spec fn spec_downlevel_webgl2_defaults() -> Limits {
        Limits {
            max_uniform_buffers_per_shader_stage: 11,
            max_storage_buffers_per_shader_stage: 0,
            max_storage_textures_per_shader_stage: 0,
            max_dynamic_storage_buffers_per_pipeline_layout: 0,
            max_storage_buffer_binding_size: 0,
            max_vertex_buffer_array_stride: 255,
            max_compute_workgroup_storage_size: 0,
            max_compute_invocations_per_workgroup: 0,
            max_compute_workgroup_size_x: 0,
            max_compute_workgroup_size_y: 0,
            max_compute_workgroup_size_z: 0,
            max_compute_workgroups_per_dimension: 0,
            min_subgroup_size: 0,
            max_subgroup_size: 0,
            max_inter_stage_shader_components: 31,
            ..Self::spec_downlevel_defaults()
        }
    }

    /// The downlevel defaults, lowered further to what WebGL2 offers.
    pub fn downlevel_webgl2_defaults() -> (r: Self)
        ensures
            r == Self::spec_downlevel_webgl2_defaults(),
    {
        Limits {
            max_uniform_buffers_per_shader_stage: 11,
            max_storage_buffers_per_shader_stage: 0,
            max_storage_textures_per_shader_stage: 0,
            max_dynamic_storage_buffers_per_pipeline_layout: 0,
            max_storage_buffer_binding_size: 0,
            max_vertex_buffer_array_stride: 255,
            max_compute_workgroup_storage_size: 0,
            max_compute_invocations_per_workgroup: 0,
            max_compute_workgroup_size_x: 0,
            max_compute_workgroup_size_y: 0,
            max_compute_workgroup_size_z: 0,
            max_compute_workgroups_per_dimension: 0,
            min_subgroup_size: 0,
            max_subgroup_size: 0,
            max_inter_stage_shader_components: 31,
            ..Self::downlevel_defaults()
        }
    }

    /// These limits with the texture dimensions of `other`.
    pub fn using_resolution(self, other: Self) -> (r: Self)
        ensures
            r == (Limits {
                max_texture_dimension_1d: other.max_texture_dimension_1d,
                max_texture_dimension_2d: other.max_texture_dimension_2d,
                max_texture_dimension_3d: other.max_texture_dimension_3d,
                ..self
            }),
    {
        Limits {
            max_texture_dimension_1d: other.max_texture_dimension_1d,
            max_texture_dimension_2d: other.max_texture_dimension_2d,
            max_texture_dimension_3d: other.max_texture_dimension_3d,
            ..self
        }
    }

    /// These limits with the buffer offset alignments of `other`.
    pub fn using_alignment(self, other: Self) -> (r: Self)
        ensures
            r == (Limits {
                min_uniform_buffer_offset_alignment: other.min_uniform_buffer_offset_alignment,
                min_storage_buffer_offset_alignment: other.min_storage_buffer_offset_alignment,
                ..self
            }),
    {
        Limits {
            min_uniform_buffer_offset_alignment: other.min_uniform_buffer_offset_alignment,
            min_storage_buffer_offset_alignment: other.min_storage_buffer_offset_alignment,
            ..self
        }
    }

    /// The comparisons of these requested limits against `allowed`, in order.
    ///
    /// The subgroup sizes are compared only when both requested ones are
    /// non-zero: a zero pair asks for nothing.
    pub open spec fn spec_limit_checks(self, allowed: Limits) -> Seq<LimitCheck> {
        seq![
            at_most("max_texture_dimension_1d", self.max_texture_dimension_1d as u64, allowed.max_texture_dimension_1d as u64),
            at_most("max_texture_dimension_2d", self.max_texture_dimension_2d as u64, allowed.max_texture_dimension_2d as u64),
            at_most("max_texture_dimension_3d", self.max_texture_dimension_3d as u64, allowed.max_texture_dimension_3d as u64),
            at_most("max_texture_array_layers", self.max_texture_array_layers as u64, allowed.max_texture_array_layers as u64),
            at_most("max_bind_groups", self.max_bind_groups as u64, allowed.max_bind_groups as u64),
            at_most("max_bindings_per_bind_group", self.max_bindings_per_bind_group as u64, allowed.max_bindings_per_bind_group as u64),
            at_most("max_dynamic_uniform_buffers_per_pipeline_layout", self.max_dynamic_uniform_buffers_per_pipeline_layout as u64, allowed.max_dynamic_uniform_buffers_per_pipeline_layout as u64),
            at_most("max_dynamic_storage_buffers_per_pipeline_layout", self.max_dynamic_storage_buffers_per_pipeline_layout as u64, allowed.max_dynamic_storage_buffers_per_pipeline_layout as u64),
            at_most("max_sampled_textures_per_shader_stage", self.max_sampled_textures_per_shader_stage as u64, allowed.max_sampled_textures_per_shader_stage as u64),
            at_most("max_samplers_per_shader_stage", self.max_samplers_per_shader_stage as u64, allowed.max_samplers_per_shader_stage as u64),
            at_most("max_storage_buffers_per_shader_stage", self.max_storage_buffers_per_shader_stage as u64, allowed.max_storage_buffers_per_shader_stage as u64),
            at_most("max_storage_textures_per_shader_stage", self.max_storage_textures_per_shader_stage as u64, allowed.max_storage_textures_per_shader_stage as u64),
            at_most("max_uniform_buffers_per_shader_stage", self.max_uniform_buffers_per_shader_stage as u64, allowed.max_uniform_buffers_per_shader_stage as u64),
            at_most("max_uniform_buffer_binding_size", self.max_uniform_buffer_binding_size as u64, allowed.max_uniform_buffer_binding_size as u64),
            at_most("max_storage_buffer_binding_size", self.max_storage_buffer_binding_size as u64, allowed.max_storage_buffer_binding_size as u64),
            at_most("max_vertex_buffers", self.max_vertex_buffers as u64, allowed.max_vertex_buffers as u64),
            at_most("max_buffer_size", self.max_buffer_size, allowed.max_buffer_size),
            at_most("max_vertex_attributes", self.max_vertex_attributes as u64, allowed.max_vertex_attributes as u64),
            at_most("max_vertex_buffer_array_stride", self.max_vertex_buffer_array_stride as u64, allowed.max_vertex_buffer_array_stride as u64),
            at_least("min_uniform_buffer_offset_alignment", self.min_uniform_buffer_offset_alignment as u64, allowed.min_uniform_buffer_offset_alignment as u64),
            at_least("min_storage_buffer_offset_alignment", self.min_storage_buffer_offset_alignment as u64, allowed.min_storage_buffer_offset_alignment as u64),
            at_most("max_inter_stage_shader_components", self.max_inter_stage_shader_components as u64, allowed.max_inter_stage_shader_components as u64),
            at_most("max_color_attachments", self.max_color_attachments as u64, allowed.max_color_attachments as u64),
            at_most("max_color_attachment_bytes_per_sample", self.max_color_attachment_bytes_per_sample as u64, allowed.max_color_attachment_bytes_per_sample as u64),
            at_most("max_compute_workgroup_storage_size", self.max_compute_workgroup_storage_size as u64, allowed.max_compute_workgroup_storage_size as u64),
            at_most("max_compute_invocations_per_workgroup", self.max_compute_invocations_per_workgroup as u64, allowed.max_compute_invocations_per_workgroup as u64),
            at_most("max_compute_workgroup_size_x", self.max_compute_workgroup_size_x as u64, allowed.max_compute_workgroup_size_x as u64),
            at_most("max_compute_workgroup_size_y", self.max_compute_workgroup_size_y as u64, allowed.max_compute_workgroup_size_y as u64),
            at_most("max_compute_workgroup_size_z", self.max_compute_workgroup_size_z as u64, allowed.max_compute_workgroup_size_z as u64),
            at_most("max_compute_workgroups_per_dimension", self.max_compute_workgroups_per_dimension as u64, allowed.max_compute_workgroups_per_dimension as u64),
        ] + if self.min_subgroup_size > 0 && self.max_subgroup_size > 0 {
            seq![
                at_least("min_subgroup_size", self.min_subgroup_size as u64, allowed.min_subgroup_size as u64),
                at_most("max_subgroup_size", self.max_subgroup_size as u64, allowed.max_subgroup_size as u64),
            ]
        } else {
            Seq::empty()
        } + seq![
            at_most("max_push_constant_size", self.max_push_constant_size as u64, allowed.max_push_constant_size as u64),
            at_most("max_non_sampler_bindings", self.max_non_sampler_bindings as u64, allowed.max_non_sampler_bindings as u64),
        ]
    }

    /// The limits that `allowed` does not cover.
    pub open spec fn spec_limit_failures(self, allowed: Limits) -> Seq<LimitFailure> {
        failures_of(self.spec_limit_checks(allowed))
    }

    /// The comparisons of these requested limits against `allowed`, in order.
    pub fn limit_checks(&self, allowed: &Self) -> (r: Vec<LimitCheck>)
        ensures
            r@ == self.spec_limit_checks(*allowed),
    {
        let mut checks: Vec<LimitCheck> = Vec::new();
        checks.push(at_most_check("max_texture_dimension_1d", self.max_texture_dimension_1d as u64, allowed.max_texture_dimension_1d as u64));
        checks.push(at_most_check("max_texture_dimension_2d", self.max_texture_dimension_2d as u64, allowed.max_texture_dimension_2d as u64));
        checks.push(at_most_check("max_texture_dimension_3d", self.max_texture_dimension_3d as u64, allowed.max_texture_dimension_3d as u64));
        checks.push(at_most_check("max_texture_array_layers", self.max_texture_array_layers as u64, allowed.max_texture_array_layers as u64));
        checks.push(at_most_check("max_bind_groups", self.max_bind_groups as u64, allowed.max_bind_groups as u64));
        checks.push(at_most_check("max_bindings_per_bind_group", self.max_bindings_per_bind_group as u64, allowed.max_bindings_per_bind_group as u64));
        checks.push(at_most_check("max_dynamic_uniform_buffers_per_pipeline_layout", self.max_dynamic_uniform_buffers_per_pipeline_layout as u64, allowed.max_dynamic_uniform_buffers_per_pipeline_layout as u64));
        checks.push(at_most_check("max_dynamic_storage_buffers_per_pipeline_layout", self.max_dynamic_storage_buffers_per_pipeline_layout as u64, allowed.max_dynamic_storage_buffers_per_pipeline_layout as u64));
        checks.push(at_most_check("max_sampled_textures_per_shader_stage", self.max_sampled_textures_per_shader_stage as u64, allowed.max_sampled_textures_per_shader_stage as u64));
        checks.push(at_most_check("max_samplers_per_shader_stage", self.max_samplers_per_shader_stage as u64, allowed.max_samplers_per_shader_stage as u64));
        checks.push(at_most_check("max_storage_buffers_per_shader_stage", self.max_storage_buffers_per_shader_stage as u64, allowed.max_storage_buffers_per_shader_stage as u64));
        checks.push(at_most_check("max_storage_textures_per_shader_stage", self.max_storage_textures_per_shader_stage as u64, allowed.max_storage_textures_per_shader_stage as u64));
        checks.push(at_most_check("max_uniform_buffers_per_shader_stage", self.max_uniform_buffers_per_shader_stage as u64, allowed.max_uniform_buffers_per_shader_stage as u64));
        checks.push(at_most_check("max_uniform_buffer_binding_size", self.max_uniform_buffer_binding_size as u64, allowed.max_uniform_buffer_binding_size as u64));
        checks.push(at_most_check("max_storage_buffer_binding_size", self.max_storage_buffer_binding_size as u64, allowed.max_storage_buffer_binding_size as u64));
        checks.push(at_most_check("max_vertex_buffers", self.max_vertex_buffers as u64, allowed.max_vertex_buffers as u64));
        checks.push(at_most_check("max_buffer_size", self.max_buffer_size, allowed.max_buffer_size));
        checks.push(at_most_check("max_vertex_attributes", self.max_vertex_attributes as u64, allowed.max_vertex_attributes as u64));
        checks.push(at_most_check("max_vertex_buffer_array_stride", self.max_vertex_buffer_array_stride as u64, allowed.max_vertex_buffer_array_stride as u64));
        checks.push(at_least_check("min_uniform_buffer_offset_alignment", self.min_uniform_buffer_offset_alignment as u64, allowed.min_uniform_buffer_offset_alignment as u64));
        checks.push(at_least_check("min_storage_buffer_offset_alignment", self.min_storage_buffer_offset_alignment as u64, allowed.min_storage_buffer_offset_alignment as u64));
        checks.push(at_most_check("max_inter_stage_shader_components", self.max_inter_stage_shader_components as u64, allowed.max_inter_stage_shader_components as u64));
        checks.push(at_most_check("max_color_attachments", self.max_color_attachments as u64, allowed.max_color_attachments as u64));
        checks.push(at_most_check("max_color_attachment_bytes_per_sample", self.max_color_attachment_bytes_per_sample as u64, allowed.max_color_attachment_bytes_per_sample as u64));
        checks.push(at_most_check("max_compute_workgroup_storage_size", self.max_compute_workgroup_storage_size as u64, allowed.max_compute_workgroup_storage_size as u64));
        checks.push(at_most_check("max_compute_invocations_per_workgroup", self.max_compute_invocations_per_workgroup as u64, allowed.max_compute_invocations_per_workgroup as u64));
        checks.push(at_most_check("max_compute_workgroup_size_x", self.max_compute_workgroup_size_x as u64, allowed.max_compute_workgroup_size_x as u64));
        checks.push(at_most_check("max_compute_workgroup_size_y", self.max_compute_workgroup_size_y as u64, allowed.max_compute_workgroup_size_y as u64));
        checks.push(at_most_check("max_compute_workgroup_size_z", self.max_compute_workgroup_size_z as u64, allowed.max_compute_workgroup_size_z as u64));
        checks.push(at_most_check("max_compute_workgroups_per_dimension", self.max_compute_workgroups_per_dimension as u64, allowed.max_compute_workgroups_per_dimension as u64));
        if self.min_subgroup_size > 0 && self.max_subgroup_size > 0 {
            checks.push(at_least_check("min_subgroup_size", self.min_subgroup_size as u64, allowed.min_subgroup_size as u64));
            checks.push(at_most_check("max_subgroup_size", self.max_subgroup_size as u64, allowed.max_subgroup_size as u64));
        }
        checks.push(at_most_check("max_push_constant_size", self.max_push_constant_size as u64, allowed.max_push_constant_size as u64));
        checks.push(at_most_check("max_non_sampler_bindings", self.max_non_sampler_bindings as u64, allowed.max_non_sampler_bindings as u64));
        assert(checks@ =~= self.spec_limit_checks(*allowed));
        checks
    }

    /// Compares these requested limits against `allowed`, field by field in a
    /// fixed order, and returns each limit that `allowed` does not cover.
    ///
    /// A maximum fails where the requested value is above the allowed one; a
    /// minimum fails where it is below. When `fatal` holds, the comparison stops
    /// at the first failure.
    pub fn check_limits_with_fail_fn(&self, allowed: &Self, fatal: bool) -> (r: Vec<LimitFailure>)
        ensures
            fatal ==> r@ == self.spec_limit_failures(*allowed).take(
                if self.spec_limit_failures(*allowed).len() == 0 { 0 } else { 1 },
            ),
            !fatal ==> r@ == self.spec_limit_failures(*allowed),
    {
        let checks = self.limit_checks(allowed);
        let mut failures: Vec<LimitFailure> = Vec::new();
        let mut i: usize = 0;
        while i < checks.len()
            invariant
                0 <= i <= checks@.len(),
                checks@ == self.spec_limit_checks(*allowed),
                failures@ == failures_of(checks@.subrange(0, i as int)),
                fatal ==> failures@.len() == 0,
            decreases checks.len() - i,
        {
            let c = checks[i];
            proof {
                assert(checks@.subrange(0, i + 1).drop_last() =~= checks@.subrange(0, i as int));
            }
            let within = if c.at_most {
                c.requested <= c.allowed
            } else {
                c.requested >= c.allowed
            };
            if !within {
                failures.push(LimitFailure { name: c.name, requested: c.requested, allowed: c.allowed });
                if fatal {
                    proof {
                        lemma_failures_prefix(checks@, i + 1);
                    }
                    return failures;
                }
            }
            i = i + 1;
        }
        proof {
            assert(checks@.subrange(0, i as int) =~= checks@);
        }
        failures
    }

    /// Whether `allowed` covers every one of these requested limits.
    pub fn check_limits(&self, allowed: &Self) -> (r: bool)
        ensures
            r == (self.spec_limit_failures(*allowed).len() == 0),
    {
        let failures = self.check_limits_with_fail_fn(allowed, true);
        failures.len() == 0
    }
}

/// Any set of limits covers itself.
pub proof fn lemma_check_limits_reflexive(l: Limits)
    ensures
        l.spec_limit_failures(l).len() == 0,
{
    let checks = l.spec_limit_checks(l);
    assert forall|i: int| 0 <= i < checks.len() implies (#[trigger] checks[i]).passes() by {
    }
    lemma_no_failures_iff_all_pass(checks);
}

impl Default for Limits {
    fn default() -> (r: Self)
        ensures
            r == Limits::spec_defaults(),
    {
        Self::defaults()
    }
}

} // verus!
