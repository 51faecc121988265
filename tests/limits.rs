use wgpu_types::Limits;

#[test]
fn limits_cover_themselves() {
    for l in [Limits::defaults(), Limits::downlevel_defaults(), Limits::downlevel_webgl2_defaults()] {
        assert!(l.check_limits(&l));
    }
    let mut odd = Limits::defaults();
    odd.min_subgroup_size = 8;
    odd.max_subgroup_size = 64;
    odd.max_buffer_size = u64::MAX;
    assert!(odd.check_limits(&odd));
}

#[test]
fn larger_alignment_passes() {
    let mut requested = Limits::defaults();
    requested.min_storage_buffer_offset_alignment = 512;
    let allowed = Limits::defaults();
    assert_eq!(allowed.min_storage_buffer_offset_alignment, 256);
    assert!(requested.check_limits(&allowed));
    requested.min_storage_buffer_offset_alignment = 128;
    assert!(!requested.check_limits(&allowed));
    let failures = requested.check_limits_with_fail_fn(&allowed, false);
    assert_eq!(failures.len(), 1);
    assert_eq!(failures[0].name, "min_storage_buffer_offset_alignment");
    assert_eq!((failures[0].requested, failures[0].allowed), (128, 256));
}

#[test]
fn non_fatal_reports_every_failure_in_order() {
    let requested = Limits::defaults();
    let allowed = Limits::downlevel_webgl2_defaults();
    let failures = requested.check_limits_with_fail_fn(&allowed, false);
    let names: Vec<&str> = failures.iter().map(|f| f.name).collect();
    assert_eq!(
        names,
        vec![
            "max_texture_dimension_1d",
            "max_texture_dimension_2d",
            "max_texture_dimension_3d",
            "max_dynamic_storage_buffers_per_pipeline_layout",
            "max_storage_buffers_per_shader_stage",
            "max_storage_textures_per_shader_stage",
            "max_uniform_buffers_per_shader_stage",
            "max_uniform_buffer_binding_size",
            "max_storage_buffer_binding_size",
            "max_vertex_buffer_array_stride",
            "max_inter_stage_shader_components",
            "max_compute_workgroup_storage_size",
            "max_compute_invocations_per_workgroup",
            "max_compute_workgroup_size_x",
            "max_compute_workgroup_size_y",
            "max_compute_workgroup_size_z",
            "max_compute_workgroups_per_dimension",
        ]
    );
    assert_eq!((failures[0].requested, failures[0].allowed), (8192, 2048));
    let fatal = requested.check_limits_with_fail_fn(&allowed, true);
    assert_eq!(fatal.len(), 1);
    assert_eq!(fatal[0].name, "max_texture_dimension_1d");
}

#[test]
fn subgroup_sizes_compared_only_when_both_given() {
    let mut allowed = Limits::defaults();
    allowed.min_subgroup_size = 16;
    allowed.max_subgroup_size = 32;
    let mut requested = Limits::defaults();
    assert!(requested.check_limits(&allowed));
    requested.min_subgroup_size = 8;
    assert!(requested.check_limits(&allowed));
    requested.max_subgroup_size = 64;
    let failures = requested.check_limits_with_fail_fn(&allowed, false);
    let names: Vec<&str> = failures.iter().map(|f| f.name).collect();
    assert_eq!(names, vec!["min_subgroup_size", "max_subgroup_size"]);
}

#[test]
fn limit_presets() {
    let d = Limits::downlevel_defaults();
    assert_eq!(d.max_texture_dimension_2d, 2048);
    assert_eq!(d.max_uniform_buffer_binding_size, 16 << 10);
    assert_eq!(d.max_bind_groups, 4);
    let w = Limits::downlevel_webgl2_defaults();
    assert_eq!(w.max_inter_stage_shader_components, 31);
    assert_eq!(w.max_texture_dimension_2d, 2048);
    assert_eq!(Limits::default(), Limits::defaults());
    assert_eq!(Limits::defaults().max_storage_buffer_binding_size, 128 << 20);
    let r = Limits::defaults().using_resolution(d);
    assert_eq!(r.max_texture_dimension_3d, 256);
    assert_eq!(r.max_storage_buffers_per_shader_stage, 8);
    let mut other = Limits::defaults();
    other.min_uniform_buffer_offset_alignment = 64;
    let a = d.using_alignment(other);
    assert_eq!(a.min_uniform_buffer_offset_alignment, 64);
    assert_eq!(a.max_texture_dimension_1d, 2048);
}
