use splatter::config::{validate_configuration, Configuration, ConfigurationError, DepthSorting};
use splatter::renderer::Renderer;

fn base_configuration() -> Configuration {
    Configuration {
        surface_configuration: wgpu_types::SurfaceConfiguration {
            usage: wgpu_types::TextureUsages::RENDER_ATTACHMENT,
            format: wgpu_types::TextureFormat::Bgra8UnormSrgb,
            width: 800,
            height: 600,
            present_mode: wgpu_types::PresentMode::Fifo,
            alpha_mode: wgpu_types::CompositeAlphaMode::Auto,
            view_formats: vec![],
        },
        depth_sorting: DepthSorting::Cpu,
        use_covariance_for_scale: false,
        use_unaligned_rectangles: false,
        spherical_harmonics_order: 3,
        max_splat_count: 1000,
        radix_bits_per_digit: 8,
        frustum_culling_tolerance: 1.2f32.to_bits(),
        ellipse_margin: 2.0f32.to_bits(),
        splat_scale: 1.0f32.to_bits(),
        near_plane: 1.0f32.to_bits(),
        far_plane: 1000.0f32.to_bits(),
    }
}

#[test]
fn valid_configuration_layout() {
    let layout = validate_configuration(&base_configuration()).unwrap();
    assert_eq!(layout.radix_base, 256);
    assert_eq!(layout.radix_digit_places, 4);
    assert_eq!(layout.workgroup_entries_a, 1024);
    assert_eq!(layout.workgroup_entries_c, 1024);
    assert_eq!(layout.max_tile_count_c, 1);
    assert_eq!(layout.sorting_buffer_size, 4 * (256 * (4 + 1) + 5));
    assert_eq!(layout.digit_count_size, 1024);
    assert_eq!(layout.entry_buffer_size, 8000);
    assert_eq!(layout.indirect_args_offset(), 5140 - 20);
}

#[test]
fn odd_digit_width_rounds_places_up() {
    let mut c = base_configuration();
    c.radix_bits_per_digit = 3;
    c.max_splat_count = 100_000;
    let layout = validate_configuration(&c).unwrap();
    assert_eq!(layout.radix_base, 8);
    assert_eq!(layout.radix_digit_places, 11);
    assert_eq!(layout.workgroup_entries_c, 32);
    assert_eq!(layout.max_tile_count_c, 3125);
}

#[test]
fn widest_digit_and_largest_capacity() {
    let mut c = base_configuration();
    c.radix_bits_per_digit = 32;
    c.max_splat_count = u32::MAX as usize;
    let layout = validate_configuration(&c).unwrap();
    assert_eq!(layout.radix_base, 1u64 << 32);
    assert_eq!(layout.radix_digit_places, 1);
    assert_eq!(layout.max_tile_count_c, 1);
    assert_eq!(layout.digit_count_size, 4 * (1u64 << 32));
}

#[test]
fn zero_capacity_is_accepted() {
    let mut c = base_configuration();
    c.max_splat_count = 0;
    let layout = validate_configuration(&c).unwrap();
    assert_eq!(layout.max_tile_count_c, 0);
    assert_eq!(layout.digit_count_size, 0);
    assert_eq!(layout.sorting_buffer_size, 4 * (256 * 4 + 5));
}

#[test]
fn near_equal_to_far_is_refused() {
    let mut c = base_configuration();
    c.far_plane = c.near_plane;
    assert!(matches!(Renderer::new(c), Err(ConfigurationError::InvalidClipPlanes)));
}

#[test]
fn near_beyond_far_or_not_positive_is_refused() {
    let mut c = base_configuration();
    c.near_plane = 2000.0f32.to_bits();
    assert_eq!(validate_configuration(&c).unwrap_err(), ConfigurationError::InvalidClipPlanes);
    let mut c = base_configuration();
    c.near_plane = 0.0f32.to_bits();
    assert_eq!(validate_configuration(&c).unwrap_err(), ConfigurationError::InvalidClipPlanes);
    let mut c = base_configuration();
    c.near_plane = (-1.0f32).to_bits();
    assert_eq!(validate_configuration(&c).unwrap_err(), ConfigurationError::InvalidClipPlanes);
    let mut c = base_configuration();
    c.far_plane = f32::INFINITY.to_bits();
    assert_eq!(validate_configuration(&c).unwrap_err(), ConfigurationError::InvalidClipPlanes);
}

#[test]
fn spherical_harmonics_order_above_three_is_refused() {
    let mut c = base_configuration();
    c.spherical_harmonics_order = 4;
    assert_eq!(
        validate_configuration(&c).unwrap_err(),
        ConfigurationError::InvalidSphericalHarmonicsOrder
    );
}

#[test]
fn radix_digit_width_out_of_range_is_refused() {
    let mut c = base_configuration();
    c.radix_bits_per_digit = 0;
    assert_eq!(validate_configuration(&c).unwrap_err(), ConfigurationError::InvalidRadixDigitWidth);
    let mut c = base_configuration();
    c.radix_bits_per_digit = 33;
    assert_eq!(validate_configuration(&c).unwrap_err(), ConfigurationError::InvalidRadixDigitWidth);
}

#[test]
fn tolerance_not_above_one_is_refused() {
    for t in [1.0f32, 0.5, 0.0, -1.5, f32::INFINITY, f32::NAN] {
        let mut c = base_configuration();
        c.frustum_culling_tolerance = t.to_bits();
        assert_eq!(
            validate_configuration(&c).unwrap_err(),
            ConfigurationError::InvalidFrustumCullingTolerance
        );
    }
    let mut c = base_configuration();
    c.frustum_culling_tolerance = 1.0000001f32.to_bits();
    assert!(validate_configuration(&c).is_ok());
}

#[test]
fn capacity_beyond_u32_indices_is_refused() {
    let mut c = base_configuration();
    c.max_splat_count = u32::MAX as usize + 1;
    assert_eq!(validate_configuration(&c).unwrap_err(), ConfigurationError::CapacityTooLarge);
}

#[test]
fn first_broken_rule_is_reported() {
    let mut c = base_configuration();
    c.spherical_harmonics_order = 9;
    c.radix_bits_per_digit = 0;
    c.far_plane = c.near_plane;
    assert_eq!(
        validate_configuration(&c).unwrap_err(),
        ConfigurationError::InvalidSphericalHarmonicsOrder
    );
}
