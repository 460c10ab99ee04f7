use vstd::prelude::*;
use vstd::arithmetic::power2::{pow2, lemma_pow2_unfold, lemma_pow2_strictly_increases, lemma2_to64};

verus! {

#[verifier::external_type_specification]
#[verifier::external_body]
pub struct ExTextureFormat(wgpu_types::TextureFormat);

#[verifier::external_type_specification]
#[verifier::external_body]
#[verifier::reject_recursive_types(V)]
pub struct ExSurfaceConfiguration<V>(wgpu_types::SurfaceConfiguration<V>);

/// Bit pattern of the `f32` value `1.0`.
pub const F32_ONE_BITS: u32 = 0x3f80_0000;

/// Bit pattern of `f32::INFINITY`; every finite non-negative `f32` has a smaller pattern.
pub const F32_INFINITY_BITS: u32 = 0x7f80_0000;

/// Width in bits of a depth key.
pub const KEY_BITS: usize = 32;

/// Number of entries each invocation of the histogram kernel handles.
pub const ENTRIES_PER_INVOCATION_A: u64 = 4;

/// Number of entries each invocation of the scatter kernel handles.
pub const ENTRIES_PER_INVOCATION_C: u64 = 4;

/// Size in bytes of one `u32` word in a GPU buffer.
pub const WORD_SIZE: u64 = 4;

/// Number of `u32` words of an indirect draw argument block.
pub const INDIRECT_ARGS_WORDS: u64 = 5;

/// Size in bytes of one sort entry (depth key and splat index).
pub const ENTRY_SIZE: u64 = 8;

/// A finite `f32` that is strictly positive, given as its bit pattern.
/// Between two such patterns the integer order is the order of the values.
pub open spec fn is_positive_finite(bits: u32) -> bool {
    0 < bits < F32_INFINITY_BITS
}

/// Selects how splats are sorted by their distance to the camera.
#[derive(Clone, Copy, Debug, PartialEq, Eq, Structural)]
pub enum DepthSorting {
    /// No sorting at all: splats are drawn in storage order
    Unsorted,
    /// Sorting takes place on the CPU and is copied over to the GPU
    Cpu,
    /// Sorting takes place internally on the GPU
    Gpu,
    /// Like `Gpu`, and additionally skips frustum culled splats by stream compaction
    GpuIndirectDraw,
}

/// Rendering configuration. The `f32` parameters are held as bit patterns.
pub struct Configuration {
    /// Format, size and present mode of the frame buffer surface
    pub surface_configuration: wgpu_types::SurfaceConfiguration<Vec<wgpu_types::TextureFormat>>,
    /// Selects how splats are sorted by their distance to the camera
    pub depth_sorting: DepthSorting,
    /// Uses the parallel projected covariance for decomposition of semi axes
    pub use_covariance_for_scale: bool,
    /// Decomposes the conic sections and renders them as rotated rectangles
    pub use_unaligned_rectangles: bool,
    /// How many spherical harmonics coefficients to use, possible values are 0..=3
    pub spherical_harmonics_order: usize,
    /// Maximum number of splats to allocate memory for
    pub max_splat_count: usize,
    /// How many bits of the key to bin in a single pass. Should be 8
    pub radix_bits_per_digit: usize,
    /// Factor by which the center of a splat can be outside the frustum
    /// without being culled (bits of an `f32` > 1.0)
    pub frustum_culling_tolerance: u32,
    /// Factor by which the rasterized rectangle reaches beyond the ellipse
    /// inside (bits of an `f32`, should be 2.0)
    pub ellipse_margin: u32,
    /// Factor to scale splat ellipsoids with (bits of an `f32`, should be 1.0)
    pub splat_scale: u32,
    /// Distance of the near clipping plane (bits of an `f32`)
    pub near_plane: u32,
    /// Distance of the far clipping plane (bits of an `f32`)
    pub far_plane: u32,
}

/// Why a [`Configuration`] cannot be used.
#[derive(Clone, Copy, Debug, PartialEq, Eq, Structural)]
pub enum ConfigurationError {
    /// `spherical_harmonics_order` is above 3
    InvalidSphericalHarmonicsOrder,
    /// `radix_bits_per_digit` is 0 or wider than a depth key
    InvalidRadixDigitWidth,
    /// the clipping planes do not satisfy `0 < near < far` with both finite
    InvalidClipPlanes,
    /// `frustum_culling_tolerance` is not a finite value above 1.0
    InvalidFrustumCullingTolerance,
    /// `max_splat_count` does not fit the `u32` splat indices
    CapacityTooLarge,
}

/// The first rule that `c` breaks, checked in declaration order of the errors.
pub open spec fn configuration_error(c: &Configuration) -> Option<ConfigurationError> {
    if c.spherical_harmonics_order > 3 {
        Some(ConfigurationError::InvalidSphericalHarmonicsOrder)
    } else if c.radix_bits_per_digit == 0 || c.radix_bits_per_digit > KEY_BITS {
        Some(ConfigurationError::InvalidRadixDigitWidth)
    } else if !(is_positive_finite(c.near_plane) && is_positive_finite(c.far_plane)
        && c.near_plane < c.far_plane) {
        Some(ConfigurationError::InvalidClipPlanes)
    } else if !(F32_ONE_BITS < c.frustum_culling_tolerance < F32_INFINITY_BITS) {
        Some(ConfigurationError::InvalidFrustumCullingTolerance)
    } else if c.max_splat_count > u32::MAX {
        Some(ConfigurationError::CapacityTooLarge)
    } else {
        None
    }
}

/// Sizes and counts of the radix sort buffers, derived from a valid configuration.
#[derive(Clone, Copy, Debug, PartialEq, Eq, Structural)]
pub struct SortLayout {
    /// `2^radix_bits_per_digit`
    pub radix_base: u64,
    /// `ceil(32 / radix_bits_per_digit)`
    pub radix_digit_places: u64,
    /// Entries handled by one workgroup of the histogram kernel
    pub workgroup_entries_a: u64,
    /// Entries handled by one workgroup of the scatter kernel
    pub workgroup_entries_c: u64,
    /// `ceil(max_splat_count / workgroup_entries_c)`
    pub max_tile_count_c: u64,
    /// Bytes of the sorting buffer, the indirect draw arguments at its tail included
    pub sorting_buffer_size: u64,
    /// Bytes of the digit-count region cleared before each scatter pass but the first
    pub digit_count_size: u64,
    /// Bytes of the CPU sort entry buffer
    pub entry_buffer_size: u64,
}

pub open spec fn ceil_div(a: int, b: int) -> int {
    (a + b - 1) / b
}

/// The layout that a configuration with digit width `bits` and capacity `max` gets.
pub open spec fn layout_of(bits: nat, max: nat) -> SortLayout {
    let base = pow2(bits);
    let places = ceil_div(KEY_BITS as int, bits as int);
    let we_a = base * ENTRIES_PER_INVOCATION_A;
    let we_c = base * ENTRIES_PER_INVOCATION_C;
    let tiles = ceil_div(max as int, we_c as int);
    SortLayout {
        radix_base: base as u64,
        radix_digit_places: places as u64,
        workgroup_entries_a: we_a as u64,
        workgroup_entries_c: we_c as u64,
        max_tile_count_c: tiles as u64,
        sorting_buffer_size: (WORD_SIZE * (base * (places + tiles) + INDIRECT_ARGS_WORDS)) as u64,
        digit_count_size: (WORD_SIZE * base * tiles) as u64,
        entry_buffer_size: (ENTRY_SIZE * max) as u64,
    }
}

impl SortLayout {
    /// Byte offset of the indirect draw argument block at the tail of the sorting buffer.
    pub open spec fn indirect_args_offset_spec(&self) -> int {
        self.sorting_buffer_size - WORD_SIZE * INDIRECT_ARGS_WORDS
    }

    /// The values that `layout_of` gives fit in `u64` without wrapping.
    pub open spec fn well_formed(&self) -> bool {
        &&& 1 <= self.radix_base <= 0x1_0000_0000
        &&& 1 <= self.radix_digit_places <= 32
        &&& 1 <= self.workgroup_entries_a <= 0x4_0000_0000
        &&& 1 <= self.workgroup_entries_c <= 0x4_0000_0000
        &&& self.max_tile_count_c <= u32::MAX
        &&& self.sorting_buffer_size >= WORD_SIZE * INDIRECT_ARGS_WORDS
    }

    /// Byte offset of the indirect draw argument block at the tail of the sorting buffer.
    pub fn indirect_args_offset(&self) -> (r: u64)
        requires
            self.well_formed(),
        ensures
            r == self.indirect_args_offset_spec(),
    {
        self.sorting_buffer_size - WORD_SIZE * INDIRECT_ARGS_WORDS
    }
}

/// The digit places of a layout cover every bit of a depth key, and one place
/// fewer would not.
pub proof fn lemma_digit_places_cover_key(bits: nat, max: nat)
    requires
        1 <= bits <= KEY_BITS,
    ensures
        layout_of(bits, max).radix_digit_places * bits >= KEY_BITS,
        (layout_of(bits, max).radix_digit_places - 1) * bits < KEY_BITS,
{
    let places = ceil_div(KEY_BITS as int, bits as int);
    assert(1 <= places <= 32 && places * bits >= 32 && (places - 1) * bits < 32) by (nonlinear_arith)
        requires places == (32 + bits - 1) / (bits as int), 1 <= bits <= 32;
}

/// `2^bits`, for a digit width of at most 32 bits.
fn radix_base_for(bits: usize) -> (r: u64)
    requires
        bits <= 32,
    ensures
        r == pow2(bits as nat),
        1 <= r <= 0x1_0000_0000,
{
    let mut base: u64 = 1;
    let mut i: usize = 0;
    proof {
        lemma2_to64();
    }
    while i < bits
        invariant
            i <= bits <= 32,
            base == pow2(i as nat),
            pow2(32) == 0x1_0000_0000,
        decreases bits - i,
    {
        proof {
            lemma_pow2_unfold((i + 1) as nat);
            if i + 1 < 32 {
                lemma_pow2_strictly_increases((i + 1) as nat, 32);
            }
        }
        base = base * 2;
        i = i + 1;
    }
    proof {
        if bits < 32 {
            lemma_pow2_strictly_increases(bits as nat, 32);
        }
        if bits > 0 {
            lemma_pow2_strictly_increases(0, bits as nat);
        }
    }
    base
}

proof fn lemma_tiles_bound(max: int, base: int, we: int, tiles: int)
    requires
        0 <= max <= u32::MAX,
        1 <= base,
        we == base * 4,
        tiles == ceil_div(max, we),
    ensures
        0 <= tiles <= max,
        4 * base * tiles <= max + 4 * base,
{
    assert(we >= 4) by (nonlinear_arith)
        requires we == base * 4, 1 <= base;
    assert(tiles * we <= max + we - 1 && tiles >= 0) by (nonlinear_arith)
        requires tiles == (max + we - 1) / we, we >= 1, max >= 0;
    assert(tiles <= max) by (nonlinear_arith)
        requires tiles == (max + we - 1) / we, we >= 4, max >= 0;
    assert(4 * base * tiles <= max + 4 * base) by (nonlinear_arith)
        requires tiles * we <= max + we - 1, we == base * 4;
}

/// Checks `config` and derives its sort layout.
pub fn validate_configuration(config: &Configuration) -> (r: Result<SortLayout, ConfigurationError>)
    ensures
        match r {
            Ok(layout) => configuration_error(config) is None
                && layout == layout_of(config.radix_bits_per_digit as nat, config.max_splat_count as nat)
                && layout.well_formed(),
            Err(e) => configuration_error(config) == Some(e),
        },
{
    if config.spherical_harmonics_order > 3 {
        return Err(ConfigurationError::InvalidSphericalHarmonicsOrder);
    }
    let bits = config.radix_bits_per_digit;
    if bits == 0 || bits > KEY_BITS {
        return Err(ConfigurationError::InvalidRadixDigitWidth);
    }
    if !(0 < config.near_plane && config.near_plane < F32_INFINITY_BITS && 0 < config.far_plane
        && config.far_plane < F32_INFINITY_BITS && config.near_plane < config.far_plane) {
        return Err(ConfigurationError::InvalidClipPlanes);
    }
    if !(F32_ONE_BITS < config.frustum_culling_tolerance
        && config.frustum_culling_tolerance < F32_INFINITY_BITS) {
        return Err(ConfigurationError::InvalidFrustumCullingTolerance);
    }
    if config.max_splat_count as u64 > u32::MAX as u64 {
        return Err(ConfigurationError::CapacityTooLarge);
    }
    let max = config.max_splat_count as u64;
    let base = radix_base_for(bits);
    let places = (KEY_BITS as u64 + bits as u64 - 1) / bits as u64;
    assert(1 <= places <= 32) by (nonlinear_arith)
        requires places == (32 + bits - 1) / (bits as int), 1 <= bits <= 32;
    let we_a = base * ENTRIES_PER_INVOCATION_A;
    let we_c = base * ENTRIES_PER_INVOCATION_C;
    let tiles = (max + we_c - 1) / we_c;
    proof {
        lemma_tiles_bound(max as int, base as int, we_c as int, tiles as int);
        assert(base * places <= 32 * 0x1_0000_0000) by (nonlinear_arith)
            requires base <= 0x1_0000_0000, places <= 32;
        assert(base * tiles <= 0x1_4000_0000) by (nonlinear_arith)
            requires 4 * base * tiles <= max + 4 * base, max <= u32::MAX, base <= 0x1_0000_0000;
    }
    let sorting_buffer_size = WORD_SIZE * (base * places + base * tiles + INDIRECT_ARGS_WORDS);
    let digit_count_size = WORD_SIZE * base * tiles;
    let entry_buffer_size = ENTRY_SIZE * max;
    proof {
        assert(base * (places + tiles) == base * places + base * tiles) by (nonlinear_arith);
    }
    Ok(SortLayout {
        radix_base: base,
        radix_digit_places: places,
        workgroup_entries_a: we_a,
        workgroup_entries_c: we_c,
        max_tile_count_c: tiles,
        sorting_buffer_size,
        digit_count_size,
        entry_buffer_size,
    })
}

} // verus!
