use vstd::prelude::*;

verus! {

/// The set of backends that the API may run on.
///
/// The set is held as its bits; a bit that names no flag is kept as it is.
#[derive(Clone, Copy, Debug, PartialEq, Eq, Hash, Structural)]
pub struct Backends {
    /// The raw bits of the set.
    pub bits: u32,
}

impl Backends {
    /// Vulkan.
    pub const VULKAN: u32 = 0x2;

    /// OpenGL and WebGL2.
    pub const GL: u32 = 0x10;

    /// Metal.
    pub const METAL: u32 = 0x4;

    /// Direct3D 12.
    pub const DX12: u32 = 0x8;

    /// WebGPU in the browser.
    pub const BROWSER_WEBGPU: u32 = 0x20;

    /// The backends with first-tier support.
    pub const PRIMARY: u32 = 0x2e;

    /// The backends with second-tier support.
    pub const SECONDARY: u32 = 0x10;

    /// Every bit that names a flag.
    pub const ALL_BITS: u32 = 0x3e;

    /// Whether every bit of `other` is set in `self`.
    pub open spec fn has(self, other: u32) -> bool {
        self.bits & other == other
    }

    /// The empty set.
    pub fn empty() -> (r: Self)
        ensures
            r.bits == 0,
    {
        Self { bits: 0 }
    }

    /// The set of every named flag.
    pub fn all() -> (r: Self)
        ensures
            r.bits == Self::ALL_BITS,
    {
        Self { bits: Self::ALL_BITS }
    }

    /// The set with exactly these bits, named or not.
    pub fn from_bits_retain(bits: u32) -> (r: Self)
        ensures
            r.bits == bits,
    {
        Self { bits }
    }

    /// The set with these bits, less those that name no flag.
    pub fn from_bits_truncate(bits: u32) -> (r: Self)
        ensures
            r.bits == bits & Self::ALL_BITS,
    {
        Self { bits: bits & Self::ALL_BITS }
    }

    /// The raw bits.
    pub fn bits(&self) -> (r: u32)
        ensures
            r == self.bits,
    {
        self.bits
    }

    /// Whether every bit of `other` is set in `self`.
    pub fn contains(&self, other: Self) -> (r: bool)
        ensures
            r == self.has(other.bits),
    {
        self.bits & other.bits == other.bits
    }

    /// The bits of either set.
    pub fn union(self, other: Self) -> (r: Self)
        ensures
            r.bits == self.bits | other.bits,
    {
        Self { bits: self.bits | other.bits }
    }

    /// Sets the bits of `other` when `value` holds, and clears them otherwise.
    pub fn set(&mut self, other: Self, value: bool)
        ensures
            final(self).bits == (if value {
                old(self).bits | other.bits
            } else {
                old(self).bits & !other.bits
            }),
    {
        if value {
            self.bits = self.bits | other.bits;
        } else {
            self.bits = self.bits & !other.bits;
        }
    }

    /// Whether a bit is set that names no flag.
    pub fn contains_invalid_bits(&self) -> (r: bool)
        ensures
            r == (self.bits | Self::ALL_BITS != Self::ALL_BITS),
    {
        self.bits | Self::ALL_BITS != Self::ALL_BITS
    }
}

/// Optional capabilities that a device may enable.
///
/// The set is held as its bits; a bit that names no flag is kept as it is.
#[derive(Clone, Copy, Debug, Default, PartialEq, Eq, Hash, Structural)]
pub struct Features {
    /// The raw bits of the set.
    pub bits: u64,
}

impl Features {
    /// The bit of `DEPTH_CLIP_CONTROL`.
    pub const DEPTH_CLIP_CONTROL: u64 = 0x1;

    /// The bit of `DEPTH32FLOAT_STENCIL8`.
    pub const DEPTH32FLOAT_STENCIL8: u64 = 0x2;

    /// The bit of `TEXTURE_COMPRESSION_BC`.
    pub const TEXTURE_COMPRESSION_BC: u64 = 0x4;

    /// The bit of `TEXTURE_COMPRESSION_BC_SLICED_3D`.
    pub const TEXTURE_COMPRESSION_BC_SLICED_3D: u64 = 0x8;

    /// The bit of `TEXTURE_COMPRESSION_ETC2`.
    pub const TEXTURE_COMPRESSION_ETC2: u64 = 0x10;

    /// The bit of `TEXTURE_COMPRESSION_ASTC`.
    pub const TEXTURE_COMPRESSION_ASTC: u64 = 0x20;

    /// The bit of `TIMESTAMP_QUERY`.
    pub const TIMESTAMP_QUERY: u64 = 0x40;

    /// The bit of `INDIRECT_FIRST_INSTANCE`.
    pub const INDIRECT_FIRST_INSTANCE: u64 = 0x80;

    /// The bit of `SHADER_F16`.
    pub const SHADER_F16: u64 = 0x100;

    /// The bit of `RG11B10UFLOAT_RENDERABLE`.
    pub const RG11B10UFLOAT_RENDERABLE: u64 = 0x200;

    /// The bit of `BGRA8UNORM_STORAGE`.
    pub const BGRA8UNORM_STORAGE: u64 = 0x400;

    /// The bit of `FLOAT32_FILTERABLE`.
    pub const FLOAT32_FILTERABLE: u64 = 0x800;

    /// The bit of `TEXTURE_FORMAT_16BIT_NORM`.
    pub const TEXTURE_FORMAT_16BIT_NORM: u64 = 0x100000;

    /// The bit of `TEXTURE_COMPRESSION_ASTC_HDR`.
    pub const TEXTURE_COMPRESSION_ASTC_HDR: u64 = 0x200000;

    /// The bit of `TEXTURE_ADAPTER_SPECIFIC_FORMAT_FEATURES`.
    pub const TEXTURE_ADAPTER_SPECIFIC_FORMAT_FEATURES: u64 = 0x400000;

    /// The bit of `PIPELINE_STATISTICS_QUERY`.
    pub const PIPELINE_STATISTICS_QUERY: u64 = 0x800000;

    /// The bit of `TIMESTAMP_QUERY_INSIDE_ENCODERS`.
    pub const TIMESTAMP_QUERY_INSIDE_ENCODERS: u64 = 0x1000000;

    /// The bit of `TIMESTAMP_QUERY_INSIDE_PASSES`.
    pub const TIMESTAMP_QUERY_INSIDE_PASSES: u64 = 0x2000000;

    /// The bit of `MAPPABLE_PRIMARY_BUFFERS`.
    pub const MAPPABLE_PRIMARY_BUFFERS: u64 = 0x4000000;

    /// The bit of `TEXTURE_BINDING_ARRAY`.
    pub const TEXTURE_BINDING_ARRAY: u64 = 0x8000000;

    /// The bit of `BUFFER_BINDING_ARRAY`.
    pub const BUFFER_BINDING_ARRAY: u64 = 0x10000000;

    /// The bit of `STORAGE_RESOURCE_BINDING_ARRAY`.
    pub const STORAGE_RESOURCE_BINDING_ARRAY: u64 = 0x20000000;

    /// The bit of `SAMPLED_TEXTURE_AND_STORAGE_BUFFER_ARRAY_NON_UNIFORM_INDEXING`.
    pub const SAMPLED_TEXTURE_AND_STORAGE_BUFFER_ARRAY_NON_UNIFORM_INDEXING: u64 = 0x40000000;

    /// The bit of `UNIFORM_BUFFER_AND_STORAGE_TEXTURE_ARRAY_NON_UNIFORM_INDEXING`.
    pub const UNIFORM_BUFFER_AND_STORAGE_TEXTURE_ARRAY_NON_UNIFORM_INDEXING: u64 = 0x80000000;

    /// The bit of `PARTIALLY_BOUND_BINDING_ARRAY`.
    pub const PARTIALLY_BOUND_BINDING_ARRAY: u64 = 0x100000000;

    /// The bit of `MULTI_DRAW_INDIRECT`.
    pub const MULTI_DRAW_INDIRECT: u64 = 0x200000000;

    /// The bit of `MULTI_DRAW_INDIRECT_COUNT`.
    pub const MULTI_DRAW_INDIRECT_COUNT: u64 = 0x400000000;

    /// The bit of `PUSH_CONSTANTS`.
    pub const PUSH_CONSTANTS: u64 = 0x800000000;

    /// The bit of `ADDRESS_MODE_CLAMP_TO_ZERO`.
    pub const ADDRESS_MODE_CLAMP_TO_ZERO: u64 = 0x1000000000;

    /// The bit of `ADDRESS_MODE_CLAMP_TO_BORDER`.
    pub const ADDRESS_MODE_CLAMP_TO_BORDER: u64 = 0x2000000000;

    /// The bit of `POLYGON_MODE_LINE`.
    pub const POLYGON_MODE_LINE: u64 = 0x4000000000;

    /// The bit of `POLYGON_MODE_POINT`.
    pub const POLYGON_MODE_POINT: u64 = 0x8000000000;

    /// The bit of `CONSERVATIVE_RASTERIZATION`.
    pub const CONSERVATIVE_RASTERIZATION: u64 = 0x10000000000;

    /// The bit of `VERTEX_WRITABLE_STORAGE`.
    pub const VERTEX_WRITABLE_STORAGE: u64 = 0x20000000000;

    /// The bit of `CLEAR_TEXTURE`.
    pub const CLEAR_TEXTURE: u64 = 0x40000000000;

    /// The bit of `SPIRV_SHADER_PASSTHROUGH`.
    pub const SPIRV_SHADER_PASSTHROUGH: u64 = 0x80000000000;

    /// The bit of `MULTIVIEW`.
    pub const MULTIVIEW: u64 = 0x100000000000;

    /// The bit of `VERTEX_ATTRIBUTE_64BIT`.
    pub const VERTEX_ATTRIBUTE_64BIT: u64 = 0x200000000000;

    /// The bit of `TEXTURE_FORMAT_NV12`.
    pub const TEXTURE_FORMAT_NV12: u64 = 0x800000000000;

    /// The bit of `EXPERIMENTAL_RAY_TRACING_ACCELERATION_STRUCTURE`.
    pub const EXPERIMENTAL_RAY_TRACING_ACCELERATION_STRUCTURE: u64 = 0x1000000000000;

    /// The bit of `EXPERIMENTAL_RAY_QUERY`.
    pub const EXPERIMENTAL_RAY_QUERY: u64 = 0x2000000000000;

    /// The bit of `SHADER_F64`.
    pub const SHADER_F64: u64 = 0x4000000000000;

    /// The bit of `SHADER_I16`.
    pub const SHADER_I16: u64 = 0x8000000000000;

    /// The bit of `SHADER_PRIMITIVE_INDEX`.
    pub const SHADER_PRIMITIVE_INDEX: u64 = 0x10000000000000;

    /// The bit of `SHADER_EARLY_DEPTH_TEST`.
    pub const SHADER_EARLY_DEPTH_TEST: u64 = 0x20000000000000;

    /// The bit of `DUAL_SOURCE_BLENDING`.
    pub const DUAL_SOURCE_BLENDING: u64 = 0x40000000000000;

    /// The bit of `SHADER_INT64`.
    pub const SHADER_INT64: u64 = 0x80000000000000;

    /// The bit of `SUBGROUP`.
    pub const SUBGROUP: u64 = 0x100000000000000;

    /// The bit of `SUBGROUP_VERTEX`.
    pub const SUBGROUP_VERTEX: u64 = 0x200000000000000;

    /// The bit of `SUBGROUP_BARRIER`.
    pub const SUBGROUP_BARRIER: u64 = 0x400000000000000;

    /// The bit of `PIPELINE_CACHE`.
    pub const PIPELINE_CACHE: u64 = 0x800000000000000;

    /// The bit of `SHADER_INT64_ATOMIC_MIN_MAX`.
    pub const SHADER_INT64_ATOMIC_MIN_MAX: u64 = 0x1000000000000000;

    /// The bit of `SHADER_INT64_ATOMIC_ALL_OPS`.
    pub const SHADER_INT64_ATOMIC_ALL_OPS: u64 = 0x2000000000000000;

    /// The bit of `VULKAN_GOOGLE_DISPLAY_TIMING`.
    pub const VULKAN_GOOGLE_DISPLAY_TIMING: u64 = 0x4000000000000000;

    /// Every bit that names a flag.
    pub const ALL_BITS: u64 = 0x7fffbffffff00fff;

    /// Whether every bit of `other` is set in `self`.
    pub open spec fn has(self, other: u64) -> bool {
        self.bits & other == other
    }

    /// The empty set.
    pub fn empty() -> (r: Self)
        ensures
            r.bits == 0,
    {
        Self { bits: 0 }
    }

    /// The set of every named flag.
    pub fn all() -> (r: Self)
        ensures
            r.bits == Self::ALL_BITS,
    {
        Self { bits: Self::ALL_BITS }
    }

    /// The set with exactly these bits, named or not.
    pub fn from_bits_retain(bits: u64) -> (r: Self)
        ensures
            r.bits == bits,
    {
        Self { bits }
    }

    /// The set with these bits, less those that name no flag.
    pub fn from_bits_truncate(bits: u64) -> (r: Self)
        ensures
            r.bits == bits & Self::ALL_BITS,
    {
        Self { bits: bits & Self::ALL_BITS }
    }

    /// The raw bits.
    pub fn bits(&self) -> (r: u64)
        ensures
            r == self.bits,
    {
        self.bits
    }

    /// Whether every bit of `other` is set in `self`.
    pub fn contains(&self, other: Self) -> (r: bool)
        ensures
            r == self.has(other.bits),
    {
        self.bits & other.bits == other.bits
    }

    /// The bits of either set.
    pub fn union(self, other: Self) -> (r: Self)
        ensures
            r.bits == self.bits | other.bits,
    {
        Self { bits: self.bits | other.bits }
    }

    /// Sets the bits of `other` when `value` holds, and clears them otherwise.
    pub fn set(&mut self, other: Self, value: bool)
        ensures
            final(self).bits == (if value {
                old(self).bits | other.bits
            } else {
                old(self).bits & !other.bits
            }),
    {
        if value {
            self.bits = self.bits | other.bits;
        } else {
            self.bits = self.bits & !other.bits;
        }
    }

    /// Whether a bit is set that names no flag.
    pub fn contains_invalid_bits(&self) -> (r: bool)
        ensures
            r == (self.bits | Self::ALL_BITS != Self::ALL_BITS),
    {
        self.bits | Self::ALL_BITS != Self::ALL_BITS
    }
}

/// Options for creating an instance.
///
/// The set is held as its bits; a bit that names no flag is kept as it is.
#[derive(Clone, Copy, Debug, PartialEq, Eq, Hash, Structural)]
pub struct InstanceFlags {
    /// The raw bits of the set.
    pub bits: u32,
}

impl InstanceFlags {
    /// Generate debug information in shaders and objects.
    pub const DEBUG: u32 = 0x1;

    /// Enable validation, if possible.
    pub const VALIDATION: u32 = 0x2;

    /// Do not pass labels to the platform API.
    pub const DISCARD_HAL_LABELS: u32 = 0x4;

    /// Expose adapters that are not fully compliant.
    pub const ALLOW_UNDERLYING_NONCOMPLIANT_ADAPTER: u32 = 0x8;

    /// Enable GPU-based validation.
    pub const GPU_BASED_VALIDATION: u32 = 0x10;

    /// Every bit that names a flag.
    pub const ALL_BITS: u32 = 0x1f;

    /// Whether every bit of `other` is set in `self`.
    pub open spec fn has(self, other: u32) -> bool {
        self.bits & other == other
    }

    /// The empty set.
    pub fn empty() -> (r: Self)
        ensures
            r.bits == 0,
    {
        Self { bits: 0 }
    }

    /// The set of every named flag.
    pub fn all() -> (r: Self)
        ensures
            r.bits == Self::ALL_BITS,
    {
        Self { bits: Self::ALL_BITS }
    }

    /// The set with exactly these bits, named or not.
    pub fn from_bits_retain(bits: u32) -> (r: Self)
        ensures
            r.bits == bits,
    {
        Self { bits }
    }

    /// The set with these bits, less those that name no flag.
    pub fn from_bits_truncate(bits: u32) -> (r: Self)
        ensures
            r.bits == bits & Self::ALL_BITS,
    {
        Self { bits: bits & Self::ALL_BITS }
    }

    /// The raw bits.
    pub fn bits(&self) -> (r: u32)
        ensures
            r == self.bits,
    {
        self.bits
    }

    /// Whether every bit of `other` is set in `self`.
    pub fn contains(&self, other: Self) -> (r: bool)
        ensures
            r == self.has(other.bits),
    {
        self.bits & other.bits == other.bits
    }

    /// The bits of either set.
    pub fn union(self, other: Self) -> (r: Self)
        ensures
            r.bits == self.bits | other.bits,
    {
        Self { bits: self.bits | other.bits }
    }

    /// Sets the bits of `other` when `value` holds, and clears them otherwise.
    pub fn set(&mut self, other: Self, value: bool)
        ensures
            final(self).bits == (if value {
                old(self).bits | other.bits
            } else {
                old(self).bits & !other.bits
            }),
    {
        if value {
            self.bits = self.bits | other.bits;
        } else {
            self.bits = self.bits & !other.bits;
        }
    }

    /// Whether a bit is set that names no flag.
    pub fn contains_invalid_bits(&self) -> (r: bool)
        ensures
            r == (self.bits | Self::ALL_BITS != Self::ALL_BITS),
    {
        self.bits | Self::ALL_BITS != Self::ALL_BITS
    }
}

/// Capabilities that a downlevel device may lack.
///
/// The set is held as its bits; a bit that names no flag is kept as it is.
#[derive(Clone, Copy, Debug, PartialEq, Eq, Hash, Structural)]
pub struct DownlevelFlags {
    /// The raw bits of the set.
    pub bits: u32,
}

impl DownlevelFlags {
    /// Compute shaders are supported.
    pub const COMPUTE_SHADERS: u32 = 0x1;

    /// Fragment shaders may write storage.
    pub const FRAGMENT_WRITABLE_STORAGE: u32 = 0x2;

    /// Indirect draws and dispatches are supported.
    pub const INDIRECT_EXECUTION: u32 = 0x4;

    /// Base vertex and instance are supported.
    pub const BASE_VERTEX: u32 = 0x8;

    /// Read-only depth-stencil attachments are supported.
    pub const READ_ONLY_DEPTH_STENCIL: u32 = 0x10;

    /// Mipmapped textures need not have power-of-two sizes.
    pub const NON_POWER_OF_TWO_MIPMAPPED_TEXTURES: u32 = 0x20;

    /// Cube array textures are supported.
    pub const CUBE_ARRAY_TEXTURES: u32 = 0x40;

    /// Comparison samplers are supported.
    pub const COMPARISON_SAMPLERS: u32 = 0x80;

    /// Blend state may differ per color target.
    pub const INDEPENDENT_BLEND: u32 = 0x100;

    /// Vertex shaders may use storage.
    pub const VERTEX_STORAGE: u32 = 0x200;

    /// Anisotropic filtering is supported.
    pub const ANISOTROPIC_FILTERING: u32 = 0x400;

    /// Fragment shaders may use storage.
    pub const FRAGMENT_STORAGE: u32 = 0x800;

    /// Per-sample shading is supported.
    pub const MULTISAMPLED_SHADING: u32 = 0x1000;

    /// Depth textures can be copied to and from buffers.
    pub const DEPTH_TEXTURE_AND_BUFFER_COPIES: u32 = 0x2000;

    /// Texture formats behave as the standard says.
    pub const WEBGPU_TEXTURE_FORMAT_SUPPORT: u32 = 0x4000;

    /// Buffer bindings need not be 16-byte aligned.
    pub const BUFFER_BINDINGS_NOT_16_BYTE_ALIGNED: u32 = 0x8000;

    /// Index buffers may be used as other kinds of buffer.
    pub const UNRESTRICTED_INDEX_BUFFER: u32 = 0x10000;

    /// Full 32-bit index values are supported.
    pub const FULL_DRAW_INDEX_UINT32: u32 = 0x20000;

    /// Depth bias clamping is supported.
    pub const DEPTH_BIAS_CLAMP: u32 = 0x40000;

    /// View formats are supported.
    pub const VIEW_FORMATS: u32 = 0x80000;

    /// External texture copies are unrestricted.
    pub const UNRESTRICTED_EXTERNAL_TEXTURE_COPIES: u32 = 0x100000;

    /// Surface view formats are supported.
    pub const SURFACE_VIEW_FORMATS: u32 = 0x200000;

    /// Query resolution does not block.
    pub const NONBLOCKING_QUERY_RESOLVE: u32 = 0x400000;

    /// Indirect draws honour the first vertex and instance.
    pub const VERTEX_AND_INSTANCE_INDEX_RESPECTS_RESPECTIVE_FIRST_VALUE_IN_INDIRECT_DRAW: u32 = 0x800000;

    /// Every bit that names a flag.
    pub const ALL_BITS: u32 = 0xffffff;

    /// Whether every bit of `other` is set in `self`.
    pub open spec fn has(self, other: u32) -> bool {
        self.bits & other == other
    }

    /// The empty set.
    pub fn empty() -> (r: Self)
        ensures
            r.bits == 0,
    {
        Self { bits: 0 }
    }

    /// The set of every named flag.
    pub fn all() -> (r: Self)
        ensures
            r.bits == Self::ALL_BITS,
    {
        Self { bits: Self::ALL_BITS }
    }

    /// The set with exactly these bits, named or not.
    pub fn from_bits_retain(bits: u32) -> (r: Self)
        ensures
            r.bits == bits,
    {
        Self { bits }
    }

    /// The set with these bits, less those that name no flag.
    pub fn from_bits_truncate(bits: u32) -> (r: Self)
        ensures
            r.bits == bits & Self::ALL_BITS,
    {
        Self { bits: bits & Self::ALL_BITS }
    }

    /// The raw bits.
    pub fn bits(&self) -> (r: u32)
        ensures
            r == self.bits,
    {
        self.bits
    }

    /// Whether every bit of `other` is set in `self`.
    pub fn contains(&self, other: Self) -> (r: bool)
        ensures
            r == self.has(other.bits),
    {
        self.bits & other.bits == other.bits
    }

    /// The bits of either set.
    pub fn union(self, other: Self) -> (r: Self)
        ensures
            r.bits == self.bits | other.bits,
    {
        Self { bits: self.bits | other.bits }
    }

    /// Sets the bits of `other` when `value` holds, and clears them otherwise.
    pub fn set(&mut self, other: Self, value: bool)
        ensures
            final(self).bits == (if value {
                old(self).bits | other.bits
            } else {
                old(self).bits & !other.bits
            }),
    {
        if value {
            self.bits = self.bits | other.bits;
        } else {
            self.bits = self.bits & !other.bits;
        }
    }

    /// Whether a bit is set that names no flag.
    pub fn contains_invalid_bits(&self) -> (r: bool)
        ensures
            r == (self.bits | Self::ALL_BITS != Self::ALL_BITS),
    {
        self.bits | Self::ALL_BITS != Self::ALL_BITS
    }
}

/// The shader stages that a binding is visible to.
///
/// The set is held as its bits; a bit that names no flag is kept as it is.
#[derive(Clone, Copy, Debug, PartialEq, Eq, Hash, Structural)]
pub struct ShaderStages {
    /// The raw bits of the set.
    pub bits: u32,
}

impl ShaderStages {
    /// The vertex stage.
    pub const VERTEX: u32 = 0x1;

    /// The fragment stage.
    pub const FRAGMENT: u32 = 0x2;

    /// The compute stage.
    pub const COMPUTE: u32 = 0x4;

    /// No stage.
    pub const NONE: u32 = 0x0;

    /// The vertex and fragment stages.
    pub const VERTEX_FRAGMENT: u32 = 0x3;

    /// Every bit that names a flag.
    pub const ALL_BITS: u32 = 0x7;

    /// Whether every bit of `other` is set in `self`.
    pub open spec fn has(self, other: u32) -> bool {
        self.bits & other == other
    }

    /// The empty set.
    pub fn empty() -> (r: Self)
        ensures
            r.bits == 0,
    {
        Self { bits: 0 }
    }

    /// The set of every named flag.
    pub fn all() -> (r: Self)
        ensures
            r.bits == Self::ALL_BITS,
    {
        Self { bits: Self::ALL_BITS }
    }

    /// The set with exactly these bits, named or not.
    pub fn from_bits_retain(bits: u32) -> (r: Self)
        ensures
            r.bits == bits,
    {
        Self { bits }
    }

    /// The set with these bits, less those that name no flag.
    pub fn from_bits_truncate(bits: u32) -> (r: Self)
        ensures
            r.bits == bits & Self::ALL_BITS,
    {
        Self { bits: bits & Self::ALL_BITS }
    }

    /// The raw bits.
    pub fn bits(&self) -> (r: u32)
        ensures
            r == self.bits,
    {
        self.bits
    }

    /// Whether every bit of `other` is set in `self`.
    pub fn contains(&self, other: Self) -> (r: bool)
        ensures
            r == self.has(other.bits),
    {
        self.bits & other.bits == other.bits
    }

    /// The bits of either set.
    pub fn union(self, other: Self) -> (r: Self)
        ensures
            r.bits == self.bits | other.bits,
    {
        Self { bits: self.bits | other.bits }
    }

    /// Sets the bits of `other` when `value` holds, and clears them otherwise.
    pub fn set(&mut self, other: Self, value: bool)
        ensures
            final(self).bits == (if value {
                old(self).bits | other.bits
            } else {
                old(self).bits & !other.bits
            }),
    {
        if value {
            self.bits = self.bits | other.bits;
        } else {
            self.bits = self.bits & !other.bits;
        }
    }

    /// Whether a bit is set that names no flag.
    pub fn contains_invalid_bits(&self) -> (r: bool)
        ensures
            r == (self.bits | Self::ALL_BITS != Self::ALL_BITS),
    {
        self.bits | Self::ALL_BITS != Self::ALL_BITS
    }
}

/// What a texture format supports beyond its usages.
///
/// The set is held as its bits; a bit that names no flag is kept as it is.
#[derive(Clone, Copy, Debug, PartialEq, Eq, Hash, Structural)]
pub struct TextureFormatFeatureFlags {
    /// The raw bits of the set.
    pub bits: u32,
}

impl TextureFormatFeatureFlags {
    /// Can be sampled with a filtering sampler.
    pub const FILTERABLE: u32 = 0x1;

    /// Allows two samples.
    pub const MULTISAMPLE_X2: u32 = 0x2;

    /// Allows four samples.
    pub const MULTISAMPLE_X4: u32 = 0x4;

    /// Allows eight samples.
    pub const MULTISAMPLE_X8: u32 = 0x8;

    /// Allows sixteen samples.
    pub const MULTISAMPLE_X16: u32 = 0x10;

    /// Multisampled content can be resolved into it.
    pub const MULTISAMPLE_RESOLVE: u32 = 0x20;

    /// Storage bindings may be read and written.
    pub const STORAGE_READ_WRITE: u32 = 0x40;

    /// Can be blended into.
    pub const BLENDABLE: u32 = 0x80;

    /// Every bit that names a flag.
    pub const ALL_BITS: u32 = 0xff;

    /// Whether every bit of `other` is set in `self`.
    pub open spec fn has(self, other: u32) -> bool {
        self.bits & other == other
    }

    /// The empty set.
    pub fn empty() -> (r: Self)
        ensures
            r.bits == 0,
    {
        Self { bits: 0 }
    }

    /// The set of every named flag.
    pub fn all() -> (r: Self)
        ensures
            r.bits == Self::ALL_BITS,
    {
        Self { bits: Self::ALL_BITS }
    }

    /// The set with exactly these bits, named or not.
    pub fn from_bits_retain(bits: u32) -> (r: Self)
        ensures
            r.bits == bits,
    {
        Self { bits }
    }

    /// The set with these bits, less those that name no flag.
    pub fn from_bits_truncate(bits: u32) -> (r: Self)
        ensures
            r.bits == bits & Self::ALL_BITS,
    {
        Self { bits: bits & Self::ALL_BITS }
    }

    /// The raw bits.
    pub fn bits(&self) -> (r: u32)
        ensures
            r == self.bits,
    {
        self.bits
    }

    /// Whether every bit of `other` is set in `self`.
    pub fn contains(&self, other: Self) -> (r: bool)
        ensures
            r == self.has(other.bits),
    {
        self.bits & other.bits == other.bits
    }

    /// The bits of either set.
    pub fn union(self, other: Self) -> (r: Self)
        ensures
            r.bits == self.bits | other.bits,
    {
        Self { bits: self.bits | other.bits }
    }

    /// Sets the bits of `other` when `value` holds, and clears them otherwise.
    pub fn set(&mut self, other: Self, value: bool)
        ensures
            final(self).bits == (if value {
                old(self).bits | other.bits
            } else {
                old(self).bits & !other.bits
            }),
    {
        if value {
            self.bits = self.bits | other.bits;
        } else {
            self.bits = self.bits & !other.bits;
        }
    }

    /// Whether a bit is set that names no flag.
    pub fn contains_invalid_bits(&self) -> (r: bool)
        ensures
            r == (self.bits | Self::ALL_BITS != Self::ALL_BITS),
    {
        self.bits | Self::ALL_BITS != Self::ALL_BITS
    }
}

/// The color channels that a render target writes.
///
/// The set is held as its bits; a bit that names no flag is kept as it is.
#[derive(Clone, Copy, Debug, PartialEq, Eq, Hash, Structural)]
pub struct ColorWrites {
    /// The raw bits of the set.
    pub bits: u32,
}

impl ColorWrites {
    /// The red channel.
    pub const RED: u32 = 0x1;

    /// The green channel.
    pub const GREEN: u32 = 0x2;

    /// The blue channel.
    pub const BLUE: u32 = 0x4;

    /// The alpha channel.
    pub const ALPHA: u32 = 0x8;

    /// The three color channels.
    pub const COLOR: u32 = 0x7;

    /// Every channel.
    pub const ALL: u32 = 0xf;

    /// Every bit that names a flag.
    pub const ALL_BITS: u32 = 0xf;

    /// Whether every bit of `other` is set in `self`.
    pub open spec fn has(self, other: u32) -> bool {
        self.bits & other == other
    }

    /// The empty set.
    pub fn empty() -> (r: Self)
        ensures
            r.bits == 0,
    {
        Self { bits: 0 }
    }

    /// The set of every named flag.
    pub fn all() -> (r: Self)
        ensures
            r.bits == Self::ALL_BITS,
    {
        Self { bits: Self::ALL_BITS }
    }

    /// The set with exactly these bits, named or not.
    pub fn from_bits_retain(bits: u32) -> (r: Self)
        ensures
            r.bits == bits,
    {
        Self { bits }
    }

    /// The set with these bits, less those that name no flag.
    pub fn from_bits_truncate(bits: u32) -> (r: Self)
        ensures
            r.bits == bits & Self::ALL_BITS,
    {
        Self { bits: bits & Self::ALL_BITS }
    }

    /// The raw bits.
    pub fn bits(&self) -> (r: u32)
        ensures
            r == self.bits,
    {
        self.bits
    }

    /// Whether every bit of `other` is set in `self`.
    pub fn contains(&self, other: Self) -> (r: bool)
        ensures
            r == self.has(other.bits),
    {
        self.bits & other.bits == other.bits
    }

    /// The bits of either set.
    pub fn union(self, other: Self) -> (r: Self)
        ensures
            r.bits == self.bits | other.bits,
    {
        Self { bits: self.bits | other.bits }
    }

    /// Sets the bits of `other` when `value` holds, and clears them otherwise.
    pub fn set(&mut self, other: Self, value: bool)
        ensures
            final(self).bits == (if value {
                old(self).bits | other.bits
            } else {
                old(self).bits & !other.bits
            }),
    {
        if value {
            self.bits = self.bits | other.bits;
        } else {
            self.bits = self.bits & !other.bits;
        }
    }

    /// Whether a bit is set that names no flag.
    pub fn contains_invalid_bits(&self) -> (r: bool)
        ensures
            r == (self.bits | Self::ALL_BITS != Self::ALL_BITS),
    {
        self.bits | Self::ALL_BITS != Self::ALL_BITS
    }
}

/// The ways a buffer may be used.
///
/// The set is held as its bits; a bit that names no flag is kept as it is.
#[derive(Clone, Copy, Debug, PartialEq, Eq, Hash, Structural)]
pub struct BufferUsages {
    /// The raw bits of the set.
    pub bits: u32,
}

impl BufferUsages {
    /// Can be mapped for reading.
    pub const MAP_READ: u32 = 0x1;

    /// Can be mapped for writing.
    pub const MAP_WRITE: u32 = 0x2;

    /// Can be the source of a copy.
    pub const COPY_SRC: u32 = 0x4;

    /// Can be the destination of a copy.
    pub const COPY_DST: u32 = 0x8;

    /// Can hold indices.
    pub const INDEX: u32 = 0x10;

    /// Can hold vertices.
    pub const VERTEX: u32 = 0x20;

    /// Can be a uniform buffer.
    pub const UNIFORM: u32 = 0x40;

    /// Can be a storage buffer.
    pub const STORAGE: u32 = 0x80;

    /// Can hold indirect arguments.
    pub const INDIRECT: u32 = 0x100;

    /// Can receive resolved queries.
    pub const QUERY_RESOLVE: u32 = 0x200;

    /// Can feed a bottom-level acceleration structure build.
    pub const BLAS_INPUT: u32 = 0x400;

    /// Can feed a top-level acceleration structure build.
    pub const TLAS_INPUT: u32 = 0x800;

    /// Every bit that names a flag.
    pub const ALL_BITS: u32 = 0xfff;

    /// Whether every bit of `other` is set in `self`.
    pub open spec fn has(self, other: u32) -> bool {
        self.bits & other == other
    }

    /// The empty set.
    pub fn empty() -> (r: Self)
        ensures
            r.bits == 0,
    {
        Self { bits: 0 }
    }

    /// The set of every named flag.
    pub fn all() -> (r: Self)
        ensures
            r.bits == Self::ALL_BITS,
    {
        Self { bits: Self::ALL_BITS }
    }

    /// The set with exactly these bits, named or not.
    pub fn from_bits_retain(bits: u32) -> (r: Self)
        ensures
            r.bits == bits,
    {
        Self { bits }
    }

    /// The set with these bits, less those that name no flag.
    pub fn from_bits_truncate(bits: u32) -> (r: Self)
        ensures
            r.bits == bits & Self::ALL_BITS,
    {
        Self { bits: bits & Self::ALL_BITS }
    }

    /// The raw bits.
    pub fn bits(&self) -> (r: u32)
        ensures
            r == self.bits,
    {
        self.bits
    }

    /// Whether every bit of `other` is set in `self`.
    pub fn contains(&self, other: Self) -> (r: bool)
        ensures
            r == self.has(other.bits),
    {
        self.bits & other.bits == other.bits
    }

    /// The bits of either set.
    pub fn union(self, other: Self) -> (r: Self)
        ensures
            r.bits == self.bits | other.bits,
    {
        Self { bits: self.bits | other.bits }
    }

    /// Sets the bits of `other` when `value` holds, and clears them otherwise.
    pub fn set(&mut self, other: Self, value: bool)
        ensures
            final(self).bits == (if value {
                old(self).bits | other.bits
            } else {
                old(self).bits & !other.bits
            }),
    {
        if value {
            self.bits = self.bits | other.bits;
        } else {
            self.bits = self.bits & !other.bits;
        }
    }

    /// Whether a bit is set that names no flag.
    pub fn contains_invalid_bits(&self) -> (r: bool)
        ensures
            r == (self.bits | Self::ALL_BITS != Self::ALL_BITS),
    {
        self.bits | Self::ALL_BITS != Self::ALL_BITS
    }
}

/// The ways a texture may be used.
///
/// The set is held as its bits; a bit that names no flag is kept as it is.
#[derive(Clone, Copy, Debug, PartialEq, Eq, Hash, Structural)]
pub struct TextureUsages {
    /// The raw bits of the set.
    pub bits: u32,
}

impl TextureUsages {
    /// Can be the source of a copy.
    pub const COPY_SRC: u32 = 0x1;

    /// Can be the destination of a copy.
    pub const COPY_DST: u32 = 0x2;

    /// Can be bound as a sampled texture.
    pub const TEXTURE_BINDING: u32 = 0x4;

    /// Can be bound as a storage texture.
    pub const STORAGE_BINDING: u32 = 0x8;

    /// Can be a render attachment.
    pub const RENDER_ATTACHMENT: u32 = 0x10;

    /// Every bit that names a flag.
    pub const ALL_BITS: u32 = 0x1f;

    /// Whether every bit of `other` is set in `self`.
    pub open spec fn has(self, other: u32) -> bool {
        self.bits & other == other
    }

    /// The empty set.
    pub fn empty() -> (r: Self)
        ensures
            r.bits == 0,
    {
        Self { bits: 0 }
    }

    /// The set of every named flag.
    pub fn all() -> (r: Self)
        ensures
            r.bits == Self::ALL_BITS,
    {
        Self { bits: Self::ALL_BITS }
    }

    /// The set with exactly these bits, named or not.
    pub fn from_bits_retain(bits: u32) -> (r: Self)
        ensures
            r.bits == bits,
    {
        Self { bits }
    }

    /// The set with these bits, less those that name no flag.
    pub fn from_bits_truncate(bits: u32) -> (r: Self)
        ensures
            r.bits == bits & Self::ALL_BITS,
    {
        Self { bits: bits & Self::ALL_BITS }
    }

    /// The raw bits.
    pub fn bits(&self) -> (r: u32)
        ensures
            r == self.bits,
    {
        self.bits
    }

    /// Whether every bit of `other` is set in `self`.
    pub fn contains(&self, other: Self) -> (r: bool)
        ensures
            r == self.has(other.bits),
    {
        self.bits & other.bits == other.bits
    }

    /// The bits of either set.
    pub fn union(self, other: Self) -> (r: Self)
        ensures
            r.bits == self.bits | other.bits,
    {
        Self { bits: self.bits | other.bits }
    }

    /// Sets the bits of `other` when `value` holds, and clears them otherwise.
    pub fn set(&mut self, other: Self, value: bool)
        ensures
            final(self).bits == (if value {
                old(self).bits | other.bits
            } else {
                old(self).bits & !other.bits
            }),
    {
        if value {
            self.bits = self.bits | other.bits;
        } else {
            self.bits = self.bits & !other.bits;
        }
    }

    /// Whether a bit is set that names no flag.
    pub fn contains_invalid_bits(&self) -> (r: bool)
        ensures
            r == (self.bits | Self::ALL_BITS != Self::ALL_BITS),
    {
        self.bits | Self::ALL_BITS != Self::ALL_BITS
    }
}

/// The pipeline statistics that a query set records.
///
/// The set is held as its bits; a bit that names no flag is kept as it is.
#[derive(Clone, Copy, Debug, PartialEq, Eq, Hash, Structural)]
pub struct PipelineStatisticsTypes {
    /// The raw bits of the set.
    pub bits: u8,
}

impl PipelineStatisticsTypes {
    /// Vertex shader invocations.
    pub const VERTEX_SHADER_INVOCATIONS: u8 = 0x1;

    /// Triangles sent to the clipper.
    pub const CLIPPER_INVOCATIONS: u8 = 0x2;

    /// Primitives that survive clipping.
    pub const CLIPPER_PRIMITIVES_OUT: u8 = 0x4;

    /// Fragment shader invocations.
    pub const FRAGMENT_SHADER_INVOCATIONS: u8 = 0x8;

    /// Compute shader invocations.
    pub const COMPUTE_SHADER_INVOCATIONS: u8 = 0x10;

    /// Every bit that names a flag.
    pub const ALL_BITS: u8 = 0x1f;

    /// Whether every bit of `other` is set in `self`.
    pub open spec fn has(self, other: u8) -> bool {
        self.bits & other == other
    }

    /// The empty set.
    pub fn empty() -> (r: Self)
        ensures
            r.bits == 0,
    {
        Self { bits: 0 }
    }

    /// The set of every named flag.
    pub fn all() -> (r: Self)
        ensures
            r.bits == Self::ALL_BITS,
    {
        Self { bits: Self::ALL_BITS }
    }

    /// The set with exactly these bits, named or not.
    pub fn from_bits_retain(bits: u8) -> (r: Self)
        ensures
            r.bits == bits,
    {
        Self { bits }
    }

    /// The set with these bits, less those that name no flag.
    pub fn from_bits_truncate(bits: u8) -> (r: Self)
        ensures
            r.bits == bits & Self::ALL_BITS,
    {
        Self { bits: bits & Self::ALL_BITS }
    }

    /// The raw bits.
    pub fn bits(&self) -> (r: u8)
        ensures
            r == self.bits,
    {
        self.bits
    }

    /// Whether every bit of `other` is set in `self`.
    pub fn contains(&self, other: Self) -> (r: bool)
        ensures
            r == self.has(other.bits),
    {
        self.bits & other.bits == other.bits
    }

    /// The bits of either set.
    pub fn union(self, other: Self) -> (r: Self)
        ensures
            r.bits == self.bits | other.bits,
    {
        Self { bits: self.bits | other.bits }
    }

    /// Sets the bits of `other` when `value` holds, and clears them otherwise.
    pub fn set(&mut self, other: Self, value: bool)
        ensures
            final(self).bits == (if value {
                old(self).bits | other.bits
            } else {
                old(self).bits & !other.bits
            }),
    {
        if value {
            self.bits = self.bits | other.bits;
        } else {
            self.bits = self.bits & !other.bits;
        }
    }

    /// Whether a bit is set that names no flag.
    pub fn contains_invalid_bits(&self) -> (r: bool)
        ensures
            r == (self.bits | Self::ALL_BITS != Self::ALL_BITS),
    {
        self.bits | Self::ALL_BITS != Self::ALL_BITS
    }
}

/// Options for building an acceleration structure.
///
/// The set is held as its bits; a bit that names no flag is kept as it is.
#[derive(Clone, Copy, Debug, PartialEq, Eq, Hash, Structural)]
pub struct AccelerationStructureFlags {
    /// The raw bits of the set.
    pub bits: u8,
}

impl AccelerationStructureFlags {
    /// Allows later updates.
    pub const ALLOW_UPDATE: u8 = 0x1;

    /// Allows compaction.
    pub const ALLOW_COMPACTION: u8 = 0x2;

    /// Favours tracing speed.
    pub const PREFER_FAST_TRACE: u8 = 0x4;

    /// Favours build speed.
    pub const PREFER_FAST_BUILD: u8 = 0x8;

    /// Favours small size.
    pub const LOW_MEMORY: u8 = 0x10;

    /// Every bit that names a flag.
    pub const ALL_BITS: u8 = 0x1f;

    /// Whether every bit of `other` is set in `self`.
    pub open spec fn has(self, other: u8) -> bool {
        self.bits & other == other
    }

    /// The empty set.
    pub fn empty() -> (r: Self)
        ensures
            r.bits == 0,
    {
        Self { bits: 0 }
    }

    /// The set of every named flag.
    pub fn all() -> (r: Self)
        ensures
            r.bits == Self::ALL_BITS,
    {
        Self { bits: Self::ALL_BITS }
    }

    /// The set with exactly these bits, named or not.
    pub fn from_bits_retain(bits: u8) -> (r: Self)
        ensures
            r.bits == bits,
    {
        Self { bits }
    }

    /// The set with these bits, less those that name no flag.
    pub fn from_bits_truncate(bits: u8) -> (r: Self)
        ensures
            r.bits == bits & Self::ALL_BITS,
    {
        Self { bits: bits & Self::ALL_BITS }
    }

    /// The raw bits.
    pub fn bits(&self) -> (r: u8)
        ensures
            r == self.bits,
    {
        self.bits
    }

    /// Whether every bit of `other` is set in `self`.
    pub fn contains(&self, other: Self) -> (r: bool)
        ensures
            r == self.has(other.bits),
    {
        self.bits & other.bits == other.bits
    }

    /// The bits of either set.
    pub fn union(self, other: Self) -> (r: Self)
        ensures
            r.bits == self.bits | other.bits,
    {
        Self { bits: self.bits | other.bits }
    }

    /// Sets the bits of `other` when `value` holds, and clears them otherwise.
    pub fn set(&mut self, other: Self, value: bool)
        ensures
            final(self).bits == (if value {
                old(self).bits | other.bits
            } else {
                old(self).bits & !other.bits
            }),
    {
        if value {
            self.bits = self.bits | other.bits;
        } else {
            self.bits = self.bits & !other.bits;
        }
    }

    /// Whether a bit is set that names no flag.
    pub fn contains_invalid_bits(&self) -> (r: bool)
        ensures
            r == (self.bits | Self::ALL_BITS != Self::ALL_BITS),
    {
        self.bits | Self::ALL_BITS != Self::ALL_BITS
    }
}

/// Options for the geometry of an acceleration structure.
///
/// The set is held as its bits; a bit that names no flag is kept as it is.
#[derive(Clone, Copy, Debug, PartialEq, Eq, Hash, Structural)]
pub struct AccelerationStructureGeometryFlags {
    /// The raw bits of the set.
    pub bits: u8,
}

impl AccelerationStructureGeometryFlags {
    /// The geometry is opaque.
    pub const OPAQUE: u8 = 0x1;

    /// Any-hit shaders run at most once per primitive.
    pub const NO_DUPLICATE_ANY_HIT_INVOCATION: u8 = 0x2;

    /// Every bit that names a flag.
    pub const ALL_BITS: u8 = 0x3;

    /// Whether every bit of `other` is set in `self`.
    pub open spec fn has(self, other: u8) -> bool {
        self.bits & other == other
    }

    /// The empty set.
    pub fn empty() -> (r: Self)
        ensures
            r.bits == 0,
    {
        Self { bits: 0 }
    }

    /// The set of every named flag.
    pub fn all() -> (r: Self)
        ensures
            r.bits == Self::ALL_BITS,
    {
        Self { bits: Self::ALL_BITS }
    }

    /// The set with exactly these bits, named or not.
    pub fn from_bits_retain(bits: u8) -> (r: Self)
        ensures
            r.bits == bits,
    {
        Self { bits }
    }

    /// The set with these bits, less those that name no flag.
    pub fn from_bits_truncate(bits: u8) -> (r: Self)
        ensures
            r.bits == bits & Self::ALL_BITS,
    {
        Self { bits: bits & Self::ALL_BITS }
    }

    /// The raw bits.
    pub fn bits(&self) -> (r: u8)
        ensures
            r == self.bits,
    {
        self.bits
    }

    /// Whether every bit of `other` is set in `self`.
    pub fn contains(&self, other: Self) -> (r: bool)
        ensures
            r == self.has(other.bits),
    {
        self.bits & other.bits == other.bits
    }

    /// The bits of either set.
    pub fn union(self, other: Self) -> (r: Self)
        ensures
            r.bits == self.bits | other.bits,
    {
        Self { bits: self.bits | other.bits }
    }

    /// Sets the bits of `other` when `value` holds, and clears them otherwise.
    pub fn set(&mut self, other: Self, value: bool)
        ensures
            final(self).bits == (if value {
                old(self).bits | other.bits
            } else {
                old(self).bits & !other.bits
            }),
    {
        if value {
            self.bits = self.bits | other.bits;
        } else {
            self.bits = self.bits & !other.bits;
        }
    }

    /// Whether a bit is set that names no flag.
    pub fn contains_invalid_bits(&self) -> (r: bool)
        ensures
            r == (self.bits | Self::ALL_BITS != Self::ALL_BITS),
    {
        self.bits | Self::ALL_BITS != Self::ALL_BITS
    }
}

} // verus!
