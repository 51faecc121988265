//! Render and compute pipeline state: blending, primitives, multisampling,
//! depth-stencil tests, vertex formats and binding types.
use vstd::prelude::*;

use crate::flags::{ColorWrites, ShaderStages, TextureFormatFeatureFlags};
use crate::format::{TextureFormat, TextureSampleType};
use crate::texture::TextureViewDimension;

verus! {

/// A factor of a blend equation.
#[derive(Clone, Copy, Debug, PartialEq, Eq, Hash, Structural)]
pub enum BlendFactor {
    /// 0.0
    Zero,
    /// 1.0
    One,
    /// S.component
    Src,
    /// 1.0 - S.component
    OneMinusSrc,
    /// S.alpha
    SrcAlpha,
    /// 1.0 - S.alpha
    OneMinusSrcAlpha,
    /// D.component
    Dst,
    /// 1.0 - D.component
    OneMinusDst,
    /// D.alpha
    DstAlpha,
    /// 1.0 - D.alpha
    OneMinusDstAlpha,
    /// min(S.alpha, 1.0 - D.alpha)
    SrcAlphaSaturated,
    /// Constant
    Constant,
    /// 1.0 - Constant
    OneMinusConstant,
    /// S1.component
    Src1,
    /// 1.0 - S1.component
    OneMinusSrc1,
    /// S1.alpha
    Src1Alpha,
    /// 1.0 - S1.alpha
    OneMinusSrc1Alpha,
}

impl BlendFactor {
    /// Whether the factor reads the second blend source.
    pub fn ref_second_blend_source(&self) -> (r: bool)
        ensures
            r == (*self == BlendFactor::Src1 || *self == BlendFactor::OneMinusSrc1 || *self
                == BlendFactor::Src1Alpha || *self == BlendFactor::OneMinusSrc1Alpha),
    {
        match self {
            BlendFactor::Src1
            | BlendFactor::OneMinusSrc1
            | BlendFactor::Src1Alpha
            | BlendFactor::OneMinusSrc1Alpha => true,
            _ => false,
        }
    }

    /// Whether the factor reads the blend constant.
    pub open spec fn is_constant(self) -> bool {
        self == BlendFactor::Constant || self == BlendFactor::OneMinusConstant
    }
}

/// How the two sides of a blend equation are combined.
#[derive(Clone, Copy, Debug, Default, PartialEq, Eq, Hash, Structural)]
pub enum BlendOperation {
    /// Src + Dst
    #[default]
    Add,
    /// Src - Dst
    Subtract,
    /// Dst - Src
    ReverseSubtract,
    /// min(Src, Dst)
    Min,
    /// max(Src, Dst)
    Max,
}

/// The blend equation of the color or the alpha channels.
#[derive(Clone, Copy, Debug, PartialEq, Eq, Hash, Structural)]
pub struct BlendComponent {
    /// The factor of the source.
    pub src_factor: BlendFactor,
    /// The factor of the destination.
    pub dst_factor: BlendFactor,
    /// How the two are combined.
    pub operation: BlendOperation,
}

impl BlendComponent {
    /// Replaces the destination with the source.
    pub fn replace() -> (r: Self)
        ensures
            r == (BlendComponent {
                src_factor: BlendFactor::One,
                dst_factor: BlendFactor::Zero,
                operation: BlendOperation::Add,
            }),
    {
        BlendComponent {
            src_factor: BlendFactor::One,
            dst_factor: BlendFactor::Zero,
            operation: BlendOperation::Add,
        }
    }

    /// Blends the source over the destination by the source's alpha.
    pub fn over() -> (r: Self)
        ensures
            r == (BlendComponent {
                src_factor: BlendFactor::One,
                dst_factor: BlendFactor::OneMinusSrcAlpha,
                operation: BlendOperation::Add,
            }),
    {
        BlendComponent {
            src_factor: BlendFactor::One,
            dst_factor: BlendFactor::OneMinusSrcAlpha,
            operation: BlendOperation::Add,
        }
    }

    /// Whether the equation reads the blend constant, so that one must be set.
    pub fn uses_constant(&self) -> (r: bool)
        ensures
            r == (self.src_factor.is_constant() || self.dst_factor.is_constant()),
    {
        match (self.src_factor, self.dst_factor) {
            (BlendFactor::Constant, _)
            | (BlendFactor::OneMinusConstant, _)
            | (_, BlendFactor::Constant)
            | (_, BlendFactor::OneMinusConstant) => true,
            (_, _) => false,
        }
    }
}

impl Default for BlendComponent {
    fn default() -> (r: Self)
        ensures
            r == (BlendComponent {
                src_factor: BlendFactor::One,
                dst_factor: BlendFactor::Zero,
                operation: BlendOperation::Add,
            }),
    {
        BlendComponent::replace()
    }
}

/// The blend equations of the color and the alpha channels.
#[derive(Clone, Copy, Debug, PartialEq, Eq, Hash, Structural)]
pub struct BlendState {
    /// The equation of the color channels.
    pub color: BlendComponent,
    /// The equation of the alpha channel.
    pub alpha: BlendComponent,
}

impl BlendState {
    /// Replaces the destination with the source on every channel.
    pub fn replace() -> (r: Self)
        ensures
            r.color == r.alpha,
            r.color == (BlendComponent {
                src_factor: BlendFactor::One,
                dst_factor: BlendFactor::Zero,
                operation: BlendOperation::Add,
            }),
    {
        BlendState { color: BlendComponent::replace(), alpha: BlendComponent::replace() }
    }

    /// Blends non-premultiplied color by its alpha.
    pub fn alpha_blending() -> (r: Self)
        ensures
            r.color == (BlendComponent {
                src_factor: BlendFactor::SrcAlpha,
                dst_factor: BlendFactor::OneMinusSrcAlpha,
                operation: BlendOperation::Add,
            }),
            r.alpha == (BlendComponent {
                src_factor: BlendFactor::One,
                dst_factor: BlendFactor::OneMinusSrcAlpha,
                operation: BlendOperation::Add,
            }),
    {
        BlendState {
            color: BlendComponent {
                src_factor: BlendFactor::SrcAlpha,
                dst_factor: BlendFactor::OneMinusSrcAlpha,
                operation: BlendOperation::Add,
            },
            alpha: BlendComponent::over(),
        }
    }

    /// Blends premultiplied color by its alpha.
    pub fn premultiplied_alpha_blending() -> (r: Self)
        ensures
            r.color == r.alpha,
            r.color == (BlendComponent {
                src_factor: BlendFactor::One,
                dst_factor: BlendFactor::OneMinusSrcAlpha,
                operation: BlendOperation::Add,
            }),
    {
        BlendState { color: BlendComponent::over(), alpha: BlendComponent::over() }
    }
}

/// How a render pipeline writes one color target.
#[derive(Clone, Copy, Debug, PartialEq, Eq, Hash, Structural)]
pub struct ColorTargetState {
    /// The format of the target.
    pub format: TextureFormat,
    /// The blending, if any.
    pub blend: Option<BlendState>,
    /// The channels that are written.
    pub write_mask: ColorWrites,
}

impl From<TextureFormat> for ColorTargetState {
    fn from(format: TextureFormat) -> (r: Self) {
        ColorTargetState {
            format,
            blend: None,
            write_mask: ColorWrites::from_bits_retain(ColorWrites::ALL),
        }
    }
}

impl vstd::std_specs::convert::FromSpecImpl<TextureFormat> for ColorTargetState {
    open spec fn obeys_from_spec() -> bool {
        true
    }

    open spec fn from_spec(format: TextureFormat) -> ColorTargetState {
        ColorTargetState {
            format,
            blend: None,
            write_mask: ColorWrites { bits: ColorWrites::ALL },
        }
    }
}

/// How vertices are assembled into primitives.
#[derive(Clone, Copy, Debug, Default, PartialEq, Eq, Hash, Structural)]
pub enum PrimitiveTopology {
    /// Each vertex is a point.
    PointList,
    /// Each pair of vertices is a line.
    LineList,
    /// Each vertex after the first joins a line to the one before.
    LineStrip,
    /// Each three vertices are a triangle.
    #[default]
    TriangleList,
    /// Each vertex after the second makes a triangle with the two before.
    TriangleStrip,
}

impl PrimitiveTopology {
    /// Whether the topology is a strip, in which primitives share vertices.
    pub fn is_strip(&self) -> (r: bool)
        ensures
            r == (*self == PrimitiveTopology::LineStrip || *self == PrimitiveTopology::TriangleStrip),
    {
        match *self {
            Self::PointList | Self::LineList | Self::TriangleList => false,
            Self::LineStrip | Self::TriangleStrip => true,
        }
    }
}

/// The winding order that makes a triangle face forward.
#[derive(Clone, Copy, Debug, Default, PartialEq, Eq, Hash, Structural)]
pub enum FrontFace {
    /// Counter-clockwise.
    #[default]
    Ccw,
    /// Clockwise.
    Cw,
}

/// A side of a triangle.
#[derive(Clone, Copy, Debug, PartialEq, Eq, Hash, Structural)]
pub enum Face {
    /// The front.
    Front,
    /// The back.
    Back,
}

/// How a triangle is rasterized.
#[derive(Clone, Copy, Debug, Default, PartialEq, Eq, Hash, Structural)]
pub enum PolygonMode {
    /// Filled.
    #[default]
    Fill,
    /// Its edges only.
    Line,
    /// Its corners only.
    Point,
}

/// The format of index buffers.
#[derive(Clone, Copy, Debug, Default, PartialEq, Eq, Hash, Structural)]
pub enum IndexFormat {
    /// 16-bit indices.
    Uint16,
    /// 32-bit indices.
    #[default]
    Uint32,
}

/// How primitives are assembled and rasterized.
#[derive(Clone, Copy, Debug, Default, PartialEq, Eq, Hash, Structural)]
pub struct PrimitiveState {
    /// How vertices become primitives.
    pub topology: PrimitiveTopology,
    /// The index format of a strip topology, if indexed.
    pub strip_index_format: Option<IndexFormat>,
    /// The winding order of front faces.
    pub front_face: FrontFace,
    /// The face that is culled, if any.
    pub cull_mode: Option<Face>,
    /// Whether depth is left unclipped.
    pub unclipped_depth: bool,
    /// How triangles are rasterized.
    pub polygon_mode: PolygonMode,
    /// Whether rasterization is conservative.
    pub conservative: bool,
}

/// How a render pipeline samples.
#[derive(Clone, Copy, Debug, PartialEq, Eq, Hash, Structural)]
pub struct MultisampleState {
    /// The number of samples.
    pub count: u32,
    /// The samples that are active.
    pub mask: u64,
    /// Whether alpha drives coverage.
    pub alpha_to_coverage_enabled: bool,
}

impl Default for MultisampleState {
    fn default() -> (r: Self)
        ensures
            r == (MultisampleState { count: 1, mask: u64::MAX, alpha_to_coverage_enabled: false }),
    {
        MultisampleState { count: 1, mask: u64::MAX, alpha_to_coverage_enabled: false }
    }
}

/// Whether a feature-flag set allows `count` samples per texel.
pub open spec fn allows_sample_count(flags: TextureFormatFeatureFlags, count: u32) -> bool {
    if count == 1 {
        true
    } else if count == 2 {
        flags.has(TextureFormatFeatureFlags::MULTISAMPLE_X2)
    } else if count == 4 {
        flags.has(TextureFormatFeatureFlags::MULTISAMPLE_X4)
    } else if count == 8 {
        flags.has(TextureFormatFeatureFlags::MULTISAMPLE_X8)
    } else if count == 16 {
        flags.has(TextureFormatFeatureFlags::MULTISAMPLE_X16)
    } else {
        false
    }
}

/// The sample counts among 1, 2, 4, 8 and 16 that a feature-flag set allows, in increasing order.
pub open spec fn allowed_sample_counts(flags: TextureFormatFeatureFlags) -> Seq<u32> {
    seq![1u32, 2, 4, 8, 16].filter(|c: u32| allows_sample_count(flags, c))
}

impl TextureFormatFeatureFlags {
    /// Whether `count` samples per texel are allowed.
    pub fn sample_count_supported(&self, count: u32) -> (r: bool)
        ensures
            r == allows_sample_count(*self, count),
    {
        match count {
            1 => true,
            2 => self.contains(TextureFormatFeatureFlags::from_bits_retain(TextureFormatFeatureFlags::MULTISAMPLE_X2)),
            4 => self.contains(TextureFormatFeatureFlags::from_bits_retain(TextureFormatFeatureFlags::MULTISAMPLE_X4)),
            8 => self.contains(TextureFormatFeatureFlags::from_bits_retain(TextureFormatFeatureFlags::MULTISAMPLE_X8)),
            16 => self.contains(TextureFormatFeatureFlags::from_bits_retain(TextureFormatFeatureFlags::MULTISAMPLE_X16)),
            _ => false,
        }
    }

    /// The sample counts among 1, 2, 4, 8 and 16 that are allowed, in increasing order.
    pub fn supported_sample_counts(&self) -> (r: Vec<u32>)
        ensures
            r@ == allowed_sample_counts(*self),
    {
        let candidates: [u32; 5] = [1, 2, 4, 8, 16];
        let ghost all = seq![1u32, 2, 4, 8, 16];
        assert(candidates@ =~= all);
        let mut r: Vec<u32> = Vec::new();
        let mut i: usize = 0;
        while i < 5
            invariant
                i <= 5,
                candidates@ == all,
                r@ == all.subrange(0, i as int).filter(|c: u32| allows_sample_count(*self, c)),
            decreases 5 - i,
        {
            let c = candidates[i];
            proof {
                assert(all.subrange(0, i + 1) =~= all.subrange(0, i as int).push(c));
                all.subrange(0, i as int).lemma_filter_push(c, |c: u32| allows_sample_count(*self, c));
            }
            if self.sample_count_supported(c) {
                r.push(c);
            }
            i = i + 1;
        }
        assert(all.subrange(0, 5) =~= all);
        r
    }
}

/// An operation on the stencil value of a texel.
#[derive(Clone, Copy, Debug, Default, PartialEq, Eq, Hash, Structural)]
pub enum StencilOperation {
    /// Keeps the value.
    #[default]
    Keep,
    /// Sets it to zero.
    Zero,
    /// Sets it to the reference value.
    Replace,
    /// Inverts its bits.
    Invert,
    /// Adds one, clamping at the maximum.
    IncrementClamp,
    /// Subtracts one, clamping at zero.
    DecrementClamp,
    /// Adds one, wrapping to zero.
    IncrementWrap,
    /// Subtracts one, wrapping to the maximum.
    DecrementWrap,
}

/// A comparison between a new value and a stored one.
#[derive(Clone, Copy, Debug, PartialEq, Eq, Hash, Structural)]
pub enum CompareFunction {
    /// Never passes.
    Never,
    /// Passes when the new value is less.
    Less,
    /// Passes when the values are equal.
    Equal,
    /// Passes when the new value is less or equal.
    LessEqual,
    /// Passes when the new value is greater.
    Greater,
    /// Passes when the values differ.
    NotEqual,
    /// Passes when the new value is greater or equal.
    GreaterEqual,
    /// Always passes.
    Always,
}

impl CompareFunction {
    /// Whether the comparison reads the value it is given, so that one must be set.
    pub open spec fn spec_needs_ref_value(self) -> bool {
        !(self == CompareFunction::Never || self == CompareFunction::Always)
    }

    /// Whether the comparison reads the value it is given, so that one must be set.
    pub fn needs_ref_value(self) -> (r: bool)
        ensures
            r == self.spec_needs_ref_value(),
    {
        match self {
            Self::Never | Self::Always => false,
            _ => true,
        }
    }
}

/// The stencil test and operations of one face.
#[derive(Clone, Copy, Debug, PartialEq, Eq, Hash, Structural)]
pub struct StencilFaceState {
    /// The comparison against the stored value.
    pub compare: CompareFunction,
    /// The operation when the stencil test fails.
    pub fail_op: StencilOperation,
    /// The operation when the stencil test passes and the depth test fails.
    pub depth_fail_op: StencilOperation,
    /// The operation when both tests pass.
    pub pass_op: StencilOperation,
}

impl StencilFaceState {
    /// The state that always passes and keeps every value.
    pub open spec fn spec_ignore() -> StencilFaceState {
        StencilFaceState {
            compare: CompareFunction::Always,
            fail_op: StencilOperation::Keep,
            depth_fail_op: StencilOperation::Keep,
            pass_op: StencilOperation::Keep,
        }
    }

    /// The state that always passes and keeps every value.
    pub fn ignore() -> (r: Self)
        ensures
            r == Self::spec_ignore(),
    {
        StencilFaceState {
            compare: CompareFunction::Always,
            fail_op: StencilOperation::Keep,
            depth_fail_op: StencilOperation::Keep,
            pass_op: StencilOperation::Keep,
        }
    }

    /// Whether the state reads the reference value.
    pub open spec fn spec_needs_ref_value(self) -> bool {
        self.compare.spec_needs_ref_value() || self.fail_op == StencilOperation::Replace
            || self.depth_fail_op == StencilOperation::Replace || self.pass_op
            == StencilOperation::Replace
    }

    /// Whether the state reads the reference value.
    pub fn needs_ref_value(&self) -> (r: bool)
        ensures
            r == self.spec_needs_ref_value(),
    {
        self.compare.needs_ref_value() || self.fail_op == StencilOperation::Replace
            || self.depth_fail_op == StencilOperation::Replace || self.pass_op
            == StencilOperation::Replace
    }

    /// Whether the state never changes a stored value.
    pub open spec fn spec_is_read_only(self) -> bool {
        self.pass_op == StencilOperation::Keep && self.depth_fail_op == StencilOperation::Keep
            && self.fail_op == StencilOperation::Keep
    }

    /// Whether the state never changes a stored value.
    pub fn is_read_only(&self) -> (r: bool)
        ensures
            r == self.spec_is_read_only(),
    {
        self.pass_op == StencilOperation::Keep && self.depth_fail_op == StencilOperation::Keep
            && self.fail_op == StencilOperation::Keep
    }
}

impl Default for StencilFaceState {
    fn default() -> (r: Self)
        ensures
            r == Self::spec_ignore(),
    {
        Self::ignore()
    }
}

/// The stencil state of both faces, with the masks.
#[derive(Clone, Copy, Debug, PartialEq, Eq, Hash, Structural)]
pub struct StencilState {
    /// The front face.
    pub front: StencilFaceState,
    /// The back face.
    pub back: StencilFaceState,
    /// The bits that are read.
    pub read_mask: u32,
    /// The bits that are written.
    pub write_mask: u32,
}

impl StencilState {
    /// Whether stencil testing does anything.
    pub fn is_enabled(&self) -> (r: bool)
        ensures
            r == ((self.front != StencilFaceState::spec_ignore() || self.back
                != StencilFaceState::spec_ignore()) && (self.read_mask != 0 || self.write_mask
                != 0)),
    {
        let ignore = StencilFaceState::ignore();
        (self.front != ignore || self.back != ignore) && (self.read_mask != 0 || self.write_mask
            != 0)
    }

    /// Whether the state never writes, given the face that is culled.
    pub fn is_read_only(&self, cull_mode: Option<Face>) -> (r: bool)
        ensures
            r == (self.write_mask == 0 || ((cull_mode == Some(Face::Front)
                || self.front.spec_is_read_only()) && (cull_mode == Some(Face::Back)
                || self.back.spec_is_read_only()))),
    {
        if self.write_mask == 0 {
            return true;
        }
        let front_culled = match cull_mode {
            Some(Face::Front) => true,
            _ => false,
        };
        let back_culled = match cull_mode {
            Some(Face::Back) => true,
            _ => false,
        };
        let front_ro = front_culled || self.front.is_read_only();
        let back_ro = back_culled || self.back.is_read_only();
        front_ro && back_ro
    }

    /// Whether either face reads the reference value.
    pub fn needs_ref_value(&self) -> (r: bool)
        ensures
            r == (self.front.spec_needs_ref_value() || self.back.spec_needs_ref_value()),
    {
        self.front.needs_ref_value() || self.back.needs_ref_value()
    }
}

impl Default for StencilState {
    fn default() -> (r: Self)
        ensures
            r == (StencilState {
                front: StencilFaceState::spec_ignore(),
                back: StencilFaceState::spec_ignore(),
                read_mask: 0,
                write_mask: 0,
            }),
    {
        StencilState {
            front: StencilFaceState::ignore(),
            back: StencilFaceState::ignore(),
            read_mask: 0,
            write_mask: 0,
        }
    }
}

/// Whether a vertex buffer advances per vertex or per instance.
#[derive(Clone, Copy, Debug, Default, PartialEq, Eq, Hash, Structural)]
pub enum VertexStepMode {
    /// Per vertex.
    #[default]
    Vertex,
    /// Per instance.
    Instance,
}

/// The layout of one vertex attribute in its buffer.
#[derive(Clone, Copy, Debug, PartialEq, Eq, Hash, Structural)]
pub struct VertexAttribute {
    /// The format of the attribute.
    pub format: VertexFormat,
    /// Its offset in bytes from the start of the element.
    pub offset: u64,
    /// The shader location that it feeds.
    pub shader_location: u32,
}

/// The format of a vertex attribute.
#[derive(Clone, Copy, Debug, PartialEq, Eq, Hash, Structural)]
pub enum VertexFormat {
    /// Two unsigned bytes.
    Uint8x2,
    /// Four unsigned bytes.
    Uint8x4,
    /// Two signed bytes.
    Sint8x2,
    /// Four signed bytes.
    Sint8x4,
    /// Two unsigned bytes, read as float in [0, 1].
    Unorm8x2,
    /// Four unsigned bytes, read as float in [0, 1].
    Unorm8x4,
    /// Two signed bytes, read as float in [-1, 1].
    Snorm8x2,
    /// Four signed bytes, read as float in [-1, 1].
    Snorm8x4,
    /// Two unsigned shorts.
    Uint16x2,
    /// Four unsigned shorts.
    Uint16x4,
    /// Two signed shorts.
    Sint16x2,
    /// Four signed shorts.
    Sint16x4,
    /// Two unsigned shorts, read as float in [0, 1].
    Unorm16x2,
    /// Four unsigned shorts, read as float in [0, 1].
    Unorm16x4,
    /// Two signed shorts, read as float in [-1, 1].
    Snorm16x2,
    /// Four signed shorts, read as float in [-1, 1].
    Snorm16x4,
    /// Two half-precision floats.
    Float16x2,
    /// Four half-precision floats.
    Float16x4,
    /// One single-precision float.
    Float32,
    /// Two single-precision floats.
    Float32x2,
    /// Three single-precision floats.
    Float32x3,
    /// Four single-precision floats.
    Float32x4,
    /// One unsigned int.
    Uint32,
    /// Two unsigned ints.
    Uint32x2,
    /// Three unsigned ints.
    Uint32x3,
    /// Four unsigned ints.
    Uint32x4,
    /// One signed int.
    Sint32,
    /// Two signed ints.
    Sint32x2,
    /// Three signed ints.
    Sint32x3,
    /// Four signed ints.
    Sint32x4,
    /// One double-precision float.
    Float64,
    /// Two double-precision floats.
    Float64x2,
    /// Three double-precision floats.
    Float64x3,
    /// Four double-precision floats.
    Float64x4,
    /// Three 10-bit and one 2-bit unsigned integer in 32 bits, read as float in [0, 1].
    Unorm10_10_10_2,
}

impl VertexFormat {
    /// The size in bytes of an attribute of the format.
    pub open spec fn spec_size(self) -> u64 {
        match self {
            Self::Uint8x2 | Self::Sint8x2 | Self::Unorm8x2 | Self::Snorm8x2 => 2,
            Self::Uint8x4
            | Self::Sint8x4
            | Self::Unorm8x4
            | Self::Snorm8x4
            | Self::Uint16x2
            | Self::Sint16x2
            | Self::Unorm16x2
            | Self::Snorm16x2
            | Self::Float16x2
            | Self::Float32
            | Self::Uint32
            | Self::Sint32
            | Self::Unorm10_10_10_2 => 4,
            Self::Uint16x4
            | Self::Sint16x4
            | Self::Unorm16x4
            | Self::Snorm16x4
            | Self::Float16x4
            | Self::Float32x2
            | Self::Uint32x2
            | Self::Sint32x2
            | Self::Float64 => 8,
            Self::Float32x3 | Self::Uint32x3 | Self::Sint32x3 => 12,
            Self::Float32x4 | Self::Uint32x4 | Self::Sint32x4 | Self::Float64x2 => 16,
            Self::Float64x3 => 24,
            Self::Float64x4 => 32,
        }
    }

    /// The size in bytes of an attribute of the format.
    pub fn size(&self) -> (r: u64)
        ensures
            r == self.spec_size(),
    {
        match *self {
            Self::Uint8x2 | Self::Sint8x2 | Self::Unorm8x2 | Self::Snorm8x2 => 2,
            Self::Uint8x4
            | Self::Sint8x4
            | Self::Unorm8x4
            | Self::Snorm8x4
            | Self::Uint16x2
            | Self::Sint16x2
            | Self::Unorm16x2
            | Self::Snorm16x2
            | Self::Float16x2
            | Self::Float32
            | Self::Uint32
            | Self::Sint32
            | Self::Unorm10_10_10_2 => 4,
            Self::Uint16x4
            | Self::Sint16x4
            | Self::Unorm16x4
            | Self::Snorm16x4
            | Self::Float16x4
            | Self::Float32x2
            | Self::Uint32x2
            | Self::Sint32x2
            | Self::Float64 => 8,
            Self::Float32x3 | Self::Uint32x3 | Self::Sint32x3 => 12,
            Self::Float32x4 | Self::Uint32x4 | Self::Sint32x4 | Self::Float64x2 => 16,
            Self::Float64x3 => 24,
            Self::Float64x4 => 32,
        }
    }
}

/// The kind of a buffer binding.
#[derive(Clone, Copy, Debug, Default, PartialEq, Eq, Hash, Structural)]
pub enum BufferBindingType {
    /// A uniform buffer.
    #[default]
    Uniform,
    /// A storage buffer, read-only or not.
    Storage { read_only: bool },
}

/// How a storage texture may be accessed.
#[derive(Clone, Copy, Debug, PartialEq, Eq, Hash, Structural)]
pub enum StorageTextureAccess {
    /// Written only.
    WriteOnly,
    /// Read only.
    ReadOnly,
    /// Read and written.
    ReadWrite,
}

/// The kind of a sampler binding.
#[derive(Clone, Copy, Debug, PartialEq, Eq, Hash, Structural)]
pub enum SamplerBindingType {
    /// A sampler that may filter.
    Filtering,
    /// A sampler that does not filter.
    NonFiltering,
    /// A comparison sampler.
    Comparison,
}

/// The kind of a binding in a bind group layout.
#[derive(Clone, Copy, Debug, PartialEq, Eq, Hash, Structural)]
pub enum BindingType {
    /// A buffer.
    Buffer {
        /// The kind of buffer binding.
        ty: BufferBindingType,
        /// Whether the offset is given when the bind group is set.
        has_dynamic_offset: bool,
        /// The least size of the binding, if any; a given size is never zero.
        min_binding_size: Option<u64>,
    },
    /// A sampler.
    Sampler(SamplerBindingType),
    /// A sampled texture.
    Texture {
        /// What the shader sees.
        sample_type: TextureSampleType,
        /// The dimension of the view.
        view_dimension: TextureViewDimension,
        /// Whether the texture is multisampled.
        multisampled: bool,
    },
    /// A storage texture.
    StorageTexture {
        /// How it may be accessed.
        access: StorageTextureAccess,
        /// Its format.
        format: TextureFormat,
        /// The dimension of the view.
        view_dimension: TextureViewDimension,
    },
    /// A ray-tracing acceleration structure.
    AccelerationStructure,
}

impl BindingType {
    /// Whether the binding is a buffer whose offset is given when the bind group is set.
    pub fn has_dynamic_offset(&self) -> (r: bool)
        ensures
            r == (match *self {
                BindingType::Buffer { has_dynamic_offset, .. } => has_dynamic_offset,
                _ => false,
            }),
    {
        match *self {
            Self::Buffer { has_dynamic_offset, .. } => has_dynamic_offset,
            _ => false,
        }
    }
}

/// One entry of a bind group layout.
#[derive(Clone, Copy, Debug, PartialEq, Eq, Hash, Structural)]
pub struct BindGroupLayoutEntry {
    /// The binding index.
    pub binding: u32,
    /// The shader stages that see the binding.
    pub visibility: ShaderStages,
    /// The kind of binding.
    pub ty: BindingType,
    /// The number of elements of a binding array, if it is one; never zero.
    pub count: Option<u32>,
}

/// How a sampler addresses outside the texture.
#[derive(Clone, Copy, Debug, Default, PartialEq, Eq, Hash, Structural)]
pub enum AddressMode {
    /// Clamps to the edge texel.
    #[default]
    ClampToEdge,
    /// Repeats the texture.
    Repeat,
    /// Repeats the texture, mirrored every other time.
    MirrorRepeat,
    /// Uses the border color.
    ClampToBorder,
}

/// How a sampler filters between texels.
#[derive(Clone, Copy, Debug, Default, PartialEq, Eq, Hash, Structural)]
pub enum FilterMode {
    /// The nearest texel.
    #[default]
    Nearest,
    /// Linear interpolation.
    Linear,
}

/// The border color of a sampler that clamps to the border.
#[derive(Clone, Copy, Debug, PartialEq, Eq, Hash, Structural)]
pub enum SamplerBorderColor {
    /// Transparent black.
    TransparentBlack,
    /// Opaque black.
    OpaqueBlack,
    /// Opaque white.
    OpaqueWhite,
    /// Zero on every channel, alpha included.
    Zero,
}

} // verus!
