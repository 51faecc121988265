//! Descriptors of buffers, command encoders, render bundles, query sets,
//! acceleration structures, copies and surfaces, and the mapping of their labels.
use vstd::prelude::*;

use crate::flags::{
    AccelerationStructureFlags, AccelerationStructureGeometryFlags, BufferUsages, ColorWrites,
    PipelineStatisticsTypes, ShaderStages, TextureUsages,
};
use crate::format::{TextureAspect, TextureFormat};
use crate::pipeline::{IndexFormat, VertexFormat};
use crate::texture::Origin3d;
use std::ops::Range;

verus! {

impl Default for ColorWrites {
    fn default() -> (r: Self)
        ensures
            r.bits == ColorWrites::ALL,
    {
        ColorWrites::from_bits_retain(ColorWrites::ALL)
    }
}

/// Describes a buffer.
#[derive(Clone, Debug, PartialEq, Eq, Hash)]
pub struct BufferDescriptor<L> {
    /// The label, for debugging.
    pub label: L,
    /// The size in bytes.
    pub size: u64,
    /// The allowed usages.
    pub usage: BufferUsages,
    /// Whether the buffer is mapped when it is created.
    pub mapped_at_creation: bool,
}

impl<L> BufferDescriptor<L> {
    /// The same descriptor with its label passed through `fun`.
    pub fn map_label<K>(&self, fun: impl FnOnce(&L) -> K) -> (r: BufferDescriptor<K>)
        requires
            call_requires(fun, (&self.label,)),
        ensures
            call_ensures(fun, (&self.label,), r.label),
            r.size == self.size,
            r.usage == self.usage,
            r.mapped_at_creation == self.mapped_at_creation,
    {
        BufferDescriptor {
            label: fun(&self.label),
            size: self.size,
            usage: self.usage,
            mapped_at_creation: self.mapped_at_creation,
        }
    }
}

/// Describes a command encoder.
#[derive(Clone, Debug, PartialEq, Eq, Hash)]
pub struct CommandEncoderDescriptor<L> {
    /// The label, for debugging.
    pub label: L,
}

impl<L> CommandEncoderDescriptor<L> {
    /// The same descriptor with its label passed through `fun`.
    pub fn map_label<K>(&self, fun: impl FnOnce(&L) -> K) -> (r: CommandEncoderDescriptor<K>)
        requires
            call_requires(fun, (&self.label,)),
        ensures
            call_ensures(fun, (&self.label,), r.label),
    {
        CommandEncoderDescriptor { label: fun(&self.label) }
    }
}

impl<T> Default for CommandEncoderDescriptor<Option<T>> {
    fn default() -> (r: Self)
        ensures
            r.label is None,
    {
        CommandEncoderDescriptor { label: None }
    }
}

/// Describes a command buffer.
#[derive(Clone, Debug, Default, PartialEq, Eq, Hash)]
pub struct CommandBufferDescriptor<L> {
    /// The label, for debugging.
    pub label: L,
}

impl<L> CommandBufferDescriptor<L> {
    /// The same descriptor with its label passed through `fun`.
    pub fn map_label<K>(&self, fun: impl FnOnce(&L) -> K) -> (r: CommandBufferDescriptor<K>)
        requires
            call_requires(fun, (&self.label,)),
        ensures
            call_ensures(fun, (&self.label,), r.label),
    {
        CommandBufferDescriptor { label: fun(&self.label) }
    }
}

/// The depth-stencil attachment of a render bundle.
#[derive(Clone, Copy, Debug, PartialEq, Eq, Hash, Structural)]
pub struct RenderBundleDepthStencil {
    /// The format of the attachment.
    pub format: TextureFormat,
    /// Whether the depth aspect is only read.
    pub depth_read_only: bool,
    /// Whether the stencil aspect is only read.
    pub stencil_read_only: bool,
}

/// Describes a render bundle.
#[derive(Clone, Debug, PartialEq, Eq, Hash)]
pub struct RenderBundleDescriptor<L> {
    /// The label, for debugging.
    pub label: L,
}

impl<L> RenderBundleDescriptor<L> {
    /// The same descriptor with its label passed through `fun`.
    pub fn map_label<K>(&self, fun: impl FnOnce(&L) -> K) -> (r: RenderBundleDescriptor<K>)
        requires
            call_requires(fun, (&self.label,)),
        ensures
            call_ensures(fun, (&self.label,), r.label),
    {
        RenderBundleDescriptor { label: fun(&self.label) }
    }
}

impl<T> Default for RenderBundleDescriptor<Option<T>> {
    fn default() -> (r: Self)
        ensures
            r.label is None,
    {
        RenderBundleDescriptor { label: None }
    }
}

/// The kind of a query set.
#[derive(Clone, Copy, Debug, PartialEq, Eq, Hash, Structural)]
pub enum QueryType {
    /// Counts the samples that pass the depth and stencil tests.
    Occlusion,
    /// Records the given pipeline statistics.
    PipelineStatistics(PipelineStatisticsTypes),
    /// Records timestamps.
    Timestamp,
}

/// Describes a query set.
#[derive(Clone, Debug)]
pub struct QuerySetDescriptor<L> {
    /// The label, for debugging.
    pub label: L,
    /// The kind of queries.
    pub ty: QueryType,
    /// The number of queries.
    pub count: u32,
}

impl<L> QuerySetDescriptor<L> {
    /// The same descriptor with its label passed through `fun`.
    pub fn map_label<'a, K>(&'a self, fun: impl FnOnce(&'a L) -> K) -> (r: QuerySetDescriptor<K>)
        requires
            call_requires(fun, (&self.label,)),
        ensures
            call_ensures(fun, (&self.label,), r.label),
            r.ty == self.ty,
            r.count == self.count,
    {
        QuerySetDescriptor { label: fun(&self.label), ty: self.ty, count: self.count }
    }
}

/// The arguments of an indirect draw.
#[derive(Clone, Copy, Debug, Default, PartialEq, Eq, Hash, Structural)]
pub struct DrawIndirectArgs {
    /// The number of vertices.
    pub vertex_count: u32,
    /// The number of instances.
    pub instance_count: u32,
    /// The index of the first vertex.
    pub first_vertex: u32,
    /// The index of the first instance.
    pub first_instance: u32,
}

/// The arguments of an indirect indexed draw.
#[derive(Clone, Copy, Debug, Default, PartialEq, Eq, Hash, Structural)]
pub struct DrawIndexedIndirectArgs {
    /// The number of indices.
    pub index_count: u32,
    /// The number of instances.
    pub instance_count: u32,
    /// The position of the first index.
    pub first_index: u32,
    /// The value added to each index.
    pub base_vertex: i32,
    /// The index of the first instance.
    pub first_instance: u32,
}

/// The arguments of an indirect dispatch.
#[derive(Clone, Copy, Debug, Default, PartialEq, Eq, Hash, Structural)]
pub struct DispatchIndirectArgs {
    /// The number of workgroups along x.
    pub x: u32,
    /// The number of workgroups along y.
    pub y: u32,
    /// The number of workgroups along z.
    pub z: u32,
}

/// The size of the triangle geometry of a bottom-level acceleration structure.
#[derive(Clone, Copy, Debug, PartialEq, Eq, Hash, Structural)]
pub struct BlasTriangleGeometrySizeDescriptor {
    /// The format of the vertices.
    pub vertex_format: VertexFormat,
    /// The number of vertices.
    pub vertex_count: u32,
    /// The format of the indices, if indexed.
    pub index_format: Option<IndexFormat>,
    /// The number of indices, if indexed.
    pub index_count: Option<u32>,
    /// Options of the geometry.
    pub flags: AccelerationStructureGeometryFlags,
}

/// The sizes of the geometries of a bottom-level acceleration structure.
#[derive(Clone, Debug)]
pub enum BlasGeometrySizeDescriptors {
    /// Triangle geometries.
    Triangles {
        /// One size per geometry.
        descriptors: Vec<BlasTriangleGeometrySizeDescriptor>,
    },
}

/// Whether an acceleration structure is rebuilt or updated.
#[derive(Clone, Copy, Debug, PartialEq, Eq, Hash, Structural)]
pub enum AccelerationStructureUpdateMode {
    /// Always rebuilt.
    Build,
    /// Updated where that is possible.
    PreferUpdate,
}

/// Describes a bottom-level acceleration structure.
#[derive(Clone, Debug, PartialEq, Eq, Hash)]
pub struct CreateBlasDescriptor<L> {
    /// The label, for debugging.
    pub label: L,
    /// Build options.
    pub flags: AccelerationStructureFlags,
    /// Whether it is rebuilt or updated.
    pub update_mode: AccelerationStructureUpdateMode,
}

impl<L> CreateBlasDescriptor<L> {
    /// The same descriptor with its label passed through `fun`.
    pub fn map_label<K>(&self, fun: impl FnOnce(&L) -> K) -> (r: CreateBlasDescriptor<K>)
        requires
            call_requires(fun, (&self.label,)),
        ensures
            call_ensures(fun, (&self.label,), r.label),
            r.flags == self.flags,
            r.update_mode == self.update_mode,
    {
        CreateBlasDescriptor { label: fun(&self.label), flags: self.flags, update_mode: self.update_mode }
    }
}

/// Describes a top-level acceleration structure.
#[derive(Clone, Debug, PartialEq, Eq, Hash)]
pub struct CreateTlasDescriptor<L> {
    /// The label, for debugging.
    pub label: L,
    /// The largest number of instances.
    pub max_instances: u32,
    /// Build options.
    pub flags: AccelerationStructureFlags,
    /// Whether it is rebuilt or updated.
    pub update_mode: AccelerationStructureUpdateMode,
}

impl<L> CreateTlasDescriptor<L> {
    /// The same descriptor with its label passed through `fun`.
    pub fn map_label<K>(&self, fun: impl FnOnce(&L) -> K) -> (r: CreateTlasDescriptor<K>)
        requires
            call_requires(fun, (&self.label,)),
        ensures
            call_ensures(fun, (&self.label,), r.label),
            r.max_instances == self.max_instances,
            r.flags == self.flags,
            r.update_mode == self.update_mode,
    {
        CreateTlasDescriptor {
            label: fun(&self.label),
            flags: self.flags,
            update_mode: self.update_mode,
            max_instances: self.max_instances,
        }
    }
}

/// The layout of texture data in a buffer.
#[derive(Clone, Copy, Debug, Default, PartialEq, Eq, Hash, Structural)]
pub struct ImageDataLayout {
    /// The offset in bytes of the first texel.
    pub offset: u64,
    /// The bytes from one row of blocks to the next, if there is more than one.
    pub bytes_per_row: Option<u32>,
    /// The rows from one image to the next, if there is more than one.
    pub rows_per_image: Option<u32>,
}

/// A buffer and the layout of texture data in it, for a copy.
#[derive(Clone, Copy, Debug)]
pub struct ImageCopyBuffer<B> {
    /// The buffer.
    pub buffer: B,
    /// The layout of the data.
    pub layout: ImageDataLayout,
}

/// A place in a texture, for a copy.
#[derive(Clone, Copy, Debug)]
pub struct ImageCopyTexture<T> {
    /// The texture.
    pub texture: T,
    /// The mip level.
    pub mip_level: u32,
    /// The origin of the copy.
    pub origin: Origin3d,
    /// The aspect.
    pub aspect: TextureAspect,
}

/// A color space.
#[derive(Clone, Copy, Debug, PartialEq, Eq, Hash, Structural)]
pub enum PredefinedColorSpace {
    /// sRGB.
    Srgb,
    /// The wide-gamut display color space.
    DisplayP3,
}

/// A place in a texture with its color space, for a copy from an external image.
#[derive(Clone, Copy, Debug)]
pub struct ImageCopyTextureTagged<T> {
    /// The texture.
    pub texture: T,
    /// The mip level.
    pub mip_level: u32,
    /// The origin of the copy.
    pub origin: Origin3d,
    /// The aspect.
    pub aspect: TextureAspect,
    /// The color space of the texture.
    pub color_space: PredefinedColorSpace,
    /// Whether the texture holds premultiplied alpha.
    pub premultiplied_alpha: bool,
}

impl<T> ImageCopyTexture<T> {
    /// This place with a color space and an alpha convention added.
    pub fn to_tagged(self, color_space: PredefinedColorSpace, premultiplied_alpha: bool) -> (r:
        ImageCopyTextureTagged<T>)
        ensures
            r == (ImageCopyTextureTagged {
                texture: self.texture,
                mip_level: self.mip_level,
                origin: self.origin,
                aspect: self.aspect,
                color_space,
                premultiplied_alpha,
            }),
    {
        ImageCopyTextureTagged {
            texture: self.texture,
            mip_level: self.mip_level,
            origin: self.origin,
            aspect: self.aspect,
            color_space,
            premultiplied_alpha,
        }
    }
}

impl<T> ImageCopyTextureTagged<T> {
    /// This place without its color space and alpha convention.
    pub fn to_untagged(self) -> (r: ImageCopyTexture<T>)
        ensures
            r == (ImageCopyTexture {
                texture: self.texture,
                mip_level: self.mip_level,
                origin: self.origin,
                aspect: self.aspect,
            }),
    {
        ImageCopyTexture {
            texture: self.texture,
            mip_level: self.mip_level,
            origin: self.origin,
            aspect: self.aspect,
        }
    }
}

/// How frames are presented to a surface.
#[derive(Clone, Copy, Debug, Default, PartialEq, Eq, Hash, Structural)]
pub enum PresentMode {
    /// Vertical sync where available, without it otherwise.
    AutoVsync,
    /// Without vertical sync where available, with it otherwise.
    AutoNoVsync,
    /// A queue of frames, presented at vertical blanks.
    #[default]
    Fifo,
    /// As `Fifo`, but a late frame is presented at once.
    FifoRelaxed,
    /// Presented at once, which may tear.
    Immediate,
    /// The newest frame is presented at the next vertical blank.
    Mailbox,
}

/// How the alpha of a surface is composited.
#[derive(Clone, Copy, Debug, PartialEq, Eq, Hash, Structural)]
pub enum CompositeAlphaMode {
    /// Chosen from what is supported.
    Auto,
    /// Alpha is ignored.
    Opaque,
    /// Color is premultiplied by alpha.
    PreMultiplied,
    /// Color is not premultiplied.
    PostMultiplied,
    /// As the platform decides.
    Inherit,
}

impl Default for CompositeAlphaMode {
    fn default() -> (r: Self)
        ensures
            r == CompositeAlphaMode::Auto,
    {
        CompositeAlphaMode::Auto
    }
}

/// What a surface supports with a given adapter.
#[derive(Debug)]
pub struct SurfaceCapabilities {
    /// The formats, the preferred first.
    pub formats: Vec<TextureFormat>,
    /// The present modes.
    pub present_modes: Vec<PresentMode>,
    /// The alpha modes.
    pub alpha_modes: Vec<CompositeAlphaMode>,
    /// The usages of the surface's textures.
    pub usages: TextureUsages,
}

impl Default for SurfaceCapabilities {
    fn default() -> (r: Self)
        ensures
            r.formats@.len() == 0,
            r.present_modes@.len() == 0,
            r.alpha_modes@ == seq![CompositeAlphaMode::Opaque],
            r.usages.bits == TextureUsages::RENDER_ATTACHMENT,
    {
        let mut alpha_modes: Vec<CompositeAlphaMode> = Vec::new();
        alpha_modes.push(CompositeAlphaMode::Opaque);
        assert(alpha_modes@ =~= seq![CompositeAlphaMode::Opaque]);
        SurfaceCapabilities {
            formats: Vec::new(),
            present_modes: Vec::new(),
            alpha_modes,
            usages: TextureUsages::from_bits_retain(TextureUsages::RENDER_ATTACHMENT),
        }
    }
}

/// How a surface is configured.
#[derive(Clone, Debug, PartialEq, Eq, Hash)]
pub struct SurfaceConfiguration<V> {
    /// The usages of the surface's textures.
    pub usage: TextureUsages,
    /// The format of the surface's textures.
    pub format: TextureFormat,
    /// The width in pixels.
    pub width: u32,
    /// The height in pixels.
    pub height: u32,
    /// How frames are presented.
    pub present_mode: PresentMode,
    /// The number of frames that may be queued ahead.
    pub desired_maximum_frame_latency: u32,
    /// How alpha is composited.
    pub alpha_mode: CompositeAlphaMode,
    /// The formats that views of the surface's textures may have.
    pub view_formats: V,
}

impl<V: Clone> SurfaceConfiguration<V> {
    /// The same configuration with a copy of its view formats passed through `fun`.
    pub fn map_view_formats<M>(&self, fun: impl FnOnce(V) -> M) -> (r: SurfaceConfiguration<M>)
        requires
            forall|v: V| call_requires(fun, (v,)),
        ensures
            exists|v: V| call_ensures(fun, (v,), r.view_formats),
            r.usage == self.usage,
            r.format == self.format,
            r.width == self.width,
            r.height == self.height,
            r.present_mode == self.present_mode,
            r.desired_maximum_frame_latency == self.desired_maximum_frame_latency,
            r.alpha_mode == self.alpha_mode,
    {
        let v = self.view_formats.clone();
        let ghost cloned = v;
        let view_formats = fun(v);
        let r = SurfaceConfiguration {
            usage: self.usage,
            format: self.format,
            width: self.width,
            height: self.height,
            present_mode: self.present_mode,
            desired_maximum_frame_latency: self.desired_maximum_frame_latency,
            alpha_mode: self.alpha_mode,
            view_formats,
        };
        assert(call_ensures(fun, (cloned,), r.view_formats));
        r
    }
}

/// The state of a surface texture that was acquired.
#[derive(Debug)]
pub enum SurfaceStatus {
    /// Fine.
    Good,
    /// Usable, but the surface should be configured again.
    Suboptimal,
    /// Acquiring timed out.
    Timeout,
    /// The surface changed and must be configured again.
    Outdated,
    /// The surface is gone and must be created again.
    Lost,
}

/// A time at which a frame was presented, in nanoseconds; the largest value
/// stands for an invalid timestamp.
#[derive(Clone, Copy, Debug, PartialEq, Eq, PartialOrd, Ord, Structural)]
pub struct PresentationTimestamp(pub u128);

impl PresentationTimestamp {
    /// The invalid timestamp.
    pub fn invalid() -> (r: Self)
        ensures
            r.0 == u128::MAX,
    {
        PresentationTimestamp(u128::MAX)
    }

    /// Whether this is the invalid timestamp.
    pub fn is_invalid(self) -> (r: bool)
        ensures
            r == (self.0 == u128::MAX),
    {
        self.0 == u128::MAX
    }
}

/// A range of push constant memory and the stages that see it.
#[derive(Debug, PartialEq, Eq, Hash)]
pub struct PushConstantRange {
    /// The stages that see the range.
    pub stages: ShaderStages,
    /// The range in bytes.
    pub range: Range<u32>,
}

impl Clone for PushConstantRange {
    fn clone(&self) -> (r: Self)
        ensures
            r == *self,
    {
        PushConstantRange { stages: self.stages, range: self.range.start..self.range.end }
    }
}

} // verus!
