//! The backend-agnostic vocabulary of a GPU API: texture formats and what
//! they support, capability sets, limit tables and descriptor records, with
//! the rules that relate them.
use vstd::prelude::*;

pub mod descriptors;
pub mod device;
pub mod flags;
pub mod format;
pub mod laws;
pub mod limits;
pub mod names;
pub mod pipeline;
pub mod texture;

pub use descriptors::{
    AccelerationStructureUpdateMode, BlasGeometrySizeDescriptors,
    BlasTriangleGeometrySizeDescriptor, BufferDescriptor, CommandBufferDescriptor,
    CommandEncoderDescriptor, CompositeAlphaMode, CreateBlasDescriptor, CreateTlasDescriptor,
    DispatchIndirectArgs, DrawIndexedIndirectArgs, DrawIndirectArgs, ImageCopyBuffer,
    ImageCopyTexture, ImageCopyTextureTagged, ImageDataLayout, PredefinedColorSpace, PresentMode,
    PresentationTimestamp, PushConstantRange, QuerySetDescriptor, QueryType,
    RenderBundleDepthStencil, RenderBundleDescriptor, SurfaceCapabilities, SurfaceConfiguration,
    SurfaceStatus,
};
pub use device::{
    AdapterInfo, Backend, DeviceDescriptor, DeviceLostReason, DeviceType, DownlevelCapabilities,
    DownlevelLimits, Dx12Compiler, Gles3MinorVersion, InstanceDescriptor, Maintain,
    MaintainResult, MemoryHints, PowerPreference, RequestAdapterOptions, ShaderBoundChecks,
    ShaderModel, WasmNotSend, WasmNotSendSync, WasmNotSync,
};
pub use flags::{
    AccelerationStructureFlags, AccelerationStructureGeometryFlags, Backends, BufferUsages,
    ColorWrites, DownlevelFlags, Features, InstanceFlags, PipelineStatisticsTypes, ShaderStages,
    TextureFormatFeatureFlags, TextureUsages,
};
pub use format::{
    AstcBlock, AstcChannel, TextureAspect, TextureFormat, TextureFormatFeatures, TextureSampleType,
};
pub use limits::{LimitCheck, LimitFailure, Limits};
pub use pipeline::{
    AddressMode, BindGroupLayoutEntry, BindingType, BlendComponent, BlendFactor, BlendOperation,
    BlendState, BufferBindingType, ColorTargetState, CompareFunction, Face, FilterMode, FrontFace,
    IndexFormat, MultisampleState, PolygonMode, PrimitiveState, PrimitiveTopology,
    SamplerBindingType, SamplerBorderColor, StencilFaceState, StencilOperation, StencilState,
    StorageTextureAccess, VertexAttribute, VertexFormat, VertexStepMode,
};
pub use texture::{
    Extent3d, ImageSubresourceRange, Origin2d, Origin3d, TextureDescriptor, TextureDimension,
    TextureViewDimension,
};

verus! {

/// Buffer-texture copies must have `bytes_per_row` aligned to this number.
pub const COPY_BYTES_PER_ROW_ALIGNMENT: u32 = 256;

/// An offset into the query resolve buffer has to be aligned to this.
pub const QUERY_RESOLVE_BUFFER_ALIGNMENT: u64 = 256;

/// Buffer-to-buffer copies, and buffer clear offsets and sizes, must be aligned to this.
pub const COPY_BUFFER_ALIGNMENT: u64 = 4;

/// Size to align mappings.
pub const MAP_ALIGNMENT: u64 = 8;

/// Vertex buffer strides have to be aligned to this number.
pub const VERTEX_STRIDE_ALIGNMENT: u64 = 4;

/// Alignment that all push constants need.
pub const PUSH_CONSTANT_ALIGNMENT: u32 = 4;

/// Maximum number of queries in a query set.
pub const QUERY_SET_MAX_QUERIES: u32 = 4096;

/// Size of a single piece of query data.
pub const QUERY_SIZE: u32 = 8;

/// Alignment of the transform buffer of an acceleration structure build.
pub const TRANSFORM_BUFFER_ALIGNMENT: u64 = 16;

/// Alignment of the instance buffer of an acceleration structure build.
pub const INSTANCE_BUFFER_ALIGNMENT: u64 = 16;

} // verus!
