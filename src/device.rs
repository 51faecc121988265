//! Backends, instances, adapters and devices: what is asked for when one is
//! created, and what it reports.
use vstd::prelude::*;

use crate::flags::{Backends, DownlevelFlags, Features, InstanceFlags};
use crate::limits::Limits;
use crate::names::same_text;
use crate::pipeline::VertexFormat;
use std::ops::Range;
use std::path::PathBuf;
use std::string::String;

verus! {

/// A file-system path, carried as it is.
#[verifier::external_type_specification]
#[verifier::external_body]
pub struct ExPathBuf(PathBuf);

/// A backend that the API can run on.
#[derive(Clone, Copy, Debug, PartialEq, Eq, Hash, Structural)]
pub enum Backend {
    /// A backend that does nothing, for testing.
    Empty,
    /// Vulkan.
    Vulkan,
    /// Metal.
    Metal,
    /// Direct3D 12.
    Dx12,
    /// OpenGL, OpenGL ES and WebGL2.
    Gl,
    /// WebGPU in the browser.
    BrowserWebGpu,
}

impl Backend {
    /// The name of the backend.
    pub open spec fn spec_name(self) -> Seq<char> {
        match self {
            Backend::Empty => "empty"@,
            Backend::Vulkan => "vulkan"@,
            Backend::Metal => "metal"@,
            Backend::Dx12 => "dx12"@,
            Backend::Gl => "gl"@,
            Backend::BrowserWebGpu => "webgpu"@,
        }
    }

    /// The name of the backend.
    pub fn to_str(self) -> (r: &'static str)
        ensures
            r@ == self.spec_name(),
    {
        match self {
            Backend::Empty => "empty",
            Backend::Vulkan => "vulkan",
            Backend::Metal => "metal",
            Backend::Dx12 => "dx12",
            Backend::Gl => "gl",
            Backend::BrowserWebGpu => "webgpu",
        }
    }
}

impl Default for Backends {
    fn default() -> (r: Self)
        ensures
            r.bits == Backends::ALL_BITS,
    {
        Backends::all()
    }
}

/// How much power to favour when an adapter is chosen.
#[derive(Clone, Copy, Debug, Default, PartialEq, Eq, Hash, Structural)]
pub enum PowerPreference {
    /// Power is not considered.
    #[default]
    NoPreference,
    /// The adapter that uses the least power.
    LowPower,
    /// The adapter with the highest performance.
    HighPerformance,
}

/// What is asked of an adapter when one is requested.
#[derive(Clone, Debug, PartialEq, Eq, Hash)]
pub struct RequestAdapterOptions<S> {
    /// The power preference.
    pub power_preference: PowerPreference,
    /// Whether only a fallback (software) adapter may be returned.
    pub force_fallback_adapter: bool,
    /// A surface that the adapter must be able to present to.
    pub compatible_surface: Option<S>,
}

impl<S> Default for RequestAdapterOptions<S> {
    fn default() -> (r: Self)
        ensures
            r.power_preference == PowerPreference::NoPreference,
            !r.force_fallback_adapter,
            r.compatible_surface is None,
    {
        RequestAdapterOptions {
            power_preference: PowerPreference::NoPreference,
            force_fallback_adapter: false,
            compatible_surface: None,
        }
    }
}

impl Features {
    /// The capabilities that the standard itself defines.
    pub fn all_webgpu_mask() -> (r: Self)
        ensures
            r.bits == 0xFFFFFu64 & Features::ALL_BITS,
    {
        Features::from_bits_truncate(0xFFFFF)
    }

    /// The capabilities that only native backends offer.
    pub fn all_native_mask() -> (r: Self)
        ensures
            r.bits == !(0xFFFFFu64 & Features::ALL_BITS) & Features::ALL_BITS,
    {
        Features::from_bits_truncate(!Self::all_webgpu_mask().bits())
    }

    /// The vertex formats that a bottom-level acceleration structure may be
    /// built from: `Float32x3` when ray tracing is enabled, none otherwise.
    pub fn allowed_vertex_formats_for_blas(&self) -> (r: Vec<VertexFormat>)
        ensures
            r@ == (if self.has(Features::EXPERIMENTAL_RAY_TRACING_ACCELERATION_STRUCTURE) {
                seq![VertexFormat::Float32x3]
            } else {
                Seq::empty()
            }),
    {
        let mut formats: Vec<VertexFormat> = Vec::new();
        if self.contains(
            Features::from_bits_retain(Features::EXPERIMENTAL_RAY_TRACING_ACCELERATION_STRUCTURE),
        ) {
            formats.push(VertexFormat::Float32x3);
        }
        assert(formats@ =~= (if self.has(Features::EXPERIMENTAL_RAY_TRACING_ACCELERATION_STRUCTURE) {
            seq![VertexFormat::Float32x3]
        } else {
            Seq::empty()
        }));
        formats
    }
}

/// The value that an environment setting of a flag stands for: anything but
/// `0` turns the flag on.
pub open spec fn env_flag(value: Seq<char>) -> bool {
    value != "0"@
}

/// `bits` with `flag` set or cleared as the setting `value` says, if there is one.
pub open spec fn with_setting(bits: u32, flag: u32, value: Option<Seq<char>>) -> u32 {
    match value {
        Some(v) => if env_flag(v) {
            bits | flag
        } else {
            bits & !flag
        },
        None => bits,
    }
}

/// Applies the setting `value` of one flag, if there is one.
fn apply_setting(flags: &mut InstanceFlags, flag: u32, value: Option<&str>)
    ensures
        final(flags).bits == with_setting(
            old(flags).bits,
            flag,
            match value {
                Some(v) => Some(v@),
                None => None,
            },
        ),
{
    match value {
        Some(v) => {
            let on = !same_text(v, "0");
            flags.set(InstanceFlags::from_bits_retain(flag), on);
        },
        None => {},
    }
}

/// The text of an optional setting.
pub open spec fn setting_view(value: Option<&str>) -> Option<Seq<char>> {
    match value {
        Some(v) => Some(v@),
        None => None,
    }
}

impl InstanceFlags {
    /// Debug information and validation.
    pub fn debugging() -> (r: Self)
        ensures
            r.bits == InstanceFlags::DEBUG | InstanceFlags::VALIDATION,
    {
        InstanceFlags::from_bits_retain(InstanceFlags::DEBUG | InstanceFlags::VALIDATION)
    }

    /// Debug information, validation, and validation on the GPU.
    pub fn advanced_debugging() -> (r: Self)
        ensures
            r.bits == InstanceFlags::DEBUG | InstanceFlags::VALIDATION
                | InstanceFlags::GPU_BASED_VALIDATION,
    {
        Self::debugging().union(InstanceFlags::from_bits_retain(InstanceFlags::GPU_BASED_VALIDATION))
    }

    /// The flags for a build with or without debug assertions: debugging in the
    /// first case, none in the second.
    pub fn from_build_config(debug_assertions: bool) -> (r: Self)
        ensures
            r.bits == (if debug_assertions {
                InstanceFlags::DEBUG | InstanceFlags::VALIDATION
            } else {
                0
            }),
    {
        if debug_assertions {
            return InstanceFlags::debugging();
        }
        InstanceFlags::empty()
    }

    /// These flags with the settings that were found for validation, debug
    /// information, non-compliant adapters and GPU-based validation applied, in
    /// that order; a setting other than `0` sets its flag, `0` clears it, and an
    /// absent one leaves it.
    pub fn with_env(
        self,
        validation: Option<&str>,
        debug: Option<&str>,
        allow_underlying_noncompliant_adapter: Option<&str>,
        gpu_based_validation: Option<&str>,
    ) -> (r: Self)
        ensures
            r.bits == with_setting(
                with_setting(
                    with_setting(
                        with_setting(self.bits, InstanceFlags::VALIDATION, setting_view(validation)),
                        InstanceFlags::DEBUG,
                        setting_view(debug),
                    ),
                    InstanceFlags::ALLOW_UNDERLYING_NONCOMPLIANT_ADAPTER,
                    setting_view(allow_underlying_noncompliant_adapter),
                ),
                InstanceFlags::GPU_BASED_VALIDATION,
                setting_view(gpu_based_validation),
            ),
    {
        let mut flags = self;
        apply_setting(&mut flags, InstanceFlags::VALIDATION, validation);
        apply_setting(&mut flags, InstanceFlags::DEBUG, debug);
        apply_setting(&mut flags, InstanceFlags::ALLOW_UNDERLYING_NONCOMPLIANT_ADAPTER, allow_underlying_noncompliant_adapter);
        apply_setting(&mut flags, InstanceFlags::GPU_BASED_VALIDATION, gpu_based_validation);
        flags
    }
}

impl DownlevelFlags {
    /// The downlevel flags that the standard asks for: all of them but
    /// anisotropic filtering.
    pub fn compliant() -> (r: Self)
        ensures
            r.bits == (DownlevelFlags::ALL_BITS & !DownlevelFlags::ANISOTROPIC_FILTERING)
                & DownlevelFlags::ALL_BITS,
    {
        DownlevelFlags::from_bits_truncate(DownlevelFlags::ALL_BITS & !DownlevelFlags::ANISOTROPIC_FILTERING)
    }
}

/// Downlevel limits; none are defined yet.
#[derive(Clone, Copy, Debug, Default, PartialEq, Eq, Hash, Structural)]
pub struct DownlevelLimits {}

/// The shader model that an adapter supports.
#[derive(Clone, Copy, Debug, PartialEq, Eq, PartialOrd, Ord, Hash, Structural)]
pub enum ShaderModel {
    /// Extremely limited shaders, including a total instruction limit.
    Sm2,
    /// Missing minor features and storage images.
    Sm4,
    /// Full shader support.
    Sm5,
}

/// What an adapter offers short of the standard.
#[derive(Clone, Copy, Debug, PartialEq, Eq, Hash, Structural)]
pub struct DownlevelCapabilities {
    /// The downlevel flags that are supported.
    pub flags: DownlevelFlags,
    /// The downlevel limits.
    pub limits: DownlevelLimits,
    /// The shader model.
    pub shader_model: ShaderModel,
}

impl Default for DownlevelCapabilities {
    fn default() -> (r: Self)
        ensures
            r.flags.bits == DownlevelFlags::ALL_BITS,
            r.shader_model == ShaderModel::Sm5,
    {
        DownlevelCapabilities {
            flags: DownlevelFlags::all(),
            limits: DownlevelLimits {},
            shader_model: ShaderModel::Sm5,
        }
    }
}

impl DownlevelCapabilities {
    /// Whether the capabilities reach what the standard asks for: the compliant
    /// flags and shader model 5.
    pub fn is_webgpu_compliant(&self) -> (r: bool)
        ensures
            r == (self.flags.has(
                (DownlevelFlags::ALL_BITS & !DownlevelFlags::ANISOTROPIC_FILTERING)
                    & DownlevelFlags::ALL_BITS,
            ) && self.shader_model == ShaderModel::Sm5),
    {
        let sm5 = match self.shader_model {
            ShaderModel::Sm5 => true,
            _ => false,
        };
        self.flags.contains(DownlevelFlags::compliant()) && sm5
    }
}

/// The kind of an adapter.
#[derive(Clone, Copy, Debug, PartialEq, Eq, Hash, Structural)]
pub enum DeviceType {
    /// Other or unknown.
    Other,
    /// A GPU that shares memory with the CPU.
    IntegratedGpu,
    /// A GPU with memory of its own.
    DiscreteGpu,
    /// A virtual or hosted GPU.
    VirtualGpu,
    /// Rendering in software on the CPU.
    Cpu,
}

/// What an adapter reports about itself.
#[derive(Clone, Debug, PartialEq, Eq)]
pub struct AdapterInfo {
    /// The name of the adapter.
    pub name: String,
    /// The vendor id.
    pub vendor: u32,
    /// The device id.
    pub device: u32,
    /// The kind of adapter.
    pub device_type: DeviceType,
    /// The name of the driver.
    pub driver: String,
    /// Further information about the driver.
    pub driver_info: String,
    /// The backend that the adapter runs on.
    pub backend: Backend,
}

/// How the device should trade memory use against performance.
#[derive(Debug, Default)]
pub enum MemoryHints {
    /// Favour performance.
    #[default]
    Performance,
    /// Favour memory use.
    MemoryUsage,
    /// Allocate in blocks whose sizes run over the given range.
    Manual {
        /// The least and the greatest size of a memory block.
        suballocated_device_memory_block_size: Range<u64>,
    },
}

impl Clone for MemoryHints {
    fn clone(&self) -> (r: Self)
        ensures
            r == *self,
    {
        match self {
            MemoryHints::Performance => MemoryHints::Performance,
            MemoryHints::MemoryUsage => MemoryHints::MemoryUsage,
            MemoryHints::Manual { suballocated_device_memory_block_size: sizes } => {
                MemoryHints::Manual { suballocated_device_memory_block_size: sizes.start..sizes.end }
            },
        }
    }
}

/// What is asked of a device when one is created.
#[derive(Clone, Debug)]
pub struct DeviceDescriptor<L> {
    /// The label, for debugging.
    pub label: L,
    /// The capabilities that must be enabled.
    pub required_features: Features,
    /// The limits that must be met.
    pub required_limits: Limits,
    /// The memory hints.
    pub memory_hints: MemoryHints,
}

impl<L> DeviceDescriptor<L> {
    /// The same descriptor with its label passed through `fun`.
    pub fn map_label<K>(&self, fun: impl FnOnce(&L) -> K) -> (r: DeviceDescriptor<K>)
        requires
            call_requires(fun, (&self.label,)),
        ensures
            call_ensures(fun, (&self.label,), r.label),
            r.required_features == self.required_features,
            r.required_limits == self.required_limits,
    {
        DeviceDescriptor {
            label: fun(&self.label),
            required_features: self.required_features,
            required_limits: self.required_limits,
            memory_hints: self.memory_hints.clone(),
        }
    }
}

/// Why a device was lost.
#[derive(Clone, Copy, Debug, PartialEq, Eq, Hash, Structural)]
pub enum DeviceLostReason {
    /// Lost for an unknown reason.
    Unknown,
    /// Destroyed on purpose.
    Destroyed,
    /// Dropped.
    Dropped,
    /// Its lost-callback was replaced.
    ReplacedCallback,
}

/// How long to wait when a device is polled.
#[derive(Clone, Debug)]
pub enum Maintain<T> {
    /// Wait until the given submission is done.
    WaitForSubmissionIndex(T),
    /// Wait until everything submitted is done.
    Wait,
    /// Check without waiting.
    Poll,
}

impl<T> Maintain<T> {
    /// Wait until everything submitted is done.
    pub fn wait() -> (r: Self)
        ensures
            r is Wait,
    {
        Maintain::Wait
    }

    /// Wait until the given submission is done.
    pub fn wait_for(submission_index: T) -> (r: Self)
        ensures
            r == Maintain::WaitForSubmissionIndex(submission_index),
    {
        Maintain::WaitForSubmissionIndex(submission_index)
    }

    /// Whether the poll waits.
    pub fn is_wait(&self) -> (r: bool)
        ensures
            r == !(self is Poll),
    {
        match *self {
            Self::WaitForSubmissionIndex(..) | Self::Wait => true,
            Self::Poll => false,
        }
    }

    /// The same poll with its submission index passed through `func`.
    pub fn map_index<U, F>(self, func: F) -> (r: Maintain<U>) where F: FnOnce(T) -> U
        requires
            forall|i: T| self == Maintain::WaitForSubmissionIndex(i) ==> call_requires(func, (i,)),
        ensures
            match self {
                Maintain::WaitForSubmissionIndex(i) => match r {
                    Maintain::WaitForSubmissionIndex(u) => call_ensures(func, (i,), u),
                    _ => false,
                },
                Maintain::Wait => r is Wait,
                Maintain::Poll => r is Poll,
            },
    {
        match self {
            Self::WaitForSubmissionIndex(i) => Maintain::WaitForSubmissionIndex(func(i)),
            Self::Wait => Maintain::Wait,
            Self::Poll => Maintain::Poll,
        }
    }
}

/// The outcome of polling a device.
#[derive(Debug)]
pub enum MaintainResult {
    /// Nothing is left in the submission queue.
    SubmissionQueueEmpty,
    /// The poll is over, with submissions that may still be in flight.
    Polled,
}

impl MaintainResult {
    /// Whether nothing is left in the submission queue.
    pub fn is_queue_empty(&self) -> (r: bool)
        ensures
            r == (*self is SubmissionQueueEmpty),
    {
        match self {
            MaintainResult::SubmissionQueueEmpty => true,
            MaintainResult::Polled => false,
        }
    }

    /// Accepts the outcome; a poll has no timeout that could have passed.
    pub fn panic_on_timeout(self) {
    }
}

/// Whether shaders check their accesses at run time.
#[derive(Clone, Debug)]
pub struct ShaderBoundChecks {
    runtime_checks: bool,
}

impl ShaderBoundChecks {
    /// Whether accesses are checked at run time.
    pub closed spec fn spec_runtime_checks(&self) -> bool {
        self.runtime_checks
    }

    /// Checks at run time.
    pub fn new() -> (r: Self)
        ensures
            r.spec_runtime_checks(),
    {
        ShaderBoundChecks { runtime_checks: true }
    }

    /// Whether accesses are checked at run time.
    pub fn runtime_checks(&self) -> (r: bool)
        ensures
            r == self.spec_runtime_checks(),
    {
        self.runtime_checks
    }
}

impl Default for ShaderBoundChecks {
    fn default() -> (r: Self)
        ensures
            r.spec_runtime_checks(),
    {
        Self::new()
    }
}

/// The shader compiler of the Direct3D 12 backend.
#[derive(Clone, Debug, Default)]
pub enum Dx12Compiler {
    /// The old compiler, which needs no extra library.
    #[default]
    Fxc,
    /// The newer compiler, from libraries found at these paths or by the platform's rules.
    Dxc {
        /// Where `dxil.dll` is.
        dxil_path: Option<PathBuf>,
        /// Where `dxcompiler.dll` is.
        dxc_path: Option<PathBuf>,
    },
    /// The newer compiler, statically linked.
    MachDxc,
}

/// The minor version of OpenGL ES 3 to ask for.
#[derive(Clone, Copy, Debug, Default, PartialEq, Eq, Hash, Structural)]
pub enum Gles3MinorVersion {
    /// The highest that the driver offers.
    #[default]
    Automatic,
    /// OpenGL ES 3.0.
    Version0,
    /// OpenGL ES 3.1.
    Version1,
    /// OpenGL ES 3.2.
    Version2,
}

/// Options for creating an instance.
#[derive(Debug)]
pub struct InstanceDescriptor {
    /// The backends to enable.
    pub backends: Backends,
    /// Flags that tune the instance.
    pub flags: InstanceFlags,
    /// The shader compiler of the Direct3D 12 backend.
    pub dx12_shader_compiler: Dx12Compiler,
    /// The minor version of OpenGL ES 3 to ask for.
    pub gles_minor_version: Gles3MinorVersion,
}

/// A type that may be sent between threads wherever threads exist.
pub trait WasmNotSend: Send {}

impl<T: Send> WasmNotSend for T {}

/// A type that may be shared between threads wherever threads exist.
pub trait WasmNotSync: Sync {}

impl<T: Sync> WasmNotSync for T {}

/// A type that may be sent and shared between threads wherever threads exist.
pub trait WasmNotSendSync: WasmNotSend + WasmNotSync {}

impl<T: WasmNotSend + WasmNotSync> WasmNotSendSync for T {}

} // verus!
