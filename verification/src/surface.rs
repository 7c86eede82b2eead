//! The device context: what is asked of the platform while a device is
//! negotiated, and the configuration of the presentation surface.

use vstd::prelude::*;
use vstd::string::*;

verus! {

/// A size in physical pixels.
#[derive(Clone, Copy, Debug, PartialEq, Eq, Structural)]
pub struct PhysicalSize {
    pub width: u32,
    pub height: u32,
}

/// A graphics backend.
#[derive(Clone, Copy, Debug, PartialEq, Eq, Structural)]
pub enum Backend {
    Vulkan,
    Metal,
    Dx12,
    Dx11,
    Gl,
    BrowserWebGpu,
}

/// Which adapter to prefer where there are several.
#[derive(Clone, Copy, Debug, PartialEq, Eq, Structural)]
pub enum PowerPreference {
    LowPower,
    HighPerformance,
}

impl Default for PowerPreference {
    /// The adapter that uses the least power.
    fn default() -> (preference: PowerPreference)
        ensures
            preference == PowerPreference::LowPower,
    {
        PowerPreference::LowPower
    }
}

/// What is asked of an adapter.
#[derive(Clone, Copy, Debug, PartialEq, Eq, Structural)]
pub struct RequestAdapterOptions {
    pub power_preference: PowerPreference,
    /// Only an adapter that can present to the surface will do.
    pub compatible_surface: bool,
    /// Only a fallback adapter will do.
    pub force_fallback_adapter: bool,
}

/// A named set of limits that a device is asked to support.
#[derive(Clone, Copy, Debug, PartialEq, Eq, Structural)]
pub enum Limits {
    Default,
    DownlevelDefaults,
    DownlevelWebgl2Defaults,
}

/// What is asked of a device.
#[derive(Clone, Copy, Debug, PartialEq, Eq)]
pub struct DeviceDescriptor {
    pub label: &'static str,
    /// The features asked for, one bit each; no bit asks for none.
    pub features: u64,
    pub limits: Limits,
}

/// A colour format that a surface may prefer.
#[derive(Clone, Copy, Debug, PartialEq, Eq, Structural)]
pub enum TextureFormat {
    Bgra8UnormSrgb,
    Rgba8UnormSrgb,
    Bgra8Unorm,
    Rgba8Unorm,
}

/// When a finished image reaches the screen.
#[derive(Clone, Copy, Debug, PartialEq, Eq, Structural)]
pub enum PresentMode {
    Immediate,
    Mailbox,
    Fifo,
}

/// The uses that a texture is made for.
#[derive(Clone, Copy, Debug, PartialEq, Eq, Structural)]
pub struct TextureUsages {
    pub copy_src: bool,
    pub copy_dst: bool,
    pub texture_binding: bool,
    pub storage_binding: bool,
    pub render_attachment: bool,
}

/// How a surface presents its images.
#[derive(Clone, Copy, Debug, PartialEq, Eq, Structural)]
pub struct SurfaceConfiguration {
    pub usage: TextureUsages,
    pub format: TextureFormat,
    pub width: u32,
    pub height: u32,
    pub present_mode: PresentMode,
}

/// The one backend that an instance is restricted to.
pub fn backend() -> (backend: Backend)
    ensures
        backend == Backend::Vulkan,
{
    Backend::Vulkan
}

/// The adapter to ask for: one that can present to the surface, of default
/// power preference, a fallback adapter or not as the caller chooses.
pub fn adapter_options(force_fallback_adapter: bool) -> (options: RequestAdapterOptions)
    ensures
        options == (RequestAdapterOptions {
            power_preference: PowerPreference::LowPower,
            compatible_surface: true,
            force_fallback_adapter,
        }),
{
    RequestAdapterOptions {
        power_preference: PowerPreference::default(),
        compatible_surface: true,
        force_fallback_adapter,
    }
}

/// The device to ask for: no feature beyond the core, the default limits.
pub fn device_descriptor() -> (descriptor: DeviceDescriptor)
    ensures
        descriptor.label@ == "Device Descriptor"@,
        descriptor.features == 0,
        descriptor.limits == Limits::Default,
{
    DeviceDescriptor { label: "Device Descriptor", features: 0, limits: Limits::Default }
}

/// The configuration of a surface of the given size whose preferred format
/// is `format`.
pub open spec fn config_for(size: PhysicalSize, format: TextureFormat) -> SurfaceConfiguration {
    SurfaceConfiguration {
        usage: TextureUsages {
            copy_src: false,
            copy_dst: false,
            texture_binding: false,
            storage_binding: false,
            render_attachment: true,
        },
        format,
        width: size.width,
        height: size.height,
        present_mode: PresentMode::Fifo,
    }
}

/// Configures a surface for rendering into it: the format it prefers, the
/// size of the window, and presentation locked to the display's refresh.
pub fn get_config(size: &PhysicalSize, format: TextureFormat) -> (config: SurfaceConfiguration)
    ensures
        config == config_for(*size, format),
{
    SurfaceConfiguration {
        usage: TextureUsages {
            copy_src: false,
            copy_dst: false,
            texture_binding: false,
            storage_binding: false,
            render_attachment: true,
        },
        format,
        width: size.width,
        height: size.height,
        present_mode: PresentMode::Fifo,
    }
}

} // verus!
