//! Plain descriptions of what is asked of the GPU: the device, the output
//! texture, the shader binding, and the commands of one run.

use crate::dispatch::DispatchSize;
use vstd::prelude::*;

verus! {

/// A family of graphics backends.
#[derive(Clone, Copy, Debug, PartialEq, Eq, Structural)]
pub enum Backend {
    Vulkan,
    Metal,
    Dx12,
    Gl,
}

/// Which adapter is preferred when several are present.
#[derive(Clone, Copy, Debug, PartialEq, Eq, Structural)]
pub enum PowerPreference {
    LowPower,
    HighPerformance,
}

/// Pixel formats of the output image.
#[derive(Clone, Copy, Debug, PartialEq, Eq, Structural)]
pub enum PixelFormat {
    /// Red, green, blue and alpha, eight bits each.
    Rgba8Unorm,
}

/// How a shader may access a storage image.
#[derive(Clone, Copy, Debug, PartialEq, Eq, Structural)]
pub enum StorageAccess {
    WriteOnly,
    ReadOnly,
    ReadWrite,
}

/// The instance, adapter and device to ask for.
#[derive(Clone, Copy, Debug, PartialEq, Eq, Structural)]
pub struct DeviceRequest {
    /// The only backend the instance may use.
    pub backend: Backend,
    /// Preference among the adapters of that backend.
    pub power_preference: PowerPreference,
    /// Whether the device must take compiled shader binaries as they are.
    pub shader_passthrough: bool,
}

/// A two-dimensional texture with one layer, one mip level and one sample.
#[derive(Clone, Copy, Debug, PartialEq, Eq, Structural)]
pub struct TextureSpec {
    pub width: u32,
    pub height: u32,
    pub format: PixelFormat,
    /// Usable as a storage image that a shader writes.
    pub storage_binding: bool,
    /// Usable as the source of a copy.
    pub copy_source: bool,
}

/// The single storage image a compute shader is bound to.
#[derive(Clone, Copy, Debug, PartialEq, Eq, Structural)]
pub struct BindingLayout {
    /// Binding slot within the bind group.
    pub slot: u32,
    pub access: StorageAccess,
    pub format: PixelFormat,
}

/// One step asked of the device. Steps are carried out in the order given.
#[derive(Clone, Copy, Debug, PartialEq, Eq, Structural)]
pub enum Command {
    /// Open a compute pass in a fresh command recorder.
    BeginComputePass,
    /// Bind the output image as bind group `group`.
    SetBindGroup { group: u32 },
    /// Bind the compute pipeline.
    SetPipeline,
    /// Launch the workgroups.
    Dispatch { size: DispatchSize },
    /// Close the compute pass.
    EndComputePass,
    /// Copy the output image into a fresh staging buffer of `buffer_size`
    /// bytes whose rows start every `bytes_per_row` bytes.
    CopyTextureToBuffer { width: u32, height: u32, bytes_per_row: u32, buffer_size: u64 },
    /// Finish the recorder and submit it as the only item of its batch.
    Submit,
    /// Ask for the staging buffer to be mapped for reading.
    MapRead,
    /// Block until the device has finished all pending work.
    WaitIdle,
}

impl PixelFormat {
    /// Bytes taken by one pixel.
    pub open spec fn pixel_bytes(self) -> int {
        match self {
            PixelFormat::Rgba8Unorm => 4,
        }
    }

    /// Bytes taken by one pixel.
    pub fn bytes_per_pixel(&self) -> (bytes: u32)
        ensures
            bytes == self.pixel_bytes(),
    {
        match self {
            PixelFormat::Rgba8Unorm => 4,
        }
    }
}

} // verus!
