//! The renderer: what it asks of the device, and what it makes of the answer.

use crate::device::{Backend, Command, DeviceRequest, PixelFormat, PowerPreference, TextureSpec};
use crate::dispatch::{OUTPUT_HEIGHT, OUTPUT_WIDTH};
use crate::pass::{pass_commands, PathTracingPass};
use crate::readback::{
    dense_len,
    dense_pixels,
    ReadbackError,
    ReadbackLayout,
    ROW_PITCH_ALIGNMENT,
};
use vstd::prelude::*;

verus! {

/// The commands that run `pass_steps` to completion: the recorded pass, its
/// submission, and a wait for the device.
pub open spec fn render_commands(pass_steps: Seq<Command>) -> Seq<Command> {
    pass_steps + seq![Command::Submit, Command::WaitIdle]
}

/// The commands that bring the output image to the host: the copy into the
/// staging buffer, its submission, the request to map the buffer, and a wait
/// for the device, after which the mapped bytes may be read.
pub open spec fn readback_commands(
    width: u32,
    height: u32,
    bytes_per_row: u32,
    buffer_size: u64,
) -> Seq<Command> {
    seq![
        Command::CopyTextureToBuffer { width, height, bytes_per_row, buffer_size },
        Command::Submit,
        Command::MapRead,
        Command::WaitIdle,
    ]
}

/// The device every renderer asks for: the Vulkan backend and no other, the
/// high-performance adapter, and shader binaries taken as they are.
pub open spec fn required_device() -> DeviceRequest {
    DeviceRequest {
        backend: Backend::Vulkan,
        power_preference: PowerPreference::HighPerformance,
        shader_passthrough: true,
    }
}

/// The output texture of the given size: RGBA with eight bits per channel,
/// written by the shader as a storage image and read back by a copy.
pub open spec fn output_texture(width: u32, height: u32) -> TextureSpec {
    TextureSpec {
        width,
        height,
        format: PixelFormat::Rgba8Unorm,
        storage_binding: true,
        copy_source: true,
    }
}

/// A renderer with one output image.
#[derive(Clone, Copy, Debug)]
pub struct Renderer {
    device: DeviceRequest,
    output: TextureSpec,
    layout: ReadbackLayout,
}

impl Renderer {
    #[verifier::type_invariant]
    spec fn valid(self) -> bool {
        &&& self.layout.width_spec() == self.output.width
        &&& self.layout.height_spec() == self.output.height
        &&& self.layout.size_spec() == self.layout.pitch_spec() * self.output.height
    }

    /// The device this renderer asks for.
    pub closed spec fn device_spec(self) -> DeviceRequest {
        self.device
    }

    /// The texture this renderer writes to.
    pub closed spec fn output_spec(self) -> TextureSpec {
        self.output
    }

    /// How the output is laid out when it is read back.
    pub closed spec fn layout_spec(self) -> ReadbackLayout {
        self.layout
    }

    /// Whether this renderer is the one for an output of `width` by `height`
    /// pixels.
    pub open spec fn renders(self, width: u32, height: u32) -> bool {
        &&& self.device_spec() == required_device()
        &&& self.output_spec() == output_texture(width, height)
        &&& self.layout_spec().width_spec() == width
        &&& self.layout_spec().height_spec() == height
        &&& self.layout_spec().pitch_spec() == crate::readback::padded_row_bytes(
            width as int,
            ROW_PITCH_ALIGNMENT as int,
        )
        &&& self.layout_spec().size_spec() == self.layout_spec().pitch_spec() * height
    }

    /// The renderer for an output of `width` by `height` pixels, unless the
    /// image is too large to be laid out.
    pub fn with_output(width: u32, height: u32) -> (renderer: Option<Self>)
        ensures
            renderer is Some <==> ReadbackLayout::layout_exists(width, height, ROW_PITCH_ALIGNMENT),
            renderer matches Some(r) ==> r.renders(width, height),
    {
        match ReadbackLayout::new(width, height, ROW_PITCH_ALIGNMENT) {
            Some(layout) => Some(
                Renderer {
                    device: DeviceRequest {
                        backend: Backend::Vulkan,
                        power_preference: PowerPreference::HighPerformance,
                        shader_passthrough: true,
                    },
                    output: TextureSpec {
                        width,
                        height,
                        format: PixelFormat::Rgba8Unorm,
                        storage_binding: true,
                        copy_source: true,
                    },
                    layout,
                },
            ),
            None => None,
        }
    }

    /// The renderer for the configured output of 1280 by 720 pixels, whose
    /// rows of 5120 bytes need no padding.
    pub fn new() -> (renderer: Self)
        ensures
            renderer.renders(OUTPUT_WIDTH, OUTPUT_HEIGHT),
            renderer.layout_spec().pitch_spec() == 5120,
            renderer.layout_spec().size_spec() == 3686400,
    {
        proof {
            lemma_configured_layout();
        }
        let renderer = Self::with_output(OUTPUT_WIDTH, OUTPUT_HEIGHT);
        renderer.unwrap()
    }

    /// The device this renderer asks for.
    pub fn device(&self) -> (device: DeviceRequest)
        ensures
            device == self.device_spec(),
    {
        self.device
    }

    /// The texture this renderer writes to.
    pub fn output(&self) -> (output: TextureSpec)
        ensures
            output == self.output_spec(),
    {
        self.output
    }

    /// How the output is laid out when it is read back.
    pub fn layout(&self) -> (layout: ReadbackLayout)
        ensures
            layout == self.layout_spec(),
    {
        self.layout
    }

    /// Runs `pass` over the whole output: the pass is recorded, submitted on
    /// its own, and waited for.
    pub fn render(&self, pass: &PathTracingPass) -> (commands: Vec<Command>)
        ensures
            commands@ == render_commands(
                pass_commands(
                    pass.dispatch_spec(self.output_spec().width, self.output_spec().height),
                ),
            ),
    {
        let mut commands = pass.execute(self.output.width, self.output.height);
        commands.push(Command::Submit);
        commands.push(Command::WaitIdle);
        commands
    }

    /// The commands that bring the output into a mapped staging buffer.
    pub fn readback(&self) -> (commands: Vec<Command>)
        ensures
            commands@ == readback_commands(
                self.output_spec().width,
                self.output_spec().height,
                self.layout_spec().pitch_spec(),
                self.layout_spec().size_spec(),
            ),
    {
        let mut commands: Vec<Command> = Vec::new();
        commands.push(
            Command::CopyTextureToBuffer {
                width: self.output.width,
                height: self.output.height,
                bytes_per_row: self.layout.bytes_per_row(),
                buffer_size: self.layout.buffer_size(),
            },
        );
        commands.push(Command::Submit);
        commands.push(Command::MapRead);
        commands.push(Command::WaitIdle);
        assert(commands@ =~= readback_commands(
            self.output.width,
            self.output.height,
            self.layout.pitch_spec(),
            self.layout.size_spec(),
        ));
        commands
    }

    /// The output image, from the mapped staging buffer: four bytes for every
    /// pixel, row after row without padding. A buffer of any other length
    /// than the staging buffer's is refused.
    pub fn get_output_image(&self, mapped: &[u8]) -> (image: Result<Vec<u8>, ReadbackError>)
        ensures
            image is Ok <==> mapped@.len() == self.layout_spec().size_spec(),
            image matches Ok(pixels) ==> {
                &&& pixels@.len() == dense_len(
                    self.output_spec().width as int,
                    self.output_spec().height as int,
                )
                &&& pixels@ == dense_pixels(
                    mapped@,
                    self.output_spec().width as int,
                    self.output_spec().height as int,
                    self.layout_spec().pitch_spec() as int,
                )
            },
            image matches Err(e) ==> e == (ReadbackError::LengthMismatch {
                expected: self.layout_spec().size_spec(),
                actual: mapped@.len() as u64,
            }),
    {
        proof {
            use_type_invariant(self);
        }
        self.layout.unpack(mapped)
    }
}

/// The configured output can be laid out, and its rows need no padding: a row
/// of 1280 pixels takes 5120 bytes, which is 20 times the row alignment.
pub proof fn lemma_configured_layout()
    ensures
        ReadbackLayout::layout_exists(OUTPUT_WIDTH, OUTPUT_HEIGHT, ROW_PITCH_ALIGNMENT),
        crate::readback::padded_row_bytes(OUTPUT_WIDTH as int, ROW_PITCH_ALIGNMENT as int) == 5120,
        dense_len(OUTPUT_WIDTH as int, OUTPUT_HEIGHT as int) == 3686400,
{
}

/// The order of a run, whatever the number of workgroups: rendering opens one
/// pass, launches the workgroups once inside it, closes it, submits and then
/// waits; reading back copies, submits, asks for the mapping and then waits,
/// so that the mapped bytes are read only after the device is done.
pub proof fn lemma_run_order(
    size: crate::dispatch::DispatchSize,
    width: u32,
    height: u32,
    bytes_per_row: u32,
    buffer_size: u64,
)
    ensures
        render_commands(pass_commands(size)).len() == 7,
        forall|i: int|
            0 <= i < 7 ==> (#[trigger] render_commands(pass_commands(size))[i]
                == Command::BeginComputePass <==> i == 0),
        forall|i: int|
            0 <= i < 7 ==> (#[trigger] render_commands(pass_commands(size))[i]
                is Dispatch <==> i == 3),
        render_commands(pass_commands(size))[3] == (Command::Dispatch { size }),
        forall|i: int|
            0 <= i < 7 ==> (#[trigger] render_commands(pass_commands(size))[i]
                == Command::EndComputePass <==> i == 4),
        render_commands(pass_commands(size))[5] == Command::Submit,
        render_commands(pass_commands(size))[6] == Command::WaitIdle,
        readback_commands(width, height, bytes_per_row, buffer_size).len() == 4,
        readback_commands(width, height, bytes_per_row, buffer_size)[0]
            is CopyTextureToBuffer,
        readback_commands(width, height, bytes_per_row, buffer_size)[1] == Command::Submit,
        readback_commands(width, height, bytes_per_row, buffer_size)[2] == Command::MapRead,
        readback_commands(width, height, bytes_per_row, buffer_size)[3] == Command::WaitIdle,
{
}

} // verus!
