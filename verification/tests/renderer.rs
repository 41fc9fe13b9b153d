use compute_harness::device::{
    Backend, BindingLayout, Command, DeviceRequest, PixelFormat, PowerPreference, StorageAccess,
    TextureSpec,
};
use compute_harness::dispatch::DispatchSize;
use compute_harness::pass::PathTracingPass;
use compute_harness::readback::ReadbackError;
use compute_harness::renderer::Renderer;

#[test]
fn renderer_asks_for_a_vulkan_passthrough_device() {
    let renderer = Renderer::new();
    assert_eq!(
        renderer.device(),
        DeviceRequest {
            backend: Backend::Vulkan,
            power_preference: PowerPreference::HighPerformance,
            shader_passthrough: true,
        }
    );
}

#[test]
fn configured_output_is_a_1280_by_720_storage_image() {
    let renderer = Renderer::new();
    assert_eq!(
        renderer.output(),
        TextureSpec {
            width: 1280,
            height: 720,
            format: PixelFormat::Rgba8Unorm,
            storage_binding: true,
            copy_source: true,
        }
    );
    assert_eq!(renderer.output().format.bytes_per_pixel(), 4);
    assert_eq!(renderer.layout().bytes_per_row(), 5120);
    assert_eq!(renderer.layout().buffer_size(), 4 * 1280 * 720);
}

#[test]
fn pass_is_built_around_the_kernel() {
    let kernel = [0x0723_0203u32, 0x0001_0000, 11, 0];
    let pass = PathTracingPass::new(&kernel);
    assert_eq!(pass.kernel(), &kernel);
    assert!(!pass.kernel().is_empty());
    assert_eq!(pass.entry_point(), "cs_main");
    assert_eq!(
        pass.binding(),
        BindingLayout { slot: 0, access: StorageAccess::WriteOnly, format: PixelFormat::Rgba8Unorm }
    );
    assert_eq!(pass.workgroup(), (8, 8));
}

#[test]
fn workgroup_without_invocations_is_refused() {
    let kernel = [1u32, 2, 3];
    assert!(PathTracingPass::new(&kernel).with_workgroup(0, 4).is_none());
    assert!(PathTracingPass::new(&kernel).with_workgroup(4, 0).is_none());
    let pass = PathTracingPass::new(&kernel).with_workgroup(4, 2).unwrap();
    assert_eq!(pass.workgroup(), (4, 2));
    assert_eq!(pass.kernel(), &kernel);
    assert_eq!(pass.entry_point(), "cs_main");
}

#[test]
fn pass_records_one_dispatch_inside_one_pass() {
    let pass = PathTracingPass::new(&[1, 2, 3]);
    assert_eq!(
        pass.execute(1280, 720),
        vec![
            Command::BeginComputePass,
            Command::SetBindGroup { group: 0 },
            Command::SetPipeline,
            Command::Dispatch { size: DispatchSize { x: 160, y: 90, z: 1 } },
            Command::EndComputePass,
        ]
    );
    assert_eq!(
        pass.execute(1281, 1)[3],
        Command::Dispatch { size: DispatchSize { x: 161, y: 1, z: 1 } }
    );
}

#[test]
fn render_submits_the_pass_and_waits() {
    let renderer = Renderer::new();
    let pass = PathTracingPass::new(&[1, 2, 3]);
    assert_eq!(
        renderer.render(&pass),
        vec![
            Command::BeginComputePass,
            Command::SetBindGroup { group: 0 },
            Command::SetPipeline,
            Command::Dispatch { size: DispatchSize { x: 160, y: 90, z: 1 } },
            Command::EndComputePass,
            Command::Submit,
            Command::WaitIdle,
        ]
    );
}

#[test]
fn readback_copies_then_maps_then_waits() {
    let renderer = Renderer::new();
    assert_eq!(
        renderer.readback(),
        vec![
            Command::CopyTextureToBuffer {
                width: 1280,
                height: 720,
                bytes_per_row: 5120,
                buffer_size: 3_686_400,
            },
            Command::Submit,
            Command::MapRead,
            Command::WaitIdle,
        ]
    );
    let small = Renderer::with_output(4, 4).unwrap();
    assert_eq!(
        small.readback()[0],
        Command::CopyTextureToBuffer { width: 4, height: 4, bytes_per_row: 256, buffer_size: 1024 }
    );
}

#[test]
fn output_image_has_four_bytes_per_pixel() {
    let renderer = Renderer::new();
    let mapped: Vec<u8> = (0..3_686_400u32).map(|i| (i % 255) as u8).collect();
    let image = renderer.get_output_image(&mapped).unwrap();
    assert_eq!(image.len(), 4 * 1280 * 720);
    assert_eq!(image, mapped);
    assert_eq!(
        renderer.get_output_image(&mapped[1..]),
        Err(ReadbackError::LengthMismatch { expected: 3_686_400, actual: 3_686_399 })
    );
}

#[test]
fn four_by_four_red_image_end_to_end() {
    let renderer = Renderer::with_output(4, 4).unwrap();
    let pass = PathTracingPass::new(&[1, 2, 3]).with_workgroup(4, 4).unwrap();
    let commands = renderer.render(&pass);
    assert_eq!(commands[3], Command::Dispatch { size: DispatchSize { x: 1, y: 1, z: 1 } });

    let mut mapped = vec![0u8; 1024];
    for row in 0..4 {
        for pixel in 0..4 {
            let at = row * 256 + pixel * 4;
            mapped[at..at + 4].copy_from_slice(&[255, 0, 0, 255]);
        }
    }
    let image = renderer.get_output_image(&mapped).unwrap();
    assert_eq!(image, [255u8, 0, 0, 255].repeat(16));
}

#[test]
fn output_too_large_to_lay_out_has_no_renderer() {
    assert!(Renderer::with_output(u32::MAX, 1).is_none());
    assert!(Renderer::with_output(u32::MAX / 4, 1).is_none());
    assert!(Renderer::with_output(0, 0).is_some());
}
