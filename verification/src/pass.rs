//! The compute pass: the kernel, its binding, and the commands that run it.

use crate::device::{BindingLayout, Command, PixelFormat, StorageAccess};
use crate::dispatch::{groups_needed, DispatchSize, WORKGROUP_HEIGHT, WORKGROUP_WIDTH};
use crate::stage::ShaderStage;
use vstd::prelude::*;
use vstd::slice::slice_to_vec;

verus! {

/// The commands of one compute pass that launches `size` workgroups: the pass
/// is opened, the output is bound as group 0, the pipeline is bound, the
/// workgroups are launched once, and the pass is closed.
pub open spec fn pass_commands(size: DispatchSize) -> Seq<Command> {
    seq![
        Command::BeginComputePass,
        Command::SetBindGroup { group: 0 },
        Command::SetPipeline,
        Command::Dispatch { size },
        Command::EndComputePass,
    ]
}

/// A compute pass built from a compiled kernel.
#[derive(Debug)]
pub struct PathTracingPass {
    kernel: Vec<u32>,
    entry_point: &'static str,
    binding: BindingLayout,
    group_width: u32,
    group_height: u32,
}

impl PathTracingPass {
    #[verifier::type_invariant]
    spec fn valid(self) -> bool {
        &&& self.kernel@.len() > 0
        &&& self.group_width > 0
        &&& self.group_height > 0
    }

    /// The words of the kernel.
    pub closed spec fn kernel_spec(self) -> Seq<u32> {
        self.kernel@
    }

    /// The entry symbol the pipeline is built with.
    pub closed spec fn entry_spec(self) -> Seq<char> {
        self.entry_point@
    }

    /// The binding the kernel expects.
    pub closed spec fn binding_spec(self) -> BindingLayout {
        self.binding
    }

    /// Invocations per workgroup, horizontally and vertically.
    pub closed spec fn workgroup_spec(self) -> (u32, u32) {
        (self.group_width, self.group_height)
    }

    /// The binding every pass is built with: the output image at slot 0, as a
    /// storage image that the shader only writes.
    pub open spec fn output_binding() -> BindingLayout {
        BindingLayout { slot: 0, access: StorageAccess::WriteOnly, format: PixelFormat::Rgba8Unorm }
    }

    /// Describes the pass for `kernel`: the compute entry point, the output
    /// binding, and the configured workgroup of 8 by 8 invocations. No pass
    /// is made of a kernel without words.
    pub fn new(kernel: &[u32]) -> (pass: Self)
        requires
            kernel@.len() > 0,
        ensures
            pass.kernel_spec() == kernel@,
            pass.entry_spec() == ShaderStage::Compute.entry_spec(),
            pass.binding_spec() == Self::output_binding(),
            pass.workgroup_spec() == (WORKGROUP_WIDTH, WORKGROUP_HEIGHT),
    {
        PathTracingPass {
            kernel: slice_to_vec(kernel),
            entry_point: ShaderStage::Compute.entry_point(),
            binding: BindingLayout {
                slot: 0,
                access: StorageAccess::WriteOnly,
                format: PixelFormat::Rgba8Unorm,
            },
            group_width: WORKGROUP_WIDTH,
            group_height: WORKGROUP_HEIGHT,
        }
    }

    /// The same pass for a kernel whose workgroups have `width` by `height`
    /// invocations; there is none when either is zero.
    pub fn with_workgroup(self, width: u32, height: u32) -> (pass: Option<Self>)
        ensures
            pass is Some <==> width > 0 && height > 0,
            pass matches Some(p) ==> {
                &&& p.kernel_spec() == self.kernel_spec()
                &&& p.entry_spec() == self.entry_spec()
                &&& p.binding_spec() == self.binding_spec()
                &&& p.workgroup_spec() == (width, height)
            },
    {
        proof {
            use_type_invariant(&self);
        }
        if width == 0 || height == 0 {
            return None;
        }
        Some(
            PathTracingPass {
                kernel: self.kernel,
                entry_point: self.entry_point,
                binding: self.binding,
                group_width: width,
                group_height: height,
            },
        )
    }

    /// The words of the kernel, of which there is at least one.
    pub fn kernel(&self) -> (words: &[u32])
        ensures
            words@ == self.kernel_spec(),
            words@.len() > 0,
    {
        proof {
            use_type_invariant(self);
        }
        self.kernel.as_slice()
    }

    /// The entry symbol the pipeline is built with.
    pub fn entry_point(&self) -> (name: &'static str)
        ensures
            name@ == self.entry_spec(),
    {
        self.entry_point
    }

    /// The binding the kernel expects.
    pub fn binding(&self) -> (binding: BindingLayout)
        ensures
            binding == self.binding_spec(),
    {
        self.binding
    }

    /// Invocations per workgroup, horizontally and vertically.
    pub fn workgroup(&self) -> (size: (u32, u32))
        ensures
            size == self.workgroup_spec(),
            size.0 > 0,
            size.1 > 0,
    {
        proof {
            use_type_invariant(self);
        }
        (self.group_width, self.group_height)
    }

    /// The workgroups this pass launches over an image of the given size.
    pub open spec fn dispatch_spec(self, width: u32, height: u32) -> DispatchSize {
        DispatchSize {
            x: groups_needed(width as int, self.workgroup_spec().0 as int) as u32,
            y: groups_needed(height as int, self.workgroup_spec().1 as int) as u32,
            z: 1,
        }
    }

    /// Records the pass over an image of `width` by `height` pixels: one pass,
    /// one dispatch, with enough workgroups to cover the image.
    pub fn execute(&self, width: u32, height: u32) -> (commands: Vec<Command>)
        ensures
            commands@ == pass_commands(self.dispatch_spec(width, height)),
            Some(self.dispatch_spec(width, height)) == DispatchSize::covering_spec(
                width,
                height,
                self.workgroup_spec().0,
                self.workgroup_spec().1,
            ),
    {
        proof {
            use_type_invariant(self);
        }
        let x = crate::dispatch::group_count(width, self.group_width);
        let y = crate::dispatch::group_count(height, self.group_height);
        let size = DispatchSize { x, y, z: 1 };
        let mut commands: Vec<Command> = Vec::new();
        commands.push(Command::BeginComputePass);
        commands.push(Command::SetBindGroup { group: 0 });
        commands.push(Command::SetPipeline);
        commands.push(Command::Dispatch { size });
        commands.push(Command::EndComputePass);
        assert(commands@ =~= pass_commands(size));
        commands
    }
}

} // verus!
