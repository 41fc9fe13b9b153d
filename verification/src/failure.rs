//! The classes of failure that end a run, and how a process reports them.

use crate::compiler::CompileError;
use vstd::prelude::*;

verus! {

/// What went wrong, by class. Every class ends the run where it occurs: there
/// is no retry and no degraded mode.
#[derive(Clone, Copy, Debug, PartialEq, Eq, Structural)]
pub enum FailureClass {
    /// The shader source could not be read; no GPU work was begun.
    SourceUnreadable,
    /// The compiler rejected the shader.
    ShaderRejected,
    /// No adapter or device could be had.
    DeviceUnavailable,
    /// The compiled binary was not accepted as a shader module.
    PipelineRejected,
    /// The image read back does not have the expected size.
    ReadbackMismatch,
    /// The image could not be encoded.
    ImageRejected,
}

impl FailureClass {
    /// The exit status of each class.
    pub open spec fn status(self) -> int {
        match self {
            FailureClass::SourceUnreadable => 2,
            FailureClass::ShaderRejected => 3,
            FailureClass::DeviceUnavailable => 4,
            FailureClass::PipelineRejected => 5,
            FailureClass::ReadbackMismatch => 6,
            FailureClass::ImageRejected => 7,
        }
    }

    /// The message of each class.
    pub open spec fn message_spec(self) -> Seq<char> {
        match self {
            FailureClass::SourceUnreadable => "shader source could not be read"@,
            FailureClass::ShaderRejected => "shader did not compile"@,
            FailureClass::DeviceUnavailable => "no GPU adapter or device available"@,
            FailureClass::PipelineRejected => "compiled shader is not a valid module"@,
            FailureClass::ReadbackMismatch => "image read back has an unexpected size"@,
            FailureClass::ImageRejected => "image could not be encoded"@,
        }
    }

    /// The status a process exits with after a failure of this class.
    pub fn exit_status(&self) -> (code: u8)
        ensures
            code == self.status(),
            code != 0,
    {
        match self {
            FailureClass::SourceUnreadable => 2,
            FailureClass::ShaderRejected => 3,
            FailureClass::DeviceUnavailable => 4,
            FailureClass::PipelineRejected => 5,
            FailureClass::ReadbackMismatch => 6,
            FailureClass::ImageRejected => 7,
        }
    }

    /// A short description of this class of failure.
    pub fn message(&self) -> (text: &'static str)
        ensures
            text@ == self.message_spec(),
    {
        match self {
            FailureClass::SourceUnreadable => "shader source could not be read",
            FailureClass::ShaderRejected => "shader did not compile",
            FailureClass::DeviceUnavailable => "no GPU adapter or device available",
            FailureClass::PipelineRejected => "compiled shader is not a valid module",
            FailureClass::ReadbackMismatch => "image read back has an unexpected size",
            FailureClass::ImageRejected => "image could not be encoded",
        }
    }

    /// The class of a failed compilation: an unreadable source is a class of
    /// its own, apart from anything the compiler reports.
    pub open spec fn compile_class(error: CompileError) -> FailureClass {
        match error {
            CompileError::Io(_) => FailureClass::SourceUnreadable,
            CompileError::Diagnostic(_) => FailureClass::ShaderRejected,
            CompileError::Toolchain { .. } => FailureClass::ShaderRejected,
        }
    }

    /// Classifies a failed compilation.
    pub fn of_compile(error: &CompileError) -> (class: FailureClass)
        ensures
            class == Self::compile_class(*error),
    {
        match error {
            CompileError::Io(_) => FailureClass::SourceUnreadable,
            CompileError::Diagnostic(_) => FailureClass::ShaderRejected,
            CompileError::Toolchain { .. } => FailureClass::ShaderRejected,
        }
    }
}

/// No class exits with status zero, and two classes that share an exit status
/// or a message are the same class.
pub proof fn lemma_classes_are_told_apart(a: FailureClass, b: FailureClass)
    ensures
        0 < a.status() < 256,
        a.status() == b.status() ==> a == b,
        a.message_spec() == b.message_spec() ==> a == b,
        a.message_spec().len() > 0,
{
    reveal_strlit("shader source could not be read");
    reveal_strlit("shader did not compile");
    reveal_strlit("no GPU adapter or device available");
    reveal_strlit("compiled shader is not a valid module");
    reveal_strlit("image read back has an unexpected size");
    reveal_strlit("image could not be encoded");
    assert(FailureClass::SourceUnreadable.message_spec().len() == 31);
    assert(FailureClass::ShaderRejected.message_spec().len() == 22);
    assert(FailureClass::DeviceUnavailable.message_spec().len() == 34);
    assert(FailureClass::PipelineRejected.message_spec().len() == 37);
    assert(FailureClass::ReadbackMismatch.message_spec().len() == 38);
    assert(FailureClass::ImageRejected.message_spec().len() == 26);
}

} // verus!
