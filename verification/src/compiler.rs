//! The decisions around one shader compilation: what is handed to the
//! compiler toolchain, and what its outcome means.

use crate::stage::ShaderStage;
use vstd::prelude::*;
use vstd::string::StringExecFns;

verus! {

/// A source file that could not be read.
#[derive(Clone, Debug)]
pub struct ReadFailure {
    /// The path that was asked for.
    pub path: String,
    /// What the file system reported.
    pub reason: String,
}

/// Supplies the text of files named by `#include` directives.
///
/// The handler keeps no state: whether a file is found depends on the file
/// system alone.
#[derive(Clone, Copy, Debug, PartialEq, Eq, Structural)]
pub struct IncludeHandler {}

impl IncludeHandler {
    pub fn new() -> (handler: Self)
        ensures
            handler == (IncludeHandler {  }),
    {
        Self {  }
    }

    /// What the compiler is told about an included file, given the outcome of
    /// reading it: its text, or nothing when it could not be read.
    pub open spec fn resolution(read: Result<String, ReadFailure>) -> Option<String> {
        match read {
            Ok(text) => Some(text),
            Err(_) => None,
        }
    }

    /// Answers an include request from the outcome of reading the file. A file
    /// that cannot be read is reported as absent, never as an error.
    pub fn load_source(&mut self, read: Result<String, ReadFailure>) -> (text: Option<String>)
        ensures
            text == Self::resolution(read),
            *final(self) == *old(self),
    {
        match read {
            Ok(text) => Some(text),
            Err(_) => None,
        }
    }
}

/// A compiler's complaint about one source file.
#[derive(Clone, Debug)]
pub struct CompilationDiagnostic {
    /// Path of the source file that was compiled.
    pub path: String,
    /// The compiler's error output, as it was produced.
    pub message: String,
}

/// The text a diagnostic is presented with: the path in parentheses after a
/// fixed prefix, then the compiler's message on the following lines.
pub open spec fn rendered(path: Seq<char>, message: Seq<char>) -> Seq<char> {
    "shader error ("@ + path + "):\n"@ + message
}

impl CompilationDiagnostic {
    /// Presents the diagnostic as text.
    pub fn render(&self) -> (text: String)
        ensures
            text@ == rendered(self.path@, self.message@),
    {
        let mut text = String::from_str("shader error (");
        text.append(self.path.as_str());
        text.append("):\n");
        text.append(self.message.as_str());
        text
    }
}

/// The rendered text holds the path and the message unchanged: the path right
/// after the 14 characters of the prefix, the message at the very end.
pub proof fn lemma_rendered_holds_path_and_message(path: Seq<char>, message: Seq<char>)
    ensures
        rendered(path, message).len() == 17 + path.len() + message.len(),
        rendered(path, message).subrange(14, 14 + path.len() as int) == path,
        rendered(path, message).skip(17 + path.len() as int) == message,
        rendered(path, message).len() > 0,
{
    reveal_strlit("shader error (");
    reveal_strlit("):\n");
    let text = rendered(path, message);
    assert("shader error ("@.len() == 14);
    assert("):\n"@.len() == 3);
    assert(text.subrange(14, 14 + path.len() as int) =~= path);
    assert(text.skip(17 + path.len() as int) =~= message);
}

/// A rejected source is described with the compiler's message unaltered: the
/// description is the fixed prefix, the path in parentheses, a line break,
/// and then the message exactly as the compiler gave it, to the last
/// character. The description is as long as both together and 17 more, so a
/// message that is not empty is not lost.
pub proof fn lemma_rejection_is_described_verbatim(error: CompileError)
    requires
        error is Diagnostic,
    ensures
        error.description() == rendered(error->Diagnostic_0.path@, error->Diagnostic_0.message@),
        error.description().len() == 17 + error->Diagnostic_0.path@.len()
            + error->Diagnostic_0.message@.len(),
        error.description().subrange(14, 14 + error->Diagnostic_0.path@.len() as int)
            == error->Diagnostic_0.path@,
        error.description().skip(17 + error->Diagnostic_0.path@.len() as int)
            == error->Diagnostic_0.message@,
{
    lemma_rendered_holds_path_and_message(
        error->Diagnostic_0.path@,
        error->Diagnostic_0.message@,
    );
}

/// Why a compilation produced no binary.
#[derive(Clone, Debug)]
pub enum CompileError {
    /// The source file could not be read; the compiler was never run.
    Io(ReadFailure),
    /// The compiler rejected the source.
    Diagnostic(CompilationDiagnostic),
    /// The compiler rejected the source and its error text could not be had.
    Toolchain { reason: String },
}

impl CompileError {
    /// The text this error is shown with.
    pub open spec fn description(self) -> Seq<char> {
        match self {
            CompileError::Io(failure) => failure.reason@,
            CompileError::Diagnostic(diagnostic) => rendered(
                diagnostic.path@,
                diagnostic.message@,
            ),
            CompileError::Toolchain { reason } => reason@,
        }
    }

    /// Describes the error as text, without writing it anywhere.
    pub fn describe(&self) -> (text: String)
        ensures
            text@ == self.description(),
    {
        match self {
            CompileError::Io(failure) => failure.reason.clone(),
            CompileError::Diagnostic(diagnostic) => diagnostic.render(),
            CompileError::Toolchain { reason } => reason.clone(),
        }
    }

    /// The two lines reported when a shader does not compile: a fixed first
    /// line, then the description of the error.
    pub fn report(&self) -> (lines: (String, String))
        ensures
            lines.0@ == "couldn't compile shader:"@,
            lines.1@ == self.description(),
    {
        (String::from_str("couldn't compile shader:"), self.describe())
    }
}

/// What the compiler toolchain made of one request.
#[derive(Clone, Debug)]
pub enum ToolchainOutcome {
    /// The compiled binary, as the compiler produced it.
    Binary(Vec<u8>),
    /// The compiler's error output.
    Rejected(String),
    /// The source was rejected and the error output could not be read.
    Unreadable(String),
}

/// Everything handed to the compiler for one compilation.
#[derive(Clone, Debug)]
pub struct CompileRequest {
    /// Name the source is known by in diagnostics and relative includes.
    pub source_name: String,
    /// Text of the source file.
    pub source: String,
    /// Entry symbol to compile.
    pub entry_point: &'static str,
    /// Target profile to compile for.
    pub profile: &'static str,
    /// Command-line style arguments, in order.
    pub args: Vec<&'static str>,
    /// Preprocessor definitions as name and optional value; none are used.
    pub defines: Vec<(String, Option<String>)>,
}

/// The fixed configuration the compiler is run with.
#[derive(Clone, Copy, Debug)]
pub struct ShaderCompiler {
    language_flag: &'static str,
    search_flag: &'static str,
    target_flag: &'static str,
}

impl ShaderCompiler {
    #[verifier::type_invariant]
    spec fn configured(self) -> bool {
        &&& self.language_flag@ == "-HV 2021"@
        &&& self.search_flag@ == "-I /"@
        &&& self.target_flag@ == "-spirv"@
    }

    /// The arguments of every compilation: the language version, the root
    /// that includes are searched from, and the output format.
    pub open spec fn fixed_arguments() -> Seq<Seq<char>> {
        seq!["-HV 2021"@, "-I /"@, "-spirv"@]
    }

    /// The arguments this compiler is configured with, in order.
    pub closed spec fn flags(self) -> Seq<Seq<char>> {
        seq![self.language_flag@, self.search_flag@, self.target_flag@]
    }

    pub fn new() -> (compiler: Self)
        ensures
            compiler.flags() == Self::fixed_arguments(),
    {
        ShaderCompiler { language_flag: "-HV 2021", search_flag: "-I /", target_flag: "-spirv" }
    }

    /// The argument list handed to the compiler.
    pub fn arguments(&self) -> (args: Vec<&'static str>)
        ensures
            args@.len() == 3,
            forall|i: int| 0 <= i < 3 ==> (#[trigger] args@[i])@ == Self::fixed_arguments()[i],
            self.flags() == Self::fixed_arguments(),
    {
        proof {
            use_type_invariant(self);
        }
        let mut args: Vec<&'static str> = Vec::new();
        args.push(self.language_flag);
        args.push(self.search_flag);
        args.push(self.target_flag);
        args
    }

    /// First half of a compilation: from the outcome of reading the source
    /// file to the request for the compiler. A file that could not be read is
    /// an error of its own, and no request is made for it.
    pub fn prepare(
        &self,
        path: &str,
        read: Result<String, ReadFailure>,
        stage: ShaderStage,
    ) -> (request: Result<CompileRequest, CompileError>)
        ensures
            match read {
                Ok(text) => request matches Ok(req) && {
                    &&& req.source_name@ == path@
                    &&& req.source@ == text@
                    &&& req.entry_point@ == stage.entry_spec()
                    &&& req.profile@ == stage.profile_spec()
                    &&& req.args@.len() == 3
                    &&& forall|i: int|
                        0 <= i < 3 ==> (#[trigger] req.args@[i])@ == Self::fixed_arguments()[i]
                    &&& req.defines@.len() == 0
                },
                Err(failure) => request matches Err(CompileError::Io(f)) && f == failure,
            },
    {
        match read {
            Ok(source) => Ok(
                CompileRequest {
                    source_name: String::from_str(path),
                    source,
                    entry_point: stage.entry_point(),
                    profile: stage.profile_name(),
                    args: self.arguments(),
                    defines: Vec::new(),
                },
            ),
            Err(failure) => Err(CompileError::Io(failure)),
        }
    }

    /// Second half of a compilation: from what the toolchain made of the
    /// request to the result. A binary is passed on untouched; a rejection
    /// becomes a diagnostic that carries the path and the compiler's message
    /// as they are.
    pub fn conclude(&self, path: &str, outcome: ToolchainOutcome) -> (result: Result<
        Vec<u8>,
        CompileError,
    >)
        ensures
            match outcome {
                ToolchainOutcome::Binary(bytes) => result == Ok::<Vec<u8>, CompileError>(bytes),
                ToolchainOutcome::Rejected(message) => result matches Err(
                    CompileError::Diagnostic(d),
                ) && d.path@ == path@ && d.message == message,
                ToolchainOutcome::Unreadable(reason) => result matches Err(
                    CompileError::Toolchain { reason: r },
                ) && r == reason,
            },
    {
        match outcome {
            ToolchainOutcome::Binary(bytes) => Ok(bytes),
            ToolchainOutcome::Rejected(message) => Err(
                CompileError::Diagnostic(
                    CompilationDiagnostic { path: String::from_str(path), message },
                ),
            ),
            ToolchainOutcome::Unreadable(reason) => Err(CompileError::Toolchain { reason }),
        }
    }
}

} // verus!
