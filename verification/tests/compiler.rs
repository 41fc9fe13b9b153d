use compute_harness::compiler::{
    CompilationDiagnostic, CompileError, IncludeHandler, ReadFailure, ShaderCompiler,
    ToolchainOutcome,
};
use compute_harness::failure::FailureClass;
use compute_harness::stage::ShaderStage;

fn unreadable(path: &str) -> ReadFailure {
    ReadFailure { path: path.to_string(), reason: "No such file or directory".to_string() }
}

#[test]
fn compiler_runs_with_three_fixed_arguments() {
    let compiler = ShaderCompiler::new();
    assert_eq!(compiler.arguments(), vec!["-HV 2021", "-I /", "-spirv"]);
}

#[test]
fn request_carries_source_and_stage_names() {
    let compiler = ShaderCompiler::new();
    let request = compiler
        .prepare("kernel/kernel.hlsl", Ok("void cs_main() {}".to_string()), ShaderStage::Compute)
        .unwrap();
    assert_eq!(request.source_name, "kernel/kernel.hlsl");
    assert_eq!(request.source, "void cs_main() {}");
    assert_eq!(request.entry_point, "cs_main");
    assert_eq!(request.profile, "cs_6_0");
    assert_eq!(request.args, vec!["-HV 2021", "-I /", "-spirv"]);
    assert!(request.defines.is_empty());

    let request = compiler.prepare("a.hlsl", Ok(String::new()), ShaderStage::Vertex).unwrap();
    assert_eq!(request.entry_point, "vs_main");
    assert_eq!(request.profile, "vs_6_0");
    let request = compiler.prepare("a.hlsl", Ok(String::new()), ShaderStage::Fragment).unwrap();
    assert_eq!(request.entry_point, "ps_main");
    assert_eq!(request.profile, "ps_6_0");
}

#[test]
fn unreadable_source_is_not_a_diagnostic() {
    let compiler = ShaderCompiler::new();
    let error = compiler
        .prepare("missing.hlsl", Err(unreadable("missing.hlsl")), ShaderStage::Compute)
        .unwrap_err();
    match &error {
        CompileError::Io(failure) => {
            assert_eq!(failure.path, "missing.hlsl");
            assert_eq!(failure.reason, "No such file or directory");
        }
        other => panic!("unexpected error: {:?}", other),
    }
    assert_eq!(error.describe(), "No such file or directory");
    assert_eq!(FailureClass::of_compile(&error), FailureClass::SourceUnreadable);
}

#[test]
fn binary_is_passed_on_untouched() {
    let compiler = ShaderCompiler::new();
    let binary = vec![0x03u8, 0x02, 0x23, 0x07, 0, 0, 1, 0];
    let result = compiler.conclude("kernel.hlsl", ToolchainOutcome::Binary(binary.clone()));
    assert_eq!(result.unwrap(), binary);
    let result = compiler.conclude("kernel.hlsl", ToolchainOutcome::Binary(Vec::new()));
    assert_eq!(result.unwrap(), Vec::<u8>::new());
}

#[test]
fn rejection_becomes_a_diagnostic_with_path_and_message() {
    let compiler = ShaderCompiler::new();
    let message = "kernel.hlsl:3:1: error: expected ';'\n";
    let error = compiler
        .conclude("kernel/kernel.hlsl", ToolchainOutcome::Rejected(message.to_string()))
        .unwrap_err();
    match &error {
        CompileError::Diagnostic(diagnostic) => {
            assert_eq!(diagnostic.path, "kernel/kernel.hlsl");
            assert_eq!(diagnostic.message, message);
        }
        other => panic!("unexpected error: {:?}", other),
    }
    assert_eq!(
        error.describe(),
        "shader error (kernel/kernel.hlsl):\nkernel.hlsl:3:1: error: expected ';'\n"
    );
    assert_eq!(FailureClass::of_compile(&error), FailureClass::ShaderRejected);
}

#[test]
fn unreadable_error_output_is_reported_as_it_is() {
    let compiler = ShaderCompiler::new();
    let error = compiler
        .conclude("k.hlsl", ToolchainOutcome::Unreadable("Win32 error: 80004005".to_string()))
        .unwrap_err();
    match &error {
        CompileError::Toolchain { reason } => assert_eq!(reason, "Win32 error: 80004005"),
        other => panic!("unexpected error: {:?}", other),
    }
    assert_eq!(error.describe(), "Win32 error: 80004005");
    assert_eq!(FailureClass::of_compile(&error), FailureClass::ShaderRejected);
}

#[test]
fn diagnostic_renders_path_then_message() {
    let diagnostic = CompilationDiagnostic {
        path: "dir/shader.hlsl".to_string(),
        message: "error: use of undeclared identifier 'x'".to_string(),
    };
    let text = diagnostic.render();
    assert_eq!(
        text,
        "shader error (dir/shader.hlsl):\nerror: use of undeclared identifier 'x'"
    );
    assert_eq!(&text[14..14 + diagnostic.path.len()], diagnostic.path);
    assert!(text.ends_with(&diagnostic.message));
    assert_eq!(text.len(), 17 + diagnostic.path.len() + diagnostic.message.len());

    let empty = CompilationDiagnostic { path: String::new(), message: String::new() };
    assert_eq!(empty.render(), "shader error ():\n");
}

#[test]
fn failed_compilation_is_reported_in_two_lines() {
    let error = CompileError::Diagnostic(CompilationDiagnostic {
        path: "k.hlsl".to_string(),
        message: "error: boom".to_string(),
    });
    let (first, second) = error.report();
    assert_eq!(first, "couldn't compile shader:");
    assert_eq!(second, "shader error (k.hlsl):\nerror: boom");
}

#[test]
fn include_is_resolved_from_the_read_outcome() {
    let mut handler = IncludeHandler::new();
    assert_eq!(
        handler.load_source(Ok("float4 f();".to_string())),
        Some("float4 f();".to_string())
    );
    assert_eq!(handler.load_source(Ok(String::new())), Some(String::new()));
    assert_eq!(handler.load_source(Err(unreadable("common.hlsl"))), None);
    assert_eq!(handler, IncludeHandler::new());
}
