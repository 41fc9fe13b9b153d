use compute_harness::failure::FailureClass;

const CLASSES: [FailureClass; 6] = [
    FailureClass::SourceUnreadable,
    FailureClass::ShaderRejected,
    FailureClass::DeviceUnavailable,
    FailureClass::PipelineRejected,
    FailureClass::ReadbackMismatch,
    FailureClass::ImageRejected,
];

#[test]
fn exit_statuses_are_fixed() {
    assert_eq!(FailureClass::SourceUnreadable.exit_status(), 2);
    assert_eq!(FailureClass::ShaderRejected.exit_status(), 3);
    assert_eq!(FailureClass::DeviceUnavailable.exit_status(), 4);
    assert_eq!(FailureClass::PipelineRejected.exit_status(), 5);
    assert_eq!(FailureClass::ReadbackMismatch.exit_status(), 6);
    assert_eq!(FailureClass::ImageRejected.exit_status(), 7);
}

#[test]
fn classes_differ_in_status_and_message() {
    for (i, a) in CLASSES.iter().enumerate() {
        assert_ne!(a.exit_status(), 0);
        assert!(!a.message().is_empty());
        for b in CLASSES.iter().skip(i + 1) {
            assert_ne!(a.exit_status(), b.exit_status());
            assert_ne!(a.message(), b.message());
        }
    }
}

#[test]
fn messages_name_the_failure() {
    assert_eq!(FailureClass::SourceUnreadable.message(), "shader source could not be read");
    assert_eq!(FailureClass::ShaderRejected.message(), "shader did not compile");
    assert_eq!(FailureClass::DeviceUnavailable.message(), "no GPU adapter or device available");
    assert_eq!(FailureClass::PipelineRejected.message(), "compiled shader is not a valid module");
    assert_eq!(FailureClass::ReadbackMismatch.message(), "image read back has an unexpected size");
    assert_eq!(FailureClass::ImageRejected.message(), "image could not be encoded");
}
