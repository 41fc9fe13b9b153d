use compute_harness::stage::ShaderStage;

#[test]
fn profile_names_are_fixed_per_stage() {
    assert_eq!(ShaderStage::Vertex.profile_name(), "vs_6_0");
    assert_eq!(ShaderStage::Fragment.profile_name(), "ps_6_0");
    assert_eq!(ShaderStage::Compute.profile_name(), "cs_6_0");
}

#[test]
fn entry_points_are_fixed_per_stage() {
    assert_eq!(ShaderStage::Vertex.entry_point(), "vs_main");
    assert_eq!(ShaderStage::Fragment.entry_point(), "ps_main");
    assert_eq!(ShaderStage::Compute.entry_point(), "cs_main");
}
