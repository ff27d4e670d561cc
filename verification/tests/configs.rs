use marlin_verilator::{
    CxxStandard, PortDirection, VerilatedModelConfig, VerilatorRuntimeOptions, VerilatorVersion,
    Waveform,
};

#[test]
fn default_model_config() {
    let config = VerilatedModelConfig::default();
    assert_eq!(config.verilator_optimization, 0);
    assert!(config.ignored_warnings.is_empty());
    assert_eq!(config.enable_tracing, None);
    assert_eq!(config.cxx_executable, "c++");
    assert_eq!(config.cxx_standard, Some(CxxStandard::Cxx14));
}

#[test]
fn model_config_builders_set_one_field() {
    let base = VerilatedModelConfig::default();
    let config = base
        .clone()
        .verilator_optimization(3)
        .enable_tracing(Some(Waveform::Fst))
        .cxx_executable("clang++".to_owned())
        .cxx_standard(None);
    assert_eq!(config.verilator_optimization, 3);
    assert_eq!(config.enable_tracing, Some(Waveform::Fst));
    assert_eq!(config.cxx_executable, "clang++");
    assert_eq!(config.cxx_standard, None);
    assert_eq!(config.ignored_warnings, base.ignored_warnings);
    let one = base.clone().verilator_optimization(2);
    assert_eq!(VerilatedModelConfig { verilator_optimization: 0, ..one }, base);
}

#[test]
fn default_runtime_options() {
    let options = VerilatorRuntimeOptions::default();
    assert_eq!(options.verilator_executable, "verilator");
    assert_eq!(options.allow_unsupported_verilator, None);
    assert!(!options.force_verilator_rebuild);
}

#[test]
fn runtime_option_builders_set_one_field() {
    let base = VerilatorRuntimeOptions::default();
    let version = VerilatorVersion { major: 5, minor: 20 };
    let options = base
        .clone()
        .verilator_executable("/opt/verilator".to_owned())
        .allow_unsupported_verilator(Some(version))
        .force_verilator_rebuild(true);
    assert_eq!(options.verilator_executable, "/opt/verilator");
    assert_eq!(options.allow_unsupported_verilator, Some(version));
    assert!(options.force_verilator_rebuild);
    let one = base.clone().force_verilator_rebuild(true);
    assert_eq!(one.verilator_executable, base.verilator_executable);
    assert_eq!(one.allow_unsupported_verilator, base.allow_unsupported_verilator);
}

#[test]
fn directions_are_named() {
    assert_eq!(PortDirection::Input.text(), "input");
    assert_eq!(PortDirection::Output.text(), "output");
    assert_eq!(PortDirection::Inout.text(), "inout");
}
