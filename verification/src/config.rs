//! What a user configures: model, runtime, tracing, target.

use vstd::prelude::*;
use vstd::string::*;

use crate::version::VerilatorVersion;

verus! {

/// The format of a trace.
#[derive(Debug, Clone, Copy, PartialEq, Eq, Hash, Structural)]
pub enum Waveform {
    Vcd,
    Fst,
}

/// The system that a library is linked for.
#[derive(Debug, Clone, Copy, PartialEq, Eq, Hash, Structural)]
pub enum BuildTarget {
    Linux,
    MacOS,
}

/// A C++ standard that the compiler can be asked for.
#[derive(Debug, Clone, Copy, PartialEq, Eq, Hash, Structural)]
pub enum CxxStandard {
    Cxx98,
    Cxx11,
    Cxx14,
    Cxx17,
    Cxx20,
    Cxx23,
    Cxx26,
}

/// Configuration for a particular model.
#[derive(Debug, Clone, PartialEq, Eq, Hash)]
pub struct VerilatedModelConfig {
    /// The flag `-O<verilator_optimization>` will be passed. Enabling (> 0) will slow compilation
    /// times.
    pub verilator_optimization: usize,
    /// A list of Verilator warnings to disable on the Verilog source code for this model.
    pub ignored_warnings: Vec<String>,
    /// Whether this model should be compiled with tracing support.
    pub enable_tracing: Option<Waveform>,
    /// The name of the C++ compiler executable used by Verilator's generated makefile.
    pub cxx_executable: String,
    /// Optionally specify the C++ standard used by Verilator.
    pub cxx_standard: Option<CxxStandard>,
}

impl Default for VerilatedModelConfig {
    fn default() -> (config: Self)
        ensures
            config.verilator_optimization == 0,
            config.ignored_warnings@ == Seq::<String>::empty(),
            config.enable_tracing == None::<Waveform>,
            config.cxx_executable@ == "c++"@,
            config.cxx_standard == Some(CxxStandard::Cxx14),
    {
        Self {
            verilator_optimization: 0,
            ignored_warnings: Vec::new(),
            enable_tracing: None,
            cxx_executable: "c++".to_owned(),
            cxx_standard: Some(CxxStandard::Cxx14),
        }
    }
}

impl VerilatedModelConfig {
    /// The configuration with another optimization level.
    pub fn verilator_optimization(self, level: usize) -> (config: Self)
        ensures
            config == (Self { verilator_optimization: level, ..self }),
    {
        Self { verilator_optimization: level, ..self }
    }

    /// The configuration with another choice of tracing.
    pub fn enable_tracing(self, waveform: Option<Waveform>) -> (config: Self)
        ensures
            config == (Self { enable_tracing: waveform, ..self }),
    {
        Self { enable_tracing: waveform, ..self }
    }

    /// The configuration with another C++ compiler.
    pub fn cxx_executable(self, cxx_executable: String) -> (config: Self)
        ensures
            config == (Self { cxx_executable, ..self }),
    {
        Self { cxx_executable, ..self }
    }

    /// The configuration with another C++ standard.
    pub fn cxx_standard(self, cxx_standard: Option<CxxStandard>) -> (config: Self)
        ensures
            config == (Self { cxx_standard, ..self }),
    {
        Self { cxx_standard, ..self }
    }
}

/// Optional configuration for creating a runtime. Usually the default will do.
#[derive(Debug, Clone, PartialEq, Eq, Hash)]
pub struct VerilatorRuntimeOptions {
    /// The name of the Verilator executable.
    pub verilator_executable: String,
    /// If `Some(version)`, whether unsupported Verilator versions at least `version` should be
    /// silently ignored instead of erroring.
    pub allow_unsupported_verilator: Option<VerilatorVersion>,
    /// Whether Verilator should always be invoked instead of only when the source files or DPI
    /// functions change.
    pub force_verilator_rebuild: bool,
}

impl Default for VerilatorRuntimeOptions {
    fn default() -> (options: Self)
        ensures
            options.verilator_executable@ == "verilator"@,
            options.allow_unsupported_verilator == None::<VerilatorVersion>,
            !options.force_verilator_rebuild,
    {
        Self {
            verilator_executable: "verilator".to_owned(),
            allow_unsupported_verilator: None,
            force_verilator_rebuild: false,
        }
    }
}

impl VerilatorRuntimeOptions {
    /// The options with another executable.
    pub fn verilator_executable(self, verilator_executable: String) -> (options: Self)
        ensures
            options == (Self { verilator_executable, ..self }),
    {
        Self { verilator_executable, ..self }
    }

    /// The options with another version allowed.
    pub fn allow_unsupported_verilator(self, version: Option<VerilatorVersion>) -> (options: Self)
        ensures
            options == (Self { allow_unsupported_verilator: version, ..self }),
    {
        Self { allow_unsupported_verilator: version, ..self }
    }

    /// The options with another choice of rebuilding.
    pub fn force_verilator_rebuild(self, force_verilator_rebuild: bool) -> (options: Self)
        ensures
            options == (Self { force_verilator_rebuild, ..self }),
    {
        Self { force_verilator_rebuild, ..self }
    }
}

} // verus!
