//! Verified core of a runtime that builds Verilator models and drives their ports.
pub mod build_library;
pub mod config;
pub mod dpi;
pub mod dynamic;
pub mod ffi;
pub mod ffi_names;
pub mod fingerprint;
pub mod path;
pub mod port;
pub mod registry;
pub mod request;
pub mod runtime;
pub mod text;
pub mod types;
pub mod value;
pub mod version;
pub mod wide;

pub use config::{CxxStandard, VerilatedModelConfig, VerilatorRuntimeOptions, Waveform};
pub use port::PortDirection;
pub use runtime::VerilatorRuntime;
pub use version::VerilatorVersion;
pub use wide::{
    compute_approx_width_from_wdata_word_count, compute_wdata_word_count_from_width_not_msb, WideIn,
    WideOut,
};
