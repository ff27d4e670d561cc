use std::collections::hash_map::DefaultHasher;
use std::hash::{Hash, Hasher};

use marlin_verilator::dpi::DpiSignature;
use marlin_verilator::fingerprint::fingerprint;
use marlin_verilator::registry::{LibraryArenaKey, LibraryRegistry};
use marlin_verilator::request::{
    check_request, compiling_status, finished_status, local_directory_name, lockfile_name,
    one_time_library_setup, RequestError, SetupCall,
};
use marlin_verilator::runtime::{LibraryLookup, PathProbe, RuntimeError, VerilatorRuntime};
use marlin_verilator::version::{UnsupportedVersion, VersionOutputError};
use marlin_verilator::{
    CxxStandard, PortDirection, VerilatedModelConfig, VerilatorRuntimeOptions, VerilatorVersion,
    Waveform,
};

type Ports<'a> = &'a [(&'a str, usize, usize, PortDirection)];

const PORTS: Ports<'static> = &[
    ("medium_input", 31, 0, PortDirection::Input),
    ("medium_output", 31, 0, PortDirection::Output),
];

fn standard_hash(ports: Ports, config: &VerilatedModelConfig) -> u64 {
    let mut hasher = DefaultHasher::new();
    ports.hash(&mut hasher);
    config.hash(&mut hasher);
    hasher.finish()
}

#[test]
fn fingerprints_are_those_of_the_derived_hash() {
    let mut configs = vec![VerilatedModelConfig::default()];
    for waveform in [Waveform::Vcd, Waveform::Fst] {
        configs.push(VerilatedModelConfig::default().enable_tracing(Some(waveform)));
    }
    let standards = [
        CxxStandard::Cxx98,
        CxxStandard::Cxx11,
        CxxStandard::Cxx14,
        CxxStandard::Cxx17,
        CxxStandard::Cxx20,
        CxxStandard::Cxx23,
        CxxStandard::Cxx26,
    ];
    for standard in standards {
        configs.push(VerilatedModelConfig::default().cxx_standard(Some(standard)));
    }
    let mut config = VerilatedModelConfig::default()
        .verilator_optimization(3)
        .cxx_executable("clang++".to_owned())
        .cxx_standard(None);
    config.ignored_warnings = vec!["WIDTH".to_owned(), "Ünused".to_owned()];
    configs.push(config);
    let signatures: [Ports; 3] = [&[], PORTS, &[("bus", 127, 64, PortDirection::Inout)]];
    for ports in signatures {
        for config in &configs {
            assert_eq!(fingerprint(ports, config), standard_hash(ports, config));
        }
    }
}

#[test]
fn fingerprints_tell_requests_apart() {
    let config = VerilatedModelConfig::default();
    let first = fingerprint(PORTS, &config);
    assert_eq!(first, fingerprint(PORTS, &config.clone()));
    assert_ne!(first, fingerprint(&PORTS[..1], &config));
    assert_ne!(first, fingerprint(PORTS, &config.clone().verilator_optimization(1)));
    assert_ne!(first, fingerprint(PORTS, &config.enable_tracing(Some(Waveform::Vcd))));
}

fn key(name: &str, source_path: &str, hash: u64) -> LibraryArenaKey {
    LibraryArenaKey { name: name.to_owned(), source_path: source_path.to_owned(), hash }
}

#[test]
fn recorded_libraries_are_found() {
    let mut registry = LibraryRegistry::new();
    assert!(registry.has_room());
    assert_eq!(registry.lookup(&key("main", "a.sv", 1)), None);
    registry.insert(key("main", "a.sv", 1), 40);
    registry.insert(key("main", "a.sv", 2), 41);
    registry.insert(key("main", "b.sv", 1), 42);
    registry.insert(key("other", "a.sv", 1), 43);
    assert_eq!(registry.lookup(&key("main", "a.sv", 1)), Some(40));
    assert_eq!(registry.lookup(&key("main", "a.sv", 2)), Some(41));
    assert_eq!(registry.lookup(&key("main", "b.sv", 1)), Some(42));
    assert_eq!(registry.lookup(&key("other", "a.sv", 1)), Some(43));
    assert_eq!(registry.lookup(&key("other", "b.sv", 1)), None);
}

#[test]
fn many_libraries_keep_their_handles() {
    let mut registry = LibraryRegistry::new();
    for i in 0..500u64 {
        registry.insert(key("main", "a.sv", i), i * 7);
    }
    for i in 0..500u64 {
        assert_eq!(registry.lookup(&key("main", "a.sv", i)), Some(i * 7));
    }
    assert_eq!(registry.lookup(&key("main", "a.sv", 500)), None);
}

#[test]
fn requests_are_checked_in_order() {
    let path = Some("/work/src/main.sv".to_owned());
    let sources = vec![None, Some("/work/src/other.sv".to_owned()), path.clone()];
    let inverted: Ports = &[
        ("a", 1, 0, PortDirection::Input),
        ("b", 0, 1, PortDirection::Input),
        ("c", 0, 2, PortDirection::Input),
    ];
    assert_eq!(check_request("main", &sources, &path, PORTS), Ok(()));
    for name in ["\\main", "main ", "a b"] {
        assert_eq!(
            check_request(name, &vec![], &None, inverted),
            Err(RequestError::EscapedModuleName)
        );
    }
    assert_eq!(
        check_request("main", &vec![], &path, inverted),
        Err(RequestError::SourceNotProvided)
    );
    assert_eq!(
        check_request("main", &vec![None], &None, PORTS),
        Err(RequestError::SourceNotProvided)
    );
    assert_eq!(
        check_request("main", &sources, &Some("/work/src/main.s".to_owned()), PORTS),
        Err(RequestError::SourceNotProvided)
    );
    assert_eq!(
        check_request("main", &sources, &path, inverted),
        Err(RequestError::InvertedPort(1))
    );
}

#[test]
fn refusals_are_described() {
    assert_eq!(
        RequestError::EscapedModuleName.message("a b", "src/main.sv", PORTS),
        "Escaped module names are not supported"
    );
    assert_eq!(
        RequestError::SourceNotProvided.message("main", "src/main.sv", PORTS),
        "Module `main` requires source file src/main.sv, which was not provided to the runtime"
    );
    assert_eq!(
        RequestError::InvertedPort(1).message("main", "src/main.sv", PORTS),
        "Port medium_output on module main was specified with the high bit less than the low bit"
    );
}

#[test]
fn directories_are_named_after_the_request() {
    let paths = ["src/main.sv", "", "/abs/my_file.sv", "a__b//c", "üb_er/x.sv"];
    for path in paths {
        assert_eq!(
            local_directory_name("main", path, 42),
            format!("main_{}_42", path.replace("_", "__").replace("/", "_"))
        );
    }
    assert_eq!(
        local_directory_name("main", "src/my_main.sv", u64::MAX),
        "main_src_my__main.sv_18446744073709551615"
    );
    assert_eq!(lockfile_name("main_src_1"), "main_src_1.lock");
}

#[test]
fn directories_have_no_separator_and_differ() {
    let paths = ["src/main.sv", "src_main.sv", "src/my_main.sv", "src/my/main.sv", "/src/main.sv"];
    let mut names = vec![];
    for path in paths {
        for hash in [1, 12, 112] {
            let name = local_directory_name("main", path, hash);
            assert!(!name.contains('/'));
            assert!(!names.contains(&name));
            names.push(name);
        }
    }
    // a doubled separator looks like an underscore
    assert_eq!(local_directory_name("main", "a//b", 1), local_directory_name("main", "a_b", 1));
}

#[test]
fn statuses_are_written() {
    assert_eq!(compiling_status("main", 77, "src/main.sv"), "main#77 (src/main.sv)");
    assert_eq!(
        finished_status(0, 12, 345),
        "`verilator-O0` profile [unoptimized] target in 12.34s"
    );
    assert_eq!(finished_status(3, 0, 59), "`verilator-O3` profile [optimized] target in 0.05s");
}

#[test]
fn setup_calls_what_the_library_has() {
    let functions = vec![function("f", 7), function("g", 3)];
    let initialize = || SetupCall::InitializeDpi(vec![7, 3]);
    assert_eq!(one_time_library_setup(&vec![], false), vec![]);
    assert_eq!(one_time_library_setup(&functions, false), vec![initialize()]);
    assert_eq!(one_time_library_setup(&vec![], true), vec![SetupCall::AllowTracing]);
    assert_eq!(
        one_time_library_setup(&functions, true),
        vec![initialize(), SetupCall::AllowTracing]
    );
    assert_eq!(initialize().symbol(), "dpi_init_callback");
    assert_eq!(initialize().failure(), "Failed to load DPI initializer");
    assert_eq!(SetupCall::AllowTracing.symbol(), "ffi_Verilated_traceEverOn");
    assert_eq!(
        SetupCall::AllowTracing.failure(),
        "Model was not configured with tracing enabled"
    );
}

fn function(name: &str, pointer: usize) -> DpiSignature {
    DpiSignature { name: name.to_owned(), parameters: vec![], pointer }
}

#[test]
fn a_library_is_set_up_once() {
    let mut runtime = VerilatorRuntime::new(
        OUTPUT.to_vec(),
        &file("artifacts"),
        &vec![file("a.sv")],
        &vec![],
        vec![function("f", 70), function("g", 30)],
        VerilatorRuntimeOptions::default(),
    )
    .ok()
    .unwrap();
    let path = Some("/work/a.sv".to_owned());
    let traced = VerilatedModelConfig::default().enable_tracing(Some(Waveform::Fst));
    let mut setups = vec![];
    for handle in 0..5 {
        let lookup = runtime
            .build_or_retrieve_library("main", "a.sv", &vec![path.clone()], &path, PORTS, &traced)
            .unwrap();
        if let LibraryLookup::Build(library) = lookup {
            setups.extend(library.setup);
            runtime.record_library(library.key, handle);
        }
    }
    assert_eq!(
        setups,
        vec![SetupCall::InitializeDpi(vec![70, 30]), SetupCall::AllowTracing]
    );
}

fn file(path: &str) -> PathProbe {
    PathProbe { shown: path.to_owned(), text: Some(path.to_owned()), is_file: true }
}

fn broken(shown: &str) -> PathProbe {
    PathProbe { shown: shown.to_owned(), text: None, is_file: true }
}

fn missing(path: &str) -> PathProbe {
    PathProbe { is_file: false, ..file(path) }
}

const OUTPUT: &[u8] = b"Verilator 5.028 2024-08-21 rev v5.028";

fn make(
    output: &[u8],
    directory: &PathProbe,
    sources: &Vec<PathProbe>,
    includes: &Vec<PathProbe>,
    options: VerilatorRuntimeOptions,
) -> Result<VerilatorRuntime, RuntimeError> {
    VerilatorRuntime::new(output.to_vec(), directory, sources, includes, vec![], options)
}

#[test]
fn runtimes_hold_what_they_were_given() {
    let functions = vec![function("f", 7)];
    let runtime = VerilatorRuntime::new2(
        OUTPUT.to_vec(),
        &missing("artifacts"),
        &vec![file("src/main.sv"), file("src/other.sv")],
        &vec![missing("inc")],
        functions,
        VerilatorRuntimeOptions::default().force_verilator_rebuild(true),
    )
    .ok()
    .unwrap();
    assert_eq!(runtime.artifact_directory, "artifacts");
    assert_eq!(runtime.source_files, vec!["src/main.sv", "src/other.sv"]);
    assert_eq!(runtime.include_directories, vec!["inc"]);
    assert_eq!(runtime.dpi_functions.len(), 1);
    assert!(runtime.options.force_verilator_rebuild);
    assert_eq!(runtime.verilator_version, VerilatorVersion { major: 5, minor: 28 });
    assert!(runtime.has_room());
}

#[test]
fn runtimes_are_refused_in_order() {
    let defaults = VerilatorRuntimeOptions::default;
    let directory = file("artifacts");
    let undecodable = broken("art\u{fffd}");
    let sources = vec![file("a.sv"), broken("b\u{fffd}.sv"), missing("c.sv")];
    let includes = vec![file("inc"), broken("inc\u{fffd}")];
    let error = |output: &[u8], d: &PathProbe, s: &Vec<PathProbe>, i: &Vec<PathProbe>, o| {
        make(output, d, s, i, o).err().unwrap()
    };
    assert_eq!(
        error(b"nonsense", &undecodable, &sources, &includes, defaults()),
        RuntimeError::VersionOutput(VersionOutputError::UnexpectedFormat)
    );
    let old = VerilatorVersion { major: 5, minor: 20 };
    assert_eq!(
        error(b"Verilator 5.020 x", &undecodable, &sources, &includes, defaults()),
        RuntimeError::Version(UnsupportedVersion::NotSupported { version: old })
    );
    assert_eq!(
        error(
            b"Verilator 5.020 x",
            &undecodable,
            &sources,
            &includes,
            defaults().allow_unsupported_verilator(Some(old))
        ),
        RuntimeError::MissingSource(2)
    );
    let there = vec![file("a.sv"), broken("b\u{fffd}.sv")];
    assert_eq!(
        error(OUTPUT, &undecodable, &there, &includes, defaults()),
        RuntimeError::ArtifactDirectoryNotUtf8
    );
    assert_eq!(
        error(OUTPUT, &directory, &there, &includes, defaults()),
        RuntimeError::SourceNotUtf8(1)
    );
    assert_eq!(
        error(OUTPUT, &directory, &vec![], &includes, defaults()),
        RuntimeError::IncludeNotUtf8(1)
    );
    assert!(make(OUTPUT, &directory, &vec![], &vec![], defaults()).is_ok());
}

#[test]
fn runtime_errors_are_described() {
    let sources = vec![file("a.sv"), broken("b\u{fffd}.sv"), missing("c.sv")];
    let includes = vec![file("inc"), broken("inc\u{fffd}")];
    assert_eq!(
        RuntimeError::MissingSource(2).message(&sources, &includes),
        "Source file c.sv does not exist or is not a file. Note that if it's a relative path, you must be in the correct directory"
    );
    assert_eq!(
        RuntimeError::ArtifactDirectoryNotUtf8.message(&sources, &includes),
        "Artifact directory path was not UTF-8"
    );
    assert_eq!(
        RuntimeError::SourceNotUtf8(1).message(&sources, &includes),
        "Source file b\u{fffd}.sv was not UTF-8"
    );
    assert_eq!(
        RuntimeError::IncludeNotUtf8(1).message(&sources, &includes),
        "Include directory inc\u{fffd} was not UTF-8"
    );
    assert_eq!(
        RuntimeError::VersionOutput(VersionOutputError::NotUtf8).message(&sources, &includes),
        "Failed to decode Verilator --version output as UTF-8"
    );
    let version = VerilatorVersion { major: 5, minor: 20 };
    assert_eq!(
        RuntimeError::Version(UnsupportedVersion::NotSupported { version })
            .message(&sources, &includes),
        "Unsupported Verilator version 5.020 (see `VerilatorRuntimeOptions::allow_unsupported_verilator`)"
    );
}

#[test]
fn a_library_is_built_once() {
    let directory = file("artifacts");
    let sources = vec![file("src/main.sv")];
    let options = VerilatorRuntimeOptions::default();
    let mut runtime = make(OUTPUT, &directory, &sources, &vec![], options).ok().unwrap();
    let canonical = Some("/work/src/main.sv".to_owned());
    let known = vec![canonical.clone()];
    let config = VerilatedModelConfig::default();
    let ask = |runtime: &VerilatorRuntime, ports: Ports, config: &VerilatedModelConfig| {
        runtime
            .build_or_retrieve_library("main", "src/main.sv", &known, &canonical, ports, config)
            .unwrap()
    };
    let LibraryLookup::Build(library) = ask(&runtime, PORTS, &config) else { unreachable!() };
    let hash = standard_hash(PORTS, &config);
    assert_eq!(library.key, key("main", "src/main.sv", hash));
    assert_eq!(library.directory, format!("artifacts/main_src_main.sv_{hash}"));
    assert_eq!(library.lockfile, format!("artifacts/main_src_main.sv_{hash}.lock"));
    runtime.record_library(library.key, 5);
    assert!(matches!(ask(&runtime, PORTS, &config), LibraryLookup::Cached(5)));
    // another signature, or another configuration, is another library
    assert!(matches!(ask(&runtime, &PORTS[..1], &config), LibraryLookup::Build(_)));
    let traced = config.clone().enable_tracing(Some(Waveform::Vcd));
    let LibraryLookup::Build(second) = ask(&runtime, PORTS, &traced) else { unreachable!() };
    runtime.record_library(second.key, 6);
    assert!(matches!(ask(&runtime, PORTS, &traced), LibraryLookup::Cached(6)));
    assert!(matches!(ask(&runtime, PORTS, &config), LibraryLookup::Cached(5)));
}

#[test]
fn a_refused_request_stays_refused() {
    let options = VerilatorRuntimeOptions::default();
    let directory = file("artifacts");
    let runtime = make(OUTPUT, &directory, &vec![], &vec![], options).ok().unwrap();
    let config = VerilatedModelConfig::default();
    for _ in 0..2 {
        let answer = runtime.build_or_retrieve_library(
            "main",
            "src/main.sv",
            &vec![],
            &Some("/work/src/main.sv".to_owned()),
            PORTS,
            &config,
        );
        assert_eq!(answer.err(), Some(RequestError::SourceNotProvided));
    }
}

#[test]
fn joined_directories_end_in_their_name() {
    let options = VerilatorRuntimeOptions::default();
    let runtime = make(OUTPUT, &file("artifacts"), &vec![], &vec![], options).ok().unwrap();
    let path = Some("/work/a.sv".to_owned());
    let config = VerilatedModelConfig::default();
    let hash = standard_hash(PORTS, &config);
    for name in ["main", "/main"] {
        let lookup = runtime
            .build_or_retrieve_library(name, "a.sv", &vec![path.clone()], &path, PORTS, &config)
            .unwrap();
        let LibraryLookup::Build(library) = lookup else { unreachable!() };
        assert!(library.directory.ends_with(&format!("{name}_a.sv_{hash}")));
        assert!(library.lockfile.ends_with(&format!("{name}_a.sv_{hash}.lock")));
    }
}
