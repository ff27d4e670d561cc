use marlin_verilator::build_library::{
    build_library, cxx_arguments, library_layout, needs_verilator_rebuild,
    tool_failure, tool_failure_from_output, verilator_arguments, BuildEvent, BuildFailure, BuildStep, FileStamp, LibraryJob,
    RebuildCheckError, FIRST_STEP,
};
use marlin_verilator::config::BuildTarget;
use marlin_verilator::dpi::{dpi_source, DpiSignature};
use marlin_verilator::{
    CxxStandard, VerilatedModelConfig, VerilatorRuntimeOptions, VerilatorVersion, Waveform,
};

struct Setup {
    source_files: Vec<String>,
    include_directories: Vec<String>,
    dpi_functions: Vec<DpiSignature>,
    options: VerilatorRuntimeOptions,
    config: VerilatedModelConfig,
    build_target: BuildTarget,
    minor: usize,
}

impl Setup {
    fn new() -> Self {
        Setup {
            source_files: vec!["src/main.sv".to_owned(), "src/other.sv".to_owned()],
            include_directories: vec![],
            dpi_functions: vec![],
            options: VerilatorRuntimeOptions::default(),
            config: VerilatedModelConfig::default(),
            build_target: BuildTarget::Linux,
            minor: 25,
        }
    }

    fn job(&self) -> LibraryJob<'_> {
        LibraryJob {
            source_files: &self.source_files,
            build_target: self.build_target,
            include_directories: &self.include_directories,
            dpi_functions: &self.dpi_functions,
            top_module: "main",
            ports: &[],
            options: &self.options,
            config: &self.config,
            verilator_version: VerilatorVersion { major: 5, minor: self.minor },
        }
    }

    fn run(&self, events: Vec<BuildEvent>) -> BuildStep {
        let job = self.job();
        let mut step = FIRST_STEP;
        for event in &events {
            step = build_library(&job, step, event);
        }
        step
    }
}

fn three() -> DpiSignature {
    DpiSignature {
        name: "three".to_owned(),
        parameters: vec![("out".to_owned(), "uint32_t*".to_owned())],
        pointer: 0,
    }
}

fn modified(times: &[i128]) -> Vec<FileStamp> {
    times.iter().map(|time| FileStamp::Modified(*time)).collect()
}

fn fresh() -> BuildEvent {
    BuildEvent::Times { sources: modified(&[1, 2]), library: Some(FileStamp::Modified(3)) }
}

fn success() -> BuildEvent {
    BuildEvent::Exit { success: true }
}

#[test]
fn files_lie_below_the_artifacts() {
    let layout = library_layout("artifacts/main_x_1", "main");
    assert_eq!(layout.ffi_directory, "artifacts/main_x_1/ffi");
    assert_eq!(layout.ffi_file, "artifacts/main_x_1/ffi/ffi.cpp");
    assert_eq!(layout.verilator_directory, "artifacts/main_x_1/obj_dir");
    assert_eq!(layout.dpi_directory, "artifacts/main_x_1/dpi");
    assert_eq!(layout.dpi_file, "artifacts/main_x_1/dpi/dpi.cpp");
    assert_eq!(layout.shared_library, "artifacts/main_x_1/obj_dir/libmarlin_Vmain.so");
    assert_eq!(layout.static_library, "artifacts/main_x_1/obj_dir/libVmain.a");
    assert_eq!(layout.libverilated, "artifacts/main_x_1/obj_dir/libverilated.a");
    assert_eq!(library_layout("artifacts/", "main").ffi_directory, "artifacts/ffi");
    assert_eq!(library_layout("", "main").ffi_file, "ffi/ffi.cpp");
}

#[test]
fn rebuilds_are_needed_on_change_only() {
    assert_eq!(needs_verilator_rebuild(&[], None), Ok(true));
    assert_eq!(needs_verilator_rebuild(&modified(&[1, 2]), None), Ok(true));
    let built = Some(FileStamp::Modified(2));
    assert_eq!(needs_verilator_rebuild(&[], built), Ok(false));
    assert_eq!(needs_verilator_rebuild(&modified(&[1, 2]), built), Ok(false));
    assert_eq!(needs_verilator_rebuild(&modified(&[1, 3]), built), Ok(true));
    assert_eq!(needs_verilator_rebuild(&modified(&[-5, -4]), built), Ok(false));
}

#[test]
fn unknown_times_are_errors() {
    assert_eq!(
        needs_verilator_rebuild(&[], Some(FileStamp::NoMetadata)),
        Err(RebuildCheckError::LibraryMetadata)
    );
    assert_eq!(
        needs_verilator_rebuild(&[], Some(FileStamp::NoTime)),
        Err(RebuildCheckError::LibraryTime)
    );
    let built = Some(FileStamp::Modified(2));
    assert_eq!(
        needs_verilator_rebuild(&[FileStamp::Modified(1), FileStamp::NoMetadata], built),
        Err(RebuildCheckError::SourceMetadata(1))
    );
    assert_eq!(
        needs_verilator_rebuild(&[FileStamp::NoTime, FileStamp::Modified(9)], built),
        Err(RebuildCheckError::SourceTime(0))
    );
    // a newer file before the unknown one settles it
    assert_eq!(
        needs_verilator_rebuild(&[FileStamp::Modified(9), FileStamp::NoTime], built),
        Ok(true)
    );
}

#[test]
fn unknown_times_are_described() {
    let sources = ["a.sv".to_owned(), "b.sv".to_owned()];
    assert_eq!(
        RebuildCheckError::LibraryMetadata.message("lib.so", &sources),
        "Failed to read file metadata for dynamic library lib.so"
    );
    assert_eq!(
        RebuildCheckError::LibraryTime.message("lib.so", &sources),
        "Failed to determine last-modified time for dynamic library lib.so"
    );
    assert_eq!(
        RebuildCheckError::SourceMetadata(1).message("lib.so", &sources),
        "Failed to read file metadata for source file b.sv"
    );
    assert_eq!(
        RebuildCheckError::SourceTime(0).message("lib.so", &sources),
        "Failed to determine last-modified time for source file a.sv"
    );
}

#[test]
fn verilator_is_run_with_defaults() {
    let setup = Setup::new();
    let layout = library_layout("artifacts", "main");
    assert_eq!(
        verilator_arguments(&setup.job(), &layout).unwrap(),
        vec![
            "--cc",
            "-sv",
            "-j",
            "0",
            "--build",
            "-CFLAGS",
            "-shared -fpic -std=c++14 -DVL_TIME_CONTEXT",
            "-MAKEFLAGS",
            "CXX=c++",
            "--Mdir",
            "artifacts/obj_dir",
            "--top-module",
            "main",
            "src/main.sv",
            "src/other.sv",
            "../ffi/ffi.cpp",
            "-O0",
        ]
    );
}

#[test]
fn verilator_is_run_with_everything() {
    let mut setup = Setup::new();
    setup.include_directories = vec!["inc".to_owned(), "more".to_owned()];
    setup.dpi_functions = vec![three()];
    setup.config = setup
        .config
        .verilator_optimization(3)
        .enable_tracing(Some(Waveform::Vcd))
        .cxx_executable("clang++".to_owned())
        .cxx_standard(None);
    setup.config.ignored_warnings = vec!["WIDTH".to_owned(), "UNUSED".to_owned()];
    let layout = library_layout("artifacts", "main");
    let arguments = verilator_arguments(&setup.job(), &layout).unwrap();
    assert_eq!(arguments[6], "-shared -fpic -DVL_TIME_CONTEXT");
    assert_eq!(arguments[8], "CXX=clang++");
    assert_eq!(
        arguments[13..],
        [
            "src/main.sv",
            "src/other.sv",
            "../ffi/ffi.cpp",
            "-Iinc",
            "-Imore",
            "../dpi/dpi.cpp",
            "-O3",
            "-Wno-WIDTH",
            "-Wno-UNUSED",
            "--trace",
        ]
    );
}

#[test]
fn trace_flags_follow_the_version() {
    let layout = library_layout("artifacts", "main");
    let mut setup = Setup::new();
    let last = |setup: &Setup| verilator_arguments(&setup.job(), &layout).unwrap().pop().unwrap();
    setup.config = setup.config.enable_tracing(Some(Waveform::Vcd));
    setup.minor = 35;
    assert_eq!(last(&setup), "--trace");
    setup.minor = 36;
    assert_eq!(last(&setup), "--trace-vcd");
    setup.config = setup.config.enable_tracing(Some(Waveform::Fst));
    assert_eq!(last(&setup), "--trace-fst");
    setup.minor = 20;
    assert_eq!(last(&setup), "--trace-fst");
}

#[test]
fn optimization_levels_beyond_three_are_refused() {
    let layout = library_layout("artifacts", "main");
    let mut setup = Setup::new();
    for level in 0..4 {
        setup.config.verilator_optimization = level;
        let arguments = verilator_arguments(&setup.job(), &layout).unwrap();
        assert_eq!(arguments.last().unwrap(), &format!("-O{level}"));
    }
    setup.config.verilator_optimization = 4;
    assert_eq!(verilator_arguments(&setup.job(), &layout), Err(4));
    assert_eq!(
        BuildFailure::InvalidOptimization(4).message(),
        "Invalid Verilator optimization level: 4"
    );
}

#[test]
fn standards_are_passed_on() {
    let layout = library_layout("artifacts", "main");
    let mut setup = Setup::new();
    let expected = [
        (CxxStandard::Cxx98, "98"),
        (CxxStandard::Cxx11, "11"),
        (CxxStandard::Cxx14, "14"),
        (CxxStandard::Cxx17, "17"),
        (CxxStandard::Cxx20, "20"),
        (CxxStandard::Cxx23, "23"),
        (CxxStandard::Cxx26, "26"),
    ];
    for (standard, name) in expected {
        setup.config.cxx_standard = Some(standard);
        let arguments = verilator_arguments(&setup.job(), &layout).unwrap();
        assert_eq!(arguments[6], format!("-shared -fpic -std=c++{name} -DVL_TIME_CONTEXT"));
    }
}

#[test]
fn libraries_are_linked_whole() {
    let layout = library_layout("artifacts", "main");
    let mut setup = Setup::new();
    assert_eq!(
        cxx_arguments(&setup.job(), &layout),
        vec![
            "-shared",
            "-shared",
            "-fpic",
            "-std=c++14",
            "-DVL_TIME_CONTEXT",
            "-Wl,--whole-archive",
            "-o",
            "artifacts/obj_dir/libmarlin_Vmain.so",
            "artifacts/obj_dir/libVmain.a",
            "artifacts/obj_dir/libverilated.a",
            "-Wl,--no-whole-archive",
        ]
    );
    setup.build_target = BuildTarget::MacOS;
    setup.config = setup.config.enable_tracing(Some(Waveform::Fst));
    assert_eq!(
        cxx_arguments(&setup.job(), &layout)[5..],
        [
            "-Wl,-force_load",
            "-o",
            "artifacts/obj_dir/libmarlin_Vmain.so",
            "artifacts/obj_dir/libVmain.a",
            "artifacts/obj_dir/libverilated.a",
            "-lz",
        ]
    );
}

#[test]
fn a_first_build_runs_both_tools() {
    let setup = Setup::new();
    let missing = || BuildEvent::Times { sources: modified(&[1, 2]), library: None };
    assert_eq!(setup.run(vec![]), BuildStep::CreateFfiDirectory);
    assert_eq!(setup.run(vec![BuildEvent::Done]), BuildStep::CreateDpiDirectory);
    assert_eq!(
        setup.run(vec![BuildEvent::Done, BuildEvent::Done]),
        BuildStep::ReadTimes { dpi_rebuilt: false }
    );
    assert_eq!(
        setup.run(vec![BuildEvent::Done, BuildEvent::Done, missing()]),
        BuildStep::NotifyRebuild
    );
    let events = || vec![BuildEvent::Done, BuildEvent::Done, missing(), BuildEvent::Done];
    assert_eq!(setup.run(events()), BuildStep::WriteFfiFile);
    let mut more = events();
    more.push(BuildEvent::Done);
    assert_eq!(setup.run(more), BuildStep::RunVerilator);
    let mut more = events();
    more.extend([BuildEvent::Done, success()]);
    assert_eq!(setup.run(more), BuildStep::RunCxx);
    let mut more = events();
    more.extend([BuildEvent::Done, success(), success()]);
    assert_eq!(setup.run(more), BuildStep::Finished { rebuilt: true });
}

#[test]
fn an_unchanged_library_is_not_built() {
    let mut setup = Setup::new();
    assert_eq!(
        setup.run(vec![BuildEvent::Done, BuildEvent::Done, fresh()]),
        BuildStep::Finished { rebuilt: false }
    );
    setup.dpi_functions = vec![three()];
    let current = dpi_source("main", &setup.dpi_functions);
    assert_eq!(
        setup.run(vec![
            BuildEvent::Done,
            BuildEvent::Done,
            BuildEvent::DpiFile(Some(current)),
            fresh(),
        ]),
        BuildStep::Finished { rebuilt: false }
    );
}

#[test]
fn changed_dpi_functions_are_built() {
    let mut setup = Setup::new();
    setup.dpi_functions = vec![three()];
    assert_eq!(setup.run(vec![BuildEvent::Done, BuildEvent::Done]), BuildStep::ReadDpiFile);
    for current in [None, Some("something else".to_owned())] {
        assert_eq!(
            setup.run(vec![
                BuildEvent::Done,
                BuildEvent::Done,
                BuildEvent::DpiFile(current.clone()),
            ]),
            BuildStep::WriteDpiFile
        );
        assert_eq!(
            setup.run(vec![
                BuildEvent::Done,
                BuildEvent::Done,
                BuildEvent::DpiFile(current),
                BuildEvent::Done,
                fresh(),
            ]),
            BuildStep::NotifyRebuild
        );
    }
}

#[test]
fn a_forced_build_asks_for_no_times() {
    let mut setup = Setup::new();
    setup.options = setup.options.force_verilator_rebuild(true);
    assert_eq!(setup.run(vec![BuildEvent::Done, BuildEvent::Done]), BuildStep::NotifyRebuild);
}

#[test]
fn every_failure_ends_the_build() {
    let mut setup = Setup::new();
    setup.dpi_functions = vec![three()];
    let fails = |setup: &Setup, events: Vec<BuildEvent>, failure: BuildFailure| {
        assert_eq!(setup.run(events), BuildStep::Failed(failure));
    };
    fails(&setup, vec![BuildEvent::Failed], BuildFailure::CreateFfiDirectory);
    fails(
        &setup,
        vec![BuildEvent::Done, BuildEvent::Failed],
        BuildFailure::CreateDpiDirectory,
    );
    fails(
        &setup,
        vec![BuildEvent::Done, BuildEvent::Done, BuildEvent::DpiFile(None), BuildEvent::Failed],
        BuildFailure::WriteDpiFile,
    );
    setup.dpi_functions = vec![];
    fails(
        &setup,
        vec![
            BuildEvent::Done,
            BuildEvent::Done,
            BuildEvent::Times { sources: vec![FileStamp::NoTime], library: Some(FileStamp::Modified(1)) },
        ],
        BuildFailure::RebuildCheck(RebuildCheckError::SourceTime(0)),
    );
    setup.options = setup.options.force_verilator_rebuild(true);
    let two = || vec![BuildEvent::Done, BuildEvent::Done];
    let after = |more: Vec<BuildEvent>| {
        let mut events = two();
        events.extend(more);
        events
    };
    fails(&setup, after(vec![BuildEvent::Failed]), BuildFailure::Notification);
    fails(&setup, after(vec![BuildEvent::Done, BuildEvent::Failed]), BuildFailure::WriteFfiFile);
    fails(
        &setup,
        after(vec![BuildEvent::Done, BuildEvent::Done, BuildEvent::Failed]),
        BuildFailure::VerilatorInvocation,
    );
    fails(
        &setup,
        after(vec![BuildEvent::Done, BuildEvent::Done, BuildEvent::Exit { success: false }]),
        BuildFailure::VerilatorExit,
    );
    fails(
        &setup,
        after(vec![BuildEvent::Done, BuildEvent::Done, success(), BuildEvent::Failed]),
        BuildFailure::CxxInvocation,
    );
    fails(
        &setup,
        after(vec![
            BuildEvent::Done,
            BuildEvent::Done,
            success(),
            BuildEvent::Exit { success: false },
        ]),
        BuildFailure::CxxExit,
    );
    setup.config.verilator_optimization = 9;
    fails(
        &setup,
        after(vec![BuildEvent::Done, BuildEvent::Done]),
        BuildFailure::InvalidOptimization(9),
    );
}

#[test]
fn tool_failures_show_the_output() {
    assert_eq!(
        tool_failure("verilator", "exit status: 1", "out", "err"),
        "Invocation of verilator failed with nonzero exit code exit status: 1\n\n--- STDOUT ---\nout\n\n--- STDERR ---\nerr"
    );
    assert_eq!(
        tool_failure_from_output("C++", "exit status: 2", "ö\n".as_bytes(), b"a\xffb"),
        "Invocation of C++ failed with nonzero exit code exit status: 2\n\n--- STDOUT ---\nö\n\n\n--- STDERR ---\na\u{fffd}b"
    );
}

#[test]
fn failures_are_described() {
    let setup = Setup::new();
    let layout = library_layout("artifacts", "main");
    let check = BuildFailure::RebuildCheck(RebuildCheckError::SourceTime(1));
    let expected = [
        (
            BuildFailure::CreateFfiDirectory,
            "Failed to create ffi/ subdirectory under artifacts directory",
            None,
        ),
        (
            BuildFailure::CreateDpiDirectory,
            "Failed to create dpi/ subdirectory under artifacts directory",
            None,
        ),
        (
            BuildFailure::WriteDpiFile,
            "Failed to build DPI functions",
            Some("Failed to write DPI function wrapper code to artifacts/dpi/dpi.cpp"),
        ),
        (
            check,
            "Failed to check if artifacts need rebuilding",
            Some("Failed to determine last-modified time for source file src/other.sv"),
        ),
        (
            BuildFailure::WriteFfiFile,
            "Failed to build FFI wrappers",
            Some("Failed to write FFI wrappers file"),
        ),
        (BuildFailure::VerilatorInvocation, "Invocation of Verilator failed", None),
        (BuildFailure::CxxInvocation, "Invocation of C++ compiler failed", None),
    ];
    for (failure, message, cause) in expected {
        assert_eq!(failure.message(), message);
        assert_eq!(failure.cause(&setup.job(), &layout).as_deref(), cause);
    }
}
