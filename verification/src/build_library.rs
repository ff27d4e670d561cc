//! Building the library of a model: where its files go, whether it has to be built, the commands
//! that build it, and the order of it all.

use vstd::prelude::*;
use vstd::string::*;

use crate::config::{
    BuildTarget, CxxStandard, VerilatedModelConfig, VerilatorRuntimeOptions, Waveform,
};
use crate::dpi::{self, DpiSignature};
use crate::path;
use crate::port::Port;
use crate::text;
use crate::version::VerilatorVersion;

verus! {

/// The files and directories of one library.
#[derive(Debug)]
pub struct LibraryLayout {
    /// Holds the bindings.
    pub ffi_directory: String,
    /// The bindings.
    pub ffi_file: String,
    /// Where Verilator works.
    pub verilator_directory: String,
    /// Holds the DPI functions.
    pub dpi_directory: String,
    /// The DPI functions.
    pub dpi_file: String,
    /// What the build ends in.
    pub shared_library: String,
    /// The model as Verilator builds it.
    pub static_library: String,
    /// Verilator's own library.
    pub libverilated: String,
}

/// The file name of the shared library.
pub open spec fn shared_library_name(top_module: Seq<char>) -> Seq<char> {
    "libmarlin_V"@ + top_module + ".so"@
}

/// The file name of the static library.
pub open spec fn static_library_name(top_module: Seq<char>) -> Seq<char> {
    "libV"@ + top_module + ".a"@
}

/// Where the files of a library go, below the directory of its artifacts.
pub fn library_layout(artifact_directory: &str, top_module: &str) -> (layout: LibraryLayout)
    ensures
        path::joins(artifact_directory@, "ffi"@, layout.ffi_directory@),
        path::joins(layout.ffi_directory@, "ffi.cpp"@, layout.ffi_file@),
        path::joins(artifact_directory@, "obj_dir"@, layout.verilator_directory@),
        path::joins(artifact_directory@, "dpi"@, layout.dpi_directory@),
        path::joins(layout.dpi_directory@, "dpi.cpp"@, layout.dpi_file@),
        path::joins(
            layout.verilator_directory@,
            shared_library_name(top_module@),
            layout.shared_library@,
        ),
        path::joins(
            layout.verilator_directory@,
            static_library_name(top_module@),
            layout.static_library@,
        ),
        path::joins(layout.verilator_directory@, "libverilated.a"@, layout.libverilated@),
{
    let ffi_directory = path::join(artifact_directory, "ffi");
    let verilator_directory = path::join(artifact_directory, "obj_dir");
    let dpi_directory = path::join(artifact_directory, "dpi");
    let mut shared_name = "libmarlin_V".to_owned();
    shared_name.append(top_module);
    shared_name.append(".so");
    let mut static_name = "libV".to_owned();
    static_name.append(top_module);
    static_name.append(".a");
    LibraryLayout {
        ffi_file: path::join(ffi_directory.as_str(), "ffi.cpp"),
        dpi_file: path::join(dpi_directory.as_str(), "dpi.cpp"),
        shared_library: path::join(verilator_directory.as_str(), shared_name.as_str()),
        static_library: path::join(verilator_directory.as_str(), static_name.as_str()),
        libverilated: path::join(verilator_directory.as_str(), "libverilated.a"),
        ffi_directory,
        verilator_directory,
        dpi_directory,
    }
}

/// The artifacts of a library form a tree: below their directory lie `ffi/` with the bindings,
/// `obj_dir/` with the libraries, among them the shared one, and `dpi/` with the DPI functions.
pub proof fn law_artifact_tree(
    artifacts: Seq<char>,
    top_module: Seq<char>,
    ffi: Seq<char>,
    obj_dir: Seq<char>,
    dpi: Seq<char>,
    ffi_file: Seq<char>,
    dpi_file: Seq<char>,
    shared_library: Seq<char>,
)
    requires
        path::joins(artifacts, "ffi"@, ffi),
        path::joins(artifacts, "obj_dir"@, obj_dir),
        path::joins(artifacts, "dpi"@, dpi),
        path::joins(ffi, "ffi.cpp"@, ffi_file),
        path::joins(dpi, "dpi.cpp"@, dpi_file),
        path::joins(obj_dir, shared_library_name(top_module), shared_library),
    ensures
        !path::is_verbatim(artifacts) ==> {
            &&& path::is_below(artifacts, "ffi"@, ffi)
            &&& path::is_below(artifacts, "obj_dir"@, obj_dir)
            &&& path::is_below(artifacts, "dpi"@, dpi)
        },
        !path::is_verbatim(ffi) ==> path::is_below(ffi, "ffi.cpp"@, ffi_file),
        !path::is_verbatim(dpi) ==> path::is_below(dpi, "dpi.cpp"@, dpi_file),
        !path::is_verbatim(obj_dir) ==> path::is_below(
            obj_dir,
            shared_library_name(top_module),
            shared_library,
        ),
{
    reveal_strlit("ffi");
    reveal_strlit("obj_dir");
    reveal_strlit("dpi");
    reveal_strlit("ffi.cpp");
    reveal_strlit("dpi.cpp");
    reveal_strlit("libmarlin_V");
}

/// What is known of when a file was last modified.
#[derive(Debug, Clone, Copy, PartialEq, Eq, Structural)]
pub enum FileStamp {
    /// Its metadata could not be read.
    NoMetadata,
    /// Its metadata does not tell.
    NoTime,
    /// In nanoseconds from a fixed point in time.
    Modified(i128),
}

/// Why it cannot be told whether a library is out of date.
#[derive(Debug, Clone, Copy, PartialEq, Eq, Structural)]
pub enum RebuildCheckError {
    LibraryMetadata,
    LibraryTime,
    /// The index of the source file.
    SourceMetadata(usize),
    /// The index of the source file.
    SourceTime(usize),
}

/// What is said where it cannot be told whether a library is out of date.
pub open spec fn rebuild_check_text(
    error: RebuildCheckError,
    library: Seq<char>,
    source_files: Seq<String>,
) -> Seq<char> {
    match error {
        RebuildCheckError::LibraryMetadata =>
            "Failed to read file metadata for dynamic library "@ + library,
        RebuildCheckError::LibraryTime =>
            "Failed to determine last-modified time for dynamic library "@ + library,
        RebuildCheckError::SourceMetadata(at) =>
            "Failed to read file metadata for source file "@ + source_files[at as int]@,
        RebuildCheckError::SourceTime(at) =>
            "Failed to determine last-modified time for source file "@ + source_files[at as int]@,
    }
}

impl RebuildCheckError {
    /// What is said where it cannot be told whether `library` is out of date.
    pub fn message(&self, library: &str, source_files: &[String]) -> (message: String)
        requires
            match *self {
                RebuildCheckError::SourceMetadata(at) => at < source_files@.len(),
                RebuildCheckError::SourceTime(at) => at < source_files@.len(),
                _ => true,
            },
        ensures
            message@ == rebuild_check_text(*self, library@, source_files@),
    {
        match self {
            RebuildCheckError::LibraryMetadata => {
                let mut message = "Failed to read file metadata for dynamic library ".to_owned();
                message.append(library);
                message
            },
            RebuildCheckError::LibraryTime => {
                let mut message =
                    "Failed to determine last-modified time for dynamic library ".to_owned();
                message.append(library);
                message
            },
            RebuildCheckError::SourceMetadata(at) => {
                let mut message = "Failed to read file metadata for source file ".to_owned();
                message.append(source_files[*at].as_str());
                message
            },
            RebuildCheckError::SourceTime(at) => {
                let mut message =
                    "Failed to determine last-modified time for source file ".to_owned();
                message.append(source_files[*at].as_str());
                message
            },
        }
    }
}

/// Whether a source file was modified at `built` or before.
pub open spec fn not_newer(source: FileStamp, built: i128) -> bool {
    source matches FileStamp::Modified(edited) && edited <= built
}

/// What the first source file at or after `from` that was not known to be older says.
pub open spec fn first_newer(sources: Seq<FileStamp>, built: i128, from: int) -> Result<
    bool,
    RebuildCheckError,
>
    decreases sources.len() - from,
{
    if from < 0 || from >= sources.len() {
        Ok(false)
    } else {
        match sources[from] {
            FileStamp::NoMetadata => Err(RebuildCheckError::SourceMetadata(from as usize)),
            FileStamp::NoTime => Err(RebuildCheckError::SourceTime(from as usize)),
            FileStamp::Modified(edited) => if edited > built {
                Ok(true)
            } else {
                first_newer(sources, built, from + 1)
            },
        }
    }
}

/// Whether a library that may exist is out of date against its sources.
pub open spec fn out_of_date(sources: Seq<FileStamp>, library: Option<FileStamp>) -> Result<
    bool,
    RebuildCheckError,
> {
    match library {
        None => Ok(true),
        Some(FileStamp::NoMetadata) => Err(RebuildCheckError::LibraryMetadata),
        Some(FileStamp::NoTime) => Err(RebuildCheckError::LibraryTime),
        Some(FileStamp::Modified(built)) => first_newer(sources, built, 0),
    }
}

/// Returns `Ok(true)` when the library doesn't exist or if any Verilog source file has been
/// modified after last building the library.
pub fn needs_verilator_rebuild(
    source_files: &[FileStamp],
    library: Option<FileStamp>,
) -> (needed: Result<bool, RebuildCheckError>)
    ensures
        needed == out_of_date(source_files@, library),
{
    let built: i128 = match library {
        None => {
            return Ok(true);
        },
        Some(FileStamp::NoMetadata) => {
            return Err(RebuildCheckError::LibraryMetadata);
        },
        Some(FileStamp::NoTime) => {
            return Err(RebuildCheckError::LibraryTime);
        },
        Some(FileStamp::Modified(time)) => time,
    };
    let mut i: usize = 0;
    while i < source_files.len()
        invariant
            i <= source_files@.len(),
            out_of_date(source_files@, library) == first_newer(source_files@, built, i as int),
        decreases source_files@.len() - i,
    {
        match source_files[i] {
            FileStamp::NoMetadata => {
                return Err(RebuildCheckError::SourceMetadata(i));
            },
            FileStamp::NoTime => {
                return Err(RebuildCheckError::SourceTime(i));
            },
            FileStamp::Modified(edited) => {
                if edited > built {
                    return Ok(true);
                }
            },
        }
        i = i + 1;
    }
    Ok(false)
}

/// A library is up to date exactly if it exists with a known time and every source file is known to
/// be no newer.
pub proof fn law_up_to_date(sources: Seq<FileStamp>, library: Option<FileStamp>)
    ensures
        out_of_date(sources, library) == Ok::<bool, RebuildCheckError>(false) <==> (
        library matches Some(FileStamp::Modified(built)) && forall|i: int|
            0 <= i < sources.len() ==> not_newer(#[trigger] sources[i], built)),
{
    if let Some(FileStamp::Modified(built)) = library {
        lemma_first_newer(sources, built, 0);
    }
}

/// With all times known, a library is out of date exactly if it does not exist or some source file
/// is newer.
pub proof fn law_out_of_date(sources: Seq<FileStamp>, built: i128)
    requires
        forall|i: int| 0 <= i < sources.len() ==> (#[trigger] sources[i]) is Modified,
    ensures
        out_of_date(sources, None) == Ok::<bool, RebuildCheckError>(true),
        out_of_date(sources, Some(FileStamp::Modified(built))) matches Ok(stale) && (stale <==> (
        exists|i: int| 0 <= i < sources.len() && !not_newer(#[trigger] sources[i], built))),
{
    lemma_first_newer(sources, built, 0);
}

/// What `first_newer` means.
proof fn lemma_first_newer(sources: Seq<FileStamp>, built: i128, from: int)
    requires
        0 <= from <= sources.len(),
    ensures
        first_newer(sources, built, from) == Ok::<bool, RebuildCheckError>(false) <==> (forall|
            i: int,
        |
            from <= i < sources.len() ==> not_newer(#[trigger] sources[i], built)),
        (forall|i: int| from <= i < sources.len() ==> (#[trigger] sources[i]) is Modified) ==> first_newer(
            sources,
            built,
            from,
        ) is Ok,
    decreases sources.len() - from,
{
    if from < sources.len() {
        lemma_first_newer(sources, built, from + 1);
        if first_newer(sources, built, from) == Ok::<bool, RebuildCheckError>(false) {
            assert forall|i: int| from <= i < sources.len() implies not_newer(
                #[trigger] sources[i],
                built,
            ) by {
                if i == from {
                    assert(not_newer(sources[from], built));
                }
            }
        }
        if !not_newer(sources[from], built) {
            assert(first_newer(sources, built, from) != Ok::<bool, RebuildCheckError>(false));
        }
    }
}

/// What a library is built from.
pub struct LibraryJob<'a> {
    pub source_files: &'a [String],
    pub build_target: BuildTarget,
    pub include_directories: &'a [String],
    pub dpi_functions: &'a [DpiSignature],
    pub top_module: &'a str,
    pub ports: &'a [Port<'a>],
    pub options: &'a VerilatorRuntimeOptions,
    pub config: &'a VerilatedModelConfig,
    pub verilator_version: VerilatorVersion,
}

/// The flag that asks for a C++ standard.
pub open spec fn standard_flag(standard: CxxStandard) -> Seq<char> {
    match standard {
        CxxStandard::Cxx98 => "-std=c++98"@,
        CxxStandard::Cxx11 => "-std=c++11"@,
        CxxStandard::Cxx14 => "-std=c++14"@,
        CxxStandard::Cxx17 => "-std=c++17"@,
        CxxStandard::Cxx20 => "-std=c++20"@,
        CxxStandard::Cxx23 => "-std=c++23"@,
        CxxStandard::Cxx26 => "-std=c++26"@,
    }
}

/// The flags for the C++ compiler.
pub open spec fn compiler_flags(config: VerilatedModelConfig) -> Seq<Seq<char>> {
    (match config.cxx_standard {
        Some(standard) => seq!["-shared"@, "-fpic"@, standard_flag(standard)],
        None => seq!["-shared"@, "-fpic"@],
    }).push("-DVL_TIME_CONTEXT"@)
}

/// Each text with a prefix.
pub open spec fn prefixed(prefix: Seq<char>, texts: Seq<String>) -> Seq<Seq<char>> {
    texts.map_values(|s: String| prefix + s@)
}

/// The flag that sets Verilator's optimization level.
pub open spec fn optimization_flags(level: usize) -> Seq<Seq<char>> {
    seq!["-O"@ + text::decimal(level as nat)]
}

/// The first version that takes `--trace-vcd` for `--trace`.
pub open spec fn trace_vcd_version() -> VerilatorVersion {
    VerilatorVersion { major: 5, minor: 36 }
}

/// The flag that switches tracing on.
pub open spec fn trace_flags(tracing: Option<Waveform>, version: VerilatorVersion) -> Seq<
    Seq<char>,
> {
    match tracing {
        None => Seq::empty(),
        Some(Waveform::Vcd) => if version.before(trace_vcd_version()) {
            seq!["--trace"@]
        } else {
            seq!["--trace-vcd"@]
        },
        Some(Waveform::Fst) => seq!["--trace-fst"@],
    }
}

/// The file of the DPI functions, if there are any.
pub open spec fn dpi_arguments(functions: Seq<DpiSignature>) -> Seq<Seq<char>> {
    if functions.len() > 0 {
        seq![dpi::DPI_FILE@]
    } else {
        Seq::empty()
    }
}

/// Where the compiler finds the bindings, seen from the directory that Verilator works in.
pub const FFI_FILE: &'static str = "../ffi/ffi.cpp";

/// The arguments for Verilator.
pub open spec fn verilator_command(job: LibraryJob, verilator_directory: Seq<char>) -> Seq<
    Seq<char>,
> {
    seq![
        "--cc"@,
        "-sv"@,
        "-j"@,
        "0"@,
        "--build"@,
        "-CFLAGS"@,
        text::joined(compiler_flags(*job.config), " "@),
        "-MAKEFLAGS"@,
        "CXX="@ + job.config.cxx_executable@,
        "--Mdir"@,
        verilator_directory,
        "--top-module"@,
        job.top_module@,
    ] + text::views(job.source_files@) + seq![FFI_FILE@] + prefixed(
        "-I"@,
        job.include_directories@,
    ) + dpi_arguments(job.dpi_functions@) + optimization_flags(job.config.verilator_optimization)
        + prefixed("-Wno-"@, job.config.ignored_warnings@) + trace_flags(
        job.config.enable_tracing,
        job.verilator_version,
    )
}

/// The arguments for the C++ compiler that links the shared library.
pub open spec fn linker_command(job: LibraryJob, layout: LibraryLayout) -> Seq<Seq<char>> {
    seq!["-shared"@] + compiler_flags(*job.config) + seq![
        match job.build_target {
            BuildTarget::Linux => "-Wl,--whole-archive"@,
            BuildTarget::MacOS => "-Wl,-force_load"@,
        },
        "-o"@,
        layout.shared_library@,
        layout.static_library@,
        layout.libverilated@,
    ] + (match job.build_target {
        BuildTarget::Linux => seq!["-Wl,--no-whole-archive"@],
        BuildTarget::MacOS => Seq::empty(),
    }) + (match job.config.enable_tracing {
        Some(Waveform::Fst) => seq!["-lz"@],
        _ => Seq::empty(),
    })
}

/// Appends a text.
fn push(texts: &mut Vec<String>, s: &str)
    ensures
        text::views(final(texts)@) == text::views(old(texts)@).push(s@),
{
    texts.push(s.to_owned());
    proof {
        assert(text::views(texts@) =~= text::views(old(texts)@).push(s@));
    }
}

/// Appends each of `more` with a prefix.
fn push_prefixed(texts: &mut Vec<String>, prefix: &str, more: &[String])
    ensures
        text::views(final(texts)@) == text::views(old(texts)@) + prefixed(prefix@, more@),
{
    let mut i: usize = 0;
    proof {
        assert(prefixed(prefix@, more@).take(0) =~= Seq::empty());
        assert(text::views(texts@) =~= text::views(old(texts)@) + Seq::empty());
    }
    while i < more.len()
        invariant
            i <= more@.len(),
            text::views(texts@) == text::views(old(texts)@) + prefixed(prefix@, more@).take(
                i as int,
            ),
        decreases more@.len() - i,
    {
        let mut s = prefix.to_owned();
        s.append(more[i].as_str());
        push(texts, s.as_str());
        proof {
            let all = prefixed(prefix@, more@);
            assert(all[i as int] == s@);
            assert(all.take(i + 1) =~= all.take(i as int).push(s@));
            assert(text::views(texts@) =~= text::views(old(texts)@) + all.take(i + 1));
        }
        i = i + 1;
    }
    proof {
        assert(prefixed(prefix@, more@).take(more@.len() as int) =~= prefixed(prefix@, more@));
    }
}

/// The flags for the C++ compiler.
fn compiler_flag_list(config: &VerilatedModelConfig) -> (flags: Vec<String>)
    ensures
        text::views(flags@) == compiler_flags(*config),
{
    let mut flags: Vec<String> = Vec::new();
    push(&mut flags, "-shared");
    push(&mut flags, "-fpic");
    if let Some(standard) = config.cxx_standard {
        push(
            &mut flags,
            match standard {
                CxxStandard::Cxx98 => "-std=c++98",
                CxxStandard::Cxx11 => "-std=c++11",
                CxxStandard::Cxx14 => "-std=c++14",
                CxxStandard::Cxx17 => "-std=c++17",
                CxxStandard::Cxx20 => "-std=c++20",
                CxxStandard::Cxx23 => "-std=c++23",
                CxxStandard::Cxx26 => "-std=c++26",
            },
        );
    }
    push(&mut flags, "-DVL_TIME_CONTEXT");
    proof {
        assert(text::views(flags@) =~= compiler_flags(*config));
    }
    flags
}

/// The arguments for Verilator; the error holds an optimization level that it does not know.
pub fn verilator_arguments(job: &LibraryJob, layout: &LibraryLayout) -> (arguments: Result<
    Vec<String>,
    usize,
>)
    ensures
        match arguments {
            Ok(arguments) => job.config.verilator_optimization <= 3 && text::views(arguments@)
                == verilator_command(*job, layout.verilator_directory@),
            Err(level) => level == job.config.verilator_optimization && level > 3,
        },
{
    let flags = compiler_flag_list(job.config);
    let mut makeflags = "CXX=".to_owned();
    makeflags.append(job.config.cxx_executable.as_str());
    let mut arguments: Vec<String> = Vec::new();
    push(&mut arguments, "--cc");
    push(&mut arguments, "-sv");
    push(&mut arguments, "-j");
    push(&mut arguments, "0");
    push(&mut arguments, "--build");
    push(&mut arguments, "-CFLAGS");
    push(&mut arguments, text::join(&flags, " ").as_str());
    push(&mut arguments, "-MAKEFLAGS");
    push(&mut arguments, makeflags.as_str());
    push(&mut arguments, "--Mdir");
    push(&mut arguments, layout.verilator_directory.as_str());
    push(&mut arguments, "--top-module");
    push(&mut arguments, job.top_module);
    let ghost first = text::views(arguments@);
    push_prefixed(&mut arguments, "", job.source_files);
    proof {
        reveal_strlit("");
        assert(prefixed(""@, job.source_files@) =~= text::views(job.source_files@)) by {
            assert forall|i: int| 0 <= i < job.source_files@.len() implies ""@
                + #[trigger] job.source_files@[i]@ == job.source_files@[i]@ by {
                assert(""@ + job.source_files@[i]@ =~= job.source_files@[i]@);
            }
        }
    }
    let ghost second = text::views(arguments@);
    push(&mut arguments, FFI_FILE);
    proof {
        assert(text::views(arguments@) =~= second + seq![FFI_FILE@]);
    }
    push_prefixed(&mut arguments, "-I", job.include_directories);
    let ghost third = text::views(arguments@);
    if job.dpi_functions.len() > 0 {
        push(&mut arguments, dpi::DPI_FILE);
    }
    proof {
        assert(text::views(arguments@) =~= third + dpi_arguments(job.dpi_functions@));
    }
    let level: usize = job.config.verilator_optimization;
    let ghost fourth = text::views(arguments@);
    if level > 3 {
        return Err(level);
    }
    let mut flag = "-O".to_owned();
    text::push_decimal(&mut flag, level as u64);
    push(&mut arguments, flag.as_str());
    proof {
        assert(text::views(arguments@) =~= fourth + optimization_flags(level));
    }
    push_prefixed(&mut arguments, "-Wno-", job.config.ignored_warnings.as_slice());
    let ghost fifth = text::views(arguments@);
    if let Some(waveform) = job.config.enable_tracing {
        match waveform {
            Waveform::Vcd => {
                let renamed = VerilatorVersion { major: 5, minor: 36 };
                if job.verilator_version < renamed {
                    push(&mut arguments, "--trace");
                } else {
                    push(&mut arguments, "--trace-vcd");
                }
            },
            Waveform::Fst => {
                push(&mut arguments, "--trace-fst");
            },
        }
    }
    proof {
        assert(text::views(arguments@) =~= fifth + trace_flags(
            job.config.enable_tracing,
            job.verilator_version,
        ));
        assert(first =~= seq![
            "--cc"@,
            "-sv"@,
            "-j"@,
            "0"@,
            "--build"@,
            "-CFLAGS"@,
            text::joined(compiler_flags(*job.config), " "@),
            "-MAKEFLAGS"@,
            "CXX="@ + job.config.cxx_executable@,
            "--Mdir"@,
            layout.verilator_directory@,
            "--top-module"@,
            job.top_module@,
        ]);
    }
    Ok(arguments)
}

/// The arguments for the C++ compiler that links the shared library.
pub fn cxx_arguments(job: &LibraryJob, layout: &LibraryLayout) -> (arguments: Vec<String>)
    ensures
        text::views(arguments@) == linker_command(*job, *layout),
{
    let flags = compiler_flag_list(job.config);
    let mut arguments: Vec<String> = Vec::new();
    push(&mut arguments, "-shared");
    push_prefixed(&mut arguments, "", flags.as_slice());
    proof {
        reveal_strlit("");
        assert(prefixed(""@, flags@) =~= text::views(flags@)) by {
            assert forall|i: int| 0 <= i < flags@.len() implies ""@ + #[trigger] flags@[i]@
                == flags@[i]@ by {
                assert(""@ + flags@[i]@ =~= flags@[i]@);
            }
        }
        assert(text::views(arguments@) =~= seq!["-shared"@] + compiler_flags(*job.config));
    }
    push(
        &mut arguments,
        match job.build_target {
            BuildTarget::Linux => "-Wl,--whole-archive",
            BuildTarget::MacOS => "-Wl,-force_load",
        },
    );
    push(&mut arguments, "-o");
    push(&mut arguments, layout.shared_library.as_str());
    push(&mut arguments, layout.static_library.as_str());
    push(&mut arguments, layout.libverilated.as_str());
    match job.build_target {
        BuildTarget::Linux => {
            push(&mut arguments, "-Wl,--no-whole-archive");
        },
        BuildTarget::MacOS => {},
    }
    match job.config.enable_tracing {
        Some(Waveform::Fst) => {
            push(&mut arguments, "-lz");
        },
        _ => {},
    }
    proof {
        assert(text::views(arguments@) =~= linker_command(*job, *layout));
    }
    arguments
}

/// What a build has to do next, or how it ended.
#[derive(Debug, Clone, Copy, PartialEq, Eq, Structural)]
pub enum BuildStep {
    /// Make the directory of the bindings.
    CreateFfiDirectory,
    /// Make the directory of the DPI functions.
    CreateDpiDirectory,
    /// Read the file of the DPI functions.
    ReadDpiFile,
    /// Write the file of the DPI functions.
    WriteDpiFile,
    /// Read the times of the shared library and of the source files.
    ReadTimes { dpi_rebuilt: bool },
    /// Tell the user that the library is being built.
    NotifyRebuild,
    /// Write the bindings.
    WriteFfiFile,
    /// Run Verilator.
    RunVerilator,
    /// Run the C++ compiler.
    RunCxx,
    /// The shared library is there; whether it was built anew.
    Finished { rebuilt: bool },
    Failed(BuildFailure),
}

/// Why a build failed.
#[derive(Debug, Clone, Copy, PartialEq, Eq, Structural)]
pub enum BuildFailure {
    CreateFfiDirectory,
    CreateDpiDirectory,
    WriteDpiFile,
    RebuildCheck(RebuildCheckError),
    Notification,
    WriteFfiFile,
    InvalidOptimization(usize),
    VerilatorInvocation,
    VerilatorExit,
    CxxInvocation,
    CxxExit,
}

/// Whether a failure has a text of its own: a tool that ended without success is described with what
/// it printed ([`tool_failure`]), and a failed notification by itself.
pub open spec fn has_message(failure: BuildFailure) -> bool {
    !(failure is VerilatorExit || failure is CxxExit || failure is Notification)
}

/// What is said of a failed build.
pub open spec fn failure_text(failure: BuildFailure) -> Seq<char> {
    match failure {
        BuildFailure::CreateFfiDirectory =>
            "Failed to create ffi/ subdirectory under artifacts directory"@,
        BuildFailure::CreateDpiDirectory =>
            "Failed to create dpi/ subdirectory under artifacts directory"@,
        BuildFailure::WriteDpiFile => "Failed to build DPI functions"@,
        BuildFailure::RebuildCheck(_) => "Failed to check if artifacts need rebuilding"@,
        BuildFailure::WriteFfiFile => "Failed to build FFI wrappers"@,
        BuildFailure::InvalidOptimization(level) => "Invalid Verilator optimization level: "@
            + text::decimal(level as nat),
        BuildFailure::VerilatorInvocation => "Invocation of Verilator failed"@,
        BuildFailure::CxxInvocation => "Invocation of C++ compiler failed"@,
        _ => Seq::empty(),
    }
}

/// What is said of why a build failed, where there is more to say.
pub open spec fn cause_text(
    failure: BuildFailure,
    job: LibraryJob,
    layout: LibraryLayout,
) -> Option<Seq<char>> {
    match failure {
        BuildFailure::WriteDpiFile => Some(
            "Failed to write DPI function wrapper code to "@ + layout.dpi_file@,
        ),
        BuildFailure::RebuildCheck(error) => Some(
            rebuild_check_text(error, layout.shared_library@, job.source_files@),
        ),
        BuildFailure::WriteFfiFile => Some("Failed to write FFI wrappers file"@),
        _ => None,
    }
}

impl BuildFailure {
    /// What is said of a failed build.
    pub fn message(&self) -> (message: String)
        requires
            has_message(*self),
        ensures
            message@ == failure_text(*self),
    {
        match self {
            BuildFailure::CreateFfiDirectory => {
                "Failed to create ffi/ subdirectory under artifacts directory".to_owned()
            },
            BuildFailure::CreateDpiDirectory => {
                "Failed to create dpi/ subdirectory under artifacts directory".to_owned()
            },
            BuildFailure::WriteDpiFile => "Failed to build DPI functions".to_owned(),
            BuildFailure::RebuildCheck(_) => {
                "Failed to check if artifacts need rebuilding".to_owned()
            },
            BuildFailure::WriteFfiFile => "Failed to build FFI wrappers".to_owned(),
            BuildFailure::InvalidOptimization(level) => invalid_optimization(*level),
            BuildFailure::VerilatorInvocation => "Invocation of Verilator failed".to_owned(),
            BuildFailure::CxxInvocation => "Invocation of C++ compiler failed".to_owned(),
            _ => String::new(),
        }
    }

    /// What is said of why a build failed, where there is more to say.
    pub fn cause(&self, job: &LibraryJob, layout: &LibraryLayout) -> (cause: Option<String>)
        requires
            match *self {
                BuildFailure::RebuildCheck(RebuildCheckError::SourceMetadata(at)) => at
                    < job.source_files@.len(),
                BuildFailure::RebuildCheck(RebuildCheckError::SourceTime(at)) => at
                    < job.source_files@.len(),
                _ => true,
            },
        ensures
            cause is Some <==> cause_text(*self, *job, *layout) is Some,
            cause matches Some(text) ==> cause_text(*self, *job, *layout) == Some(text@),
    {
        match self {
            BuildFailure::WriteDpiFile => {
                let mut cause = "Failed to write DPI function wrapper code to ".to_owned();
                cause.append(layout.dpi_file.as_str());
                Some(cause)
            },
            BuildFailure::RebuildCheck(error) => Some(
                error.message(layout.shared_library.as_str(), job.source_files),
            ),
            BuildFailure::WriteFfiFile => Some("Failed to write FFI wrappers file".to_owned()),
            _ => None,
        }
    }
}

/// What is said of an optimization level that Verilator does not know.
fn invalid_optimization(level: usize) -> (message: String)
    ensures
        message@ == "Invalid Verilator optimization level: "@ + text::decimal(level as nat),
{
    let mut message = "Invalid Verilator optimization level: ".to_owned();
    text::push_decimal(&mut message, level as u64);
    message
}

/// What is said of a tool that ended without success.
pub open spec fn tool_failure_text(
    tool: Seq<char>,
    status: Seq<char>,
    stdout: Seq<char>,
    stderr: Seq<char>,
) -> Seq<char> {
    "Invocation of "@ + tool + " failed with nonzero exit code "@ + status
        + "\n\n--- STDOUT ---\n"@ + stdout + "\n\n--- STDERR ---\n"@ + stderr
}

/// What is said of a tool that ended without success, with what it printed.
pub fn tool_failure(tool: &str, status: &str, stdout: &str, stderr: &str) -> (message: String)
    ensures
        message@ == tool_failure_text(tool@, status@, stdout@, stderr@),
{
    let mut message = "Invocation of ".to_owned();
    message.append(tool);
    message.append(" failed with nonzero exit code ");
    message.append(status);
    message.append("\n\n--- STDOUT ---\n");
    message.append(stdout);
    message.append("\n\n--- STDERR ---\n");
    message.append(stderr);
    message
}

/// What is said of a tool that ended without success, with the bytes that it printed.
pub fn tool_failure_from_output(tool: &str, status: &str, stdout: &[u8], stderr: &[u8]) -> (message:
    String)
    ensures
        message@ == tool_failure_text(
            tool@,
            status@,
            text::lossy_text(stdout@),
            text::lossy_text(stderr@),
        ),
{
    tool_failure(tool, status, text::lossy(stdout).as_str(), text::lossy(stderr).as_str())
}

/// What came of a step.
#[derive(Debug)]
pub enum BuildEvent {
    Done,
    Failed,
    /// What the file of the DPI functions holds, where it can be read.
    DpiFile(Option<String>),
    /// The times of the source files, and of the shared library where it exists.
    Times { sources: Vec<FileStamp>, library: Option<FileStamp> },
    /// A program ran to its end.
    Exit { success: bool },
}

/// Where every build starts.
pub const FIRST_STEP: BuildStep = BuildStep::CreateFfiDirectory;

/// Whether `event` is one that `step` can have.
pub open spec fn expects(step: BuildStep, event: BuildEvent) -> bool {
    match step {
        BuildStep::CreateFfiDirectory
        | BuildStep::CreateDpiDirectory
        | BuildStep::WriteDpiFile
        | BuildStep::NotifyRebuild
        | BuildStep::WriteFfiFile => event is Done || event is Failed,
        BuildStep::ReadDpiFile => event is DpiFile,
        BuildStep::ReadTimes { .. } => event is Times,
        BuildStep::RunVerilator | BuildStep::RunCxx => event is Exit || event is Failed,
        BuildStep::Finished { .. } | BuildStep::Failed(_) => false,
    }
}

/// What follows once the DPI functions are bound.
pub open spec fn after_dpi(job: LibraryJob, dpi_rebuilt: bool) -> BuildStep {
    if job.options.force_verilator_rebuild {
        BuildStep::NotifyRebuild
    } else {
        BuildStep::ReadTimes { dpi_rebuilt }
    }
}

/// The step that follows `step` after `event`.
pub open spec fn next_step(job: LibraryJob, step: BuildStep, event: BuildEvent) -> BuildStep {
    match (step, event) {
        (BuildStep::CreateFfiDirectory, BuildEvent::Done) => BuildStep::CreateDpiDirectory,
        (BuildStep::CreateFfiDirectory, _) => BuildStep::Failed(BuildFailure::CreateFfiDirectory),
        (BuildStep::CreateDpiDirectory, BuildEvent::Done) => if job.dpi_functions@.len() == 0 {
            after_dpi(job, false)
        } else {
            BuildStep::ReadDpiFile
        },
        (BuildStep::CreateDpiDirectory, _) => BuildStep::Failed(BuildFailure::CreateDpiDirectory),
        (BuildStep::ReadDpiFile, BuildEvent::DpiFile(current)) => if dpi::dpi_is_stale(
            job.top_module@,
            job.dpi_functions@,
            dpi::contents(current),
        ) {
            BuildStep::WriteDpiFile
        } else {
            after_dpi(job, false)
        },
        (BuildStep::WriteDpiFile, BuildEvent::Done) => after_dpi(job, true),
        (BuildStep::WriteDpiFile, _) => BuildStep::Failed(BuildFailure::WriteDpiFile),
        (BuildStep::ReadTimes { dpi_rebuilt }, BuildEvent::Times { sources, library }) => {
            match out_of_date(sources@, library) {
                Err(error) => BuildStep::Failed(BuildFailure::RebuildCheck(error)),
                Ok(stale) => if stale || dpi_rebuilt {
                    BuildStep::NotifyRebuild
                } else {
                    BuildStep::Finished { rebuilt: false }
                },
            }
        },
        (BuildStep::NotifyRebuild, BuildEvent::Done) => BuildStep::WriteFfiFile,
        (BuildStep::NotifyRebuild, _) => BuildStep::Failed(BuildFailure::Notification),
        (BuildStep::WriteFfiFile, BuildEvent::Done) => if job.config.verilator_optimization > 3 {
            BuildStep::Failed(
                BuildFailure::InvalidOptimization(job.config.verilator_optimization),
            )
        } else {
            BuildStep::RunVerilator
        },
        (BuildStep::WriteFfiFile, _) => BuildStep::Failed(BuildFailure::WriteFfiFile),
        (BuildStep::RunVerilator, BuildEvent::Exit { success }) => if success {
            BuildStep::RunCxx
        } else {
            BuildStep::Failed(BuildFailure::VerilatorExit)
        },
        (BuildStep::RunVerilator, _) => BuildStep::Failed(BuildFailure::VerilatorInvocation),
        (BuildStep::RunCxx, BuildEvent::Exit { success }) => if success {
            BuildStep::Finished { rebuilt: true }
        } else {
            BuildStep::Failed(BuildFailure::CxxExit)
        },
        (BuildStep::RunCxx, _) => BuildStep::Failed(BuildFailure::CxxInvocation),
        _ => step,
    }
}

/// Builds a shared library serving as the runtime for a Verilog module, one step at a time: told
/// what came of a step, returns the step to take next. A build starts at [`FIRST_STEP`].
///
/// First the directories of the artifacts are made. If there are any DPI functions, their bindings
/// are written unless they are there already.
///
/// Then, if the DPI functions were bound anew, any Verilog source code has been edited, or the
/// options force rebuilding, the library is built. Otherwise the build ends here.
///
/// Next the bindings of the model ([`crate::ffi::build_ffi`]) are written. Finally Verilator runs
/// ([`verilator_arguments`]), and then the C++ compiler ([`cxx_arguments`]).
pub fn build_library(job: &LibraryJob, step: BuildStep, event: &BuildEvent) -> (next: BuildStep)
    requires
        expects(step, *event),
    ensures
        next == next_step(*job, step, *event),
{
    match step {
        BuildStep::CreateFfiDirectory => match event {
            BuildEvent::Done => BuildStep::CreateDpiDirectory,
            _ => BuildStep::Failed(BuildFailure::CreateFfiDirectory),
        },
        BuildStep::CreateDpiDirectory => match event {
            BuildEvent::Done => {
                if job.dpi_functions.len() == 0 {
                    once_dpi_is_bound(job, false)
                } else {
                    BuildStep::ReadDpiFile
                }
            },
            _ => BuildStep::Failed(BuildFailure::CreateDpiDirectory),
        },
        BuildStep::ReadDpiFile => match event {
            BuildEvent::DpiFile(current) => {
                let binding = dpi::bind_dpi_if_needed(job.top_module, job.dpi_functions, current);
                match binding.code {
                    Some(_) => BuildStep::WriteDpiFile,
                    None => once_dpi_is_bound(job, false),
                }
            },
            _ => step,
        },
        BuildStep::WriteDpiFile => match event {
            BuildEvent::Done => once_dpi_is_bound(job, true),
            _ => BuildStep::Failed(BuildFailure::WriteDpiFile),
        },
        BuildStep::ReadTimes { dpi_rebuilt } => match event {
            BuildEvent::Times { sources, library } => {
                match needs_verilator_rebuild(sources.as_slice(), *library) {
                    Err(error) => BuildStep::Failed(BuildFailure::RebuildCheck(error)),
                    Ok(stale) => {
                        if stale || dpi_rebuilt {
                            BuildStep::NotifyRebuild
                        } else {
                            BuildStep::Finished { rebuilt: false }
                        }
                    },
                }
            },
            _ => step,
        },
        BuildStep::NotifyRebuild => match event {
            BuildEvent::Done => BuildStep::WriteFfiFile,
            _ => BuildStep::Failed(BuildFailure::Notification),
        },
        BuildStep::WriteFfiFile => match event {
            BuildEvent::Done => {
                let level: usize = job.config.verilator_optimization;
                if level > 3 {
                    BuildStep::Failed(BuildFailure::InvalidOptimization(level))
                } else {
                    BuildStep::RunVerilator
                }
            },
            _ => BuildStep::Failed(BuildFailure::WriteFfiFile),
        },
        BuildStep::RunVerilator => match event {
            BuildEvent::Exit { success } => {
                if *success {
                    BuildStep::RunCxx
                } else {
                    BuildStep::Failed(BuildFailure::VerilatorExit)
                }
            },
            _ => BuildStep::Failed(BuildFailure::VerilatorInvocation),
        },
        BuildStep::RunCxx => match event {
            BuildEvent::Exit { success } => {
                if *success {
                    BuildStep::Finished { rebuilt: true }
                } else {
                    BuildStep::Failed(BuildFailure::CxxExit)
                }
            },
            _ => BuildStep::Failed(BuildFailure::CxxInvocation),
        },
        BuildStep::Finished { .. } => step,
        BuildStep::Failed(_) => step,
    }
}

/// What follows once the DPI functions are bound.
fn once_dpi_is_bound(job: &LibraryJob, dpi_rebuilt: bool) -> (next: BuildStep)
    ensures
        next == after_dpi(*job, dpi_rebuilt),
{
    if job.options.force_verilator_rebuild {
        BuildStep::NotifyRebuild
    } else {
        BuildStep::ReadTimes { dpi_rebuilt }
    }
}

/// Where a build stands after some events.
pub open spec fn step_after(job: LibraryJob, events: Seq<BuildEvent>) -> BuildStep
    decreases events.len(),
{
    if events.len() == 0 {
        FIRST_STEP
    } else {
        next_step(job, step_after(job, events.drop_last()), events.last())
    }
}

/// Whether some events can be those of a build, in order.
pub open spec fn possible(job: LibraryJob, events: Seq<BuildEvent>) -> bool
    decreases events.len(),
{
    events.len() > 0 ==> possible(job, events.drop_last()) && expects(
        step_after(job, events.drop_last()),
        events.last(),
    )
}

/// How many more steps a build can take at most.
pub open spec fn steps_left(step: BuildStep) -> nat {
    match step {
        BuildStep::CreateFfiDirectory => 9,
        BuildStep::CreateDpiDirectory => 8,
        BuildStep::ReadDpiFile => 7,
        BuildStep::WriteDpiFile => 6,
        BuildStep::ReadTimes { .. } => 5,
        BuildStep::NotifyRebuild => 4,
        BuildStep::WriteFfiFile => 3,
        BuildStep::RunVerilator => 2,
        BuildStep::RunCxx => 1,
        BuildStep::Finished { .. } | BuildStep::Failed(_) => 0,
    }
}

/// Every build ends: each event leaves fewer steps to take, so that no build has more than nine
/// events.
pub proof fn law_build_ends(job: LibraryJob, events: Seq<BuildEvent>)
    requires
        possible(job, events),
    ensures
        events.len() + steps_left(step_after(job, events)) <= 9,
    decreases events.len(),
{
    if events.len() > 0 {
        law_build_ends(job, events.drop_last());
    }
}

/// A library counts as built anew only after Verilator and then the C++ compiler ended with
/// success, as the last two events.
pub proof fn law_rebuilt_only_by_both_tools(job: LibraryJob, events: Seq<BuildEvent>)
    requires
        possible(job, events),
        step_after(job, events) == (BuildStep::Finished { rebuilt: true }),
    ensures
        events.len() >= 2,
        step_after(job, events.drop_last().drop_last()) is RunVerilator,
        events.drop_last().last() == (BuildEvent::Exit { success: true }),
        step_after(job, events.drop_last()) is RunCxx,
        events.last() == (BuildEvent::Exit { success: true }),
{
    let earlier = events.drop_last();
    assert(step_after(job, earlier) is RunCxx);
    assert(earlier.len() > 0);
    assert(expects(step_after(job, earlier.drop_last()), earlier.last()));
}

/// Whether a build told the user, with success, that it builds, before its last event.
pub open spec fn notified(job: LibraryJob, events: Seq<BuildEvent>) -> bool {
    exists|n: int|
        0 <= n < events.len() && #[trigger] step_after(job, events.take(n)) is NotifyRebuild
            && events[n] is Done
}

/// Whether a step comes only after the user was told that the library is being built.
pub open spec fn comes_after_notice(step: BuildStep) -> bool {
    step is WriteFfiFile || step is RunVerilator || step is RunCxx || step == (
    BuildStep::Finished { rebuilt: true })
}

proof fn lemma_notified(job: LibraryJob, events: Seq<BuildEvent>)
    requires
        possible(job, events),
        !(step_after(job, events) is Failed),
    ensures
        notified(job, events) <==> comes_after_notice(step_after(job, events)),
    decreases events.len(),
{
    if events.len() > 0 {
        let earlier = events.drop_last();
        let last = events.len() - 1;
        assert(!(step_after(job, earlier) is Failed));
        lemma_notified(job, earlier);
        assert(events.take(last) =~= earlier);
        if notified(job, earlier) {
            let n = choose|n: int|
                0 <= n < earlier.len() && #[trigger] step_after(job, earlier.take(n)) is NotifyRebuild
                    && earlier[n] is Done;
            assert(earlier.take(n) =~= events.take(n));
            assert(notified(job, events));
        }
        if notified(job, events) && !notified(job, earlier) {
            let n = choose|n: int|
                0 <= n < events.len() && #[trigger] step_after(job, events.take(n)) is NotifyRebuild
                    && events[n] is Done;
            if n < last {
                assert(earlier.take(n) =~= events.take(n));
                assert(step_after(job, earlier.take(n)) is NotifyRebuild && earlier[n] is Done);
            }
            assert(n == last);
        }
    }
}

proof fn lemma_steps_left_decrease(job: LibraryJob, events: Seq<BuildEvent>, n: int, m: int)
    requires
        possible(job, events),
        0 <= n < m <= events.len(),
    ensures
        steps_left(step_after(job, events.take(m))) < steps_left(step_after(job, events.take(n))),
    decreases events.len(), m,
{
    if m < events.len() {
        let earlier = events.drop_last();
        assert(earlier.take(n) =~= events.take(n));
        assert(earlier.take(m) =~= events.take(m));
        lemma_steps_left_decrease(job, earlier, n, m);
    } else {
        assert(events.take(m) =~= events);
        assert(events.take(m - 1) =~= events.drop_last());
        if n < m - 1 {
            lemma_steps_left_decrease(job, events, n, m - 1);
        }
    }
}

/// A build that ends well has built if and only if it told the user so, and it tells so at most
/// once.
pub proof fn law_rebuilt_iff_notified_once(
    job: LibraryJob,
    events: Seq<BuildEvent>,
    rebuilt: bool,
    n: int,
    m: int,
)
    requires
        possible(job, events),
        step_after(job, events) == (BuildStep::Finished { rebuilt }),
        0 <= n <= events.len(),
        0 <= m <= events.len(),
    ensures
        rebuilt <==> notified(job, events),
        step_after(job, events.take(n)) is NotifyRebuild && step_after(job, events.take(m))
            is NotifyRebuild ==> n == m,
{
    lemma_notified(job, events);
    if n < m {
        lemma_steps_left_decrease(job, events, n, m);
    } else if m < n {
        lemma_steps_left_decrease(job, events, m, n);
    }
}

/// Without DPI functions their file is neither read nor written.
pub proof fn law_no_dpi_functions_no_dpi_file(job: LibraryJob, events: Seq<BuildEvent>)
    requires
        job.dpi_functions@.len() == 0,
    ensures
        !(step_after(job, events) is ReadDpiFile),
        !(step_after(job, events) is WriteDpiFile),
    decreases events.len(),
{
    if events.len() > 0 {
        law_no_dpi_functions_no_dpi_file(job, events.drop_last());
    }
}

/// If the options force rebuilding, no build ends well without having built.
pub proof fn law_forced_build_builds(job: LibraryJob, events: Seq<BuildEvent>)
    requires
        job.options.force_verilator_rebuild,
    ensures
        step_after(job, events) != (BuildStep::Finished { rebuilt: false }),
        !(step_after(job, events) is ReadTimes),
    decreases events.len(),
{
    if events.len() > 0 {
        law_forced_build_builds(job, events.drop_last());
    }
}

/// A build that ends well without building saw a library no older than any source file, and left
/// the DPI file as it was.
pub proof fn law_skipped_build_is_up_to_date(job: LibraryJob, events: Seq<BuildEvent>)
    requires
        possible(job, events),
        step_after(job, events) == (BuildStep::Finished { rebuilt: false }),
    ensures
        !job.options.force_verilator_rebuild,
        events.len() > 0,
        events.last() matches BuildEvent::Times { sources, library } && library matches Some(
            FileStamp::Modified(built),
        ) && forall|i: int| 0 <= i < sources@.len() ==> not_newer(#[trigger] sources@[i], built),
        forall|n: int|
            0 <= n <= events.len() ==> !(#[trigger] step_after(job, events.take(n)) is WriteDpiFile),
{
    let earlier = events.drop_last();
    assert(step_after(job, earlier) == (BuildStep::ReadTimes { dpi_rebuilt: false }));
    if job.options.force_verilator_rebuild {
        law_forced_build_builds(job, earlier);
    }
    if let BuildEvent::Times { sources, library } = events.last() {
        law_up_to_date(sources@, library);
    }
    lemma_dpi_not_written(job, earlier);
    assert forall|n: int| 0 <= n <= events.len() implies !(#[trigger] step_after(
        job,
        events.take(n),
    ) is WriteDpiFile) by {
        if n == events.len() {
            assert(events.take(n) =~= events);
        } else {
            assert(events.take(n) =~= earlier.take(n));
        }
    }
}

/// A build that reads the times without having bound the DPI functions anew never set out to write
/// their file.
proof fn lemma_dpi_not_written(job: LibraryJob, events: Seq<BuildEvent>)
    requires
        possible(job, events),
        ({
            let step = step_after(job, events);
            ||| step == (BuildStep::ReadTimes { dpi_rebuilt: false })
            ||| step is ReadDpiFile
            ||| step is CreateDpiDirectory
            ||| step is CreateFfiDirectory
        }),
    ensures
        forall|n: int|
            0 <= n <= events.len() ==> !(#[trigger] step_after(job, events.take(n)) is WriteDpiFile),
    decreases events.len(),
{
    assert(events.take(events.len() as int) =~= events);
    if events.len() > 0 {
        let earlier = events.drop_last();
        lemma_dpi_not_written(job, earlier);
        assert forall|n: int| 0 <= n <= events.len() implies !(#[trigger] step_after(
            job,
            events.take(n),
        ) is WriteDpiFile) by {
            if n < events.len() {
                assert(events.take(n) =~= earlier.take(n));
            }
        }
    }
}

/// Building is incremental: where rebuilding is not forced, the DPI file holds the code of the
/// functions, and the library is no older than any source file, the build ends without building.
pub proof fn law_unchanged_is_not_rebuilt(
    job: LibraryJob,
    current: Option<String>,
    sources: Vec<FileStamp>,
    built: i128,
)
    requires
        !job.options.force_verilator_rebuild,
        !dpi::dpi_is_stale(job.top_module@, job.dpi_functions@, dpi::contents(current)),
        forall|i: int| 0 <= i < sources@.len() ==> not_newer(#[trigger] sources@[i], built),
    ensures
        ({
            let times = BuildEvent::Times { sources, library: Some(FileStamp::Modified(built)) };
            let events = if job.dpi_functions@.len() == 0 {
                seq![BuildEvent::Done, BuildEvent::Done, times]
            } else {
                seq![BuildEvent::Done, BuildEvent::Done, BuildEvent::DpiFile(current), times]
            };
            possible(job, events) && step_after(job, events) == (BuildStep::Finished {
                rebuilt: false,
            })
        }),
{
    reveal_with_fuel(step_after, 5);
    reveal_with_fuel(possible, 5);
    let times = BuildEvent::Times { sources, library: Some(FileStamp::Modified(built)) };
    law_up_to_date(sources@, Some(FileStamp::Modified(built)));
    let one = seq![BuildEvent::Done];
    let two = seq![BuildEvent::Done, BuildEvent::Done];
    assert(one.drop_last() =~= Seq::empty());
    assert(two.drop_last() =~= one);
    if job.dpi_functions@.len() == 0 {
        assert(seq![BuildEvent::Done, BuildEvent::Done, times].drop_last() =~= two);
    } else {
        let three = seq![BuildEvent::Done, BuildEvent::Done, BuildEvent::DpiFile(current)];
        assert(three.drop_last() =~= two);
        assert(seq![
            BuildEvent::Done,
            BuildEvent::Done,
            BuildEvent::DpiFile(current),
            times,
        ].drop_last() =~= three);
    }
}

/// A change is built: where the DPI functions were bound anew, or the library is missing or older
/// than a source file, the build goes on to build, unless it cannot tell the times.
pub proof fn law_change_is_rebuilt(
    job: LibraryJob,
    dpi_rebuilt: bool,
    sources: Vec<FileStamp>,
    library: Option<FileStamp>,
)
    requires
        dpi_rebuilt || out_of_date(sources@, library) == Ok::<bool, RebuildCheckError>(true),
    ensures
        ({
            let next = next_step(
                job,
                BuildStep::ReadTimes { dpi_rebuilt },
                BuildEvent::Times { sources, library },
            );
            match out_of_date(sources@, library) {
                Ok(_) => next is NotifyRebuild,
                Err(error) => next == BuildStep::Failed(BuildFailure::RebuildCheck(error)),
            }
        }),
{
}

/// Verilator is run, the library linked and the build ended as built only after the bindings of the
/// model were written.
pub proof fn law_verilator_runs_on_written_bindings(job: LibraryJob, events: Seq<BuildEvent>)
    requires
        possible(job, events),
        step_after(job, events) is RunVerilator || step_after(job, events) is RunCxx
            || step_after(job, events) == (BuildStep::Finished { rebuilt: true }),
    ensures
        exists|n: int|
            0 <= n < events.len() && (#[trigger] step_after(job, events.take(n))) is WriteFfiFile
                && events[n] is Done,
    decreases events.len(),
{
    let earlier = events.drop_last();
    let last = events.len() - 1;
    assert(events.take(last) =~= earlier);
    if !(step_after(job, earlier) is WriteFfiFile) {
        law_verilator_runs_on_written_bindings(job, earlier);
        let n = choose|n: int|
            0 <= n < earlier.len() && (#[trigger] step_after(job, earlier.take(n))) is WriteFfiFile
                && earlier[n] is Done;
        assert(earlier.take(n) =~= events.take(n));
        assert(step_after(job, events.take(n)) is WriteFfiFile);
    } else {
        assert(step_after(job, events.take(last)) is WriteFfiFile);
    }
}

/// The library is linked, and the build ended as built, only after Verilator ended with success.
pub proof fn law_library_is_linked_after_verilator(job: LibraryJob, events: Seq<BuildEvent>)
    requires
        possible(job, events),
        step_after(job, events) is RunCxx || step_after(job, events) == (BuildStep::Finished {
            rebuilt: true,
        }),
    ensures
        exists|n: int|
            0 <= n < events.len() && (#[trigger] step_after(job, events.take(n))) is RunVerilator
                && events[n] == (BuildEvent::Exit { success: true }),
    decreases events.len(),
{
    let earlier = events.drop_last();
    let last = events.len() - 1;
    assert(events.take(last) =~= earlier);
    if !(step_after(job, earlier) is RunVerilator) {
        law_library_is_linked_after_verilator(job, earlier);
        let n = choose|n: int|
            0 <= n < earlier.len() && (#[trigger] step_after(job, earlier.take(n))) is RunVerilator
                && earlier[n] == (BuildEvent::Exit { success: true });
        assert(earlier.take(n) =~= events.take(n));
        assert(step_after(job, events.take(n)) is RunVerilator);
    } else {
        assert(step_after(job, events.take(last)) is RunVerilator);
    }
}

/// A build ends as built only after the C++ compiler linked the library with success.
pub proof fn law_built_library_was_linked(job: LibraryJob, events: Seq<BuildEvent>)
    requires
        possible(job, events),
        step_after(job, events) == (BuildStep::Finished { rebuilt: true }),
    ensures
        exists|n: int|
            0 <= n < events.len() && (#[trigger] step_after(job, events.take(n))) is RunCxx
                && events[n] == (BuildEvent::Exit { success: true }),
    decreases events.len(),
{
    let earlier = events.drop_last();
    let last = events.len() - 1;
    assert(events.take(last) =~= earlier);
    if !(step_after(job, earlier) is RunCxx) {
        law_built_library_was_linked(job, earlier);
        let n = choose|n: int|
            0 <= n < earlier.len() && (#[trigger] step_after(job, earlier.take(n))) is RunCxx
                && earlier[n] == (BuildEvent::Exit { success: true });
        assert(earlier.take(n) =~= events.take(n));
        assert(step_after(job, events.take(n)) is RunCxx);
    } else {
        assert(step_after(job, events.take(last)) is RunCxx);
    }
}

/// The directories of the artifacts are made before anything else.
pub proof fn law_directories_come_first(job: LibraryJob, events: Seq<BuildEvent>)
    requires
        possible(job, events),
        !(step_after(job, events) is CreateFfiDirectory),
        !(step_after(job, events) is CreateDpiDirectory),
        !(step_after(job, events) is Failed),
    ensures
        events.len() >= 2,
        step_after(job, events.take(0)) is CreateFfiDirectory,
        events[0] is Done,
        step_after(job, events.take(1)) is CreateDpiDirectory,
        events[1] is Done,
    decreases events.len(),
{
    let earlier = events.drop_last();
    assert(events.len() > 0);
    assert(events.take(0) =~= Seq::empty());
    if step_after(job, earlier) is CreateDpiDirectory {
        assert(earlier.len() > 0);
        assert(earlier.drop_last().len() == 0) by {
            lemma_only_the_start_creates(job, earlier.drop_last());
        }
        assert(earlier.drop_last() =~= Seq::empty());
        assert(events.take(1) =~= earlier);
        assert(events[0] == earlier.last());
        assert(events[1] == events.last());
    } else {
        law_directories_come_first(job, earlier);
        assert(earlier.take(0) =~= events.take(0));
        assert(earlier.take(1) =~= events.take(1));
    }
}

proof fn lemma_only_the_start_creates(job: LibraryJob, events: Seq<BuildEvent>)
    requires
        possible(job, events),
        step_after(job, events) is CreateFfiDirectory,
    ensures
        events.len() == 0,
{
    if events.len() > 0 {
        lemma_steps_left_decrease(job, events, 0, events.len() as int);
        assert(events.take(0) =~= Seq::empty());
        assert(events.take(events.len() as int) =~= events);
    }
}

/// A build starts with the first directory, and every event leads to the step that follows; a step
/// has the events of its work.
pub proof fn law_builds_go_step_by_step(
    job: LibraryJob,
    events: Seq<BuildEvent>,
    event: BuildEvent,
    step: BuildStep,
)
    ensures
        step_after(job, Seq::empty()) is CreateFfiDirectory,
        possible(job, Seq::empty()),
        step_after(job, events.push(event)) == next_step(job, step_after(job, events), event),
        possible(job, events.push(event)) <==> possible(job, events) && expects(
            step_after(job, events),
            event,
        ),
        expects(step, event) <==> match step {
            BuildStep::ReadDpiFile => event is DpiFile,
            BuildStep::ReadTimes { .. } => event is Times,
            BuildStep::RunVerilator => event is Exit || event is Failed,
            BuildStep::RunCxx => event is Exit || event is Failed,
            BuildStep::Finished { .. } => false,
            BuildStep::Failed(_) => false,
            _ => event is Done || event is Failed,
        },
{
    let longer = events.push(event);
    assert(longer.drop_last() =~= events);
    assert(longer.last() == event);
}

/// Work that is done leads on, for every job: the directories, then the DPI functions if there are
/// any; once they are bound, a forced build goes on to build, and another first reads the times;
/// then the user is told, the bindings are written, Verilator is run unless it does not know the
/// optimization level, and the library is linked.
pub proof fn law_done_work_leads_on(job: LibraryJob, dpi_written: BuildEvent)
    requires
        dpi_written is Done,
    ensures
        next_step(job, BuildStep::CreateFfiDirectory, BuildEvent::Done)
            == BuildStep::CreateDpiDirectory,
        job.dpi_functions@.len() > 0 ==> next_step(
            job,
            BuildStep::CreateDpiDirectory,
            BuildEvent::Done,
        ) == BuildStep::ReadDpiFile,
        job.dpi_functions@.len() == 0 ==> next_step(
            job,
            BuildStep::CreateDpiDirectory,
            BuildEvent::Done,
        ) == if job.options.force_verilator_rebuild {
            BuildStep::NotifyRebuild
        } else {
            BuildStep::ReadTimes { dpi_rebuilt: false }
        },
        next_step(job, BuildStep::WriteDpiFile, dpi_written)
            == if job.options.force_verilator_rebuild {
            BuildStep::NotifyRebuild
        } else {
            BuildStep::ReadTimes { dpi_rebuilt: true }
        },
        next_step(job, BuildStep::NotifyRebuild, BuildEvent::Done) == BuildStep::WriteFfiFile,
        next_step(job, BuildStep::WriteFfiFile, BuildEvent::Done)
            == if job.config.verilator_optimization <= 3 {
            BuildStep::RunVerilator
        } else {
            BuildStep::Failed(BuildFailure::InvalidOptimization(job.config.verilator_optimization))
        },
        next_step(job, BuildStep::RunVerilator, BuildEvent::Exit { success: true })
            == BuildStep::RunCxx,
        next_step(job, BuildStep::RunCxx, BuildEvent::Exit { success: true })
            == (BuildStep::Finished { rebuilt: true }),
{
}

/// Work that fails ends the build with the failure of that work.
pub proof fn law_failed_work_ends_the_build(job: LibraryJob)
    ensures
        next_step(job, BuildStep::CreateFfiDirectory, BuildEvent::Failed) == BuildStep::Failed(
            BuildFailure::CreateFfiDirectory,
        ),
        next_step(job, BuildStep::CreateDpiDirectory, BuildEvent::Failed) == BuildStep::Failed(
            BuildFailure::CreateDpiDirectory,
        ),
        next_step(job, BuildStep::WriteDpiFile, BuildEvent::Failed) == BuildStep::Failed(
            BuildFailure::WriteDpiFile,
        ),
        next_step(job, BuildStep::NotifyRebuild, BuildEvent::Failed) == BuildStep::Failed(
            BuildFailure::Notification,
        ),
        next_step(job, BuildStep::WriteFfiFile, BuildEvent::Failed) == BuildStep::Failed(
            BuildFailure::WriteFfiFile,
        ),
        next_step(job, BuildStep::RunVerilator, BuildEvent::Failed) == BuildStep::Failed(
            BuildFailure::VerilatorInvocation,
        ),
        next_step(job, BuildStep::RunVerilator, BuildEvent::Exit { success: false })
            == BuildStep::Failed(BuildFailure::VerilatorExit),
        next_step(job, BuildStep::RunCxx, BuildEvent::Failed) == BuildStep::Failed(
            BuildFailure::CxxInvocation,
        ),
        next_step(job, BuildStep::RunCxx, BuildEvent::Exit { success: false })
            == BuildStep::Failed(BuildFailure::CxxExit),
{
}

/// The file of the DPI functions is written exactly if it cannot be read or holds anything else than
/// their code. Otherwise the functions count as unchanged.
pub proof fn law_changed_dpi_file_is_written(job: LibraryJob, file: Option<String>)
    requires
        job.dpi_functions@.len() > 0,
    ensures
        ({
            let next = next_step(job, BuildStep::ReadDpiFile, BuildEvent::DpiFile(file));
            if file matches Some(code) && code@ == dpi::dpi_text(
                job.top_module@,
                job.dpi_functions@,
            ) {
                next == if job.options.force_verilator_rebuild {
                    BuildStep::NotifyRebuild
                } else {
                    BuildStep::ReadTimes { dpi_rebuilt: false }
                }
            } else {
                next == BuildStep::WriteDpiFile
            }
        }),
{
}

/// With all times known, a library is built exactly if the DPI functions were bound anew, it does not
/// exist, or a source file was modified after it.
pub proof fn law_times_decide_on_building(
    job: LibraryJob,
    dpi_rebuilt: bool,
    sources: Vec<FileStamp>,
    library: Option<FileStamp>,
    times: Seq<i128>,
    built: i128,
)
    requires
        sources@.len() == times.len(),
        forall|i: int|
            0 <= i < times.len() ==> #[trigger] sources@[i] == FileStamp::Modified(times[i]),
        library is None || library == Some(FileStamp::Modified(built)),
    ensures
        next_step(
            job,
            BuildStep::ReadTimes { dpi_rebuilt },
            BuildEvent::Times { sources, library },
        ) == if dpi_rebuilt || library is None || (exists|i: int|
            0 <= i < times.len() && #[trigger] times[i] > built) {
            BuildStep::NotifyRebuild
        } else {
            BuildStep::Finished { rebuilt: false }
        },
{
    law_newer_sources_make_out_of_date(sources@, library, times, built);
}

/// A time that is not known ends the build: that of the library, or else that of the first source
/// file before which none is newer.
pub proof fn law_unknown_time_is_reported(
    sources: Seq<FileStamp>,
    times: Seq<i128>,
    built: i128,
    at: usize,
)
    requires
        at == times.len(),
        at < sources.len(),
        forall|i: int|
            0 <= i < at ==> #[trigger] sources[i] == FileStamp::Modified(times[i]) && times[i]
                <= built,
    ensures
        out_of_date(sources, Some(FileStamp::NoMetadata)) == Err::<bool, RebuildCheckError>(
            RebuildCheckError::LibraryMetadata,
        ),
        out_of_date(sources, Some(FileStamp::NoTime)) == Err::<bool, RebuildCheckError>(
            RebuildCheckError::LibraryTime,
        ),
        sources[at as int] is NoMetadata ==> out_of_date(
            sources,
            Some(FileStamp::Modified(built)),
        ) == Err::<bool, RebuildCheckError>(RebuildCheckError::SourceMetadata(at)),
        sources[at as int] is NoTime ==> out_of_date(sources, Some(FileStamp::Modified(built)))
            == Err::<bool, RebuildCheckError>(RebuildCheckError::SourceTime(at)),
        sources[at as int] matches FileStamp::Modified(edited) && edited > built ==> out_of_date(
            sources,
            Some(FileStamp::Modified(built)),
        ) == Ok::<bool, RebuildCheckError>(true),
{
    lemma_older_files_are_passed(sources, built, 0, at as int);
}

proof fn lemma_older_files_are_passed(sources: Seq<FileStamp>, built: i128, from: int, to: int)
    requires
        0 <= from <= to <= sources.len(),
        forall|i: int| from <= i < to ==> not_newer(#[trigger] sources[i], built),
    ensures
        first_newer(sources, built, from) == first_newer(sources, built, to),
    decreases to - from,
{
    if from < to {
        assert(not_newer(sources[from], built));
        lemma_older_files_are_passed(sources, built, from + 1, to);
    }
}

/// The flags for the C++ compiler: a shared library of position-independent code, the standard if
/// one is chosen, and Verilator's own time context.
pub proof fn law_compiler_flags(config: VerilatedModelConfig)
    ensures
        config.cxx_standard is None ==> compiler_flags(config) == seq![
            "-shared"@,
            "-fpic"@,
            "-DVL_TIME_CONTEXT"@,
        ],
        config.cxx_standard matches Some(standard) ==> compiler_flags(config) == seq![
            "-shared"@,
            "-fpic"@,
            "-std=c++"@ + match standard {
                CxxStandard::Cxx98 => "98"@,
                CxxStandard::Cxx11 => "11"@,
                CxxStandard::Cxx14 => "14"@,
                CxxStandard::Cxx17 => "17"@,
                CxxStandard::Cxx20 => "20"@,
                CxxStandard::Cxx23 => "23"@,
                CxxStandard::Cxx26 => "26"@,
            },
            "-DVL_TIME_CONTEXT"@,
        ],
{
    reveal_strlit("-std=c++");
    reveal_strlit("98");
    reveal_strlit("11");
    reveal_strlit("14");
    reveal_strlit("17");
    reveal_strlit("20");
    reveal_strlit("23");
    reveal_strlit("26");
    reveal_strlit("-std=c++98");
    reveal_strlit("-std=c++11");
    reveal_strlit("-std=c++14");
    reveal_strlit("-std=c++17");
    reveal_strlit("-std=c++20");
    reveal_strlit("-std=c++23");
    reveal_strlit("-std=c++26");
    assert("-std=c++"@ + "98"@ =~= "-std=c++98"@);
    assert("-std=c++"@ + "11"@ =~= "-std=c++11"@);
    assert("-std=c++"@ + "14"@ =~= "-std=c++14"@);
    assert("-std=c++"@ + "17"@ =~= "-std=c++17"@);
    assert("-std=c++"@ + "20"@ =~= "-std=c++20"@);
    assert("-std=c++"@ + "23"@ =~= "-std=c++23"@);
    assert("-std=c++"@ + "26"@ =~= "-std=c++26"@);
}

/// Where every argument of Verilator stands: the fixed ones, every source file, the bindings, every
/// directory of headers, the DPI functions if there are any, the optimization level, every warning
/// that is ignored, and the trace if there is one; and no others.
pub proof fn law_verilator_is_given_everything(
    job: LibraryJob,
    directory: Seq<char>,
    i: int,
    dpi_count: int,
    trace_count: int,
    includes_at: int,
    level_at: int,
)
    requires
        dpi_count == if job.dpi_functions@.len() > 0 {
            1int
        } else {
            0
        },
        trace_count == if job.config.enable_tracing is Some {
            1int
        } else {
            0
        },
        includes_at == 14 + job.source_files@.len(),
        level_at == includes_at + job.include_directories@.len() + dpi_count,
    ensures
        ({
            let command = verilator_command(job, directory);
            &&& command.len() == level_at + 1 + job.config.ignored_warnings@.len() + trace_count
            &&& command.take(13) == seq![
                "--cc"@,
                "-sv"@,
                "-j"@,
                "0"@,
                "--build"@,
                "-CFLAGS"@,
                text::joined(compiler_flags(*job.config), " "@),
                "-MAKEFLAGS"@,
                "CXX="@ + job.config.cxx_executable@,
                "--Mdir"@,
                directory,
                "--top-module"@,
                job.top_module@,
            ]
            &&& 0 <= i < job.source_files@.len() ==> command[13 + i] == job.source_files@[i]@
            &&& command[includes_at - 1] == "../ffi/ffi.cpp"@
            &&& 0 <= i < job.include_directories@.len() ==> command[includes_at + i] == "-I"@
                + job.include_directories@[i]@
            &&& dpi_count == 1 ==> command[level_at - 1] == "../dpi/dpi.cpp"@
            &&& command[level_at] == "-O"@ + text::decimal(
                job.config.verilator_optimization as nat,
            )
            &&& 0 <= i < job.config.ignored_warnings@.len() ==> command[level_at + 1 + i]
                == "-Wno-"@ + job.config.ignored_warnings@[i]@
            &&& job.config.enable_tracing == Some(Waveform::Fst) ==> command.last()
                == "--trace-fst"@
            &&& job.config.enable_tracing == Some(Waveform::Vcd) ==> command.last() == if (
            job.verilator_version.major < 5 || (job.verilator_version.major == 5
                && job.verilator_version.minor < 36)) {
                "--trace"@
            } else {
                "--trace-vcd"@
            }
        }),
{
    let sources = text::views(job.source_files@);
    let includes = prefixed("-I"@, job.include_directories@);
    let warnings = prefixed("-Wno-"@, job.config.ignored_warnings@);
    assert(sources.len() == job.source_files@.len());
    assert(includes.len() == job.include_directories@.len());
    assert(warnings.len() == job.config.ignored_warnings@.len());
    let command = verilator_command(job, directory);
    assert(command.take(13) =~= seq![
        "--cc"@,
        "-sv"@,
        "-j"@,
        "0"@,
        "--build"@,
        "-CFLAGS"@,
        text::joined(compiler_flags(*job.config), " "@),
        "-MAKEFLAGS"@,
        "CXX="@ + job.config.cxx_executable@,
        "--Mdir"@,
        directory,
        "--top-module"@,
        job.top_module@,
    ]);
    if 0 <= i < sources.len() {
        assert(command[13 + i] == sources[i]);
    }
    if 0 <= i < includes.len() {
        assert(command[includes_at + i] == includes[i]);
    }
    if 0 <= i < warnings.len() {
        assert(command[level_at + 1 + i] == warnings[i]);
    }
}

/// Where every argument of the linking compiler stands: the flags, the output, and both static
/// libraries between what has them linked in whole; and no others.
pub proof fn law_library_is_linked_in_whole(job: LibraryJob, layout: LibraryLayout, flags: int)
    requires
        flags == compiler_flags(*job.config).len(),
    ensures
        ({
            let command = linker_command(job, layout);
            let linux = job.build_target == BuildTarget::Linux;
            let fst = job.config.enable_tracing == Some(Waveform::Fst);
            &&& command.len() == 6 + flags + (if linux {
                1int
            } else {
                0
            }) + (if fst {
                1int
            } else {
                0
            })
            &&& command[0] == "-shared"@
            &&& command.subrange(1, 1 + flags) == compiler_flags(*job.config)
            &&& command[1 + flags] == if linux {
                "-Wl,--whole-archive"@
            } else {
                "-Wl,-force_load"@
            }
            &&& command[2 + flags] == "-o"@
            &&& command[3 + flags] == layout.shared_library@
            &&& command[4 + flags] == layout.static_library@
            &&& command[5 + flags] == layout.libverilated@
            &&& linux ==> command[6 + flags] == "-Wl,--no-whole-archive"@
            &&& fst ==> command.last() == "-lz"@
        }),
{
    assert(linker_command(job, layout).subrange(1, 1 + flags) =~= compiler_flags(*job.config));
}

/// The libraries are named after the module.
pub proof fn law_libraries_are_named_after_the_module(top_module: Seq<char>)
    ensures
        shared_library_name(top_module) == "libmarlin_V"@ + top_module + ".so"@,
        static_library_name(top_module) == "libV"@ + top_module + ".a"@,
{
}

/// What is said of a build that failed names the file, the level or the tool that it is about.
pub proof fn law_failure_names_what_it_is_about(
    job: LibraryJob,
    layout: LibraryLayout,
    at: usize,
    error: RebuildCheckError,
    tool: Seq<char>,
    status: Seq<char>,
    stdout: Seq<char>,
    stderr: Seq<char>,
)
    ensures
        rebuild_check_text(
            RebuildCheckError::LibraryMetadata,
            layout.shared_library@,
            job.source_files@,
        ) == "Failed to read file metadata for dynamic library "@ + layout.shared_library@,
        rebuild_check_text(
            RebuildCheckError::LibraryTime,
            layout.shared_library@,
            job.source_files@,
        ) == "Failed to determine last-modified time for dynamic library "@
            + layout.shared_library@,
        rebuild_check_text(
            RebuildCheckError::SourceMetadata(at),
            layout.shared_library@,
            job.source_files@,
        ) == "Failed to read file metadata for source file "@ + job.source_files@[at as int]@,
        rebuild_check_text(
            RebuildCheckError::SourceTime(at),
            layout.shared_library@,
            job.source_files@,
        ) == "Failed to determine last-modified time for source file "@
            + job.source_files@[at as int]@,
        failure_text(BuildFailure::InvalidOptimization(at))
            == "Invalid Verilator optimization level: "@ + text::decimal(at as nat),
        cause_text(BuildFailure::WriteDpiFile, job, layout) == Some(
            "Failed to write DPI function wrapper code to "@ + layout.dpi_file@,
        ),
        cause_text(BuildFailure::RebuildCheck(error), job, layout) == Some(
            rebuild_check_text(error, layout.shared_library@, job.source_files@),
        ),
        tool_failure_text(tool, status, stdout, stderr) == "Invocation of "@ + tool
            + " failed with nonzero exit code "@ + status + "\n\n--- STDOUT ---\n"@ + stdout
            + "\n\n--- STDERR ---\n"@ + stderr,
{
}

/// Every failure has a text of its own, but for those of a tool that ended without success and of
/// the notification, which have that of the tool or of the notification.
pub proof fn law_failures_have_messages(failure: BuildFailure)
    ensures
        has_message(failure) <==> failure != BuildFailure::VerilatorExit && failure
            != BuildFailure::CxxExit && failure != BuildFailure::Notification,
{
}

/// With all times known, a library is out of date exactly if it does not exist or a source file was
/// modified after it.
pub proof fn law_newer_sources_make_out_of_date(
    sources: Seq<FileStamp>,
    library: Option<FileStamp>,
    times: Seq<i128>,
    built: i128,
)
    requires
        sources.len() == times.len(),
        forall|i: int|
            0 <= i < times.len() ==> #[trigger] sources[i] == FileStamp::Modified(times[i]),
        library is None || library == Some(FileStamp::Modified(built)),
    ensures
        out_of_date(sources, library) matches Ok(stale) && (stale <==> library is None || exists|
            i: int,
        |
            0 <= i < times.len() && #[trigger] times[i] > built),
{
    assert forall|i: int| 0 <= i < sources.len() implies (#[trigger] sources[i]) is Modified by {
        assert(sources[i] == FileStamp::Modified(times[i]));
    }
    law_out_of_date(sources, built);
    if library is Some {
        if exists|i: int| 0 <= i < times.len() && #[trigger] times[i] > built {
            let i = choose|i: int| 0 <= i < times.len() && #[trigger] times[i] > built;
            assert(sources[i] == FileStamp::Modified(times[i]));
            assert(!not_newer(sources[i], built));
        }
        if exists|i: int| 0 <= i < sources.len() && !not_newer(#[trigger] sources[i], built) {
            let i = choose|i: int|
                0 <= i < sources.len() && !not_newer(#[trigger] sources[i], built);
            assert(sources[i] == FileStamp::Modified(times[i]));
            assert(times[i] > built);
        }
    }
}

} // verus!
