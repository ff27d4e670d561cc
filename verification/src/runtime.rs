//! The runtime: what it is made from, and how it answers a request for a library.

use vstd::prelude::*;
use vstd::string::*;

use crate::config::{VerilatedModelConfig, VerilatorRuntimeOptions};
use crate::dpi::DpiSignature;
use crate::fingerprint;
use crate::path;
use crate::port;
use crate::port::Port;
use crate::registry;
use crate::registry::{KeyView, LibraryArenaKey, LibraryRegistry};
use crate::request;
use crate::request::{RequestError, SetupCall, SetupView};
use crate::text;
use crate::version;
use crate::version::{UnsupportedVersion, VerilatorVersion, VersionOutputError};

verus! {

/// A path that was given to the runtime, and what the system says of it.
#[derive(Debug)]
pub struct PathProbe {
    /// The path as it is shown to the user.
    pub shown: String,
    /// The path as text, where it is UTF-8.
    pub text: Option<String>,
    /// Whether a file stands there.
    pub is_file: bool,
}

/// What can be wrong with a path.
#[derive(Debug, Clone, Copy, PartialEq, Eq, Structural)]
pub enum PathDefect {
    Missing,
    NotUtf8,
}

/// Whether a path has a defect.
pub open spec fn has_defect(path: PathProbe, defect: PathDefect) -> bool {
    match defect {
        PathDefect::Missing => !path.is_file,
        PathDefect::NotUtf8 => path.text is None,
    }
}

/// The index of the first path with a defect, or the number of paths.
pub open spec fn first_with(paths: Seq<PathProbe>, defect: PathDefect) -> int
    decreases paths.len(),
{
    if paths.len() == 0 || has_defect(paths[0], defect) {
        0
    } else {
        1 + first_with(paths.skip(1), defect)
    }
}

proof fn lemma_first_with(paths: Seq<PathProbe>, defect: PathDefect, at: int)
    requires
        0 <= at <= paths.len(),
        forall|i: int| 0 <= i < at ==> !has_defect(#[trigger] paths[i], defect),
        at < paths.len() ==> has_defect(paths[at], defect),
    ensures
        first_with(paths, defect) == at,
    decreases at,
{
    if at > 0 {
        let rest = paths.skip(1);
        assert(!has_defect(paths[0], defect));
        assert forall|i: int| 0 <= i < at - 1 implies !has_defect(#[trigger] rest[i], defect) by {
            assert(rest[i] == paths[i + 1]);
        }
        lemma_first_with(rest, defect, at - 1);
    }
}

/// The index of the first path with a defect, or the number of paths.
fn find_defect(paths: &Vec<PathProbe>, defect: PathDefect) -> (at: usize)
    ensures
        at == first_with(paths@, defect),
        at <= paths@.len(),
        forall|i: int| 0 <= i < at ==> !has_defect(#[trigger] paths@[i], defect),
{
    let mut at: usize = 0;
    while at < paths.len()
        invariant
            at <= paths@.len(),
            forall|i: int| 0 <= i < at ==> !has_defect(#[trigger] paths@[i], defect),
        decreases paths@.len() - at,
    {
        let defective = match defect {
            PathDefect::Missing => !paths[at].is_file,
            PathDefect::NotUtf8 => paths[at].text.is_none(),
        };
        if defective {
            proof {
                lemma_first_with(paths@, defect, at as int);
            }
            return at;
        }
        at = at + 1;
    }
    proof {
        lemma_first_with(paths@, defect, at as int);
    }
    at
}

/// The texts of paths that are all UTF-8.
pub open spec fn path_texts(paths: Seq<PathProbe>) -> Seq<Seq<char>> {
    Seq::new(paths.len(), |i: int| paths[i].text->0@)
}

/// The texts of paths that are all UTF-8.
fn copy_texts(paths: &Vec<PathProbe>) -> (texts: Vec<String>)
    requires
        forall|i: int| 0 <= i < paths@.len() ==> (#[trigger] paths@[i]).text is Some,
    ensures
        text::views(texts@) == path_texts(paths@),
{
    let mut texts: Vec<String> = Vec::new();
    let mut i: usize = 0;
    while i < paths.len()
        invariant
            i <= paths@.len(),
            i == texts@.len(),
            forall|j: int| 0 <= j < paths@.len() ==> (#[trigger] paths@[j]).text is Some,
            forall|j: int| 0 <= j < i ==> (#[trigger] texts@[j])@ == paths@[j].text->0@,
        decreases paths@.len() - i,
    {
        if let Some(t) = &paths[i].text {
            texts.push(t.as_str().to_owned());
        }
        i = i + 1;
    }
    proof {
        assert(text::views(texts@) =~= path_texts(paths@));
    }
    texts
}

/// Why no runtime is made. A path is given by its index.
#[derive(Debug, Clone, Copy, PartialEq, Eq, Structural)]
pub enum RuntimeError {
    /// Verilator did not say its version.
    VersionOutput(VersionOutputError),
    /// The version of Verilator is not accepted.
    Version(UnsupportedVersion),
    /// A source file is not there, or is no file.
    MissingSource(usize),
    /// The artifact directory is not UTF-8.
    ArtifactDirectoryNotUtf8,
    /// A source file is not UTF-8.
    SourceNotUtf8(usize),
    /// An include directory is not UTF-8.
    IncludeNotUtf8(usize),
}

/// What making a runtime comes to: the version of Verilator that it works with, or the first
/// thing that is wrong.
pub open spec fn runtime_verdict(
    version_output: Seq<u8>,
    artifact_directory: PathProbe,
    source_files: Seq<PathProbe>,
    include_directories: Seq<PathProbe>,
    allowed: Option<VerilatorVersion>,
) -> Result<VerilatorVersion, RuntimeError> {
    match version::printed_version(version_output) {
        Err(error) => Err(RuntimeError::VersionOutput(error)),
        Ok(version) => match version::version_verdict(version, allowed) {
            Err(reason) => Err(RuntimeError::Version(reason)),
            Ok(_) => {
                let missing = first_with(source_files, PathDefect::Missing);
                let source = first_with(source_files, PathDefect::NotUtf8);
                let include_directory = first_with(include_directories, PathDefect::NotUtf8);
                if missing < source_files.len() {
                    Err(RuntimeError::MissingSource(missing as usize))
                } else if artifact_directory.text is None {
                    Err(RuntimeError::ArtifactDirectoryNotUtf8)
                } else if source < source_files.len() {
                    Err(RuntimeError::SourceNotUtf8(source as usize))
                } else if include_directory < include_directories.len() {
                    Err(RuntimeError::IncludeNotUtf8(include_directory as usize))
                } else {
                    Ok(version)
                }
            },
        },
    }
}

/// What is said when no runtime is made.
pub open spec fn runtime_error_text(
    error: RuntimeError,
    source_files: Seq<PathProbe>,
    include_directories: Seq<PathProbe>,
) -> Seq<char> {
    match error {
        RuntimeError::VersionOutput(error) => version::version_output_text(error),
        RuntimeError::Version(reason) => version::unsupported_text(reason),
        RuntimeError::MissingSource(at) => "Source file "@ + source_files[at as int].shown@
            + " does not exist or is not a file. Note that if it's a relative path, you must be in the correct directory"@,
        RuntimeError::ArtifactDirectoryNotUtf8 => "Artifact directory path was not UTF-8"@,
        RuntimeError::SourceNotUtf8(at) => "Source file "@ + source_files[at as int].shown@
            + " was not UTF-8"@,
        RuntimeError::IncludeNotUtf8(at) => "Include directory "@
            + include_directories[at as int].shown@ + " was not UTF-8"@,
    }
}

impl RuntimeError {
    /// What is said when no runtime is made from these paths.
    pub fn message(&self, source_files: &Vec<PathProbe>, include_directories: &Vec<PathProbe>) -> (
    message: String)
        requires
            match *self {
                RuntimeError::MissingSource(at) => at < source_files@.len(),
                RuntimeError::SourceNotUtf8(at) => at < source_files@.len(),
                RuntimeError::IncludeNotUtf8(at) => at < include_directories@.len(),
                _ => true,
            },
        ensures
            message@ == runtime_error_text(*self, source_files@, include_directories@),
    {
        match self {
            RuntimeError::VersionOutput(error) => error.message(),
            RuntimeError::Version(reason) => reason.message(),
            RuntimeError::MissingSource(at) => {
                let mut message = "Source file ".to_owned();
                message.append(source_files[*at].shown.as_str());
                message.append(
                    " does not exist or is not a file. Note that if it's a relative path, you must be in the correct directory",
                );
                message
            },
            RuntimeError::ArtifactDirectoryNotUtf8 => {
                "Artifact directory path was not UTF-8".to_owned()
            },
            RuntimeError::SourceNotUtf8(at) => {
                let mut message = "Source file ".to_owned();
                message.append(source_files[*at].shown.as_str());
                message.append(" was not UTF-8");
                message
            },
            RuntimeError::IncludeNotUtf8(at) => {
                let mut message = "Include directory ".to_owned();
                message.append(include_directories[*at].shown.as_str());
                message.append(" was not UTF-8");
                message
            },
        }
    }
}

/// How a request for a library is answered.
#[derive(Debug)]
pub enum LibraryLookup {
    /// The library is loaded, and has this handle.
    Cached(u64),
    /// The library is to be built.
    Build(LibraryRequest),
}

/// A library that is to be built.
#[derive(Debug)]
pub struct LibraryRequest {
    /// What the library will be found under.
    pub key: LibraryArenaKey,
    /// Where it is built.
    pub directory: String,
    /// The file whose lock is held meanwhile.
    pub lockfile: String,
    /// What is called on it once it is loaded, before it is recorded.
    pub setup: Vec<SetupCall>,
}

/// Runtime for (System)Verilog code.
pub struct VerilatorRuntime {
    pub artifact_directory: String,
    pub source_files: Vec<String>,
    pub include_directories: Vec<String>,
    pub dpi_functions: Vec<DpiSignature>,
    pub options: VerilatorRuntimeOptions,
    pub verilator_version: VerilatorVersion,
    pub registry: LibraryRegistry,
}

/// What a library is found under that was asked for in this way.
pub open spec fn key_of(
    name: Seq<char>,
    source_path: Seq<char>,
    ports: Seq<Port>,
    config: VerilatedModelConfig,
) -> KeyView {
    KeyView { name, source_path, hash: fingerprint::request_hash(ports, config) }
}

/// What making a runtime gives: one that holds what it was given and no library, or the error.
pub open spec fn runtime_made(
    version_output: Seq<u8>,
    artifact_directory: PathProbe,
    source_files: Seq<PathProbe>,
    include_directories: Seq<PathProbe>,
    dpi_functions: Vec<DpiSignature>,
    options: VerilatorRuntimeOptions,
    made: Result<VerilatorRuntime, RuntimeError>,
) -> bool {
    match (
        runtime_verdict(
            version_output,
            artifact_directory,
            source_files,
            include_directories,
            options.allow_unsupported_verilator,
        ),
        made,
    ) {
        (Ok(version), Ok(runtime)) => {
            &&& runtime.wf()
            &&& runtime.libraries() == Map::<KeyView, u64>::empty()
            &&& runtime.library_count() == 0
            &&& runtime.artifact_directory@ == artifact_directory.text->0@
            &&& text::views(runtime.source_files@) == path_texts(source_files)
            &&& text::views(runtime.include_directories@) == path_texts(include_directories)
            &&& runtime.dpi_functions == dpi_functions
            &&& runtime.options == options
            &&& runtime.verilator_version == version
        },
        (Err(expected), Err(error)) => error == expected,
        _ => false,
    }
}

impl VerilatorRuntime {
    /// Whether the libraries are in order.
    pub open spec fn wf(&self) -> bool {
        self.registry.wf()
    }

    /// The handles of the loaded libraries.
    pub open spec fn libraries(&self) -> Map<KeyView, u64> {
        self.registry@
    }

    /// The number of loaded libraries.
    pub open spec fn library_count(&self) -> nat {
        self.registry.count()
    }

    /// Creates a new runtime. `version_output` is what `verilator --version` printed.
    pub fn new(
        version_output: Vec<u8>,
        artifact_directory: &PathProbe,
        source_files: &Vec<PathProbe>,
        include_directories: &Vec<PathProbe>,
        dpi_functions: Vec<DpiSignature>,
        options: VerilatorRuntimeOptions,
    ) -> (made: Result<Self, RuntimeError>)
        ensures
            runtime_made(
                version_output@,
                *artifact_directory,
                source_files@,
                include_directories@,
                dpi_functions,
                options,
                made,
            ),
    {
        Self::new2(
            version_output,
            artifact_directory,
            source_files,
            include_directories,
            dpi_functions,
            options,
        )
    }

    /// Convenient alternative to [`Self::new`].
    pub fn new2(
        version_output: Vec<u8>,
        artifact_directory: &PathProbe,
        source_files: &Vec<PathProbe>,
        include_directories: &Vec<PathProbe>,
        dpi_functions: Vec<DpiSignature>,
        options: VerilatorRuntimeOptions,
    ) -> (made: Result<Self, RuntimeError>)
        ensures
            runtime_made(
                version_output@,
                *artifact_directory,
                source_files@,
                include_directories@,
                dpi_functions,
                options,
                made,
            ),
    {
        let verilator_version = match version::retrieve_verilator_version(version_output) {
            Ok(version) => version,
            Err(error) => {
                return Err(RuntimeError::VersionOutput(error));
            },
        };
        match version::check_allowed_version(
            verilator_version,
            options.allow_unsupported_verilator,
        ) {
            Ok(()) => {},
            Err(reason) => {
                return Err(RuntimeError::Version(reason));
            },
        }
        let missing: usize = find_defect(source_files, PathDefect::Missing);
        if missing < source_files.len() {
            return Err(RuntimeError::MissingSource(missing));
        }
        let directory = match &artifact_directory.text {
            Some(directory) => directory.as_str().to_owned(),
            None => {
                return Err(RuntimeError::ArtifactDirectoryNotUtf8);
            },
        };
        let source: usize = find_defect(source_files, PathDefect::NotUtf8);
        if source < source_files.len() {
            return Err(RuntimeError::SourceNotUtf8(source));
        }
        let include_directory: usize = find_defect(include_directories, PathDefect::NotUtf8);
        if include_directory < include_directories.len() {
            return Err(RuntimeError::IncludeNotUtf8(include_directory));
        }
        proof {
            assert forall|i: int| 0 <= i < source_files@.len() implies (
            #[trigger] source_files@[i]).text is Some by {
                assert(!has_defect(source_files@[i], PathDefect::NotUtf8));
            }
            assert forall|i: int| 0 <= i < include_directories@.len() implies (
            #[trigger] include_directories@[i]).text is Some by {
                assert(!has_defect(include_directories@[i], PathDefect::NotUtf8));
            }
        }
        Ok(
            VerilatorRuntime {
                artifact_directory: directory,
                source_files: copy_texts(source_files),
                include_directories: copy_texts(include_directories),
                dpi_functions,
                options,
                verilator_version,
                registry: LibraryRegistry::new(),
            },
        )
    }

    /// Answers a request for the library of the module `name` that `source_path` defines, with
    /// the signature `ports`. A library that is already loaded for such a request is returned
    /// immediately.
    pub fn build_or_retrieve_library(
        &self,
        name: &str,
        source_path: &str,
        canonical_sources: &Vec<Option<String>>,
        canonical_path: &Option<String>,
        ports: &[Port],
        config: &VerilatedModelConfig,
    ) -> (answer: Result<LibraryLookup, RequestError>)
        requires
            self.wf(),
        ensures
            match answer {
                Err(error) => request::request_verdict(
                    name@,
                    canonical_sources@,
                    *canonical_path,
                    ports@,
                    Err(error),
                ),
                Ok(lookup) => {
                    &&& request::request_verdict(
                        name@,
                        canonical_sources@,
                        *canonical_path,
                        ports@,
                        Ok(()),
                    )
                    &&& match (
                        registry::found(
                            self.libraries(),
                            key_of(name@, source_path@, ports@, *config),
                        ),
                        lookup,
                    ) {
                        (Some(handle), LibraryLookup::Cached(cached)) => cached == handle,
                        (None, LibraryLookup::Build(library)) => {
                            let key = key_of(name@, source_path@, ports@, *config);
                            let directory = request::directory_name(
                                name@,
                                source_path@,
                                key.hash,
                            );
                            &&& library.key@ == key
                            &&& path::joins(
                                self.artifact_directory@,
                                directory,
                                library.directory@,
                            )
                            &&& path::joins(
                                self.artifact_directory@,
                                request::lock_name(directory),
                                library.lockfile@,
                            )
                            &&& request::call_views(library.setup@) == request::setup_calls(
                                self.dpi_functions@,
                                config.enable_tracing is Some,
                            )
                        },
                        _ => false,
                    }
                },
            },
    {
        match request::check_request(name, canonical_sources, canonical_path, ports) {
            Ok(()) => {},
            Err(error) => {
                return Err(error);
            },
        }
        let hash: u64 = fingerprint::fingerprint(ports, config);
        let key = LibraryArenaKey {
            name: name.to_owned(),
            source_path: source_path.to_owned(),
            hash,
        };
        match self.registry.lookup(&key) {
            Some(handle) => Ok(LibraryLookup::Cached(handle)),
            None => {
                let local = request::local_directory_name(name, source_path, hash);
                let lock = request::lockfile_name(local.as_str());
                Ok(
                    LibraryLookup::Build(
                        LibraryRequest {
                            key,
                            directory: path::join(
                                self.artifact_directory.as_str(),
                                local.as_str(),
                            ),
                            lockfile: path::join(self.artifact_directory.as_str(), lock.as_str()),
                            setup: request::one_time_library_setup(
                                &self.dpi_functions,
                                config.enable_tracing.is_some(),
                            ),
                        },
                    ),
                )
            },
        }
    }

    /// Whether one more library can be recorded.
    pub fn has_room(&self) -> (room: bool)
        requires
            self.wf(),
        ensures
            room <==> self.library_count() < registry::LIBRARY_LIMIT,
    {
        self.registry.has_room()
    }

    /// Records a library that was built and loaded for a request.
    pub fn record_library(&mut self, key: LibraryArenaKey, handle: u64)
        requires
            old(self).wf(),
            old(self).library_count() < registry::LIBRARY_LIMIT,
            registry::found(old(self).libraries(), key@) is None,
        ensures
            final(self).wf(),
            final(self).libraries() == old(self).libraries().insert(key@, handle),
            final(self).library_count() == old(self).library_count() + 1,
            final(self).artifact_directory == old(self).artifact_directory,
            final(self).source_files == old(self).source_files,
            final(self).include_directories == old(self).include_directories,
            final(self).dpi_functions == old(self).dpi_functions,
            final(self).options == old(self).options,
            final(self).verilator_version == old(self).verilator_version,
    {
        self.registry.insert(key, handle);
    }
}

/// A request that is accepted has the high bit of every port at or above its low bit, so that
/// every port has a width.
pub proof fn law_accepted_ports_have_a_width(
    name: Seq<char>,
    canonical_sources: Seq<Option<String>>,
    canonical_path: Option<String>,
    ports: Seq<Port>,
    i: int,
)
    requires
        request::request_verdict(name, canonical_sources, canonical_path, ports, Ok(())),
        0 <= i < ports.len(),
    ensures
        ports[i].2 <= ports[i].1,
        port::port_width(ports[i]) >= 1,
{
    assert(!request::is_inverted(ports[i]));
}

/// A request that is refused once is refused for the same reason whenever it is repeated, and one
/// that is accepted is never refused: there is one verdict on a request.
pub proof fn law_one_verdict(
    name: Seq<char>,
    canonical_sources: Seq<Option<String>>,
    canonical_path: Option<String>,
    ports: Seq<Port>,
    first: Result<(), RequestError>,
    second: Result<(), RequestError>,
)
    requires
        request::request_verdict(name, canonical_sources, canonical_path, ports, first),
        request::request_verdict(name, canonical_sources, canonical_path, ports, second),
    ensures
        first == second,
{
    match (first, second) {
        (Ok(a), Ok(b)) => {
            assert(a == b);
        },
        (Err(RequestError::InvertedPort(a)), Err(RequestError::InvertedPort(b))) => {
            assert(request::is_inverted(ports[a as int]) && request::is_inverted(ports[b as int]));
            assert(a == b);
        },
        (Ok(_), Err(RequestError::InvertedPort(b))) => {
            assert(request::is_inverted(ports[b as int]));
        },
        (Err(RequestError::InvertedPort(a)), Ok(_)) => {
            assert(request::is_inverted(ports[a as int]));
        },
        _ => {},
    }
}

/// A library is built once: after it was recorded under the key of a request, the same request
/// finds it, and so does every request that found a library before.
pub proof fn law_library_is_built_once(
    libraries: Map<KeyView, u64>,
    handle: u64,
    name: Seq<char>,
    source_path: Seq<char>,
    ports: Seq<Port>,
    config: VerilatedModelConfig,
    earlier: KeyView,
)
    requires
        registry::found(libraries, key_of(name, source_path, ports, config)) is None,
    ensures
        ({
            let key = key_of(name, source_path, ports, config);
            let after = libraries.insert(key, handle);
            &&& registry::found(after, key) == Some(handle)
            &&& registry::found(libraries, earlier) is Some ==> registry::found(after, earlier)
                == registry::found(libraries, earlier)
        }),
{
    if registry::found(libraries, earlier) is Some {
        registry::law_recorded_library_is_found(
            libraries,
            key_of(name, source_path, ports, config),
            handle,
            earlier,
        );
    }
}

/// A request that was answered with a library.
pub ghost struct ServedRequest {
    pub key: KeyView,
    pub tracing_enabled: bool,
    /// What the library is known by, if it was built for this request.
    pub handle: u64,
}

/// The calls that set up the library of a request: those of [`LibraryRequest::setup`] where it has
/// to be built, and none where it is cached.
pub open spec fn setup_of(
    libraries: Map<KeyView, u64>,
    functions: Seq<DpiSignature>,
    request: ServedRequest,
) -> Seq<SetupView> {
    match registry::found(libraries, request.key) {
        Some(_) => seq![],
        None => request::setup_calls(functions, request.tracing_enabled),
    }
}

/// The loaded libraries after some requests, of which the first found those given.
pub open spec fn libraries_after(
    libraries: Map<KeyView, u64>,
    requests: Seq<ServedRequest>,
) -> Map<KeyView, u64>
    decreases requests.len(),
{
    if requests.len() == 0 {
        libraries
    } else {
        let before = libraries_after(libraries, requests.drop_last());
        let last = requests.last();
        match registry::found(before, last.key) {
            Some(_) => before,
            None => before.insert(last.key, last.handle),
        }
    }
}

/// All calls that set up the library under `key` in the course of some requests, in order.
pub open spec fn setups(
    libraries: Map<KeyView, u64>,
    functions: Seq<DpiSignature>,
    requests: Seq<ServedRequest>,
    key: KeyView,
) -> Seq<SetupView>
    decreases requests.len(),
{
    if requests.len() == 0 {
        seq![]
    } else {
        let earlier = setups(libraries, functions, requests.drop_last(), key);
        if requests.last().key == key {
            earlier + setup_of(
                libraries_after(libraries, requests.drop_last()),
                functions,
                requests.last(),
            )
        } else {
            earlier
        }
    }
}

/// Whether a library was asked for.
pub open spec fn was_asked_for(requests: Seq<ServedRequest>, key: KeyView) -> bool {
    exists|i: int| 0 <= i < requests.len() && (#[trigger] requests[i]).key == key
}

/// A library is set up exactly once: over any number of requests on one runtime, for this library
/// and for others, its DPI functions are handed over once and its tracing is allowed once, at the
/// first request for it, and nothing is called if it is never asked for. Requests for it have the
/// same configuration, so that they agree on tracing.
pub proof fn law_library_is_set_up_once(
    functions: Seq<DpiSignature>,
    requests: Seq<ServedRequest>,
    key: KeyView,
    tracing_enabled: bool,
)
    requires
        forall|i: int|
            0 <= i < requests.len() && (#[trigger] requests[i]).key == key
                ==> requests[i].tracing_enabled == tracing_enabled,
    ensures
        setups(Map::empty(), functions, requests, key) == if was_asked_for(requests, key) {
            request::setup_calls(functions, tracing_enabled)
        } else {
            seq![]
        },
        registry::found(libraries_after(Map::empty(), requests), key) is Some <==> was_asked_for(
            requests,
            key,
        ),
    decreases requests.len(),
{
    if requests.len() > 0 {
        let earlier = requests.drop_last();
        assert forall|i: int| 0 <= i < earlier.len() && (#[trigger] earlier[i]).key == key implies
            earlier[i].tracing_enabled == tracing_enabled by {
            assert(requests[i].key == key);
        }
        law_library_is_set_up_once(functions, earlier, key, tracing_enabled);
        if was_asked_for(earlier, key) {
            let i = choose|i: int| 0 <= i < earlier.len() && (#[trigger] earlier[i]).key == key;
            assert(requests[i].key == key);
        }
        if requests.last().key == key {
            assert(requests[requests.len() - 1].key == key);
        } else if was_asked_for(requests, key) {
            let i = choose|i: int| 0 <= i < requests.len() && (#[trigger] requests[i]).key == key;
            assert(earlier[i].key == key);
        }
        assert(setups(Map::empty(), functions, requests, key) =~= if was_asked_for(requests, key) {
            request::setup_calls(functions, tracing_enabled)
        } else {
            seq![]
        });
    }
}

/// A runtime is made exactly if Verilator announces a version that is accepted, every source is a
/// file, and every path is UTF-8.
pub proof fn law_runtime_is_made_of_sound_parts(
    version_output: Seq<u8>,
    artifact_directory: PathProbe,
    source_files: Seq<PathProbe>,
    include_directories: Seq<PathProbe>,
    allowed: Option<VerilatorVersion>,
    made_with: VerilatorVersion,
)
    ensures
        runtime_verdict(
            version_output,
            artifact_directory,
            source_files,
            include_directories,
            allowed,
        ) == Ok::<VerilatorVersion, RuntimeError>(made_with) <==> {
            &&& version::printed_version(version_output) == Ok::<
                VerilatorVersion,
                VersionOutputError,
            >(made_with)
            &&& version::version_verdict(made_with, allowed) is Ok
            &&& artifact_directory.text is Some
            &&& forall|i: int|
                0 <= i < source_files.len() ==> (#[trigger] source_files[i]).is_file
                    && source_files[i].text is Some
            &&& forall|i: int|
                0 <= i < include_directories.len() ==> (#[trigger] include_directories[i]).text
                    is Some
        },
{
    lemma_first_with_meaning(source_files, PathDefect::Missing);
    lemma_first_with_meaning(source_files, PathDefect::NotUtf8);
    lemma_first_with_meaning(include_directories, PathDefect::NotUtf8);
    if first_with(source_files, PathDefect::Missing) == source_files.len() && first_with(
        source_files,
        PathDefect::NotUtf8,
    ) == source_files.len() {
        assert forall|i: int| 0 <= i < source_files.len() implies (#[trigger] source_files[i]).is_file
            && source_files[i].text is Some by {
            assert(!has_defect(source_files[i], PathDefect::Missing));
            assert(!has_defect(source_files[i], PathDefect::NotUtf8));
        }
    }
    if first_with(include_directories, PathDefect::NotUtf8) == include_directories.len() {
        assert forall|i: int| 0 <= i < include_directories.len() implies (
        #[trigger] include_directories[i]).text is Some by {
            assert(!has_defect(include_directories[i], PathDefect::NotUtf8));
        }
    }
}

proof fn lemma_first_with_meaning(paths: Seq<PathProbe>, defect: PathDefect)
    ensures
        0 <= first_with(paths, defect) <= paths.len(),
        first_with(paths, defect) < paths.len() ==> has_defect(
            paths[first_with(paths, defect)],
            defect,
        ),
        forall|i: int|
            0 <= i < first_with(paths, defect) ==> !has_defect(#[trigger] paths[i], defect),
    decreases paths.len(),
{
    if paths.len() > 0 && !has_defect(paths[0], defect) {
        let rest = paths.skip(1);
        lemma_first_with_meaning(rest, defect);
        assert forall|i: int| 0 <= i < first_with(paths, defect) implies !has_defect(
            #[trigger] paths[i],
            defect,
        ) by {
            if i > 0 {
                assert(!has_defect(rest[i - 1], defect));
            }
        }
    }
}

/// Where no runtime is made, the error is the first of what is wrong: the version, a source that is
/// no file, then the paths that are not UTF-8; and of several such paths the first.
pub proof fn law_first_defect_is_reported(
    version_output: Seq<u8>,
    artifact_directory: PathProbe,
    source_files: Seq<PathProbe>,
    include_directories: Seq<PathProbe>,
    allowed: Option<VerilatorVersion>,
    error: RuntimeError,
)
    requires
        source_files.len() <= usize::MAX,
        include_directories.len() <= usize::MAX,
        runtime_verdict(
            version_output,
            artifact_directory,
            source_files,
            include_directories,
            allowed,
        ) == Err::<VerilatorVersion, RuntimeError>(error),
    ensures
        ({
            let printed = version::printed_version(version_output);
            let files = forall|i: int|
                0 <= i < source_files.len() ==> (#[trigger] source_files[i]).is_file;
            let texts = forall|i: int|
                0 <= i < source_files.len() ==> (#[trigger] source_files[i]).text is Some;
            match printed {
                Err(reason) => error == RuntimeError::VersionOutput(reason),
                Ok(version) => match version::version_verdict(version, allowed) {
                    Err(reason) => error == RuntimeError::Version(reason),
                    Ok(_) => match error {
                        RuntimeError::VersionOutput(_) | RuntimeError::Version(_) => false,
                        RuntimeError::MissingSource(at) => {
                            &&& at < source_files.len()
                            &&& !source_files[at as int].is_file
                            &&& forall|i: int|
                                0 <= i < at ==> (#[trigger] source_files[i]).is_file
                        },
                        RuntimeError::ArtifactDirectoryNotUtf8 => files && artifact_directory.text
                            is None,
                        RuntimeError::SourceNotUtf8(at) => {
                            &&& files && artifact_directory.text is Some
                            &&& at < source_files.len()
                            &&& source_files[at as int].text is None
                            &&& forall|i: int|
                                0 <= i < at ==> (#[trigger] source_files[i]).text is Some
                        },
                        RuntimeError::IncludeNotUtf8(at) => {
                            &&& files && texts && artifact_directory.text is Some
                            &&& at < include_directories.len()
                            &&& include_directories[at as int].text is None
                            &&& forall|i: int|
                                0 <= i < at ==> (#[trigger] include_directories[i]).text is Some
                        },
                    },
                },
            }
        }),
{
    lemma_first_with_meaning(source_files, PathDefect::Missing);
    lemma_first_with_meaning(source_files, PathDefect::NotUtf8);
    lemma_first_with_meaning(include_directories, PathDefect::NotUtf8);
    assert forall|i: int|
        0 <= i < first_with(source_files, PathDefect::Missing) implies (
    #[trigger] source_files[i]).is_file by {
        assert(!has_defect(source_files[i], PathDefect::Missing));
    }
    assert forall|i: int|
        0 <= i < first_with(source_files, PathDefect::NotUtf8) implies (
    #[trigger] source_files[i]).text is Some by {
        assert(!has_defect(source_files[i], PathDefect::NotUtf8));
    }
    assert forall|i: int|
        0 <= i < first_with(include_directories, PathDefect::NotUtf8) implies (
    #[trigger] include_directories[i]).text is Some by {
        assert(!has_defect(include_directories[i], PathDefect::NotUtf8));
    }
}

/// A runtime that was made holds all that it was given, every path in its place, and no library.
pub proof fn law_made_runtime_holds_what_it_was_given(
    version_output: Seq<u8>,
    artifact_directory: PathProbe,
    source_files: Seq<PathProbe>,
    include_directories: Seq<PathProbe>,
    dpi_functions: Vec<DpiSignature>,
    options: VerilatorRuntimeOptions,
    runtime: VerilatorRuntime,
    key: KeyView,
    i: int,
)
    requires
        runtime_made(
            version_output,
            artifact_directory,
            source_files,
            include_directories,
            dpi_functions,
            options,
            Ok(runtime),
        ),
    ensures
        artifact_directory.text matches Some(directory) && runtime.artifact_directory@
            == directory@,
        runtime.source_files@.len() == source_files.len(),
        0 <= i < source_files.len() ==> (source_files[i].text matches Some(path)
            && runtime.source_files@[i]@ == path@),
        runtime.include_directories@.len() == include_directories.len(),
        0 <= i < include_directories.len() ==> (include_directories[i].text matches Some(path)
            && runtime.include_directories@[i]@ == path@),
        runtime.dpi_functions == dpi_functions,
        runtime.options == options,
        version::printed_version(version_output) == Ok::<VerilatorVersion, VersionOutputError>(
            runtime.verilator_version,
        ),
        registry::found(runtime.libraries(), key) is None,
        runtime.library_count() == 0,
        runtime.wf(),
{
    law_runtime_is_made_of_sound_parts(
        version_output,
        artifact_directory,
        source_files,
        include_directories,
        options.allow_unsupported_verilator,
        runtime.verilator_version,
    );
    let (a, b) = (text::views(runtime.source_files@), path_texts(source_files));
    assert(a.len() == runtime.source_files@.len() && b.len() == source_files.len());
    let (c, d) = (text::views(runtime.include_directories@), path_texts(include_directories));
    assert(c.len() == runtime.include_directories@.len() && d.len() == include_directories.len());
    if 0 <= i < source_files.len() {
        assert(source_files[i].text is Some);
        assert(a[i] == runtime.source_files@[i]@ && b[i] == source_files[i].text->0@);
    }
    if 0 <= i < include_directories.len() {
        assert(include_directories[i].text is Some);
        assert(c[i] == runtime.include_directories@[i]@ && d[i] == include_directories[i].text->0@);
    }
}

/// A runtime is refused exactly with the error of the verdict.
pub proof fn law_refused_runtime_gives_the_verdict(
    version_output: Seq<u8>,
    artifact_directory: PathProbe,
    source_files: Seq<PathProbe>,
    include_directories: Seq<PathProbe>,
    dpi_functions: Vec<DpiSignature>,
    options: VerilatorRuntimeOptions,
    error: RuntimeError,
)
    ensures
        runtime_made(
            version_output,
            artifact_directory,
            source_files,
            include_directories,
            dpi_functions,
            options,
            Err(error),
        ) <==> runtime_verdict(
            version_output,
            artifact_directory,
            source_files,
            include_directories,
            options.allow_unsupported_verilator,
        ) == Err::<VerilatorVersion, RuntimeError>(error),
{
}

/// What is said when no runtime is made names the path that is wrong as it is shown, or the version.
pub proof fn law_runtime_error_names_the_path(
    source_files: Seq<PathProbe>,
    include_directories: Seq<PathProbe>,
    at: usize,
    output: VersionOutputError,
    reason: UnsupportedVersion,
)
    ensures
        runtime_error_text(RuntimeError::MissingSource(at), source_files, include_directories)
            == "Source file "@ + source_files[at as int].shown@
            + " does not exist or is not a file. Note that if it's a relative path, you must be in the correct directory"@,
        runtime_error_text(
            RuntimeError::ArtifactDirectoryNotUtf8,
            source_files,
            include_directories,
        ) == "Artifact directory path was not UTF-8"@,
        runtime_error_text(RuntimeError::SourceNotUtf8(at), source_files, include_directories)
            == "Source file "@ + source_files[at as int].shown@ + " was not UTF-8"@,
        runtime_error_text(RuntimeError::IncludeNotUtf8(at), source_files, include_directories)
            == "Include directory "@ + include_directories[at as int].shown@ + " was not UTF-8"@,
        runtime_error_text(RuntimeError::VersionOutput(output), source_files, include_directories)
            == version::version_output_text(output),
        runtime_error_text(RuntimeError::Version(reason), source_files, include_directories)
            == version::unsupported_text(reason),
{
}

/// A library is found under the module, the path as it was given, and the hash of all ports and of
/// the configuration: requests that differ in the module, in the path or in the hash are never
/// answered with each other's library.
pub proof fn law_requests_have_keys_of_their_own(
    name: Seq<char>,
    source_path: Seq<char>,
    ports: Seq<Port>,
    config: VerilatedModelConfig,
    other_name: Seq<char>,
    other_path: Seq<char>,
    other_ports: Seq<Port>,
    other_config: VerilatedModelConfig,
)
    ensures
        key_of(name, source_path, ports, config) == key_of(
            other_name,
            other_path,
            other_ports,
            other_config,
        ) <==> {
            &&& name == other_name
            &&& source_path == other_path
            &&& fingerprint::request_hash(ports, config) == fingerprint::request_hash(
                other_ports,
                other_config,
            )
        },
        key_of(name, source_path, ports, config).hash == fingerprint::request_hash(ports, config),
{
}

} // verus!
