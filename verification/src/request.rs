//! What is asked of a request for a library, where the library is kept, and what is said of it.

use vstd::prelude::*;
use vstd::string::*;

use crate::dpi::DpiSignature;
use crate::ffi_names;
use crate::path;
use crate::port::Port;
use crate::text;

verus! {

/// Why a request for a library is refused.
#[derive(Debug, Clone, Copy, PartialEq, Eq, Structural)]
pub enum RequestError {
    /// The name of the module has a backslash or a space.
    EscapedModuleName,
    /// The file that defines the module is not among those of the runtime.
    SourceNotProvided,
    /// The port at this index has its high bit below its low bit.
    InvertedPort(usize),
}

/// Whether a module name can only stand in Verilog as an escaped identifier.
pub open spec fn is_escaped(name: Seq<char>) -> bool {
    name.contains('\\') || name.contains(' ')
}

/// Whether a path is known and is one of some paths, some of which are known.
pub open spec fn provides(canonical_sources: Seq<Option<String>>, path: Option<String>) -> bool {
    exists|i: int|
        0 <= i < canonical_sources.len() && same_path(#[trigger] canonical_sources[i], path)
}

/// Whether two canonical paths are known and the same.
pub open spec fn same_path(a: Option<String>, b: Option<String>) -> bool {
    a matches Some(x) && b matches Some(y) && x@ == y@
}

/// Whether a port has its high bit below its low bit.
pub open spec fn is_inverted(port: Port) -> bool {
    port.1 < port.2
}

/// Whether the port at `at` is the first with its high bit below its low bit.
pub open spec fn is_first_inverted(ports: Seq<Port>, at: int) -> bool {
    &&& 0 <= at < ports.len()
    &&& is_inverted(ports[at])
    &&& forall|i: int| 0 <= i < at ==> !is_inverted(#[trigger] ports[i])
}

/// What comes of asking for a library.
pub open spec fn request_verdict(
    name: Seq<char>,
    canonical_sources: Seq<Option<String>>,
    canonical_path: Option<String>,
    ports: Seq<Port>,
    verdict: Result<(), RequestError>,
) -> bool {
    if is_escaped(name) {
        verdict == Err::<(), _>(RequestError::EscapedModuleName)
    } else if !provides(canonical_sources, canonical_path) {
        verdict == Err::<(), _>(RequestError::SourceNotProvided)
    } else {
        match verdict {
            Ok(_) => forall|i: int| 0 <= i < ports.len() ==> !is_inverted(#[trigger] ports[i]),
            Err(RequestError::InvertedPort(at)) => is_first_inverted(ports, at as int),
            Err(_) => false,
        }
    }
}

/// Checks a request for the module `name`. The paths are canonical, so that equal paths have equal
/// texts; one that could not be made canonical is `None`.
pub fn check_request(
    name: &str,
    canonical_sources: &Vec<Option<String>>,
    canonical_path: &Option<String>,
    ports: &[Port],
) -> (verdict: Result<(), RequestError>)
    ensures
        request_verdict(name@, canonical_sources@, *canonical_path, ports@, verdict),
{
    let chars = text::characters(name);
    let mut i: usize = 0;
    while i < chars.len()
        invariant
            i <= chars@.len(),
            chars@ == name@,
            forall|j: int| 0 <= j < i ==> name@[j] != '\\' && name@[j] != ' ',
        decreases chars@.len() - i,
    {
        if chars[i] == '\\' || chars[i] == ' ' {
            proof {
                assert(name@[i as int] == '\\' || name@[i as int] == ' ');
            }
            return Err(RequestError::EscapedModuleName);
        }
        i = i + 1;
    }
    let mut provided = false;
    let mut j: usize = 0;
    while j < canonical_sources.len()
        invariant
            j <= canonical_sources@.len(),
            provided <==> exists|k: int|
                0 <= k < j && same_path(#[trigger] canonical_sources@[k], *canonical_path),
        decreases canonical_sources@.len() - j,
    {
        let same = match (&canonical_sources[j], canonical_path) {
            (Some(a), Some(b)) => *a == *b,
            _ => false,
        };
        proof {
            assert(same <==> same_path(canonical_sources@[j as int], *canonical_path));
        }
        provided = provided || same;
        j = j + 1;
    }
    if !provided {
        return Err(RequestError::SourceNotProvided);
    }
    let mut p: usize = 0;
    while p < ports.len()
        invariant
            p <= ports@.len(),
            !is_escaped(name@),
            provides(canonical_sources@, *canonical_path),
            forall|k: int| 0 <= k < p ==> !is_inverted(#[trigger] ports@[k]),
        decreases ports@.len() - p,
    {
        if ports[p].1 < ports[p].2 {
            return Err(RequestError::InvertedPort(p));
        }
        p = p + 1;
    }
    Ok(())
}

/// What is said of a refused request.
pub open spec fn refusal_text(
    error: RequestError,
    name: Seq<char>,
    source_path: Seq<char>,
    ports: Seq<Port>,
) -> Seq<char> {
    match error {
        RequestError::EscapedModuleName => "Escaped module names are not supported"@,
        RequestError::SourceNotProvided => "Module `"@ + name + "` requires source file "@
            + source_path + ", which was not provided to the runtime"@,
        RequestError::InvertedPort(at) => "Port "@ + ports[at as int].0@ + " on module "@ + name
            + " was specified with the high bit less than the low bit"@,
    }
}

impl RequestError {
    /// What is said of a refused request.
    pub fn message(&self, name: &str, source_path: &str, ports: &[Port]) -> (message: String)
        requires
            *self matches RequestError::InvertedPort(at) ==> at < ports@.len(),
        ensures
            message@ == refusal_text(*self, name@, source_path@, ports@),
    {
        match self {
            RequestError::EscapedModuleName => {
                String::from_str("Escaped module names are not supported")
            },
            RequestError::SourceNotProvided => {
                let mut message = String::from_str("Module `");
                message.append(name);
                message.append("` requires source file ");
                message.append(source_path);
                message.append(", which was not provided to the runtime");
                message
            },
            RequestError::InvertedPort(at) => {
                let mut message = String::from_str("Port ");
                message.append(ports[*at].0);
                message.append(" on module ");
                message.append(name);
                message.append(" was specified with the high bit less than the low bit");
                message
            },
        }
    }
}

/// A path with each separator replaced by `_`, and each `_` doubled.
pub open spec fn flattened(path: Seq<char>) -> Seq<char>
    decreases path.len(),
{
    if path.len() == 0 {
        Seq::empty()
    } else {
        flattened(path.drop_last()) + flattened_char(path.last())
    }
}

/// What one character of a path becomes.
pub open spec fn flattened_char(c: char) -> Seq<char> {
    if c == '_' {
        seq!['_', '_']
    } else if c == '/' {
        seq!['_']
    } else {
        seq![c]
    }
}

/// The directory of a library below the artifacts, by the key of the library.
pub open spec fn directory_name(name: Seq<char>, source_path: Seq<char>, hash: u64) -> Seq<char> {
    name + "_"@ + flattened(source_path) + "_"@ + text::decimal(hash as nat)
}

/// The directory of a library below the artifacts, by the key of the library.
pub fn local_directory_name(name: &str, source_path: &str, hash: u64) -> (directory: String)
    ensures
        directory@ == directory_name(name@, source_path@, hash),
{
    let mut directory = String::from_str("");
    directory.append(name);
    directory.append("_");
    let ghost head = name@ + "_"@;
    proof {
        reveal_strlit("");
        reveal_strlit("_");
        reveal_strlit("__");
        assert("__"@ =~= seq!['_', '_']);
        assert("_"@ =~= seq!['_']);
        assert(directory@ =~= head + flattened(source_path@.take(0)));
    }
    let n: usize = source_path.unicode_len();
    let mut i: usize = 0;
    while i < n
        invariant
            i <= n == source_path@.len(),
            "__"@ == seq!['_', '_'],
            "_"@ == seq!['_'],
            directory@ == head + flattened(source_path@.take(i as int)),
        decreases n - i,
    {
        let c = source_path.get_char(i);
        if c == '_' {
            directory.append("__");
        } else if c == '/' {
            directory.append("_");
        } else {
            directory.append(source_path.substring_char(i, i + 1));
        }
        proof {
            let longer = source_path@.take(i + 1);
            assert(longer.drop_last() =~= source_path@.take(i as int));
            assert(source_path@.subrange(i as int, i + 1) =~= seq![c]);
            assert(directory@ =~= head + flattened(longer));
        }
        i = i + 1;
    }
    proof {
        assert(source_path@.take(n as int) =~= source_path@);
    }
    directory.append("_");
    text::push_decimal(&mut directory, hash);
    directory
}

/// Whether a text is without separators.
pub open spec fn has_no_separator(s: Seq<char>) -> bool {
    forall|i: int| 0 <= i < s.len() ==> #[trigger] s[i] != '/'
}

proof fn lemma_flattened_has_no_separator(path: Seq<char>)
    ensures
        has_no_separator(flattened(path)),
    decreases path.len(),
{
    if path.len() > 0 {
        lemma_flattened_has_no_separator(path.drop_last());
    }
}

/// The directory of a library and its lock lie directly below the artifacts, whatever the path of
/// the source: joined to the artifacts they are appended behind a separator, and their names have
/// none.
pub proof fn law_directory_is_directly_below(
    name: Seq<char>,
    source_path: Seq<char>,
    hash: u64,
    artifacts: Seq<char>,
    directory: Seq<char>,
    lockfile: Seq<char>,
)
    requires
        name.len() > 0,
        has_no_separator(name),
        path::is_relative(name),
        !path::is_verbatim(artifacts),
        path::joins(artifacts, directory_name(name, source_path, hash), directory),
        path::joins(artifacts, lock_name(directory_name(name, source_path, hash)), lockfile),
    ensures
        path::is_below(artifacts, directory_name(name, source_path, hash), directory),
        path::is_below(artifacts, lock_name(directory_name(name, source_path, hash)), lockfile),
        has_no_separator(directory_name(name, source_path, hash)),
        has_no_separator(lock_name(directory_name(name, source_path, hash))),
{
    let local = directory_name(name, source_path, hash);
    assert(local[0] == name[0]);
    assert(local[1] == if name.len() > 1 {
        name[1]
    } else {
        '_'
    }) by {
        reveal_strlit("_");
    }
    assert(lock_name(local)[0] == local[0] && lock_name(local)[1] == local[1]);
    reveal_strlit("_");
    reveal_strlit(".lock");
    lemma_flattened_has_no_separator(source_path);
    text::lemma_decimal_digits(hash as nat);
    let digits = text::decimal(hash as nat);
    assert forall|i: int| 0 <= i < digits.len() implies #[trigger] digits[i] != '/' by {
        assert(text::is_digit(digits[i]));
    }
}

/// Whether no separator of a path touches another one or a `_`.
pub open spec fn has_lone_separators(path: Seq<char>) -> bool {
    forall|i: int, j: int|
        0 <= i && j == i + 1 && j < path.len() ==> !blurs(#[trigger] path[i], #[trigger] path[j])
}

/// Whether two characters next to each other lose their border when flattened.
pub open spec fn blurs(a: char, b: char) -> bool {
    ||| a == '/' && (b == '/' || b == '_')
    ||| a == '_' && b == '/'
}

proof fn lemma_flattened_is_injective(a: Seq<char>, b: Seq<char>)
    requires
        has_lone_separators(a),
        has_lone_separators(b),
        flattened(a) == flattened(b),
    ensures
        a == b,
    decreases a.len(),
{
    let f = flattened(a);
    if a.len() == 0 {
        if b.len() > 0 {
            assert(f.len() >= flattened_char(b.last()).len());
        }
        assert(a =~= b);
    } else {
        assert(f.len() >= flattened_char(a.last()).len());
        assert(b.len() > 0);
        let (x, y) = (a.drop_last(), b.drop_last());
        assert(f.last() == flattened_char(a.last()).last());
        assert(f.last() == flattened_char(b.last()).last());
        if a.last() == '_' && b.last() == '/' {
            lemma_separator_does_not_double(x, b);
            assert(false);
        } else if a.last() == '/' && b.last() == '_' {
            lemma_separator_does_not_double(y, a);
            assert(false);
        } else {
            assert(a.last() == b.last());
            let tail = flattened_char(a.last());
            assert(flattened(x) =~= f.take(f.len() - tail.len()));
            assert(flattened(y) =~= f.take(f.len() - tail.len()));
            lemma_flattened_is_injective(x, y);
            assert(a =~= x.push(a.last()));
            assert(b =~= y.push(b.last()));
        }
    }
}

/// A path that ends in a lone separator is not flattened to what ends in a doubled `_`.
proof fn lemma_separator_does_not_double(x: Seq<char>, b: Seq<char>)
    requires
        has_lone_separators(b),
        b.len() > 0,
        b.last() == '/',
    ensures
        flattened(x) + seq!['_', '_'] != flattened(b),
{
    if flattened(x) + seq!['_', '_'] == flattened(b) {
        let y = b.drop_last();
        let f = flattened(b);
        assert(flattened(y) =~= f.take(f.len() - 1));
        assert(flattened(y).len() > 0 && flattened(y).last() == '_');
        assert(y.len() > 0);
        assert(flattened(y).last() == flattened_char(y.last()).last());
        assert(y.last() == b[b.len() - 2] && b.last() == b[b.len() - 1]);
        assert(blurs(b[b.len() - 2], b[b.len() - 1]));
    }
}

/// The libraries of one module have directories of their own: two requests share a directory only
/// if their source paths and their fingerprints are the same. The paths are those in which every
/// separator stands alone; `a//b` and `a_b` are flattened alike.
pub proof fn law_directories_are_distinct(
    name: Seq<char>,
    source_path: Seq<char>,
    hash: u64,
    other_path: Seq<char>,
    other_hash: u64,
)
    requires
        has_lone_separators(source_path),
        has_lone_separators(other_path),
        directory_name(name, source_path, hash) == directory_name(name, other_path, other_hash),
    ensures
        source_path == other_path,
        hash == other_hash,
{
    reveal_strlit("_");
    let whole = directory_name(name, source_path, hash);
    let (f, g) = (flattened(source_path), flattened(other_path));
    let (d, e) = (text::decimal(hash as nat), text::decimal(other_hash as nat));
    text::lemma_decimal_digits(hash as nat);
    text::lemma_decimal_digits(other_hash as nat);
    assert(whole[whole.len() - d.len() - 1] == '_');
    assert(whole[whole.len() - e.len() - 1] == '_');
    if d.len() < e.len() {
        assert(whole[whole.len() - d.len() - 1] == e[e.len() - d.len() - 1]);
        assert(text::is_digit(e[e.len() - d.len() - 1]));
    }
    if e.len() < d.len() {
        assert(whole[whole.len() - e.len() - 1] == d[d.len() - e.len() - 1]);
        assert(text::is_digit(d[d.len() - e.len() - 1]));
    }
    assert(d =~= whole.skip(whole.len() - d.len()));
    assert(e =~= whole.skip(whole.len() - e.len()));
    let start = name.len() + 1;
    assert(f =~= whole.subrange(start as int, whole.len() - d.len() - 1));
    assert(g =~= whole.subrange(start as int, whole.len() - e.len() - 1));
    lemma_flattened_is_injective(source_path, other_path);
}

/// The lock that guards the directory of a library.
pub open spec fn lock_name(directory: Seq<char>) -> Seq<char> {
    directory + ".lock"@
}

/// The lock that guards the directory of a library.
pub fn lockfile_name(directory: &str) -> (lockfile: String)
    ensures
        lockfile@ == lock_name(directory@),
{
    let mut lockfile = directory.to_owned();
    lockfile.append(".lock");
    lockfile
}

/// What is said when a library is compiled.
pub open spec fn compiling_text(name: Seq<char>, hash: u64, source_path: Seq<char>) -> Seq<char> {
    name + "#"@ + text::decimal(hash as nat) + " ("@ + source_path + ")"@
}

/// What is said when a library is compiled.
pub fn compiling_status(name: &str, hash: u64, source_path: &str) -> (status: String)
    ensures
        status@ == compiling_text(name@, hash, source_path@),
{
    let mut status = name.to_owned();
    status.append("#");
    text::push_decimal(&mut status, hash);
    status.append(" (");
    status.append(source_path);
    status.append(")");
    status
}

/// What is said when a library was compiled, with the time it took to the hundredth of a second.
pub open spec fn finished_text(
    verilator_optimization: usize,
    seconds: u64,
    milliseconds: u32,
) -> Seq<char> {
    "`verilator-O"@ + text::decimal(verilator_optimization as nat) + "` profile ["@ + (
    if verilator_optimization == 0 {
        "unoptimized"@
    } else {
        "optimized"@
    }) + "] target in "@ + text::decimal(seconds as nat) + "."@ + text::padded_decimal(
        milliseconds as nat / 10,
        2,
    ) + "s"@
}

/// What is said when a library was compiled, in `seconds` and `milliseconds`.
pub fn finished_status(
    verilator_optimization: usize,
    seconds: u64,
    milliseconds: u32,
) -> (status: String)
    ensures
        status@ == finished_text(verilator_optimization, seconds, milliseconds),
{
    let mut status = String::from_str("`verilator-O");
    text::push_decimal(&mut status, verilator_optimization as u64);
    status.append("` profile [");
    status.append(
        if verilator_optimization == 0 {
            "unoptimized"
        } else {
            "optimized"
        },
    );
    status.append("] target in ");
    text::push_decimal(&mut status, seconds);
    status.append(".");
    text::push_padded_decimal(&mut status, (milliseconds / 10) as u64, 2);
    status.append("s");
    status
}

/// What is called once on a library that was just loaded.
#[derive(Debug, PartialEq, Eq)]
pub enum SetupCall {
    /// The initializer of the DPI functions, with the addresses that it is handed.
    InitializeDpi(Vec<usize>),
    /// The switch that allows tracing.
    AllowTracing,
}

/// What is called once on a library, in specifications.
pub ghost enum SetupView {
    InitializeDpi(Seq<usize>),
    AllowTracing,
}

impl View for SetupCall {
    type V = SetupView;

    open spec fn view(&self) -> SetupView {
        match self {
            SetupCall::InitializeDpi(pointers) => SetupView::InitializeDpi(pointers@),
            SetupCall::AllowTracing => SetupView::AllowTracing,
        }
    }
}

impl SetupCall {
    /// The function that is called.
    pub fn symbol(&self) -> (symbol: &'static str)
        ensures
            symbol@ == match *self {
                SetupCall::InitializeDpi(_) => ffi_names::DPI_INIT_CALLBACK@,
                SetupCall::AllowTracing => ffi_names::TRACE_EVER_ON@,
            },
    {
        match self {
            SetupCall::InitializeDpi(_) => ffi_names::DPI_INIT_CALLBACK,
            SetupCall::AllowTracing => ffi_names::TRACE_EVER_ON,
        }
    }

    /// What is said where the library has no such function.
    pub fn failure(&self) -> (message: &'static str)
        ensures
            message@ == match *self {
                SetupCall::InitializeDpi(_) => "Failed to load DPI initializer"@,
                SetupCall::AllowTracing => "Model was not configured with tracing enabled"@,
            },
    {
        match self {
            SetupCall::InitializeDpi(_) => "Failed to load DPI initializer",
            SetupCall::AllowTracing => "Model was not configured with tracing enabled",
        }
    }
}

/// The addresses of functions, in their order.
pub open spec fn pointers(functions: Seq<DpiSignature>) -> Seq<usize> {
    Seq::new(functions.len(), |i: int| functions[i].pointer)
}

/// The calls on a library that was just loaded: the DPI functions are handed over if there are
/// any, and tracing is allowed if it is enabled.
pub open spec fn setup_calls(functions: Seq<DpiSignature>, tracing_enabled: bool) -> Seq<SetupView> {
    (if functions.len() > 0 {
        seq![SetupView::InitializeDpi(pointers(functions))]
    } else {
        seq![]
    }) + (if tracing_enabled {
        seq![SetupView::AllowTracing]
    } else {
        seq![]
    })
}

/// Some calls, in specifications.
pub open spec fn call_views(calls: Seq<SetupCall>) -> Seq<SetupView> {
    Seq::new(calls.len(), |i: int| calls[i]@)
}

/// The calls on a library that was just loaded, in order.
pub fn one_time_library_setup(dpi_functions: &Vec<DpiSignature>, tracing_enabled: bool) -> (calls:
    Vec<SetupCall>)
    ensures
        call_views(calls@) == setup_calls(dpi_functions@, tracing_enabled),
{
    let mut calls: Vec<SetupCall> = Vec::new();
    if dpi_functions.len() > 0 {
        let mut addresses: Vec<usize> = Vec::new();
        let mut i: usize = 0;
        while i < dpi_functions.len()
            invariant
                i <= dpi_functions@.len(),
                addresses@ == pointers(dpi_functions@).take(i as int),
            decreases dpi_functions@.len() - i,
        {
            addresses.push(dpi_functions[i].pointer);
            i = i + 1;
            proof {
                assert(addresses@ =~= pointers(dpi_functions@).take(i as int));
            }
        }
        proof {
            assert(addresses@ =~= pointers(dpi_functions@));
        }
        calls.push(SetupCall::InitializeDpi(addresses));
    }
    if tracing_enabled {
        calls.push(SetupCall::AllowTracing);
    }
    proof {
        assert(call_views(calls@) =~= setup_calls(dpi_functions@, tracing_enabled));
    }
    calls
}

/// The DPI functions are handed to a library if and only if there are any, and each in the slot
/// that is its index.
pub proof fn law_pointers_follow_function_order(
    functions: Seq<DpiSignature>,
    tracing_enabled: bool,
    handed: Seq<usize>,
    i: int,
)
    requires
        0 <= i < handed.len(),
        setup_calls(functions, tracing_enabled).contains(SetupView::InitializeDpi(handed)),
    ensures
        handed.len() == functions.len(),
        handed[i] == functions[i].pointer,
{
}

/// A request is accepted exactly if the name has no backslash and no space, one of the sources is
/// the file that defines the module, and no port has its high bit below its low bit.
pub proof fn law_accepted_requests(
    name: Seq<char>,
    canonical_sources: Seq<Option<String>>,
    canonical_path: Option<String>,
    ports: Seq<Port>,
)
    ensures
        request_verdict(name, canonical_sources, canonical_path, ports, Ok(())) <==> {
            &&& forall|i: int| 0 <= i < name.len() ==> #[trigger] name[i] != '\\' && name[i] != ' '
            &&& exists|i: int|
                0 <= i < canonical_sources.len() && ((#[trigger] canonical_sources[i]) matches Some(
                    source,
                ) && canonical_path matches Some(path) && source@ == path@)
            &&& forall|i: int| 0 <= i < ports.len() ==> (#[trigger] ports[i]).2 <= ports[i].1
        },
{
    lemma_escaped(name);
    lemma_provided(canonical_sources, canonical_path);
    if request_verdict(name, canonical_sources, canonical_path, ports, Ok(())) {
        assert forall|i: int| 0 <= i < ports.len() implies (#[trigger] ports[i]).2 <= ports[i].1 by {
            assert(!is_inverted(ports[i]));
        }
    }
}

proof fn lemma_escaped(name: Seq<char>)
    ensures
        is_escaped(name) <==> exists|i: int|
            0 <= i < name.len() && (#[trigger] name[i] == '\\' || name[i] == ' '),
{
    if name.contains('\\') {
        let i = choose|i: int| 0 <= i < name.len() && name[i] == '\\';
        assert(name[i] == '\\');
    }
    if name.contains(' ') {
        let i = choose|i: int| 0 <= i < name.len() && name[i] == ' ';
        assert(name[i] == ' ');
    }
    if exists|i: int| 0 <= i < name.len() && (#[trigger] name[i] == '\\' || name[i] == ' ') {
        let i = choose|i: int|
            0 <= i < name.len() && (#[trigger] name[i] == '\\' || name[i] == ' ');
        assert(name.contains(name[i]));
    }
}

proof fn lemma_provided(canonical_sources: Seq<Option<String>>, canonical_path: Option<String>)
    ensures
        provides(canonical_sources, canonical_path) <==> exists|i: int|
            0 <= i < canonical_sources.len() && ((#[trigger] canonical_sources[i]) matches Some(
                source,
            ) && canonical_path matches Some(path) && source@ == path@),
{
    if provides(canonical_sources, canonical_path) {
        let i = choose|i: int|
            0 <= i < canonical_sources.len() && same_path(
                #[trigger] canonical_sources[i],
                canonical_path,
            );
        assert(canonical_sources[i] is Some);
    }
    if exists|i: int|
        0 <= i < canonical_sources.len() && ((#[trigger] canonical_sources[i]) matches Some(source)
            && canonical_path matches Some(path) && source@ == path@) {
        let i = choose|i: int|
            0 <= i < canonical_sources.len() && ((#[trigger] canonical_sources[i]) matches Some(
                source,
            ) && canonical_path matches Some(path) && source@ == path@);
        assert(same_path(canonical_sources[i], canonical_path));
    }
}

/// A refused request is refused for the first of three reasons that holds: the name, the source,
/// the first port with its high bit below its low bit.
pub proof fn law_refused_requests(
    name: Seq<char>,
    canonical_sources: Seq<Option<String>>,
    canonical_path: Option<String>,
    ports: Seq<Port>,
    error: RequestError,
    escaped: bool,
    provided: bool,
)
    requires
        escaped <==> exists|i: int|
            0 <= i < name.len() && (#[trigger] name[i] == '\\' || name[i] == ' '),
        provided <==> exists|i: int|
            0 <= i < canonical_sources.len() && ((#[trigger] canonical_sources[i]) matches Some(
                source,
            ) && canonical_path matches Some(path) && source@ == path@),
    ensures
        request_verdict(name, canonical_sources, canonical_path, ports, Err(error)) <==> match error {
            RequestError::EscapedModuleName => escaped,
            RequestError::SourceNotProvided => !escaped && !provided,
            RequestError::InvertedPort(at) => !escaped && provided && at < ports.len()
                && ports[at as int].1 < ports[at as int].2 && (forall|i: int|
                0 <= i < at ==> (#[trigger] ports[i]).2 <= ports[i].1),
        },
{
    lemma_escaped(name);
    lemma_provided(canonical_sources, canonical_path);
    if let RequestError::InvertedPort(at) = error {
        if request_verdict(name, canonical_sources, canonical_path, ports, Err(error)) {
            assert forall|i: int| 0 <= i < at implies (#[trigger] ports[i]).2 <= ports[i].1 by {
                assert(!is_inverted(ports[i]));
            }
        }
    }
}

/// A refusal names the module, and the file or the port that it is about.
pub proof fn law_refusal_names_what_it_is_about(
    name: Seq<char>,
    source_path: Seq<char>,
    ports: Seq<Port>,
    at: usize,
)
    requires
        at < ports.len(),
    ensures
        refusal_text(RequestError::EscapedModuleName, name, source_path, ports)
            == "Escaped module names are not supported"@,
        refusal_text(RequestError::SourceNotProvided, name, source_path, ports) == "Module `"@ + name
            + "` requires source file "@ + source_path
            + ", which was not provided to the runtime"@,
        refusal_text(RequestError::InvertedPort(at), name, source_path, ports) == "Port "@
            + ports[at as int].0@ + " on module "@ + name
            + " was specified with the high bit less than the low bit"@,
{
}

/// A path is flattened character by character: a separator becomes one `_`, a `_` two, and all else
/// stays.
pub proof fn law_paths_are_flattened_by_character(front: Seq<char>, c: char, back: Seq<char>)
    ensures
        flattened(Seq::empty()) == Seq::<char>::empty(),
        flattened(seq![c]) == if c == '/' {
            seq!['_']
        } else if c == '_' {
            seq!['_', '_']
        } else {
            seq![c]
        },
        flattened(front + back) == flattened(front) + flattened(back),
    decreases back.len(),
{
    let one = seq![c];
    assert(one.drop_last() =~= Seq::<char>::empty());
    assert(one.last() == c);
    assert(flattened(one.drop_last()) =~= Seq::<char>::empty());
    assert(flattened(one) =~= flattened_char(c));
    if back.len() == 0 {
        assert(front + back =~= front);
        assert(flattened(front) + flattened(back) =~= flattened(front));
    } else {
        law_paths_are_flattened_by_character(front, c, back.drop_last());
        assert((front + back).drop_last() =~= front + back.drop_last());
        assert(flattened(front + back) =~= flattened(front) + flattened(back));
    }
}

/// A library lies in a directory that is named after the module, the flattened path of the source
/// and the hash, and its lock beside it.
pub proof fn law_directory_is_named_after_the_key(
    name: Seq<char>,
    source_path: Seq<char>,
    hash: u64,
)
    ensures
        directory_name(name, source_path, hash) == name + "_"@ + flattened(source_path) + "_"@
            + text::decimal(hash as nat),
        lock_name(directory_name(name, source_path, hash)) == directory_name(
            name,
            source_path,
            hash,
        ) + ".lock"@,
{
}

/// The user is told which library is compiled, and how long it took: the seconds, and hundredths of
/// a second in two digits.
pub proof fn law_status_tells_library_and_time(
    name: Seq<char>,
    hash: u64,
    source_path: Seq<char>,
    level: usize,
    seconds: u64,
    milliseconds: u32,
    hundredths: nat,
)
    requires
        10 * hundredths <= milliseconds < 10 * hundredths + 10,
    ensures
        compiling_text(name, hash, source_path) == name + "#"@ + text::decimal(hash as nat) + " ("@
            + source_path + ")"@,
        finished_text(level, seconds, milliseconds) == "`verilator-O"@ + text::decimal(level as nat)
            + "` profile ["@ + (if level == 0 {
            "unoptimized"@
        } else {
            "optimized"@
        }) + "] target in "@ + text::decimal(seconds as nat) + "."@ + text::padded_decimal(
            hundredths,
            2,
        ) + "s"@,
{
    assert(milliseconds as nat / 10 == hundredths);
}

/// A library that was just loaded is handed all DPI functions in one call, in their order, if there
/// are any, and is then allowed to trace if tracing is enabled; nothing else is called.
pub proof fn law_setup_calls_are_complete(
    functions: Seq<DpiSignature>,
    tracing_enabled: bool,
    i: int,
)
    ensures
        setup_calls(functions, tracing_enabled).len() == (if functions.len() > 0 {
            1int
        } else {
            0
        }) + (if tracing_enabled {
            1int
        } else {
            0
        }),
        functions.len() > 0 ==> (setup_calls(
            functions,
            tracing_enabled,
        )[0] matches SetupView::InitializeDpi(handed) && handed.len() == functions.len() && (0 <= i
            < functions.len() ==> handed[i] == functions[i].pointer)),
        tracing_enabled ==> setup_calls(functions, tracing_enabled).last()
            == SetupView::AllowTracing,
{
}

/// The calls of a set-up are those that it holds, in order, each with the addresses that it holds.
pub proof fn law_call_views_keep_the_order(calls: Seq<SetupCall>, i: int)
    requires
        0 <= i < calls.len(),
    ensures
        call_views(calls).len() == calls.len(),
        match calls[i] {
            SetupCall::InitializeDpi(pointers) => call_views(calls)[i] == SetupView::InitializeDpi(
                pointers@,
            ),
            SetupCall::AllowTracing => call_views(calls)[i] == SetupView::AllowTracing,
        },
{
}

} // verus!
