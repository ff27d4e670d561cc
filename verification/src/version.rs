//! Verilator versions: order, rendering, parsing and support.

use std::cmp::Ordering;

use vstd::prelude::*;
use vstd::string::*;

use crate::text;

verus! {

/// The version of a Verilator executable.
#[derive(Debug, Clone, Copy, PartialEq, Eq, Hash, Ord, Structural)]
pub struct VerilatorVersion {
    pub major: usize,
    pub minor: usize,
}

/// The major number that the runtime supports.
pub const MINIMUM_SUPPORTED_MAJOR: usize = 5;

/// The oldest minor number that the runtime supports.
pub const MINIMUM_SUPPORTED_MINOR: usize = 25;

/// The oldest version that the runtime supports.
pub fn minimum_supported_verilator() -> (version: VerilatorVersion)
    ensures
        version == (VerilatorVersion {
            major: MINIMUM_SUPPORTED_MAJOR,
            minor: MINIMUM_SUPPORTED_MINOR,
        }),
{
    VerilatorVersion { major: MINIMUM_SUPPORTED_MAJOR, minor: MINIMUM_SUPPORTED_MINOR }
}

impl VerilatorVersion {
    /// Whether `self` comes before `other`: the major numbers decide, then the minor numbers.
    pub open spec fn before(self, other: Self) -> bool {
        self.major < other.major || (self.major == other.major && self.minor < other.minor)
    }
}

impl PartialOrd for VerilatorVersion {
    fn partial_cmp(&self, other: &Self) -> (order: Option<Ordering>) {
        if self.major < other.major {
            Some(Ordering::Less)
        } else if self.major > other.major {
            Some(Ordering::Greater)
        } else if self.minor < other.minor {
            Some(Ordering::Less)
        } else if self.minor > other.minor {
            Some(Ordering::Greater)
        } else {
            Some(Ordering::Equal)
        }
    }
}

impl vstd::std_specs::cmp::PartialOrdSpecImpl for VerilatorVersion {
    open spec fn obeys_partial_cmp_spec() -> bool {
        true
    }

    open spec fn partial_cmp_spec(&self, other: &Self) -> Option<Ordering> {
        if self.before(*other) {
            Some(Ordering::Less)
        } else if other.before(*self) {
            Some(Ordering::Greater)
        } else {
            Some(Ordering::Equal)
        }
    }
}

/// How a version is written: the major number, a dot, and the minor number in three digits.
pub open spec fn version_text(version: VerilatorVersion) -> Seq<char> {
    text::decimal(version.major as nat) + "."@ + text::padded_decimal(version.minor as nat, 3)
}

impl VerilatorVersion {
    /// The version as Verilator writes it.
    pub fn text(&self) -> (rendered: String)
        ensures
            rendered@ == version_text(*self),
    {
        let mut rendered = String::new();
        text::push_decimal(&mut rendered, self.major as u64);
        assert(rendered@ =~= text::decimal(self.major as nat));
        rendered.append(".");
        text::push_padded_decimal(&mut rendered, self.minor as u64, 3);
        rendered
    }
}

/// Why the output of `verilator --version` gives no version.
#[derive(Debug, Clone, Copy, PartialEq, Eq, Structural)]
pub enum VersionOutputError {
    /// The output is not UTF-8.
    NotUtf8,
    /// The output does not start with `Verilator `, or no dot follows.
    UnexpectedFormat,
    /// What stands before the first dot is not a number.
    InvalidMajor,
    /// What stands between the first dot and the next space is not a number.
    InvalidMinor,
}

/// The message of an output that gives no version.
pub open spec fn version_output_text(error: VersionOutputError) -> Seq<char> {
    match error {
        VersionOutputError::NotUtf8 => "Failed to decode Verilator --version output as UTF-8"@,
        VersionOutputError::UnexpectedFormat => "Unexpected Verilator --version output format"@,
        VersionOutputError::InvalidMajor =>
            "Failed to parse major version from Verilator --version output"@,
        VersionOutputError::InvalidMinor =>
            "Failed to parse minor version from Verilator --version output"@,
    }
}

impl VersionOutputError {
    /// The message for the user.
    pub fn message(&self) -> (message: String)
        ensures
            message@ == version_output_text(*self),
    {
        match self {
            VersionOutputError::NotUtf8 => {
                "Failed to decode Verilator --version output as UTF-8".to_owned()
            },
            VersionOutputError::UnexpectedFormat => {
                "Unexpected Verilator --version output format".to_owned()
            },
            VersionOutputError::InvalidMajor => {
                "Failed to parse major version from Verilator --version output".to_owned()
            },
            VersionOutputError::InvalidMinor => {
                "Failed to parse minor version from Verilator --version output".to_owned()
            },
        }
    }
}

/// The word that the output of `verilator --version` starts with.
pub const VERSION_PREFIX: &'static str = "Verilator ";

/// The version that `output` announces: after the prefix, the major number up to the first dot,
/// then the minor number up to the next space or the end.
pub open spec fn announced_version(output: Seq<char>) -> Result<
    VerilatorVersion,
    VersionOutputError,
> {
    if output.len() < VERSION_PREFIX@.len() || output.take(VERSION_PREFIX@.len() as int)
        != VERSION_PREFIX@ {
        Err(VersionOutputError::UnexpectedFormat)
    } else {
        let rest = output.skip(VERSION_PREFIX@.len() as int);
        let dot = text::position(rest, '.');
        if dot == rest.len() {
            Err(VersionOutputError::UnexpectedFormat)
        } else {
            let tail = rest.skip(dot + 1);
            match (
                text::parsed_usize(rest.take(dot)),
                text::parsed_usize(tail.take(text::position(tail, ' '))),
            ) {
                (None, _) => Err(VersionOutputError::InvalidMajor),
                (Some(_), None) => Err(VersionOutputError::InvalidMinor),
                (Some(major), Some(minor)) => Ok(VerilatorVersion { major, minor }),
            }
        }
    }
}

/// The first index from `from` on at which `c` stands, or the length.
fn find(chars: &Vec<char>, from: usize, c: char) -> (at: usize)
    requires
        from <= chars.len(),
    ensures
        from <= at <= chars.len(),
        at - from == text::position(chars@.skip(from as int), c),
{
    let mut at: usize = from;
    while at < chars.len() && chars[at] != c
        invariant
            from <= at <= chars.len(),
            forall|i: int| 0 <= i < at - from ==> #[trigger] chars@.skip(from as int)[i] != c,
        decreases chars.len() - at,
    {
        at = at + 1;
    }
    proof {
        text::lemma_position_is(chars@.skip(from as int), c, at - from);
    }
    at
}

/// Parses what `verilator --version` printed.
pub fn parse_version_output(output: &str) -> (version: Result<VerilatorVersion, VersionOutputError>)
    ensures
        version == announced_version(output@),
{
    let chars = text::characters(output);
    let prefix = text::characters(VERSION_PREFIX);
    let start: usize = prefix.len();
    if chars.len() < start {
        return Err(VersionOutputError::UnexpectedFormat);
    }
    let mut i: usize = 0;
    while i < start
        invariant
            i <= start == prefix.len() <= chars.len(),
            prefix@ == VERSION_PREFIX@,
            chars@ == output@,
            forall|j: int| 0 <= j < i ==> chars@[j] == prefix@[j],
        decreases start - i,
    {
        if chars[i] != prefix[i] {
            assert(output@.take(start as int)[i as int] != VERSION_PREFIX@[i as int]);
            return Err(VersionOutputError::UnexpectedFormat);
        }
        i = i + 1;
    }
    assert(output@.take(start as int) =~= VERSION_PREFIX@);
    let ghost rest = output@.skip(start as int);
    let dot: usize = find(&chars, start, '.');
    if dot == chars.len() {
        return Err(VersionOutputError::UnexpectedFormat);
    }
    let space: usize = find(&chars, dot + 1, ' ');
    proof {
        let tail = rest.skip(dot - start + 1);
        assert(tail =~= chars@.skip(dot + 1));
        assert(rest.take(dot - start) =~= chars@.subrange(start as int, dot as int));
        assert(tail.take(space - dot - 1) =~= chars@.subrange(dot + 1, space as int));
    }
    match text::parse_usize(&chars, start, dot) {
        None => Err(VersionOutputError::InvalidMajor),
        Some(major) => {
            match text::parse_usize(&chars, dot + 1, space) {
                None => Err(VersionOutputError::InvalidMinor),
                Some(minor) => Ok(VerilatorVersion { major, minor }),
            }
        },
    }
}

/// Decodes bytes with [`String::from_utf8`]: a string whose UTF-8 encoding is exactly these bytes,
/// or nothing where they are not valid UTF-8.
#[verifier::external_body]
fn utf8_string(bytes: Vec<u8>) -> (decoded: Option<String>)
    ensures
        decoded is Some <==> vstd::utf8::valid_utf8(bytes@),
        decoded matches Some(s) ==> s@ == vstd::utf8::decode_utf8(bytes@),
{
    String::from_utf8(bytes).ok()
}

/// The version that the bytes printed by `verilator --version` announce.
pub open spec fn printed_version(stdout: Seq<u8>) -> Result<VerilatorVersion, VersionOutputError> {
    if vstd::utf8::valid_utf8(stdout) {
        announced_version(vstd::utf8::decode_utf8(stdout))
    } else {
        Err(VersionOutputError::NotUtf8)
    }
}

/// The version that the bytes printed by `verilator --version` announce.
pub fn retrieve_verilator_version(stdout: Vec<u8>) -> (version: Result<
    VerilatorVersion,
    VersionOutputError,
>)
    ensures
        version == printed_version(stdout@),
{
    match utf8_string(stdout) {
        None => Err(VersionOutputError::NotUtf8),
        Some(output) => parse_version_output(output.as_str()),
    }
}

/// Why a Verilator version is not accepted.
#[derive(Debug, Clone, Copy, PartialEq, Eq, Structural)]
pub enum UnsupportedVersion {
    /// The version is not one that the runtime supports.
    NotSupported { version: VerilatorVersion },
    /// The version comes before the one that was explicitly allowed.
    BelowAllowed { version: VerilatorVersion, allowed: VerilatorVersion },
}

/// The message of a rejected version.
pub open spec fn unsupported_text(reason: UnsupportedVersion) -> Seq<char> {
    match reason {
        UnsupportedVersion::NotSupported { version } => "Unsupported Verilator version "@
            + version_text(version)
            + " (see `VerilatorRuntimeOptions::allow_unsupported_verilator`)"@,
        UnsupportedVersion::BelowAllowed { version, allowed } => "Unsupported Verilator version "@
            + version_text(version) + " ("@ + version_text(allowed)
            + " was explicitly allowed)"@,
    }
}

impl UnsupportedVersion {
    /// The message for the user.
    pub fn message(&self) -> (rendered: String)
        ensures
            rendered@ == unsupported_text(*self),
    {
        let mut rendered = "Unsupported Verilator version ".to_owned();
        match *self {
            UnsupportedVersion::NotSupported { version } => {
                rendered.append(version.text().as_str());
                rendered.append(" (see `VerilatorRuntimeOptions::allow_unsupported_verilator`)");
            },
            UnsupportedVersion::BelowAllowed { version, allowed } => {
                rendered.append(version.text().as_str());
                rendered.append(" (");
                rendered.append(allowed.text().as_str());
                rendered.append(" was explicitly allowed)");
            },
        }
        rendered
    }
}

/// Whether the runtime supports `version` as it stands.
pub open spec fn supported(version: VerilatorVersion) -> bool {
    version.major == MINIMUM_SUPPORTED_MAJOR && version.minor >= MINIMUM_SUPPORTED_MINOR
}

/// Accepts exactly the supported versions.
pub fn check_verilator_version(version: VerilatorVersion) -> (checked: Result<
    (),
    UnsupportedVersion,
>)
    ensures
        checked == (if supported(version) {
            Ok(())
        } else {
            Err(UnsupportedVersion::NotSupported { version })
        }),
{
    let minimum = minimum_supported_verilator();
    if minimum.major != version.major || version.minor < minimum.minor {
        Err(UnsupportedVersion::NotSupported { version })
    } else {
        Ok(())
    }
}

/// What becomes of `version` where `allowed` says from which version on to be lenient.
pub open spec fn version_verdict(
    version: VerilatorVersion,
    allowed: Option<VerilatorVersion>,
) -> Result<(), UnsupportedVersion> {
    match allowed {
        Some(allowed) => if version.before(allowed) {
            Err(UnsupportedVersion::BelowAllowed { version, allowed })
        } else {
            Ok(())
        },
        None => if supported(version) {
            Ok(())
        } else {
            Err(UnsupportedVersion::NotSupported { version })
        },
    }
}

/// Accepts a version against the explicitly allowed one, or else the supported ones.
pub fn check_allowed_version(
    version: VerilatorVersion,
    allowed: Option<VerilatorVersion>,
) -> (checked: Result<(), UnsupportedVersion>)
    ensures
        checked == version_verdict(version, allowed),
{
    match allowed {
        Some(lowest) => {
            if version < lowest {
                Err(UnsupportedVersion::BelowAllowed { version, allowed: lowest })
            } else {
                Ok(())
            }
        },
        None => check_verilator_version(version),
    }
}

/// Parsing a rendered version behind the prefix gives the version back, whatever follows a space.
pub proof fn law_version_round_trip(version: VerilatorVersion, rest: Seq<char>)
    ensures
        announced_version(VERSION_PREFIX@ + version_text(version)) == Ok::<
            VerilatorVersion,
            VersionOutputError,
        >(version),
        announced_version(VERSION_PREFIX@ + version_text(version) + " "@ + rest) == Ok::<
            VerilatorVersion,
            VersionOutputError,
        >(version),
{
    reveal_strlit(".");
    reveal_strlit(" ");
    let major = text::decimal(version.major as nat);
    let minor = text::padded_decimal(version.minor as nat, 3);
    text::law_number_round_trip(version.major, 3);
    text::law_number_round_trip(version.minor, 3);
    text::lemma_decimal_digits(version.major as nat);
    text::lemma_decimal_digits(version.minor as nat);
    assert forall|i: int| 0 <= i < major.len() implies major[i] != '.' by {
        assert(text::is_digit(major[i]));
    }
    assert forall|i: int| 0 <= i < minor.len() implies minor[i] != ' ' by {
        let digits = text::decimal(version.minor as nat);
        if digits.len() < 3 && i >= 3 - digits.len() {
            assert(minor[i] == digits[i - (3 - digits.len())]);
        }
    }
    let short = VERSION_PREFIX@ + version_text(version);
    let long = short + " "@ + rest;
    let start = VERSION_PREFIX@.len() as int;
    assert(short.take(start) =~= VERSION_PREFIX@);
    assert(long.take(start) =~= VERSION_PREFIX@);
    text::lemma_position_is(short.skip(start), '.', major.len() as int);
    text::lemma_position_is(long.skip(start), '.', major.len() as int);
    assert(short.skip(start).take(major.len() as int) =~= major);
    assert(long.skip(start).take(major.len() as int) =~= major);
    let short_tail = short.skip(start).skip(major.len() as int + 1);
    let long_tail = long.skip(start).skip(major.len() as int + 1);
    assert(short_tail =~= minor);
    assert(long_tail =~= minor + " "@ + rest);
    text::lemma_position_is(short_tail, ' ', minor.len() as int);
    text::lemma_position_is(long_tail, ' ', minor.len() as int);
    assert(short_tail.take(minor.len() as int) =~= minor);
    assert(long_tail.take(minor.len() as int) =~= minor);
}

/// Versions are totally ordered: of any two exactly one comes first or they are equal, and coming
/// before is transitive.
pub proof fn law_version_order(a: VerilatorVersion, b: VerilatorVersion, c: VerilatorVersion)
    ensures
        a.before(b) || b.before(a) || a == b,
        !(a.before(b) && b.before(a)),
        !a.before(a),
        a.before(b) && b.before(c) ==> a.before(c),
{
}

/// Lowering the explicitly allowed version never rejects a version that was accepted.
pub proof fn law_allowance_is_monotone(
    version: VerilatorVersion,
    allowed: VerilatorVersion,
    lower: VerilatorVersion,
)
    requires
        !allowed.before(lower),
        version_verdict(version, Some(allowed)) is Ok,
    ensures
        version_verdict(version, Some(lower)) is Ok,
{
}

/// The version in an output is the two numbers around the first dot behind the word, up to the next
/// space or the end, whatever comes behind.
pub proof fn law_version_is_found_in_output(
    major: Seq<char>,
    minor: Seq<char>,
    rest: Seq<char>,
    m: usize,
    n: usize,
)
    requires
        !major.contains('.'),
        !minor.contains(' '),
    ensures
        ({
            let short = "Verilator "@ + major + "."@ + minor;
            let long = short + " "@ + rest;
            let (a, b) = (text::parsed_usize(major), text::parsed_usize(minor));
            &&& announced_version(short) == announced_version(long)
            &&& a == Some(m) && b == Some(n) ==> announced_version(short) == Ok::<
                VerilatorVersion,
                VersionOutputError,
            >(VerilatorVersion { major: m, minor: n })
            &&& a is None ==> announced_version(short) == Err::<
                VerilatorVersion,
                VersionOutputError,
            >(VersionOutputError::InvalidMajor)
            &&& a is Some && b is None ==> announced_version(short) == Err::<
                VerilatorVersion,
                VersionOutputError,
            >(VersionOutputError::InvalidMinor)
        }),
{
    let short = "Verilator "@ + major + "."@ + minor;
    let long = short + " "@ + rest;
    reveal_strlit("Verilator ");
    reveal_strlit(".");
    reveal_strlit(" ");
    lemma_output_parts(major, minor, minor, short);
    lemma_output_parts(major, minor, minor + " "@ + rest, long);
}

/// Where the parts of an output stand.
proof fn lemma_output_parts(
    major: Seq<char>,
    minor: Seq<char>,
    tail: Seq<char>,
    output: Seq<char>,
)
    requires
        !major.contains('.'),
        !minor.contains(' '),
        tail == minor || exists|rest: Seq<char>| tail == minor + " "@ + rest,
        output =~= "Verilator "@ + major + "."@ + tail,
    ensures
        announced_version(output) == match (text::parsed_usize(major), text::parsed_usize(minor)) {
            (None, _) => Err(VersionOutputError::InvalidMajor),
            (Some(_), None) => Err(VersionOutputError::InvalidMinor),
            (Some(major), Some(minor)) => Ok(VerilatorVersion { major, minor }),
        },
{
    reveal_strlit("Verilator ");
    reveal_strlit(".");
    reveal_strlit(" ");
    assert(output.take(VERSION_PREFIX@.len() as int) =~= VERSION_PREFIX@);
    let behind = output.skip(VERSION_PREFIX@.len() as int);
    assert(behind =~= major + "."@ + tail);
    assert forall|i: int| 0 <= i < major.len() implies behind[i] != '.' by {
        assert(major.contains(major[i]));
    }
    text::lemma_position_is(behind, '.', major.len() as int);
    assert(behind.take(major.len() as int) =~= major);
    assert(behind.skip(major.len() as int + 1) =~= tail);
    assert forall|i: int| 0 <= i < minor.len() implies tail[i] != ' ' by {
        assert(minor.contains(minor[i]));
        assert(tail[i] == minor[i]);
    }
    text::lemma_position_is(tail, ' ', minor.len() as int);
    assert(tail.take(minor.len() as int) =~= minor);
}

/// An output that does not start with the word, or has no dot behind it, announces no version.
pub proof fn law_other_output_announces_nothing(output: Seq<char>)
    requires
        output.len() < "Verilator "@.len() || output.take("Verilator "@.len() as int)
            != "Verilator "@ || !output.skip("Verilator "@.len() as int).contains('.'),
    ensures
        announced_version(output) == Err::<VerilatorVersion, VersionOutputError>(
            VersionOutputError::UnexpectedFormat,
        ),
{
    let rest = output.skip("Verilator "@.len() as int);
    text::lemma_position(rest, '.');
    if text::position(rest, '.') < rest.len() {
        assert(rest.contains(rest[text::position(rest, '.')]));
    }
}

/// What is printed is read as UTF-8: encoded text announces what the text does, and other bytes
/// announce nothing.
pub proof fn law_printed_version_is_that_of_the_text(output: Seq<char>, bytes: Seq<u8>)
    ensures
        printed_version(vstd::utf8::encode_utf8(output)) == announced_version(output),
        !vstd::utf8::valid_utf8(bytes) ==> printed_version(bytes) == Err::<
            VerilatorVersion,
            VersionOutputError,
        >(VersionOutputError::NotUtf8),
{
    vstd::utf8::encode_utf8_valid_utf8(output);
    vstd::utf8::encode_utf8_decode_utf8(output);
}

/// Without an explicitly allowed version, those from 5.025 on with the major number 5 are accepted;
/// with one, those from it on. What is refused is named in the reason.
pub proof fn law_accepted_versions(version: VerilatorVersion, allowed: VerilatorVersion)
    ensures
        version_verdict(version, None) == if version.major == 5 && version.minor >= 25 {
            Ok::<(), UnsupportedVersion>(())
        } else {
            Err(UnsupportedVersion::NotSupported { version })
        },
        version_verdict(version, Some(allowed)) == if version.major > allowed.major || (
        version.major == allowed.major && version.minor >= allowed.minor) {
            Ok::<(), UnsupportedVersion>(())
        } else {
            Err(UnsupportedVersion::BelowAllowed { version, allowed })
        },
{
}

/// The text of a version is its numbers around a dot, the minor one in at least three digits; and a
/// rejection names the versions that it is about.
pub proof fn law_rejection_names_the_versions(version: VerilatorVersion, allowed: VerilatorVersion)
    ensures
        version_text(version) == text::decimal(version.major as nat) + "."@ + text::padded_decimal(
            version.minor as nat,
            3,
        ),
        unsupported_text(UnsupportedVersion::NotSupported { version })
            == "Unsupported Verilator version "@ + version_text(version)
            + " (see `VerilatorRuntimeOptions::allow_unsupported_verilator`)"@,
        unsupported_text(UnsupportedVersion::BelowAllowed { version, allowed })
            == "Unsupported Verilator version "@ + version_text(version) + " ("@ + version_text(
            allowed,
        ) + " was explicitly allowed)"@,
{
}

/// Versions compare by their major numbers, and those of one major number by their minor numbers.
pub proof fn law_versions_compare_by_major_then_minor(a: VerilatorVersion, b: VerilatorVersion)
    ensures
        a.before(b) <==> a.major < b.major || (a.major == b.major && a.minor < b.minor),
        vstd::std_specs::cmp::PartialOrdSpec::partial_cmp_spec(&a, &b) == Some(
            if a.major < b.major || (a.major == b.major && a.minor < b.minor) {
                Ordering::Less
            } else if a.major == b.major && a.minor == b.minor {
                Ordering::Equal
            } else {
                Ordering::Greater
            },
        ),
        supported(a) <==> a.major == 5 && a.minor >= 25,
{
}

} // verus!
