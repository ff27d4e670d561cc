use marlin_verilator::version::{
    check_allowed_version, check_verilator_version, minimum_supported_verilator,
    parse_version_output, retrieve_verilator_version, UnsupportedVersion, VersionOutputError,
};
use marlin_verilator::VerilatorVersion;

fn version(major: usize, minor: usize) -> VerilatorVersion {
    VerilatorVersion { major, minor }
}

#[test]
fn versions_are_written_with_three_minor_digits() {
    assert_eq!(version(5, 25).text(), "5.025");
    assert_eq!(version(5, 36).text(), "5.036");
    assert_eq!(version(5, 0).text(), "5.000");
    assert_eq!(version(4, 228).text(), "4.228");
    assert_eq!(version(10, 1234).text(), "10.1234");
    assert_eq!(minimum_supported_verilator().text(), "5.025");
}

#[test]
fn versions_are_ordered_by_major_then_minor() {
    assert!(version(4, 228) < version(5, 20));
    assert!(version(5, 20) < version(5, 25));
    assert!(version(5, 25) <= version(5, 25));
    assert!(version(6, 0) > version(5, 999));
    assert_eq!(
        version(5, 20).cmp(&version(5, 36)),
        std::cmp::Ordering::Less
    );
    let mut versions = vec![version(5, 36), version(4, 999), version(5, 2)];
    versions.sort();
    assert_eq!(versions, vec![version(4, 999), version(5, 2), version(5, 36)]);
}

#[test]
fn version_output_is_parsed() {
    assert_eq!(
        parse_version_output("Verilator 5.025 2024-05-18 rev v5.024-42-gc561fe8ba"),
        Ok(version(5, 25))
    );
    assert_eq!(parse_version_output("Verilator 5.036"), Ok(version(5, 36)));
    assert_eq!(parse_version_output("Verilator +5.+036 x"), Ok(version(5, 36)));
    assert_eq!(
        parse_version_output("verilator 5.025"),
        Err(VersionOutputError::UnexpectedFormat)
    );
    assert_eq!(parse_version_output(""), Err(VersionOutputError::UnexpectedFormat));
    assert_eq!(
        parse_version_output("Verilator 5025"),
        Err(VersionOutputError::UnexpectedFormat)
    );
    assert_eq!(
        parse_version_output("Verilator five.025"),
        Err(VersionOutputError::InvalidMajor)
    );
    assert_eq!(parse_version_output("Verilator .025"), Err(VersionOutputError::InvalidMajor));
    assert_eq!(parse_version_output("Verilator 5. 025"), Err(VersionOutputError::InvalidMinor));
    // the minor number goes up to a space, not up to the end of the line
    assert_eq!(parse_version_output("Verilator 5.025\n"), Err(VersionOutputError::InvalidMinor));
    assert_eq!(
        parse_version_output("Verilator 5.99999999999999999999"),
        Err(VersionOutputError::InvalidMinor)
    );
}

#[test]
fn parsing_agrees_with_the_standard_library() {
    let numbers = [
        "0", "1", "025", "+7", "-1", "", "+", "++1", "18446744073709551615", "18446744073709551616",
        "000000000000000000000000000001", "1a", "a1", "1_0",
    ];
    for major in numbers {
        for minor in numbers {
            let expected = match (major.parse::<usize>(), minor.parse::<usize>()) {
                (Err(_), _) => Err(VersionOutputError::InvalidMajor),
                (_, Err(_)) => Err(VersionOutputError::InvalidMinor),
                (Ok(major), Ok(minor)) => Ok(version(major, minor)),
            };
            let output = format!("Verilator {major}.{minor} rest");
            assert_eq!(parse_version_output(&output), expected, "{output}");
        }
    }
}

#[test]
fn version_bytes_are_decoded() {
    assert_eq!(
        retrieve_verilator_version(b"Verilator 5.028 2024-08-21 rev v5.028".to_vec()),
        Ok(version(5, 28))
    );
    assert_eq!(
        retrieve_verilator_version(vec![b'V', 0xff, 0xfe]),
        Err(VersionOutputError::NotUtf8)
    );
    assert_eq!(
        retrieve_verilator_version("Verilator 5.028 ü".as_bytes().to_vec()),
        Ok(version(5, 28))
    );
}

#[test]
fn written_versions_are_read_back() {
    for (major, minor) in [(0, 0), (5, 25), (5, 999), (6, 1000), (usize::MAX, usize::MAX)] {
        let written = version(major, minor);
        let output = format!("Verilator {} 2024-05-18", written.text());
        assert_eq!(parse_version_output(&output), Ok(written));
    }
}

#[test]
fn version_output_errors_are_described() {
    assert_eq!(
        VersionOutputError::NotUtf8.message(),
        "Failed to decode Verilator --version output as UTF-8"
    );
    assert_eq!(
        VersionOutputError::UnexpectedFormat.message(),
        "Unexpected Verilator --version output format"
    );
    assert_eq!(
        VersionOutputError::InvalidMajor.message(),
        "Failed to parse major version from Verilator --version output"
    );
    assert_eq!(
        VersionOutputError::InvalidMinor.message(),
        "Failed to parse minor version from Verilator --version output"
    );
}

#[test]
fn only_supported_versions_pass() {
    assert_eq!(check_verilator_version(version(5, 25)), Ok(()));
    assert_eq!(check_verilator_version(version(5, 36)), Ok(()));
    for rejected in [version(5, 24), version(4, 228), version(6, 0), version(6, 30)] {
        let error = check_verilator_version(rejected).unwrap_err();
        assert_eq!(error, UnsupportedVersion::NotSupported { version: rejected });
        assert_eq!(
            error.message(),
            format!(
                "Unsupported Verilator version {} (see `VerilatorRuntimeOptions::allow_unsupported_verilator`)",
                rejected.text()
            )
        );
    }
}

#[test]
fn allowed_versions_are_a_lower_bound() {
    let allowed = Some(version(5, 20));
    assert_eq!(check_allowed_version(version(5, 20), allowed), Ok(()));
    assert_eq!(check_allowed_version(version(5, 22), allowed), Ok(()));
    assert_eq!(check_allowed_version(version(6, 0), allowed), Ok(()));
    let error = check_allowed_version(version(5, 6), allowed).unwrap_err();
    assert_eq!(
        error,
        UnsupportedVersion::BelowAllowed { version: version(5, 6), allowed: version(5, 20) }
    );
    assert_eq!(
        error.message(),
        "Unsupported Verilator version 5.006 (5.020 was explicitly allowed)"
    );
    // without an explicit bound the supported versions count
    assert!(check_allowed_version(version(5, 22), None).is_err());
    assert!(check_allowed_version(version(6, 0), None).is_err());
    assert_eq!(check_allowed_version(version(5, 25), None), Ok(()));
    // an explicit bound above a supported version rejects it
    assert!(check_allowed_version(version(5, 25), Some(version(5, 26))).is_err());
}
