use crate::error::DevtoolError;
use crate::text::{find_char, lossy_text, parse_number, number_fits, number_value, index_of};
use vstd::prelude::*;
use vstd::string::*;

verus! {

/// A `major.minor.patch` version triple.
#[derive(Clone, Copy, Debug, PartialEq, Eq, Structural)]
pub struct Version {
    pub major: u64,
    pub minor: u64,
    pub patch: u64,
}

impl Version {
    pub open spec fn triple(self) -> (int, int, int) {
        (self.major as int, self.minor as int, self.patch as int)
    }

    pub fn new(major: u64, minor: u64, patch: u64) -> (r: Version)
        ensures
            r == (Version { major, minor, patch }),
    {
        Version { major, minor, patch }
    }
}

/// Numeric order on triples: the first component decides, then the second,
/// then the third.
pub open spec fn triple_at_least(a: (int, int, int), b: (int, int, int)) -> bool {
    a.0 > b.0 || (a.0 == b.0 && (a.1 > b.1 || (a.1 == b.1 && a.2 >= b.2)))
}

/// The oldest build tool that the commands accept: 3.26.0.
pub fn minimum_tool_version() -> (r: Version)
    ensures
        r == (Version { major: 3, minor: 26, patch: 0 }),
{
    Version { major: 3, minor: 26, patch: 0 }
}

/// Accepts `version` when it is at least `minimum`, comparing the three
/// components as numbers.
pub fn enforce_minimum(version: Version, minimum: Version) -> (r: Result<(), DevtoolError>)
    ensures
        r.is_ok() <==> triple_at_least(version.triple(), minimum.triple()),
        r.is_err() ==> r == Err::<(), DevtoolError>(
            DevtoolError::VersionTooOld { found: version, minimum },
        ),
{
    let ok = version.major > minimum.major || (version.major == minimum.major && (
    version.minor > minimum.minor || (version.minor == minimum.minor && version.patch
        >= minimum.patch)));
    if ok {
        Ok(())
    } else {
        Err(DevtoolError::VersionTooOld { found: version, minimum })
    }
}

/// The three dot-separated parts of `s`: up to the first dot, between the
/// first and the second, after the second.
pub open spec fn version_parts(s: Seq<char>) -> (Seq<char>, Seq<char>, Seq<char>) {
    let i = index_of(s, '.');
    let rest = s.subrange(i + 1, s.len() as int);
    let j = index_of(rest, '.');
    (s.subrange(0, i), rest.subrange(0, j), rest.subrange(j + 1, rest.len() as int))
}

/// `s` read as `major.minor.patch`, each part a run of decimal digits that
/// fits in 64 bits; `None` for any other text.
pub open spec fn version_view(s: Seq<char>) -> Option<(int, int, int)> {
    let i = index_of(s, '.');
    let rest = s.subrange(i + 1, s.len() as int);
    let j = index_of(rest, '.');
    let (a, b, c) = version_parts(s);
    if i < s.len() && j < rest.len() && number_fits(a) && number_fits(b) && number_fits(c) {
        Some((number_value(a), number_value(b), number_value(c)))
    } else {
        None
    }
}

/// Reads a `major.minor.patch` triple that makes up the whole of `text`.
pub fn parse_version(text: &str) -> (r: Result<Version, DevtoolError>)
    ensures
        match r {
            Ok(v) => version_view(text@) == Some(v.triple()),
            Err(e) => version_view(text@).is_none() && e == DevtoolError::VersionUnparseable,
        },
{
    let n = text.unicode_len();
    let i = find_char(text, '.');
    if i >= n {
        return Err(DevtoolError::VersionUnparseable);
    }
    let rest = text.substring_char(i + 1, n);
    let m = rest.unicode_len();
    let j = find_char(rest, '.');
    if j >= m {
        return Err(DevtoolError::VersionUnparseable);
    }
    let a = parse_number(text.substring_char(0, i));
    let b = parse_number(rest.substring_char(0, j));
    let c = parse_number(rest.substring_char(j + 1, m));
    match (a, b, c) {
        (Some(major), Some(minor), Some(patch)) => Ok(Version { major, minor, patch }),
        _ => Err(DevtoolError::VersionUnparseable),
    }
}

/// The pattern that locates the version in the build tool's `--version`
/// output; its first group is the triple.
pub const VERSION_PATTERN: &'static str = "version\\s+(\\d+\\.\\d+\\.\\d+)";

/// The text of the first capture group of the leftmost match of `pattern` in
/// `text`, if the pattern compiles and matches.
pub uninterp spec fn first_capture(pattern: Seq<char>, text: Seq<char>) -> Option<Seq<char>>;

/// Relies on `regex::Regex::new` and `regex::Regex::captures`: the first group
/// of the leftmost-first match, which depends on the pattern and the text alone.
#[verifier::external_body]
fn capture_first_group(pattern: &str, text: &str) -> (r: Option<String>)
    ensures
        match r {
            Some(s) => first_capture(pattern@, text@) == Some(s@),
            None => first_capture(pattern@, text@).is_none(),
        },
{
    let re = regex::Regex::new(pattern).ok()?;
    let caps = re.captures(text)?;
    caps.get(1).map(|m| m.as_str().to_string())
}

/// What the version search yields for a given first capture.
pub open spec fn version_of_capture(capture: Option<Seq<char>>) -> Option<(int, int, int)> {
    match capture {
        Some(t) => version_view(t),
        None => None,
    }
}

/// Finds the version that the build tool reports in its `--version` output.
pub fn version_from_output(output: &str) -> (r: Result<Version, DevtoolError>)
    ensures
        match r {
            Ok(v) => version_of_capture(first_capture(VERSION_PATTERN@, output@)) == Some(v.triple()),
            Err(e) => version_of_capture(first_capture(VERSION_PATTERN@, output@)).is_none()
                && e == DevtoolError::VersionUnparseable,
        },
{
    match capture_first_group(VERSION_PATTERN, output) {
        Some(t) => parse_version(t.as_str()),
        None => Err(DevtoolError::VersionUnparseable),
    }
}

/// The version that the build tool's `--version` run reports, given its raw
/// standard output, or `ToolNotFound` when the tool could not be launched.
pub fn version_from_probe(probe: &Result<Vec<u8>, ()>) -> (r: Result<Version, DevtoolError>)
    ensures
        match probe {
            Err(_) => r == Err::<Version, DevtoolError>(DevtoolError::ToolNotFound),
            Ok(bytes) => match r {
                Ok(v) => version_of_capture(
                    first_capture(VERSION_PATTERN@, crate::text::utf8_lossy(bytes@)),
                ) == Some(v.triple()),
                Err(e) => version_of_capture(
                    first_capture(VERSION_PATTERN@, crate::text::utf8_lossy(bytes@)),
                ).is_none() && e == DevtoolError::VersionUnparseable,
            },
        },
{
    match probe {
        Err(_) => Err(DevtoolError::ToolNotFound),
        Ok(bytes) => {
            let out = lossy_text(bytes.as_slice());
            version_from_output(out.as_str())
        },
    }
}

} // verus!
