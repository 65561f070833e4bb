//! Release version numbers: reading `major.minor.patch` and deciding whether
//! a published release is newer than the running one.

use vstd::prelude::*;

use crate::text::{
    chars_of, parse_unsigned, parse_unsigned_chars, split_chars, split_on, string_of,
    strip_all_prefix, strip_all_prefix_chars,
};

verus! {

/// Why a version string could not be read.
#[derive(Debug, Clone, Copy, PartialEq, Eq, Structural)]
pub enum VersionError {
    /// The string does not have exactly three dot-separated parts.
    InvalidFormat,
    /// The major part is not a `u32`.
    Major,
    /// The minor part is not a `u32`.
    Minor,
    /// The patch part is not a `u32`.
    Patch,
}

/// The `(major, minor, patch)` a version string spells; parts are read in
/// that order and the first unreadable one is reported.
pub open spec fn version_of(s: Seq<char>) -> Result<(u32, u32, u32), VersionError> {
    let parts = split_on(s, '.');
    if parts.len() != 3 {
        Err(VersionError::InvalidFormat)
    } else {
        match parse_unsigned(parts[0], u32::MAX as nat) {
            None => Err(VersionError::Major),
            Some(major) => match parse_unsigned(parts[1], u32::MAX as nat) {
                None => Err(VersionError::Minor),
                Some(minor) => match parse_unsigned(parts[2], u32::MAX as nat) {
                    None => Err(VersionError::Patch),
                    Some(patch) => Ok((major as u32, minor as u32, patch as u32)),
                },
            },
        }
    }
}

/// Whether version `a` comes after version `b`, comparing major, then
/// minor, then patch.
pub open spec fn is_after(a: (u32, u32, u32), b: (u32, u32, u32)) -> bool {
    ||| a.0 > b.0
    ||| a.0 == b.0 && a.1 > b.1
    ||| a.0 == b.0 && a.1 == b.1 && a.2 > b.2
}

/// Reads a version string such as `0.2.1`.
pub fn parse_version(version: &str) -> (r: Result<(u32, u32, u32), VersionError>)
    ensures
        r == version_of(version@),
{
    let cs = chars_of(version);
    let parts = split_chars(cs.as_slice(), '.');
    proof {
        assert(parts@.len() == split_on(version@, '.').len());
    }
    if parts.len() != 3 {
        return Err(VersionError::InvalidFormat);
    }
    assert(parts@[0]@ == split_on(version@, '.')[0]);
    assert(parts@[1]@ == split_on(version@, '.')[1]);
    assert(parts@[2]@ == split_on(version@, '.')[2]);
    let major = match parse_unsigned_chars(parts[0].as_slice(), u32::MAX as u64) {
        Some(v) => v as u32,
        None => return Err(VersionError::Major),
    };
    let minor = match parse_unsigned_chars(parts[1].as_slice(), u32::MAX as u64) {
        Some(v) => v as u32,
        None => return Err(VersionError::Minor),
    };
    let patch = match parse_unsigned_chars(parts[2].as_slice(), u32::MAX as u64) {
        Some(v) => v as u32,
        None => return Err(VersionError::Patch),
    };
    Ok((major, minor, patch))
}

/// Whether `a` comes after `b`.
pub fn version_after(a: (u32, u32, u32), b: (u32, u32, u32)) -> (r: bool)
    ensures
        r == is_after(a, b),
{
    if a.0 != b.0 {
        a.0 > b.0
    } else if a.1 != b.1 {
        a.1 > b.1
    } else {
        a.2 > b.2
    }
}

/// Whether the version `latest` is newer than `current`; `latest` is read
/// first, and an unreadable one is reported before `current` is looked at.
pub fn is_newer_version(latest: &str, current: &str) -> (r: Result<bool, VersionError>)
    ensures
        match version_of(latest@) {
            Err(e) => r == Err::<bool, VersionError>(e),
            Ok(l) => match version_of(current@) {
                Err(e) => r == Err::<bool, VersionError>(e),
                Ok(c) => r == Ok::<bool, VersionError>(is_after(l, c)),
            },
        },
{
    let l = parse_version(latest)?;
    let c = parse_version(current)?;
    Ok(version_after(l, c))
}

/// The version a release tag names: the tag without its leading `v`s.
pub open spec fn tag_version(tag: Seq<char>) -> Seq<char> {
    strip_all_prefix(tag, "v"@)
}

/// Decides from a release tag whether an update is available: the tag's
/// version (without leading `v`s) when it is newer than `current`, `None`
/// when it is not.
pub fn newer_release(tag_name: &str, current: &str) -> (r: Result<Option<String>, VersionError>)
    ensures
        match version_of(tag_version(tag_name@)) {
            Err(e) => r == Err::<Option<String>, VersionError>(e),
            Ok(l) => match version_of(current@) {
                Err(e) => r == Err::<Option<String>, VersionError>(e),
                Ok(c) => if is_after(l, c) {
                    r matches Ok(Some(v)) && v@ == tag_version(tag_name@)
                } else {
                    r == Ok::<Option<String>, VersionError>(None)
                },
            },
        },
{
    let tag = chars_of(tag_name);
    let v = chars_of("v");
    let stripped = strip_all_prefix_chars(tag.as_slice(), v.as_slice());
    let latest = string_of(stripped.as_slice());
    if is_newer_version(latest.as_str(), current)? {
        Ok(Some(latest))
    } else {
        Ok(None)
    }
}

} // verus!
