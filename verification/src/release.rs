//! The lines on the operating system: its name and its version.

use crate::text::{decimal, push_decimal};
use vstd::prelude::*;

verus! {

/// What is reported where the system does not say.
pub const UNKNOWN: &'static str = "Unknown";

/// The family that the version line names.
pub const FAMILY_PREFIX: &'static str = "NT v";

/// The build number as the system reports it carries flags in its top four
/// bits; the number itself is the lower 28.
pub const BUILD_NUMBER_MASK: u32 = 0x0FFF_FFFF;

/// The version numbers as the system reports them.
#[derive(Clone, Copy, Debug, PartialEq, Eq)]
pub struct NtVersion {
    pub major: u32,
    pub minor: u32,
    /// The build number, flags included.
    pub build: u32,
}

/// The build number without the flags.
pub open spec fn build_number(build: u32) -> u32 {
    build & BUILD_NUMBER_MASK
}

/// Masking keeps the lower 28 bits as they are and clears the four above.
pub proof fn lemma_build_number(build: u32)
    ensures
        build_number(build) == build % 0x1000_0000,
        build_number(build) < 0x1000_0000,
        build == (build >> 28) * 0x1000_0000 + build_number(build),
{
    assert(build & 0x0FFF_FFFF == build % 0x1000_0000) by (bit_vector);
    assert(build == (build >> 28) * 0x1000_0000 + (build & 0x0FFF_FFFF)) by (bit_vector);
}

/// Strips the flags from a build number.
pub fn masked_build(build: u32) -> (number: u32)
    ensures
        number == build_number(build),
        number == build % 0x1000_0000,
{
    proof {
        lemma_build_number(build);
    }
    build & BUILD_NUMBER_MASK
}

/// The version line for these numbers.
pub open spec fn version_text(version: NtVersion) -> Seq<char> {
    FAMILY_PREFIX@ + decimal(version.major as nat) + "."@ + decimal(version.minor as nat) + "."@
        + decimal(build_number(version.build) as nat)
}

/// The version line for what the system answered; `None` says that it
/// offers no way to ask.
pub open spec fn system_info_line(version: Option<NtVersion>) -> Seq<char> {
    match version {
        Some(v) => version_text(v),
        None => UNKNOWN@,
    }
}

/// The version line: `NT v<major>.<minor>.<build>`, the build number without
/// its flags. `None` says that the system offers no way to ask; the line is
/// then `Unknown`.
pub fn get_system_info(version: Option<NtVersion>) -> (line: String)
    ensures
        line@ == system_info_line(version),
{
    match version {
        Some(v) => {
            let mut line = FAMILY_PREFIX.to_owned();
            push_decimal(&mut line, v.major as u128);
            line.append(".");
            push_decimal(&mut line, v.minor as u128);
            line.append(".");
            push_decimal(&mut line, masked_build(v.build) as u128);
            line
        },
        None => UNKNOWN.to_owned(),
    }
}

/// The name line for what the system's branding gave; `None` says that it
/// gave nothing.
pub open spec fn os_name_line(branding: Option<&str>) -> Seq<char> {
    match branding {
        Some(name) => name@,
        None => UNKNOWN@,
    }
}

/// The name line: the product name as the system's branding gives it, or
/// `Unknown` where it gave none.
pub fn get_os_pretty_name(branding: Option<&str>) -> (line: String)
    ensures
        line@ == os_name_line(branding),
{
    match branding {
        Some(name) => name.to_owned(),
        None => UNKNOWN.to_owned(),
    }
}

/// The version line rests on the version numbers alone: two answers to the
/// same numbers are the same line.
pub proof fn lemma_system_info_repeats(version: Option<NtVersion>, first: String, second: String)
    requires
        first@ == system_info_line(version),
        second@ == system_info_line(version),
    ensures
        first@ == second@,
{
}

/// The name line rests on the branding alone: two answers to the same
/// branding are the same line.
pub proof fn lemma_os_name_repeats(branding: Option<&str>, first: String, second: String)
    requires
        first@ == os_name_line(branding),
        second@ == os_name_line(branding),
    ensures
        first@ == second@,
{
}

} // verus!
