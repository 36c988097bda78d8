//! Translation of the build system's platform vocabulary into the external
//! tool's vocabulary: operating-system tokens, architecture tokens and the
//! build-profile name each go through a small fixed table, and any token
//! absent from its table passes through unchanged.

use vstd::prelude::*;
use crate::strutil::str_eq;

verus! {

/// The tool's name for a build-system operating-system token; unknown
/// tokens are kept as they are.
pub open spec fn spec_conan_os(s: Seq<char>) -> Seq<char> {
    if s == "windows"@ {
        "Windows"@
    } else if s == "linux"@ {
        "Linux"@
    } else if s == "macos"@ {
        "Macos"@
    } else if s == "android"@ {
        "Android"@
    } else if s == "ios"@ {
        "iOS"@
    } else if s == "freebsd"@ {
        "FreeBSD"@
    } else {
        s
    }
}

/// The tool's name for a build-system architecture token; unknown tokens
/// are kept as they are.
pub open spec fn spec_conan_arch(s: Seq<char>) -> Seq<char> {
    if s == "powerpc"@ {
        "ppc32"@
    } else if s == "powerpc64"@ {
        "ppc64"@
    } else if s == "arm"@ {
        "armv7"@
    } else if s == "aarch64"@ {
        "armv8"@
    } else {
        s
    }
}

/// The tool's build-type name for a build-system profile name; unknown
/// names are kept as they are.
pub open spec fn spec_conan_build_type(s: Seq<char>) -> Seq<char> {
    if s == "debug"@ {
        "Debug"@
    } else if s == "release"@ {
        "Release"@
    } else {
        s
    }
}

/// Maps a build-system operating-system token to the tool's vocabulary.
pub fn cargo_os_to_conan_os<'a>(os_name: &'a str) -> (r: &'a str)
    ensures
        r@ == spec_conan_os(os_name@),
{
    if str_eq(os_name, "windows") {
        "Windows"
    } else if str_eq(os_name, "linux") {
        "Linux"
    } else if str_eq(os_name, "macos") {
        "Macos"
    } else if str_eq(os_name, "android") {
        "Android"
    } else if str_eq(os_name, "ios") {
        "iOS"
    } else if str_eq(os_name, "freebsd") {
        "FreeBSD"
    } else {
        os_name
    }
}

/// Maps a build-system architecture token to the tool's vocabulary.
pub fn cargo_arch_to_conan_arch<'a>(arch_name: &'a str) -> (r: &'a str)
    ensures
        r@ == spec_conan_arch(arch_name@),
{
    if str_eq(arch_name, "powerpc") {
        "ppc32"
    } else if str_eq(arch_name, "powerpc64") {
        "ppc64"
    } else if str_eq(arch_name, "arm") {
        "armv7"
    } else if str_eq(arch_name, "aarch64") {
        "armv8"
    } else {
        arch_name
    }
}

/// Maps a build-system profile name to the tool's build-type name.
pub fn cargo_profile_to_conan_build_type<'a>(profile: &'a str) -> (r: &'a str)
    ensures
        r@ == spec_conan_build_type(profile@),
{
    if str_eq(profile, "debug") {
        "Debug"
    } else if str_eq(profile, "release") {
        "Release"
    } else {
        profile
    }
}

/// The settings detected from the build system's target description: an
/// `os`, `arch` and `build_type` entry for each token that is present,
/// each translated through its table.
pub open spec fn spec_detected_settings(
    os: Option<&str>,
    arch: Option<&str>,
    profile: Option<&str>,
) -> Seq<(Seq<char>, Seq<char>)> {
    (match os {
        Some(o) => seq![("os"@, spec_conan_os(o@))],
        None => Seq::empty(),
    }) + (match arch {
        Some(a) => seq![("arch"@, spec_conan_arch(a@))],
        None => Seq::empty(),
    }) + (match profile {
        Some(p) => seq![("build_type"@, spec_conan_build_type(p@))],
        None => Seq::empty(),
    })
}

/// Builds the settings map detected from the build system's target
/// operating system, target architecture and profile, each token given as
/// it came from the build system's environment (absent tokens as `None`).
pub fn settings_from_cargo_tokens(
    os: Option<&str>,
    arch: Option<&str>,
    profile: Option<&str>,
) -> (r: Vec<(String, String)>)
    ensures
        r.deep_view() == spec_detected_settings(os, arch, profile),
{
    let mut result: Vec<(String, String)> = Vec::new();
    if let Some(o) = os {
        result.push((String::from_str("os"), String::from_str(cargo_os_to_conan_os(o))));
    }
    if let Some(a) = arch {
        result.push((String::from_str("arch"), String::from_str(cargo_arch_to_conan_arch(a))));
    }
    if let Some(p) = profile {
        result.push(
            (String::from_str("build_type"), String::from_str(cargo_profile_to_conan_build_type(p))),
        );
    }
    proof {
        assert(result.deep_view() =~= spec_detected_settings(os, arch, profile));
    }
    result
}

} // verus!
