//! Names of executables that tell their target platform apart.
use vstd::prelude::*;

verus! {

/// The name of this package.
pub const PACKAGE_NAME: &'static str = "dablenutil";

/// `{package}_{os}_{arch}{exe_suffix}`.
pub open spec fn spec_executable_name(
    package: Seq<char>,
    os: Seq<char>,
    arch: Seq<char>,
    exe_suffix: Seq<char>,
) -> Seq<char> {
    package + seq!['_'] + os + seq!['_'] + arch + exe_suffix
}

/// The executable name of `package` built for the operating system `os`
/// and the architecture `arch`, whose executables end in `exe_suffix`
/// (empty on Unix-like targets, `.exe` on Windows): the four joined by one
/// underscore between package, system and architecture, and nothing else.
pub fn executable_name(package: &str, os: &str, arch: &str, exe_suffix: &str) -> (r: String)
    ensures
        r@ == spec_executable_name(package@, os@, arch@, exe_suffix@),
{
    let mut name = String::from_str(package);
    name.append("_");
    name.append(os);
    name.append("_");
    name.append(arch);
    name.append(exe_suffix);
    proof {
        reveal_strlit("_");
    }
    name
}

} // verus!
