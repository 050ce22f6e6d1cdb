//! Host platforms and the names of the `ols` release assets built for them.

use vstd::prelude::*;

verus! {

/// The host operating system.
#[derive(Clone, Copy, Debug, PartialEq, Eq, Structural)]
pub enum Os {
    Mac,
    Linux,
    Windows,
}

/// The host CPU architecture.
#[derive(Clone, Copy, Debug, PartialEq, Eq, Structural)]
pub enum Architecture {
    Aarch64,
    X86,
    X8664,
}

/// The token that names an architecture in release asset names; 32-bit x86
/// has no release build.
pub open spec fn arch_token(arch: Architecture) -> Option<Seq<char>> {
    match arch {
        Architecture::Aarch64 => Some("arm64"@),
        Architecture::X8664 => Some("x86_64"@),
        Architecture::X86 => None,
    }
}

/// The target triple suffix that names an operating system in release asset names.
pub open spec fn os_token(os: Os) -> Seq<char> {
    match os {
        Os::Mac => "darwin"@,
        Os::Linux => "unknown-linux-gnu"@,
        Os::Windows => "pc-windows-msvc"@,
    }
}

/// `ols-<arch>-<os>`: the name of the executable inside a release archive.
pub open spec fn release_file_name_spec(arch: Seq<char>, os: Os) -> Seq<char> {
    "ols-"@ + arch + "-"@ + os_token(os)
}

/// The suffix that executables carry on a platform.
pub open spec fn exe_suffix_spec(os: Os) -> Seq<char> {
    match os {
        Os::Windows => ".exe"@,
        _ => ""@,
    }
}

/// The error for a platform without a release build.
pub open spec fn unsupported_platform_message() -> Seq<char> {
    "Unsupported platform x86"@
}

/// The executable suffix of the platform.
pub fn exe_suffix(os: Os) -> (r: &'static str)
    ensures
        r@ == exe_suffix_spec(os),
{
    match os {
        Os::Windows => ".exe",
        _ => "",
    }
}

/// The name of the executable in the release archive for the platform, or the
/// unsupported-platform error for 32-bit x86.
pub fn release_file_name(os: Os, arch: Architecture) -> (r: Result<String, String>)
    ensures
        r is Err <==> arch_token(arch) is None,
        r matches Err(e) ==> e@ == unsupported_platform_message(),
        r matches Ok(name) ==> name@ == release_file_name_spec(arch_token(arch)->0, os),
{
    let arch_name: &str = match arch {
        Architecture::Aarch64 => "arm64",
        Architecture::X8664 => "x86_64",
        Architecture::X86 => {
            return Err(String::from_str("Unsupported platform x86"));
        },
    };
    let os_name: &str = match os {
        Os::Mac => "darwin",
        Os::Linux => "unknown-linux-gnu",
        Os::Windows => "pc-windows-msvc",
    };
    let mut name = String::from_str("ols-");
    name.append(arch_name);
    name.append("-");
    name.append(os_name);
    Ok(name)
}

/// The name of the release asset (a zip archive) that holds `file_name`.
pub fn asset_name(file_name: &str) -> (r: String)
    ensures
        r@ == file_name@ + ".zip"@,
{
    let mut name = String::from_str(file_name);
    name.append(".zip");
    name
}

/// The directory that one release version is installed into: `ols-<version>`.
pub fn version_dir(version: &str) -> (r: String)
    ensures
        r@ == "ols-"@ + version@,
{
    let mut dir = String::from_str("ols-");
    dir.append(version);
    dir
}

/// The path of the installed executable: `<dir>/<file_name><suffix>`.
pub fn installed_binary_path(dir: &str, file_name: &str, os: Os) -> (r: String)
    ensures
        r@ == dir@ + "/"@ + file_name@ + exe_suffix_spec(os),
{
    let mut path = String::from_str(dir);
    path.append("/");
    path.append(file_name);
    path.append(exe_suffix(os));
    path
}

} // verus!
