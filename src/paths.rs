//! Path arithmetic on string paths, and the location of the bundled tools.

use vstd::prelude::*;

verus! {

/// What `Path::join` gives for `base` and `rel` on the target the library is built for.
pub uninterp spec fn joined(base: Seq<char>, rel: Seq<char>) -> Seq<char>;

/// What `PathBuf::set_extension` gives for `path` and `ext`: whether the path had a
/// file name, and the path after the call.
pub uninterp spec fn extension_set(path: Seq<char>, ext: Seq<char>) -> (bool, Seq<char>);

/// Relies on `std::path::Path::join`: adjoins `rel` to `base`.
#[verifier::external_body]
pub(crate) fn join_path(base: &str, rel: &str) -> (r: String)
    ensures
        r@ == joined(base@, rel@),
{
    std::path::Path::new(base).join(rel).to_string_lossy().into_owned()
}

/// `s` holds no path separator of any platform.
pub open spec fn no_separator(s: Seq<char>) -> bool {
    forall|i: int| 0 <= i < s.len() ==> s[i] != '/' && s[i] != '\\'
}

/// Relies on `std::path::PathBuf::set_extension`: replaces the extension of the file
/// name, and reports `false` leaving the path as it was when there is no file name.
/// It panics on an extension that holds a path separator, which `requires` excludes.
#[verifier::external_body]
pub(crate) fn set_extension(path: &str, ext: &str) -> (r: (bool, String))
    requires
        no_separator(ext@),
    ensures
        (r.0, r.1@) == extension_set(path@, ext@),
        !r.0 ==> r.1@ == path@,
{
    let mut p = std::path::PathBuf::from(path);
    let ok = p.set_extension(ext);
    (ok, p.to_string_lossy().into_owned())
}

/// String equality on `&str`.
pub(crate) fn same_text(a: &str, b: &str) -> (r: bool)
    ensures
        r == (a@ == b@),
{
    let x = String::from_str(a);
    let y = String::from_str(b);
    x == y
}

/// The directory under `bin` that holds the prebuilt tools for an operating system
/// and architecture, as named by `std::env::consts::{OS, ARCH}`; `None` where no
/// prebuilt tools exist.
pub open spec fn platform_dir(os: Seq<char>, arch: Seq<char>) -> Option<Seq<char>> {
    if os == "macos"@ && arch == "x86_64"@ {
        Some("osx-x86_64"@)
    } else if os == "macos"@ && arch == "aarch64"@ {
        Some("osx-aarch_64"@)
    } else if os == "linux"@ && arch == "aarch64"@ {
        Some("linux-aarch_64"@)
    } else if os == "linux"@ && arch == "powerpc64"@ {
        Some("linux-ppcle_64"@)
    } else if os == "linux"@ && arch == "s390x"@ {
        Some("linux-s390_64"@)
    } else if os == "linux"@ && arch == "x86"@ {
        Some("linux-x86_32"@)
    } else if os == "linux"@ && arch == "x86_64"@ {
        Some("linux-x86_64"@)
    } else if os == "windows"@ && arch == "x86"@ {
        Some("win32"@)
    } else if os == "windows"@ && arch == "x86_64"@ {
        Some("win64"@)
    } else {
        None
    }
}

/// The name of the prebuilt tools' directory for `os` and `arch`.
fn platform_dir_name(os: &str, arch: &str) -> (r: Option<&'static str>)
    ensures
        r is None <==> platform_dir(os@, arch@) is None,
        r matches Some(d) ==> platform_dir(os@, arch@) == Some(d@),
{
    if same_text(os, "macos") && same_text(arch, "x86_64") {
        Some("osx-x86_64")
    } else if same_text(os, "macos") && same_text(arch, "aarch64") {
        Some("osx-aarch_64")
    } else if same_text(os, "linux") && same_text(arch, "aarch64") {
        Some("linux-aarch_64")
    } else if same_text(os, "linux") && same_text(arch, "powerpc64") {
        Some("linux-ppcle_64")
    } else if same_text(os, "linux") && same_text(arch, "s390x") {
        Some("linux-s390_64")
    } else if same_text(os, "linux") && same_text(arch, "x86") {
        Some("linux-x86_32")
    } else if same_text(os, "linux") && same_text(arch, "x86_64") {
        Some("linux-x86_64")
    } else if same_text(os, "windows") && same_text(arch, "x86") {
        Some("win32")
    } else if same_text(os, "windows") && same_text(arch, "x86_64") {
        Some("win64")
    } else {
        None
    }
}

/// The directory of prebuilt tools below `manifest_dir` for this platform.
pub open spec fn tool_dir(manifest_dir: Seq<char>, os: Seq<char>, arch: Seq<char>) -> Option<
    Seq<char>,
> {
    match platform_dir(os, arch) {
        Some(d) => Some(joined(joined(manifest_dir, "bin"@), d)),
        None => None,
    }
}

/// The path of the bundled tool `tool` below `manifest_dir` for this platform.
pub open spec fn bundled_tool(
    manifest_dir: Seq<char>,
    os: Seq<char>,
    arch: Seq<char>,
    tool: Seq<char>,
) -> Option<Seq<char>> {
    match tool_dir(manifest_dir, os, arch) {
        Some(d) => Some(joined(d, tool)),
        None => None,
    }
}

/// The directory of prebuilt tools for `os` and `arch` below `manifest_dir`,
/// or `None` on a platform without prebuilt tools.
pub fn get_path_for_arch(manifest_dir: &str, os: &str, arch: &str) -> (r: Option<String>)
    ensures
        r is None <==> platform_dir(os@, arch@) is None,
        r matches Some(p) ==> tool_dir(manifest_dir@, os@, arch@) == Some(p@),
{
    match platform_dir_name(os, arch) {
        Some(d) => {
            let bin = join_path(manifest_dir, "bin");
            Some(join_path(bin.as_str(), d))
        },
        None => None,
    }
}

/// The bundled tool `tool` for `os` and `arch`.
fn bundled_tool_path(manifest_dir: &str, os: &str, arch: &str, tool: &str) -> (r: Option<String>)
    ensures
        r is None <==> platform_dir(os@, arch@) is None,
        r matches Some(p) ==> bundled_tool(manifest_dir@, os@, arch@, tool@) == Some(p@),
{
    match get_path_for_arch(manifest_dir, os, arch) {
        Some(d) => Some(join_path(d.as_str(), tool)),
        None => None,
    }
}

/// The bundled `protoc` for `os` and `arch`, or `None` where none is bundled.
pub fn protoc_path(manifest_dir: &str, os: &str, arch: &str) -> (r: Option<String>)
    ensures
        r is None <==> platform_dir(os@, arch@) is None,
        r matches Some(p) ==> bundled_tool(manifest_dir@, os@, arch@, "protoc"@) == Some(p@),
{
    bundled_tool_path(manifest_dir, os, arch, "protoc")
}

/// The bundled `protoc-gen-upb_minitable` plugin for `os` and `arch`, or `None`
/// where none is bundled.
pub fn protoc_gen_upb_minitable_path(manifest_dir: &str, os: &str, arch: &str) -> (r: Option<
    String,
>)
    ensures
        r is None <==> platform_dir(os@, arch@) is None,
        r matches Some(p) ==> bundled_tool(manifest_dir@, os@, arch@, "protoc-gen-upb_minitable"@)
            == Some(p@),
{
    bundled_tool_path(manifest_dir, os, arch, "protoc-gen-upb_minitable")
}

} // verus!
