//! The C build of the generated sources, configured through `cc::Build`.

use vstd::prelude::*;

verus! {

/// `cc::Build`, the configuration of a C compilation, carried as it is.
#[verifier::external_type_specification]
#[verifier::external_body]
pub struct ExBuild(cc::Build);

/// The header search directories that a `cc::Build` holds, in the order they were added.
pub uninterp spec fn build_includes(b: cc::Build) -> Seq<Seq<char>>;

/// The compiler flags that a `cc::Build` holds, in the order they were added.
pub uninterp spec fn build_flags(b: cc::Build) -> Seq<Seq<char>>;

/// The source files that a `cc::Build` holds, in the order they were added.
pub uninterp spec fn build_files(b: cc::Build) -> Seq<Seq<char>>;

/// Relies on `cc::Build::includes`, given one directory: appends `dir` to the header
/// search directories.
#[verifier::external_body]
pub(crate) fn add_include_dir(b: &mut cc::Build, dir: &str)
    ensures
        build_includes(*final(b)) == build_includes(*old(b)).push(dir@),
        build_flags(*final(b)) == build_flags(*old(b)),
        build_files(*final(b)) == build_files(*old(b)),
{
    b.includes([dir]);
}

/// Relies on `cc::Build::flag`: appends `flag` to the compiler flags.
#[verifier::external_body]
pub(crate) fn add_flag(b: &mut cc::Build, flag: &str)
    ensures
        build_includes(*final(b)) == build_includes(*old(b)),
        build_flags(*final(b)) == build_flags(*old(b)).push(flag@),
        build_files(*final(b)) == build_files(*old(b)),
{
    b.flag(flag);
}

/// Relies on `cc::Build::file`: appends `file` to the sources to compile.
#[verifier::external_body]
pub(crate) fn add_file(b: &mut cc::Build, file: &str)
    ensures
        build_includes(*final(b)) == build_includes(*old(b)),
        build_flags(*final(b)) == build_flags(*old(b)),
        build_files(*final(b)) == build_files(*old(b)).push(file@),
{
    b.file(file);
}

/// The name of the static library built for the package `package`.
pub open spec fn library_name(package: Seq<char>) -> Seq<char> {
    package + "_upb_gen_code"@
}

/// The name under which the generated code of `package` is archived and linked.
pub fn static_library_name(package: &str) -> (r: String)
    ensures
        r@ == library_name(package@),
{
    let mut s = String::from_str(package);
    s.append("_upb_gen_code");
    s
}

} // verus!
