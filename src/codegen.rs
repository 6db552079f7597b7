//! The code generation configuration and the two steps it drives: running the
//! protobuf compiler, and compiling what it generated.

use vstd::prelude::*;
use crate::c_build::{
    add_file, add_flag, add_include_dir, build_files, build_flags, build_includes,
};
use crate::paths::{
    bundled_tool, extension_set, join_path, joined, protoc_gen_upb_minitable_path, protoc_path,
    no_separator, same_text, set_extension,
};

verus! {

/// The subdirectory of the build's output directory that receives generated code
/// unless another output directory is set.
pub open spec fn default_output_dir(out_dir: Seq<char>) -> Seq<char> {
    joined(out_dir, "protobuf_generated"@)
}

/// The configuration as plain values.
pub struct CodeGenView {
    pub inputs: Seq<Seq<char>>,
    pub output_dir: Seq<char>,
    pub protoc_path: Option<Seq<char>>,
    pub protoc_gen_upb_minitable_path: Option<Seq<char>>,
    pub includes: Seq<Seq<char>>,
}

/// The schema files to compile, where the generated code goes, the tools to use
/// where the bundled ones are not wanted, and the directories searched for imports.
#[derive(Debug)]
pub struct CodeGen {
    inputs: Vec<String>,
    output_dir: String,
    protoc_path: Option<String>,
    protoc_gen_upb_minitable_path: Option<String>,
    includes: Vec<String>,
}

/// The texts of a sequence of strings.
pub open spec fn string_views(v: Seq<String>) -> Seq<Seq<char>> {
    v.map_values(|s: String| s@)
}

/// The texts of a sequence of string slices.
pub open spec fn str_views(v: Seq<&str>) -> Seq<Seq<char>> {
    v.map_values(|s: &str| s@)
}

/// The text of an optional string.
pub open spec fn option_view(o: Option<String>) -> Option<Seq<char>> {
    match o {
        Some(s) => Some(s@),
        None => None,
    }
}

/// What can go wrong while generating or compiling.
#[derive(Debug)]
pub enum CodegenError {
    /// A schema file path has no file name whose extension could be replaced.
    InputWithoutFileName(String),
    /// A file that generation should have written is not there.
    MissingGeneratedFile(String),
    /// This helper and the protobuf runtime it generates code for differ in version.
    VersionMismatch { helper: String, dependency: String },
    /// No tool path was set and no prebuilt tools exist for this platform.
    UnsupportedPlatform,
}

/// The sentence that describes an error.
pub open spec fn error_message(e: CodegenError) -> Seq<char> {
    match e {
        CodegenError::InputWithoutFileName(p) => "input path "@ + p@ + " has no file name"@,
        CodegenError::MissingGeneratedFile(p) => "expected generated file "@ + p@
            + " does not exist"@,
        CodegenError::VersionMismatch { helper, dependency } => "protobuf-codegen version "@
            + helper@ + " does not match protobuf version "@ + dependency@ + "."@,
        CodegenError::UnsupportedPlatform => "no prebuilt protoc for this platform"@,
    }
}

impl CodegenError {
    /// A sentence that describes the error.
    pub fn message(&self) -> (r: String)
        ensures
            r@ == error_message(*self),
    {
        match self {
            CodegenError::InputWithoutFileName(p) => {
                let mut s = String::from_str("input path ");
                s.append(p.as_str());
                s.append(" has no file name");
                s
            },
            CodegenError::MissingGeneratedFile(p) => {
                let mut s = String::from_str("expected generated file ");
                s.append(p.as_str());
                s.append(" does not exist");
                s
            },
            CodegenError::VersionMismatch { helper, dependency } => {
                let mut s = String::from_str("protobuf-codegen version ");
                s.append(helper.as_str());
                s.append(" does not match protobuf version ");
                s.append(dependency.as_str());
                s.append(".");
                s
            },
            CodegenError::UnsupportedPlatform => String::from_str("no prebuilt protoc for this platform"),
        }
    }
}

/// The error for a missing generated file names that exact file: its message
/// holds the path as it was reported.
pub proof fn missing_file_message_names_path(path: String)
    ensures
        error_message(CodegenError::MissingGeneratedFile(path)).subrange(
            "expected generated file "@.len() as int,
            "expected generated file "@.len() + path@.len() as int,
        ) == path@,
{
    let m = error_message(CodegenError::MissingGeneratedFile(path));
    let k = "expected generated file "@.len() as int;
    assert(m.subrange(k, k + path@.len()) =~= path@);
}

/// The extension given to the generated Rust source of each schema file.
pub open spec fn rs_extension() -> Seq<char> {
    "u.pb.rs"@
}

/// The extension given to the generated minitable C source of each schema file.
pub open spec fn c_extension() -> Seq<char> {
    "upb_minitable.c"@
}

/// Where the file generated from `input` with extension `ext` lands below `out`.
pub open spec fn generated_path(out: Seq<char>, input: Seq<char>, ext: Seq<char>) -> Seq<char> {
    joined(out, extension_set(input, ext).1)
}

/// Every input has a file name whose extension can be set to `ext`.
pub open spec fn all_named(v: CodeGenView, ext: Seq<char>) -> bool {
    forall|i: int| 0 <= i < v.inputs.len() ==> (#[trigger] extension_set(v.inputs[i], ext)).0
}

/// Input `i` is the first whose extension cannot be set to `ext`.
pub open spec fn first_unnamed(v: CodeGenView, ext: Seq<char>, i: int) -> bool {
    &&& 0 <= i < v.inputs.len()
    &&& !extension_set(v.inputs[i], ext).0
    &&& forall|j: int| 0 <= j < i ==> (#[trigger] extension_set(v.inputs[j], ext)).0
}

/// The files generated with extension `ext`, one per input, in input order.
pub open spec fn generated_paths(v: CodeGenView, ext: Seq<char>) -> Seq<Seq<char>> {
    Seq::new(v.inputs.len(), |i: int| generated_path(v.output_dir, v.inputs[i], ext))
}

/// The files that generation must leave behind: the Rust sources, then the C sources.
pub open spec fn expected_files(v: CodeGenView) -> Seq<Seq<char>> {
    generated_paths(v, rs_extension()) + generated_paths(v, c_extension())
}

/// The outcome of deriving the generated files with extension `ext`.
pub open spec fn derived_files(v: CodeGenView, ext: Seq<char>, r: Result<Vec<String>, CodegenError>) -> bool {
    &&& (r is Ok <==> all_named(v, ext))
    &&& r matches Ok(files) ==> string_views(files@) == generated_paths(v, ext)
    &&& r matches Err(e) ==> exists|i: int| #[trigger]
        first_unnamed(v, ext, i) && (e matches CodegenError::InputWithoutFileName(p) && p@
            == v.inputs[i])
}

/// The command line arguments of the protobuf compiler: the inputs, the output and
/// plugin options, then one search option per import directory.
pub open spec fn protoc_args(v: CodeGenView, plugin: Seq<char>) -> Seq<Seq<char>> {
    v.inputs + seq![
        "--rust_out="@ + v.output_dir,
        "--rust_opt=experimental-codegen=enabled,kernel=upb"@,
        "--plugin=protoc-gen-upb_minitable="@ + plugin,
        "--upb_minitable_out="@ + v.output_dir,
    ] + v.includes.map_values(|d: Seq<char>| "--proto_path="@ + d)
}

/// A tool set in the configuration, else the bundled one.
pub open spec fn resolved_tool(set: Option<Seq<char>>, bundled: Option<Seq<char>>) -> Option<
    Seq<char>,
> {
    match set {
        Some(p) => Some(p),
        None => bundled,
    }
}

/// A run of the protobuf compiler, as decided from the configuration.
#[derive(Debug)]
pub struct ProtocInvocation {
    /// The compiler to run.
    pub program: String,
    /// Its arguments.
    pub args: Vec<String>,
    /// The directory that receives its output, created first where missing.
    pub output_dir: String,
    /// Paths whose change should trigger a new build.
    pub watched: Vec<String>,
}

/// `a` followed by `b`.
fn concat(a: &str, b: &str) -> (r: String)
    ensures
        r@ == a@ + b@,
{
    let mut s = String::from_str(a);
    s.append(b);
    s
}

proof fn lemma_views_push(v: Seq<String>, s: String)
    ensures
        string_views(v.push(s)) == string_views(v).push(s@),
{
    assert(string_views(v.push(s)) =~= string_views(v).push(s@));
}

/// The outcome of planning the compiler run: a version mismatch aborts before
/// anything else, then each tool must be set or bundled for the platform.
pub open spec fn planned_invocation(
    v: CodeGenView,
    helper_version: Seq<char>,
    dependency_version: Seq<char>,
    manifest_dir: Seq<char>,
    os: Seq<char>,
    arch: Seq<char>,
    r: Result<ProtocInvocation, CodegenError>,
) -> bool {
    let protoc = resolved_tool(v.protoc_path, bundled_tool(manifest_dir, os, arch, "protoc"@));
    let plugin = resolved_tool(
        v.protoc_gen_upb_minitable_path,
        bundled_tool(manifest_dir, os, arch, "protoc-gen-upb_minitable"@),
    );
    if helper_version != dependency_version {
        r matches Err(CodegenError::VersionMismatch { helper, dependency }) && helper@
            == helper_version && dependency@ == dependency_version
    } else if protoc is None || plugin is None {
        r matches Err(CodegenError::UnsupportedPlatform)
    } else {
        r matches Ok(inv) && inv.program@ == protoc->Some_0 && string_views(inv.args@)
            == protoc_args(v, plugin->Some_0) && inv.output_dir@ == v.output_dir && string_views(
            inv.watched@,
        ) == v.includes
    }
}

/// Input file `i` is the first that `present` reports missing.
pub open spec fn first_missing(present: Seq<bool>, i: int) -> bool {
    &&& 0 <= i < present.len()
    &&& !present[i]
    &&& forall|j: int| 0 <= j < i ==> #[trigger] present[j]
}

/// The outcome of the compile step on top of the build `base`, where `present`
/// tells for each of `expected_files` whether it exists.
pub open spec fn planned_build(
    v: CodeGenView,
    base: cc::Build,
    present: Seq<bool>,
    r: Result<cc::Build, CodegenError>,
) -> bool {
    if !all_named(v, rs_extension()) {
        exists|i: int| #[trigger]
            first_unnamed(v, rs_extension(), i) && (r matches Err(
                CodegenError::InputWithoutFileName(p),
            ) && p@ == v.inputs[i])
    } else if !all_named(v, c_extension()) {
        exists|i: int| #[trigger]
            first_unnamed(v, c_extension(), i) && (r matches Err(
                CodegenError::InputWithoutFileName(p),
            ) && p@ == v.inputs[i])
    } else if exists|i: int| 0 <= i < present.len() && !#[trigger] present[i] {
        exists|i: int| #[trigger]
            first_missing(present, i) && (r matches Err(CodegenError::MissingGeneratedFile(p))
                && p@ == expected_files(v)[i])
    } else {
        r matches Ok(b) && build_includes(b) == build_includes(base).push(v.output_dir)
            && build_flags(b) == build_flags(base).push("-std=c99"@) && build_files(b)
            == build_files(base) + generated_paths(v, c_extension())
    }
}

impl View for CodeGen {
    type V = CodeGenView;

    closed spec fn view(&self) -> CodeGenView {
        CodeGenView {
            inputs: string_views(self.inputs@),
            output_dir: self.output_dir@,
            protoc_path: option_view(self.protoc_path),
            protoc_gen_upb_minitable_path: option_view(self.protoc_gen_upb_minitable_path),
            includes: string_views(self.includes@),
        }
    }
}

/// Appends a copy of `s`.
fn push_view(v: &mut Vec<String>, s: &str)
    ensures
        string_views(final(v)@) == string_views(old(v)@).push(s@),
{
    v.push(String::from_str(s));
    assert(string_views(final(v)@) =~= string_views(old(v)@).push(s@));
}

/// Appends copies of `items`, in order.
fn extend_views(v: &mut Vec<String>, items: &[&str])
    ensures
        string_views(final(v)@) == string_views(old(v)@) + str_views(items@),
{
    let mut i: usize = 0;
    while i < items.len()
        invariant
            0 <= i <= items@.len(),
            string_views(v@) == string_views(old(v)@) + str_views(items@.subrange(0, i as int)),
        decreases items@.len() - i,
    {
        push_view(v, items[i]);
        i = i + 1;
        assert(str_views(items@.subrange(0, i as int)) =~= str_views(
            items@.subrange(0, i - 1 as int),
        ).push(items@[i - 1]@));
        assert(string_views(v@) =~= string_views(old(v)@) + str_views(
            items@.subrange(0, i as int),
        ));
    }
    assert(items@.subrange(0, i as int) =~= items@);
}

impl CodeGen {
    /// A configuration with no inputs and no search directories, which writes into
    /// `protobuf_generated` below the build's output directory `out_dir`.
    pub fn new(out_dir: &str) -> (r: Self)
        ensures
            r@ == (CodeGenView {
                inputs: Seq::empty(),
                output_dir: default_output_dir(out_dir@),
                protoc_path: None,
                protoc_gen_upb_minitable_path: None,
                includes: Seq::empty(),
            }),
    {
        let r = CodeGen {
            inputs: Vec::new(),
            output_dir: join_path(out_dir, "protobuf_generated"),
            protoc_path: None,
            protoc_gen_upb_minitable_path: None,
            includes: Vec::new(),
        };
        assert(string_views(r.inputs@) =~= Seq::empty());
        assert(string_views(r.includes@) =~= Seq::empty());
        r
    }

    /// Adds one schema file to compile.
    pub fn input(&mut self, input: &str) -> (r: &mut Self)
        ensures
            r@ == (CodeGenView { inputs: old(self)@.inputs.push(input@), ..old(self)@ }),
            *final(self) == *final(r),
    {
        push_view(&mut self.inputs, input);
        self
    }

    /// Adds schema files to compile, in order.
    pub fn inputs(&mut self, inputs: &[&str]) -> (r: &mut Self)
        ensures
            r@ == (CodeGenView { inputs: old(self)@.inputs + str_views(inputs@), ..old(self)@ }),
            *final(self) == *final(r),
    {
        extend_views(&mut self.inputs, inputs);
        self
    }

    /// Sets the directory that receives the generated code.
    pub fn output_dir(&mut self, output_dir: &str) -> (r: &mut Self)
        requires
            output_dir@.len() > 0,
        ensures
            r@ == (CodeGenView { output_dir: output_dir@, ..old(self)@ }),
            *final(self) == *final(r),
    {
        self.output_dir = String::from_str(output_dir);
        self
    }

    /// Uses the protobuf compiler at `protoc_path` in place of the bundled one.
    pub fn protoc_path(&mut self, protoc_path: &str) -> (r: &mut Self)
        ensures
            r@ == (CodeGenView { protoc_path: Some(protoc_path@), ..old(self)@ }),
            *final(self) == *final(r),
    {
        self.protoc_path = Some(String::from_str(protoc_path));
        self
    }

    /// Uses the minitable plugin at `protoc_gen_upb_minitable_path` in place of the
    /// bundled one.
    pub fn protoc_gen_upb_minitable_path(&mut self, protoc_gen_upb_minitable_path: &str) -> (r:
        &mut Self)
        ensures
            r@ == (CodeGenView {
                protoc_gen_upb_minitable_path: Some(protoc_gen_upb_minitable_path@),
                ..old(self)@
            }),
            *final(self) == *final(r),
    {
        self.protoc_gen_upb_minitable_path = Some(String::from_str(protoc_gen_upb_minitable_path));
        self
    }

    /// Adds one directory in which imports are searched.
    pub fn include_dir(&mut self, dir: &str) -> (r: &mut Self)
        ensures
            r@ == (CodeGenView { includes: old(self)@.includes.push(dir@), ..old(self)@ }),
            *final(self) == *final(r),
    {
        push_view(&mut self.includes, dir);
        self
    }

    /// Adds directories in which imports are searched, in order.
    pub fn includes(&mut self, dirs: &[&str]) -> (r: &mut Self)
        ensures
            r@ == (CodeGenView { includes: old(self)@.includes + str_views(dirs@), ..old(self)@ }),
            *final(self) == *final(r),
    {
        extend_views(&mut self.includes, dirs);
        self
    }

    /// The generated files with extension `ext`, one per input.
    fn files_with_extension(&self, ext: &str) -> (r: Result<Vec<String>, CodegenError>)
        requires
            no_separator(ext@),
        ensures
            derived_files(self@, ext@, r),
    {
        let mut files: Vec<String> = Vec::new();
        let mut i: usize = 0;
        while i < self.inputs.len()
            invariant
                0 <= i <= self.inputs@.len(),
                no_separator(ext@),
                forall|j: int| 0 <= j < i ==> (#[trigger] extension_set(self@.inputs[j], ext@)).0,
                string_views(files@) == generated_paths(self@, ext@).subrange(0, i as int),
            decreases self.inputs@.len() - i,
        {
            assert(self@.inputs[i as int] == self.inputs@[i as int]@);
            let (ok, renamed) = set_extension(self.inputs[i].as_str(), ext);
            if !ok {
                assert(first_unnamed(self@, ext@, i as int));
                return Err(CodegenError::InputWithoutFileName(self.inputs[i].clone()));
            }
            let path = join_path(self.output_dir.as_str(), renamed.as_str());
            let ghost prev = files@;
            files.push(path);
            proof {
                lemma_views_push(prev, path);
                assert(path@ == generated_paths(self@, ext@)[i as int]);
            }
            i = i + 1;
            assert(string_views(files@) =~= generated_paths(self@, ext@).subrange(0, i as int));
        }
        assert(generated_paths(self@, ext@).subrange(0, i as int) =~= generated_paths(self@, ext@));
        Ok(files)
    }

    /// The Rust sources that generation writes, one per input, in input order.
    /// An input without a file name (empty, `..`, a root) has no generated file:
    /// that is reported as an error naming the first such input, so that the
    /// caller decides whether to stop, rather than taken as a broken invariant.
    pub fn expected_generated_rs_files(&self) -> (r: Result<Vec<String>, CodegenError>)
        ensures
            derived_files(self@, rs_extension(), r),
    {
        proof {
            reveal_strlit("u.pb.rs");
        }
        self.files_with_extension("u.pb.rs")
    }

    /// The minitable C sources that generation writes, one per input, in input
    /// order. An input without a file name is reported as an error naming the
    /// first such input, as for the Rust sources.
    pub fn expected_generated_c_files(&self) -> (r: Result<Vec<String>, CodegenError>)
        ensures
            derived_files(self@, c_extension(), r),
    {
        proof {
            reveal_strlit("upb_minitable.c");
        }
        self.files_with_extension("upb_minitable.c")
    }

    /// The arguments of the protobuf compiler, with `plugin` as the minitable plugin.
    pub fn protoc_arguments(&self, plugin: &str) -> (r: Vec<String>)
        ensures
            string_views(r@) == protoc_args(self@, plugin@),
    {
        let mut args: Vec<String> = Vec::new();
        let mut i: usize = 0;
        while i < self.inputs.len()
            invariant
                0 <= i <= self.inputs@.len(),
                string_views(args@) == self@.inputs.subrange(0, i as int),
            decreases self.inputs@.len() - i,
        {
            assert(self@.inputs[i as int] == self.inputs@[i as int]@);
            let ghost prev = args@;
            let a = self.inputs[i].clone();
            args.push(a);
            proof {
                lemma_views_push(prev, a);
            }
            i = i + 1;
            assert(string_views(args@) =~= self@.inputs.subrange(0, i as int));
        }
        assert(self@.inputs.subrange(0, i as int) =~= self@.inputs);
        args.push(concat("--rust_out=", self.output_dir.as_str()));
        args.push(String::from_str("--rust_opt=experimental-codegen=enabled,kernel=upb"));
        args.push(concat("--plugin=protoc-gen-upb_minitable=", plugin));
        args.push(concat("--upb_minitable_out=", self.output_dir.as_str()));
        let ghost fixed = protoc_args(self@, plugin@).subrange(0, self@.inputs.len() + 4 as int);
        assert(string_views(args@) =~= fixed);
        let mut k: usize = 0;
        while k < self.includes.len()
            invariant
                0 <= k <= self.includes@.len(),
                self@.inputs.len() == self.inputs@.len(),
                string_views(args@) == protoc_args(self@, plugin@).subrange(
                    0,
                    self@.inputs.len() + 4 + k as int,
                ),
            decreases self.includes@.len() - k,
        {
            assert(self@.includes[k as int] == self.includes@[k as int]@);
            let ghost prev = args@;
            let a = concat("--proto_path=", self.includes[k].as_str());
            args.push(a);
            proof {
                lemma_views_push(prev, a);
            }
            k = k + 1;
            assert(string_views(args@) =~= protoc_args(self@, plugin@).subrange(
                0,
                self@.inputs.len() + 4 + k as int,
            ));
        }
        assert(protoc_args(self@, plugin@).subrange(0, self@.inputs.len() + 4 + k as int) =~= protoc_args(
            self@,
            plugin@,
        ));
        args
    }

    /// The tool set in the configuration, else the bundled one.
    fn resolve_tool(set: &Option<String>, bundled: Option<String>) -> (r: Option<String>)
        ensures
            option_view(r) == resolved_tool(option_view(*set), option_view(bundled)),
    {
        match set {
            Some(p) => Some(p.clone()),
            None => bundled,
        }
    }

    /// Decides the protobuf compiler run: aborts where `helper_version` differs from
    /// the runtime's `dependency_version`, and otherwise uses the tools set here or
    /// those bundled under `manifest_dir` for `os` and `arch`.
    pub fn protoc_invocation(
        &self,
        helper_version: &str,
        dependency_version: &str,
        manifest_dir: &str,
        os: &str,
        arch: &str,
    ) -> (r: Result<ProtocInvocation, CodegenError>)
        ensures
            planned_invocation(self@, helper_version@, dependency_version@, manifest_dir@, os@, arch@, r),
    {
        if !same_text(helper_version, dependency_version) {
            return Err(
                CodegenError::VersionMismatch {
                    helper: String::from_str(helper_version),
                    dependency: String::from_str(dependency_version),
                },
            );
        }
        let protoc = Self::resolve_tool(&self.protoc_path, protoc_path(manifest_dir, os, arch));
        let program = match protoc {
            Some(p) => p,
            None => return Err(CodegenError::UnsupportedPlatform),
        };
        let plugin = Self::resolve_tool(
            &self.protoc_gen_upb_minitable_path,
            protoc_gen_upb_minitable_path(manifest_dir, os, arch),
        );
        let plugin = match plugin {
            Some(p) => p,
            None => return Err(CodegenError::UnsupportedPlatform),
        };
        let args = self.protoc_arguments(plugin.as_str());
        let watched = self.includes.clone();
        assert(string_views(watched@) =~= self@.includes);
        Ok(ProtocInvocation { program, args, output_dir: self.output_dir.clone(), watched })
    }

    /// Adds to `base`, which already names the runtime's header directory, what
    /// the generated code needs: the output directory as a header directory, C99,
    /// and the generated C sources. `present` tells for each of the expected
    /// files, the Rust sources then the C sources, whether it exists; the first
    /// missing one is reported.
    pub fn compile_only(&self, base: cc::Build, present: &Vec<bool>) -> (r: Result<
        cc::Build,
        CodegenError,
    >)
        requires
            present@.len() == 2 * self@.inputs.len(),
        ensures
            planned_build(self@, base, present@, r),
    {
        let rs_files = match self.expected_generated_rs_files() {
            Ok(f) => f,
            Err(e) => return Err(e),
        };
        let c_files = match self.expected_generated_c_files() {
            Ok(f) => f,
            Err(e) => return Err(e),
        };
        let ghost base0 = base;
        let mut b = base;
        add_include_dir(&mut b, self.output_dir.as_str());
        add_flag(&mut b, "-std=c99");
        let n = rs_files.len();
        assert(string_views(rs_files@).len() == n);
        assert(string_views(c_files@).len() == n);
        let ghost expected = expected_files(self@);
        assert(expected.len() == 2 * n);
        let mut i: usize = 0;
        while i < n
            invariant
                0 <= i <= n,
                n == self@.inputs.len(),
                present@.len() == 2 * n,
                rs_files@.len() == n,
                string_views(rs_files@) == generated_paths(self@, rs_extension()),
                expected == expected_files(self@),
                all_named(self@, rs_extension()),
                all_named(self@, c_extension()),
                forall|j: int| 0 <= j < i ==> #[trigger] present@[j],
                build_includes(b) == build_includes(base0).push(self@.output_dir),
                build_flags(b) == build_flags(base0).push("-std=c99"@),
                build_files(b) == build_files(base0),
            decreases n - i,
        {
            if !present[i] {
                assert(first_missing(present@, i as int));
                assert(!present@[i as int]);
                assert(expected[i as int] == rs_files@[i as int]@);
                let missing = rs_files[i].clone();
                assert(missing@ == expected[i as int]);
                return Err(CodegenError::MissingGeneratedFile(missing));
            }
            i = i + 1;
        }
        let total = present.len();
        let mut k: usize = 0;
        while k < n
            invariant
                0 <= k <= n,
                total == present@.len(),
                n == self@.inputs.len(),
                present@.len() == 2 * n,
                c_files@.len() == n,
                string_views(c_files@) == generated_paths(self@, c_extension()),
                expected == expected_files(self@),
                all_named(self@, rs_extension()),
                all_named(self@, c_extension()),
                forall|j: int| 0 <= j < n + k ==> #[trigger] present@[j],
                build_includes(b) == build_includes(base0).push(self@.output_dir),
                build_flags(b) == build_flags(base0).push("-std=c99"@),
                build_files(b) == build_files(base0) + generated_paths(
                    self@,
                    c_extension(),
                ).subrange(0, k as int),
            decreases n - k,
        {
            if !present[n + k] {
                assert(first_missing(present@, n + k));
                assert(!present@[n + k]);
                assert(expected[n + k] == c_files@[k as int]@);
                let missing = c_files[k].clone();
                assert(missing@ == expected[n + k]);
                return Err(CodegenError::MissingGeneratedFile(missing));
            }
            assert(c_files@[k as int]@ == generated_paths(self@, c_extension())[k as int]);
            add_file(&mut b, c_files[k].as_str());
            k = k + 1;
            assert(build_files(b) =~= build_files(base0) + generated_paths(
                self@,
                c_extension(),
            ).subrange(0, k as int));
        }
        assert(generated_paths(self@, c_extension()).subrange(0, k as int) =~= generated_paths(
            self@,
            c_extension(),
        ));
        Ok(b)
    }
}

} // verus!
