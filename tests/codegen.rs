use protobuf_codegen::{
    get_path_for_arch, protoc_gen_upb_minitable_path, protoc_path, static_library_name, CodeGen,
    CodegenError,
};

fn upb_build() -> cc::Build {
    let mut b = cc::Build::new();
    b.includes(["/upb"]);
    b
}

fn strings(v: &[&str]) -> Vec<String> {
    v.iter().map(|s| s.to_string()).collect()
}

#[test]
fn generated_paths_replace_extension_below_output_dir() {
    let mut cg = CodeGen::new("/out");
    cg.input("protos/a.proto").input("b.proto");
    let rs = cg.expected_generated_rs_files().unwrap();
    assert_eq!(
        rs,
        strings(&["/out/protobuf_generated/protos/a.u.pb.rs", "/out/protobuf_generated/b.u.pb.rs"])
    );
    let c = cg.expected_generated_c_files().unwrap();
    assert_eq!(
        c,
        strings(&[
            "/out/protobuf_generated/protos/a.upb_minitable.c",
            "/out/protobuf_generated/b.upb_minitable.c",
        ])
    );
}

#[test]
fn output_dir_override_is_used() {
    let mut cg = CodeGen::new("/out");
    cg.output_dir("/gen").inputs(&["x/y.proto"]);
    assert_eq!(cg.expected_generated_rs_files().unwrap(), strings(&["/gen/x/y.u.pb.rs"]));
    assert_eq!(cg.expected_generated_c_files().unwrap(), strings(&["/gen/x/y.upb_minitable.c"]));
}

#[test]
fn input_without_extension_gets_one() {
    let mut cg = CodeGen::new("/out");
    cg.output_dir("/gen").input("schema");
    assert_eq!(cg.expected_generated_rs_files().unwrap(), strings(&["/gen/schema.u.pb.rs"]));
}

#[test]
fn no_inputs_no_expected_files() {
    let cg = CodeGen::new("/out");
    assert!(cg.expected_generated_rs_files().unwrap().is_empty());
    assert!(cg.expected_generated_c_files().unwrap().is_empty());
}

#[test]
fn input_without_file_name_is_reported() {
    let mut cg = CodeGen::new("/out");
    cg.input("a.proto").input("dir/..");
    match cg.expected_generated_rs_files() {
        Err(CodegenError::InputWithoutFileName(p)) => assert_eq!(p, "dir/.."),
        other => panic!("unexpected {:?}", other),
    }
    let e = cg.compile_only(upb_build(), &vec![true; 4]).unwrap_err();
    assert_eq!(e.message(), "input path dir/.. has no file name");
}

#[test]
fn protoc_arguments_in_order() {
    let mut cg = CodeGen::new("/out");
    cg.output_dir("/gen").inputs(&["a.proto", "b.proto"]).include_dir("i1").includes(&["i2", "i3"]);
    assert_eq!(
        cg.protoc_arguments("/plugin"),
        strings(&[
            "a.proto",
            "b.proto",
            "--rust_out=/gen",
            "--rust_opt=experimental-codegen=enabled,kernel=upb",
            "--plugin=protoc-gen-upb_minitable=/plugin",
            "--upb_minitable_out=/gen",
            "--proto_path=i1",
            "--proto_path=i2",
            "--proto_path=i3",
        ])
    );
}

#[test]
fn version_mismatch_aborts_first() {
    let mut cg = CodeGen::new("/out");
    cg.input("a.proto");
    let e = cg.protoc_invocation("4.31.0", "4.30.0", "/m", "plan9", "mips").unwrap_err();
    match &e {
        CodegenError::VersionMismatch { helper, dependency } => {
            assert_eq!(helper, "4.31.0");
            assert_eq!(dependency, "4.30.0");
        }
        other => panic!("unexpected {:?}", other),
    }
    assert_eq!(
        e.message(),
        "protobuf-codegen version 4.31.0 does not match protobuf version 4.30.0."
    );
}

#[test]
fn unsupported_platform_without_overrides() {
    let cg = CodeGen::new("/out");
    let e = cg.protoc_invocation("1.0", "1.0", "/m", "plan9", "mips").unwrap_err();
    assert!(matches!(e, CodegenError::UnsupportedPlatform));
    let mut cg = CodeGen::new("/out");
    cg.protoc_path("/usr/bin/protoc");
    let e = cg.protoc_invocation("1.0", "1.0", "/m", "plan9", "mips").unwrap_err();
    assert!(matches!(e, CodegenError::UnsupportedPlatform));
}

#[test]
fn overrides_work_on_any_platform() {
    let mut cg = CodeGen::new("/out");
    cg.input("a.proto")
        .include_dir("inc")
        .protoc_path("/usr/bin/protoc")
        .protoc_gen_upb_minitable_path("/usr/bin/plug");
    let inv = cg.protoc_invocation("1.0", "1.0", "/m", "plan9", "mips").unwrap();
    assert_eq!(inv.program, "/usr/bin/protoc");
    assert_eq!(inv.output_dir, "/out/protobuf_generated");
    assert_eq!(inv.watched, strings(&["inc"]));
    assert_eq!(inv.args, cg.protoc_arguments("/usr/bin/plug"));
}

#[test]
fn bundled_tools_on_supported_platform() {
    let mut cg = CodeGen::new("/out");
    cg.input("a.proto");
    let inv = cg.protoc_invocation("1.0", "1.0", "/m", "linux", "x86_64").unwrap();
    assert_eq!(inv.program, "/m/bin/linux-x86_64/protoc");
    assert!(inv
        .args
        .contains(&"--plugin=protoc-gen-upb_minitable=/m/bin/linux-x86_64/protoc-gen-upb_minitable".to_string()));
}

#[test]
fn platform_table() {
    let cases = [
        ("macos", "x86_64", "osx-x86_64"),
        ("macos", "aarch64", "osx-aarch_64"),
        ("linux", "aarch64", "linux-aarch_64"),
        ("linux", "powerpc64", "linux-ppcle_64"),
        ("linux", "s390x", "linux-s390_64"),
        ("linux", "x86", "linux-x86_32"),
        ("linux", "x86_64", "linux-x86_64"),
        ("windows", "x86", "win32"),
        ("windows", "x86_64", "win64"),
    ];
    for (os, arch, dir) in cases {
        assert_eq!(get_path_for_arch("/m", os, arch), Some(format!("/m/bin/{}", dir)));
        assert_eq!(protoc_path("/m", os, arch), Some(format!("/m/bin/{}/protoc", dir)));
        assert_eq!(
            protoc_gen_upb_minitable_path("/m", os, arch),
            Some(format!("/m/bin/{}/protoc-gen-upb_minitable", dir))
        );
    }
}

#[test]
fn unsupported_platform_has_no_path() {
    assert_eq!(get_path_for_arch("/m", "macos", "x86"), None);
    assert_eq!(protoc_path("/m", "freebsd", "x86_64"), None);
    assert_eq!(protoc_gen_upb_minitable_path("/m", "windows", "aarch64"), None);
    assert_eq!(protoc_path("/m", "", ""), None);
}

#[test]
fn missing_rust_source_is_reported() {
    let mut cg = CodeGen::new("/out");
    cg.output_dir("/gen").inputs(&["a.proto", "b.proto"]);
    let e = cg.compile_only(upb_build(), &vec![true, false, false, true]).unwrap_err();
    match &e {
        CodegenError::MissingGeneratedFile(p) => assert_eq!(p, "/gen/b.u.pb.rs"),
        other => panic!("unexpected {:?}", other),
    }
    assert_eq!(e.message(), "expected generated file /gen/b.u.pb.rs does not exist");
}

#[test]
fn missing_c_source_is_reported() {
    let mut cg = CodeGen::new("/out");
    cg.output_dir("/gen").inputs(&["a.proto", "b.proto"]);
    let e = cg.compile_only(upb_build(), &vec![true, true, true, false]).unwrap_err();
    match e {
        CodegenError::MissingGeneratedFile(p) => assert_eq!(p, "/gen/b.upb_minitable.c"),
        other => panic!("unexpected {:?}", other),
    }
}

#[test]
fn all_present_configures_build() {
    let mut cg = CodeGen::new("/out");
    cg.output_dir("/gen").inputs(&["a.proto", "b.proto"]);
    assert!(cg.compile_only(upb_build(), &vec![true; 4]).is_ok());
    assert!(CodeGen::new("/out").compile_only(upb_build(), &vec![]).is_ok());
}

#[test]
fn library_name_from_package() {
    assert_eq!(static_library_name("my_pkg"), "my_pkg_upb_gen_code");
}

#[test]
fn unsupported_platform_message() {
    assert_eq!(CodegenError::UnsupportedPlatform.message(), "no prebuilt protoc for this platform");
}

#[test]
fn missing_rust_source_checked_before_c_source() {
    let mut cg = CodeGen::new("/build");
    cg.input("a.proto").output_dir("out");
    let e = cg.compile_only(upb_build(), &vec![false, false]).unwrap_err();
    assert_eq!(e.message(), "expected generated file out/a.u.pb.rs does not exist");
}

#[test]
fn missing_c_source_after_rust_source_present() {
    let mut cg = CodeGen::new("/build");
    cg.input("a.proto").output_dir("out");
    let e = cg.compile_only(upb_build(), &vec![true, false]).unwrap_err();
    assert_eq!(e.message(), "expected generated file out/a.upb_minitable.c does not exist");
}
