use aws_lc_builder::bindings::{
    generate_bindings, generate_src_bindings, materialize_bindings, target_platform_prefix,
    BindingJob,
};
use aws_lc_builder::directives::{include_staging_dir, link_directives, publish_directives, Directive};
use aws_lc_builder::error::BuildError;
use aws_lc_builder::linkage::{prefix_string, OutputLibType};
use aws_lc_builder::native_build::{
    build_rust_wrapper, prepare_cmake_build, CmakeDefine, DefineValue, NativeBuildSettings,
    ToolOverride,
};
use aws_lc_builder::paths::{
    artifact_output_dir, get_aws_lc_include_path, get_aws_lc_rand_extra_path,
    get_aws_lc_sys_includes_path, get_generated_include_path, get_platform_output_path,
    get_rust_include_path, PathParts,
};
use aws_lc_builder::staging::{include_candidates, stage_entries, StagedEntry};
use aws_lc_builder::strategy::{resolve_binding_strategy, BindingStrategy, PlatformKey};

fn path(parts: &[&str]) -> PathParts {
    PathParts::from_parts(parts.iter().map(|p| p.to_string()).collect())
}

fn names(v: &[&str]) -> Vec<String> {
    v.iter().map(|p| p.to_string()).collect()
}

fn platform(os: &str, arch: &str, vendor: &str, target: &str) -> PlatformKey {
    PlatformKey {
        os: os.to_string(),
        arch: arch.to_string(),
        vendor: vendor.to_string(),
        target: target.to_string(),
    }
}

fn text(key: &str, value: &str) -> CmakeDefine {
    CmakeDefine { key: key.to_string(), value: DefineValue::Text(value.to_string()) }
}

fn settings(lib_type: OutputLibType, opt: &str, ssl: bool, asan: bool) -> NativeBuildSettings {
    NativeBuildSettings { lib_type, opt_level: opt.to_string(), ssl, asan }
}

fn link(kind: &str, name: &str) -> Directive {
    Directive::LinkLib { kind: kind.to_string(), name: name.to_string() }
}

#[test]
fn manifest_relative_paths() {
    let m = path(&["/", "src", "sys"]);
    assert_eq!(get_aws_lc_include_path(&m), path(&["/", "src", "sys", "aws-lc", "include"]));
    assert_eq!(
        get_aws_lc_rand_extra_path(&m),
        path(&["/", "src", "sys", "aws-lc", "crypto", "rand_extra"])
    );
    assert_eq!(get_rust_include_path(&m), path(&["/", "src", "sys", "include"]));
    assert_eq!(get_generated_include_path(&m), path(&["/", "src", "sys", "generated-include"]));
    assert_eq!(get_platform_output_path(), path(&[]));
    assert_eq!(artifact_output_dir(&m), path(&["/", "src", "sys", "build", "artifacts"]));
    assert_eq!(include_staging_dir(&m), path(&["/", "src", "sys", "include"]));
}

#[test]
fn extra_include_list() {
    assert_eq!(get_aws_lc_sys_includes_path(None), None);
    assert_eq!(
        get_aws_lc_sys_includes_path(Some("/a/b:/c")),
        Some(vec![path(&["/a/b"]), path(&["/c"])])
    );
    assert_eq!(get_aws_lc_sys_includes_path(Some("")), Some(vec![path(&[""])]));
    assert_eq!(get_aws_lc_sys_includes_path(Some("x:")), Some(vec![path(&["x"]), path(&[""])]));
}

#[test]
fn static_release_configuration() {
    let m = path(&["/", "m"]);
    let cfg = prepare_cmake_build(
        &m,
        "aws_lc_1_0_0_",
        &settings(OutputLibType::Static, "3", false, false),
        &platform("linux", "x86_64", "unknown", "x86_64-unknown-linux-gnu"),
    );
    assert_eq!(cfg.source_dir, m);
    assert_eq!(
        cfg.defines,
        vec![
            text("BUILD_SHARED_LIBS", "0"),
            text("CMAKE_BUILD_TYPE", "release"),
            text("BORINGSSL_PREFIX", "aws_lc_1_0_0_"),
            CmakeDefine {
                key: "BORINGSSL_PREFIX_HEADERS".to_string(),
                value: DefineValue::Path(path(&["/", "m", "generated-include"])),
            },
            text("BUILD_TESTING", "OFF"),
            text("BUILD_LIBSSL", "OFF"),
            text("DISABLE_PERL", "ON"),
            text("DISABLE_GO", "ON"),
        ]
    );
    assert!(cfg.tool_overrides.is_empty());
    assert!(cfg.configure_args.is_empty());
}

#[test]
fn optimization_buckets() {
    let p = platform("linux", "x86_64", "unknown", "x86_64-unknown-linux-gnu");
    let m = path(&["m"]);
    let build_type = |opt: &str| {
        prepare_cmake_build(&m, "p_", &settings(OutputLibType::Static, opt, false, false), &p)
            .defines
            .into_iter()
            .find(|d| d.key == "CMAKE_BUILD_TYPE")
            .map(|d| d.value)
    };
    assert_eq!(build_type("0"), None);
    assert_eq!(build_type("1"), Some(DefineValue::Text("relwithdebinfo".to_string())));
    assert_eq!(build_type("2"), Some(DefineValue::Text("relwithdebinfo".to_string())));
    assert_eq!(build_type("3"), Some(DefineValue::Text("release".to_string())));
    assert_eq!(build_type("s"), Some(DefineValue::Text("release".to_string())));
}

#[test]
fn dynamic_ssl_ios_simulator_with_sanitizer() {
    let cfg = build_rust_wrapper(
        &path(&["m"]),
        "aws_lc_1_0_0",
        &settings(OutputLibType::Dynamic, "0", true, true),
        &platform("ios", "aarch64", "apple", "aarch64-apple-ios-sim"),
    );
    assert_eq!(
        cfg.defines,
        vec![
            text("BUILD_SHARED_LIBS", "1"),
            text("BORINGSSL_PREFIX", "aws_lc_1_0_0_"),
            CmakeDefine {
                key: "BORINGSSL_PREFIX_HEADERS".to_string(),
                value: DefineValue::Path(path(&["m", "generated-include"])),
            },
            text("BUILD_TESTING", "OFF"),
            text("BUILD_LIBSSL", "ON"),
            text("DISABLE_PERL", "ON"),
            text("DISABLE_GO", "ON"),
            text("CMAKE_SYSTEM_NAME", "iOS"),
            text("CMAKE_OSX_SYSROOT", "iphonesimulator"),
            text("CMAKE_OSX_ARCHITECTURES", "arm64"),
            text("ASAN", "1"),
        ]
    );
    let tool = |k: &str, v: &str| ToolOverride { key: k.to_string(), value: v.to_string() };
    assert_eq!(
        cfg.tool_overrides,
        vec![
            tool("CC", "/usr/bin/clang"),
            tool("CXX", "/usr/bin/clang++"),
            tool("ASM", "/usr/bin/clang"),
        ]
    );
    assert_eq!(cfg.configure_args, vec!["--no-warn-unused-cli".to_string()]);
}

#[test]
fn apple_device_and_desktop_defines() {
    let keys = |p: &PlatformKey| -> Vec<String> {
        prepare_cmake_build(&path(&["m"]), "p_", &settings(OutputLibType::Static, "0", false, false), p)
            .defines
            .into_iter()
            .skip(7)
            .map(|d| d.key)
            .collect()
    };
    assert_eq!(keys(&platform("ios", "aarch64", "apple", "aarch64-apple-ios")), names(&["CMAKE_SYSTEM_NAME", "CMAKE_OSX_ARCHITECTURES"]));
    assert_eq!(keys(&platform("macos", "aarch64", "apple", "aarch64-apple-darwin")), names(&["CMAKE_OSX_ARCHITECTURES"]));
    assert_eq!(keys(&platform("macos", "x86_64", "apple", "x86_64-apple-darwin")), names(&[]));
    assert_eq!(keys(&platform("linux", "aarch64", "unknown", "aarch64-unknown-linux-gnu")), names(&[]));
}

#[test]
fn link_directive_for_tls_layer_follows_feature() {
    assert_eq!(
        link_directives(OutputLibType::Static, "p", true),
        vec![link("static", "p_crypto"), link("static", "p_ssl"), link("static", "p_rust_wrapper")]
    );
    assert_eq!(
        link_directives(OutputLibType::Dynamic, "p", false),
        vec![link("dylib", "p_crypto"), link("dylib", "p_rust_wrapper")]
    );
}

#[test]
fn rand_extra_include_follows_private_toggle() {
    let out = path(&["o"]);
    let m = path(&["m"]);
    let rand = Directive::Include(path(&["m", "aws-lc", "crypto", "rand_extra"]));
    let on = publish_directives(&out, &m, OutputLibType::Static, "p", false, true, &vec![]);
    assert!(on.contains(&rand));
    let off = publish_directives(&out, &m, OutputLibType::Static, "p", false, false, &vec![]);
    assert!(!off.contains(&rand));
}

#[test]
fn full_publication() {
    let d = publish_directives(
        &path(&["o"]),
        &path(&["m"]),
        OutputLibType::Static,
        "p",
        true,
        true,
        &vec![path(&["/x"])],
    );
    assert_eq!(
        d,
        vec![
            Directive::LinkSearch(path(&["o", "build", "artifacts"])),
            link("static", "p_crypto"),
            link("static", "p_ssl"),
            link("static", "p_rust_wrapper"),
            Directive::Include(path(&["o", "include"])),
            Directive::Include(path(&["m", "aws-lc", "crypto", "rand_extra"])),
            Directive::Include(path(&["/x"])),
            Directive::RerunIfChanged("builder/".to_string()),
            Directive::RerunIfChanged("aws-lc/".to_string()),
            Directive::RerunIfEnvChanged("AWS_LC_SYS_STATIC".to_string()),
        ]
    );
}

#[test]
fn staging_prefers_earlier_directory() {
    let candidates = vec![names(&["a.h", "openssl/x.h"]), names(&["b.h", "a.h", "openssl/x.h"])];
    let mut staged: Vec<StagedEntry> = Vec::new();
    stage_entries(&mut staged, &candidates);
    let entry = |n: &str, s: usize| StagedEntry { name: n.to_string(), source: s };
    assert_eq!(staged, vec![entry("a.h", 0), entry("openssl/x.h", 0), entry("b.h", 1)]);
    let once = staged.clone();
    stage_entries(&mut staged, &candidates);
    assert_eq!(staged, once);
}

#[test]
fn staging_keeps_entries_already_present() {
    let mut staged = vec![StagedEntry { name: "a.h".to_string(), source: 7 }];
    stage_entries(&mut staged, &vec![names(&["a.h", "c.h"])]);
    assert_eq!(
        staged,
        vec![
            StagedEntry { name: "a.h".to_string(), source: 7 },
            StagedEntry { name: "c.h".to_string(), source: 0 },
        ]
    );
}

#[test]
fn include_candidate_order() {
    let m = path(&["m"]);
    assert_eq!(
        include_candidates(&m, &vec![path(&["/e"])]),
        vec![
            path(&["m", "include"]),
            path(&["m", "generated-include"]),
            path(&["m", "aws-lc", "include"]),
            path(&["/e"]),
        ]
    );
}

fn job(prefix: &str, ssl: bool, prelude: bool, out: PathParts) -> BindingJob {
    BindingJob { build_prefix: prefix.to_string(), include_ssl: ssl, disable_prelude: prelude, output: out }
}

#[test]
fn binding_jobs() {
    assert_eq!(target_platform_prefix("linux", "x86_64", "crypto"), "linux_x86_64_crypto");
    assert_eq!(
        generate_bindings("p", &path(&["o", "bindings.rs"]), true),
        job("p", true, true, path(&["o", "bindings.rs"]))
    );
    assert_eq!(
        generate_src_bindings("p", &path(&["m", "src"]), "linux", "x86"),
        vec![
            job("p", false, false, path(&["m", "src", "linux_x86_crypto.rs"])),
            job("p", true, false, path(&["m", "src", "linux_x86_crypto_ssl.rs"])),
        ]
    );
    let m = path(&["m"]);
    let g = path(&["g"]);
    assert_eq!(
        materialize_bindings(BindingStrategy::Pregenerated, false, &m, &g, "p", false, "linux", "x86"),
        Ok(vec![])
    );
    assert_eq!(
        materialize_bindings(BindingStrategy::GenerateAtBuildTime, false, &m, &g, "p", false, "linux", "x86"),
        Err(BuildError::BindingsUnavailable)
    );
    assert_eq!(
        materialize_bindings(BindingStrategy::GenerateIntoSourceTree, false, &m, &g, "p", false, "linux", "x86"),
        Err(BuildError::BindingsUnavailable)
    );
    assert_eq!(
        materialize_bindings(BindingStrategy::GenerateIntoSourceTree, true, &m, &g, "p", false, "linux", "x86")
            .unwrap()
            .len(),
        2
    );
}

#[test]
fn scenario_default_supported_platform() {
    let p = platform("linux", "x86_64", "unknown", "x86_64-unknown-linux-gnu");
    let r = resolve_binding_strategy(false, &p, false, false).unwrap();
    assert_eq!(r.strategy, BindingStrategy::Pregenerated);
    let lib_type = OutputLibType::from_static_override(None);
    assert_eq!(lib_type, OutputLibType::Static);
    let prefix = prefix_string("0.1.0");
    let jobs = materialize_bindings(r.strategy, false, &path(&["m"]), &path(&["g"]), &prefix, false, "linux", "x86_64");
    assert_eq!(jobs, Ok(vec![]));
    let d = publish_directives(&path(&["o"]), &path(&["m"]), lib_type, &prefix, false, false, &vec![]);
    let links: Vec<&Directive> = d.iter().filter(|x| matches!(x, Directive::LinkLib { .. })).collect();
    assert_eq!(
        links,
        vec![&link("static", "aws_lc_0_1_0_crypto"), &link("static", "aws_lc_0_1_0_rust_wrapper")]
    );
}

#[test]
fn scenario_bindgen_on_unsupported_platform() {
    let p = platform("windows", "x86_64", "pc", "x86_64-pc-windows-msvc");
    let r = resolve_binding_strategy(true, &p, false, false).unwrap();
    assert_eq!(r.strategy, BindingStrategy::GenerateAtBuildTime);
    assert_eq!(r.cfg_flags, vec!["use_bindgen_generated".to_string()]);
    for ssl in [false, true] {
        let jobs = materialize_bindings(r.strategy, true, &path(&["m"]), &path(&["g"]), "p", ssl, "windows", "x86_64")
            .unwrap();
        assert_eq!(jobs, vec![job("p", ssl, true, path(&["g", "bindings.rs"]))]);
    }
}

#[test]
fn scenario_conflicting_toggles_write_nothing() {
    let p = platform("linux", "x86_64", "unknown", "x86_64-unknown-linux-gnu");
    let r = resolve_binding_strategy(true, &p, true, true);
    assert_eq!(r.err(), Some(BuildError::ConflictingInternalToggles));
}

#[test]
fn apple_defines_ignore_surrounding_white_space() {
    let keys = |p: &PlatformKey| -> Vec<String> {
        prepare_cmake_build(&path(&["m"]), "p_", &settings(OutputLibType::Static, "0", false, false), p)
            .defines
            .into_iter()
            .skip(7)
            .map(|d| d.key)
            .collect()
    };
    assert_eq!(
        keys(&platform(" ios\n", "\taarch64 ", "apple", " aarch64-apple-ios-sim ")),
        names(&["CMAKE_SYSTEM_NAME", "CMAKE_OSX_SYSROOT", "CMAKE_OSX_ARCHITECTURES"])
    );
    assert_eq!(
        keys(&platform("\u{3000}ios", "aarch64\u{a0}", "apple", "x")),
        names(&["CMAKE_SYSTEM_NAME", "CMAKE_OSX_ARCHITECTURES"])
    );
    assert_eq!(keys(&platform("i os", "aarch 64", "apple", "x")), names(&[]));
    assert_eq!(keys(&platform("ios", "aarch64", " apple", "x")), names(&[]));
}
