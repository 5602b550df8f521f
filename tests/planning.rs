use aws_lc_builder::bindings::BindingJob;
use aws_lc_builder::error::BuildError;
use aws_lc_builder::linkage::OutputLibType;
use aws_lc_builder::native_build::NativeBuildSettings;
use aws_lc_builder::paths::PathParts;
use aws_lc_builder::plan::{plan_build, BuildInputs};
use aws_lc_builder::strategy::{BindingStrategy, PlatformKey};

fn path(parts: &[&str]) -> PathParts {
    PathParts::from_parts(parts.iter().map(|p| p.to_string()).collect())
}

fn inputs(os: &str, arch: &str, bindgen: bool, internal: bool, private: bool, generator: bool, ssl: bool) -> BuildInputs {
    BuildInputs {
        bindgen_feature: bindgen,
        internal_generate: internal,
        private_internals: private,
        generator_compiled: generator,
        settings: NativeBuildSettings {
            lib_type: OutputLibType::Static,
            opt_level: "0".to_string(),
            ssl,
            asan: false,
        },
        platform: PlatformKey {
            os: os.to_string(),
            arch: arch.to_string(),
            vendor: "unknown".to_string(),
            target: format!("{arch}-unknown-{os}"),
        },
        manifest_dir: path(&["m"]),
        gen_dir: path(&["g"]),
        version: "1.2.3".to_string(),
        host_os: "linux".to_string(),
        host_arch: "x86_64".to_string(),
    }
}

#[test]
fn plan_default_supported_platform() {
    let plan = plan_build(&inputs("linux", "x86_64", false, false, false, false, false)).unwrap();
    assert_eq!(plan.resolution.strategy, BindingStrategy::Pregenerated);
    assert_eq!(plan.resolution.cfg_flags, vec!["linux_x86_64".to_string()]);
    assert_eq!(plan.prefix, "aws_lc_1_2_3");
    assert_eq!(plan.bindings, Ok(vec![]));
    assert_eq!(plan.native.source_dir, path(&["m"]));
    assert_eq!(plan.native.configure_args, vec!["--no-warn-unused-cli".to_string()]);
}

#[test]
fn plan_unsupported_platform_generates_once() {
    for ssl in [false, true] {
        let plan = plan_build(&inputs("freebsd", "x86_64", false, false, false, true, ssl)).unwrap();
        assert_eq!(plan.resolution.strategy, BindingStrategy::GenerateAtBuildTime);
        assert_eq!(plan.resolution.cfg_flags, vec!["use_bindgen_generated".to_string()]);
        assert_eq!(
            plan.bindings,
            Ok(vec![BindingJob {
                build_prefix: "aws_lc_1_2_3".to_string(),
                include_ssl: ssl,
                disable_prelude: true,
                output: path(&["g", "bindings.rs"]),
            }])
        );
    }
    let plan = plan_build(&inputs("freebsd", "x86_64", true, false, false, false, false)).unwrap();
    assert_eq!(plan.bindings, Err(BuildError::BindingsUnavailable));
}

#[test]
fn plan_conflicting_toggles_plans_nothing() {
    let r = plan_build(&inputs("linux", "x86_64", true, true, true, true, false));
    assert!(matches!(r, Err(BuildError::ConflictingInternalToggles)));
}

#[test]
fn plan_internal_generation_writes_source_tree() {
    let plan = plan_build(&inputs("linux", "aarch64", true, true, false, true, false)).unwrap();
    assert_eq!(plan.resolution.strategy, BindingStrategy::GenerateIntoSourceTree);
    let outputs: Vec<PathParts> = plan.bindings.unwrap().into_iter().map(|j| j.output).collect();
    assert_eq!(
        outputs,
        vec![
            path(&["m", "src", "linux_x86_64_crypto.rs"]),
            path(&["m", "src", "linux_x86_64_crypto_ssl.rs"]),
        ]
    );
}
