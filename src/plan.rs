use vstd::prelude::*;
use crate::bindings::{BindingJob, build_time_job, jobs_view, materialize_bindings, materialize_spec};
use crate::error::BuildError;
use crate::linkage::version_prefix;
use crate::native_build::{
    BuildConfiguration, NativeBuildSettings, build_rust_wrapper, defines_view, expected_defines,
    expected_tool_overrides, overrides_view,
};
use crate::paths::PathParts;
use crate::strategy::{
    BindingResolution, BindingStrategy, PlatformKey, is_supported, platform_flag,
    resolution_flags, resolve_binding_strategy, resolved_strategy,
};

verus! {

/// Everything one build decides from: feature flags, environment toggles,
/// the target, and the directories involved.
pub struct BuildInputs {
    pub bindgen_feature: bool,
    pub internal_generate: bool,
    pub private_internals: bool,
    /// Whether a binding generator is compiled into the build program.
    pub generator_compiled: bool,
    pub settings: NativeBuildSettings,
    pub platform: PlatformKey,
    pub manifest_dir: PathParts,
    /// The build-local directory for generated bindings.
    pub gen_dir: PathParts,
    /// The package version the symbol prefix derives from.
    pub version: String,
    /// The host operating system and architecture, which name source-tree
    /// bindings.
    pub host_os: String,
    pub host_arch: String,
}

/// The decisions of one build, in the order they are carried out: the
/// resolved strategy, the native build, then the generator runs, or the
/// failure that stops the build once the native build is done.
pub struct BuildPlan {
    pub resolution: BindingResolution,
    pub prefix: String,
    pub native: BuildConfiguration,
    pub bindings: Result<Vec<BindingJob>, BuildError>,
}

/// Plans a build. When both internal toggles are on it fails before any
/// native build or generator run is planned.
pub fn plan_build(inputs: &BuildInputs) -> (r: Result<BuildPlan, BuildError>)
    ensures
        r is Err <==> (inputs.internal_generate && inputs.private_internals),
        r is Err ==> r->Err_0 == BuildError::ConflictingInternalToggles,
        r is Ok ==> r->Ok_0.resolution.strategy == resolved_strategy(
            inputs.bindgen_feature,
            inputs.platform.os@,
            inputs.platform.arch@,
            inputs.internal_generate,
        ),
        r is Ok ==> r->Ok_0.resolution.cfg_flags.deep_view() == resolution_flags(
            inputs.bindgen_feature,
            inputs.platform.os@,
            inputs.platform.arch@,
            inputs.internal_generate,
        ),
        r is Ok ==> r->Ok_0.prefix@ == version_prefix(inputs.version@),
        r is Ok ==> r->Ok_0.native.source_dir@ == inputs.manifest_dir@,
        r is Ok ==> defines_view(r->Ok_0.native.defines@) == expected_defines(
            inputs.manifest_dir@,
            version_prefix(inputs.version@) + "_"@,
            inputs.settings.lib_type,
            inputs.settings.opt_level@,
            inputs.settings.ssl,
            inputs.settings.asan,
            inputs.platform.vendor@,
            inputs.platform.os@,
            inputs.platform.arch@,
            inputs.platform.target@,
        ),
        r is Ok ==> overrides_view(r->Ok_0.native.tool_overrides@) == expected_tool_overrides(
            inputs.settings.asan,
        ),
        r is Ok ==> r->Ok_0.native.configure_args.deep_view() == seq!["--no-warn-unused-cli"@],
        r is Ok ==> (r->Ok_0.bindings is Ok <==> materialize_spec(
            r->Ok_0.resolution.strategy,
            inputs.generator_compiled,
            inputs.manifest_dir@,
            inputs.gen_dir@,
            version_prefix(inputs.version@),
            inputs.settings.ssl,
            inputs.host_os@,
            inputs.host_arch@,
        ) is Ok),
        r is Ok && r->Ok_0.bindings is Ok ==> jobs_view(r->Ok_0.bindings->Ok_0@) == materialize_spec(
            r->Ok_0.resolution.strategy,
            inputs.generator_compiled,
            inputs.manifest_dir@,
            inputs.gen_dir@,
            version_prefix(inputs.version@),
            inputs.settings.ssl,
            inputs.host_os@,
            inputs.host_arch@,
        )->Ok_0,
        r is Ok && r->Ok_0.bindings is Err ==> r->Ok_0.bindings->Err_0
            == BuildError::BindingsUnavailable,
        // Pregenerated bindings never need a generator run.
        r is Ok && r->Ok_0.resolution.strategy == BindingStrategy::Pregenerated ==> (
        r->Ok_0.bindings is Ok && r->Ok_0.bindings->Ok_0@.len() == 0),
        // A supported platform without bindgen or internal generation uses
        // pregenerated bindings and names the platform once.
        r is Ok && is_supported(inputs.platform.os@, inputs.platform.arch@)
            && !inputs.bindgen_feature && !inputs.internal_generate ==> (
        r->Ok_0.resolution.strategy == BindingStrategy::Pregenerated
            && r->Ok_0.resolution.cfg_flags.deep_view() == seq![
            platform_flag(inputs.platform.os@, inputs.platform.arch@),
        ] && r->Ok_0.bindings is Ok && r->Ok_0.bindings->Ok_0@.len() == 0),
        // Off the supported set, bindings come from exactly one build-time
        // generator run, or the build fails for want of a generator.
        r is Ok && !is_supported(inputs.platform.os@, inputs.platform.arch@)
            && !inputs.internal_generate ==> (r->Ok_0.resolution.strategy
            == BindingStrategy::GenerateAtBuildTime && (r->Ok_0.bindings
            == Err::<Vec<BindingJob>, BuildError>(BuildError::BindingsUnavailable) || (
        r->Ok_0.bindings is Ok && jobs_view(r->Ok_0.bindings->Ok_0@) == seq![
            build_time_job(
                version_prefix(inputs.version@),
                inputs.gen_dir@.push("bindings.rs"@),
                inputs.settings.ssl,
            ),
        ]))),
{
    let resolution = match resolve_binding_strategy(
        inputs.bindgen_feature,
        &inputs.platform,
        inputs.internal_generate,
        inputs.private_internals,
    ) {
        Ok(res) => res,
        Err(e) => {
            return Err(e);
        },
    };
    let prefix = crate::linkage::prefix_string(inputs.version.as_str());
    let native = build_rust_wrapper(
        &inputs.manifest_dir,
        prefix.as_str(),
        &inputs.settings,
        &inputs.platform,
    );
    let bindings = materialize_bindings(
        resolution.strategy,
        inputs.generator_compiled,
        &inputs.manifest_dir,
        &inputs.gen_dir,
        prefix.as_str(),
        inputs.settings.ssl,
        inputs.host_os.as_str(),
        inputs.host_arch.as_str(),
    );
    proof {
        if bindings is Ok {
            assert(jobs_view(bindings->Ok_0@).len() == bindings->Ok_0@.len());
        }
    }
    Ok(BuildPlan { resolution, prefix, native, bindings })
}

} // verus!
