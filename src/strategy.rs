use vstd::prelude::*;
use vstd::string::*;
use crate::error::BuildError;

verus! {

/// Facts about the target being built for.
#[derive(Clone, Debug, PartialEq, Eq)]
pub struct PlatformKey {
    pub os: String,
    pub arch: String,
    pub vendor: String,
    pub target: String,
}

/// How the foreign-function bindings are obtained.
#[derive(Clone, Copy, PartialEq, Eq, Structural, Debug)]
pub enum BindingStrategy {
    Pregenerated,
    GenerateAtBuildTime,
    GenerateIntoSourceTree,
}

/// The resolved strategy and the conditional-compilation flags to emit.
#[derive(Clone, Debug, PartialEq, Eq)]
pub struct BindingResolution {
    pub strategy: BindingStrategy,
    pub cfg_flags: Vec<String>,
}

/// Whether pregenerated bindings exist for this operating system and
/// architecture.
pub open spec fn is_supported(os: Seq<char>, arch: Seq<char>) -> bool {
    ||| (os == "linux"@ && arch == "x86"@)
    ||| (os == "linux"@ && arch == "x86_64"@)
    ||| (os == "linux"@ && arch == "aarch64"@)
    ||| (os == "macos"@ && arch == "x86_64"@)
}

/// The flag that names a matched platform.
pub open spec fn platform_flag(os: Seq<char>, arch: Seq<char>) -> Seq<char> {
    os + "_"@ + arch
}

/// Whether pregenerated bindings may be used at all.
pub open spec fn pregenerated_allowed(bindgen: bool, internal: bool) -> bool {
    !bindgen || internal
}

/// Whether a supported platform matched with pregenerated bindings allowed.
pub open spec fn platform_matched(
    bindgen: bool,
    os: Seq<char>,
    arch: Seq<char>,
    internal: bool,
) -> bool {
    is_supported(os, arch) && pregenerated_allowed(bindgen, internal)
}

/// The conditional-compilation flags that resolution emits.
pub open spec fn resolution_flags(
    bindgen: bool,
    os: Seq<char>,
    arch: Seq<char>,
    internal: bool,
) -> Seq<Seq<char>> {
    if platform_matched(bindgen, os, arch, internal) {
        seq![platform_flag(os, arch)]
    } else {
        seq!["use_bindgen_generated"@]
    }
}

/// The strategy that resolution selects.
pub open spec fn resolved_strategy(
    bindgen: bool,
    os: Seq<char>,
    arch: Seq<char>,
    internal: bool,
) -> BindingStrategy {
    if internal {
        BindingStrategy::GenerateIntoSourceTree
    } else if bindgen || !platform_matched(bindgen, os, arch, internal) {
        BindingStrategy::GenerateAtBuildTime
    } else {
        BindingStrategy::Pregenerated
    }
}

fn matches_platform(p: &PlatformKey, os: &str, arch: &str) -> (r: bool)
    ensures
        r == (p.os@ == os@ && p.arch@ == arch@),
{
    crate::text::str_eq(p.os.as_str(), os) && crate::text::str_eq(p.arch.as_str(), arch)
}

fn join_flag(os: &str, arch: &str) -> (r: String)
    ensures
        r@ == platform_flag(os@, arch@),
{
    let mut r = String::from_str(os);
    r.append("_");
    r.append(arch);
    r
}

/// Decides how bindings are obtained from the bindgen feature, the target
/// platform and the two internal toggles.
pub fn resolve_binding_strategy(
    bindgen_feature: bool,
    platform: &PlatformKey,
    internal_generate: bool,
    private_internals: bool,
) -> (r: Result<BindingResolution, BuildError>)
    ensures
        r is Err <==> (internal_generate && private_internals),
        r is Err ==> r->Err_0 == BuildError::ConflictingInternalToggles,
        r is Ok ==> r->Ok_0.strategy == resolved_strategy(
            bindgen_feature,
            platform.os@,
            platform.arch@,
            internal_generate,
        ),
        r is Ok ==> r->Ok_0.cfg_flags.deep_view() == resolution_flags(
            bindgen_feature,
            platform.os@,
            platform.arch@,
            internal_generate,
        ),
{
    if internal_generate && private_internals {
        return Err(BuildError::ConflictingInternalToggles);
    }
    let pregenerated = !bindgen_feature || internal_generate;
    let mut cfg_flags: Vec<String> = Vec::new();
    let mut matched = false;
    if pregenerated {
        if matches_platform(platform, "linux", "x86") {
            cfg_flags.push(join_flag("linux", "x86"));
            matched = true;
        } else if matches_platform(platform, "linux", "x86_64") {
            cfg_flags.push(join_flag("linux", "x86_64"));
            matched = true;
        } else if matches_platform(platform, "linux", "aarch64") {
            cfg_flags.push(join_flag("linux", "aarch64"));
            matched = true;
        } else if matches_platform(platform, "macos", "x86_64") {
            cfg_flags.push(join_flag("macos", "x86_64"));
            matched = true;
        }
    }
    let mut bindgen_required = bindgen_feature;
    if !matched {
        cfg_flags.push(String::from_str("use_bindgen_generated"));
        bindgen_required = true;
    }
    assert(cfg_flags.deep_view() =~= resolution_flags(
        bindgen_feature,
        platform.os@,
        platform.arch@,
        internal_generate,
    ));
    let strategy = if internal_generate {
        BindingStrategy::GenerateIntoSourceTree
    } else if bindgen_required {
        BindingStrategy::GenerateAtBuildTime
    } else {
        BindingStrategy::Pregenerated
    };
    Ok(BindingResolution { strategy, cfg_flags })
}

/// On a supported platform, with bindgen not requested and no internal
/// generation, pregenerated bindings are used and exactly one flag, the one
/// naming the platform, is emitted.
pub proof fn lemma_supported_platform_pregenerated(os: Seq<char>, arch: Seq<char>)
    requires
        is_supported(os, arch),
    ensures
        resolved_strategy(false, os, arch, false) == BindingStrategy::Pregenerated,
        resolution_flags(false, os, arch, false) == seq![platform_flag(os, arch)],
{
}

/// On a platform outside the supported set, pregenerated bindings are never
/// selected, whatever the bindgen feature and the internal toggle say.
pub proof fn lemma_unsupported_platform_never_pregenerated(
    bindgen: bool,
    os: Seq<char>,
    arch: Seq<char>,
    internal: bool,
)
    requires
        !is_supported(os, arch),
    ensures
        resolved_strategy(bindgen, os, arch, internal) != BindingStrategy::Pregenerated,
        resolution_flags(bindgen, os, arch, internal) == seq!["use_bindgen_generated"@],
{
}

/// The cmake executable to use, from whether `cmake3` and `cmake` answered a
/// version query; `cmake3` is preferred.
pub fn find_cmake_command(cmake3_works: bool, cmake_works: bool) -> (r: Option<&'static str>)
    ensures
        cmake3_works ==> r == Some("cmake3"),
        !cmake3_works && cmake_works ==> r == Some("cmake"),
        !cmake3_works && !cmake_works ==> r is None,
{
    if cmake3_works {
        Some("cmake3")
    } else if cmake_works {
        Some("cmake")
    } else {
        None
    }
}

/// The cmake executable that the build must use, or the missing-dependency
/// failure when none was found.
pub fn check_dependencies(found: Option<&str>) -> (r: Result<String, BuildError>)
    ensures
        found is None <==> r is Err,
        r is Err ==> r->Err_0 == BuildError::MissingCmake,
        found is Some ==> r->Ok_0@ == found->0@,
{
    match found {
        Some(cmd) => Ok(String::from_str(cmd)),
        None => Err(BuildError::MissingCmake),
    }
}

} // verus!
