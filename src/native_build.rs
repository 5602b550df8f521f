use vstd::prelude::*;
use vstd::string::*;
use crate::linkage::OutputLibType;
use crate::paths::PathParts;
use crate::strategy::PlatformKey;

verus! {

/// The value of a cmake define: text, or a path that is rendered for the
/// host when the build runs.
#[derive(Clone, Debug, PartialEq, Eq)]
pub enum DefineValue {
    Text(String),
    Path(PathParts),
}

pub enum DefineValueView {
    Text(Seq<char>),
    Path(Seq<Seq<char>>),
}

impl View for DefineValue {
    type V = DefineValueView;

    open spec fn view(&self) -> DefineValueView {
        match self {
            DefineValue::Text(s) => DefineValueView::Text(s@),
            DefineValue::Path(p) => DefineValueView::Path(p@),
        }
    }
}

/// One `-D` option handed to cmake.
#[derive(Clone, Debug, PartialEq, Eq)]
pub struct CmakeDefine {
    pub key: String,
    pub value: DefineValue,
}

impl View for CmakeDefine {
    type V = (Seq<char>, DefineValueView);

    open spec fn view(&self) -> (Seq<char>, DefineValueView) {
        (self.key@, self.value@)
    }
}

/// An environment variable that the native build must see.
#[derive(Clone, Debug, PartialEq, Eq)]
pub struct ToolOverride {
    pub key: String,
    pub value: String,
}

impl View for ToolOverride {
    type V = (Seq<char>, Seq<char>);

    open spec fn view(&self) -> (Seq<char>, Seq<char>) {
        (self.key@, self.value@)
    }
}

/// The inputs of the native build configuration besides paths and prefix.
#[derive(Clone, Debug, PartialEq, Eq)]
pub struct NativeBuildSettings {
    pub lib_type: OutputLibType,
    /// The optimization level hint; `"0"` when none was given.
    pub opt_level: String,
    pub ssl: bool,
    pub asan: bool,
}

/// Everything the native build is run with.
#[derive(Clone, Debug, PartialEq, Eq)]
pub struct BuildConfiguration {
    pub source_dir: PathParts,
    pub defines: Vec<CmakeDefine>,
    pub tool_overrides: Vec<ToolOverride>,
    pub configure_args: Vec<String>,
}

pub open spec fn defines_view(v: Seq<CmakeDefine>) -> Seq<(Seq<char>, DefineValueView)> {
    v.map_values(|d: CmakeDefine| d@)
}

pub open spec fn overrides_view(v: Seq<ToolOverride>) -> Seq<(Seq<char>, Seq<char>)> {
    v.map_values(|d: ToolOverride| d@)
}

pub open spec fn text_define(key: Seq<char>, value: Seq<char>) -> (Seq<char>, DefineValueView) {
    (key, DefineValueView::Text(value))
}

/// The build type that an optimization level selects, if any.
pub open spec fn build_type_defines(opt: Seq<char>) -> Seq<(Seq<char>, DefineValueView)> {
    if opt == "0"@ {
        seq![]
    } else if opt == "1"@ || opt == "2"@ {
        seq![text_define("CMAKE_BUILD_TYPE"@, "relwithdebinfo"@)]
    } else {
        seq![text_define("CMAKE_BUILD_TYPE"@, "release"@)]
    }
}

/// Cross-compilation defines for the vendor's mobile and 64-bit ARM targets;
/// the operating system, architecture and target triple are compared with
/// surrounding white space removed.
pub open spec fn apple_defines(
    vendor: Seq<char>,
    os: Seq<char>,
    arch: Seq<char>,
    target: Seq<char>,
) -> Seq<(Seq<char>, DefineValueView)> {
    if vendor != "apple"@ {
        seq![]
    } else {
        let ios: Seq<(Seq<char>, DefineValueView)> = if crate::text::trimmed(os) == "ios"@ {
            if crate::text::has_suffix(crate::text::trimmed(target), "-ios-sim"@) {
                seq![
                    text_define("CMAKE_SYSTEM_NAME"@, "iOS"@),
                    text_define("CMAKE_OSX_SYSROOT"@, "iphonesimulator"@),
                ]
            } else {
                seq![text_define("CMAKE_SYSTEM_NAME"@, "iOS"@)]
            }
        } else {
            seq![]
        };
        let arm: Seq<(Seq<char>, DefineValueView)> = if crate::text::trimmed(arch) == "aarch64"@ {
            seq![text_define("CMAKE_OSX_ARCHITECTURES"@, "arm64"@)]
        } else {
            seq![]
        };
        ios + arm
    }
}

/// The cmake defines of a native build.
pub open spec fn expected_defines(
    manifest_dir: Seq<Seq<char>>,
    build_prefix: Seq<char>,
    lib_type: OutputLibType,
    opt: Seq<char>,
    ssl: bool,
    asan: bool,
    vendor: Seq<char>,
    os: Seq<char>,
    arch: Seq<char>,
    target: Seq<char>,
) -> Seq<(Seq<char>, DefineValueView)> {
    seq![
        text_define(
            "BUILD_SHARED_LIBS"@,
            if lib_type == OutputLibType::Dynamic {
                "1"@
            } else {
                "0"@
            },
        ),
    ] + build_type_defines(opt) + seq![
        text_define("BORINGSSL_PREFIX"@, build_prefix),
        (
            "BORINGSSL_PREFIX_HEADERS"@,
            DefineValueView::Path(manifest_dir.push("generated-include"@)),
        ),
        text_define("BUILD_TESTING"@, "OFF"@),
        text_define(
            "BUILD_LIBSSL"@,
            if ssl {
                "ON"@
            } else {
                "OFF"@
            },
        ),
        text_define("DISABLE_PERL"@, "ON"@),
        text_define("DISABLE_GO"@, "ON"@),
    ] + apple_defines(vendor, os, arch, target) + if asan {
        seq![text_define("ASAN"@, "1"@)]
    } else {
        seq![]
    }
}

/// The toolchain forced when sanitizer instrumentation is requested.
pub open spec fn expected_tool_overrides(asan: bool) -> Seq<(Seq<char>, Seq<char>)> {
    if asan {
        seq![
            ("CC"@, "/usr/bin/clang"@),
            ("CXX"@, "/usr/bin/clang++"@),
            ("ASM"@, "/usr/bin/clang"@),
        ]
    } else {
        seq![]
    }
}

fn push_text(v: &mut Vec<CmakeDefine>, key: &str, value: &str)
    ensures
        defines_view(final(v)@) == defines_view(old(v)@).push(text_define(key@, value@)),
{
    v.push(CmakeDefine { key: String::from_str(key), value: DefineValue::Text(String::from_str(value)) });
    assert(defines_view(v@) =~= defines_view(old(v)@).push(text_define(key@, value@)));
}

fn push_override(v: &mut Vec<ToolOverride>, key: &str, value: &str)
    ensures
        overrides_view(final(v)@) == overrides_view(old(v)@).push((key@, value@)),
{
    v.push(ToolOverride { key: String::from_str(key), value: String::from_str(value) });
    assert(overrides_view(v@) =~= overrides_view(old(v)@).push((key@, value@)));
}

fn push_build_type(defines: &mut Vec<CmakeDefine>, opt: &str)
    ensures
        defines_view(final(defines)@) == defines_view(old(defines)@) + build_type_defines(opt@),
{
    let ghost d0 = defines_view(defines@);
    if !crate::text::str_eq(opt, "0") {
        if crate::text::str_eq(opt, "1") || crate::text::str_eq(opt, "2") {
            push_text(defines, "CMAKE_BUILD_TYPE", "relwithdebinfo");
        } else {
            push_text(defines, "CMAKE_BUILD_TYPE", "release");
        }
    }
    assert(defines_view(defines@) =~= d0 + build_type_defines(opt@));
}

fn push_common(
    defines: &mut Vec<CmakeDefine>,
    manifest_dir: &PathParts,
    build_prefix: &str,
    ssl: bool,
)
    ensures
        defines_view(final(defines)@) == defines_view(old(defines)@) + seq![
            text_define("BORINGSSL_PREFIX"@, build_prefix@),
            (
                "BORINGSSL_PREFIX_HEADERS"@,
                DefineValueView::Path(manifest_dir@.push("generated-include"@)),
            ),
            text_define("BUILD_TESTING"@, "OFF"@),
            text_define(
                "BUILD_LIBSSL"@,
                if ssl {
                    "ON"@
                } else {
                    "OFF"@
                },
            ),
            text_define("DISABLE_PERL"@, "ON"@),
            text_define("DISABLE_GO"@, "ON"@),
        ],
{
    let ghost d0 = defines_view(defines@);
    push_text(defines, "BORINGSSL_PREFIX", build_prefix);
    let headers = crate::paths::get_generated_include_path(manifest_dir);
    let ghost before_headers = defines@;
    defines.push(
        CmakeDefine {
            key: String::from_str("BORINGSSL_PREFIX_HEADERS"),
            value: DefineValue::Path(headers),
        },
    );
    assert(defines_view(defines@) =~= defines_view(before_headers).push(
        ("BORINGSSL_PREFIX_HEADERS"@, DefineValueView::Path(manifest_dir@.push("generated-include"@))),
    ));
    push_text(defines, "BUILD_TESTING", "OFF");
    if ssl {
        push_text(defines, "BUILD_LIBSSL", "ON");
    } else {
        push_text(defines, "BUILD_LIBSSL", "OFF");
    }
    push_text(defines, "DISABLE_PERL", "ON");
    push_text(defines, "DISABLE_GO", "ON");
    assert(defines_view(defines@) =~= d0 + seq![
        text_define("BORINGSSL_PREFIX"@, build_prefix@),
        (
            "BORINGSSL_PREFIX_HEADERS"@,
            DefineValueView::Path(manifest_dir@.push("generated-include"@)),
        ),
        text_define("BUILD_TESTING"@, "OFF"@),
        text_define(
            "BUILD_LIBSSL"@,
            if ssl {
                "ON"@
            } else {
                "OFF"@
            },
        ),
        text_define("DISABLE_PERL"@, "ON"@),
        text_define("DISABLE_GO"@, "ON"@),
    ]);
}

fn push_apple(defines: &mut Vec<CmakeDefine>, platform: &PlatformKey)
    ensures
        defines_view(final(defines)@) == defines_view(old(defines)@) + apple_defines(
            platform.vendor@,
            platform.os@,
            platform.arch@,
            platform.target@,
        ),
{
    let ghost d0 = defines_view(defines@);
    if crate::text::str_eq(platform.vendor.as_str(), "apple") {
        if crate::text::str_eq(crate::text::trim_text(platform.os.as_str()), "ios") {
            push_text(defines, "CMAKE_SYSTEM_NAME", "iOS");
            if crate::text::ends_with(crate::text::trim_text(platform.target.as_str()), "-ios-sim") {
                push_text(defines, "CMAKE_OSX_SYSROOT", "iphonesimulator");
            }
        }
        if crate::text::str_eq(crate::text::trim_text(platform.arch.as_str()), "aarch64") {
            push_text(defines, "CMAKE_OSX_ARCHITECTURES", "arm64");
        }
    }
    assert(defines_view(defines@) =~= d0 + apple_defines(
        platform.vendor@,
        platform.os@,
        platform.arch@,
        platform.target@,
    ));
}

/// The cmake configuration of the native build: linkage, build type, symbol
/// prefix, size-minimizing switches, target-specific defines and the
/// sanitizer toolchain.
pub fn prepare_cmake_build(
    manifest_dir: &PathParts,
    build_prefix: &str,
    settings: &NativeBuildSettings,
    platform: &PlatformKey,
) -> (r: BuildConfiguration)
    ensures
        r.source_dir@ == manifest_dir@,
        defines_view(r.defines@) == expected_defines(
            manifest_dir@,
            build_prefix@,
            settings.lib_type,
            settings.opt_level@,
            settings.ssl,
            settings.asan,
            platform.vendor@,
            platform.os@,
            platform.arch@,
            platform.target@,
        ),
        overrides_view(r.tool_overrides@) == expected_tool_overrides(settings.asan),
        r.configure_args@.len() == 0,
{
    let mut defines: Vec<CmakeDefine> = Vec::new();
    assert(defines_view(defines@) =~= seq![]);
    if settings.lib_type == OutputLibType::Dynamic {
        push_text(&mut defines, "BUILD_SHARED_LIBS", "1");
    } else {
        push_text(&mut defines, "BUILD_SHARED_LIBS", "0");
    }
    push_build_type(&mut defines, settings.opt_level.as_str());
    push_common(&mut defines, manifest_dir, build_prefix, settings.ssl);
    push_apple(&mut defines, platform);
    let ghost d3 = defines_view(defines@);
    let mut tool_overrides: Vec<ToolOverride> = Vec::new();
    assert(overrides_view(tool_overrides@) =~= seq![]);
    if settings.asan {
        push_override(&mut tool_overrides, "CC", "/usr/bin/clang");
        push_override(&mut tool_overrides, "CXX", "/usr/bin/clang++");
        push_override(&mut tool_overrides, "ASM", "/usr/bin/clang");
        push_text(&mut defines, "ASAN", "1");
    }
    assert(overrides_view(tool_overrides@) =~= expected_tool_overrides(settings.asan));
    assert(defines_view(defines@) =~= d3 + if settings.asan {
        seq![text_define("ASAN"@, "1"@)]
    } else {
        seq![]
    });
    BuildConfiguration {
        source_dir: manifest_dir.duplicate(),
        defines,
        tool_overrides,
        configure_args: Vec::new(),
    }
}

/// The configuration that builds the wrapper library and the native
/// libraries under the symbol prefix `prefix_`.
pub fn build_rust_wrapper(
    manifest_dir: &PathParts,
    prefix: &str,
    settings: &NativeBuildSettings,
    platform: &PlatformKey,
) -> (r: BuildConfiguration)
    ensures
        r.source_dir@ == manifest_dir@,
        defines_view(r.defines@) == expected_defines(
            manifest_dir@,
            prefix@ + "_"@,
            settings.lib_type,
            settings.opt_level@,
            settings.ssl,
            settings.asan,
            platform.vendor@,
            platform.os@,
            platform.arch@,
            platform.target@,
        ),
        overrides_view(r.tool_overrides@) == expected_tool_overrides(settings.asan),
        r.configure_args.deep_view() == seq!["--no-warn-unused-cli"@],
{
    let mut build_prefix = String::from_str(prefix);
    build_prefix.append("_");
    let mut cfg = prepare_cmake_build(manifest_dir, build_prefix.as_str(), settings, platform);
    cfg.configure_args.push(String::from_str("--no-warn-unused-cli"));
    assert(cfg.configure_args.deep_view() =~= seq!["--no-warn-unused-cli"@]);
    cfg
}

} // verus!
