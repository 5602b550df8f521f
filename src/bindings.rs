use vstd::prelude::*;
use vstd::string::*;
use crate::error::BuildError;
use crate::paths::PathParts;
use crate::strategy::BindingStrategy;

verus! {

/// One run of the binding generator: its options and where its output goes.
#[derive(Clone, Debug, PartialEq, Eq)]
pub struct BindingJob {
    pub build_prefix: String,
    pub include_ssl: bool,
    pub disable_prelude: bool,
    pub output: PathParts,
}

pub struct BindingJobView {
    pub build_prefix: Seq<char>,
    pub include_ssl: bool,
    pub disable_prelude: bool,
    pub output: Seq<Seq<char>>,
}

impl View for BindingJob {
    type V = BindingJobView;

    open spec fn view(&self) -> BindingJobView {
        BindingJobView {
            build_prefix: self.build_prefix@,
            include_ssl: self.include_ssl,
            disable_prelude: self.disable_prelude,
            output: self.output@,
        }
    }
}

pub open spec fn jobs_view(v: Seq<BindingJob>) -> Seq<BindingJobView> {
    v.map_values(|j: BindingJob| j@)
}

/// The file stem of generated bindings for a host platform.
pub open spec fn platform_file_stem(os: Seq<char>, arch: Seq<char>, name: Seq<char>) -> Seq<char> {
    os + "_"@ + arch + "_"@ + name
}

pub fn target_platform_prefix(os: &str, arch: &str, name: &str) -> (r: String)
    ensures
        r@ == platform_file_stem(os@, arch@, name@),
{
    let mut r = String::from_str(os);
    r.append("_");
    r.append(arch);
    r.append("_");
    r.append(name);
    r
}

/// The single generator run of build-time generation.
pub open spec fn build_time_job(
    prefix: Seq<char>,
    bindings_path: Seq<Seq<char>>,
    ssl: bool,
) -> BindingJobView {
    BindingJobView {
        build_prefix: prefix,
        include_ssl: ssl,
        disable_prelude: true,
        output: bindings_path,
    }
}

pub fn generate_bindings(prefix: &str, bindings_path: &PathParts, ssl: bool) -> (r: BindingJob)
    ensures
        r@ == build_time_job(prefix@, bindings_path@, ssl),
{
    BindingJob {
        build_prefix: String::from_str(prefix),
        include_ssl: ssl,
        disable_prelude: true,
        output: bindings_path.duplicate(),
    }
}

/// The two generator runs that write bindings into the source tree, without
/// and with the TLS layer.
pub open spec fn source_tree_jobs(
    prefix: Seq<char>,
    src_dir: Seq<Seq<char>>,
    os: Seq<char>,
    arch: Seq<char>,
) -> Seq<BindingJobView> {
    seq![
        BindingJobView {
            build_prefix: prefix,
            include_ssl: false,
            disable_prelude: false,
            output: src_dir.push(platform_file_stem(os, arch, "crypto"@) + ".rs"@),
        },
        BindingJobView {
            build_prefix: prefix,
            include_ssl: true,
            disable_prelude: false,
            output: src_dir.push(platform_file_stem(os, arch, "crypto_ssl"@) + ".rs"@),
        },
    ]
}

fn source_tree_job(prefix: &str, src_dir: &PathParts, os: &str, arch: &str, name: &str, ssl: bool) -> (r: BindingJob)
    ensures
        r@ == (BindingJobView {
            build_prefix: prefix@,
            include_ssl: ssl,
            disable_prelude: false,
            output: src_dir@.push(platform_file_stem(os@, arch@, name@) + ".rs"@),
        }),
{
    let mut file = target_platform_prefix(os, arch, name);
    file.append(".rs");
    BindingJob {
        build_prefix: String::from_str(prefix),
        include_ssl: ssl,
        disable_prelude: false,
        output: src_dir.join(file.as_str()),
    }
}

pub fn generate_src_bindings(prefix: &str, src_bindings_path: &PathParts, os: &str, arch: &str) -> (r: Vec<BindingJob>)
    ensures
        jobs_view(r@) == source_tree_jobs(prefix@, src_bindings_path@, os@, arch@),
{
    let mut r: Vec<BindingJob> = Vec::new();
    r.push(source_tree_job(prefix, src_bindings_path, os, arch, "crypto", false));
    r.push(source_tree_job(prefix, src_bindings_path, os, arch, "crypto_ssl", true));
    assert(jobs_view(r@) =~= source_tree_jobs(prefix@, src_bindings_path@, os@, arch@));
    r
}

/// The generator runs that a strategy calls for, or the failure when one is
/// needed and no generator is compiled in.
pub open spec fn materialize_spec(
    strategy: BindingStrategy,
    generator_compiled: bool,
    manifest_dir: Seq<Seq<char>>,
    gen_dir: Seq<Seq<char>>,
    prefix: Seq<char>,
    ssl: bool,
    os: Seq<char>,
    arch: Seq<char>,
) -> Result<Seq<BindingJobView>, BuildError> {
    match strategy {
        BindingStrategy::Pregenerated => Ok(seq![]),
        BindingStrategy::GenerateAtBuildTime => if generator_compiled {
            Ok(seq![build_time_job(prefix, gen_dir.push("bindings.rs"@), ssl)])
        } else {
            Err(BuildError::BindingsUnavailable)
        },
        BindingStrategy::GenerateIntoSourceTree => if generator_compiled {
            Ok(source_tree_jobs(prefix, manifest_dir.push("src"@), os, arch))
        } else {
            Err(BuildError::BindingsUnavailable)
        },
    }
}

/// Decides which generator runs make the bindings available under `strategy`.
/// `gen_dir` is the build-local output directory and `os`, `arch` name the
/// host for source-tree file names.
pub fn materialize_bindings(
    strategy: BindingStrategy,
    generator_compiled: bool,
    manifest_dir: &PathParts,
    gen_dir: &PathParts,
    prefix: &str,
    ssl: bool,
    os: &str,
    arch: &str,
) -> (r: Result<Vec<BindingJob>, BuildError>)
    ensures
        r is Ok <==> materialize_spec(
            strategy,
            generator_compiled,
            manifest_dir@,
            gen_dir@,
            prefix@,
            ssl,
            os@,
            arch@,
        ) is Ok,
        r is Ok ==> jobs_view(r->Ok_0@) == materialize_spec(
            strategy,
            generator_compiled,
            manifest_dir@,
            gen_dir@,
            prefix@,
            ssl,
            os@,
            arch@,
        )->Ok_0,
        r is Err ==> r->Err_0 == BuildError::BindingsUnavailable,
{
    match strategy {
        BindingStrategy::Pregenerated => {
            let r: Vec<BindingJob> = Vec::new();
            assert(jobs_view(r@) =~= seq![]);
            Ok(r)
        },
        BindingStrategy::GenerateAtBuildTime => {
            if !generator_compiled {
                return Err(BuildError::BindingsUnavailable);
            }
            let mut r: Vec<BindingJob> = Vec::new();
            r.push(generate_bindings(prefix, &gen_dir.join("bindings.rs"), ssl));
            assert(jobs_view(r@) =~= seq![build_time_job(prefix@, gen_dir@.push("bindings.rs"@), ssl)]);
            Ok(r)
        },
        BindingStrategy::GenerateIntoSourceTree => {
            if !generator_compiled {
                return Err(BuildError::BindingsUnavailable);
            }
            Ok(generate_src_bindings(prefix, &manifest_dir.join("src"), os, arch))
        },
    }
}

} // verus!
