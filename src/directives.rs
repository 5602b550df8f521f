use vstd::prelude::*;
use vstd::string::*;
use crate::linkage::{OutputLib, OutputLibType, lib_name, lib_type_text};
use crate::paths::{PathParts, artifact_dir, rand_extra_path};

verus! {

/// A line of metadata for the consuming build graph.
#[derive(Clone, Debug, PartialEq, Eq)]
pub enum Directive {
    /// A conditional-compilation flag.
    Cfg(String),
    /// A directory searched for native libraries.
    LinkSearch(PathParts),
    /// A native library to link, with its linkage kind.
    LinkLib { kind: String, name: String },
    /// A directory of headers offered to dependents.
    Include(PathParts),
    /// A path whose change triggers a rebuild.
    RerunIfChanged(String),
    /// An environment variable whose change triggers a rebuild.
    RerunIfEnvChanged(String),
}

pub enum DirectiveView {
    Cfg(Seq<char>),
    LinkSearch(Seq<Seq<char>>),
    LinkLib(Seq<char>, Seq<char>),
    Include(Seq<Seq<char>>),
    RerunIfChanged(Seq<char>),
    RerunIfEnvChanged(Seq<char>),
}

impl View for Directive {
    type V = DirectiveView;

    open spec fn view(&self) -> DirectiveView {
        match self {
            Directive::Cfg(s) => DirectiveView::Cfg(s@),
            Directive::LinkSearch(p) => DirectiveView::LinkSearch(p@),
            Directive::LinkLib { kind, name } => DirectiveView::LinkLib(kind@, name@),
            Directive::Include(p) => DirectiveView::Include(p@),
            Directive::RerunIfChanged(s) => DirectiveView::RerunIfChanged(s@),
            Directive::RerunIfEnvChanged(s) => DirectiveView::RerunIfEnvChanged(s@),
        }
    }
}

pub open spec fn directives_view(v: Seq<Directive>) -> Seq<DirectiveView> {
    v.map_values(|d: Directive| d@)
}

/// The link directive of one library.
pub open spec fn link_of(lib_type: OutputLibType, prefix: Seq<char>, lib: OutputLib) -> DirectiveView {
    DirectiveView::LinkLib(lib_type_text(lib_type), lib_name(lib, Some(prefix)))
}

/// One link directive per library produced: the core, the TLS layer when it
/// is enabled, and the wrapper.
pub open spec fn link_spec(lib_type: OutputLibType, prefix: Seq<char>, ssl: bool) -> Seq<
    DirectiveView,
> {
    seq![link_of(lib_type, prefix, OutputLib::Crypto)] + (if ssl {
        seq![link_of(lib_type, prefix, OutputLib::Ssl)]
    } else {
        seq![]
    }) + seq![link_of(lib_type, prefix, OutputLib::RustWrapper)]
}

/// The staging directory of published headers, under the build output.
pub open spec fn staging_dir(out_dir: Seq<Seq<char>>) -> Seq<Seq<char>> {
    out_dir.push("include"@)
}

pub fn include_staging_dir(out_dir: &PathParts) -> (r: PathParts)
    ensures
        r@ == staging_dir(out_dir@),
{
    out_dir.join("include")
}

/// Everything published once the native build and the bindings are done.
pub open spec fn publish_spec(
    out_dir: Seq<Seq<char>>,
    manifest_dir: Seq<Seq<char>>,
    lib_type: OutputLibType,
    prefix: Seq<char>,
    ssl: bool,
    private_internals: bool,
    extra: Seq<Seq<Seq<char>>>,
) -> Seq<DirectiveView> {
    seq![DirectiveView::LinkSearch(artifact_dir(out_dir))] + link_spec(lib_type, prefix, ssl) + seq![
        DirectiveView::Include(staging_dir(out_dir)),
    ] + (if private_internals {
        seq![DirectiveView::Include(rand_extra_path(manifest_dir))]
    } else {
        seq![]
    }) + extra.map_values(|p: Seq<Seq<char>>| DirectiveView::Include(p)) + seq![
        DirectiveView::RerunIfChanged("builder/"@),
        DirectiveView::RerunIfChanged("aws-lc/"@),
        DirectiveView::RerunIfEnvChanged("AWS_LC_SYS_STATIC"@),
    ]
}

fn push_link(v: &mut Vec<Directive>, lib_type: OutputLibType, prefix: &str, lib: OutputLib)
    ensures
        directives_view(final(v)@) == directives_view(old(v)@).push(link_of(lib_type, prefix@, lib)),
{
    let kind = String::from_str(lib_type.rust_lib_type());
    let name = lib.libname(Some(prefix));
    v.push(Directive::LinkLib { kind, name });
    assert(directives_view(v@) =~= directives_view(old(v)@).push(link_of(lib_type, prefix@, lib)));
}

fn push_directive(v: &mut Vec<Directive>, d: Directive)
    ensures
        directives_view(final(v)@) == directives_view(old(v)@).push(d@),
{
    v.push(d);
    assert(directives_view(v@) =~= directives_view(old(v)@).push(d@));
}

/// The link directives of the produced libraries.
pub fn link_directives(lib_type: OutputLibType, prefix: &str, ssl: bool) -> (r: Vec<Directive>)
    ensures
        directives_view(r@) == link_spec(lib_type, prefix@, ssl),
{
    let mut r: Vec<Directive> = Vec::new();
    assert(directives_view(r@) =~= seq![]);
    push_link(&mut r, lib_type, prefix, OutputLib::Crypto);
    if ssl {
        push_link(&mut r, lib_type, prefix, OutputLib::Ssl);
    }
    push_link(&mut r, lib_type, prefix, OutputLib::RustWrapper);
    assert(directives_view(r@) =~= link_spec(lib_type, prefix@, ssl));
    r
}

/// The directives that publish the native build: where the libraries are,
/// which to link, where headers are, and what triggers a rebuild.
pub fn publish_directives(
    out_dir: &PathParts,
    manifest_dir: &PathParts,
    lib_type: OutputLibType,
    prefix: &str,
    ssl: bool,
    private_internals: bool,
    extra: &Vec<PathParts>,
) -> (r: Vec<Directive>)
    ensures
        directives_view(r@) == publish_spec(
            out_dir@,
            manifest_dir@,
            lib_type,
            prefix@,
            ssl,
            private_internals,
            extra@.map_values(|p: PathParts| p@),
        ),
{
    let mut r: Vec<Directive> = Vec::new();
    assert(directives_view(r@) =~= seq![]);
    push_directive(&mut r, Directive::LinkSearch(crate::paths::artifact_output_dir(out_dir)));
    push_link(&mut r, lib_type, prefix, OutputLib::Crypto);
    if ssl {
        push_link(&mut r, lib_type, prefix, OutputLib::Ssl);
    }
    push_link(&mut r, lib_type, prefix, OutputLib::RustWrapper);
    push_directive(&mut r, Directive::Include(include_staging_dir(out_dir)));
    if private_internals {
        push_directive(
            &mut r,
            Directive::Include(crate::paths::get_aws_lc_rand_extra_path(manifest_dir)),
        );
    }
    let ghost mid = directives_view(r@);
    let ghost extra_view = extra@.map_values(|p: PathParts| p@);
    let mut i: usize = 0;
    while i < extra.len()
        invariant
            i <= extra.len(),
            extra_view == extra@.map_values(|p: PathParts| p@),
            directives_view(r@) == mid + extra_view.take(i as int).map_values(
                |p: Seq<Seq<char>>| DirectiveView::Include(p),
            ),
        decreases extra.len() - i,
    {
        push_directive(&mut r, Directive::Include(extra[i].duplicate()));
        assert(extra_view.take(i + 1).map_values(|p: Seq<Seq<char>>| DirectiveView::Include(p))
            =~= extra_view.take(i as int).map_values(
            |p: Seq<Seq<char>>| DirectiveView::Include(p),
        ).push(DirectiveView::Include(extra_view[i as int])));
        i = i + 1;
    }
    assert(extra_view.take(extra.len() as int) =~= extra_view);
    push_directive(&mut r, Directive::RerunIfChanged(String::from_str("builder/")));
    push_directive(&mut r, Directive::RerunIfChanged(String::from_str("aws-lc/")));
    push_directive(&mut r, Directive::RerunIfEnvChanged(String::from_str("AWS_LC_SYS_STATIC")));
    assert(directives_view(r@) =~= publish_spec(
        out_dir@,
        manifest_dir@,
        lib_type,
        prefix@,
        ssl,
        private_internals,
        extra_view,
    ));
    r
}

/// The TLS layer is linked if and only if it is enabled.
pub proof fn lemma_ssl_link_iff_enabled(
    out_dir: Seq<Seq<char>>,
    manifest_dir: Seq<Seq<char>>,
    lib_type: OutputLibType,
    prefix: Seq<char>,
    ssl: bool,
    private_internals: bool,
    extra: Seq<Seq<Seq<char>>>,
)
    ensures
        publish_spec(
            out_dir,
            manifest_dir,
            lib_type,
            prefix,
            ssl,
            private_internals,
            extra,
        ).contains(link_of(lib_type, prefix, OutputLib::Ssl)) <==> ssl,
{
    reveal_strlit("ssl");
    reveal_strlit("crypto");
    reveal_strlit("rust_wrapper");
    let d = publish_spec(out_dir, manifest_dir, lib_type, prefix, ssl, private_internals, extra);
    let target = link_of(lib_type, prefix, OutputLib::Ssl);
    assert(lib_name(OutputLib::Ssl, Some(prefix)).len() != lib_name(
        OutputLib::Crypto,
        Some(prefix),
    ).len());
    assert(lib_name(OutputLib::Ssl, Some(prefix)).len() != lib_name(
        OutputLib::RustWrapper,
        Some(prefix),
    ).len());
    if ssl {
        assert(d[2] == target);
    } else {
        assert forall|k: int| 0 <= k < d.len() implies d[k] != target by {
            if k == 1 || k == 2 {
                assert(d[k] != target);
            }
        }
    }
}

/// The randomness-support headers are published if and only if the
/// private-internals toggle is on, when no extra include directory names
/// them.
pub proof fn lemma_rand_extra_include_iff_private(
    out_dir: Seq<Seq<char>>,
    manifest_dir: Seq<Seq<char>>,
    lib_type: OutputLibType,
    prefix: Seq<char>,
    ssl: bool,
    private_internals: bool,
    extra: Seq<Seq<Seq<char>>>,
)
    requires
        !extra.contains(rand_extra_path(manifest_dir)),
    ensures
        publish_spec(
            out_dir,
            manifest_dir,
            lib_type,
            prefix,
            ssl,
            private_internals,
            extra,
        ).contains(DirectiveView::Include(rand_extra_path(manifest_dir))) <==> private_internals,
{
    reveal_strlit("include");
    reveal_strlit("rand_extra");
    let d = publish_spec(out_dir, manifest_dir, lib_type, prefix, ssl, private_internals, extra);
    let target = DirectiveView::Include(rand_extra_path(manifest_dir));
    let links = link_spec(lib_type, prefix, ssl);
    assert(staging_dir(out_dir).last().len() != rand_extra_path(manifest_dir).last().len());
    assert(staging_dir(out_dir) != rand_extra_path(manifest_dir));
    if private_internals {
        assert(d[links.len() + 2int] == target);
    } else {
        assert forall|k: int| 0 <= k < d.len() implies d[k] != target by {
            let n: int = links.len() + 2int;
            if n <= k < n + extra.len() {
                assert(d[k] == DirectiveView::Include(extra[k - n]));
                assert(extra[k - n] != rand_extra_path(manifest_dir));
            }
        }
    }
}

} // verus!
