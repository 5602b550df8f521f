use vstd::prelude::*;
use vstd::string::*;

verus! {

/// A filesystem path as its sequence of components, the first of which may
/// be a root.
#[derive(Clone, Debug, PartialEq, Eq)]
pub struct PathParts {
    pub parts: Vec<String>,
}

impl View for PathParts {
    type V = Seq<Seq<char>>;

    open spec fn view(&self) -> Seq<Seq<char>> {
        self.parts.deep_view()
    }
}

impl PathParts {
    pub fn new() -> (r: PathParts)
        ensures
            r@ == Seq::<Seq<char>>::empty(),
    {
        let r = PathParts { parts: Vec::new() };
        assert(r@ =~= Seq::<Seq<char>>::empty());
        r
    }

    pub fn from_parts(parts: Vec<String>) -> (r: PathParts)
        ensures
            r@ == parts.deep_view(),
    {
        PathParts { parts }
    }

    pub fn duplicate(&self) -> (r: PathParts)
        ensures
            r@ == self@,
    {
        let mut parts: Vec<String> = Vec::new();
        let mut i: usize = 0;
        while i < self.parts.len()
            invariant
                i <= self.parts.len(),
                parts.deep_view() == self@.take(i as int),
            decreases self.parts.len() - i,
        {
            parts.push(self.parts[i].clone());
            assert(self@.take(i + 1) == self@.take(i as int).push(self@[i as int]));
            i = i + 1;
        }
        assert(self@.take(self.parts.len() as int) == self@);
        PathParts { parts }
    }

    /// This path with one more component.
    pub fn join(&self, part: &str) -> (r: PathParts)
        ensures
            r@ == self@.push(part@),
    {
        let mut r = self.duplicate();
        r.parts.push(String::from_str(part));
        r
    }

    /// This path followed by every component of `other`.
    pub fn join_path(&self, other: &PathParts) -> (r: PathParts)
        ensures
            r@ == self@ + other@,
    {
        let mut r = self.duplicate();
        let mut i: usize = 0;
        while i < other.parts.len()
            invariant
                i <= other.parts.len(),
                r@ == self@ + other@.take(i as int),
            decreases other.parts.len() - i,
        {
            let ghost before = r@;
            r.parts.push(other.parts[i].clone());
            assert(r@ =~= before.push(other@[i as int]));
            assert(r@ =~= self@ + other@.take(i + 1));
            i = i + 1;
        }
        assert(other@.take(other.parts.len() as int) == other@);
        r
    }
}

pub fn get_aws_lc_include_path(manifest_dir: &PathParts) -> (r: PathParts)
    ensures
        r@ == manifest_dir@.push("aws-lc"@).push("include"@),
{
    manifest_dir.join("aws-lc").join("include")
}

/// Where the vendored library keeps its internal randomness-support headers.
pub open spec fn rand_extra_path(manifest_dir: Seq<Seq<char>>) -> Seq<Seq<char>> {
    manifest_dir.push("aws-lc"@).push("crypto"@).push("rand_extra"@)
}

pub fn get_aws_lc_rand_extra_path(manifest_dir: &PathParts) -> (r: PathParts)
    ensures
        r@ == rand_extra_path(manifest_dir@),
{
    manifest_dir.join("aws-lc").join("crypto").join("rand_extra")
}

pub fn get_rust_include_path(manifest_dir: &PathParts) -> (r: PathParts)
    ensures
        r@ == manifest_dir@.push("include"@),
{
    manifest_dir.join("include")
}

pub fn get_generated_include_path(manifest_dir: &PathParts) -> (r: PathParts)
    ensures
        r@ == manifest_dir@.push("generated-include"@),
{
    manifest_dir.join("generated-include")
}

/// The platform-specific part of the artifact directory: none.
pub fn get_platform_output_path() -> (r: PathParts)
    ensures
        r@ == Seq::<Seq<char>>::empty(),
{
    PathParts::new()
}

/// Where the native build leaves its libraries, under its output directory.
pub open spec fn artifact_dir(out_dir: Seq<Seq<char>>) -> Seq<Seq<char>> {
    out_dir.push("build"@).push("artifacts"@)
}

pub fn artifact_output_dir(path: &PathParts) -> (r: PathParts)
    ensures
        r@ == artifact_dir(path@),
{
    let r = path.join("build").join("artifacts").join_path(&get_platform_output_path());
    assert(r@ =~= artifact_dir(path@));
    r
}

/// The include directories that a colon-separated list names, one
/// single-component path per piece.
pub open spec fn extra_include_paths(list: Seq<char>) -> Seq<Seq<Seq<char>>> {
    crate::text::split_on(list, ':').map_values(|p: Seq<char>| seq![p])
}

/// The extra include directories given by the optional colon-separated list.
pub fn get_aws_lc_sys_includes_path(list: Option<&str>) -> (r: Option<Vec<PathParts>>)
    ensures
        list is None <==> r is None,
        list is Some ==> r->0@.map_values(|p: PathParts| p@) == extra_include_paths(list->0@),
{
    match list {
        None => None,
        Some(s) => {
            let pieces = crate::text::split_text(s, ':');
            let mut paths: Vec<PathParts> = Vec::new();
            let mut i: usize = 0;
            while i < pieces.len()
                invariant
                    i <= pieces.len(),
                    pieces.deep_view() == crate::text::split_on(s@, ':'),
                    paths.len() == i,
                    forall|k: int| 0 <= k < i ==> paths@[k]@ == seq![pieces.deep_view()[k]],
                decreases pieces.len() - i,
            {
                let mut one: Vec<String> = Vec::new();
                one.push(pieces[i].clone());
                let path = PathParts::from_parts(one);
                assert(path@ =~= seq![pieces.deep_view()[i as int]]);
                paths.push(path);
                i = i + 1;
            }
            assert(paths@.map_values(|p: PathParts| p@) =~= extra_include_paths(s@));
            Some(paths)
        },
    }
}

} // verus!
