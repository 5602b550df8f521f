use vstd::prelude::*;
use crate::paths::PathParts;

verus! {

/// A file placed in the staging directory, with the index of the candidate
/// directory it is copied from.
#[derive(Clone, Debug, PartialEq, Eq)]
pub struct StagedEntry {
    pub name: String,
    pub source: usize,
}

impl View for StagedEntry {
    type V = (Seq<char>, nat);

    open spec fn view(&self) -> (Seq<char>, nat) {
        (self.name@, self.source as nat)
    }
}

pub open spec fn entries_view(v: Seq<StagedEntry>) -> Seq<(Seq<char>, nat)> {
    v.map_values(|x: StagedEntry| x@)
}

/// Whether some staged entry has the name `n`.
pub open spec fn has_name(e: Seq<(Seq<char>, nat)>, n: Seq<char>) -> bool {
    exists|k: int| 0 <= k < e.len() && #[trigger] e[k].0 == n
}

/// Merges one candidate's names into the staging entries, skipping names
/// that are already present.
pub open spec fn add_names(e: Seq<(Seq<char>, nat)>, names: Seq<Seq<char>>, src: nat) -> Seq<
    (Seq<char>, nat),
>
    decreases names.len(),
{
    if names.len() == 0 {
        e
    } else {
        let e1 = add_names(e, names.drop_last(), src);
        if has_name(e1, names.last()) {
            e1
        } else {
            e1.push((names.last(), src))
        }
    }
}

/// Merges every candidate, in order, into the staging entries.
pub open spec fn stage_spec(e: Seq<(Seq<char>, nat)>, c: Seq<Seq<Seq<char>>>) -> Seq<
    (Seq<char>, nat),
>
    decreases c.len(),
{
    if c.len() == 0 {
        e
    } else {
        add_names(stage_spec(e, c.drop_last()), c.last(), (c.len() - 1) as nat)
    }
}

/// Whether some candidate lists the name `n`.
pub open spec fn listed(c: Seq<Seq<Seq<char>>>, n: Seq<char>) -> bool {
    exists|i: int| 0 <= i < c.len() && #[trigger] c[i].contains(n)
}

proof fn lemma_add_names_shape(e: Seq<(Seq<char>, nat)>, names: Seq<Seq<char>>, src: nat)
    ensures
        add_names(e, names, src).len() >= e.len(),
        forall|k: int| 0 <= k < e.len() ==> #[trigger] add_names(e, names, src)[k] == e[k],
        forall|k: int|
            e.len() <= k < add_names(e, names, src).len() ==> (#[trigger] add_names(
                e,
                names,
                src,
            )[k]).1 == src && !has_name(e, add_names(e, names, src)[k].0),
        forall|n: Seq<char>|
            #[trigger] has_name(add_names(e, names, src), n) <==> (has_name(e, n)
                || names.contains(n)),
    decreases names.len(),
{
    if names.len() > 0 {
        let e1 = add_names(e, names.drop_last(), src);
        lemma_add_names_shape(e, names.drop_last(), src);
        let r = add_names(e, names, src);
        assert forall|n: Seq<char>| #[trigger] has_name(r, n) <==> (has_name(e, n) || names.contains(n)) by {
            if has_name(r, n) {
                if !has_name(e1, n) {
                    assert(r[r.len() - 1].0 == n);
                    assert(names[names.len() - 1] == n);
                }
            }
            if names.contains(n) && !has_name(e1, n) {
                let j = choose|j: int| 0 <= j < names.len() && names[j] == n;
                if j < names.len() - 1 {
                    assert(names.drop_last()[j] == n);
                }
                assert(r[r.len() - 1].0 == n);
            }
            if has_name(e1, n) {
                let k = choose|k: int| 0 <= k < e1.len() && e1[k].0 == n;
                assert(r[k].0 == n);
            }
            if names.drop_last().contains(n) {
                let j = choose|j: int| 0 <= j < names.drop_last().len() && names.drop_last()[j] == n;
                assert(names[j] == n);
            }
        }
    }
}

proof fn lemma_stage_has(e: Seq<(Seq<char>, nat)>, c: Seq<Seq<Seq<char>>>)
    ensures
        forall|n: Seq<char>|
            #[trigger] has_name(stage_spec(e, c), n) <==> (has_name(e, n) || listed(c, n)),
        stage_spec(e, c).len() >= e.len(),
        forall|k: int| 0 <= k < e.len() ==> #[trigger] stage_spec(e, c)[k] == e[k],
    decreases c.len(),
{
    if c.len() > 0 {
        lemma_stage_has(e, c.drop_last());
        let s1 = stage_spec(e, c.drop_last());
        lemma_add_names_shape(s1, c.last(), (c.len() - 1) as nat);
        assert forall|n: Seq<char>| #[trigger] has_name(stage_spec(e, c), n) <==> (has_name(e, n) || listed(c, n)) by {
            if listed(c.drop_last(), n) {
                let i = choose|i: int| 0 <= i < c.drop_last().len() && c.drop_last()[i].contains(n);
                assert(c[i].contains(n));
            }
            if listed(c, n) {
                let i = choose|i: int| 0 <= i < c.len() && c[i].contains(n);
                if i < c.len() - 1 {
                    assert(c.drop_last()[i].contains(n));
                }
            }
        }
    }
}

proof fn lemma_add_names_present(e: Seq<(Seq<char>, nat)>, names: Seq<Seq<char>>, src: nat)
    requires
        forall|j: int| 0 <= j < names.len() ==> has_name(e, #[trigger] names[j]),
    ensures
        add_names(e, names, src) == e,
    decreases names.len(),
{
    if names.len() > 0 {
        assert(has_name(e, names[names.len() - 1]));
        lemma_add_names_present(e, names.drop_last(), src);
    }
}

proof fn lemma_stage_present(e: Seq<(Seq<char>, nat)>, c: Seq<Seq<Seq<char>>>)
    requires
        forall|n: Seq<char>| listed(c, n) ==> #[trigger] has_name(e, n),
    ensures
        stage_spec(e, c) == e,
    decreases c.len(),
{
    if c.len() > 0 {
        assert forall|n: Seq<char>| listed(c.drop_last(), n) implies #[trigger] has_name(e, n) by {
            let i = choose|i: int| 0 <= i < c.drop_last().len() && c.drop_last()[i].contains(n);
            assert(c[i].contains(n));
        }
        lemma_stage_present(e, c.drop_last());
        assert forall|j: int| 0 <= j < c.last().len() implies has_name(e, #[trigger] c.last()[j]) by {
            assert(c[c.len() - 1].contains(c.last()[j]));
        }
        lemma_add_names_present(e, c.last(), (c.len() - 1) as nat);
    }
}

/// Staging is idempotent: merging the same candidates a second time changes
/// nothing.
pub proof fn lemma_stage_idempotent(e: Seq<(Seq<char>, nat)>, c: Seq<Seq<Seq<char>>>)
    ensures
        stage_spec(stage_spec(e, c), c) == stage_spec(e, c),
{
    lemma_stage_has(e, c);
    lemma_stage_present(stage_spec(e, c), c);
}

/// The earliest candidate that lists a name is the one it is staged from.
pub proof fn lemma_stage_earliest_wins(
    e: Seq<(Seq<char>, nat)>,
    c: Seq<Seq<Seq<char>>>,
    n: Seq<char>,
    i: int,
)
    requires
        !has_name(e, n),
        0 <= i < c.len(),
        c[i].contains(n),
        forall|j: int| 0 <= j < i ==> !(#[trigger] c[j]).contains(n),
    ensures
        has_name(stage_spec(e, c), n),
        forall|k: int|
            0 <= k < stage_spec(e, c).len() && (#[trigger] stage_spec(e, c)[k]).0 == n
                ==> stage_spec(e, c)[k].1 == i,
    decreases c.len(),
{
    lemma_stage_has(e, c);
    let last = c.len() - 1;
    let s1 = stage_spec(e, c.drop_last());
    lemma_add_names_shape(s1, c.last(), last as nat);
    lemma_stage_has(e, c.drop_last());
    if i < last {
        assert(c.drop_last()[i] == c[i]);
        assert forall|j: int| 0 <= j < i implies !(#[trigger] c.drop_last()[j]).contains(n) by {
            assert(c.drop_last()[j] == c[j]);
        }
        lemma_stage_earliest_wins(e, c.drop_last(), n, i);
    } else {
        assert(!listed(c.drop_last(), n)) by {
            if listed(c.drop_last(), n) {
                let j = choose|j: int| 0 <= j < c.drop_last().len() && c.drop_last()[j].contains(n);
                assert(c[j].contains(n));
            }
        }
        assert(!has_name(s1, n));
        assert forall|k: int| 0 <= k < s1.len() implies (#[trigger] s1[k]).0 != n by {
            if s1[k].0 == n {
                assert(has_name(s1, n));
            }
        }
    }
}

fn contains_name(entries: &Vec<StagedEntry>, name: &String) -> (r: bool)
    ensures
        r == has_name(entries_view(entries@), name@),
{
    let mut k: usize = 0;
    while k < entries.len()
        invariant
            k <= entries.len(),
            forall|j: int| 0 <= j < k ==> entries@[j].name@ != name@,
        decreases entries.len() - k,
    {
        if entries[k].name == *name {
            assert(entries_view(entries@)[k as int].0 == name@);
            return true;
        }
        k = k + 1;
    }
    assert forall|j: int| 0 <= j < entries.len() implies #[trigger] entries_view(entries@)[j].0 != name@ by {
        assert(entries@[j].name@ != name@);
    }
    false
}

fn add_candidate(entries: &mut Vec<StagedEntry>, names: &Vec<String>, src: usize)
    ensures
        entries_view(final(entries)@) == add_names(
            entries_view(old(entries)@),
            names.deep_view(),
            src as nat,
        ),
{
    let ghost e0 = entries_view(entries@);
    let mut j: usize = 0;
    while j < names.len()
        invariant
            j <= names.len(),
            e0 == entries_view(old(entries)@),
            entries_view(entries@) == add_names(e0, names.deep_view().take(j as int), src as nat),
        decreases names.len() - j,
    {
        let ghost taken = names.deep_view().take(j + 1);
        assert(taken.drop_last() == names.deep_view().take(j as int));
        assert(taken.last() == names[j as int]@);
        if !contains_name(entries, &names[j]) {
            let ghost before = entries@;
            entries.push(StagedEntry { name: names[j].clone(), source: src });
            assert(entries_view(entries@) =~= entries_view(before).push((names[j as int]@, src as nat)));
        }
        j = j + 1;
    }
    assert(names.deep_view().take(names.len() as int) == names.deep_view());
}

/// Merges the candidate directories' file names, in order, into the staging
/// entries: a name already staged is skipped, so the earliest candidate that
/// lists a name is the one it is copied from.
pub fn stage_entries(entries: &mut Vec<StagedEntry>, candidates: &Vec<Vec<String>>)
    ensures
        entries_view(final(entries)@) == stage_spec(
            entries_view(old(entries)@),
            candidates.deep_view(),
        ),
{
    let ghost e0 = entries_view(entries@);
    let mut i: usize = 0;
    while i < candidates.len()
        invariant
            i <= candidates.len(),
            e0 == entries_view(old(entries)@),
            entries_view(entries@) == stage_spec(e0, candidates.deep_view().take(i as int)),
        decreases candidates.len() - i,
    {
        let ghost taken = candidates.deep_view().take(i + 1);
        assert(taken.drop_last() == candidates.deep_view().take(i as int));
        assert(taken.last() == candidates[i as int].deep_view());
        add_candidate(entries, &candidates[i], i);
        i = i + 1;
    }
    assert(candidates.deep_view().take(candidates.len() as int) == candidates.deep_view());
}

/// The directories whose headers are staged, earliest first: first-party
/// headers, generated headers, the vendored library's headers, then any
/// extra directories.
pub open spec fn include_candidates_spec(
    manifest_dir: Seq<Seq<char>>,
    extra: Seq<Seq<Seq<char>>>,
) -> Seq<Seq<Seq<char>>> {
    seq![
        manifest_dir.push("include"@),
        manifest_dir.push("generated-include"@),
        manifest_dir.push("aws-lc"@).push("include"@),
    ] + extra
}

pub fn include_candidates(manifest_dir: &PathParts, extra: &Vec<PathParts>) -> (r: Vec<PathParts>)
    ensures
        r@.map_values(|p: PathParts| p@) == include_candidates_spec(
            manifest_dir@,
            extra@.map_values(|p: PathParts| p@),
        ),
{
    let mut r: Vec<PathParts> = Vec::new();
    r.push(crate::paths::get_rust_include_path(manifest_dir));
    r.push(crate::paths::get_generated_include_path(manifest_dir));
    r.push(crate::paths::get_aws_lc_include_path(manifest_dir));
    let mut i: usize = 0;
    while i < extra.len()
        invariant
            i <= extra.len(),
            r.len() == 3 + i,
            r@[0]@ == manifest_dir@.push("include"@),
            r@[1]@ == manifest_dir@.push("generated-include"@),
            r@[2]@ == manifest_dir@.push("aws-lc"@).push("include"@),
            forall|k: int| 0 <= k < i ==> r@[3 + k]@ == extra@[k]@,
        decreases extra.len() - i,
    {
        r.push(extra[i].duplicate());
        i = i + 1;
    }
    assert(r@.map_values(|p: PathParts| p@) =~= include_candidates_spec(
        manifest_dir@,
        extra@.map_values(|p: PathParts| p@),
    ));
    r
}

} // verus!
