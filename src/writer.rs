//! Planning the writes of the final artifacts: each artifact goes to a file
//! named after the last segment of its path, directly under the output
//! directory. Artifacts that share that name land on the same file.
use vstd::prelude::*;
use vstd::string::StringExecFns;
use crate::workflow::Artifact;

verus! {

/// The last segment of a path, as camino's `Utf8Path::file_name` finds it.
pub uninterp spec fn file_name_of(path: Seq<char>) -> Option<Seq<char>>;

/// Relies on `camino::Utf8Path::file_name`: the final component of the path,
/// or `None` when there is none (the path ends in `..`, or is a root).
#[verifier::external_body]
fn file_name(path: &str) -> (r: Option<String>)
    ensures
        r is Some ==> file_name_of(path@) == Some(r->0@),
        r is None ==> file_name_of(path@) is None,
{
    camino::Utf8Path::new(path).file_name().map(String::from)
}

/// One file to write under the output directory.
pub struct PlannedWrite {
    pub file_name: String,
    pub content: String,
}

/// The view of an optional string.
pub open spec fn opt_view(o: Option<String>) -> Option<Seq<char>> {
    match o {
        Some(s) => Some(s@),
        None => None,
    }
}

/// The file names of the artifacts' paths, in order.
pub open spec fn names_of(artifacts: Seq<Artifact>) -> Seq<Option<Seq<char>>> {
    artifacts.map_values(|a: Artifact| file_name_of(a.path@))
}

/// The (file name, content) pairs to write, in the artifacts' order, when the
/// artifacts' paths have the file names `names`: an artifact whose path has no
/// file name is skipped.
pub open spec fn planned(artifacts: Seq<Artifact>, names: Seq<Option<Seq<char>>>) -> Seq<
    (Seq<char>, Seq<char>),
>
    decreases artifacts.len(),
{
    if artifacts.len() == 0 {
        seq![]
    } else {
        let rest = planned(artifacts.drop_last(), names.drop_last());
        match names.last() {
            Some(n) => rest.push((n, artifacts.last().content@)),
            None => rest,
        }
    }
}

/// The (file name, content) pairs of a plan.
pub open spec fn writes_view(writes: Seq<PlannedWrite>) -> Seq<(Seq<char>, Seq<char>)> {
    writes.map_values(|w: PlannedWrite| (w.file_name@, w.content@))
}

/// The writes for `artifacts`, given the file name of each artifact's path in
/// `names`, in the same order.
pub fn plan_writes_with_names(artifacts: &[Artifact], names: &Vec<Option<String>>) -> (r: Vec<
    PlannedWrite,
>)
    requires
        names@.len() == artifacts@.len(),
    ensures
        writes_view(r@) == planned(artifacts@, names@.map_values(|n: Option<String>| opt_view(n))),
{
    let ghost nv = names@.map_values(|n: Option<String>| opt_view(n));
    let mut r: Vec<PlannedWrite> = Vec::new();
    let mut i: usize = 0;
    while i < artifacts.len()
        invariant
            names@.len() == artifacts@.len(),
            nv == names@.map_values(|n: Option<String>| opt_view(n)),
            i <= artifacts@.len(),
            writes_view(r@) == planned(artifacts@.subrange(0, i as int), nv.subrange(0, i as int)),
        decreases artifacts@.len() - i,
    {
        let ghost prev = r@;
        assert(artifacts@.subrange(0, i + 1).drop_last() =~= artifacts@.subrange(0, i as int));
        assert(nv.subrange(0, i + 1).drop_last() =~= nv.subrange(0, i as int));
        match &names[i] {
            Some(n) => {
                r.push(PlannedWrite { file_name: n.clone(), content: artifacts[i].content.clone() });
                assert(writes_view(r@) =~= writes_view(prev).push((n@, artifacts@[i as int].content@)));
            },
            None => {},
        }
        i = i + 1;
    }
    assert(artifacts@.subrange(0, artifacts@.len() as int) =~= artifacts@);
    assert(nv.subrange(0, artifacts@.len() as int) =~= nv);
    r
}

/// The writes for `artifacts`: for each artifact whose path has a file name,
/// in order, that name and the artifact's content. Two artifacts whose paths
/// end in the same name give two writes to the same file.
pub fn plan_writes(artifacts: &[Artifact]) -> (r: Vec<PlannedWrite>)
    ensures
        writes_view(r@) == planned(artifacts@, names_of(artifacts@)),
{
    let mut names: Vec<Option<String>> = Vec::new();
    let mut i: usize = 0;
    while i < artifacts.len()
        invariant
            i <= artifacts@.len(),
            names@.len() == i,
            forall|j: int|
                0 <= j < i ==> opt_view(#[trigger] names@[j]) == file_name_of(artifacts@[j].path@),
        decreases artifacts@.len() - i,
    {
        names.push(file_name(artifacts[i].path.as_str()));
        i = i + 1;
    }
    assert(names@.map_values(|n: Option<String>| opt_view(n)) =~= names_of(artifacts@));
    plan_writes_with_names(artifacts, &names)
}

/// The path of a single manifest file under `outpath`:
/// `outpath/manifests/first/author/name/version.yaml`.
pub fn manifest_path(outpath: &str, first: &str, author: &str, name: &str, version: &str) -> (r:
    String)
    ensures
        r@ == outpath@ + "/manifests/"@ + first@ + "/"@ + author@ + "/"@ + name@ + "/"@ + version@
            + ".yaml"@,
{
    let mut r = String::from_str(outpath);
    r.append("/manifests/");
    r.append(first);
    r.append("/");
    r.append(author);
    r.append("/");
    r.append(name);
    r.append("/");
    r.append(version);
    r.append(".yaml");
    r
}

} // verus!
