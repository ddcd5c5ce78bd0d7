//! The manifest locator: starting from a canonicalized directory, probe for a
//! manifest file, ascending to the parent on each miss, until a manifest is
//! found or the filesystem root has been probed.
//!
//! A directory is modelled as its components from the root, so the root
//! itself is the empty sequence. The front end canonicalizes the working
//! directory, probes the file system, and feeds the answers in; every
//! decision is made here.

use vstd::prelude::*;

verus! {

/// The file name probed for in every ancestor directory.
pub open spec fn manifest_file_name() -> Seq<char> {
    "Cargo.toml"@
}

/// The directory reached after `k` ascents from `start`.
pub open spec fn ancestor_dir(start: Seq<Seq<char>>, k: int) -> Seq<Seq<char>> {
    start.take(start.len() - k)
}

/// The manifest path inside the directory reached after `k` ascents.
pub open spec fn manifest_path_at(start: Seq<Seq<char>>, k: int) -> Seq<Seq<char>> {
    ancestor_dir(start, k).push(manifest_file_name())
}

/// The index of the first `true` answer: the depth of the nearest ancestor
/// that holds a manifest.
pub open spec fn first_hit(answers: Seq<bool>) -> Option<int>
    decreases answers.len(),
{
    if answers.len() == 0 {
        None
    } else if answers[0] {
        Some(0)
    } else {
        match first_hit(answers.drop_first()) {
            Some(i) => Some(i + 1),
            None => None,
        }
    }
}

proof fn lemma_first_hit_at(answers: Seq<bool>, k: int)
    requires
        0 <= k < answers.len(),
        answers[k],
        forall|j: int| 0 <= j < k ==> !answers[j],
    ensures
        first_hit(answers) == Some(k),
    decreases k,
{
    if k > 0 {
        lemma_first_hit_at(answers.drop_first(), k - 1);
    }
}

proof fn lemma_first_hit_none(answers: Seq<bool>)
    requires
        forall|j: int| 0 <= j < answers.len() ==> !answers[j],
    ensures
        first_hit(answers) is None,
    decreases answers.len(),
{
    if answers.len() > 0 {
        lemma_first_hit_none(answers.drop_first());
    }
}

/// One decision of the locator's loop.
pub enum LocateStep {
    /// A manifest sits in the probed directory; its path is returned.
    Found(Vec<String>),
    /// No manifest here; ascend to this parent directory and probe again.
    Ascend(Vec<String>),
    /// No manifest here and the root has been reached: no project exists.
    NotFound,
}

/// One step of the locator: `manifest_here` is the file system's answer for
/// the directory `current`.
pub fn locate_step(current: Vec<String>, manifest_here: bool) -> (r: LocateStep)
    ensures
        manifest_here ==> (r matches LocateStep::Found(p) && p.deep_view()
            == current.deep_view().push(manifest_file_name())),
        !manifest_here && current@.len() > 0 ==> (r matches LocateStep::Ascend(d) && d.deep_view()
            == current.deep_view().drop_last()),
        !manifest_here && current@.len() == 0 ==> r is NotFound,
{
    let mut dir = current;
    if manifest_here {
        dir.push("Cargo.toml".to_owned());
        proof {
            assert(dir.deep_view() =~= current.deep_view().push(manifest_file_name()));
        }
        LocateStep::Found(dir)
    } else if dir.len() > 0 {
        dir.pop();
        proof {
            assert(dir.deep_view() =~= current.deep_view().drop_last());
        }
        LocateStep::Ascend(dir)
    } else {
        LocateStep::NotFound
    }
}

/// The meaning of iterating `locate_step` from `start`, consulting the file
/// system's answers ancestor by ancestor: the manifest path found, if any,
/// and the number of probes made before stopping.
pub open spec fn locator_run(start: Seq<Seq<char>>, answers: Seq<bool>) -> (
    Option<Seq<Seq<char>>>,
    int,
)
    decreases answers.len(),
{
    if answers.len() == 0 {
        (None, 0)
    } else if answers[0] {
        (Some(start.push(manifest_file_name())), 1)
    } else if start.len() == 0 {
        (None, 1)
    } else {
        let rest = locator_run(start.drop_last(), answers.drop_first());
        (rest.0, rest.1 + 1)
    }
}

/// The locator's probe-count law: when the nearest manifest-holding ancestor
/// sits at depth `k`, the step loop stops with that manifest's path after
/// exactly `k + 1` probes, and it reports "not found" only when no ancestor
/// up to and including the root holds a manifest, after probing every one.
pub proof fn lemma_locator_run_probes(start: Seq<Seq<char>>, answers: Seq<bool>)
    requires
        answers.len() == start.len() + 1,
    ensures
        (match first_hit(answers) {
            Some(k) => locator_run(start, answers) == (Some(manifest_path_at(start, k)), k + 1),
            None => locator_run(start, answers) == (None::<Seq<Seq<char>>>, start.len() + 1 as int),
        }),
    decreases start.len(),
{
    if answers[0] {
        assert(start.take(start.len() as int) =~= start);
    } else if start.len() > 0 {
        lemma_locator_run_probes(start.drop_last(), answers.drop_first());
        match first_hit(answers.drop_first()) {
            Some(k) => {
                assert(first_hit(answers) == Some(k + 1));
                assert(0 <= k < answers.drop_first().len()) by {
                    lemma_first_hit_in_bounds(answers.drop_first());
                }
                assert(ancestor_dir(start.drop_last(), k) =~= ancestor_dir(start, k + 1));
            },
            None => {
                assert(first_hit(answers) is None);
            },
        }
    }
}

proof fn lemma_first_hit_in_bounds(answers: Seq<bool>)
    ensures
        (first_hit(answers) matches Some(k) ==> 0 <= k < answers.len()),
    decreases answers.len(),
{
    if answers.len() > 0 && !answers[0] {
        lemma_first_hit_in_bounds(answers.drop_first());
    }
}

/// The whole search, given the file system's answer for every ancestor of
/// `start` (innermost first, the root's answer last).
///
/// When the nearest manifest-holding ancestor sits at depth `k`, the search
/// returns that manifest's path after exactly `k + 1` probes; it reports
/// "not found" only when no ancestor up to and including the root holds a
/// manifest, after probing every one of them.
pub fn find_manifest(start: &Vec<String>, has_manifest: &Vec<bool>) -> (r: (
    Option<Vec<String>>,
    usize,
))
    requires
        has_manifest@.len() == start@.len() + 1,
    ensures
        (match first_hit(has_manifest@) {
            Some(k) => r.0 matches Some(p) && p.deep_view() == manifest_path_at(
                start.deep_view(),
                k,
            ) && r.1 == k + 1,
            None => r.0 is None && r.1 == start@.len() + 1,
        }),
{
    let n: usize = start.len();
    let total: usize = has_manifest.len();
    let mut k: usize = 0;
    loop
        invariant
            n == start@.len(),
            total == has_manifest@.len(),
            total == n + 1,
            k <= n,
            forall|j: int| 0 <= j < k ==> !has_manifest@[j],
        decreases n - k,
    {
        if has_manifest[k] {
            let keep: usize = n - k;
            let mut path: Vec<String> = Vec::new();
            let mut i: usize = 0;
            while i < keep
                invariant
                    keep <= start@.len(),
                    i <= keep,
                    path@.len() == i,
                    forall|j: int| 0 <= j < i ==> path.deep_view()[j] == start.deep_view()[j],
                decreases keep - i,
            {
                path.push(start[i].clone());
                proof {
                    assert(path.deep_view()[i as int] == start.deep_view()[i as int]);
                }
                i = i + 1;
            }
            path.push("Cargo.toml".to_owned());
            proof {
                lemma_first_hit_at(has_manifest@, k as int);
                assert(path.deep_view()[keep as int] == manifest_file_name());
                assert(path.deep_view() =~= manifest_path_at(start.deep_view(), k as int));
            }
            return (Some(path), k + 1);
        }
        if k == n {
            proof {
                lemma_first_hit_none(has_manifest@);
            }
            return (None, k + 1);
        }
        k = k + 1;
    }
}

} // verus!
