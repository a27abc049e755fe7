//! The search for the installed CLI.

use std::path::PathBuf;
use vstd::prelude::*;
use crate::proto::{texts_view, HarnessError, HarnessErrorView};

verus! {

/// `std::path::PathBuf`, a path of the file system. It is only carried through.
#[verifier::external_type_specification]
#[verifier::external_body]
pub struct ExPathBuf(PathBuf);

/// The places where the CLI may lie. Directories are known to the host; here each
/// stands for its position in the host's list.
pub struct SearchPlaces {
    /// The length of the value of `GROK_EXECUTABLE`, where it is set.
    pub override_len: Option<usize>,
    /// The lengths of the directories of `PATH`, in order.
    pub path_dir_lens: Vec<usize>,
    /// Whether the home directory is known.
    pub home: bool,
    /// How many directories the node version managers install programs to.
    pub manager_bins: usize,
    pub windows: bool,
}

/// Where a candidate starts.
#[derive(Clone, Copy, Debug, PartialEq, Eq, Structural)]
pub enum SearchRoot {
    /// The directory of `PATH` at this position.
    PathDir(usize),
    Home,
    /// Nowhere: the rest is an absolute path.
    Absolute,
    /// The directory of the node version managers at this position.
    ManagerBin(usize),
}

/// A path to try: below `root`, the components of `tail`.
#[derive(Debug, PartialEq, Eq)]
pub struct Candidate {
    pub root: SearchRoot,
    pub tail: Vec<String>,
}

/// The mathematical value of a [`Candidate`].
pub struct CandidateView {
    pub root: SearchRoot,
    pub tail: Seq<Seq<char>>,
}

impl View for Candidate {
    type V = CandidateView;

    open spec fn view(&self) -> CandidateView {
        CandidateView { root: self.root, tail: texts_view(self.tail@) }
    }
}

/// The values of a sequence of candidates.
pub open spec fn candidates_view(candidates: Seq<Candidate>) -> Seq<CandidateView> {
    candidates.map_values(|candidate: Candidate| candidate@)
}

/// Where the CLI is to be found.
pub enum ExecutablePlan<'a> {
    /// This binary, whether it is there or not.
    Fixed(&'a PathBuf),
    /// What `GROK_EXECUTABLE` names, whether it is there or not.
    Override,
    /// The first of these that is there.
    Search(Vec<Candidate>),
}

/// The mathematical value of an [`ExecutablePlan`].
pub enum ExecutablePlanView {
    Fixed(PathBuf),
    Override,
    Search(Seq<CandidateView>),
}

impl<'a> View for ExecutablePlan<'a> {
    type V = ExecutablePlanView;

    open spec fn view(&self) -> ExecutablePlanView {
        match self {
            ExecutablePlan::Fixed(path) => ExecutablePlanView::Fixed(**path),
            ExecutablePlan::Override => ExecutablePlanView::Override,
            ExecutablePlan::Search(candidates) => ExecutablePlanView::Search(
                candidates_view(candidates@),
            ),
        }
    }
}

/// What the program is called.
pub open spec fn program(windows: bool) -> Seq<char> {
    if windows {
        "grok.exe"@
    } else {
        "grok"@
    }
}

/// The candidates in the directories of `PATH`; empty entries do not count.
pub open spec fn path_candidates(lens: Seq<usize>, program: Seq<char>) -> Seq<CandidateView>
    decreases lens.len(),
{
    if lens.len() == 0 {
        Seq::empty()
    } else {
        let before = path_candidates(lens.drop_last(), program);
        if lens.last() > 0 {
            before.push(
                CandidateView {
                    root: SearchRoot::PathDir((lens.len() - 1) as usize),
                    tail: seq![program],
                },
            )
        } else {
            before
        }
    }
}

/// The candidates below the home directory.
pub open spec fn home_candidates(home: bool) -> Seq<CandidateView> {
    if home {
        seq![
            CandidateView { root: SearchRoot::Home, tail: seq![".grok"@, "bin"@, "grok"@] },
            CandidateView { root: SearchRoot::Home, tail: seq!["bin"@, "grok"@] },
            CandidateView { root: SearchRoot::Home, tail: seq![".local"@, "bin"@, "grok"@] },
        ]
    } else {
        Seq::empty()
    }
}

/// The candidates in common install locations.
pub open spec fn common_candidates() -> Seq<CandidateView> {
    seq![
        CandidateView { root: SearchRoot::Absolute, tail: seq!["/opt/homebrew/bin/grok"@] },
        CandidateView { root: SearchRoot::Absolute, tail: seq!["/usr/local/bin/grok"@] },
    ]
}

/// The candidates among the programs of the node version managers.
pub open spec fn manager_candidates(count: usize, program: Seq<char>) -> Seq<CandidateView> {
    Seq::new(
        count as nat,
        |i: int| CandidateView { root: SearchRoot::ManagerBin(i as usize), tail: seq![program] },
    )
}

/// All candidates, in the order in which they are tried.
pub open spec fn search_candidates(places: SearchPlaces) -> Seq<CandidateView> {
    path_candidates(places.path_dir_lens@, program(places.windows)) + home_candidates(places.home)
        + common_candidates() + manager_candidates(places.manager_bins, program(places.windows))
}

/// What to do about a CLI that is not fixed: a non-empty override counts before
/// any search.
pub open spec fn search_plan(places: SearchPlaces) -> ExecutablePlanView {
    match places.override_len {
        Some(len) => if len > 0 {
            ExecutablePlanView::Override
        } else {
            ExecutablePlanView::Search(search_candidates(places))
        },
        None => ExecutablePlanView::Search(search_candidates(places)),
    }
}

fn candidate(root: SearchRoot, name: &str) -> (made: Candidate)
    ensures
        made@ == (CandidateView { root, tail: seq![name@] }),
{
    let mut tail: Vec<String> = Vec::new();
    tail.push(name.to_owned());
    assert(texts_view(tail@) =~= seq![name@]);
    Candidate { root, tail }
}

fn push_home_candidates(candidates: &mut Vec<Candidate>)
    ensures
        candidates_view(final(candidates)@) == candidates_view(old(candidates)@)
            + home_candidates(true),
{
    let first = vec![".grok".to_owned(), "bin".to_owned(), "grok".to_owned()];
    let second = vec!["bin".to_owned(), "grok".to_owned()];
    let third = vec![".local".to_owned(), "bin".to_owned(), "grok".to_owned()];
    proof {
        assert(texts_view(first@) =~= seq![".grok"@, "bin"@, "grok"@]);
        assert(texts_view(second@) =~= seq!["bin"@, "grok"@]);
        assert(texts_view(third@) =~= seq![".local"@, "bin"@, "grok"@]);
    }
    candidates.push(Candidate { root: SearchRoot::Home, tail: first });
    candidates.push(Candidate { root: SearchRoot::Home, tail: second });
    candidates.push(Candidate { root: SearchRoot::Home, tail: third });
    assert(candidates_view(candidates@) =~= candidates_view(old(candidates)@) + home_candidates(
        true,
    ));
}

/// Locate the installed CLI: `GROK_EXECUTABLE`, then `PATH`, then common install
/// locations that launches from a desktop miss.
pub fn resolve_grok_executable(places: &SearchPlaces) -> (plan: ExecutablePlan<'static>)
    ensures
        plan@ == search_plan(*places),
{
    match places.override_len {
        Some(len) => if len > 0 {
            return ExecutablePlan::Override;
        },
        None => {},
    }
    let name = if places.windows {
        "grok.exe"
    } else {
        "grok"
    };
    let mut candidates: Vec<Candidate> = Vec::new();
    let ghost lens = places.path_dir_lens@;
    assert(candidates_view(candidates@) =~= path_candidates(lens.take(0), name@));
    let mut i: usize = 0;
    while i < places.path_dir_lens.len()
        invariant
            i <= places.path_dir_lens.len(),
            lens == places.path_dir_lens@,
            candidates_view(candidates@) == path_candidates(lens.take(i as int), name@),
        decreases places.path_dir_lens.len() - i,
    {
        let ghost before = candidates@;
        proof {
            assert(lens.take(i + 1).drop_last() =~= lens.take(i as int));
        }
        if places.path_dir_lens[i] > 0 {
            let found = candidate(SearchRoot::PathDir(i), name);
            candidates.push(found);
            assert(candidates_view(candidates@) =~= candidates_view(before).push(found@));
        }
        i += 1;
    }
    assert(lens.take(i as int) =~= lens);
    let ghost in_path = candidates@;
    if places.home {
        push_home_candidates(&mut candidates);
    }
    assert(candidates_view(candidates@) =~= candidates_view(in_path) + home_candidates(
        places.home,
    ));
    let ghost at_home = candidates@;
    candidates.push(candidate(SearchRoot::Absolute, "/opt/homebrew/bin/grok"));
    candidates.push(candidate(SearchRoot::Absolute, "/usr/local/bin/grok"));
    assert(candidates_view(candidates@) =~= candidates_view(at_home) + common_candidates());
    let ghost common = candidates@;
    let mut j: usize = 0;
    assert(candidates_view(candidates@) =~= candidates_view(common) + manager_candidates(0, name@));
    while j < places.manager_bins
        invariant
            j <= places.manager_bins,
            candidates_view(candidates@) == candidates_view(common) + manager_candidates(j, name@),
        decreases places.manager_bins - j,
    {
        let ghost before = candidates@;
        let found = candidate(SearchRoot::ManagerBin(j), name);
        candidates.push(found);
        j += 1;
        proof {
            assert(candidates_view(candidates@) =~= candidates_view(before).push(found@));
            assert(candidates_view(candidates@) =~= candidates_view(common) + manager_candidates(
                j,
                name@,
            ));
        }
    }
    ExecutablePlan::Search(candidates)
}

/// What is said when no candidate is there.
pub const NOT_INSTALLED: &'static str =
    "grok (searched PATH, ~/.grok/bin, ~/bin, ~/.local/bin, /opt/homebrew/bin, /usr/local/bin, and fnm/nvm/volta/pnpm/bun install dirs; set GROK_EXECUTABLE to override)";

/// Whether no candidate is there.
pub open spec fn none_there(present: Seq<bool>) -> bool {
    forall|j: int| 0 <= j < present.len() ==> !present[j]
}

/// The position of the first candidate that is there.
pub fn first_present(present: &Vec<bool>) -> (found: Result<usize, HarnessError>)
    ensures
        match found {
            Ok(i) => {
                &&& i < present@.len()
                &&& present@[i as int]
                &&& forall|j: int| 0 <= j < i ==> !present@[j]
            },
            Err(error) => {
                &&& forall|j: int| 0 <= j < present@.len() ==> !present@[j]
                &&& error@ == HarnessErrorView::NotInstalled(NOT_INSTALLED@)
            },
        },
        found is Err <==> none_there(present@),
{
    let mut i: usize = 0;
    while i < present.len()
        invariant
            i <= present.len(),
            forall|j: int| 0 <= j < i ==> !present@[j],
        decreases present.len() - i,
    {
        if present[i] {
            return Ok(i);
        }
        i += 1;
    }
    Err(HarnessError::NotInstalled(NOT_INSTALLED.to_owned()))
}

proof fn lemma_path_candidates_in_order(lens: Seq<usize>, program: Seq<char>)
    requires
        lens.len() <= usize::MAX,
    ensures
        forall|i: int|
            0 <= i < path_candidates(lens, program).len() ==> {
                &&& (#[trigger] path_candidates(lens, program)[i]).tail == seq![program]
                &&& path_candidates(lens, program)[i].root matches SearchRoot::PathDir(at)
                    && at < lens.len() && lens[at as int] > 0
            },
        forall|i: int, j: int|
            0 <= i < j < path_candidates(lens, program).len() ==> (
            #[trigger] path_candidates(lens, program)[i]).root->PathDir_0 < (
            #[trigger] path_candidates(lens, program)[j]).root->PathDir_0,
    decreases lens.len(),
{
    if lens.len() > 0 {
        lemma_path_candidates_in_order(lens.drop_last(), program);
        let before = path_candidates(lens.drop_last(), program);
        assert forall|i: int| 0 <= i < before.len() implies ((
        #[trigger] before[i]).root matches SearchRoot::PathDir(at) && at < lens.len()
            && lens[at as int] > 0) by {
            let at = before[i].root->PathDir_0;
            assert(lens.drop_last()[at as int] == lens[at as int]);
        }
    }
}

/// `PATH` comes first in the search, in its own order and without empty entries.
pub proof fn law_path_is_searched_first(places: SearchPlaces, i: int, j: int)
    requires
        0 <= i < j < search_candidates(places).len(),
        search_candidates(places)[j].root is PathDir,
    ensures
        search_candidates(places)[i].root matches SearchRoot::PathDir(at) && at
            < search_candidates(places)[j].root->PathDir_0 && places.path_dir_lens@[at as int] > 0,
{
    let lens = places.path_dir_lens@;
    let name = program(places.windows);
    let in_path = path_candidates(lens, name);
    assert(places.path_dir_lens.len() == lens.len());
    lemma_path_candidates_in_order(lens, name);
    assert(j < in_path.len());
    assert(search_candidates(places)[i] == in_path[i]);
    assert(search_candidates(places)[j] == in_path[j]);
}

} // verus!
