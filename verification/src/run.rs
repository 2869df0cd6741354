//! The records that the forge hands out, as far as this library reads them.

use vstd::prelude::*;

verus! {

/// One repository of an account. Its model is its name.
#[derive(Debug)]
pub struct Repo {
    pub name: String,
}

impl View for Repo {
    type V = Seq<char>;

    open spec fn view(&self) -> Seq<char> {
        self.name@
    }
}

/// The names of a listing, in the order of the listing.
pub open spec fn names(repos: Seq<Repo>) -> Seq<Seq<char>> {
    repos.map_values(|r: Repo| r@)
}

/// One execution of a workflow.
///
/// `conclusion` is present only once the run has finished; while it is absent
/// `status` alone says where the run stands.
#[derive(Debug)]
pub struct Run {
    pub status: String,
    pub conclusion: Option<String>,
}

/// What a run says, as text.
pub ghost struct RunView {
    pub status: Seq<char>,
    pub conclusion: Option<Seq<char>>,
}

impl View for Run {
    type V = RunView;

    open spec fn view(&self) -> RunView {
        RunView {
            status: self.status@,
            conclusion: match self.conclusion {
                Some(c) => Some(c@),
                None => None,
            },
        }
    }
}

/// The answer to a query for the runs of one repository, newest first.
#[derive(Debug)]
pub struct RunsResponse {
    pub workflow_runs: Vec<Run>,
}

impl View for RunsResponse {
    type V = Seq<RunView>;

    open spec fn view(&self) -> Seq<RunView> {
        self.workflow_runs@.map_values(|r: Run| r@)
    }
}

/// The newest run of an answer, if it holds any.
pub open spec fn newest(runs: Seq<RunView>) -> Option<RunView> {
    if runs.len() > 0 {
        Some(runs[0])
    } else {
        None
    }
}

impl RunsResponse {
    /// The newest run: the first of the answer, or nothing where the
    /// repository has no runs at all.
    pub fn latest(&self) -> (run: Option<&Run>)
        ensures
            run is Some <==> self.workflow_runs@.len() > 0,
            run matches Some(r) ==> *r == self.workflow_runs@[0],
            view_of(run) == newest(self@),
    {
        if self.workflow_runs.len() > 0 {
            Some(&self.workflow_runs[0])
        } else {
            None
        }
    }
}

/// The model of a run that may be absent.
pub open spec fn view_of(run: Option<&Run>) -> Option<RunView> {
    match run {
        Some(r) => Some(r@),
        None => None,
    }
}

} // verus!
