//! The order of the work, apart from the work itself.
//!
//! A survey asks the forge one question at a time: for each account, in the
//! order given, the listing of its repositories, and then for each repository,
//! in the order listed, its newest run. After each answer about a repository
//! one line is due. This module decides what to ask next and what to write;
//! asking and writing are left to the caller, who hands each answer back.
//!
//! A request that fails ends the survey: the caller drops it where it stands,
//! and with it goes every request and every line that was still to come.
//! There is no way to skip a question or to ask one twice.

use vstd::prelude::*;
use crate::classify::{classify, symbol_for};
use crate::endpoint::{repos_endpoint, repos_url, runs_endpoint, runs_url};
use crate::report::{line_of, status_line};
use crate::run::{names, newest, Repo, RunView, RunsResponse};

verus! {

/// The views of a list of texts, in order.
pub open spec fn texts(v: Seq<String>) -> Seq<Seq<char>> {
    v.map_values(|s: String| s@)
}

/// What is written to the error stream when no account was named.
pub const USAGE: &'static str = "Usage: ghstatus-rs <user> [user2 ...]";

/// No account was named, so there is nothing to ask.
#[derive(Debug)]
pub struct UsageError;

impl UsageError {
    /// The text for the error stream.
    pub fn message(&self) -> (text: &'static str)
        ensures
            text@ == USAGE@,
    {
        USAGE
    }

    /// The exit code of a process that ends on this error.
    pub fn exit_code(&self) -> (code: i32)
        ensures
            code == 1,
    {
        1
    }
}

/// A survey that is about to ask for the repositories of one account.
pub ghost struct ListingView {
    pub accounts: Seq<Seq<char>>,
    pub index: int,
}

/// A survey that is about to ask for the newest run of one repository.
pub ghost struct FetchingView {
    pub accounts: Seq<Seq<char>>,
    pub index: int,
    pub repos: Seq<Seq<char>>,
    pub repo: int,
}

/// Where a survey stands.
pub ghost enum Stage {
    List(ListingView),
    Fetch(FetchingView),
    Done,
}

/// The survey turns to the account at `index`, or ends where there is none.
pub open spec fn list_or_done(accounts: Seq<Seq<char>>, index: int) -> Stage {
    if 0 <= index < accounts.len() {
        Stage::List(ListingView { accounts, index })
    } else {
        Stage::Done
    }
}

impl ListingView {
    /// The account exists.
    pub open spec fn wf(self) -> bool {
        0 <= self.index < self.accounts.len()
    }

    /// The account in question.
    pub open spec fn account(self) -> Seq<char> {
        self.accounts[self.index]
    }

    /// The address to ask.
    pub open spec fn url(self) -> Seq<char> {
        repos_endpoint(self.account())
    }

    /// Where the survey stands once the listing is known: at the first
    /// repository listed, or, with an empty listing, at the next account.
    pub open spec fn answered(self, repos: Seq<Seq<char>>) -> Stage {
        if repos.len() > 0 {
            Stage::Fetch(
                FetchingView { accounts: self.accounts, index: self.index, repos, repo: 0 },
            )
        } else {
            list_or_done(self.accounts, self.index + 1)
        }
    }
}

impl FetchingView {
    /// The account and the repository exist.
    pub open spec fn wf(self) -> bool {
        &&& 0 <= self.index < self.accounts.len()
        &&& 0 <= self.repo < self.repos.len()
    }

    /// The account in question.
    pub open spec fn account(self) -> Seq<char> {
        self.accounts[self.index]
    }

    /// The repository in question.
    pub open spec fn repository(self) -> Seq<char> {
        self.repos[self.repo]
    }

    /// The address to ask.
    pub open spec fn url(self) -> Seq<char> {
        runs_endpoint(self.account(), self.repository())
    }

    /// The line that is due once the runs are known. Only the newest run
    /// counts.
    pub open spec fn line(self, runs: Seq<RunView>) -> Seq<char> {
        line_of(self.account(), self.repository(), symbol_for(newest(runs)))
    }

    /// Where the survey stands after that line: at the next repository of
    /// the listing, or, after the last, at the next account.
    pub open spec fn answered(self) -> Stage {
        if self.repo + 1 < self.repos.len() {
            Stage::Fetch(FetchingView { repo: self.repo + 1, ..self })
        } else {
            list_or_done(self.accounts, self.index + 1)
        }
    }
}

impl Stage {
    /// Whatever the stage points at exists.
    pub open spec fn wf(self) -> bool {
        match self {
            Stage::List(l) => l.wf(),
            Stage::Fetch(f) => f.wf(),
            Stage::Done => true,
        }
    }
}

/// A survey waiting for the repositories of one account.
#[derive(Debug)]
pub struct Listing {
    accounts: Vec<String>,
    index: usize,
}

/// A survey waiting for the newest run of one repository.
#[derive(Debug)]
pub struct Fetching {
    accounts: Vec<String>,
    index: usize,
    repos: Vec<Repo>,
    repo: usize,
}

/// What a survey does next.
#[derive(Debug)]
pub enum Next {
    /// Ask for the repositories of an account.
    List(Listing),
    /// Ask for the newest run of a repository.
    Fetch(Fetching),
    /// Nothing: every account has been dealt with.
    Done,
}

impl View for Listing {
    type V = ListingView;

    closed spec fn view(&self) -> ListingView {
        ListingView { accounts: texts(self.accounts@), index: self.index as int }
    }
}

impl View for Fetching {
    type V = FetchingView;

    closed spec fn view(&self) -> FetchingView {
        FetchingView {
            accounts: texts(self.accounts@),
            index: self.index as int,
            repos: names(self.repos@),
            repo: self.repo as int,
        }
    }
}

impl View for Next {
    type V = Stage;

    open spec fn view(&self) -> Stage {
        match self {
            Next::List(l) => Stage::List(l@),
            Next::Fetch(f) => Stage::Fetch(f@),
            Next::Done => Stage::Done,
        }
    }
}

/// Begins a survey of the given accounts, in the order given. With no
/// account there is no survey, and nothing is asked of the forge.
pub fn start(accounts: Vec<String>) -> (first: Result<Listing, UsageError>)
    ensures
        first is Err <==> accounts@.len() == 0,
        first matches Ok(l) ==> l@ == (ListingView { accounts: texts(accounts@), index: 0 }),
        first matches Ok(l) ==> l@.wf(),
{
    if accounts.len() == 0 {
        Err(UsageError)
    } else {
        Ok(Listing { accounts, index: 0 })
    }
}

/// What follows the account at `index`, once it has been dealt with.
fn after_account(accounts: Vec<String>, index: usize) -> (next: Next)
    requires
        index < accounts@.len(),
    ensures
        next@ == list_or_done(texts(accounts@), index + 1),
{
    if index < accounts.len() - 1 {
        Next::List(Listing { accounts, index: index + 1 })
    } else {
        Next::Done
    }
}

impl Listing {
    #[verifier::type_invariant]
    spec fn inv(self) -> bool {
        self.index < self.accounts@.len()
    }

    /// The account whose repositories are asked for.
    pub fn account(&self) -> (name: &str)
        ensures
            self@.wf(),
            name@ == self@.account(),
    {
        proof {
            use_type_invariant(self);
        }
        self.accounts[self.index].as_str()
    }

    /// The address to ask.
    pub fn url(&self) -> (url: String)
        ensures
            self@.wf(),
            url@ == self@.url(),
    {
        repos_url(self.account())
    }

    /// Takes the listing that the forge gave and says what comes next.
    pub fn answer(self, repos: Vec<Repo>) -> (next: Next)
        ensures
            self@.wf(),
            next@ == self@.answered(names(repos@)),
            next@.wf(),
    {
        proof {
            use_type_invariant(&self);
        }
        if repos.len() > 0 {
            Next::Fetch(Fetching { accounts: self.accounts, index: self.index, repos, repo: 0 })
        } else {
            after_account(self.accounts, self.index)
        }
    }
}

impl Fetching {
    #[verifier::type_invariant]
    spec fn inv(self) -> bool {
        &&& self.index < self.accounts@.len()
        &&& self.repo < self.repos@.len()
    }

    /// The account that owns the repository.
    pub fn account(&self) -> (name: &str)
        ensures
            self@.wf(),
            name@ == self@.account(),
    {
        proof {
            use_type_invariant(self);
        }
        self.accounts[self.index].as_str()
    }

    /// The repository whose newest run is asked for.
    pub fn repository(&self) -> (name: &str)
        ensures
            self@.wf(),
            name@ == self@.repository(),
    {
        proof {
            use_type_invariant(self);
        }
        self.repos[self.repo].name.as_str()
    }

    /// The address to ask.
    pub fn url(&self) -> (url: String)
        ensures
            self@.wf(),
            url@ == self@.url(),
    {
        runs_url(self.account(), self.repository())
    }

    /// Takes the runs that the forge gave, and says which line to write and
    /// what comes next.
    pub fn answer(self, runs: &RunsResponse) -> (out: (String, Next))
        ensures
            self@.wf(),
            out.0@ == self@.line(runs@),
            out.1@ == self@.answered(),
            out.1@.wf(),
    {
        proof {
            use_type_invariant(&self);
        }
        let line = status_line(self.account(), self.repository(), classify(runs.latest()));
        let next = if self.repo < self.repos.len() - 1 {
            Next::Fetch(
                Fetching {
                    accounts: self.accounts,
                    index: self.index,
                    repos: self.repos,
                    repo: self.repo + 1,
                },
            )
        } else {
            after_account(self.accounts, self.index)
        };
        (line, next)
    }
}

} // verus!
