//! What a whole survey amounts to: every request and every line, in order.

use vstd::prelude::*;
use crate::classify::symbol_for;
use crate::endpoint::{repos_endpoint, runs_endpoint};
use crate::report::line_of;
use crate::run::{newest, RunView};
use crate::survey::{list_or_done, Stage};

verus! {

/// One thing that a survey has its caller do.
pub ghost enum Effect {
    /// Ask the forge at this address.
    Get(Seq<char>),
    /// Write this line.
    Print(Seq<char>),
}

/// A forge, as far as a survey can tell: which repositories it lists for an
/// account, and which runs, newest first, for a repository of an account.
pub ghost struct Forge {
    pub repos: spec_fn(Seq<char>) -> Seq<Seq<char>>,
    pub runs: spec_fn(Seq<char>, Seq<char>) -> Seq<RunView>,
}

/// What one repository takes: its runs are asked for, then its line is
/// written.
pub open spec fn repo_effects(forge: Forge, account: Seq<char>, repo: Seq<char>) -> Seq<Effect> {
    seq![
        Effect::Get(runs_endpoint(account, repo)),
        Effect::Print(line_of(account, repo, symbol_for(newest((forge.runs)(account, repo))))),
    ]
}

/// What the repositories of a listing take from position `from` on, one
/// after the other in the order listed.
pub open spec fn listed_effects(
    forge: Forge,
    account: Seq<char>,
    repos: Seq<Seq<char>>,
    from: int,
) -> Seq<Effect>
    decreases repos.len() - from,
{
    if 0 <= from < repos.len() {
        repo_effects(forge, account, repos[from]) + listed_effects(forge, account, repos, from + 1)
    } else {
        Seq::empty()
    }
}

/// What one account takes: its listing is asked for, then each repository
/// listed is dealt with.
pub open spec fn account_effects(forge: Forge, account: Seq<char>) -> Seq<Effect> {
    seq![Effect::Get(repos_endpoint(account))] + listed_effects(
        forge,
        account,
        (forge.repos)(account),
        0,
    )
}

/// What the accounts take from position `from` on: each account is dealt
/// with completely before the next one is touched.
pub open spec fn accounts_effects(forge: Forge, accounts: Seq<Seq<char>>, from: int) -> Seq<Effect>
    decreases accounts.len() - from,
{
    if 0 <= from < accounts.len() {
        account_effects(forge, accounts[from]) + accounts_effects(forge, accounts, from + 1)
    } else {
        Seq::empty()
    }
}

/// What is left to do at a stage.
pub open spec fn remaining(forge: Forge, stage: Stage) -> Seq<Effect> {
    match stage {
        Stage::List(l) => accounts_effects(forge, l.accounts, l.index),
        Stage::Fetch(f) => listed_effects(forge, f.account(), f.repos, f.repo) + accounts_effects(
            forge,
            f.accounts,
            f.index + 1,
        ),
        Stage::Done => Seq::empty(),
    }
}

/// How far a stage is from the end, first of three measures: the accounts
/// that are not finished yet.
pub open spec fn accounts_left(stage: Stage) -> int {
    match stage {
        Stage::List(l) => l.accounts.len() - l.index,
        Stage::Fetch(f) => f.accounts.len() - f.index,
        Stage::Done => 0,
    }
}

/// Second measure: whether the listing of the current account is still to
/// come.
pub open spec fn listing_due(stage: Stage) -> int {
    match stage {
        Stage::List(_) => 1,
        _ => 0,
    }
}

/// Third measure: the repositories of the current listing that are not
/// finished yet.
pub open spec fn repos_left(stage: Stage) -> int {
    match stage {
        Stage::Fetch(f) => f.repos.len() - f.repo,
        _ => 0,
    }
}

/// Everything that happens from a stage to the end of the survey, when each
/// request is answered by the forge and each answer is handed back: step by
/// step, as the stages follow one another.
pub open spec fn course(forge: Forge, stage: Stage) -> Seq<Effect>
    decreases accounts_left(stage), listing_due(stage), repos_left(stage),
{
    if !stage.wf() {
        Seq::empty()
    } else {
        match stage {
            Stage::List(l) => seq![Effect::Get(l.url())] + course(
                forge,
                l.answered((forge.repos)(l.account())),
            ),
            Stage::Fetch(f) => seq![
                Effect::Get(f.url()),
                Effect::Print(f.line((forge.runs)(f.account(), f.repository()))),
            ] + course(forge, f.answered()),
            Stage::Done => Seq::empty(),
        }
    }
}

/// From any stage on, a survey does exactly what is left to do there.
pub proof fn lemma_course_from(forge: Forge, stage: Stage)
    requires
        stage.wf(),
    ensures
        course(forge, stage) == remaining(forge, stage),
    decreases accounts_left(stage), listing_due(stage), repos_left(stage),
{
    match stage {
        Stage::List(l) => {
            let repos = (forge.repos)(l.account());
            let ask = seq![Effect::Get(l.url())];
            let listed = listed_effects(forge, l.account(), repos, 0);
            let rest = accounts_effects(forge, l.accounts, l.index + 1);
            lemma_course_from(forge, l.answered(repos));
            assert(ask + (listed + rest) =~= (ask + listed) + rest);
        },
        Stage::Fetch(f) => {
            let this = repo_effects(forge, f.account(), f.repository());
            let listed = listed_effects(forge, f.account(), f.repos, f.repo + 1);
            let rest = accounts_effects(forge, f.accounts, f.index + 1);
            lemma_course_from(forge, f.answered());
            assert(this + (listed + rest) =~= (this + listed) + rest);
        },
        Stage::Done => {},
    }
}

/// A survey of some accounts, taken from its start to its end, deals with
/// the accounts one after the other in the order given, and within each
/// account with its repositories in the order listed: nothing is asked or
/// written for an account before the account in front of it is finished.
pub proof fn lemma_survey_in_order(forge: Forge, accounts: Seq<Seq<char>>)
    ensures
        course(forge, list_or_done(accounts, 0)) == accounts_effects(forge, accounts, 0),
{
    lemma_course_from(forge, list_or_done(accounts, 0));
}

} // verus!
