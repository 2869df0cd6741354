use ghstatus::run::{Repo, Run, RunsResponse};
use ghstatus::survey::{start, Fetching, Listing, Next, USAGE};

fn accounts(names: &[&str]) -> Vec<String> {
    names.iter().map(|n| n.to_string()).collect()
}

fn listing(names: &[&str]) -> Vec<Repo> {
    names.iter().map(|n| Repo { name: n.to_string() }).collect()
}

fn runs(entries: &[(&str, Option<&str>)]) -> RunsResponse {
    RunsResponse {
        workflow_runs: entries
            .iter()
            .map(|(status, conclusion)| Run {
                status: status.to_string(),
                conclusion: conclusion.map(|c| c.to_string()),
            })
            .collect(),
    }
}

fn expect_list(next: Next) -> Listing {
    match next {
        Next::List(l) => l,
        other => panic!("expected a listing request, got {:?}", other),
    }
}

fn expect_fetch(next: Next) -> Fetching {
    match next {
        Next::Fetch(f) => f,
        other => panic!("expected a runs request, got {:?}", other),
    }
}

fn expect_done(next: Next) {
    match next {
        Next::Done => {}
        other => panic!("expected the end, got {:?}", other),
    }
}

#[test]
fn no_accounts_is_a_usage_error() {
    let error = match start(Vec::new()) {
        Err(e) => e,
        Ok(l) => panic!("nothing to ask, yet asked {}", l.url()),
    };
    assert_eq!(error.message(), "Usage: ghstatus-rs <user> [user2 ...]");
    assert_eq!(error.message(), USAGE);
    assert_eq!(error.exit_code(), 1);
    assert_ne!(error.exit_code(), 0);
}

#[test]
fn one_account_starts_with_its_listing() {
    let first = start(accounts(&["alice"])).expect("one account");
    assert_eq!(first.account(), "alice");
    assert_eq!(first.url(), "https://api.github.com/users/alice/repos");
}

#[test]
fn alice_with_a_green_and_an_empty_repository() {
    let mut requests: Vec<String> = Vec::new();
    let mut output: Vec<String> = Vec::new();

    let first = start(accounts(&["alice"])).expect("one account");
    requests.push(first.url());
    let r1 = expect_fetch(first.answer(listing(&["r1", "r2"])));
    assert_eq!(r1.account(), "alice");
    assert_eq!(r1.repository(), "r1");
    requests.push(r1.url());
    let (line, next) = r1.answer(&runs(&[("completed", Some("success"))]));
    output.push(line);
    let r2 = expect_fetch(next);
    assert_eq!(r2.account(), "alice");
    assert_eq!(r2.repository(), "r2");
    requests.push(r2.url());
    let (line, next) = r2.answer(&runs(&[]));
    output.push(line);
    expect_done(next);

    assert_eq!(output, vec!["alice/r1 ✅".to_string(), "alice/r2 ❔".to_string()]);
    assert_eq!(output.join("\n") + "\n", "alice/r1 ✅\nalice/r2 ❔\n");
    assert_eq!(
        requests,
        vec![
            "https://api.github.com/users/alice/repos".to_string(),
            "https://api.github.com/repos/alice/r1/actions/runs?per_page=1".to_string(),
            "https://api.github.com/repos/alice/r2/actions/runs?per_page=1".to_string(),
        ]
    );
}

#[test]
fn alice_is_finished_before_bob_is_touched() {
    let mut log: Vec<String> = Vec::new();

    let alice = start(accounts(&["alice", "bob"])).expect("two accounts");
    log.push(format!("GET {}", alice.url()));
    let a1 = expect_fetch(alice.answer(listing(&["a1", "a2"])));
    log.push(format!("GET {}", a1.url()));
    let (line, next) = a1.answer(&runs(&[("completed", Some("failure"))]));
    log.push(line);
    let a2 = expect_fetch(next);
    log.push(format!("GET {}", a2.url()));
    let (line, next) = a2.answer(&runs(&[("in_progress", None)]));
    log.push(line);
    let bob = expect_list(next);
    assert_eq!(bob.account(), "bob");
    log.push(format!("GET {}", bob.url()));
    let b1 = expect_fetch(bob.answer(listing(&["b1"])));
    log.push(format!("GET {}", b1.url()));
    let (line, next) = b1.answer(&runs(&[("queued", None)]));
    log.push(line);
    expect_done(next);

    assert_eq!(
        log,
        vec![
            "GET https://api.github.com/users/alice/repos".to_string(),
            "GET https://api.github.com/repos/alice/a1/actions/runs?per_page=1".to_string(),
            "alice/a1 ❌".to_string(),
            "GET https://api.github.com/repos/alice/a2/actions/runs?per_page=1".to_string(),
            "alice/a2 🔄".to_string(),
            "GET https://api.github.com/users/bob/repos".to_string(),
            "GET https://api.github.com/repos/bob/b1/actions/runs?per_page=1".to_string(),
            "bob/b1 ⏳".to_string(),
        ]
    );
}

#[test]
fn account_without_repositories_is_passed_over() {
    let alice = start(accounts(&["alice", "bob"])).expect("two accounts");
    let bob = expect_list(alice.answer(Vec::new()));
    assert_eq!(bob.account(), "bob");
    assert_eq!(bob.url(), "https://api.github.com/users/bob/repos");
    expect_done(bob.answer(Vec::new()));
}

#[test]
fn last_account_without_repositories_ends_the_survey() {
    let only = start(accounts(&["alice"])).expect("one account");
    expect_done(only.answer(Vec::new()));
}

#[test]
fn only_the_newest_run_counts() {
    let first = start(accounts(&["alice"])).expect("one account");
    let fetch = expect_fetch(first.answer(listing(&["r1"])));
    let (line, next) = fetch.answer(&runs(&[
        ("completed", Some("cancelled")),
        ("completed", Some("success")),
        ("queued", None),
    ]));
    assert_eq!(line, "alice/r1 🚫");
    expect_done(next);
}

#[test]
fn same_account_twice_is_surveyed_twice() {
    let first = start(accounts(&["alice", "alice"])).expect("two accounts");
    let fetch = expect_fetch(first.answer(listing(&["r1"])));
    let (line, next) = fetch.answer(&runs(&[("completed", Some("success"))]));
    assert_eq!(line, "alice/r1 ✅");
    let second = expect_list(next);
    assert_eq!(second.account(), "alice");
    let fetch = expect_fetch(second.answer(listing(&["r1"])));
    let (line, next) = fetch.answer(&runs(&[("completed", Some("failure"))]));
    assert_eq!(line, "alice/r1 ❌");
    expect_done(next);
}

#[test]
fn account_names_are_taken_as_given() {
    let first = start(accounts(&["", "Ünï cødé"])).expect("two accounts");
    assert_eq!(first.account(), "");
    assert_eq!(first.url(), "https://api.github.com/users//repos");
    let second = expect_list(first.answer(Vec::new()));
    assert_eq!(second.account(), "Ünï cødé");
    let fetch = expect_fetch(second.answer(listing(&["r"])));
    assert_eq!(fetch.url(), "https://api.github.com/repos/Ünï cødé/r/actions/runs?per_page=1");
}
