//! Where the forge answers, and how a request names itself.

use vstd::prelude::*;
use vstd::string::StringExecFns;

verus! {

/// The `User-Agent` header that every request carries; the forge rejects
/// requests without one.
pub const USER_AGENT: &'static str = "ghstatus-rs";

/// The address that lists the repositories of an account.
pub open spec fn repos_endpoint(account: Seq<char>) -> Seq<char> {
    "https://api.github.com/users/"@ + account + "/repos"@
}

/// The address that answers with the newest run of one repository, and no
/// more than that one.
pub open spec fn runs_endpoint(account: Seq<char>, repo: Seq<char>) -> Seq<char> {
    "https://api.github.com/repos/"@ + account + "/"@ + repo + "/actions/runs?per_page=1"@
}

/// Builds the address of an account's repository listing. The account name is
/// taken as it is given.
pub fn repos_url(account: &str) -> (url: String)
    ensures
        url@ == repos_endpoint(account@),
{
    let mut url = String::from_str("https://api.github.com/users/");
    url.append(account);
    url.append("/repos");
    url
}

/// Builds the address of a repository's newest run. Both names are taken as
/// they are given.
pub fn runs_url(account: &str, repo: &str) -> (url: String)
    ensures
        url@ == runs_endpoint(account@, repo@),
{
    let mut url = String::from_str("https://api.github.com/repos/");
    url.append(account);
    url.append("/");
    url.append(repo);
    url.append("/actions/runs?per_page=1");
    url
}

} // verus!
