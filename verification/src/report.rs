//! What is written out: one line per repository.

use vstd::prelude::*;
use vstd::string::StringExecFns;

verus! {

/// A line of the report: the account, a slash, the repository, a space and
/// the symbol.
pub open spec fn line_of(account: Seq<char>, repo: Seq<char>, symbol: Seq<char>) -> Seq<char> {
    account + "/"@ + repo + " "@ + symbol
}

/// Writes one line of the report, without a line ending.
pub fn status_line(account: &str, repo: &str, symbol: &str) -> (line: String)
    ensures
        line@ == line_of(account@, repo@, symbol@),
{
    let mut line = String::from_str(account);
    line.append("/");
    line.append(repo);
    line.append(" ");
    line.append(symbol);
    line
}

} // verus!
