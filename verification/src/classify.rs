//! From a run to the symbol that stands for it.

use vstd::prelude::*;
use crate::run::{Run, RunView, view_of};

verus! {

/// The run finished and succeeded.
pub const PASSED: &'static str = "✅";

/// The run finished and failed.
pub const FAILED: &'static str = "❌";

/// The run was cancelled.
pub const CANCELLED: &'static str = "🚫";

/// The run is under way.
pub const RUNNING: &'static str = "🔄";

/// The run waits for a runner.
pub const WAITING: &'static str = "⏳";

/// Nothing is known: no run, or a state that this library does not know.
pub const UNKNOWN: &'static str = "❔";

/// The decision table, read from the top: a recognised conclusion decides,
/// whatever the status; otherwise a recognised status decides; otherwise
/// nothing is known.
pub open spec fn symbol_of(run: RunView) -> Seq<char> {
    if run.conclusion == Some("success"@) {
        PASSED@
    } else if run.conclusion == Some("failure"@) {
        FAILED@
    } else if run.conclusion == Some("cancelled"@) {
        CANCELLED@
    } else if run.status == "in_progress"@ {
        RUNNING@
    } else if run.status == "queued"@ {
        WAITING@
    } else {
        UNKNOWN@
    }
}

/// The table extended to a repository without runs.
pub open spec fn symbol_for(run: Option<RunView>) -> Seq<char> {
    match run {
        Some(r) => symbol_of(r),
        None => UNKNOWN@,
    }
}

/// The six symbols, in the order of the table.
pub open spec fn symbols() -> Seq<Seq<char>> {
    seq![PASSED@, FAILED@, CANCELLED@, RUNNING@, WAITING@, UNKNOWN@]
}

/// Each symbol is a single character, no two of the six are the same, and
/// the table gives nothing but these six.
pub proof fn lemma_symbols()
    ensures
        PASSED@ == seq!['✅'],
        FAILED@ == seq!['❌'],
        CANCELLED@ == seq!['🚫'],
        RUNNING@ == seq!['🔄'],
        WAITING@ == seq!['⏳'],
        UNKNOWN@ == seq!['❔'],
        symbols().no_duplicates(),
        forall|run: Option<RunView>| symbols().contains(#[trigger] symbol_for(run)),
{
    reveal_strlit("✅");
    reveal_strlit("❌");
    reveal_strlit("🚫");
    reveal_strlit("🔄");
    reveal_strlit("⏳");
    reveal_strlit("❔");
    assert(PASSED@ =~= seq!['✅']);
    assert(FAILED@ =~= seq!['❌']);
    assert(CANCELLED@ =~= seq!['🚫']);
    assert(RUNNING@ =~= seq!['🔄']);
    assert(WAITING@ =~= seq!['⏳']);
    assert(UNKNOWN@ =~= seq!['❔']);
    assert forall|i: int, j: int| 0 <= i < j < symbols().len() implies symbols()[i] != symbols()[j] by {
        assert(symbols()[i][0] != symbols()[j][0]);
    }
    assert forall|run: Option<RunView>| symbols().contains(#[trigger] symbol_for(run)) by {
        let s = symbol_for(run);
        assert(s == symbols()[0] || s == symbols()[1] || s == symbols()[2] || s == symbols()[3]
            || s == symbols()[4] || s == symbols()[5]);
    }
}

/// The three conclusions that the table knows are three different texts, and
/// so are the two statuses.
pub proof fn lemma_keywords_differ()
    ensures
        "success"@ != "failure"@,
        "success"@ != "cancelled"@,
        "failure"@ != "cancelled"@,
        "in_progress"@ != "queued"@,
{
    reveal_strlit("success");
    reveal_strlit("failure");
    reveal_strlit("cancelled");
    reveal_strlit("in_progress");
    reveal_strlit("queued");
    assert("success"@[0] != "failure"@[0]);
    assert("in_progress"@.len() != "queued"@.len());
}

/// The symbol for a run.
pub fn status_emoji(run: &Run) -> (symbol: &'static str)
    ensures
        symbol@ == symbol_of(run@),
        run@.conclusion == Some("success"@) ==> symbol@ == PASSED@,
        run@.conclusion == Some("failure"@) ==> symbol@ == FAILED@,
        run@.conclusion == Some("cancelled"@) ==> symbol@ == CANCELLED@,
        run@.conclusion is None && run@.status == "in_progress"@ ==> symbol@ == RUNNING@,
        run@.conclusion is None && run@.status == "queued"@ ==> symbol@ == WAITING@,
        run@.conclusion is None && run@.status != "in_progress"@ && run@.status != "queued"@
            ==> symbol@ == UNKNOWN@,
{
    proof {
        lemma_keywords_differ();
    }
    match &run.conclusion {
        Some(c) => {
            let c = c.as_str();
            if c.eq("success") {
                return PASSED;
            } else if c.eq("failure") {
                return FAILED;
            } else if c.eq("cancelled") {
                return CANCELLED;
            }
        },
        None => {},
    }
    let status = run.status.as_str();
    if status.eq("in_progress") {
        RUNNING
    } else if status.eq("queued") {
        WAITING
    } else {
        UNKNOWN
    }
}

/// The symbol for the newest run of a repository, which has none where the
/// repository has never run a workflow.
pub fn classify(run: Option<&Run>) -> (symbol: &'static str)
    ensures
        symbol@ == symbol_for(view_of(run)),
        run is None ==> symbol@ == UNKNOWN@,
        run matches Some(r) ==> symbol@ == symbol_of(r@),
{
    match run {
        Some(r) => status_emoji(r),
        None => UNKNOWN,
    }
}

} // verus!
