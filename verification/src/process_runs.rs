//! `process run` and `process status`: the run directories under
//! `.process/runs`, the summary a bootstrapped run starts with, and which
//! run `status` reports on.

use crate::quick_fix_run::join_path;
use crate::text::{chars_of, str_views};
use vstd::prelude::*;

verus! {

/// Where process runs are kept.
pub open spec fn runs_dir_text() -> Seq<char> {
    ".process/runs"@
}

pub fn runs_dir() -> (r: &'static str)
    ensures
        r@ == runs_dir_text(),
{
    ".process/runs"
}

/// `# Process Run <id>` with the task, in state `INTAKE`.
pub open spec fn run_summary(run_id: Seq<char>, task: Seq<char>) -> Seq<char> {
    "# Process Run "@ + run_id + "\n\n- task: "@ + task + "\n- state: INTAKE\n- status: bootstrapped\n"@
}

pub fn process_run_summary(run_id: &str, task: &str) -> (r: String)
    ensures
        r@ == run_summary(run_id@, task@),
{
    let mut r = String::from_str("# Process Run ");
    r.append(run_id);
    r.append("\n\n- task: ");
    r.append(task);
    r.append("\n- state: INTAKE\n- status: bootstrapped\n");
    r
}

/// `contract.json` of a bootstrapped run: the task, pending.
#[derive(Debug, Clone, PartialEq, Eq)]
pub struct ProcessRunContract {
    pub run_id: String,
    pub state: String,
    pub task: String,
    pub status: String,
}

/// `red-proof.json`: a failing-test proof is still to be captured.
#[derive(Debug, Clone, PartialEq, Eq)]
pub struct ProcessRunRedProof {
    pub state: String,
    pub status: String,
    pub required: String,
}

/// `verify.json`: the checks still to pass.
#[derive(Debug, Clone, PartialEq, Eq)]
pub struct ProcessRunVerify {
    pub state: String,
    pub status: String,
    pub required: Vec<String>,
}

/// `traceability.json`: no acceptance criterion is traced to tests and
/// files yet.
#[derive(Debug, Clone, PartialEq, Eq)]
pub struct ProcessRunTraceability {
    pub state: String,
    pub status: String,
    pub ac_to_tests_to_files: Vec<String>,
}

/// The JSON records a run starts with.
#[derive(Debug, Clone, PartialEq, Eq)]
pub struct ProcessRunRecords {
    pub contract: ProcessRunContract,
    pub red_proof: ProcessRunRedProof,
    pub verify: ProcessRunVerify,
    pub traceability: ProcessRunTraceability,
}

/// The records of run `run_id` bootstrapped for `task`: each in its state
/// (`CONTRACT`, `RED`, `VERIFY`, `EVIDENCE`) and pending.
pub open spec fn bootstrapped_records(r: ProcessRunRecords, run_id: Seq<char>, task: Seq<char>) -> bool {
    &&& r.contract.run_id@ == run_id
    &&& r.contract.state@ == "CONTRACT"@
    &&& r.contract.task@ == task
    &&& r.contract.status@ == "pending"@
    &&& r.red_proof.state@ == "RED"@
    &&& r.red_proof.status@ == "pending"@
    &&& r.red_proof.required@ == "capture failing test proof"@
    &&& r.verify.state@ == "VERIFY"@
    &&& r.verify.status@ == "pending"@
    &&& str_views(r.verify.required@) == seq!["lint"@, "tests"@]
    &&& r.traceability.state@ == "EVIDENCE"@
    &&& r.traceability.status@ == "pending"@
    &&& r.traceability.ac_to_tests_to_files@.len() == 0
}

pub fn process_run_records(run_id: &str, task: &str) -> (r: ProcessRunRecords)
    ensures
        bootstrapped_records(r, run_id@, task@),
{
    let required = vec![String::from_str("lint"), String::from_str("tests")];
    assert(str_views(required@) =~= seq!["lint"@, "tests"@]);
    ProcessRunRecords {
        contract: ProcessRunContract {
            run_id: run_id.to_owned(),
            state: String::from_str("CONTRACT"),
            task: task.to_owned(),
            status: String::from_str("pending"),
        },
        red_proof: ProcessRunRedProof {
            state: String::from_str("RED"),
            status: String::from_str("pending"),
            required: String::from_str("capture failing test proof"),
        },
        verify: ProcessRunVerify {
            state: String::from_str("VERIFY"),
            status: String::from_str("pending"),
            required,
        },
        traceability: ProcessRunTraceability {
            state: String::from_str("EVIDENCE"),
            status: String::from_str("pending"),
            ac_to_tests_to_files: Vec::new(),
        },
    }
}

pub open spec fn artifact_names() -> Seq<Seq<char>> {
    seq!["contract.json"@, "red-proof.json"@, "verify.json"@, "traceability.json"@, "summary.md"@]
}

/// The files a bootstrapped run holds, in the order `status` lists them.
pub fn process_run_artifact_names() -> (r: Vec<String>)
    ensures
        str_views(r@) == artifact_names(),
{
    let r = vec![
        String::from_str("contract.json"),
        String::from_str("red-proof.json"),
        String::from_str("verify.json"),
        String::from_str("traceability.json"),
        String::from_str("summary.md"),
    ];
    assert(str_views(r@) =~= artifact_names());
    r
}

pub open spec fn status_line(name: Seq<char>, present: bool) -> Seq<char> {
    "- "@ + name + ": "@ + (if present {
        "present"@
    } else {
        "missing"@
    })
}

pub fn artifact_status_line(name: &str, present: bool) -> (r: String)
    ensures
        r@ == status_line(name@, present),
{
    let mut r = String::from_str("- ");
    r.append(name);
    r.append(": ");
    if present {
        r.append("present");
    } else {
        r.append("missing");
    }
    r
}

/// The directory of run `run_id`.
pub fn run_dir(run_id: &str) -> (r: String)
    ensures
        r@ == join_path(runs_dir_text(), run_id@),
{
    let mut r = String::from_str(".process/runs");
    r.append("/");
    r.append(run_id);
    proof {
        reveal_strlit(".process/runs");
    }
    assert(r@ =~= join_path(runs_dir_text(), run_id@));
    r
}

/// Strict lexicographic order of code points, the order of `String`.
pub open spec fn text_less(a: Seq<char>, b: Seq<char>) -> bool
    decreases a.len(),
{
    if b.len() == 0 {
        false
    } else if a.len() == 0 {
        true
    } else if a[0] < b[0] {
        true
    } else if a[0] == b[0] {
        text_less(a.drop_first(), b.drop_first())
    } else {
        false
    }
}

proof fn lemma_text_less_total(a: Seq<char>, b: Seq<char>)
    ensures
        a != b ==> (text_less(a, b) || text_less(b, a)),
        !(text_less(a, b) && text_less(b, a)),
    decreases a.len(),
{
    if a.len() > 0 && b.len() > 0 {
        lemma_text_less_total(a.drop_first(), b.drop_first());
        if a[0] == b[0] && a != b {
            assert(a.drop_first() != b.drop_first()) by {
                if a.drop_first() == b.drop_first() {
                    assert(a =~= seq![a[0]] + a.drop_first());
                    assert(b =~= seq![b[0]] + b.drop_first());
                }
            }
        }
    } else if a.len() == 0 && b.len() == 0 {
        assert(a =~= b);
    }
}

proof fn lemma_text_less_irreflexive(a: Seq<char>)
    ensures
        !text_less(a, a),
    decreases a.len(),
{
    if a.len() > 0 {
        lemma_text_less_irreflexive(a.drop_first());
    }
}

proof fn lemma_text_less_transitive(a: Seq<char>, b: Seq<char>, c: Seq<char>)
    requires
        text_less(a, b),
        text_less(b, c),
    ensures
        text_less(a, c),
    decreases a.len(),
{
    if a.len() > 0 && b.len() > 0 && c.len() > 0 && a[0] == b[0] && b[0] == c[0] {
        lemma_text_less_transitive(a.drop_first(), b.drop_first(), c.drop_first());
    }
}

fn text_less_exec(a: &str, b: &str) -> (r: bool)
    ensures
        r == text_less(a@, b@),
{
    let x = chars_of(a);
    let y = chars_of(b);
    let mut i: usize = 0;
    assert(x@.skip(0) =~= x@);
    assert(y@.skip(0) =~= y@);
    while i < x.len() && i < y.len() && x[i] == y[i]
        invariant
            i <= x@.len(),
            i <= y@.len(),
            forall|k: int| 0 <= k < i ==> x@[k] == y@[k],
            text_less(a@, b@) == text_less(x@.skip(i as int), y@.skip(i as int)),
            x@ == a@,
            y@ == b@,
        decreases x@.len() - i,
    {
        assert(x@.skip(i as int).drop_first() =~= x@.skip(i + 1));
        assert(y@.skip(i as int).drop_first() =~= y@.skip(i + 1));
        i = i + 1;
    }
    if i == y.len() {
        assert(y@.skip(i as int).len() == 0);
        false
    } else if i == x.len() {
        assert(x@.skip(i as int).len() == 0);
        true
    } else {
        assert(x@.skip(i as int)[0] == x@[i as int]);
        assert(y@.skip(i as int)[0] == y@[i as int]);
        x[i] < y[i]
    }
}

/// The greatest of the run ids, which for ids made of the same number of
/// digits is the latest run.
pub fn latest_run_id(run_ids: &Vec<String>) -> (r: Option<String>)
    ensures
        run_ids@.len() == 0 <==> r is None,
        r matches Some(id) ==> exists|i: int| 0 <= i < run_ids@.len() && run_ids@[i]@ == id@,
        r matches Some(id) ==> forall|i: int| 0 <= i < run_ids@.len() ==> !text_less(id@, #[trigger] run_ids@[i]@),
{
    if run_ids.len() == 0 {
        return None;
    }
    let mut best: usize = 0;
    let mut i: usize = 1;
    proof {
        lemma_text_less_irreflexive(run_ids@[0]@);
    }
    while i < run_ids.len()
        invariant
            1 <= i <= run_ids@.len(),
            best < i,
            forall|k: int| 0 <= k < i ==> !text_less(run_ids@[best as int]@, #[trigger] run_ids@[k]@),
        decreases run_ids@.len() - i,
    {
        if text_less_exec(run_ids[best].as_str(), run_ids[i].as_str()) {
            proof {
                assert forall|k: int| 0 <= k < i + 1 implies !text_less(run_ids@[i as int]@, #[trigger] run_ids@[k]@) by {
                    lemma_text_less_total(run_ids@[i as int]@, run_ids@[k]@);
                    lemma_text_less_total(run_ids@[best as int]@, run_ids@[k]@);
                    if text_less(run_ids@[i as int]@, run_ids@[k]@) && k < i {
                        lemma_text_less_transitive(run_ids@[best as int]@, run_ids@[i as int]@, run_ids@[k]@);
                    }
                }
            }
            best = i;
        } else {
            proof {
                lemma_text_less_total(run_ids@[best as int]@, run_ids@[i as int]@);
            }
        }
        i = i + 1;
    }
    Some(run_ids[best].clone())
}

pub open spec fn no_runs_message(runs_dir: Seq<char>) -> Seq<char> {
    "No process runs found in "@ + runs_dir
}

pub fn no_process_runs_message(runs_dir: &str) -> (r: String)
    ensures
        r@ == no_runs_message(runs_dir@),
{
    let mut r = String::from_str("No process runs found in ");
    r.append(runs_dir);
    r
}

pub open spec fn missing_run_message(run_dir: Seq<char>) -> Seq<char> {
    "Run not found: "@ + run_dir
}

pub fn run_not_found_message(run_dir: &str) -> (r: String)
    ensures
        r@ == missing_run_message(run_dir@),
{
    let mut r = String::from_str("Run not found: ");
    r.append(run_dir);
    r
}

} // verus!
