use vstd::prelude::*;
use crate::memory::{gb_centi, spec_gb_centi};
use crate::text::{centi_text, decimal_text, push_centi, push_decimal};

verus! {

broadcast use vstd::seq_lib::group_to_multiset_ensures;

/// One entry of the process table.
#[derive(Clone, Debug)]
pub struct ProcessReading {
    pub pid: u32,
    pub name: String,
    pub status: String,
    /// CPU usage in hundredths of a percent.
    pub cpu_centi: i64,
    pub memory_bytes: u64,
}

/// Processes in ascending order of id, ties kept together.
pub open spec fn pids_ascending(s: Seq<ProcessReading>) -> bool {
    forall|i: int, j: int| 0 <= i < j < s.len() ==> #[trigger] s[i].pid <= #[trigger] s[j].pid
}

/// Processes in strictly ascending order of id.
pub open spec fn pids_strictly_ascending(s: Seq<ProcessReading>) -> bool {
    forall|i: int, j: int| 0 <= i < j < s.len() ==> #[trigger] s[i].pid < #[trigger] s[j].pid
}

/// No two processes share an id.
pub open spec fn pids_distinct(s: Seq<ProcessReading>) -> bool {
    forall|i: int, j: int|
        0 <= i < s.len() && 0 <= j < s.len() && i != j ==> #[trigger] s[i].pid != #[trigger] s[j].pid
}

/// The lines of one process: id, name, status, CPU usage and memory in gigabytes.
pub open spec fn process_entry(p: ProcessReading) -> Seq<char> {
    "PID: "@ + decimal_text(p.pid as nat) + "\n  Name: "@ + p.name@ + "\n  Status: "@ + p.status@
        + "\n  CPU Usage: "@ + centi_text(p.cpu_centi as int) + "%\n  Memory Usage: "@
        + centi_text(spec_gb_centi(p.memory_bytes as int)) + " GB\n"@
}

/// The entries of the processes, in the order given.
pub open spec fn process_text(s: Seq<ProcessReading>) -> Seq<char>
    decreases s.len(),
{
    if s.len() == 0 {
        Seq::empty()
    } else {
        process_text(s.drop_last()) + process_entry(s.last())
    }
}

/// Orders the processes by id.
pub fn sort_processes(v: Vec<ProcessReading>) -> (r: Vec<ProcessReading>)
    ensures
        pids_ascending(r@),
        r@.to_multiset() == v@.to_multiset(),
{
    let ghost orig = v@;
    let mut rest = v;
    let mut sorted: Vec<ProcessReading> = Vec::new();
    while rest.len() > 0
        invariant
            pids_ascending(sorted@),
            rest@.to_multiset().add(sorted@.to_multiset()) == orig.to_multiset(),
        decreases rest@.len(),
    {
        let ghost before = rest@;
        let x = rest.pop().unwrap();
        proof {
            assert(before =~= rest@.push(x));
        }
        let mut p: usize = 0;
        while p < sorted.len() && sorted[p].pid <= x.pid
            invariant
                p <= sorted@.len(),
                forall|k: int| 0 <= k < p ==> (#[trigger] sorted@[k]).pid <= x.pid,
            decreases sorted@.len() - p,
        {
            p = p + 1;
        }
        let ghost old_sorted = sorted@;
        sorted.insert(p, x);
        proof {
            assert forall|i: int, j: int| 0 <= i < j < sorted@.len() implies #[trigger] sorted@[i].pid
                <= #[trigger] sorted@[j].pid by {
                if j == p as int {
                    assert(sorted@[i] == old_sorted[i]);
                } else if i == p as int {
                    assert(sorted@[j] == old_sorted[j - 1]);
                    assert(old_sorted[p as int].pid > x.pid);
                    if j - 1 > p {
                        assert(old_sorted[p as int].pid <= old_sorted[j - 1].pid);
                    }
                } else {
                    let ii = if i < p { i } else { i - 1 };
                    let jj = if j < p { j } else { j - 1 };
                    assert(sorted@[i] == old_sorted[ii]);
                    assert(sorted@[j] == old_sorted[jj]);
                }
            }
        }
    }
    sorted
}

/// Appends the lines of one process.
fn push_process_entry(text: &mut String, p: &ProcessReading)
    ensures
        final(text)@ == old(text)@ + process_entry(*p),
{
    text.append("PID: ");
    push_decimal(text, p.pid as u64);
    text.append("\n  Name: ");
    text.append(p.name.as_str());
    text.append("\n  Status: ");
    text.append(p.status.as_str());
    text.append("\n  CPU Usage: ");
    push_centi(text, p.cpu_centi);
    text.append("%\n  Memory Usage: ");
    push_centi(text, gb_centi(p.memory_bytes));
    text.append(" GB\n");
    assert(final(text)@ =~= old(text)@ + process_entry(*p));
}

/// Formats the process table as a text panel, in ascending order of id
/// whatever the order in which the processes are given.
pub fn render_process_info(v: Vec<ProcessReading>) -> (r: String)
    ensures
        exists|s: Seq<ProcessReading>|
            {
                &&& pids_ascending(s)
                &&& s.to_multiset() == v@.to_multiset()
                &&& r@ == process_text(s)
                &&& (pids_distinct(v@) ==> pids_strictly_ascending(s))
            },
{
    let sorted = sort_processes(v);
    let mut text = String::new();
    let mut i: usize = 0;
    while i < sorted.len()
        invariant
            i <= sorted@.len(),
            text@ == process_text(sorted@.take(i as int)),
        decreases sorted@.len() - i,
    {
        push_process_entry(&mut text, &sorted[i]);
        proof {
            let p = sorted@.take(i + 1);
            assert(p.drop_last() =~= sorted@.take(i as int));
        }
        i = i + 1;
    }
    assert(sorted@.take(i as int) =~= sorted@);
    proof {
        if pids_distinct(v@) {
            lemma_reorder_keeps_pids_distinct(v@, sorted@);
            lemma_distinct_pids_strictly_ascending(sorted@);
        }
    }
    text
}

/// Reordering processes keeps their ids pairwise different.
pub proof fn lemma_reorder_keeps_pids_distinct(a: Seq<ProcessReading>, b: Seq<ProcessReading>)
    requires
        a.to_multiset() == b.to_multiset(),
        pids_distinct(a),
    ensures
        pids_distinct(b),
{
    broadcast use vstd::multiset::group_multiset_axioms;

    assert forall|i: int, j: int| 0 <= i < a.len() && 0 <= j < a.len() && i != j implies a[i]
        != a[j] by {
        assert(a[i].pid != a[j].pid);
    }
    assert(a.no_duplicates());
    a.lemma_multiset_has_no_duplicates();
    b.lemma_multiset_has_no_duplicates_conv();
    assert forall|i: int, j: int|
        0 <= i < b.len() && 0 <= j < b.len() && i != j implies #[trigger] b[i].pid
        != #[trigger] b[j].pid by {
        if b[i].pid == b[j].pid {
            assert(b.contains(b[i]));
            assert(b.contains(b[j]));
            vstd::seq_lib::to_multiset_contains(b, b[i]);
            vstd::seq_lib::to_multiset_contains(b, b[j]);
            vstd::seq_lib::to_multiset_contains(a, b[i]);
            vstd::seq_lib::to_multiset_contains(a, b[j]);
            let k = choose|k: int| 0 <= k < a.len() && a[k] == b[i];
            let l = choose|l: int| 0 <= l < a.len() && a[l] == b[j];
            assert(a[k].pid == a[l].pid);
        }
    }
}

/// Processes ordered by id whose ids are all different stand in strictly
/// ascending order.
pub proof fn lemma_distinct_pids_strictly_ascending(s: Seq<ProcessReading>)
    requires
        pids_ascending(s),
        pids_distinct(s),
    ensures
        pids_strictly_ascending(s),
{
}

} // verus!
