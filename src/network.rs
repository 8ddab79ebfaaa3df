use vstd::prelude::*;
use crate::order::{text_le, text_less, text_lt, lemma_text_lt_irreflexive, lemma_text_lt_total, lemma_text_lt_transitive};
use crate::text::{decimal_text, push_decimal};

verus! {

broadcast use vstd::seq_lib::group_to_multiset_ensures;

/// Cumulative byte counters of one network interface.
#[derive(Clone, Debug)]
pub struct NetworkReading {
    pub name: String,
    pub received: u64,
    pub transmitted: u64,
}

/// Interfaces ordered by name, ties kept together.
pub open spec fn names_ascending(s: Seq<NetworkReading>) -> bool {
    forall|i: int, j: int| 0 <= i < j < s.len() ==> text_le(#[trigger] s[i].name@, #[trigger] s[j].name@)
}

/// Interfaces in strictly ascending order of name.
pub open spec fn names_strictly_ascending(s: Seq<NetworkReading>) -> bool {
    forall|i: int, j: int| 0 <= i < j < s.len() ==> text_lt(#[trigger] s[i].name@, #[trigger] s[j].name@)
}

/// No two interfaces share a name.
pub open spec fn names_distinct(s: Seq<NetworkReading>) -> bool {
    forall|i: int, j: int| 0 <= i < s.len() && 0 <= j < s.len() && i != j ==> #[trigger] s[i].name@ != #[trigger] s[j].name@
}

/// The lines of one interface: name, then received and transmitted bytes.
pub open spec fn network_entry(n: NetworkReading) -> Seq<char> {
    "Interface: "@ + n.name@ + "\n  Received: "@ + decimal_text(n.received as nat)
        + " bytes\n  Transmitted: "@ + decimal_text(n.transmitted as nat) + " bytes\n"@
}

/// The entries of the interfaces, in the order given.
pub open spec fn network_text(s: Seq<NetworkReading>) -> Seq<char>
    decreases s.len(),
{
    if s.len() == 0 {
        Seq::empty()
    } else {
        network_text(s.drop_last()) + network_entry(s.last())
    }
}

/// Orders the interfaces by name; interfaces of equal name keep no
/// particular order among themselves.
pub fn sort_interfaces(v: Vec<NetworkReading>) -> (r: Vec<NetworkReading>)
    ensures
        names_ascending(r@),
        r@.to_multiset() == v@.to_multiset(),
{
    let ghost orig = v@;
    let mut rest = v;
    let mut sorted: Vec<NetworkReading> = Vec::new();
    while rest.len() > 0
        invariant
            names_ascending(sorted@),
            rest@.to_multiset().add(sorted@.to_multiset()) == orig.to_multiset(),
        decreases rest@.len(),
    {
        let ghost before = rest@;
        let x = rest.pop().unwrap();
        proof {
            assert(before =~= rest@.push(x));
        }
        let mut p: usize = 0;
        while p < sorted.len() && !text_less(x.name.as_str(), sorted[p].name.as_str())
            invariant
                p <= sorted@.len(),
                forall|k: int| 0 <= k < p ==> !text_lt(x.name@, #[trigger] sorted@[k].name@),
            decreases sorted@.len() - p,
        {
            p = p + 1;
        }
        let ghost old_sorted = sorted@;
        sorted.insert(p, x);
        proof {
            assert forall|i: int, j: int| 0 <= i < j < sorted@.len() implies text_le(
                #[trigger] sorted@[i].name@,
                #[trigger] sorted@[j].name@,
            ) by {
                if j == p as int {
                    assert(sorted@[i] == old_sorted[i]);
                } else if i == p as int {
                    let y = old_sorted[j - 1];
                    assert(sorted@[j] == y);
                    if p < old_sorted.len() {
                        let z = old_sorted[p as int];
                        assert(text_lt(x.name@, z.name@));
                        if j - 1 > p {
                            assert(text_le(z.name@, y.name@));
                        }
                        if text_lt(y.name@, x.name@) {
                            lemma_text_lt_transitive(y.name@, x.name@, z.name@);
                            lemma_text_lt_irreflexive(y.name@);
                        }
                    }
                } else {
                    let ii = if i < p { i } else { i - 1 };
                    let jj = if j < p { j } else { j - 1 };
                    assert(sorted@[i] == old_sorted[ii]);
                    assert(sorted@[j] == old_sorted[jj]);
                }
            }
        }
    }
    sorted
}

/// Appends the lines of one interface.
fn push_network_entry(text: &mut String, n: &NetworkReading)
    ensures
        final(text)@ == old(text)@ + network_entry(*n),
{
    text.append("Interface: ");
    text.append(n.name.as_str());
    text.append("\n  Received: ");
    push_decimal(text, n.received);
    text.append(" bytes\n  Transmitted: ");
    push_decimal(text, n.transmitted);
    text.append(" bytes\n");
    assert(final(text)@ =~= old(text)@ + network_entry(*n));
}

/// Formats the interfaces as a text panel, in ascending order of name
/// whatever the order in which they are given.
pub fn render_network_info(v: Vec<NetworkReading>) -> (r: String)
    ensures
        exists|s: Seq<NetworkReading>|
            {
                &&& names_ascending(s)
                &&& s.to_multiset() == v@.to_multiset()
                &&& r@ == network_text(s)
                &&& (names_distinct(v@) ==> names_strictly_ascending(s))
            },
{
    let sorted = sort_interfaces(v);
    let mut text = String::new();
    let mut i: usize = 0;
    while i < sorted.len()
        invariant
            i <= sorted@.len(),
            text@ == network_text(sorted@.take(i as int)),
        decreases sorted@.len() - i,
    {
        push_network_entry(&mut text, &sorted[i]);
        proof {
            let p = sorted@.take(i + 1);
            assert(p.drop_last() =~= sorted@.take(i as int));
        }
        i = i + 1;
    }
    assert(sorted@.take(i as int) =~= sorted@);
    proof {
        if names_distinct(v@) {
            lemma_reorder_keeps_names_distinct(v@, sorted@);
            lemma_distinct_names_strictly_ascending(sorted@);
        }
    }
    text
}

/// Reordering interfaces keeps their names pairwise different.
pub proof fn lemma_reorder_keeps_names_distinct(a: Seq<NetworkReading>, b: Seq<NetworkReading>)
    requires
        a.to_multiset() == b.to_multiset(),
        names_distinct(a),
    ensures
        names_distinct(b),
{
    broadcast use vstd::multiset::group_multiset_axioms;

    assert forall|i: int, j: int| 0 <= i < a.len() && 0 <= j < a.len() && i != j implies a[i]
        != a[j] by {
        assert(a[i].name@ != a[j].name@);
    }
    assert(a.no_duplicates());
    a.lemma_multiset_has_no_duplicates();
    b.lemma_multiset_has_no_duplicates_conv();
    assert forall|i: int, j: int|
        0 <= i < b.len() && 0 <= j < b.len() && i != j implies #[trigger] b[i].name@
        != #[trigger] b[j].name@ by {
        if b[i].name@ == b[j].name@ {
            assert(b.contains(b[i]));
            assert(b.contains(b[j]));
            vstd::seq_lib::to_multiset_contains(b, b[i]);
            vstd::seq_lib::to_multiset_contains(b, b[j]);
            vstd::seq_lib::to_multiset_contains(a, b[i]);
            vstd::seq_lib::to_multiset_contains(a, b[j]);
            let k = choose|k: int| 0 <= k < a.len() && a[k] == b[i];
            let l = choose|l: int| 0 <= l < a.len() && a[l] == b[j];
            assert(a[k].name@ == a[l].name@);
        }
    }
}

/// Interfaces ordered by name whose names are all different stand in
/// strictly ascending order.
pub proof fn lemma_distinct_names_strictly_ascending(s: Seq<NetworkReading>)
    requires
        names_ascending(s),
        names_distinct(s),
    ensures
        names_strictly_ascending(s),
{
    assert forall|i: int, j: int| 0 <= i < j < s.len() implies text_lt(
        #[trigger] s[i].name@,
        #[trigger] s[j].name@,
    ) by {
        lemma_text_lt_total(s[i].name@, s[j].name@);
    }
}

} // verus!
