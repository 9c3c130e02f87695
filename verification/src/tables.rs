//! Capability tables: gate-time and decoherence entries kept in append-only
//! association lists.
//!
//! Each table is a `Vec` of entries read as a finite map; when a key occurs
//! more than once, the entry pushed last wins. Writing a key is therefore a
//! plain `push`, and a lookup scans from the end of the list backwards.

use vstd::prelude::*;

use crate::rates::DecoherenceRates;

verus! {

/// Reads a map entry as an optional value.
pub open spec fn map_get<K, V>(m: Map<K, V>, k: K) -> Option<V> {
    if m.contains_key(k) {
        Some(m[k])
    } else {
        None
    }
}

/// True iff `g` occurs in `names`.
pub open spec fn listed(names: Seq<Seq<char>>, g: Seq<char>) -> bool {
    exists|j: int| 0 <= j < names.len() && names[j] == g
}

/// True iff `g` occurs among the first `upto` elements of `names`.
pub open spec fn listed_upto(names: Seq<Seq<char>>, g: Seq<char>, upto: int) -> bool {
    exists|j: int| 0 <= j < upto && j < names.len() && names[j] == g
}

/// The views of a list of gate names.
pub open spec fn views_of(names: Seq<String>) -> Seq<Seq<char>> {
    names.map_values(|s: String| s@)
}

/// True iff the ordered pair `(a, b)`, in either order, occurs in `edges`.
pub open spec fn pair_listed(edges: Seq<(usize, usize)>, a: usize, b: usize) -> bool {
    exists|j: int| 0 <= j < edges.len() && (edges[j] == (a, b) || edges[j] == (b, a))
}

/// True iff `(a, b)`, in either order, occurs among the first `upto` edges.
pub open spec fn pair_listed_upto(edges: Seq<(usize, usize)>, a: usize, b: usize, upto: int) -> bool {
    exists|j: int| 0 <= j < upto && j < edges.len() && (edges[j] == (a, b) || edges[j] == (b, a))
}

/// One single-qubit gate-time entry: `(gate name, qubit) -> time`.
#[derive(Clone, Debug)]
pub struct SingleGateTime {
    pub gate: String,
    pub qubit: usize,
    pub time: u64,
}

/// One two-qubit gate-time entry: `(gate name, (control, target)) -> time`.
/// The direction matters: `(control, target)` and `(target, control)` are
/// distinct keys.
#[derive(Clone, Debug)]
pub struct TwoGateTime {
    pub gate: String,
    pub control: usize,
    pub target: usize,
    pub time: u64,
}

/// One decoherence entry: `qubit -> 3x3 rate matrix`.
#[derive(Clone, Debug)]
pub struct QubitRates {
    pub qubit: usize,
    pub rates: DecoherenceRates,
}

/// The map a single-qubit table denotes (the entry pushed last wins).
pub open spec fn single_map(s: Seq<SingleGateTime>) -> Map<(Seq<char>, usize), u64>
    decreases s.len(),
{
    if s.len() == 0 {
        Map::empty()
    } else {
        single_map(s.drop_last()).insert((s.last().gate@, s.last().qubit), s.last().time)
    }
}

/// The map a two-qubit table denotes (the entry pushed last wins).
pub open spec fn two_map(s: Seq<TwoGateTime>) -> Map<(Seq<char>, (usize, usize)), u64>
    decreases s.len(),
{
    if s.len() == 0 {
        Map::empty()
    } else {
        two_map(s.drop_last()).insert(
            (s.last().gate@, (s.last().control, s.last().target)),
            s.last().time,
        )
    }
}

/// The map a decoherence table denotes (the entry pushed last wins).
pub open spec fn rates_map(s: Seq<QubitRates>) -> Map<usize, DecoherenceRates>
    decreases s.len(),
{
    if s.len() == 0 {
        Map::empty()
    } else {
        rates_map(s.drop_last()).insert(s.last().qubit, s.last().rates)
    }
}

/// Pushing an entry writes exactly its key in the denoted map.
pub proof fn lemma_single_map_push(s: Seq<SingleGateTime>, e: SingleGateTime)
    ensures
        single_map(s.push(e)) == single_map(s).insert((e.gate@, e.qubit), e.time),
{
    assert(s.push(e).drop_last() =~= s);
    assert(s.push(e).last() == e);
}

/// Pushing an entry writes exactly its key in the denoted map.
pub proof fn lemma_two_map_push(s: Seq<TwoGateTime>, e: TwoGateTime)
    ensures
        two_map(s.push(e)) == two_map(s).insert((e.gate@, (e.control, e.target)), e.time),
{
    assert(s.push(e).drop_last() =~= s);
    assert(s.push(e).last() == e);
}

/// Pushing an entry writes exactly its key in the denoted map.
pub proof fn lemma_rates_map_push(s: Seq<QubitRates>, e: QubitRates)
    ensures
        rates_map(s.push(e)) == rates_map(s).insert(e.qubit, e.rates),
{
    assert(s.push(e).drop_last() =~= s);
    assert(s.push(e).last() == e);
}

/// Looks a `(gate, qubit)` key up in a single-qubit table.
pub fn single_lookup(v: &Vec<SingleGateTime>, gate: &str, qubit: usize) -> (r: Option<u64>)
    ensures
        r == map_get(single_map(v@), (gate@, qubit)),
{
    let g: String = gate.to_owned();
    let mut i: usize = v.len();
    proof {
        assert(v@.subrange(0, v@.len() as int) =~= v@);
    }
    while i > 0
        invariant
            i <= v@.len(),
            g@ == gate@,
            map_get(single_map(v@), (gate@, qubit)) == map_get(
                single_map(v@.subrange(0, i as int)),
                (gate@, qubit),
            ),
        decreases i,
    {
        i = i - 1;
        proof {
            assert(v@.subrange(0, i + 1).drop_last() =~= v@.subrange(0, i as int));
            assert(v@.subrange(0, i + 1).last() == v@[i as int]);
        }
        let e = &v[i];
        if e.gate == g && e.qubit == qubit {
            return Some(e.time);
        }
    }
    proof {
        assert(v@.subrange(0, 0) =~= Seq::<SingleGateTime>::empty());
    }
    None
}

/// Looks a `(gate, (control, target))` key up in a two-qubit table.
pub fn two_lookup(v: &Vec<TwoGateTime>, gate: &str, control: usize, target: usize) -> (r: Option<
    u64,
>)
    ensures
        r == map_get(two_map(v@), (gate@, (control, target))),
{
    let g: String = gate.to_owned();
    let mut i: usize = v.len();
    proof {
        assert(v@.subrange(0, v@.len() as int) =~= v@);
    }
    while i > 0
        invariant
            i <= v@.len(),
            g@ == gate@,
            map_get(two_map(v@), (gate@, (control, target))) == map_get(
                two_map(v@.subrange(0, i as int)),
                (gate@, (control, target)),
            ),
        decreases i,
    {
        i = i - 1;
        proof {
            assert(v@.subrange(0, i + 1).drop_last() =~= v@.subrange(0, i as int));
            assert(v@.subrange(0, i + 1).last() == v@[i as int]);
        }
        let e = &v[i];
        if e.gate == g && e.control == control && e.target == target {
            return Some(e.time);
        }
    }
    proof {
        assert(v@.subrange(0, 0) =~= Seq::<TwoGateTime>::empty());
    }
    None
}

/// Looks a qubit's decoherence matrix up in a decoherence table.
pub fn rates_lookup(v: &Vec<QubitRates>, qubit: usize) -> (r: Option<DecoherenceRates>)
    ensures
        r == map_get(rates_map(v@), qubit),
{
    let mut i: usize = v.len();
    proof {
        assert(v@.subrange(0, v@.len() as int) =~= v@);
    }
    while i > 0
        invariant
            i <= v@.len(),
            map_get(rates_map(v@), qubit) == map_get(rates_map(v@.subrange(0, i as int)), qubit),
        decreases i,
    {
        i = i - 1;
        proof {
            assert(v@.subrange(0, i + 1).drop_last() =~= v@.subrange(0, i as int));
            assert(v@.subrange(0, i + 1).last() == v@[i as int]);
        }
        let e = &v[i];
        if e.qubit == qubit {
            return Some(e.rates);
        }
    }
    proof {
        assert(v@.subrange(0, 0) =~= Seq::<QubitRates>::empty());
    }
    None
}

} // verus!
