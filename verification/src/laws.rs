//! Laws relating the device operations, stated over the same specification
//! maps the operations' own contracts use.

use vstd::prelude::*;

use crate::capabilities::DeviceCapabilities;
use crate::capabilities::damp_map;
use crate::capabilities::dephase_map;
use crate::capabilities::rate_at;
use crate::generic::GenericDevice;
use crate::generic::converted;
use crate::devices::ibm_belem::belem_edges;
use crate::devices::ibm_belem::belem_single_gate_names;
use crate::devices::ibm_belem::belem_two_gate_names;
use crate::devices::ibm_belem::is_fresh_belem;
use crate::rates::DecoherenceRates;
use crate::rates::UNIT_GATE_TIME;
use crate::tables::listed;
use crate::tables::map_get;
use crate::tables::pair_listed;

verus! {

/// Law: writing a single-qubit gate time and reading the same key gives the
/// written time back. `pre` and `post` are the stores before and after a
/// successful `set_single_qubit_gate_time(gate, qubit, t)`, related exactly
/// as that setter's contract states.
pub proof fn lemma_set_single_then_read(
    pre: DeviceCapabilities,
    post: DeviceCapabilities,
    gate: Seq<char>,
    qubit: usize,
    t: u64,
)
    requires
        qubit < pre.spec_number_qubits(),
        post.spec_single() == pre.spec_single().insert((gate, qubit), t),
    ensures
        map_get(post.spec_single(), (gate, qubit)) == Some(t),
{
}

/// Law: repeating a gate-time write with the same arguments yields the same
/// final table, so the setters are idempotent.
pub proof fn lemma_set_single_idempotent(
    single: Map<(Seq<char>, usize), u64>,
    gate: Seq<char>,
    qubit: usize,
    t: u64,
)
    ensures
        single.insert((gate, qubit), t).insert((gate, qubit), t) == single.insert(
            (gate, qubit),
            t,
        ),
{
    assert(single.insert((gate, qubit), t).insert((gate, qubit), t) =~= single.insert(
        (gate, qubit),
        t,
    ));
}

/// Law: writing a two-qubit gate time in the direction `(control, target)`
/// makes exactly that direction read back the written time; the reverse
/// direction `(target, control)` reads whatever it read before. `pre` and
/// `post` are related as a successful `set_two_qubit_gate_time` states.
pub proof fn lemma_set_two_direction_asymmetry(
    pre: DeviceCapabilities,
    post: DeviceCapabilities,
    gate: Seq<char>,
    control: usize,
    target: usize,
    t: u64,
)
    requires
        control != target,
        post.spec_two() == pre.spec_two().insert((gate, (control, target)), t),
    ensures
        map_get(post.spec_two(), (gate, (control, target))) == Some(t),
        map_get(post.spec_two(), (gate, (target, control))) == map_get(
            pre.spec_two(),
            (gate, (target, control)),
        ),
{
}

/// Law: two dampings on one qubit accumulate additively on the `(0, 0)`
/// entry of its decoherence matrix and touch no other entry.
pub proof fn lemma_damping_accumulates(
    rates: Map<usize, DecoherenceRates>,
    q: usize,
    r1: u64,
    r2: u64,
)
    requires
        rate_at(rates, q).e00 + r1 + r2 <= u64::MAX,
    ensures
        rate_at(damp_map(damp_map(rates, q, r1), q, r2), q) == (DecoherenceRates {
            e00: (rate_at(rates, q).e00 + r1 + r2) as u64,
            ..rate_at(rates, q)
        }),
{
}

/// Law: damping and dephasing commute — they modify disjoint matrix
/// entries, so the final decoherence table does not depend on the order of
/// the two accumulations.
pub proof fn lemma_damping_dephasing_commute(
    rates: Map<usize, DecoherenceRates>,
    q1: usize,
    r1: u64,
    q2: usize,
    r2: u64,
)
    ensures
        damp_map(dephase_map(rates, q2, r2), q1, r1) == dephase_map(
            damp_map(rates, q1, r1),
            q2,
            r2,
        ),
{
    if q1 == q2 {
        assert(damp_map(dephase_map(rates, q2, r2), q1, r1) =~= dephase_map(
            damp_map(rates, q1, r1),
            q2,
            r2,
        ));
    } else {
        assert(rate_at(dephase_map(rates, q2, r2), q1) == rate_at(rates, q1));
        assert(rate_at(damp_map(rates, q1, r1), q2) == rate_at(rates, q2));
        assert(damp_map(dephase_map(rates, q2, r2), q1, r1) =~= dephase_map(
            damp_map(rates, q1, r1),
            q2,
            r2,
        ));
    }
}

/// Law: converting a freshly constructed belem device yields a generic
/// device in which every native single-qubit gate reads unit time on every
/// qubit, and the native two-qubit gate reads unit time in both directions
/// of every edge — exactly the directions the constructor set.
pub proof fn lemma_fresh_belem_converts_to_units(c: DeviceCapabilities, g: GenericDevice)
    requires
        is_fresh_belem(c),
        converted(c, belem_single_gate_names(), belem_two_gate_names(), g),
    ensures
        forall|gn: Seq<char>, q: usize|
            listed(belem_single_gate_names(), gn) && q < 5 ==> #[trigger] map_get(
                g.spec_single(),
                (gn, q),
            ) == Some(UNIT_GATE_TIME),
        forall|gn: Seq<char>, a: usize, b: usize|
            listed(belem_two_gate_names(), gn) && pair_listed(belem_edges(), a, b)
                ==> #[trigger] map_get(g.spec_two(), (gn, (a, b))) == Some(UNIT_GATE_TIME),
{
    assert forall|gn: Seq<char>, q: usize|
        listed(belem_single_gate_names(), gn) && q < 5 implies #[trigger] map_get(
        g.spec_single(),
        (gn, q),
    ) == Some(UNIT_GATE_TIME) by {
        assert(map_get(c.spec_single(), (gn, q)) == Some(UNIT_GATE_TIME));
    }
    assert forall|gn: Seq<char>, a: usize, b: usize|
        listed(belem_two_gate_names(), gn) && pair_listed(belem_edges(), a, b) implies #[trigger]
    map_get(g.spec_two(), (gn, (a, b))) == Some(UNIT_GATE_TIME) by {
        assert(map_get(c.spec_two(), (gn, (a, b))) == Some(UNIT_GATE_TIME));
    }
}

} // verus!
