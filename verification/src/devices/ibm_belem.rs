//! The 5-qubit belem-style hardware descriptor.
//!
//! Topology: the T-shaped tree `(0,1), (1,2), (1,3), (3,4)`. Native gates:
//! `PauliX`, `RotateZ`, `SqrtPauliX` on every qubit and `CNOT` on every
//! edge, all populated with unit gate time at construction.

use vstd::prelude::*;

use crate::capabilities::DeviceCapabilities;
use crate::devices::IBMDeviceTrait;
use crate::devices::chain_views;
use crate::error::DeviceError;
use crate::generic::GenericDevice;
use crate::rates::DecoherenceRates;
use crate::rates::UNIT_GATE_TIME;
use crate::tables::listed;
use crate::tables::listed_upto;
use crate::tables::map_get;
use crate::tables::pair_listed;
use crate::tables::pair_listed_upto;
use crate::tables::views_of;

verus! {

/// The views of the native single-qubit gate names.
pub open spec fn belem_single_gate_names() -> Seq<Seq<char>> {
    seq!["PauliX"@, "RotateZ"@, "SqrtPauliX"@]
}

/// The views of the native two-qubit gate names.
pub open spec fn belem_two_gate_names() -> Seq<Seq<char>> {
    seq!["CNOT"@]
}

/// The undirected connectivity edge list.
pub open spec fn belem_edges() -> Seq<(usize, usize)> {
    seq![(0usize, 1usize), (1usize, 2usize), (1usize, 3usize), (3usize, 4usize)]
}

/// A freshly constructed belem store: five qubits, the belem topology,
/// every native single-qubit gate at unit time on every qubit, every native
/// two-qubit gate at unit time in both directions of every edge, and no
/// decoherence entries.
pub open spec fn is_fresh_belem(c: DeviceCapabilities) -> bool {
    &&& c.spec_number_qubits() == 5
    &&& c.spec_edges() == belem_edges()
    &&& forall|g: Seq<char>, q: usize| #[trigger]
        map_get(c.spec_single(), (g, q)) == (if listed(belem_single_gate_names(), g) && q < 5 {
            Some(UNIT_GATE_TIME)
        } else {
            None::<u64>
        })
    &&& forall|g: Seq<char>, a: usize, b: usize| #[trigger]
        map_get(c.spec_two(), (g, (a, b))) == (if listed(belem_two_gate_names(), g) && pair_listed(
            belem_edges(),
            a,
            b,
        ) {
            Some(UNIT_GATE_TIME)
        } else {
            None::<u64>
        })
    &&& c.spec_rates() == Map::<usize, DecoherenceRates>::empty()
    &&& c.wf()
}

/// The native single-qubit gate names, as strings.
fn single_gate_name_list() -> (v: Vec<String>)
    ensures
        views_of(v@) == belem_single_gate_names(),
{
    let mut v: Vec<String> = Vec::new();
    v.push("PauliX".to_owned());
    v.push("RotateZ".to_owned());
    v.push("SqrtPauliX".to_owned());
    proof {
        assert(views_of(v@).len() == 3);
        assert(views_of(v@)[0] == "PauliX"@);
        assert(views_of(v@)[1] == "RotateZ"@);
        assert(views_of(v@)[2] == "SqrtPauliX"@);
        assert(views_of(v@) =~= belem_single_gate_names());
    }
    v
}

/// The native two-qubit gate names, as strings.
fn two_gate_name_list() -> (v: Vec<String>)
    ensures
        views_of(v@) == belem_two_gate_names(),
{
    let mut v: Vec<String> = Vec::new();
    v.push("CNOT".to_owned());
    proof {
        assert(views_of(v@).len() == 1);
        assert(views_of(v@)[0] == "CNOT"@);
        assert(views_of(v@) =~= belem_two_gate_names());
    }
    v
}

/// A two-element qubit chain.
fn chain2(a: usize, b: usize) -> (v: Vec<usize>)
    ensures
        v@ == seq![a, b],
{
    let mut v: Vec<usize> = Vec::new();
    v.push(a);
    v.push(b);
    proof {
        assert(v@ =~= seq![a, b]);
    }
    v
}

/// The IBM belem device.
#[derive(Clone, Debug)]
pub struct IBMBelemDevice {
    capabilities: DeviceCapabilities,
}

impl IBMBelemDevice {
    /// Creates a new belem device with every native gate populated at unit
    /// gate time and no decoherence entries.
    pub fn new() -> (r: IBMBelemDevice)
        ensures
            is_fresh_belem(r.caps()),
    {
        let mut edges: Vec<(usize, usize)> = Vec::new();
        edges.push((0, 1));
        edges.push((1, 2));
        edges.push((1, 3));
        edges.push((3, 4));
        proof {
            assert(edges@ =~= belem_edges());
            assert forall|j: int|
                0 <= j < edges@.len() implies (#[trigger] edges@[j]).0 < 5 && edges@[j].1 < 5
                && edges@[j].0 != edges@[j].1 by {
                if j == 0 {
                    assert(edges@[0] == (0usize, 1usize));
                } else if j == 1 {
                    assert(edges@[1] == (1usize, 2usize));
                } else if j == 2 {
                    assert(edges@[2] == (1usize, 3usize));
                } else {
                    assert(edges@[3] == (3usize, 4usize));
                }
            }
        }
        let mut caps = DeviceCapabilities::new(5, edges);

        // Unit defaults for every native single-qubit gate on every qubit.
        let single_names = single_gate_name_list();
        let mut q: usize = 0;
        while q < 5
            invariant
                q <= 5,
                views_of(single_names@) == belem_single_gate_names(),
                caps.spec_number_qubits() == 5,
                caps.spec_edges() == belem_edges(),
                caps.wf(),
                caps.spec_two() == Map::<(Seq<char>, (usize, usize)), u64>::empty(),
                caps.spec_rates() == Map::<usize, DecoherenceRates>::empty(),
                forall|g: Seq<char>, q2: usize| #[trigger]
                    map_get(caps.spec_single(), (g, q2)) == (if listed(belem_single_gate_names(), g)
                        && q2 < q {
                        Some(UNIT_GATE_TIME)
                    } else {
                        None::<u64>
                    }),
            decreases 5 - q,
        {
            let mut gi: usize = 0;
            while gi < single_names.len()
                invariant
                    gi <= single_names@.len(),
                    q < 5,
                    views_of(single_names@) == belem_single_gate_names(),
                    caps.spec_number_qubits() == 5,
                    caps.spec_edges() == belem_edges(),
                    caps.wf(),
                    caps.spec_two() == Map::<(Seq<char>, (usize, usize)), u64>::empty(),
                    caps.spec_rates() == Map::<usize, DecoherenceRates>::empty(),
                    forall|g: Seq<char>, q2: usize| #[trigger]
                        map_get(caps.spec_single(), (g, q2)) == (if (listed(
                            belem_single_gate_names(),
                            g,
                        ) && q2 < q) || (listed_upto(belem_single_gate_names(), g, gi as int) && q2
                            == q) {
                            Some(UNIT_GATE_TIME)
                        } else {
                            None::<u64>
                        }),
                decreases single_names@.len() - gi,
            {
                let gate = &single_names[gi];
                proof {
                    assert(views_of(single_names@)[gi as int] == gate@);
                }
                let ghost cpre = caps;
                let _r = caps.set_single_qubit_gate_time(gate.as_str(), q, UNIT_GATE_TIME);
                proof {
                    assert forall|g: Seq<char>, q2: usize| #[trigger]
                        map_get(caps.spec_single(), (g, q2)) == (if (listed(
                            belem_single_gate_names(),
                            g,
                        ) && q2 < q) || (listed_upto(belem_single_gate_names(), g, gi + 1) && q2
                            == q) {
                            Some(UNIT_GATE_TIME)
                        } else {
                            None::<u64>
                        }) by {
                        assert(map_get(cpre.spec_single(), (g, q2)) == (if (listed(
                            belem_single_gate_names(),
                            g,
                        ) && q2 < q) || (listed_upto(belem_single_gate_names(), g, gi as int) && q2
                            == q) {
                            Some(UNIT_GATE_TIME)
                        } else {
                            None::<u64>
                        }));
                        if listed_upto(belem_single_gate_names(), g, gi + 1) && !listed_upto(
                            belem_single_gate_names(),
                            g,
                            gi as int,
                        ) {
                            assert(g == gate@);
                        }
                    }
                }
                gi = gi + 1;
            }
            q = q + 1;
        }

        // Unit defaults for every native two-qubit gate in both directions
        // of every edge.
        let edge_list = caps.two_qubit_edges();
        let two_names = two_gate_name_list();
        let mut ei: usize = 0;
        while ei < edge_list.len()
            invariant
                ei <= edge_list@.len(),
                edge_list@ == belem_edges(),
                views_of(two_names@) == belem_two_gate_names(),
                caps.spec_number_qubits() == 5,
                caps.spec_edges() == belem_edges(),
                caps.wf(),
                caps.spec_rates() == Map::<usize, DecoherenceRates>::empty(),
                forall|g: Seq<char>, q2: usize| #[trigger]
                    map_get(caps.spec_single(), (g, q2)) == (if listed(belem_single_gate_names(), g)
                        && q2 < 5 {
                        Some(UNIT_GATE_TIME)
                    } else {
                        None::<u64>
                    }),
                forall|g: Seq<char>, a: usize, b: usize| #[trigger]
                    map_get(caps.spec_two(), (g, (a, b))) == (if listed(belem_two_gate_names(), g)
                        && pair_listed_upto(belem_edges(), a, b, ei as int) {
                        Some(UNIT_GATE_TIME)
                    } else {
                        None::<u64>
                    }),
            decreases edge_list@.len() - ei,
        {
            let (c0, t0) = edge_list[ei];
            proof {
                assert(belem_edges()[ei as int] == (c0, t0));
                assert(pair_listed(belem_edges(), c0, t0));
                assert(pair_listed(belem_edges(), t0, c0));
            }
            let mut gi: usize = 0;
            while gi < two_names.len()
                invariant
                    gi <= two_names@.len(),
                    ei < edge_list@.len(),
                    edge_list@ == belem_edges(),
                    belem_edges()[ei as int] == (c0, t0),
                    c0 < 5,
                    t0 < 5,
                    views_of(two_names@) == belem_two_gate_names(),
                    caps.spec_number_qubits() == 5,
                    caps.spec_edges() == belem_edges(),
                    caps.wf(),
                    caps.spec_rates() == Map::<usize, DecoherenceRates>::empty(),
                    forall|g: Seq<char>, q2: usize| #[trigger]
                        map_get(caps.spec_single(), (g, q2)) == (if listed(
                            belem_single_gate_names(),
                            g,
                        ) && q2 < 5 {
                            Some(UNIT_GATE_TIME)
                        } else {
                            None::<u64>
                        }),
                    forall|g: Seq<char>, a: usize, b: usize| #[trigger]
                        map_get(caps.spec_two(), (g, (a, b))) == (if (listed(
                            belem_two_gate_names(),
                            g,
                        ) && pair_listed_upto(belem_edges(), a, b, ei as int)) || (listed_upto(
                            belem_two_gate_names(),
                            g,
                            gi as int,
                        ) && ((a, b) == (c0, t0) || (a, b) == (t0, c0))) {
                            Some(UNIT_GATE_TIME)
                        } else {
                            None::<u64>
                        }),
                decreases two_names@.len() - gi,
            {
                let gate = &two_names[gi];
                proof {
                    assert(views_of(two_names@)[gi as int] == gate@);
                }
                let ghost cpre = caps;
                let _r1 = caps.set_two_qubit_gate_time(gate.as_str(), c0, t0, UNIT_GATE_TIME);
                let ghost cmid = caps;
                let _r2 = caps.set_two_qubit_gate_time(gate.as_str(), t0, c0, UNIT_GATE_TIME);
                proof {
                    assert forall|g: Seq<char>, a: usize, b: usize| #[trigger]
                        map_get(caps.spec_two(), (g, (a, b))) == (if (listed(
                            belem_two_gate_names(),
                            g,
                        ) && pair_listed_upto(belem_edges(), a, b, ei as int)) || (listed_upto(
                            belem_two_gate_names(),
                            g,
                            gi + 1,
                        ) && ((a, b) == (c0, t0) || (a, b) == (t0, c0))) {
                            Some(UNIT_GATE_TIME)
                        } else {
                            None::<u64>
                        }) by {
                        // Mentioning the table between the two writes lets the
                        // solver chain the two insert effects.
                        let mid = map_get(cmid.spec_two(), (g, (a, b)));
                        assert(map_get(cpre.spec_two(), (g, (a, b))) == (if (listed(
                            belem_two_gate_names(),
                            g,
                        ) && pair_listed_upto(belem_edges(), a, b, ei as int)) || (listed_upto(
                            belem_two_gate_names(),
                            g,
                            gi as int,
                        ) && ((a, b) == (c0, t0) || (a, b) == (t0, c0))) {
                            Some(UNIT_GATE_TIME)
                        } else {
                            None::<u64>
                        }));
                        if listed_upto(belem_two_gate_names(), g, gi + 1) && !listed_upto(
                            belem_two_gate_names(),
                            g,
                            gi as int,
                        ) {
                            assert(g == gate@);
                        }
                    }
                }
                gi = gi + 1;
            }
            proof {
                assert forall|g: Seq<char>, a: usize, b: usize| #[trigger]
                    map_get(caps.spec_two(), (g, (a, b))) == (if listed(belem_two_gate_names(), g)
                        && pair_listed_upto(belem_edges(), a, b, ei + 1) {
                        Some(UNIT_GATE_TIME)
                    } else {
                        None::<u64>
                    }) by {
                    if pair_listed_upto(belem_edges(), a, b, ei + 1) && !pair_listed_upto(
                        belem_edges(),
                        a,
                        b,
                        ei as int,
                    ) {
                        assert((a, b) == (c0, t0) || (a, b) == (t0, c0));
                    }
                    if pair_listed_upto(belem_edges(), a, b, ei as int) {
                        assert(pair_listed_upto(belem_edges(), a, b, ei + 1));
                    }
                }
            }
            ei = ei + 1;
        }

        proof {
            assert forall|g: Seq<char>, a: usize, b: usize| #[trigger]
                map_get(caps.spec_two(), (g, (a, b))) == (if listed(belem_two_gate_names(), g)
                    && pair_listed(belem_edges(), a, b) {
                    Some(UNIT_GATE_TIME)
                } else {
                    None::<u64>
                }) by {
                assert(pair_listed_upto(belem_edges(), a, b, belem_edges().len() as int)
                    == pair_listed(belem_edges(), a, b));
            }
        }
        IBMBelemDevice { capabilities: caps }
    }
}

impl Default for IBMBelemDevice {
    /// Same as [`IBMBelemDevice::new`].
    fn default() -> (r: IBMBelemDevice)
        ensures
            is_fresh_belem(r.caps()),
    {
        IBMBelemDevice::new()
    }
}

impl IBMDeviceTrait for IBMBelemDevice {
    closed spec fn caps(&self) -> DeviceCapabilities {
        self.capabilities
    }

    open spec fn spec_single_qubit_gate_names(&self) -> Seq<Seq<char>> {
        belem_single_gate_names()
    }

    open spec fn spec_two_qubit_gate_names(&self) -> Seq<Seq<char>> {
        belem_two_gate_names()
    }

    open spec fn spec_name(&self) -> Seq<char> {
        "ibmq_belem"@
    }

    open spec fn spec_longest_chains(&self) -> Seq<Seq<usize>> {
        seq![seq![0usize, 1usize, 3usize, 4usize], seq![1usize, 2usize, 3usize, 4usize]]
    }

    open spec fn spec_longest_closed_chains(&self) -> Seq<Seq<usize>> {
        seq![
            seq![0usize, 1usize],
            seq![1usize, 0usize],
            seq![1usize, 2usize],
            seq![2usize, 1usize],
            seq![1usize, 3usize],
            seq![3usize, 1usize],
            seq![3usize, 4usize],
            seq![4usize, 3usize],
        ]
    }

    fn name(&self) -> (r: &'static str) {
        "ibmq_belem"
    }

    fn number_qubits(&self) -> (n: usize) {
        self.capabilities.number_qubits()
    }

    fn single_qubit_gate_names(&self) -> (v: Vec<String>) {
        single_gate_name_list()
    }

    fn two_qubit_gate_names(&self) -> (v: Vec<String>) {
        two_gate_name_list()
    }

    fn multi_qubit_gate_names(&self) -> (v: Vec<String>) {
        Vec::new()
    }

    fn single_qubit_gate_time(&self, hqslang: &str, qubit: &usize) -> (r: Option<u64>) {
        self.capabilities.single_qubit_gate_time(hqslang, qubit)
    }

    fn two_qubit_gate_time(&self, hqslang: &str, control: &usize, target: &usize) -> (r: Option<
        u64,
    >) {
        self.capabilities.two_qubit_gate_time(hqslang, control, target)
    }

    fn multi_qubit_gate_time(&self, hqslang: &str, qubits: &[usize]) -> (r: Option<u64>) {
        None
    }

    fn qubit_decoherence_rates(&self, qubit: &usize) -> (r: Option<DecoherenceRates>) {
        self.capabilities.qubit_decoherence_rates(qubit)
    }

    fn two_qubit_edges(&self) -> (v: Vec<(usize, usize)>) {
        self.capabilities.two_qubit_edges()
    }

    fn longest_chains(&self) -> (v: Vec<Vec<usize>>) {
        let mut c1: Vec<usize> = Vec::new();
        c1.push(0);
        c1.push(1);
        c1.push(3);
        c1.push(4);
        let mut c2: Vec<usize> = Vec::new();
        c2.push(1);
        c2.push(2);
        c2.push(3);
        c2.push(4);
        proof {
            assert(c1@ =~= seq![0usize, 1usize, 3usize, 4usize]);
            assert(c2@ =~= seq![1usize, 2usize, 3usize, 4usize]);
        }
        let mut v: Vec<Vec<usize>> = Vec::new();
        v.push(c1);
        v.push(c2);
        proof {
            assert(chain_views(v@).len() == 2);
            assert(chain_views(v@)[0] == seq![0usize, 1usize, 3usize, 4usize]);
            assert(chain_views(v@)[1] == seq![1usize, 2usize, 3usize, 4usize]);
            assert(chain_views(v@) =~= self.spec_longest_chains());
        }
        v
    }

    fn longest_closed_chains(&self) -> (v: Vec<Vec<usize>>) {
        let mut v: Vec<Vec<usize>> = Vec::new();
        v.push(chain2(0, 1));
        v.push(chain2(1, 0));
        v.push(chain2(1, 2));
        v.push(chain2(2, 1));
        v.push(chain2(1, 3));
        v.push(chain2(3, 1));
        v.push(chain2(3, 4));
        v.push(chain2(4, 3));
        proof {
            assert(chain_views(v@).len() == 8);
            assert(chain_views(v@)[0] == seq![0usize, 1usize]);
            assert(chain_views(v@)[1] == seq![1usize, 0usize]);
            assert(chain_views(v@)[2] == seq![1usize, 2usize]);
            assert(chain_views(v@)[3] == seq![2usize, 1usize]);
            assert(chain_views(v@)[4] == seq![1usize, 3usize]);
            assert(chain_views(v@)[5] == seq![3usize, 1usize]);
            assert(chain_views(v@)[6] == seq![3usize, 4usize]);
            assert(chain_views(v@)[7] == seq![4usize, 3usize]);
            assert(chain_views(v@) =~= self.spec_longest_closed_chains());
        }
        v
    }

    fn set_single_qubit_gate_time(&mut self, gate: &str, qubit: usize, gate_time: u64) -> (r:
        Result<(), DeviceError>) {
        self.capabilities.set_single_qubit_gate_time(gate, qubit, gate_time)
    }

    fn set_two_qubit_gate_time(
        &mut self,
        gate: &str,
        control: usize,
        target: usize,
        gate_time: u64,
    ) -> (r: Result<(), DeviceError>) {
        self.capabilities.set_two_qubit_gate_time(gate, control, target, gate_time)
    }

    fn add_damping(&mut self, qubit: usize, damping: u64) -> (r: Result<(), DeviceError>) {
        self.capabilities.add_damping(qubit, damping)
    }

    fn add_dephasing(&mut self, qubit: usize, dephasing: u64) -> (r: Result<(), DeviceError>) {
        self.capabilities.add_dephasing(qubit, dephasing)
    }

    fn to_generic_device(&self) -> (r: Result<GenericDevice, DeviceError>) {
        let single_names = single_gate_name_list();
        let two_names = two_gate_name_list();
        self.capabilities.to_generic(&single_names, &two_names)
    }
}

} // verus!
