//! The vendor-neutral device snapshot and the conversion that produces it.
//!
//! A [`GenericDevice`] carries the same capability shape as a concrete
//! device — per-gate-per-qubit and per-gate-per-pair times, per-qubit
//! decoherence matrices, a qubit count — but no topology and no dependency
//! on which chip produced it.

use vstd::prelude::*;

use crate::capabilities::DeviceCapabilities;
use crate::error::DeviceError;
use crate::rates::DecoherenceRates;
use crate::tables::QubitRates;
use crate::tables::SingleGateTime;
use crate::tables::TwoGateTime;
use crate::tables::lemma_rates_map_push;
use crate::tables::lemma_single_map_push;
use crate::tables::lemma_two_map_push;
use crate::tables::listed;
use crate::tables::listed_upto;
use crate::tables::map_get;
use crate::tables::pair_listed;
use crate::tables::pair_listed_upto;
use crate::tables::rates_lookup;
use crate::tables::rates_map;
use crate::tables::single_lookup;
use crate::tables::single_map;
use crate::tables::two_lookup;
use crate::tables::two_map;
use crate::tables::views_of;

verus! {

/// A topology-agnostic device description: the conversion output.
#[derive(Clone, Debug)]
pub struct GenericDevice {
    number_qubits: usize,
    single: Vec<SingleGateTime>,
    two: Vec<TwoGateTime>,
    rates: Vec<QubitRates>,
}

impl GenericDevice {
    /// The number of qubits, fixed at construction.
    pub closed spec fn spec_number_qubits(&self) -> usize {
        self.number_qubits
    }

    /// The single-qubit gate-time table as a map `(gate, qubit) -> time`.
    pub closed spec fn spec_single(&self) -> Map<(Seq<char>, usize), u64> {
        single_map(self.single@)
    }

    /// The two-qubit gate-time table as a map `(gate, (control, target)) -> time`.
    pub closed spec fn spec_two(&self) -> Map<(Seq<char>, (usize, usize)), u64> {
        two_map(self.two@)
    }

    /// The decoherence table as a map `qubit -> matrix`.
    pub closed spec fn spec_rates(&self) -> Map<usize, DecoherenceRates> {
        rates_map(self.rates@)
    }

    /// Creates an empty generic device sized to `number_qubits`.
    pub fn new(number_qubits: usize) -> (r: GenericDevice)
        ensures
            r.spec_number_qubits() == number_qubits,
            r.spec_single() == Map::<(Seq<char>, usize), u64>::empty(),
            r.spec_two() == Map::<(Seq<char>, (usize, usize)), u64>::empty(),
            r.spec_rates() == Map::<usize, DecoherenceRates>::empty(),
    {
        GenericDevice { number_qubits, single: Vec::new(), two: Vec::new(), rates: Vec::new() }
    }

    /// The number of qubits the generic device describes.
    pub fn number_qubits(&self) -> (n: usize)
        ensures
            n == self.spec_number_qubits(),
    {
        self.number_qubits
    }

    /// The stored time of a single-qubit gate, or `None` when absent.
    pub fn single_qubit_gate_time(&self, hqslang: &str, qubit: &usize) -> (r: Option<u64>)
        ensures
            r == map_get(self.spec_single(), (hqslang@, *qubit)),
    {
        single_lookup(&self.single, hqslang, *qubit)
    }

    /// The stored time of a two-qubit gate in the exact direction
    /// `(control, target)`, or `None` when absent.
    pub fn two_qubit_gate_time(&self, hqslang: &str, control: &usize, target: &usize) -> (r: Option<
        u64,
    >)
        ensures
            r == map_get(self.spec_two(), (hqslang@, (*control, *target))),
    {
        two_lookup(&self.two, hqslang, *control, *target)
    }

    /// The decoherence matrix stored for `qubit`, or `None` when absent.
    pub fn qubit_decoherence_rates(&self, qubit: &usize) -> (r: Option<DecoherenceRates>)
        ensures
            r == map_get(self.spec_rates(), *qubit),
    {
        rates_lookup(&self.rates, *qubit)
    }

    /// Inserts or overwrites the time of `gate` on `qubit`; rejects
    /// `qubit >= number_qubits` with `OutOfRange` without writing.
    pub fn set_single_qubit_gate_time(&mut self, gate: &str, qubit: usize, gate_time: u64) -> (r:
        Result<(), DeviceError>)
        ensures
            final(self).spec_number_qubits() == old(self).spec_number_qubits(),
            (r == Ok::<(), DeviceError>(())) <==> qubit < old(self).spec_number_qubits(),
            qubit < old(self).spec_number_qubits() ==> final(self).spec_single() == old(
                self,
            ).spec_single().insert((gate@, qubit), gate_time),
            qubit < old(self).spec_number_qubits() ==> final(self).spec_two() == old(
                self,
            ).spec_two() && final(self).spec_rates() == old(self).spec_rates(),
            qubit >= old(self).spec_number_qubits() ==> r == Err::<(), DeviceError>(
                DeviceError::OutOfRange,
            ) && *final(self) == *old(self),
    {
        if qubit >= self.number_qubits {
            return Err(DeviceError::OutOfRange);
        }
        let entry = SingleGateTime { gate: gate.to_owned(), qubit, time: gate_time };
        let ghost e = entry;
        let ghost s0 = self.single@;
        self.single.push(entry);
        proof {
            lemma_single_map_push(s0, e);
        }
        Ok(())
    }

    /// Inserts or overwrites the time of `gate` in the exact direction
    /// `(control, target)`; rejects an out-of-range index with `OutOfRange`
    /// without writing. No connectivity is checked: the generic device has
    /// no topology of its own.
    pub fn set_two_qubit_gate_time(
        &mut self,
        gate: &str,
        control: usize,
        target: usize,
        gate_time: u64,
    ) -> (r: Result<(), DeviceError>)
        ensures
            final(self).spec_number_qubits() == old(self).spec_number_qubits(),
            (r == Ok::<(), DeviceError>(())) <==> control < old(self).spec_number_qubits()
                && target < old(self).spec_number_qubits(),
            (r == Ok::<(), DeviceError>(())) ==> final(self).spec_two() == old(
                self,
            ).spec_two().insert((gate@, (control, target)), gate_time) && final(self).spec_single()
                == old(self).spec_single() && final(self).spec_rates() == old(self).spec_rates(),
            (r != Ok::<(), DeviceError>(())) ==> r == Err::<(), DeviceError>(DeviceError::OutOfRange)
                && *final(self) == *old(self),
    {
        if control >= self.number_qubits {
            return Err(DeviceError::OutOfRange);
        }
        if target >= self.number_qubits {
            return Err(DeviceError::OutOfRange);
        }
        let entry = TwoGateTime { gate: gate.to_owned(), control, target, time: gate_time };
        let ghost e = entry;
        let ghost s0 = self.two@;
        self.two.push(entry);
        proof {
            lemma_two_map_push(s0, e);
        }
        Ok(())
    }

    /// Sets (overwrites) the decoherence matrix of `qubit`; rejects only
    /// `qubit > number_qubits` with `OutOfRange`, the same boundary the
    /// decoherence accumulators use.
    pub fn set_qubit_decoherence_rates(&mut self, qubit: usize, rates: DecoherenceRates) -> (r:
        Result<(), DeviceError>)
        ensures
            final(self).spec_number_qubits() == old(self).spec_number_qubits(),
            (r == Ok::<(), DeviceError>(())) <==> qubit <= old(self).spec_number_qubits(),
            qubit <= old(self).spec_number_qubits() ==> final(self).spec_rates() == old(
                self,
            ).spec_rates().insert(qubit, rates) && final(self).spec_single() == old(
                self,
            ).spec_single() && final(self).spec_two() == old(self).spec_two(),
            qubit > old(self).spec_number_qubits() ==> r == Err::<(), DeviceError>(
                DeviceError::OutOfRange,
            ) && *final(self) == *old(self),
    {
        if qubit > self.number_qubits {
            return Err(DeviceError::OutOfRange);
        }
        let entry = QubitRates { qubit, rates };
        let ghost e = entry;
        let ghost s0 = self.rates@;
        self.rates.push(entry);
        proof {
            lemma_rates_map_push(s0, e);
        }
        Ok(())
    }
}

/// What a finished conversion guarantees: `g` holds exactly the source's
/// entries for the listed single-qubit gate names on in-range qubits, for
/// the listed two-qubit gate names on ordered pairs lying on a topology
/// edge in either direction (both directions are probed independently; a
/// direction never written in the source stays absent here), and the
/// source's decoherence matrices for in-range qubits.
pub open spec fn converted(
    src: DeviceCapabilities,
    singles: Seq<Seq<char>>,
    twos: Seq<Seq<char>>,
    g: GenericDevice,
) -> bool {
    &&& g.spec_number_qubits() == src.spec_number_qubits()
    &&& forall|gn: Seq<char>, q: usize| #[trigger]
        map_get(g.spec_single(), (gn, q)) == (if listed(singles, gn) && q
            < src.spec_number_qubits() {
            map_get(src.spec_single(), (gn, q))
        } else {
            None::<u64>
        })
    &&& forall|gn: Seq<char>, a: usize, b: usize| #[trigger]
        map_get(g.spec_two(), (gn, (a, b))) == (if listed(twos, gn) && pair_listed(
            src.spec_edges(),
            a,
            b,
        ) {
            map_get(src.spec_two(), (gn, (a, b)))
        } else {
            None::<u64>
        })
    &&& forall|q: usize| #[trigger]
        map_get(g.spec_rates(), q) == (if q < src.spec_number_qubits() {
            map_get(src.spec_rates(), q)
        } else {
            None::<DecoherenceRates>
        })
}

impl DeviceCapabilities {
    /// Flattens the store into a [`GenericDevice`], reading every capability
    /// through the read-only queries.
    ///
    /// For each name in `single_names` every qubit is probed; for each name
    /// in `two_names` every topology edge is probed in both directions,
    /// separately, so a direction the device author never set silently stays
    /// absent in the output. Decoherence matrices are copied for every
    /// in-range qubit. On a well-formed store every re-validation in the
    /// generic device succeeds, so the conversion always returns `Ok`.
    pub fn to_generic(&self, single_names: &Vec<String>, two_names: &Vec<String>) -> (r: Result<
        GenericDevice,
        DeviceError,
    >)
        requires
            self.wf(),
        ensures
            r is Ok,
            converted(*self, views_of(single_names@), views_of(two_names@), r->Ok_0),
    {
        let n = self.number_qubits();
        let mut generic = GenericDevice::new(n);

        // Single-qubit gate times.
        let mut gi: usize = 0;
        while gi < single_names.len()
            invariant
                gi <= single_names@.len(),
                n == self.spec_number_qubits(),
                self.wf(),
                generic.spec_number_qubits() == n,
                generic.spec_two() == Map::<(Seq<char>, (usize, usize)), u64>::empty(),
                generic.spec_rates() == Map::<usize, DecoherenceRates>::empty(),
                forall|gn: Seq<char>, q2: usize| #[trigger]
                    map_get(generic.spec_single(), (gn, q2)) == (if listed_upto(
                        views_of(single_names@),
                        gn,
                        gi as int,
                    ) && q2 < n {
                        map_get(self.spec_single(), (gn, q2))
                    } else {
                        None::<u64>
                    }),
            decreases single_names@.len() - gi,
        {
            let gate = &single_names[gi];
            proof {
                assert(views_of(single_names@)[gi as int] == gate@);
            }
            let mut q: usize = 0;
            while q < n
                invariant
                    q <= n,
                    gi < single_names@.len(),
                    n == self.spec_number_qubits(),
                    self.wf(),
                    gate@ == views_of(single_names@)[gi as int],
                    generic.spec_number_qubits() == n,
                    generic.spec_two() == Map::<(Seq<char>, (usize, usize)), u64>::empty(),
                    generic.spec_rates() == Map::<usize, DecoherenceRates>::empty(),
                    forall|gn: Seq<char>, q2: usize| #[trigger]
                        map_get(generic.spec_single(), (gn, q2)) == (if (listed_upto(
                            views_of(single_names@),
                            gn,
                            gi as int,
                        ) && q2 < n) || (gn == gate@ && q2 < q) {
                            map_get(self.spec_single(), (gn, q2))
                        } else {
                            None::<u64>
                        }),
                decreases n - q,
            {
                let ghost gpre = generic;
                match self.single_qubit_gate_time(gate.as_str(), &q) {
                    Some(x) => {
                        match generic.set_single_qubit_gate_time(gate.as_str(), q, x) {
                            Ok(()) => {},
                            Err(e) => {
                                return Err(e);
                            },
                        }
                    },
                    None => {},
                }
                proof {
                    assert forall|gn: Seq<char>, q2: usize| #[trigger]
                        map_get(generic.spec_single(), (gn, q2)) == (if (listed_upto(
                            views_of(single_names@),
                            gn,
                            gi as int,
                        ) && q2 < n) || (gn == gate@ && q2 < q + 1) {
                            map_get(self.spec_single(), (gn, q2))
                        } else {
                            None::<u64>
                        }) by {
                        assert(map_get(gpre.spec_single(), (gn, q2)) == (if (listed_upto(
                            views_of(single_names@),
                            gn,
                            gi as int,
                        ) && q2 < n) || (gn == gate@ && q2 < q) {
                            map_get(self.spec_single(), (gn, q2))
                        } else {
                            None::<u64>
                        }));
                    }
                }
                q = q + 1;
            }
            gi = gi + 1;
        }

        // Two-qubit gate times: both directions of every edge, separately.
        let edges = self.two_qubit_edges();
        let mut gi: usize = 0;
        while gi < two_names.len()
            invariant
                gi <= two_names@.len(),
                n == self.spec_number_qubits(),
                self.wf(),
                edges@ == self.spec_edges(),
                generic.spec_number_qubits() == n,
                generic.spec_rates() == Map::<usize, DecoherenceRates>::empty(),
                forall|gn: Seq<char>, q2: usize| #[trigger]
                    map_get(generic.spec_single(), (gn, q2)) == (if listed(
                        views_of(single_names@),
                        gn,
                    ) && q2 < n {
                        map_get(self.spec_single(), (gn, q2))
                    } else {
                        None::<u64>
                    }),
                forall|gn: Seq<char>, a: usize, b: usize| #[trigger]
                    map_get(generic.spec_two(), (gn, (a, b))) == (if listed_upto(
                        views_of(two_names@),
                        gn,
                        gi as int,
                    ) && pair_listed(self.spec_edges(), a, b) {
                        map_get(self.spec_two(), (gn, (a, b)))
                    } else {
                        None::<u64>
                    }),
            decreases two_names@.len() - gi,
        {
            let gate = &two_names[gi];
            proof {
                assert(views_of(two_names@)[gi as int] == gate@);
            }
            let mut ei: usize = 0;
            while ei < edges.len()
                invariant
                    ei <= edges@.len(),
                    gi < two_names@.len(),
                    n == self.spec_number_qubits(),
                    self.wf(),
                    edges@ == self.spec_edges(),
                    gate@ == views_of(two_names@)[gi as int],
                    generic.spec_number_qubits() == n,
                    generic.spec_rates() == Map::<usize, DecoherenceRates>::empty(),
                    forall|gn: Seq<char>, q2: usize| #[trigger]
                        map_get(generic.spec_single(), (gn, q2)) == (if listed(
                            views_of(single_names@),
                            gn,
                        ) && q2 < n {
                            map_get(self.spec_single(), (gn, q2))
                        } else {
                            None::<u64>
                        }),
                    forall|gn: Seq<char>, a: usize, b: usize| #[trigger]
                        map_get(generic.spec_two(), (gn, (a, b))) == (if (listed_upto(
                            views_of(two_names@),
                            gn,
                            gi as int,
                        ) && pair_listed(self.spec_edges(), a, b)) || (gn == gate@
                            && pair_listed_upto(self.spec_edges(), a, b, ei as int)) {
                            map_get(self.spec_two(), (gn, (a, b)))
                        } else {
                            None::<u64>
                        }),
                decreases edges@.len() - ei,
            {
                let (control, target) = edges[ei];
                proof {
                    assert(self.spec_edges()[ei as int] == (control, target));
                }
                let ghost gpre = generic;
                match self.two_qubit_gate_time(gate.as_str(), &control, &target) {
                    Some(x) => {
                        match generic.set_two_qubit_gate_time(gate.as_str(), control, target, x) {
                            Ok(()) => {},
                            Err(e) => {
                                return Err(e);
                            },
                        }
                    },
                    None => {},
                }
                let ghost gmid = generic;
                match self.two_qubit_gate_time(gate.as_str(), &target, &control) {
                    Some(x) => {
                        match generic.set_two_qubit_gate_time(gate.as_str(), target, control, x) {
                            Ok(()) => {},
                            Err(e) => {
                                return Err(e);
                            },
                        }
                    },
                    None => {},
                }
                proof {
                    assert forall|gn: Seq<char>, a: usize, b: usize| #[trigger]
                        map_get(generic.spec_two(), (gn, (a, b))) == (if (listed_upto(
                            views_of(two_names@),
                            gn,
                            gi as int,
                        ) && pair_listed(self.spec_edges(), a, b)) || (gn == gate@
                            && pair_listed_upto(self.spec_edges(), a, b, ei + 1)) {
                            map_get(self.spec_two(), (gn, (a, b)))
                        } else {
                            None::<u64>
                        }) by {
                        // Mentioning the table between the two writes lets the
                        // solver chain the two insert effects.
                        let mid = map_get(gmid.spec_two(), (gn, (a, b)));
                        assert(map_get(gpre.spec_two(), (gn, (a, b))) == (if (listed_upto(
                            views_of(two_names@),
                            gn,
                            gi as int,
                        ) && pair_listed(self.spec_edges(), a, b)) || (gn == gate@
                            && pair_listed_upto(self.spec_edges(), a, b, ei as int)) {
                            map_get(self.spec_two(), (gn, (a, b)))
                        } else {
                            None::<u64>
                        }));
                        if gn == gate@ && pair_listed_upto(self.spec_edges(), a, b, ei + 1)
                            && !pair_listed_upto(self.spec_edges(), a, b, ei as int) {
                            assert((a, b) == (control, target) || (a, b) == (target, control));
                        }
                        if gn == gate@ && pair_listed_upto(self.spec_edges(), a, b, ei as int) {
                            assert(pair_listed_upto(self.spec_edges(), a, b, ei + 1));
                        }
                    }
                }
                ei = ei + 1;
            }
            gi = gi + 1;
        }

        // Decoherence rates.
        let mut q: usize = 0;
        while q < n
            invariant
                q <= n,
                n == self.spec_number_qubits(),
                self.wf(),
                generic.spec_number_qubits() == n,
                forall|gn: Seq<char>, q2: usize| #[trigger]
                    map_get(generic.spec_single(), (gn, q2)) == (if listed(
                        views_of(single_names@),
                        gn,
                    ) && q2 < n {
                        map_get(self.spec_single(), (gn, q2))
                    } else {
                        None::<u64>
                    }),
                forall|gn: Seq<char>, a: usize, b: usize| #[trigger]
                    map_get(generic.spec_two(), (gn, (a, b))) == (if listed(views_of(two_names@), gn)
                        && pair_listed(self.spec_edges(), a, b) {
                        map_get(self.spec_two(), (gn, (a, b)))
                    } else {
                        None::<u64>
                    }),
                forall|q2: usize| #[trigger]
                    map_get(generic.spec_rates(), q2) == (if q2 < q {
                        map_get(self.spec_rates(), q2)
                    } else {
                        None::<DecoherenceRates>
                    }),
            decreases n - q,
        {
            let ghost gpre = generic;
            match self.qubit_decoherence_rates(&q) {
                Some(x) => {
                    match generic.set_qubit_decoherence_rates(q, x) {
                        Ok(()) => {},
                        Err(e) => {
                            return Err(e);
                        },
                    }
                },
                None => {},
            }
            proof {
                assert forall|q2: usize| #[trigger]
                    map_get(generic.spec_rates(), q2) == (if q2 < q + 1 {
                        map_get(self.spec_rates(), q2)
                    } else {
                        None::<DecoherenceRates>
                    }) by {
                    assert(map_get(gpre.spec_rates(), q2) == (if q2 < q {
                        map_get(self.spec_rates(), q2)
                    } else {
                        None::<DecoherenceRates>
                    }));
                }
            }
            q = q + 1;
        }

        Ok(generic)
    }
}

} // verus!
