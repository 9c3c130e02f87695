//! The validated capability store shared by every concrete device.
//!
//! All mutation of gate-time tables and decoherence matrices funnels through
//! this one type, so every concrete device inherits identical validation:
//! qubit indices are checked against the qubit count, two-qubit targets
//! against the connectivity topology, and decoherence rates accumulate
//! additively without ever being overwritten.

use vstd::prelude::*;

use crate::error::DeviceError;
use crate::rates::DecoherenceRates;
use crate::tables::QubitRates;
use crate::tables::SingleGateTime;
use crate::tables::TwoGateTime;
use crate::tables::lemma_rates_map_push;
use crate::tables::lemma_single_map_push;
use crate::tables::lemma_two_map_push;
use crate::tables::map_get;
use crate::tables::pair_listed;
use crate::tables::pair_listed_upto;
use crate::tables::rates_lookup;
use crate::tables::rates_map;
use crate::tables::single_lookup;
use crate::tables::single_map;
use crate::tables::two_lookup;
use crate::tables::two_map;

verus! {

/// The decoherence matrix a table holds for `q`, reading absence as zero.
pub open spec fn rate_at(m: Map<usize, DecoherenceRates>, q: usize) -> DecoherenceRates {
    if m.contains_key(q) {
        m[q]
    } else {
        DecoherenceRates::zero_spec()
    }
}

/// The decoherence table after `rate` of damping is added onto qubit `q`.
pub open spec fn damp_map(m: Map<usize, DecoherenceRates>, q: usize, rate: u64) -> Map<
    usize,
    DecoherenceRates,
> {
    m.insert(q, rate_at(m, q).damped(rate))
}

/// The decoherence table after `rate` of dephasing is added onto qubit `q`.
pub open spec fn dephase_map(m: Map<usize, DecoherenceRates>, q: usize, rate: u64) -> Map<
    usize,
    DecoherenceRates,
> {
    m.insert(q, rate_at(m, q).dephased(rate))
}

/// The store's invariant, over its observable components.
///
/// Edges connect two distinct in-range qubits; every single-qubit entry is
/// in range; every two-qubit entry sits on a topology edge (in one of the
/// two directions); decoherence entries may sit one past the last qubit,
/// because the decoherence accumulators only reject indices strictly above
/// the qubit count.
pub open spec fn caps_inv(
    n: usize,
    edges: Seq<(usize, usize)>,
    single: Map<(Seq<char>, usize), u64>,
    two: Map<(Seq<char>, (usize, usize)), u64>,
    rates: Map<usize, DecoherenceRates>,
) -> bool {
    &&& forall|j: int|
        0 <= j < edges.len() ==> (#[trigger] edges[j]).0 < n && edges[j].1 < n && edges[j].0
            != edges[j].1
    &&& forall|k: (Seq<char>, usize)| #[trigger] single.contains_key(k) ==> k.1 < n
    &&& forall|k: (Seq<char>, (usize, usize))| #[trigger]
        two.contains_key(k) ==> k.1.0 < n && k.1.1 < n && pair_listed(edges, k.1.0, k.1.1)
    &&& forall|q: usize| #[trigger] rates.contains_key(q) ==> q <= n
}

/// Mutable gate-time tables, decoherence matrices and the immutable
/// connectivity topology of one device.
#[derive(Clone, Debug)]
pub struct DeviceCapabilities {
    number_qubits: usize,
    edges: Vec<(usize, usize)>,
    single: Vec<SingleGateTime>,
    two: Vec<TwoGateTime>,
    rates: Vec<QubitRates>,
}

impl DeviceCapabilities {
    /// The number of qubits, fixed at construction.
    pub closed spec fn spec_number_qubits(&self) -> usize {
        self.number_qubits
    }

    /// The undirected connectivity edge list, fixed at construction.
    pub closed spec fn spec_edges(&self) -> Seq<(usize, usize)> {
        self.edges@
    }

    /// The single-qubit gate-time table as a map `(gate, qubit) -> time`.
    pub closed spec fn spec_single(&self) -> Map<(Seq<char>, usize), u64> {
        single_map(self.single@)
    }

    /// The two-qubit gate-time table as a map `(gate, (control, target)) -> time`.
    pub closed spec fn spec_two(&self) -> Map<(Seq<char>, (usize, usize)), u64> {
        two_map(self.two@)
    }

    /// The decoherence table as a map `qubit -> matrix`.
    pub closed spec fn spec_rates(&self) -> Map<usize, DecoherenceRates> {
        rates_map(self.rates@)
    }

    /// Well-formedness: the invariant over the store's components.
    pub open spec fn wf(&self) -> bool {
        caps_inv(
            self.spec_number_qubits(),
            self.spec_edges(),
            self.spec_single(),
            self.spec_two(),
            self.spec_rates(),
        )
    }

    /// Creates an empty store with a fixed qubit count and topology.
    pub fn new(number_qubits: usize, edges: Vec<(usize, usize)>) -> (r: DeviceCapabilities)
        requires
            forall|j: int|
                0 <= j < edges@.len() ==> (#[trigger] edges@[j]).0 < number_qubits
                    && edges@[j].1 < number_qubits && edges@[j].0 != edges@[j].1,
        ensures
            r.spec_number_qubits() == number_qubits,
            r.spec_edges() == edges@,
            r.spec_single() == Map::<(Seq<char>, usize), u64>::empty(),
            r.spec_two() == Map::<(Seq<char>, (usize, usize)), u64>::empty(),
            r.spec_rates() == Map::<usize, DecoherenceRates>::empty(),
            r.wf(),
    {
        DeviceCapabilities {
            number_qubits,
            edges,
            single: Vec::new(),
            two: Vec::new(),
            rates: Vec::new(),
        }
    }

    /// The number of qubits the device supports.
    pub fn number_qubits(&self) -> (n: usize)
        ensures
            n == self.spec_number_qubits(),
    {
        self.number_qubits
    }

    /// The canonical undirected edge list, each edge listed once.
    pub fn two_qubit_edges(&self) -> (v: Vec<(usize, usize)>)
        ensures
            v@ == self.spec_edges(),
    {
        let mut v: Vec<(usize, usize)> = Vec::new();
        let mut i: usize = 0;
        while i < self.edges.len()
            invariant
                i <= self.edges@.len(),
                v@ == self.edges@.subrange(0, i as int),
            decreases self.edges@.len() - i,
        {
            v.push(self.edges[i]);
            proof {
                assert(self.edges@.subrange(0, i + 1) =~= self.edges@.subrange(0, i as int).push(
                    self.edges@[i as int],
                ));
            }
            i = i + 1;
        }
        proof {
            assert(self.edges@.subrange(0, self.edges@.len() as int) =~= self.edges@);
        }
        v
    }

    /// True iff `a` and `b` are joined by a topology edge, in either order.
    pub fn edge_connects(&self, a: usize, b: usize) -> (r: bool)
        ensures
            r == pair_listed(self.spec_edges(), a, b),
    {
        let mut i: usize = 0;
        while i < self.edges.len()
            invariant
                i <= self.edges@.len(),
                !pair_listed_upto(self.spec_edges(), a, b, i as int),
            decreases self.edges@.len() - i,
        {
            let e = self.edges[i];
            if (e.0 == a && e.1 == b) || (e.0 == b && e.1 == a) {
                proof {
                    assert(self.spec_edges()[i as int] == (a, b) || self.spec_edges()[i as int]
                        == (b, a));
                }
                return true;
            }
            i = i + 1;
        }
        false
    }

    /// The stored time of a single-qubit gate, or `None` when absent.
    pub fn single_qubit_gate_time(&self, hqslang: &str, qubit: &usize) -> (r: Option<u64>)
        ensures
            r == map_get(self.spec_single(), (hqslang@, *qubit)),
    {
        single_lookup(&self.single, hqslang, *qubit)
    }

    /// The stored time of a two-qubit gate in the exact direction
    /// `(control, target)`, or `None` when absent.
    pub fn two_qubit_gate_time(&self, hqslang: &str, control: &usize, target: &usize) -> (r: Option<
        u64,
    >)
        ensures
            r == map_get(self.spec_two(), (hqslang@, (*control, *target))),
    {
        two_lookup(&self.two, hqslang, *control, *target)
    }

    /// The decoherence matrix stored for `qubit`, or `None` when absent.
    pub fn qubit_decoherence_rates(&self, qubit: &usize) -> (r: Option<DecoherenceRates>)
        ensures
            r == map_get(self.spec_rates(), *qubit),
    {
        rates_lookup(&self.rates, *qubit)
    }

    /// Inserts or overwrites the time of `gate` on `qubit`.
    ///
    /// Rejects `qubit >= number_qubits` with `OutOfRange` without touching
    /// any table.
    pub fn set_single_qubit_gate_time(&mut self, gate: &str, qubit: usize, gate_time: u64) -> (r:
        Result<(), DeviceError>)
        ensures
            final(self).spec_number_qubits() == old(self).spec_number_qubits(),
            final(self).spec_edges() == old(self).spec_edges(),
            (r == Ok::<(), DeviceError>(())) <==> qubit < old(self).spec_number_qubits(),
            qubit < old(self).spec_number_qubits() ==> final(self).spec_single() == old(
                self,
            ).spec_single().insert((gate@, qubit), gate_time),
            qubit < old(self).spec_number_qubits() ==> final(self).spec_two() == old(
                self,
            ).spec_two() && final(self).spec_rates() == old(self).spec_rates(),
            qubit >= old(self).spec_number_qubits() ==> r == Err::<(), DeviceError>(
                DeviceError::OutOfRange,
            ) && *final(self) == *old(self),
            old(self).wf() ==> final(self).wf(),
    {
        if qubit >= self.number_qubits {
            return Err(DeviceError::OutOfRange);
        }
        let entry = SingleGateTime { gate: gate.to_owned(), qubit, time: gate_time };
        let ghost e = entry;
        let ghost s0 = self.single@;
        self.single.push(entry);
        proof {
            lemma_single_map_push(s0, e);
        }
        Ok(())
    }

    /// Inserts or overwrites the time of `gate` in the exact direction
    /// `(control, target)`.
    ///
    /// Rejects an out-of-range `control` or `target` with `OutOfRange`, and
    /// a pair with no topology edge in either direction with `NotConnected`,
    /// without touching any table. Setting `(control, target)` never sets
    /// `(target, control)`: callers wanting symmetry set both directions.
    pub fn set_two_qubit_gate_time(
        &mut self,
        gate: &str,
        control: usize,
        target: usize,
        gate_time: u64,
    ) -> (r: Result<(), DeviceError>)
        ensures
            final(self).spec_number_qubits() == old(self).spec_number_qubits(),
            final(self).spec_edges() == old(self).spec_edges(),
            (r == Ok::<(), DeviceError>(())) <==> control < old(self).spec_number_qubits()
                && target < old(self).spec_number_qubits() && pair_listed(
                old(self).spec_edges(),
                control,
                target,
            ),
            (control >= old(self).spec_number_qubits() || target >= old(
                self,
            ).spec_number_qubits()) ==> r == Err::<(), DeviceError>(DeviceError::OutOfRange),
            (control < old(self).spec_number_qubits() && target < old(self).spec_number_qubits()
                && !pair_listed(old(self).spec_edges(), control, target)) ==> r == Err::<
                (),
                DeviceError,
            >(DeviceError::NotConnected),
            (r == Ok::<(), DeviceError>(())) ==> final(self).spec_two() == old(
                self,
            ).spec_two().insert((gate@, (control, target)), gate_time) && final(self).spec_single()
                == old(self).spec_single() && final(self).spec_rates() == old(self).spec_rates(),
            (r != Ok::<(), DeviceError>(())) ==> *final(self) == *old(self),
            old(self).wf() ==> final(self).wf(),
    {
        if control >= self.number_qubits {
            return Err(DeviceError::OutOfRange);
        }
        if target >= self.number_qubits {
            return Err(DeviceError::OutOfRange);
        }
        if !self.edge_connects(control, target) {
            return Err(DeviceError::NotConnected);
        }
        let entry = TwoGateTime { gate: gate.to_owned(), control, target, time: gate_time };
        let ghost e = entry;
        let ghost s0 = self.two@;
        self.two.push(entry);
        proof {
            lemma_two_map_push(s0, e);
        }
        Ok(())
    }

    /// Adds `damping` onto the `(0, 0)` entry of the qubit's decoherence
    /// matrix, creating a zero matrix first when absent.
    ///
    /// Rejects only `qubit > number_qubits` with `OutOfRange`.
    pub fn add_damping(&mut self, qubit: usize, damping: u64) -> (r: Result<(), DeviceError>)
        ensures
            final(self).spec_number_qubits() == old(self).spec_number_qubits(),
            final(self).spec_edges() == old(self).spec_edges(),
            (r == Ok::<(), DeviceError>(())) <==> qubit <= old(self).spec_number_qubits(),
            qubit <= old(self).spec_number_qubits() ==> final(self).spec_rates() == damp_map(
                old(self).spec_rates(),
                qubit,
                damping,
            ) && final(self).spec_single() == old(self).spec_single() && final(self).spec_two()
                == old(self).spec_two(),
            qubit > old(self).spec_number_qubits() ==> r == Err::<(), DeviceError>(
                DeviceError::OutOfRange,
            ) && *final(self) == *old(self),
            old(self).wf() ==> final(self).wf(),
    {
        if qubit > self.number_qubits {
            return Err(DeviceError::OutOfRange);
        }
        let mut updated = match rates_lookup(&self.rates, qubit) {
            Some(m) => m,
            None => DecoherenceRates::zero(),
        };
        updated.add_damping_rate(damping);
        let entry = QubitRates { qubit, rates: updated };
        let ghost e = entry;
        let ghost s0 = self.rates@;
        self.rates.push(entry);
        proof {
            lemma_rates_map_push(s0, e);
        }
        Ok(())
    }

    /// Adds `dephasing` onto the `(2, 2)` entry of the qubit's decoherence
    /// matrix, creating a zero matrix first when absent.
    ///
    /// Same boundary rule as [`Self::add_damping`]: only `qubit >
    /// number_qubits` is rejected.
    pub fn add_dephasing(&mut self, qubit: usize, dephasing: u64) -> (r: Result<(), DeviceError>)
        ensures
            final(self).spec_number_qubits() == old(self).spec_number_qubits(),
            final(self).spec_edges() == old(self).spec_edges(),
            (r == Ok::<(), DeviceError>(())) <==> qubit <= old(self).spec_number_qubits(),
            qubit <= old(self).spec_number_qubits() ==> final(self).spec_rates() == dephase_map(
                old(self).spec_rates(),
                qubit,
                dephasing,
            ) && final(self).spec_single() == old(self).spec_single() && final(self).spec_two()
                == old(self).spec_two(),
            qubit > old(self).spec_number_qubits() ==> r == Err::<(), DeviceError>(
                DeviceError::OutOfRange,
            ) && *final(self) == *old(self),
            old(self).wf() ==> final(self).wf(),
    {
        if qubit > self.number_qubits {
            return Err(DeviceError::OutOfRange);
        }
        let mut updated = match rates_lookup(&self.rates, qubit) {
            Some(m) => m,
            None => DecoherenceRates::zero(),
        };
        updated.add_dephasing_rate(dephasing);
        let entry = QubitRates { qubit, rates: updated };
        let ghost e = entry;
        let ghost s0 = self.rates@;
        self.rates.push(entry);
        proof {
            lemma_rates_map_push(s0, e);
        }
        Ok(())
    }
}

} // verus!
