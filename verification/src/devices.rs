//! The shared device contract and the collection of wired-up IBM devices.
//!
//! Every concrete hardware descriptor implements [`IBMDeviceTrait`], whose
//! contracts are stated over the capability store backing the device. The
//! per-chip modules supply only data — topology constants and native gate
//! lists — never validation logic, which lives once in
//! [`crate::capabilities::DeviceCapabilities`].

use vstd::prelude::*;

use crate::capabilities::DeviceCapabilities;
use crate::capabilities::damp_map;
use crate::capabilities::dephase_map;
use crate::error::DeviceError;
use crate::generic::GenericDevice;
use crate::generic::converted;
use crate::rates::DecoherenceRates;
use crate::tables::map_get;
use crate::tables::pair_listed;
use crate::tables::views_of;

pub mod ibm_belem;

pub use ibm_belem::IBMBelemDevice;

verus! {

/// The views of a list of qubit chains.
pub open spec fn chain_views(chains: Seq<Vec<usize>>) -> Seq<Seq<usize>> {
    chains.map_values(|c: Vec<usize>| c@)
}

/// The behavioural contract every IBM hardware descriptor satisfies:
/// validated mutation of gate-time tables, additive accumulation of
/// decoherence rates, read-only capability queries, and the conversion to a
/// vendor-neutral [`GenericDevice`].
pub trait IBMDeviceTrait: Sized {
    /// The capability store backing this device.
    spec fn caps(&self) -> DeviceCapabilities;

    /// The views of the native single-qubit gate names.
    spec fn spec_single_qubit_gate_names(&self) -> Seq<Seq<char>>;

    /// The views of the native two-qubit gate names.
    spec fn spec_two_qubit_gate_names(&self) -> Seq<Seq<char>>;

    /// The view of the IBM identifier.
    spec fn spec_name(&self) -> Seq<char>;

    /// The longest open linear chains through the connectivity graph.
    spec fn spec_longest_chains(&self) -> Seq<Seq<usize>>;

    /// The longest closed chains: first and last qubit of each are joined
    /// by an edge.
    spec fn spec_longest_closed_chains(&self) -> Seq<Seq<usize>>;

    /// The name IBM uses as identifier for this device.
    fn name(&self) -> (r: &'static str)
        ensures
            r@ == self.spec_name(),
    ;

    /// The number of qubits the device supports.
    fn number_qubits(&self) -> (n: usize)
        ensures
            n == self.caps().spec_number_qubits(),
    ;

    /// The names of the single-qubit operations available on the device.
    fn single_qubit_gate_names(&self) -> (v: Vec<String>)
        ensures
            views_of(v@) == self.spec_single_qubit_gate_names(),
    ;

    /// The names of the two-qubit operations available on the device.
    fn two_qubit_gate_names(&self) -> (v: Vec<String>)
        ensures
            views_of(v@) == self.spec_two_qubit_gate_names(),
    ;

    /// The names of the multi-qubit operations: always empty, this hardware
    /// family has no native gates on more than two qubits.
    fn multi_qubit_gate_names(&self) -> (v: Vec<String>)
        ensures
            v@.len() == 0,
    ;

    /// The stored time of a single-qubit gate, or `None` when absent.
    fn single_qubit_gate_time(&self, hqslang: &str, qubit: &usize) -> (r: Option<u64>)
        ensures
            r == map_get(self.caps().spec_single(), (hqslang@, *qubit)),
    ;

    /// The stored time of a two-qubit gate in the exact direction
    /// `(control, target)`, or `None` when absent.
    fn two_qubit_gate_time(&self, hqslang: &str, control: &usize, target: &usize) -> (r: Option<
        u64,
    >)
        ensures
            r == map_get(self.caps().spec_two(), (hqslang@, (*control, *target))),
    ;

    /// The time of a multi-qubit gate: always `None`.
    fn multi_qubit_gate_time(&self, hqslang: &str, qubits: &[usize]) -> (r: Option<u64>)
        ensures
            r == None::<u64>,
    ;

    /// The decoherence matrix stored for `qubit`, or `None` when absent.
    fn qubit_decoherence_rates(&self, qubit: &usize) -> (r: Option<DecoherenceRates>)
        ensures
            r == map_get(self.caps().spec_rates(), *qubit),
    ;

    /// The canonical undirected edge list, each edge listed once.
    fn two_qubit_edges(&self) -> (v: Vec<(usize, usize)>)
        ensures
            v@ == self.caps().spec_edges(),
    ;

    /// At least one maximum-length simple path through the connectivity
    /// graph.
    fn longest_chains(&self) -> (v: Vec<Vec<usize>>)
        ensures
            chain_views(v@) == self.spec_longest_chains(),
    ;

    /// At least one maximum-length closed chain: the first qubit of each
    /// returned chain is connected to the last by an edge.
    fn longest_closed_chains(&self) -> (v: Vec<Vec<usize>>)
        ensures
            chain_views(v@) == self.spec_longest_closed_chains(),
    ;

    /// Inserts or overwrites the time of `gate` on `qubit`; rejects
    /// `qubit >= number_qubits` with `OutOfRange` without touching any
    /// table.
    fn set_single_qubit_gate_time(&mut self, gate: &str, qubit: usize, gate_time: u64) -> (r:
        Result<(), DeviceError>)
        ensures
            final(self).caps().spec_number_qubits() == old(self).caps().spec_number_qubits(),
            final(self).caps().spec_edges() == old(self).caps().spec_edges(),
            final(self).spec_single_qubit_gate_names() == old(self).spec_single_qubit_gate_names(),
            final(self).spec_two_qubit_gate_names() == old(self).spec_two_qubit_gate_names(),
            (r == Ok::<(), DeviceError>(())) <==> qubit < old(self).caps().spec_number_qubits(),
            qubit < old(self).caps().spec_number_qubits() ==> final(self).caps().spec_single()
                == old(self).caps().spec_single().insert((gate@, qubit), gate_time) && final(self).caps().spec_two() == old(self).caps().spec_two() && final(self).caps().spec_rates()
                == old(self).caps().spec_rates(),
            qubit >= old(self).caps().spec_number_qubits() ==> r == Err::<(), DeviceError>(
                DeviceError::OutOfRange,
            ) && final(self).caps() == old(self).caps(),
            old(self).caps().wf() ==> final(self).caps().wf(),
    ;

    /// Inserts or overwrites the time of `gate` in the exact direction
    /// `(control, target)`; rejects an out-of-range index with `OutOfRange`
    /// and a pair with no topology edge in either direction with
    /// `NotConnected`, without touching any table. Setting
    /// `(control, target)` never sets `(target, control)`.
    fn set_two_qubit_gate_time(
        &mut self,
        gate: &str,
        control: usize,
        target: usize,
        gate_time: u64,
    ) -> (r: Result<(), DeviceError>)
        ensures
            final(self).caps().spec_number_qubits() == old(self).caps().spec_number_qubits(),
            final(self).caps().spec_edges() == old(self).caps().spec_edges(),
            final(self).spec_single_qubit_gate_names() == old(self).spec_single_qubit_gate_names(),
            final(self).spec_two_qubit_gate_names() == old(self).spec_two_qubit_gate_names(),
            (r == Ok::<(), DeviceError>(())) <==> control < old(self).caps().spec_number_qubits()
                && target < old(self).caps().spec_number_qubits() && pair_listed(
                old(self).caps().spec_edges(),
                control,
                target,
            ),
            (control >= old(self).caps().spec_number_qubits() || target >= old(self).caps().spec_number_qubits()) ==> r == Err::<(), DeviceError>(DeviceError::OutOfRange),
            (control < old(self).caps().spec_number_qubits() && target < old(self).caps().spec_number_qubits() && !pair_listed(
                old(self).caps().spec_edges(),
                control,
                target,
            )) ==> r == Err::<(), DeviceError>(DeviceError::NotConnected),
            (r == Ok::<(), DeviceError>(())) ==> final(self).caps().spec_two() == old(self).caps().spec_two().insert((gate@, (control, target)), gate_time) && final(self).caps().spec_single() == old(self).caps().spec_single() && final(self).caps().spec_rates() == old(self).caps().spec_rates(),
            (r != Ok::<(), DeviceError>(())) ==> final(self).caps() == old(self).caps(),
            old(self).caps().wf() ==> final(self).caps().wf(),
    ;

    /// Adds `damping` onto the `(0, 0)` entry of the qubit's decoherence
    /// matrix, creating a zero matrix first when absent. Rejects only
    /// `qubit > number_qubits` with `OutOfRange`.
    fn add_damping(&mut self, qubit: usize, damping: u64) -> (r: Result<(), DeviceError>)
        ensures
            final(self).caps().spec_number_qubits() == old(self).caps().spec_number_qubits(),
            final(self).caps().spec_edges() == old(self).caps().spec_edges(),
            final(self).spec_single_qubit_gate_names() == old(self).spec_single_qubit_gate_names(),
            final(self).spec_two_qubit_gate_names() == old(self).spec_two_qubit_gate_names(),
            (r == Ok::<(), DeviceError>(())) <==> qubit <= old(self).caps().spec_number_qubits(),
            qubit <= old(self).caps().spec_number_qubits() ==> final(self).caps().spec_rates()
                == damp_map(old(self).caps().spec_rates(), qubit, damping) && final(self).caps().spec_single() == old(self).caps().spec_single() && final(self).caps().spec_two()
                == old(self).caps().spec_two(),
            qubit > old(self).caps().spec_number_qubits() ==> r == Err::<(), DeviceError>(
                DeviceError::OutOfRange,
            ) && final(self).caps() == old(self).caps(),
            old(self).caps().wf() ==> final(self).caps().wf(),
    ;

    /// Adds `dephasing` onto the `(2, 2)` entry of the qubit's decoherence
    /// matrix, creating a zero matrix first when absent. Same boundary rule
    /// as `add_damping`.
    fn add_dephasing(&mut self, qubit: usize, dephasing: u64) -> (r: Result<(), DeviceError>)
        ensures
            final(self).caps().spec_number_qubits() == old(self).caps().spec_number_qubits(),
            final(self).caps().spec_edges() == old(self).caps().spec_edges(),
            final(self).spec_single_qubit_gate_names() == old(self).spec_single_qubit_gate_names(),
            final(self).spec_two_qubit_gate_names() == old(self).spec_two_qubit_gate_names(),
            (r == Ok::<(), DeviceError>(())) <==> qubit <= old(self).caps().spec_number_qubits(),
            qubit <= old(self).caps().spec_number_qubits() ==> final(self).caps().spec_rates()
                == dephase_map(old(self).caps().spec_rates(), qubit, dephasing) && final(self).caps().spec_single() == old(self).caps().spec_single() && final(self).caps().spec_two()
                == old(self).caps().spec_two(),
            qubit > old(self).caps().spec_number_qubits() ==> r == Err::<(), DeviceError>(
                DeviceError::OutOfRange,
            ) && final(self).caps() == old(self).caps(),
            old(self).caps().wf() ==> final(self).caps().wf(),
    ;

    /// Converts the device to a vendor-neutral [`GenericDevice`] carrying
    /// the same capability information, with both directions of every edge
    /// probed independently.
    fn to_generic_device(&self) -> (r: Result<GenericDevice, DeviceError>)
        requires
            self.caps().wf(),
        ensures
            r is Ok,
            converted(
                self.caps(),
                self.spec_single_qubit_gate_names(),
                self.spec_two_qubit_gate_names(),
                r->Ok_0,
            ),
    ;
}

/// Collection of IBM quantum devices.
#[derive(Clone, Debug)]
pub enum IBMDevice {
    IBMBelemDevice(IBMBelemDevice),
}

impl From<IBMBelemDevice> for IBMDevice {
    /// Wraps a concrete device into the device collection.
    fn from(input: IBMBelemDevice) -> (r: IBMDevice)
        ensures
            r == IBMDevice::IBMBelemDevice(input),
    {
        IBMDevice::IBMBelemDevice(input)
    }
}

impl vstd::std_specs::convert::FromSpecImpl<IBMBelemDevice> for IBMDevice {
    open spec fn obeys_from_spec() -> bool {
        true
    }

    open spec fn from_spec(v: IBMBelemDevice) -> IBMDevice {
        IBMDevice::IBMBelemDevice(v)
    }
}

} // verus!
