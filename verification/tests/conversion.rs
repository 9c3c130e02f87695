//! Behaviour of the generic device and of the conversion that produces it.

use roqoqo_qiskit_devices::DecoherenceRates;
use roqoqo_qiskit_devices::DeviceError;
use roqoqo_qiskit_devices::GenericDevice;
use roqoqo_qiskit_devices::IBMBelemDevice;
use roqoqo_qiskit_devices::IBMDeviceTrait;
use roqoqo_qiskit_devices::UNIT_GATE_TIME;

#[test]
fn fresh_device_converts_to_unit_times() {
    let device = IBMBelemDevice::new();
    let generic = device.to_generic_device().unwrap();
    assert_eq!(generic.number_qubits(), 5);
    for qubit in 0..5 {
        for gate in device.single_qubit_gate_names() {
            assert_eq!(
                generic.single_qubit_gate_time(&gate, &qubit),
                Some(UNIT_GATE_TIME)
            );
        }
    }
    for (a, b) in device.two_qubit_edges() {
        assert_eq!(generic.two_qubit_gate_time("CNOT", &a, &b), Some(UNIT_GATE_TIME));
        assert_eq!(generic.two_qubit_gate_time("CNOT", &b, &a), Some(UNIT_GATE_TIME));
    }
    for qubit in 0..5 {
        assert_eq!(generic.qubit_decoherence_rates(&qubit), None);
    }
}

#[test]
fn conversion_copies_edits_and_decoherence() {
    let mut device = IBMBelemDevice::new();
    device.set_single_qubit_gate_time("PauliX", 3, 77).unwrap();
    device.set_two_qubit_gate_time("CNOT", 1, 3, 88).unwrap();
    device.add_damping(2, 100_000).unwrap();
    device.add_dephasing(2, 50_000).unwrap();
    let generic = device.to_generic_device().unwrap();
    assert_eq!(generic.single_qubit_gate_time("PauliX", &3), Some(77));
    assert_eq!(generic.single_qubit_gate_time("PauliX", &0), Some(UNIT_GATE_TIME));
    assert_eq!(generic.two_qubit_gate_time("CNOT", &1, &3), Some(88));
    assert_eq!(generic.two_qubit_gate_time("CNOT", &3, &1), Some(UNIT_GATE_TIME));
    let expected = DecoherenceRates { e00: 100_000, e22: 50_000, ..DecoherenceRates::zero() };
    assert_eq!(generic.qubit_decoherence_rates(&2), Some(expected));
    assert_eq!(generic.qubit_decoherence_rates(&4), None);
}

#[test]
fn conversion_copies_only_native_gate_names() {
    let mut device = IBMBelemDevice::new();
    device.set_single_qubit_gate_time("Hadamard", 0, 9).unwrap();
    assert_eq!(device.single_qubit_gate_time("Hadamard", &0), Some(9));
    let generic = device.to_generic_device().unwrap();
    // Only names the topology provider lists are carried over.
    assert_eq!(generic.single_qubit_gate_time("Hadamard", &0), None);
}

#[test]
fn conversion_drops_decoherence_past_the_last_qubit() {
    let mut device = IBMBelemDevice::new();
    device.add_damping(5, 8).unwrap();
    assert!(device.qubit_decoherence_rates(&5).is_some());
    let generic = device.to_generic_device().unwrap();
    // The conversion copies matrices for qubits 0..number_qubits only.
    assert_eq!(generic.qubit_decoherence_rates(&5), None);
}

#[test]
fn generic_device_revalidates_qubit_ranges() {
    let mut generic = GenericDevice::new(5);
    assert_eq!(generic.set_single_qubit_gate_time("PauliX", 4, 1), Ok(()));
    assert_eq!(
        generic.set_single_qubit_gate_time("PauliX", 5, 1),
        Err(DeviceError::OutOfRange)
    );
    assert_eq!(generic.set_two_qubit_gate_time("CNOT", 0, 4, 1), Ok(()));
    assert_eq!(
        generic.set_two_qubit_gate_time("CNOT", 0, 5, 1),
        Err(DeviceError::OutOfRange)
    );
    assert_eq!(
        generic.set_two_qubit_gate_time("CNOT", 5, 0, 1),
        Err(DeviceError::OutOfRange)
    );
    let m = DecoherenceRates::zero();
    assert_eq!(generic.set_qubit_decoherence_rates(4, m), Ok(()));
    // Same boundary as the accumulators: one past the last qubit passes.
    assert_eq!(generic.set_qubit_decoherence_rates(5, m), Ok(()));
    assert_eq!(
        generic.set_qubit_decoherence_rates(6, m),
        Err(DeviceError::OutOfRange)
    );
}

#[test]
fn generic_device_has_no_connectivity_check() {
    let mut generic = GenericDevice::new(5);
    // (0, 2) is no belem edge, but the generic device carries no topology.
    assert_eq!(generic.set_two_qubit_gate_time("CNOT", 0, 2, 3), Ok(()));
    assert_eq!(generic.two_qubit_gate_time("CNOT", &0, &2), Some(3));
    assert_eq!(generic.two_qubit_gate_time("CNOT", &2, &0), None);
}

#[test]
fn generic_setter_directionality() {
    let mut generic = GenericDevice::new(5);
    generic.set_two_qubit_gate_time("CNOT", 0, 1, 5).unwrap();
    assert_eq!(generic.two_qubit_gate_time("CNOT", &0, &1), Some(5));
    assert_eq!(generic.two_qubit_gate_time("CNOT", &1, &0), None);
}

#[test]
fn generic_decoherence_is_overwritten_not_accumulated() {
    let mut generic = GenericDevice::new(3);
    let first = DecoherenceRates { e00: 10, ..DecoherenceRates::zero() };
    let second = DecoherenceRates { e22: 20, ..DecoherenceRates::zero() };
    generic.set_qubit_decoherence_rates(1, first).unwrap();
    generic.set_qubit_decoherence_rates(1, second).unwrap();
    assert_eq!(generic.qubit_decoherence_rates(&1), Some(second));
}
