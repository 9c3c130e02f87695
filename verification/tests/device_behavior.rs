//! Behaviour of the belem device: validated mutation, queries, topology.

use roqoqo_qiskit_devices::DecoherenceRates;
use roqoqo_qiskit_devices::DeviceError;
use roqoqo_qiskit_devices::IBMBelemDevice;
use roqoqo_qiskit_devices::IBMDevice;
use roqoqo_qiskit_devices::IBMDeviceTrait;
use roqoqo_qiskit_devices::UNIT_GATE_TIME;

fn zero_matrix() -> DecoherenceRates {
    DecoherenceRates::zero()
}

#[test]
fn qubit_count_constant_across_mutations() {
    let mut device = IBMBelemDevice::new();
    assert_eq!(device.number_qubits(), 5);
    device.set_single_qubit_gate_time("PauliX", 2, 17).unwrap();
    device.set_two_qubit_gate_time("CNOT", 0, 1, 23).unwrap();
    device.add_damping(1, 5).unwrap();
    device.add_dephasing(3, 7).unwrap();
    assert!(device.set_single_qubit_gate_time("PauliX", 9, 1).is_err());
    assert_eq!(device.number_qubits(), 5);
}

#[test]
fn set_single_then_read_back() {
    let mut device = IBMBelemDevice::new();
    for qubit in 0..5 {
        device.set_single_qubit_gate_time("RotateZ", qubit, 42).unwrap();
        assert_eq!(device.single_qubit_gate_time("RotateZ", &qubit), Some(42));
    }
    assert_eq!(
        device.set_single_qubit_gate_time("RotateZ", 5, 42),
        Err(DeviceError::OutOfRange)
    );
    assert_eq!(
        device.set_single_qubit_gate_time("RotateZ", 6, 42),
        Err(DeviceError::OutOfRange)
    );
}

#[test]
fn set_single_overwrites_and_is_idempotent() {
    let mut device = IBMBelemDevice::new();
    device.set_single_qubit_gate_time("PauliX", 0, 11).unwrap();
    device.set_single_qubit_gate_time("PauliX", 0, 12).unwrap();
    assert_eq!(device.single_qubit_gate_time("PauliX", &0), Some(12));
    device.set_single_qubit_gate_time("PauliX", 0, 12).unwrap();
    assert_eq!(device.single_qubit_gate_time("PauliX", &0), Some(12));
}

#[test]
fn arbitrary_gate_names_are_accepted_as_keys() {
    let mut device = IBMBelemDevice::new();
    assert_eq!(device.single_qubit_gate_time("Hadamard", &0), None);
    device.set_single_qubit_gate_time("Hadamard", 0, 9).unwrap();
    assert_eq!(device.single_qubit_gate_time("Hadamard", &0), Some(9));
    assert_eq!(device.single_qubit_gate_time("Hadamard", &1), None);
}

#[test]
fn set_two_succeeds_iff_edge() {
    let edges = [(0, 1), (1, 2), (1, 3), (3, 4)];
    let mut device = IBMBelemDevice::new();
    for (a, b) in edges {
        assert_eq!(device.set_two_qubit_gate_time("CNOT", a, b, 3), Ok(()));
        assert_eq!(device.set_two_qubit_gate_time("CNOT", b, a, 3), Ok(()));
    }
    for a in 0..5usize {
        for b in 0..5usize {
            let is_edge = edges.contains(&(a, b)) || edges.contains(&(b, a));
            let result = device.set_two_qubit_gate_time("CNOT", a, b, 3);
            if is_edge {
                assert_eq!(result, Ok(()));
            } else {
                assert_eq!(result, Err(DeviceError::NotConnected));
            }
        }
    }
    assert_eq!(
        device.set_two_qubit_gate_time("CNOT", 0, 5, 3),
        Err(DeviceError::OutOfRange)
    );
    assert_eq!(
        device.set_two_qubit_gate_time("CNOT", 7, 1, 3),
        Err(DeviceError::OutOfRange)
    );
}

#[test]
fn setting_one_direction_leaves_reverse_alone() {
    let mut device = IBMBelemDevice::new();
    device.set_two_qubit_gate_time("CNOT", 0, 1, 123).unwrap();
    assert_eq!(device.two_qubit_gate_time("CNOT", &0, &1), Some(123));
    // The reverse direction still carries the constructor's unit default,
    // not the newly written time.
    assert_eq!(device.two_qubit_gate_time("CNOT", &1, &0), Some(UNIT_GATE_TIME));
}

#[test]
fn damping_accumulates_on_first_entry() {
    let mut device = IBMBelemDevice::new();
    device.add_damping(2, 100).unwrap();
    device.add_damping(2, 250).unwrap();
    let matrix = device.qubit_decoherence_rates(&2).unwrap();
    let expected = DecoherenceRates { e00: 350, ..zero_matrix() };
    assert_eq!(matrix, expected);
}

#[test]
fn damping_and_dephasing_commute() {
    let mut first = IBMBelemDevice::new();
    first.add_damping(1, 40).unwrap();
    first.add_dephasing(1, 60).unwrap();
    let mut second = IBMBelemDevice::new();
    second.add_dephasing(1, 60).unwrap();
    second.add_damping(1, 40).unwrap();
    assert_eq!(
        first.qubit_decoherence_rates(&1),
        second.qubit_decoherence_rates(&1)
    );
    let expected = DecoherenceRates { e00: 40, e22: 60, ..zero_matrix() };
    assert_eq!(first.qubit_decoherence_rates(&1), Some(expected));
}

#[test]
fn damping_scenario_exact_matrices() {
    let mut device = IBMBelemDevice::new();
    assert_eq!(device.qubit_decoherence_rates(&0), None);
    device.add_damping(0, 100_000).unwrap();
    assert_eq!(
        device.qubit_decoherence_rates(&0),
        Some(DecoherenceRates { e00: 100_000, ..zero_matrix() })
    );
    device.add_damping(0, 200_000).unwrap();
    assert_eq!(
        device.qubit_decoherence_rates(&0),
        Some(DecoherenceRates { e00: 300_000, ..zero_matrix() })
    );
}

#[test]
fn damping_saturates_instead_of_overflowing() {
    let mut device = IBMBelemDevice::new();
    device.add_damping(0, u64::MAX).unwrap();
    device.add_damping(0, 5).unwrap();
    let matrix = device.qubit_decoherence_rates(&0).unwrap();
    assert_eq!(matrix, DecoherenceRates { e00: u64::MAX, ..zero_matrix() });
}

#[test]
fn damping_boundary_is_one_past_the_last_qubit() {
    let mut device = IBMBelemDevice::new();
    // The decoherence accumulators reject only indices strictly above the
    // qubit count: index 5 on a 5-qubit device is accepted.
    assert_eq!(device.add_damping(5, 8), Ok(()));
    assert_eq!(
        device.qubit_decoherence_rates(&5),
        Some(DecoherenceRates { e00: 8, ..zero_matrix() })
    );
    assert_eq!(device.add_damping(6, 8), Err(DeviceError::OutOfRange));
    assert_eq!(device.add_dephasing(5, 9), Ok(()));
    assert_eq!(device.add_dephasing(6, 9), Err(DeviceError::OutOfRange));
}

#[test]
fn belem_scenario_topology_and_defaults() {
    let device = IBMBelemDevice::new();
    assert_eq!(device.two_qubit_gate_time("CNOT", &0, &1), Some(UNIT_GATE_TIME));
    assert_eq!(device.two_qubit_gate_time("CNOT", &2, &0), None);
    assert_eq!(device.single_qubit_gate_names().len(), 3);
    let chains = device.longest_chains();
    assert!(chains.iter().any(|c| c.len() == 4));
    assert!(chains.contains(&vec![0, 1, 3, 4]));
}

#[test]
fn gate_name_lists() {
    let device = IBMBelemDevice::new();
    assert_eq!(
        device.single_qubit_gate_names(),
        vec![
            "PauliX".to_string(),
            "RotateZ".to_string(),
            "SqrtPauliX".to_string()
        ]
    );
    assert_eq!(device.two_qubit_gate_names(), vec!["CNOT".to_string()]);
    assert!(device.multi_qubit_gate_names().is_empty());
    assert_eq!(device.multi_qubit_gate_time("Toffoli", &[0, 1, 2]), None);
}

#[test]
fn identifier_and_topology_constants() {
    let device = IBMBelemDevice::new();
    assert_eq!(device.name(), "ibmq_belem");
    assert_eq!(device.two_qubit_edges(), vec![(0, 1), (1, 2), (1, 3), (3, 4)]);
    assert_eq!(
        device.longest_closed_chains(),
        vec![
            vec![0, 1],
            vec![1, 0],
            vec![1, 2],
            vec![2, 1],
            vec![1, 3],
            vec![3, 1],
            vec![3, 4],
            vec![4, 3],
        ]
    );
}

#[test]
fn default_matches_new() {
    let fresh = IBMBelemDevice::new();
    let defaulted = IBMBelemDevice::default();
    assert_eq!(defaulted.number_qubits(), fresh.number_qubits());
    for qubit in 0..5 {
        for gate in fresh.single_qubit_gate_names() {
            assert_eq!(
                defaulted.single_qubit_gate_time(&gate, &qubit),
                fresh.single_qubit_gate_time(&gate, &qubit)
            );
        }
        assert_eq!(defaulted.qubit_decoherence_rates(&qubit), None);
    }
}

#[test]
fn device_collection_wraps_belem() {
    let device = IBMBelemDevice::new();
    let wrapped = IBMDevice::from(device);
    let IBMDevice::IBMBelemDevice(inner) = wrapped;
    assert_eq!(inner.number_qubits(), 5);
}
