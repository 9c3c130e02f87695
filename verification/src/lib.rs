//! Quantum-processor hardware descriptors with verified capability tables.
//!
//! A device holds per-qubit and per-qubit-pair gate execution times, an
//! undirected connectivity topology, and per-qubit decoherence-rate matrices.
//! All mutation is validated (qubit ranges, connectivity), decoherence rates
//! accumulate additively, and a device can be flattened into a vendor-neutral
//! [`GenericDevice`] snapshot.
//!
//! Gate times and decoherence rates are unsigned fixed-point numbers counted
//! in millionths of the vendor's time/rate unit ([`UNIT_GATE_TIME`] is 1.0);
//! the conversion to and from floating point belongs to the unverified shell
//! around this crate.

pub mod capabilities;
pub mod devices;
pub mod error;
pub mod generic;
pub mod laws;
pub mod rates;
pub mod tables;

pub use capabilities::DeviceCapabilities;
pub use devices::IBMDevice;
pub use devices::IBMDeviceTrait;
pub use devices::ibm_belem::IBMBelemDevice;
pub use error::DeviceError;
pub use generic::GenericDevice;
pub use rates::DecoherenceRates;
pub use rates::UNIT_GATE_TIME;
