//! Errors returned by validated device mutation.

use vstd::prelude::*;

verus! {

/// Why a mutating device operation was rejected.
///
/// Every mutating operation validates eagerly and returns one of these
/// without touching any table; queries never fail (absence is `None`).
#[derive(Clone, Copy, Debug, PartialEq, Eq, Structural)]
pub enum DeviceError {
    /// A qubit index lies outside the range the device accepts
    /// (for gate-time setters: index `>=` qubit count; for the
    /// decoherence accumulators: index `>` qubit count).
    OutOfRange,
    /// A two-qubit gate time was requested between qubits with no
    /// topology edge in either direction.
    NotConnected,
}

} // verus!
