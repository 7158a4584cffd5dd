use vstd::prelude::*;

verus! {

/// Failure of an underlying byte read or write on the sensor bus
/// (bus unavailable, NACK, timeout, device absent). The library never
/// retries: the first failing transfer aborts the whole operation and
/// this error surfaces to the caller unchanged.
#[derive(Clone, Copy, Debug, PartialEq, Eq, Structural)]
pub struct TransportError;

} // verus!
