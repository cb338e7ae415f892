//! The outcome of the `port_dhcp_acquire` call of WASIX.
use vstd::prelude::*;
use crate::errors::{
    Errno,
    NetworkError,
    errno_of_network_error,
    lemma_errors_never_map_to_success,
    net_error_into_wasi_err,
    FsError,
    VirtualBusError,
};

verus! {

/// The WASI error code for the network's answer to a request for addresses:
/// `Success` where the addresses were acquired, else the network error's code.
pub open spec fn dhcp_acquire_errno(outcome: Result<(), NetworkError>) -> Errno {
    match outcome {
        Ok(()) => Errno::Success,
        Err(e) => errno_of_network_error(e),
    }
}

/// The WASI error code that `port_dhcp_acquire` returns once the network has
/// answered the request for addresses.
pub fn port_dhcp_acquire(outcome: Result<(), NetworkError>) -> (r: Errno)
    ensures
        r == dhcp_acquire_errno(outcome),
        outcome is Ok ==> r == Errno::Success,
        outcome matches Err(e) ==> r == errno_of_network_error(e),
{
    match outcome {
        Ok(()) => Errno::Success,
        Err(e) => net_error_into_wasi_err(e),
    }
}

/// A failed request for addresses is reported exactly as the network error is
/// reported everywhere else: by the code that `net_error_into_wasi_err` gives
/// for it, so that, for instance, permission denied is reported as `Perm`.
pub proof fn lemma_dhcp_error_is_network_errno(e: NetworkError)
    ensures
        dhcp_acquire_errno(Err(e)) == errno_of_network_error(e),
        dhcp_acquire_errno(Ok(())) == Errno::Success,
{
}

/// `port_dhcp_acquire` reports success exactly when the addresses were acquired.
pub proof fn lemma_dhcp_success_iff_acquired(outcome: Result<(), NetworkError>)
    ensures
        (dhcp_acquire_errno(outcome) == Errno::Success) == (outcome is Ok),
{
    if let Err(e) = outcome {
        lemma_errors_never_map_to_success(FsError::UnknownError, e, VirtualBusError::UnknownError);
    }
}

} // verus!
