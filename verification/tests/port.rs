use wasmer_wasi::errors::{Errno, NetworkError};
use wasmer_wasi::port::port_dhcp_acquire;

#[test]
fn dhcp_acquired_is_success() {
    assert_eq!(port_dhcp_acquire(Ok(())), Errno::Success);
}

#[test]
fn dhcp_error_is_mapped() {
    assert_eq!(port_dhcp_acquire(Err(NetworkError::Unsupported)), Errno::Notsup);
    assert_eq!(port_dhcp_acquire(Err(NetworkError::TimedOut)), Errno::Timedout);
    assert_eq!(port_dhcp_acquire(Err(NetworkError::UnknownError)), Errno::Io);
}
