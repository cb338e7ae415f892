//! The rights that a bus handle carries, as the bits of a WASI rights mask.
use vstd::prelude::*;

verus! {

/// The bit of `Rights::FD_FDSTAT_SET_FLAGS` in `wasmer_wasi_types`: its source
/// defines the flag as `1 << 3`.
#[verifier::external_body]
fn fd_fdstat_set_flags_bits() -> (r: u64)
    ensures
        r == 1u64 << 3u64,
{
    wasmer_wasi_types::wasi::Rights::FD_FDSTAT_SET_FLAGS.bits()
}

/// The bit of `Rights::FD_FILESTAT_GET` in `wasmer_wasi_types`: its source
/// defines the flag as `1 << 21`.
#[verifier::external_body]
fn fd_filestat_get_bits() -> (r: u64)
    ensures
        r == 1u64 << 21u64,
{
    wasmer_wasi_types::wasi::Rights::FD_FILESTAT_GET.bits()
}

/// The bit of `Rights::FD_READ` in `wasmer_wasi_types`: its source defines the
/// flag as `1 << 1`.
#[verifier::external_body]
fn fd_read_bits() -> (r: u64)
    ensures
        r == 1u64 << 1u64,
{
    wasmer_wasi_types::wasi::Rights::FD_READ.bits()
}

/// The bit of `Rights::FD_WRITE` in `wasmer_wasi_types`: its source defines the
/// flag as `1 << 6`.
#[verifier::external_body]
fn fd_write_bits() -> (r: u64)
    ensures
        r == 1u64 << 6u64,
{
    wasmer_wasi_types::wasi::Rights::FD_WRITE.bits()
}

/// The bit of `Rights::POLL_FD_READWRITE` in `wasmer_wasi_types`: its source
/// defines the flag as `1 << 27`.
#[verifier::external_body]
fn poll_fd_readwrite_bits() -> (r: u64)
    ensures
        r == 1u64 << 27u64,
{
    wasmer_wasi_types::wasi::Rights::POLL_FD_READWRITE.bits()
}

/// The rights mask of a bus handle opened for reading: setting the
/// descriptor flags, reading the file status, reading, and polling.
pub fn bus_read_rights() -> (r: u64)
    ensures
        r == (1u64 << 3u64) | (1u64 << 21u64) | (1u64 << 1u64) | (1u64 << 27u64),
{
    fd_fdstat_set_flags_bits() | fd_filestat_get_bits() | fd_read_bits() | poll_fd_readwrite_bits()
}

/// The rights mask of a bus handle opened for writing: setting the
/// descriptor flags, reading the file status, writing, and polling.
pub fn bus_write_rights() -> (r: u64)
    ensures
        r == (1u64 << 3u64) | (1u64 << 21u64) | (1u64 << 6u64) | (1u64 << 27u64),
{
    fd_fdstat_set_flags_bits() | fd_filestat_get_bits() | fd_write_bits() | poll_fd_readwrite_bits()
}

} // verus!
