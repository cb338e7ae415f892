use wasmer_wasi::errors::{
    bus_errno_into_vbus_error, fs_error_from_wasi_err, fs_error_into_wasi_err,
    net_error_into_wasi_err, vbus_error_into_bus_errno, BusErrno, Errno, FsError, NetworkError,
    VirtualBusError,
};

#[test]
fn fs_error_from_wasi_err_maps_known_codes() {
    assert_eq!(fs_error_from_wasi_err(Errno::Badf), FsError::InvalidFd);
    assert_eq!(fs_error_from_wasi_err(Errno::Noent), FsError::EntryNotFound);
    assert_eq!(fs_error_from_wasi_err(Errno::Proto), FsError::UnexpectedEof);
    assert_eq!(fs_error_from_wasi_err(Errno::Nospc), FsError::WriteZero);
    assert_eq!(fs_error_from_wasi_err(Errno::Again), FsError::WouldBlock);
}

#[test]
fn fs_error_from_wasi_err_unknown_codes() {
    assert_eq!(fs_error_from_wasi_err(Errno::Success), FsError::UnknownError);
    assert_eq!(fs_error_from_wasi_err(Errno::Notdir), FsError::UnknownError);
    assert_eq!(fs_error_from_wasi_err(Errno::Notcapable), FsError::UnknownError);
}

#[test]
fn fs_error_into_wasi_err_maps_every_kind() {
    assert_eq!(fs_error_into_wasi_err(FsError::BaseNotDirectory), Errno::Notdir);
    assert_eq!(fs_error_into_wasi_err(FsError::NotAFile), Errno::Inval);
    assert_eq!(fs_error_into_wasi_err(FsError::InvalidData), Errno::Io);
    assert_eq!(fs_error_into_wasi_err(FsError::Lock), Errno::Io);
    assert_eq!(fs_error_into_wasi_err(FsError::UnknownError), Errno::Io);
    assert_eq!(fs_error_into_wasi_err(FsError::DirectoryNotEmpty), Errno::Notempty);
    assert_eq!(fs_error_into_wasi_err(FsError::EntryNotFound), Errno::Noent);
}

#[test]
fn fs_round_trip_from_errno() {
    for e in [Errno::Badf, Errno::Exist, Errno::Io, Errno::Pipe, Errno::Timedout, Errno::Notempty] {
        assert_eq!(fs_error_into_wasi_err(fs_error_from_wasi_err(e)), e);
    }
    assert_eq!(fs_error_into_wasi_err(fs_error_from_wasi_err(Errno::Rofs)), Errno::Io);
}

#[test]
fn fs_round_trip_from_fs_error() {
    for f in [FsError::InvalidFd, FsError::AlreadyExists, FsError::IOError, FsError::WriteZero] {
        assert_eq!(fs_error_from_wasi_err(fs_error_into_wasi_err(f)), f);
    }
    assert_eq!(fs_error_from_wasi_err(fs_error_into_wasi_err(FsError::NotAFile)), FsError::InvalidInput);
}

#[test]
fn net_error_into_wasi_err_maps_every_kind() {
    assert_eq!(net_error_into_wasi_err(NetworkError::InvalidFd), Errno::Badf);
    assert_eq!(net_error_into_wasi_err(NetworkError::Unsupported), Errno::Notsup);
    assert_eq!(net_error_into_wasi_err(NetworkError::Lock), Errno::Io);
    assert_eq!(net_error_into_wasi_err(NetworkError::UnknownError), Errno::Io);
    assert_eq!(net_error_into_wasi_err(NetworkError::WouldBlock), Errno::Again);
    assert_eq!(
        net_error_into_wasi_err(NetworkError::ConnectionRefused),
        fs_error_into_wasi_err(FsError::ConnectionRefused)
    );
}

#[test]
fn vbus_error_into_bus_errno_maps_every_kind() {
    assert_eq!(vbus_error_into_bus_errno(VirtualBusError::Serialization), BusErrno::Ser);
    assert_eq!(vbus_error_into_bus_errno(VirtualBusError::AccessDenied), BusErrno::Denied);
    assert_eq!(vbus_error_into_bus_errno(VirtualBusError::MemoryAccessViolation), BusErrno::Memviolation);
    assert_eq!(vbus_error_into_bus_errno(VirtualBusError::UnknownError), BusErrno::Unknown);
}

#[test]
fn bus_errno_into_vbus_error_maps_every_code() {
    assert_eq!(bus_errno_into_vbus_error(BusErrno::Wapm), VirtualBusError::InvalidWapm);
    assert_eq!(bus_errno_into_vbus_error(BusErrno::Consumed), VirtualBusError::AlreadyConsumed);
    assert_eq!(bus_errno_into_vbus_error(BusErrno::Success), VirtualBusError::UnknownError);
    assert_eq!(bus_errno_into_vbus_error(BusErrno::Unknown), VirtualBusError::UnknownError);
}

#[test]
fn bus_round_trips() {
    for v in [VirtualBusError::FetchFailed, VirtualBusError::InvalidABI, VirtualBusError::UnknownError] {
        assert_eq!(bus_errno_into_vbus_error(vbus_error_into_bus_errno(v)), v);
    }
    assert_eq!(vbus_error_into_bus_errno(bus_errno_into_vbus_error(BusErrno::Success)), BusErrno::Unknown);
    assert_eq!(vbus_error_into_bus_errno(bus_errno_into_vbus_error(BusErrno::Badcb)), BusErrno::Badcb);
}

#[test]
fn errors_never_map_to_success() {
    for f in [FsError::Lock, FsError::UnknownError, FsError::TimedOut] {
        assert_ne!(fs_error_into_wasi_err(f), Errno::Success);
    }
    for n in [NetworkError::Unsupported, NetworkError::UnknownError] {
        assert_ne!(net_error_into_wasi_err(n), Errno::Success);
    }
    assert_ne!(vbus_error_into_bus_errno(VirtualBusError::UnknownError), BusErrno::Success);
}
