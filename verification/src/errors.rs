//! Error codes of the WASI interface, the error kinds of the virtual file system,
//! network and bus, and the mappings between them.
use vstd::prelude::*;

verus! {

/// Error codes returned by WASI functions, in the order of their numbering.
#[derive(Clone, Copy, Debug, PartialEq, Eq, Structural)]
pub enum Errno {
    Success, Toobig, Access, Addrinuse, Addrnotavail, Afnosupport, Again, Already, Badf,
    Badmsg, Busy, Canceled, Child, Connaborted, Connrefused, Connreset, Deadlk, Destaddrreq,
    Dom, Dquot, Exist, Fault, Fbig, Hostunreach, Idrm, Ilseq, Inprogress, Intr, Inval, Io,
    Isconn, Isdir, Loop, Mfile, Mlink, Msgsize, Multihop, Nametoolong, Netdown, Netreset,
    Netunreach, Nfile, Nobufs, Nodev, Noent, Noexec, Nolck, Nolink, Nomem, Nomsg, Noprotoopt,
    Nospc, Nosys, Notconn, Notdir, Notempty, Notrecoverable, Notsock, Notsup, Notty, Nxio,
    Overflow, Ownerdead, Perm, Pipe, Proto, Protonosupport, Prototype, Range, Rofs, Spipe,
    Srch, Stale, Timedout, Txtbsy, Xdev, Notcapable,
}

/// Error codes returned by the calls of the WASIX bus.
#[derive(Clone, Copy, Debug, PartialEq, Eq, Structural)]
pub enum BusErrno {
    Success, Ser, Des, Wapm, Fetch, Compile, Abi, Aborted, Badhandle, Topic, Badcb,
    Unsupported, Badrequest, Denied, Internal, Alloc, Invoke, Consumed, Memviolation, Unknown,
}

/// Errors of the virtual file system.
#[derive(Clone, Copy, Debug, PartialEq, Eq, Structural)]
pub enum FsError {
    BaseNotDirectory,
    NotAFile,
    InvalidFd,
    AlreadyExists,
    Lock,
    IOError,
    AddressInUse,
    AddressNotAvailable,
    BrokenPipe,
    ConnectionAborted,
    ConnectionRefused,
    ConnectionReset,
    Interrupted,
    InvalidData,
    InvalidInput,
    NotConnected,
    EntryNotFound,
    NoDevice,
    PermissionDenied,
    TimedOut,
    UnexpectedEof,
    WouldBlock,
    WriteZero,
    DirectoryNotEmpty,
    UnknownError,
}

/// Errors of the virtual network.
#[derive(Clone, Copy, Debug, PartialEq, Eq, Structural)]
pub enum NetworkError {
    InvalidFd,
    AlreadyExists,
    Lock,
    IOError,
    AddressInUse,
    AddressNotAvailable,
    BrokenPipe,
    ConnectionAborted,
    ConnectionRefused,
    ConnectionReset,
    Interrupted,
    InvalidData,
    InvalidInput,
    NotConnected,
    NoDevice,
    PermissionDenied,
    TimedOut,
    UnexpectedEof,
    WouldBlock,
    WriteZero,
    Unsupported,
    UnknownError,
}

/// Errors of the virtual bus.
#[derive(Clone, Copy, Debug, PartialEq, Eq, Structural)]
pub enum VirtualBusError {
    Serialization,
    Deserialization,
    InvalidWapm,
    FetchFailed,
    CompileError,
    InvalidABI,
    Aborted,
    BadHandle,
    InvalidTopic,
    BadCallback,
    Unsupported,
    BadRequest,
    AccessDenied,
    InternalError,
    MemoryAllocationFailed,
    InvokeFailed,
    AlreadyConsumed,
    MemoryAccessViolation,
    UnknownError,
}

/// The file-system error that a WASI error code stands for; codes without a
/// counterpart become `FsError::UnknownError`.
pub open spec fn fs_error_of_errno(err: Errno) -> FsError {
    match err {
        Errno::Badf => FsError::InvalidFd,
        Errno::Exist => FsError::AlreadyExists,
        Errno::Io => FsError::IOError,
        Errno::Addrinuse => FsError::AddressInUse,
        Errno::Addrnotavail => FsError::AddressNotAvailable,
        Errno::Pipe => FsError::BrokenPipe,
        Errno::Connaborted => FsError::ConnectionAborted,
        Errno::Connrefused => FsError::ConnectionRefused,
        Errno::Connreset => FsError::ConnectionReset,
        Errno::Intr => FsError::Interrupted,
        Errno::Inval => FsError::InvalidInput,
        Errno::Notconn => FsError::NotConnected,
        Errno::Nodev => FsError::NoDevice,
        Errno::Noent => FsError::EntryNotFound,
        Errno::Perm => FsError::PermissionDenied,
        Errno::Timedout => FsError::TimedOut,
        Errno::Proto => FsError::UnexpectedEof,
        Errno::Again => FsError::WouldBlock,
        Errno::Nospc => FsError::WriteZero,
        Errno::Notempty => FsError::DirectoryNotEmpty,
        _ => FsError::UnknownError,
    }
}

/// The WASI error code reported for a file-system error.
pub open spec fn errno_of_fs_error(err: FsError) -> Errno {
    match err {
        FsError::AlreadyExists => Errno::Exist,
        FsError::AddressInUse => Errno::Addrinuse,
        FsError::AddressNotAvailable => Errno::Addrnotavail,
        FsError::BaseNotDirectory => Errno::Notdir,
        FsError::BrokenPipe => Errno::Pipe,
        FsError::ConnectionAborted => Errno::Connaborted,
        FsError::ConnectionRefused => Errno::Connrefused,
        FsError::ConnectionReset => Errno::Connreset,
        FsError::Interrupted => Errno::Intr,
        FsError::InvalidData => Errno::Io,
        FsError::InvalidFd => Errno::Badf,
        FsError::InvalidInput => Errno::Inval,
        FsError::IOError => Errno::Io,
        FsError::NoDevice => Errno::Nodev,
        FsError::NotAFile => Errno::Inval,
        FsError::NotConnected => Errno::Notconn,
        FsError::EntryNotFound => Errno::Noent,
        FsError::PermissionDenied => Errno::Perm,
        FsError::TimedOut => Errno::Timedout,
        FsError::UnexpectedEof => Errno::Proto,
        FsError::WouldBlock => Errno::Again,
        FsError::WriteZero => Errno::Nospc,
        FsError::DirectoryNotEmpty => Errno::Notempty,
        FsError::Lock => Errno::Io,
        FsError::UnknownError => Errno::Io,
    }
}

/// The WASI error code reported for a network error.
pub open spec fn errno_of_network_error(err: NetworkError) -> Errno {
    match err {
        NetworkError::InvalidFd => Errno::Badf,
        NetworkError::AlreadyExists => Errno::Exist,
        NetworkError::Lock => Errno::Io,
        NetworkError::IOError => Errno::Io,
        NetworkError::AddressInUse => Errno::Addrinuse,
        NetworkError::AddressNotAvailable => Errno::Addrnotavail,
        NetworkError::BrokenPipe => Errno::Pipe,
        NetworkError::ConnectionAborted => Errno::Connaborted,
        NetworkError::ConnectionRefused => Errno::Connrefused,
        NetworkError::ConnectionReset => Errno::Connreset,
        NetworkError::Interrupted => Errno::Intr,
        NetworkError::InvalidData => Errno::Io,
        NetworkError::InvalidInput => Errno::Inval,
        NetworkError::NotConnected => Errno::Notconn,
        NetworkError::NoDevice => Errno::Nodev,
        NetworkError::PermissionDenied => Errno::Perm,
        NetworkError::TimedOut => Errno::Timedout,
        NetworkError::UnexpectedEof => Errno::Proto,
        NetworkError::WouldBlock => Errno::Again,
        NetworkError::WriteZero => Errno::Nospc,
        NetworkError::Unsupported => Errno::Notsup,
        NetworkError::UnknownError => Errno::Io,
    }
}

/// The bus error code reported for a virtual-bus error.
pub open spec fn bus_errno_of_vbus_error(err: VirtualBusError) -> BusErrno {
    match err {
        VirtualBusError::Serialization => BusErrno::Ser,
        VirtualBusError::Deserialization => BusErrno::Des,
        VirtualBusError::InvalidWapm => BusErrno::Wapm,
        VirtualBusError::FetchFailed => BusErrno::Fetch,
        VirtualBusError::CompileError => BusErrno::Compile,
        VirtualBusError::InvalidABI => BusErrno::Abi,
        VirtualBusError::Aborted => BusErrno::Aborted,
        VirtualBusError::BadHandle => BusErrno::Badhandle,
        VirtualBusError::InvalidTopic => BusErrno::Topic,
        VirtualBusError::BadCallback => BusErrno::Badcb,
        VirtualBusError::Unsupported => BusErrno::Unsupported,
        VirtualBusError::BadRequest => BusErrno::Badrequest,
        VirtualBusError::AccessDenied => BusErrno::Denied,
        VirtualBusError::InternalError => BusErrno::Internal,
        VirtualBusError::MemoryAllocationFailed => BusErrno::Alloc,
        VirtualBusError::InvokeFailed => BusErrno::Invoke,
        VirtualBusError::AlreadyConsumed => BusErrno::Consumed,
        VirtualBusError::MemoryAccessViolation => BusErrno::Memviolation,
        _ => BusErrno::Unknown,
    }
}

/// The virtual-bus error that a bus error code stands for; `Success` and
/// `Unknown` become `VirtualBusError::UnknownError`.
pub open spec fn vbus_error_of_bus_errno(err: BusErrno) -> VirtualBusError {
    match err {
        BusErrno::Ser => VirtualBusError::Serialization,
        BusErrno::Des => VirtualBusError::Deserialization,
        BusErrno::Wapm => VirtualBusError::InvalidWapm,
        BusErrno::Fetch => VirtualBusError::FetchFailed,
        BusErrno::Compile => VirtualBusError::CompileError,
        BusErrno::Abi => VirtualBusError::InvalidABI,
        BusErrno::Aborted => VirtualBusError::Aborted,
        BusErrno::Badhandle => VirtualBusError::BadHandle,
        BusErrno::Topic => VirtualBusError::InvalidTopic,
        BusErrno::Badcb => VirtualBusError::BadCallback,
        BusErrno::Unsupported => VirtualBusError::Unsupported,
        BusErrno::Badrequest => VirtualBusError::BadRequest,
        BusErrno::Denied => VirtualBusError::AccessDenied,
        BusErrno::Internal => VirtualBusError::InternalError,
        BusErrno::Alloc => VirtualBusError::MemoryAllocationFailed,
        BusErrno::Invoke => VirtualBusError::InvokeFailed,
        BusErrno::Consumed => VirtualBusError::AlreadyConsumed,
        BusErrno::Memviolation => VirtualBusError::MemoryAccessViolation,
        _ => VirtualBusError::UnknownError,
    }
}

/// Converts a WASI error code into the file-system error it stands for.
pub fn fs_error_from_wasi_err(err: Errno) -> (r: FsError)
    ensures
        r == fs_error_of_errno(err),
{
    match err {
        Errno::Badf => FsError::InvalidFd,
        Errno::Exist => FsError::AlreadyExists,
        Errno::Io => FsError::IOError,
        Errno::Addrinuse => FsError::AddressInUse,
        Errno::Addrnotavail => FsError::AddressNotAvailable,
        Errno::Pipe => FsError::BrokenPipe,
        Errno::Connaborted => FsError::ConnectionAborted,
        Errno::Connrefused => FsError::ConnectionRefused,
        Errno::Connreset => FsError::ConnectionReset,
        Errno::Intr => FsError::Interrupted,
        Errno::Inval => FsError::InvalidInput,
        Errno::Notconn => FsError::NotConnected,
        Errno::Nodev => FsError::NoDevice,
        Errno::Noent => FsError::EntryNotFound,
        Errno::Perm => FsError::PermissionDenied,
        Errno::Timedout => FsError::TimedOut,
        Errno::Proto => FsError::UnexpectedEof,
        Errno::Again => FsError::WouldBlock,
        Errno::Nospc => FsError::WriteZero,
        Errno::Notempty => FsError::DirectoryNotEmpty,
        _ => FsError::UnknownError,
    }
}

/// Converts a file-system error into the WASI error code reported for it.
pub fn fs_error_into_wasi_err(fs_error: FsError) -> (r: Errno)
    ensures
        r == errno_of_fs_error(fs_error),
{
    match fs_error {
        FsError::AlreadyExists => Errno::Exist,
        FsError::AddressInUse => Errno::Addrinuse,
        FsError::AddressNotAvailable => Errno::Addrnotavail,
        FsError::BaseNotDirectory => Errno::Notdir,
        FsError::BrokenPipe => Errno::Pipe,
        FsError::ConnectionAborted => Errno::Connaborted,
        FsError::ConnectionRefused => Errno::Connrefused,
        FsError::ConnectionReset => Errno::Connreset,
        FsError::Interrupted => Errno::Intr,
        FsError::InvalidData => Errno::Io,
        FsError::InvalidFd => Errno::Badf,
        FsError::InvalidInput => Errno::Inval,
        FsError::IOError => Errno::Io,
        FsError::NoDevice => Errno::Nodev,
        FsError::NotAFile => Errno::Inval,
        FsError::NotConnected => Errno::Notconn,
        FsError::EntryNotFound => Errno::Noent,
        FsError::PermissionDenied => Errno::Perm,
        FsError::TimedOut => Errno::Timedout,
        FsError::UnexpectedEof => Errno::Proto,
        FsError::WouldBlock => Errno::Again,
        FsError::WriteZero => Errno::Nospc,
        FsError::DirectoryNotEmpty => Errno::Notempty,
        FsError::Lock => Errno::Io,
        FsError::UnknownError => Errno::Io,
    }
}

/// Converts a network error into the WASI error code reported for it.
pub fn net_error_into_wasi_err(net_error: NetworkError) -> (r: Errno)
    ensures
        r == errno_of_network_error(net_error),
{
    match net_error {
        NetworkError::InvalidFd => Errno::Badf,
        NetworkError::AlreadyExists => Errno::Exist,
        NetworkError::Lock => Errno::Io,
        NetworkError::IOError => Errno::Io,
        NetworkError::AddressInUse => Errno::Addrinuse,
        NetworkError::AddressNotAvailable => Errno::Addrnotavail,
        NetworkError::BrokenPipe => Errno::Pipe,
        NetworkError::ConnectionAborted => Errno::Connaborted,
        NetworkError::ConnectionRefused => Errno::Connrefused,
        NetworkError::ConnectionReset => Errno::Connreset,
        NetworkError::Interrupted => Errno::Intr,
        NetworkError::InvalidData => Errno::Io,
        NetworkError::InvalidInput => Errno::Inval,
        NetworkError::NotConnected => Errno::Notconn,
        NetworkError::NoDevice => Errno::Nodev,
        NetworkError::PermissionDenied => Errno::Perm,
        NetworkError::TimedOut => Errno::Timedout,
        NetworkError::UnexpectedEof => Errno::Proto,
        NetworkError::WouldBlock => Errno::Again,
        NetworkError::WriteZero => Errno::Nospc,
        NetworkError::Unsupported => Errno::Notsup,
        NetworkError::UnknownError => Errno::Io,
    }
}

/// Converts a virtual-bus error into the bus error code reported for it.
pub fn vbus_error_into_bus_errno(bus_error: VirtualBusError) -> (r: BusErrno)
    ensures
        r == bus_errno_of_vbus_error(bus_error),
{
    match bus_error {
        VirtualBusError::Serialization => BusErrno::Ser,
        VirtualBusError::Deserialization => BusErrno::Des,
        VirtualBusError::InvalidWapm => BusErrno::Wapm,
        VirtualBusError::FetchFailed => BusErrno::Fetch,
        VirtualBusError::CompileError => BusErrno::Compile,
        VirtualBusError::InvalidABI => BusErrno::Abi,
        VirtualBusError::Aborted => BusErrno::Aborted,
        VirtualBusError::BadHandle => BusErrno::Badhandle,
        VirtualBusError::InvalidTopic => BusErrno::Topic,
        VirtualBusError::BadCallback => BusErrno::Badcb,
        VirtualBusError::Unsupported => BusErrno::Unsupported,
        VirtualBusError::BadRequest => BusErrno::Badrequest,
        VirtualBusError::AccessDenied => BusErrno::Denied,
        VirtualBusError::InternalError => BusErrno::Internal,
        VirtualBusError::MemoryAllocationFailed => BusErrno::Alloc,
        VirtualBusError::InvokeFailed => BusErrno::Invoke,
        VirtualBusError::AlreadyConsumed => BusErrno::Consumed,
        VirtualBusError::MemoryAccessViolation => BusErrno::Memviolation,
        _ => BusErrno::Unknown,
    }
}

/// Converts a bus error code into the virtual-bus error it stands for.
pub fn bus_errno_into_vbus_error(bus_error: BusErrno) -> (r: VirtualBusError)
    ensures
        r == vbus_error_of_bus_errno(bus_error),
{
    match bus_error {
        BusErrno::Ser => VirtualBusError::Serialization,
        BusErrno::Des => VirtualBusError::Deserialization,
        BusErrno::Wapm => VirtualBusError::InvalidWapm,
        BusErrno::Fetch => VirtualBusError::FetchFailed,
        BusErrno::Compile => VirtualBusError::CompileError,
        BusErrno::Abi => VirtualBusError::InvalidABI,
        BusErrno::Aborted => VirtualBusError::Aborted,
        BusErrno::Badhandle => VirtualBusError::BadHandle,
        BusErrno::Topic => VirtualBusError::InvalidTopic,
        BusErrno::Badcb => VirtualBusError::BadCallback,
        BusErrno::Unsupported => VirtualBusError::Unsupported,
        BusErrno::Badrequest => VirtualBusError::BadRequest,
        BusErrno::Denied => VirtualBusError::AccessDenied,
        BusErrno::Internal => VirtualBusError::InternalError,
        BusErrno::Alloc => VirtualBusError::MemoryAllocationFailed,
        BusErrno::Invoke => VirtualBusError::InvokeFailed,
        BusErrno::Consumed => VirtualBusError::AlreadyConsumed,
        BusErrno::Memviolation => VirtualBusError::MemoryAccessViolation,
        _ => VirtualBusError::UnknownError,
    }
}

/// A WASI error code that has a file-system counterpart comes back unchanged
/// from the round trip through `FsError`; every other code comes back as `Io`.
pub proof fn lemma_errno_fs_round_trip(err: Errno)
    ensures
        errno_of_fs_error(fs_error_of_errno(err)) == (if fs_error_of_errno(err)
            == FsError::UnknownError {
            Errno::Io
        } else {
            err
        }),
{
}

/// A file-system error comes back unchanged from the round trip through its
/// WASI error code, except the five kinds that share a code with another kind
/// or have none of their own.
pub proof fn lemma_fs_errno_round_trip(err: FsError)
    requires
        err != FsError::BaseNotDirectory,
        err != FsError::NotAFile,
        err != FsError::InvalidData,
        err != FsError::Lock,
        err != FsError::UnknownError,
    ensures
        fs_error_of_errno(errno_of_fs_error(err)) == err,
{
}

/// Every virtual-bus error comes back unchanged from the round trip through
/// its bus error code.
pub proof fn lemma_vbus_bus_errno_round_trip(err: VirtualBusError)
    ensures
        vbus_error_of_bus_errno(bus_errno_of_vbus_error(err)) == err,
{
}

/// Every bus error code but `Success` comes back unchanged from the round trip
/// through the virtual-bus error; `Success` comes back as `Unknown`.
pub proof fn lemma_bus_errno_vbus_round_trip(err: BusErrno)
    ensures
        bus_errno_of_vbus_error(vbus_error_of_bus_errno(err)) == (if err == BusErrno::Success {
            BusErrno::Unknown
        } else {
            err
        }),
{
}

/// An error is never reported as success: no file-system, network or
/// virtual-bus error maps to the `Success` code.
pub proof fn lemma_errors_never_map_to_success(fs: FsError, net: NetworkError, bus: VirtualBusError)
    ensures
        errno_of_fs_error(fs) != Errno::Success,
        errno_of_network_error(net) != Errno::Success,
        bus_errno_of_vbus_error(bus) != BusErrno::Success,
        fs_error_of_errno(Errno::Success) == FsError::UnknownError,
        vbus_error_of_bus_errno(BusErrno::Success) == VirtualBusError::UnknownError,
{
}

/// The network and file-system mappings agree: each network error reports
/// the same WASI code as the file-system error of the same name.
pub proof fn lemma_network_errno_agrees_with_fs()
    ensures
        errno_of_network_error(NetworkError::InvalidFd) == errno_of_fs_error(FsError::InvalidFd),
        errno_of_network_error(NetworkError::AlreadyExists) == errno_of_fs_error(FsError::AlreadyExists),
        errno_of_network_error(NetworkError::Lock) == errno_of_fs_error(FsError::Lock),
        errno_of_network_error(NetworkError::IOError) == errno_of_fs_error(FsError::IOError),
        errno_of_network_error(NetworkError::AddressInUse) == errno_of_fs_error(FsError::AddressInUse),
        errno_of_network_error(NetworkError::AddressNotAvailable) == errno_of_fs_error(FsError::AddressNotAvailable),
        errno_of_network_error(NetworkError::BrokenPipe) == errno_of_fs_error(FsError::BrokenPipe),
        errno_of_network_error(NetworkError::ConnectionAborted) == errno_of_fs_error(FsError::ConnectionAborted),
        errno_of_network_error(NetworkError::ConnectionRefused) == errno_of_fs_error(FsError::ConnectionRefused),
        errno_of_network_error(NetworkError::ConnectionReset) == errno_of_fs_error(FsError::ConnectionReset),
        errno_of_network_error(NetworkError::Interrupted) == errno_of_fs_error(FsError::Interrupted),
        errno_of_network_error(NetworkError::InvalidData) == errno_of_fs_error(FsError::InvalidData),
        errno_of_network_error(NetworkError::InvalidInput) == errno_of_fs_error(FsError::InvalidInput),
        errno_of_network_error(NetworkError::NotConnected) == errno_of_fs_error(FsError::NotConnected),
        errno_of_network_error(NetworkError::NoDevice) == errno_of_fs_error(FsError::NoDevice),
        errno_of_network_error(NetworkError::PermissionDenied) == errno_of_fs_error(FsError::PermissionDenied),
        errno_of_network_error(NetworkError::TimedOut) == errno_of_fs_error(FsError::TimedOut),
        errno_of_network_error(NetworkError::UnexpectedEof) == errno_of_fs_error(FsError::UnexpectedEof),
        errno_of_network_error(NetworkError::WouldBlock) == errno_of_fs_error(FsError::WouldBlock),
        errno_of_network_error(NetworkError::WriteZero) == errno_of_fs_error(FsError::WriteZero),
        errno_of_network_error(NetworkError::UnknownError) == errno_of_fs_error(FsError::UnknownError),
{
}

/// Each WASI error code stands for the file-system error of the same meaning: a bad descriptor for an invalid fd, an existing file for one that already exists, no entry for one not found, a protocol error for an unexpected end of file, no space for a write of zero bytes, and so on; every code without such a counterpart stands for an unknown error.
pub proof fn lemma_fs_error_of_errno_by_meaning()
    ensures
        fs_error_of_errno(Errno::Badf) == FsError::InvalidFd,
        fs_error_of_errno(Errno::Exist) == FsError::AlreadyExists,
        fs_error_of_errno(Errno::Io) == FsError::IOError,
        fs_error_of_errno(Errno::Addrinuse) == FsError::AddressInUse,
        fs_error_of_errno(Errno::Addrnotavail) == FsError::AddressNotAvailable,
        fs_error_of_errno(Errno::Pipe) == FsError::BrokenPipe,
        fs_error_of_errno(Errno::Connaborted) == FsError::ConnectionAborted,
        fs_error_of_errno(Errno::Connrefused) == FsError::ConnectionRefused,
        fs_error_of_errno(Errno::Connreset) == FsError::ConnectionReset,
        fs_error_of_errno(Errno::Intr) == FsError::Interrupted,
        fs_error_of_errno(Errno::Inval) == FsError::InvalidInput,
        fs_error_of_errno(Errno::Notconn) == FsError::NotConnected,
        fs_error_of_errno(Errno::Nodev) == FsError::NoDevice,
        fs_error_of_errno(Errno::Noent) == FsError::EntryNotFound,
        fs_error_of_errno(Errno::Perm) == FsError::PermissionDenied,
        fs_error_of_errno(Errno::Timedout) == FsError::TimedOut,
        fs_error_of_errno(Errno::Proto) == FsError::UnexpectedEof,
        fs_error_of_errno(Errno::Again) == FsError::WouldBlock,
        fs_error_of_errno(Errno::Nospc) == FsError::WriteZero,
        fs_error_of_errno(Errno::Notempty) == FsError::DirectoryNotEmpty,
        forall|e: Errno| !(e is Badf) && !(e is Exist) && !(e is Io) && !(e is Addrinuse) && !(e is Addrnotavail) && !(e is Pipe) && !(e is Connaborted) && !(e is Connrefused) && !(e is Connreset) && !(e is Intr) && !(e is Inval) && !(e is Notconn) && !(e is Nodev) && !(e is Noent) && !(e is Perm) && !(e is Timedout) && !(e is Proto) && !(e is Again) && !(e is Nospc) && !(e is Notempty) ==> #[trigger] fs_error_of_errno(e) == FsError::UnknownError,
{
}

/// Each file-system error is reported as the WASI code of the same meaning; the kinds without a code of their own (invalid data, a lock failure, an unknown error) are reported as an I/O error, a non-directory base as `Notdir`, and a non-file as an invalid argument.
pub proof fn lemma_errno_of_fs_error_by_meaning()
    ensures
        errno_of_fs_error(FsError::AlreadyExists) == Errno::Exist,
        errno_of_fs_error(FsError::AddressInUse) == Errno::Addrinuse,
        errno_of_fs_error(FsError::AddressNotAvailable) == Errno::Addrnotavail,
        errno_of_fs_error(FsError::BaseNotDirectory) == Errno::Notdir,
        errno_of_fs_error(FsError::BrokenPipe) == Errno::Pipe,
        errno_of_fs_error(FsError::ConnectionAborted) == Errno::Connaborted,
        errno_of_fs_error(FsError::ConnectionRefused) == Errno::Connrefused,
        errno_of_fs_error(FsError::ConnectionReset) == Errno::Connreset,
        errno_of_fs_error(FsError::Interrupted) == Errno::Intr,
        errno_of_fs_error(FsError::InvalidData) == Errno::Io,
        errno_of_fs_error(FsError::InvalidFd) == Errno::Badf,
        errno_of_fs_error(FsError::InvalidInput) == Errno::Inval,
        errno_of_fs_error(FsError::IOError) == Errno::Io,
        errno_of_fs_error(FsError::NoDevice) == Errno::Nodev,
        errno_of_fs_error(FsError::NotAFile) == Errno::Inval,
        errno_of_fs_error(FsError::NotConnected) == Errno::Notconn,
        errno_of_fs_error(FsError::EntryNotFound) == Errno::Noent,
        errno_of_fs_error(FsError::PermissionDenied) == Errno::Perm,
        errno_of_fs_error(FsError::TimedOut) == Errno::Timedout,
        errno_of_fs_error(FsError::UnexpectedEof) == Errno::Proto,
        errno_of_fs_error(FsError::WouldBlock) == Errno::Again,
        errno_of_fs_error(FsError::WriteZero) == Errno::Nospc,
        errno_of_fs_error(FsError::DirectoryNotEmpty) == Errno::Notempty,
        errno_of_fs_error(FsError::Lock) == Errno::Io,
        errno_of_fs_error(FsError::UnknownError) == Errno::Io,
{
}

/// Each network error is reported as the WASI code of the same meaning: permission denied as `Perm`, an unsupported operation as `Notsup`, a reset connection as `Connreset`, and so on; a lock failure, invalid data and an unknown error are reported as an I/O error.
pub proof fn lemma_errno_of_network_error_by_meaning()
    ensures
        errno_of_network_error(NetworkError::InvalidFd) == Errno::Badf,
        errno_of_network_error(NetworkError::AlreadyExists) == Errno::Exist,
        errno_of_network_error(NetworkError::Lock) == Errno::Io,
        errno_of_network_error(NetworkError::IOError) == Errno::Io,
        errno_of_network_error(NetworkError::AddressInUse) == Errno::Addrinuse,
        errno_of_network_error(NetworkError::AddressNotAvailable) == Errno::Addrnotavail,
        errno_of_network_error(NetworkError::BrokenPipe) == Errno::Pipe,
        errno_of_network_error(NetworkError::ConnectionAborted) == Errno::Connaborted,
        errno_of_network_error(NetworkError::ConnectionRefused) == Errno::Connrefused,
        errno_of_network_error(NetworkError::ConnectionReset) == Errno::Connreset,
        errno_of_network_error(NetworkError::Interrupted) == Errno::Intr,
        errno_of_network_error(NetworkError::InvalidData) == Errno::Io,
        errno_of_network_error(NetworkError::InvalidInput) == Errno::Inval,
        errno_of_network_error(NetworkError::NotConnected) == Errno::Notconn,
        errno_of_network_error(NetworkError::NoDevice) == Errno::Nodev,
        errno_of_network_error(NetworkError::PermissionDenied) == Errno::Perm,
        errno_of_network_error(NetworkError::TimedOut) == Errno::Timedout,
        errno_of_network_error(NetworkError::UnexpectedEof) == Errno::Proto,
        errno_of_network_error(NetworkError::WouldBlock) == Errno::Again,
        errno_of_network_error(NetworkError::WriteZero) == Errno::Nospc,
        errno_of_network_error(NetworkError::Unsupported) == Errno::Notsup,
        errno_of_network_error(NetworkError::UnknownError) == Errno::Io,
{
}

/// Each virtual-bus error is reported as the bus code of the same meaning: a bad handle as `Badhandle`, an invalid topic as `Topic`, access denied as `Denied`, and so on; an unknown error as `Unknown`.
pub proof fn lemma_bus_errno_of_vbus_error_by_meaning()
    ensures
        bus_errno_of_vbus_error(VirtualBusError::Serialization) == BusErrno::Ser,
        bus_errno_of_vbus_error(VirtualBusError::Deserialization) == BusErrno::Des,
        bus_errno_of_vbus_error(VirtualBusError::InvalidWapm) == BusErrno::Wapm,
        bus_errno_of_vbus_error(VirtualBusError::FetchFailed) == BusErrno::Fetch,
        bus_errno_of_vbus_error(VirtualBusError::CompileError) == BusErrno::Compile,
        bus_errno_of_vbus_error(VirtualBusError::InvalidABI) == BusErrno::Abi,
        bus_errno_of_vbus_error(VirtualBusError::Aborted) == BusErrno::Aborted,
        bus_errno_of_vbus_error(VirtualBusError::BadHandle) == BusErrno::Badhandle,
        bus_errno_of_vbus_error(VirtualBusError::InvalidTopic) == BusErrno::Topic,
        bus_errno_of_vbus_error(VirtualBusError::BadCallback) == BusErrno::Badcb,
        bus_errno_of_vbus_error(VirtualBusError::Unsupported) == BusErrno::Unsupported,
        bus_errno_of_vbus_error(VirtualBusError::BadRequest) == BusErrno::Badrequest,
        bus_errno_of_vbus_error(VirtualBusError::AccessDenied) == BusErrno::Denied,
        bus_errno_of_vbus_error(VirtualBusError::InternalError) == BusErrno::Internal,
        bus_errno_of_vbus_error(VirtualBusError::MemoryAllocationFailed) == BusErrno::Alloc,
        bus_errno_of_vbus_error(VirtualBusError::InvokeFailed) == BusErrno::Invoke,
        bus_errno_of_vbus_error(VirtualBusError::AlreadyConsumed) == BusErrno::Consumed,
        bus_errno_of_vbus_error(VirtualBusError::MemoryAccessViolation) == BusErrno::Memviolation,
        forall|e: VirtualBusError| !(e is Serialization) && !(e is Deserialization) && !(e is InvalidWapm) && !(e is FetchFailed) && !(e is CompileError) && !(e is InvalidABI) && !(e is Aborted) && !(e is BadHandle) && !(e is InvalidTopic) && !(e is BadCallback) && !(e is Unsupported) && !(e is BadRequest) && !(e is AccessDenied) && !(e is InternalError) && !(e is MemoryAllocationFailed) && !(e is InvokeFailed) && !(e is AlreadyConsumed) && !(e is MemoryAccessViolation) ==> #[trigger] bus_errno_of_vbus_error(e) == BusErrno::Unknown,
{
}

/// Each bus code stands for the virtual-bus error of the same meaning: `Badhandle` for a bad handle, `Topic` for an invalid topic, `Denied` for access denied, and so on; `Success` and `Unknown` stand for an unknown error.
pub proof fn lemma_vbus_error_of_bus_errno_by_meaning()
    ensures
        vbus_error_of_bus_errno(BusErrno::Ser) == VirtualBusError::Serialization,
        vbus_error_of_bus_errno(BusErrno::Des) == VirtualBusError::Deserialization,
        vbus_error_of_bus_errno(BusErrno::Wapm) == VirtualBusError::InvalidWapm,
        vbus_error_of_bus_errno(BusErrno::Fetch) == VirtualBusError::FetchFailed,
        vbus_error_of_bus_errno(BusErrno::Compile) == VirtualBusError::CompileError,
        vbus_error_of_bus_errno(BusErrno::Abi) == VirtualBusError::InvalidABI,
        vbus_error_of_bus_errno(BusErrno::Aborted) == VirtualBusError::Aborted,
        vbus_error_of_bus_errno(BusErrno::Badhandle) == VirtualBusError::BadHandle,
        vbus_error_of_bus_errno(BusErrno::Topic) == VirtualBusError::InvalidTopic,
        vbus_error_of_bus_errno(BusErrno::Badcb) == VirtualBusError::BadCallback,
        vbus_error_of_bus_errno(BusErrno::Unsupported) == VirtualBusError::Unsupported,
        vbus_error_of_bus_errno(BusErrno::Badrequest) == VirtualBusError::BadRequest,
        vbus_error_of_bus_errno(BusErrno::Denied) == VirtualBusError::AccessDenied,
        vbus_error_of_bus_errno(BusErrno::Internal) == VirtualBusError::InternalError,
        vbus_error_of_bus_errno(BusErrno::Alloc) == VirtualBusError::MemoryAllocationFailed,
        vbus_error_of_bus_errno(BusErrno::Invoke) == VirtualBusError::InvokeFailed,
        vbus_error_of_bus_errno(BusErrno::Consumed) == VirtualBusError::AlreadyConsumed,
        vbus_error_of_bus_errno(BusErrno::Memviolation) == VirtualBusError::MemoryAccessViolation,
        forall|e: BusErrno| !(e is Ser) && !(e is Des) && !(e is Wapm) && !(e is Fetch) && !(e is Compile) && !(e is Abi) && !(e is Aborted) && !(e is Badhandle) && !(e is Topic) && !(e is Badcb) && !(e is Unsupported) && !(e is Badrequest) && !(e is Denied) && !(e is Internal) && !(e is Alloc) && !(e is Invoke) && !(e is Consumed) && !(e is Memviolation) ==> #[trigger] vbus_error_of_bus_errno(e) == VirtualBusError::UnknownError,
{
}

} // verus!
