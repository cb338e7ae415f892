use wasmer_wasi::rights::{bus_read_rights, bus_write_rights};

#[test]
fn bus_read_rights_value() {
    assert_eq!(bus_read_rights(), (1u64 << 3) | (1u64 << 21) | (1u64 << 1) | (1u64 << 27));
    assert_eq!(bus_read_rights(), 136314890);
}

#[test]
fn bus_write_rights_value() {
    assert_eq!(bus_write_rights(), (1u64 << 3) | (1u64 << 21) | (1u64 << 6) | (1u64 << 27));
    assert_eq!(bus_write_rights(), 136314952);
}

#[test]
fn bus_rights_differ_in_read_and_write() {
    let read = bus_read_rights();
    let write = bus_write_rights();
    assert_ne!(read & (1 << 1), 0);
    assert_eq!(read & (1 << 6), 0);
    assert_ne!(write & (1 << 6), 0);
    assert_eq!(write & (1 << 1), 0);
    assert_eq!(read & !(1u64 << 1), write & !(1u64 << 6));
}
