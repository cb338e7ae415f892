use wasmer_wasi::poll::{
    iterate_poll_events, platform_poll_events_to_pollevent_set,
    poll_event_set_to_platform_poll_events, poll_event_set_to_poll_flags,
    poll_flags_to_poll_event_set, PlatformPollFlags, PollEvent, PollEventBuilder, PollEventSet,
};

fn collect(pes: PollEventSet) -> Vec<PollEvent> {
    let mut it = iterate_poll_events(pes);
    let mut out = Vec::new();
    while let Some(e) = it.next() {
        out.push(e);
    }
    out
}

fn linux_flags() -> PlatformPollFlags {
    PlatformPollFlags { pollin: 0x1, pollout: 0x4, pollerr: 0x8, pollhup: 0x10, pollnval: 0x20 }
}

#[test]
fn event_bits() {
    assert_eq!(PollEvent::PollIn.bits(), 1);
    assert_eq!(PollEvent::PollOut.bits(), 2);
    assert_eq!(PollEvent::PollError.bits(), 4);
    assert_eq!(PollEvent::PollHangUp.bits(), 8);
    assert_eq!(PollEvent::PollInvalid.bits(), 16);
}

#[test]
fn from_i16_known_and_unknown() {
    assert_eq!(PollEvent::from_i16(1), Some(PollEvent::PollIn));
    assert_eq!(PollEvent::from_i16(8), Some(PollEvent::PollHangUp));
    assert_eq!(PollEvent::from_i16(16), Some(PollEvent::PollInvalid));
    assert_eq!(PollEvent::from_i16(0), None);
    assert_eq!(PollEvent::from_i16(3), None);
    assert_eq!(PollEvent::from_i16(32), None);
}

#[test]
fn builder_collects_events() {
    let set = PollEventBuilder::new()
        .add(PollEvent::PollIn)
        .add(PollEvent::PollHangUp)
        .add(PollEvent::PollIn)
        .build();
    assert_eq!(set, 9);
    assert_eq!(PollEventBuilder::new().build(), 0);
}

#[test]
fn iteration_lists_events_in_order() {
    assert_eq!(collect(0), vec![]);
    assert_eq!(collect(1), vec![PollEvent::PollIn]);
    assert_eq!(collect(0b10110), vec![PollEvent::PollOut, PollEvent::PollError, PollEvent::PollInvalid]);
    assert_eq!(
        collect(31),
        vec![
            PollEvent::PollIn,
            PollEvent::PollOut,
            PollEvent::PollError,
            PollEvent::PollHangUp,
            PollEvent::PollInvalid
        ]
    );
}

#[test]
fn builder_then_iterate_round_trip() {
    let set = PollEventBuilder::new().add(PollEvent::PollInvalid).add(PollEvent::PollOut).build();
    assert_eq!(collect(set), vec![PollEvent::PollOut, PollEvent::PollInvalid]);
}

#[test]
fn iterator_stays_exhausted() {
    let mut it = iterate_poll_events(4);
    assert_eq!(it.next(), Some(PollEvent::PollError));
    assert_eq!(it.next(), None);
    assert_eq!(it.next(), None);
}

#[test]
fn poll_flags_of_events() {
    let flags = linux_flags();
    assert_eq!(poll_event_set_to_poll_flags(0, &flags), 0);
    assert_eq!(poll_event_set_to_poll_flags(1 | 2, &flags), 0x1 | 0x4);
    assert_eq!(poll_event_set_to_poll_flags(31, &flags), 0x3d);
    assert_eq!(poll_event_set_to_poll_flags(32 | 8, &flags), 0x10);
}

#[test]
fn events_of_poll_flags() {
    let flags = linux_flags();
    assert_eq!(poll_flags_to_poll_event_set(0x1 | 0x4, &flags), 3);
    assert_eq!(poll_flags_to_poll_event_set(0x2, &flags), 0);
    assert_eq!(poll_flags_to_poll_event_set(0x3d, &flags), 31);
}

#[test]
fn first_matching_flag_decides() {
    let flags = PlatformPollFlags { pollin: 0x1, pollout: 0x1, pollerr: 0x8, pollhup: 0x10, pollnval: 0x20 };
    assert_eq!(poll_flags_to_poll_event_set(0x1, &flags), 1);
}

#[test]
fn platform_round_trip() {
    let flags = linux_flags();
    for pes in [0i16, 1, 5, 17, 30, 31, 0x7fff, -1] {
        assert_eq!(poll_flags_to_poll_event_set(poll_event_set_to_poll_flags(pes, &flags), &flags), pes & 0x1f);
    }
}

#[test]
fn host_platform_round_trip() {
    for pes in [0i16, 3, 12, 31] {
        assert_eq!(platform_poll_events_to_pollevent_set(poll_event_set_to_platform_poll_events(pes)), pes);
    }
    assert_eq!(poll_event_set_to_platform_poll_events(1), libc_pollin());
}

fn libc_pollin() -> i16 {
    libc::POLLIN
}

#[test]
fn platform_round_trip_back() {
    let flags = linux_flags();
    for num in [0i16, 0x1, 0x2, 0x3d, 0x7fff, -1, 0x40 | 0x4] {
        assert_eq!(poll_event_set_to_poll_flags(poll_flags_to_poll_event_set(num, &flags), &flags), num & 0x3d);
    }
}

#[test]
fn host_conversions_are_not_constant() {
    assert_ne!(poll_event_set_to_platform_poll_events(1), 0);
    assert_ne!(poll_event_set_to_platform_poll_events(2), 0);
    assert_ne!(platform_poll_events_to_pollevent_set(-1), 0);
}

#[test]
fn iterator_clears_bits_below_position() {
    let mut it = iterate_poll_events(0b11010);
    assert_eq!(it.next(), Some(PollEvent::PollOut));
    assert_eq!(it.next(), Some(PollEvent::PollHangUp));
    assert_eq!(it.next(), Some(PollEvent::PollInvalid));
    assert_eq!(it.next(), None);
}
