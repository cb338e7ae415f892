//! Poll events and sets of them: a set is a 16-bit mask in which bit `k` of
//! the low five stands for one event.
use vstd::prelude::*;

verus! {

/// A set of poll events, one bit per event.
pub type PollEventSet = i16;

/// Whether bit `k` of `set` is one.
pub open spec fn has_bit(set: i16, k: u32) -> bool {
    set & (1i16 << k) != 0
}

/// The set with bit `k` of `set` cleared.
pub open spec fn clear_bit(set: i16, k: u32) -> i16 {
    set & !(1i16 << k)
}

/// An event that a poll can wait for or report.
#[derive(Clone, Copy, Debug, PartialEq, Eq, Structural)]
pub enum PollEvent {
    /// Data available to read
    PollIn,
    /// Data available to write (will still block if data is greater than space available unless
    /// the fd is configured to not block)
    PollOut,
    /// Something didn't work. ignored as input
    PollError,
    /// Connection closed. ignored as input
    PollHangUp,
    /// Invalid request. ignored as input
    PollInvalid,
}

/// The event that bit `k` of a set stands for, for `k` below five.
pub open spec fn event_at(k: int) -> PollEvent {
    if k == 0 {
        PollEvent::PollIn
    } else if k == 1 {
        PollEvent::PollOut
    } else if k == 2 {
        PollEvent::PollError
    } else if k == 3 {
        PollEvent::PollHangUp
    } else {
        PollEvent::PollInvalid
    }
}

/// The event that a raw value with exactly one event bit set stands for.
pub open spec fn event_of_raw(raw: i16) -> Option<PollEvent> {
    if raw == 1 {
        Some(PollEvent::PollIn)
    } else if raw == 2 {
        Some(PollEvent::PollOut)
    } else if raw == 4 {
        Some(PollEvent::PollError)
    } else if raw == 8 {
        Some(PollEvent::PollHangUp)
    } else if raw == 16 {
        Some(PollEvent::PollInvalid)
    } else {
        None
    }
}

impl PollEvent {
    /// The position of the event's bit in a set.
    pub open spec fn index(self) -> u32 {
        match self {
            PollEvent::PollIn => 0,
            PollEvent::PollOut => 1,
            PollEvent::PollError => 2,
            PollEvent::PollHangUp => 3,
            PollEvent::PollInvalid => 4,
        }
    }

    /// The event's bit as a set value.
    pub open spec fn raw(self) -> i16 {
        match self {
            PollEvent::PollIn => 1,
            PollEvent::PollOut => 2,
            PollEvent::PollError => 4,
            PollEvent::PollHangUp => 8,
            PollEvent::PollInvalid => 16,
        }
    }

    /// The event's bit as a set value.
    pub fn bits(&self) -> (r: PollEventSet)
        ensures
            r == self.raw(),
    {
        match self {
            PollEvent::PollIn => 1,
            PollEvent::PollOut => 2,
            PollEvent::PollError => 4,
            PollEvent::PollHangUp => 8,
            PollEvent::PollInvalid => 16,
        }
    }

    /// The event whose bit is `raw`, or `None` where `raw` is not one event's bit.
    pub fn from_i16(raw_num: i16) -> (r: Option<PollEvent>)
        ensures
            r == event_of_raw(raw_num),
    {
        if raw_num == 1 {
            Some(PollEvent::PollIn)
        } else if raw_num == 2 {
            Some(PollEvent::PollOut)
        } else if raw_num == 4 {
            Some(PollEvent::PollError)
        } else if raw_num == 8 {
            Some(PollEvent::PollHangUp)
        } else if raw_num == 16 {
            Some(PollEvent::PollInvalid)
        } else {
            None
        }
    }
}

/// Facts about one bit of a set, proved by bit-blasting.
pub proof fn lemma_bit_facts(set: i16, k: u32)
    requires
        k < 16,
    ensures
        (set & (1i16 << k)) == 0 || (set & (1i16 << k)) == (1i16 << k),
        has_bit(set, k) <==> (set & (1i16 << k)) == (1i16 << k),
        (1i16 << k) == 1i16 <==> k == 0,
        (1i16 << k) == 2i16 <==> k == 1,
        (1i16 << k) == 4i16 <==> k == 2,
        (1i16 << k) == 8i16 <==> k == 3,
        (1i16 << k) == 16i16 <==> k == 4,
        (1i16 << k) != 0,
{
    assert((set & (1i16 << k)) == 0 || (set & (1i16 << k)) == (1i16 << k)) by (bit_vector)
        requires
            k < 16,
    ;
    assert(((1i16 << k) == 1i16 <==> k == 0) && ((1i16 << k) == 2i16 <==> k == 1) && ((1i16
        << k) == 4i16 <==> k == 2) && ((1i16 << k) == 8i16 <==> k == 3) && ((1i16 << k) == 16i16
        <==> k == 4) && (1i16 << k) != 0) by (bit_vector)
        requires
            k < 16,
    ;
}

/// The event, if any, that bit `k` of `set` yields: `event_at(k)` where the
/// bit is one and `k` is below five, else none.
pub proof fn lemma_event_of_bit(set: i16, k: u32)
    requires
        k < 16,
    ensures
        event_of_raw(set & (1i16 << k)) == (if k < 5 && has_bit(set, k) {
            Some(event_at(k as int))
        } else {
            None
        }),
{
    lemma_bit_facts(set, k);
}

/// The lowest event bit of `set` at position `i` or above, if there is one.
pub open spec fn first_event_from(set: i16, i: int) -> Option<u32>
    decreases 5 - i,
{
    if i < 0 || i >= 5 {
        None
    } else if has_bit(set, i as u32) {
        Some(i as u32)
    } else {
        first_event_from(set, i + 1)
    }
}

/// The events of `set` at bit positions `i` to four, in ascending order.
pub open spec fn events_from(set: i16, i: int) -> Seq<PollEvent>
    decreases 5 - i,
{
    if i < 0 || i >= 5 {
        Seq::empty()
    } else if has_bit(set, i as u32) {
        seq![event_at(i)] + events_from(set, i + 1)
    } else {
        events_from(set, i + 1)
    }
}

/// The events of `set` in ascending order of their bits.
pub open spec fn events_of(set: i16) -> Seq<PollEvent> {
    events_from(set, 0)
}

pub proof fn lemma_first_event_from_bounds(set: i16, i: int)
    requires
        0 <= i,
    ensures
        first_event_from(set, i) matches Some(j) ==> i <= j < 5 && has_bit(set, j)
            && forall|k: u32| i <= k < j ==> !has_bit(set, k),
        first_event_from(set, i) is None ==> forall|k: u32| i <= k < 5 ==> !has_bit(set, k),
    decreases 5 - i,
{
    if i < 5 && !has_bit(set, i as u32) {
        lemma_first_event_from_bounds(set, i + 1);
    }
}

/// Whether an iterator over `set` at position `i` can take a step: it is done,
/// or an event bit is left at position `i` or above.
pub open spec fn can_advance(set: i16, i: int) -> bool {
    set == 0 || i > 15 || first_event_from(set, i) is Some
}

/// What one step of an iterator over `set` at position `i` yields: the event,
/// the set left and the next position.
pub open spec fn step(set: i16, i: int) -> (Option<PollEvent>, i16, int) {
    if set == 0 || i > 15 {
        (None, set, i)
    } else {
        match first_event_from(set, i) {
            Some(j) => (Some(event_at(j as int)), clear_bit(set, j), j + 1),
            None => (None, set, i),
        }
    }
}


/// Facts about setting and clearing one bit of a set, proved by bit-blasting.
pub proof fn lemma_set_clear_bit(set: i16, j: u32, k: u32)
    requires
        j < 16,
        k < 16,
    ensures
        has_bit(set | (1i16 << j), k) == (has_bit(set, k) || k == j),
        has_bit(clear_bit(set, j), k) == (has_bit(set, k) && k != j),
        0 <= set < 32 ==> 0 <= clear_bit(set, j) < 32,
        !has_bit(0i16, k),
        0 <= set < 32 && k >= 5 ==> !has_bit(set, k),
{
    assert(has_bit(set | (1i16 << j), k) == (has_bit(set, k) || k == j)) by (bit_vector)
        requires
            j < 16,
            k < 16,
    ;
    assert(has_bit(clear_bit(set, j), k) == (has_bit(set, k) && k != j)) by (bit_vector)
        requires
            j < 16,
            k < 16,
    ;
    assert(0 <= set < 32 ==> 0 <= clear_bit(set, j) < 32) by (bit_vector);
    assert(!has_bit(0i16, k)) by (bit_vector);
    assert(0 <= set < 32 && k >= 5 ==> !has_bit(set, k)) by (bit_vector)
        requires
            k < 16,
    ;
}

/// A non-empty set with only event bits has one of its five event bits set.
pub proof fn lemma_nonempty_has_event_bit(set: i16)
    requires
        0 <= set < 32,
        set != 0,
    ensures
        exists|k: u32| k < 5 && #[trigger] has_bit(set, k),
{
    assert(has_bit(set, 0) || has_bit(set, 1) || has_bit(set, 2) || has_bit(set, 3) || has_bit(
        set,
        4,
    )) by (bit_vector)
        requires
            0 <= set < 32,
            set != 0,
    ;
    if has_bit(set, 0) {
        assert(has_bit(set, 0));
    } else if has_bit(set, 1) {
        assert(has_bit(set, 1));
    } else if has_bit(set, 2) {
        assert(has_bit(set, 2));
    } else if has_bit(set, 3) {
        assert(has_bit(set, 3));
    } else {
        assert(has_bit(set, 4));
    }
}

/// Skipping positions whose bits are zero does not change the events listed.
pub proof fn lemma_events_from_skip(set: i16, i: int, j: int)
    requires
        0 <= i <= j,
        forall|k: u32| i <= k < j ==> !#[trigger] has_bit(set, k),
    ensures
        events_from(set, i) == events_from(set, j),
    decreases j - i,
{
    if i < j && i < 5 {
        assert(!has_bit(set, i as u32));
        lemma_events_from_skip(set, i + 1, j);
    } else if i < j {
        lemma_events_from_skip(set, i + 1, j);
    }
}

/// The events listed from position `i` depend only on the bits at `i` and above.
pub proof fn lemma_events_from_agree(a: i16, b: i16, i: int)
    requires
        0 <= i,
        forall|k: u32| i <= k < 5 ==> #[trigger] has_bit(a, k) == has_bit(b, k),
    ensures
        events_from(a, i) == events_from(b, i),
    decreases 5 - i,
{
    if i < 5 {
        assert(has_bit(a, i as u32) == has_bit(b, i as u32));
        lemma_events_from_agree(a, b, i + 1);
    }
}

/// The events yielded by stepping an iterator over `set` from position `i`
/// until it yields `None`.
pub open spec fn drain(set: i16, i: int) -> Seq<PollEvent>
    decreases 17 - i,
{
    if 0 <= i <= 16 {
        match step(set, i) {
            (Some(e), rest, next) => if i < next <= 16 {
                seq![e] + drain(rest, next)
            } else {
                Seq::empty()
            },
            _ => Seq::empty(),
        }
    } else {
        Seq::empty()
    }
}

/// A state that an iterator over a set of events reaches: no bits but event
/// bits, and none below the position.
pub open spec fn iteration_state(set: i16, i: int) -> bool {
    &&& 0 <= set < 32
    &&& 0 <= i <= 16
    &&& forall|k: u32| k < i ==> !#[trigger] has_bit(set, k)
}

/// From every state that iterating a set of events reaches, the next step can
/// be taken, it leads to such a state again, and the steps until `None` yield
/// the set's events from the position on, each once, in ascending order.
pub proof fn lemma_iteration_step(set: i16, i: int)
    requires
        iteration_state(set, i),
    ensures
        can_advance(set, i),
        step(set, i).0 is Some ==> iteration_state(step(set, i).1, step(set, i).2) && i < step(
            set,
            i,
        ).2 <= 16,
        drain(set, i) == events_from(set, i),
    decreases 17 - i,
{
    if set == 0 {
        assert forall|k: u32| 0 <= k < 5 implies !#[trigger] has_bit(set, k) by {
            lemma_set_clear_bit(set, 0, k);
        }
        if i <= 5 {
            lemma_events_from_skip(set, i, 5);
        }
    } else {
        lemma_nonempty_has_event_bit(set);
        let k0 = choose|k: u32| k < 5 && #[trigger] has_bit(set, k);
        assert(i <= k0);
        lemma_first_event_from_bounds(set, i);
        if first_event_from(set, i) is None {
            assert(!has_bit(set, k0));
        }
        let j = first_event_from(set, i)->0;
        let rest = clear_bit(set, j);
        lemma_set_clear_bit(set, j, 0);
        assert forall|k: u32| k < j + 1 implies !#[trigger] has_bit(rest, k) by {
            lemma_set_clear_bit(set, j, k);
        }
        assert forall|k: u32| j + 1 <= k < 5 implies #[trigger] has_bit(rest, k) == has_bit(
            set,
            k,
        ) by {
            lemma_set_clear_bit(set, j, k);
        }
        lemma_iteration_step(rest, j + 1);
        lemma_events_from_agree(rest, set, j + 1);
        lemma_events_from_skip(set, i, j as int);
    }
}

/// Iterating a set of events yields exactly its events, each once, in
/// ascending order of their bits, and no step of it fails.
pub proof fn lemma_iteration_lists_events(set: i16)
    requires
        0 <= set < 32,
    ensures
        can_advance(set, 0),
        drain(set, 0) == events_of(set),
{
    lemma_iteration_step(set, 0);
}

/// Adding an event sets its bit and leaves every other bit as it was.
pub proof fn lemma_add_sets_bit(set: i16, event: PollEvent, k: u32)
    requires
        k < 16,
    ensures
        has_bit(set | event.raw(), k) == (has_bit(set, k) || k == event.index()),
        has_bit(set | event.raw(), event.index()),
{
    lemma_bit_facts(set, event.index());
    lemma_set_clear_bit(set, event.index(), k);
    lemma_set_clear_bit(set, event.index(), event.index());
}

/// A raw event bit and the event agree both ways.
pub proof fn lemma_event_raw_round_trip(event: PollEvent, raw: i16)
    ensures
        event_of_raw(event.raw()) == Some(event),
        event_of_raw(raw) == Some(event) ==> raw == event.raw(),
        event.raw() == 1i16 << event.index(),
        event_at(event.index() as int) == event,
{
    lemma_bit_facts(0, event.index());
}


/// Two sets with the same sixteen bits are equal.
pub proof fn lemma_bits_ext(a: i16, b: i16)
    requires
        forall|k: u32| k < 16 ==> #[trigger] has_bit(a, k) == has_bit(b, k),
    ensures
        a == b,
{
    assert(has_bit(a, 0) == has_bit(b, 0));
    assert(has_bit(a, 1) == has_bit(b, 1));
    assert(has_bit(a, 2) == has_bit(b, 2));
    assert(has_bit(a, 3) == has_bit(b, 3));
    assert(has_bit(a, 4) == has_bit(b, 4));
    assert(has_bit(a, 5) == has_bit(b, 5));
    assert(has_bit(a, 6) == has_bit(b, 6));
    assert(has_bit(a, 7) == has_bit(b, 7));
    assert(has_bit(a, 8) == has_bit(b, 8));
    assert(has_bit(a, 9) == has_bit(b, 9));
    assert(has_bit(a, 10) == has_bit(b, 10));
    assert(has_bit(a, 11) == has_bit(b, 11));
    assert(has_bit(a, 12) == has_bit(b, 12));
    assert(has_bit(a, 13) == has_bit(b, 13));
    assert(has_bit(a, 14) == has_bit(b, 14));
    assert(has_bit(a, 15) == has_bit(b, 15));
    assert(a == b) by (bit_vector)
        requires
            has_bit(a, 0) == has_bit(b, 0),
            has_bit(a, 1) == has_bit(b, 1),
            has_bit(a, 2) == has_bit(b, 2),
            has_bit(a, 3) == has_bit(b, 3),
            has_bit(a, 4) == has_bit(b, 4),
            has_bit(a, 5) == has_bit(b, 5),
            has_bit(a, 6) == has_bit(b, 6),
            has_bit(a, 7) == has_bit(b, 7),
            has_bit(a, 8) == has_bit(b, 8),
            has_bit(a, 9) == has_bit(b, 9),
            has_bit(a, 10) == has_bit(b, 10),
            has_bit(a, 11) == has_bit(b, 11),
            has_bit(a, 12) == has_bit(b, 12),
            has_bit(a, 13) == has_bit(b, 13),
            has_bit(a, 14) == has_bit(b, 14),
            has_bit(a, 15) == has_bit(b, 15),
    ;
}

/// `set` with every bit below position `i` cleared.
pub open spec fn clear_below(set: i16, i: int) -> i16 {
    if i <= 0 {
        set
    } else if i >= 16 {
        0
    } else {
        set & (-1i16 << (i as u32))
    }
}

proof fn lemma_clear_below_bit(set: i16, i: int, k: u32)
    requires
        0 <= i <= 16,
        k < 16,
    ensures
        has_bit(clear_below(set, i), k) == (has_bit(set, k) && k >= i),
{
    if i <= 0 {
    } else if i >= 16 {
        lemma_set_clear_bit(0, 0, k);
    } else {
        let j = i as u32;
        assert(has_bit(set & (-1i16 << j), k) == (has_bit(set, k) && k >= j)) by (bit_vector)
            requires
                j < 16,
                k < 16,
        ;
    }
}

/// A step that yields `None` leaves the iterator as it was, so every later
/// step yields `None` again.
pub proof fn lemma_step_none_is_final(set: i16, i: int)
    requires
        can_advance(set, i),
        step(set, i).0 is None,
    ensures
        step(set, i).1 == set,
        step(set, i).2 == i,
        can_advance(step(set, i).1, step(set, i).2),
        step(step(set, i).1, step(set, i).2).0 is None,
{
}

/// An iterator's set is always its first set with the bits below its position
/// cleared: this holds when it is made (`clear_below(first, 0) == first`) and
/// every step keeps it, with the position staying within sixteen.
pub proof fn lemma_step_clears_below(first: i16, set: i16, i: int)
    requires
        0 <= i <= 16,
        set == clear_below(first, i),
        can_advance(set, i),
    ensures
        clear_below(first, 0) == first,
        0 <= step(set, i).2 <= 16,
        step(set, i).1 == clear_below(first, step(set, i).2),
{
    if set != 0 && i <= 15 {
        lemma_first_event_from_bounds(set, i);
        let j = first_event_from(set, i)->0;
        let rest = clear_bit(set, j);
        assert forall|k: u32| k < 16 implies #[trigger] has_bit(rest, k) == has_bit(
            clear_below(first, j + 1),
            k,
        ) by {
            lemma_set_clear_bit(set, j, k);
            lemma_clear_below_bit(first, i, k);
            lemma_clear_below_bit(first, j + 1, k);
        }
        lemma_bits_ext(rest, clear_below(first, j + 1));
    }
}

/// The set and position of an iterator over `first` after `n` steps.
pub open spec fn steps(first: i16, n: nat) -> (i16, int)
    decreases n,
{
    if n == 0 {
        (first, 0)
    } else {
        let (set, i) = steps(first, (n - 1) as nat);
        (step(set, i).1, step(set, i).2)
    }
}

/// Whether each of the first `n` steps of an iterator over `first` can be taken.
pub open spec fn steps_allowed(first: i16, n: nat) -> bool {
    forall|m: nat| m < n ==> can_advance(#[trigger] steps(first, m).0, steps(first, m).1)
}

/// After any number of steps that can be taken, an iterator made by
/// `iterate_poll_events(first)` is at a position of at most sixteen, and its set
/// is `first` with exactly the bits below that position cleared.
pub proof fn lemma_steps_clear_below(first: i16, n: nat)
    requires
        steps_allowed(first, n),
    ensures
        0 <= steps(first, n).1 <= 16,
        steps(first, n).0 == clear_below(first, steps(first, n).1),
    decreases n,
{
    if n > 0 {
        let m = (n - 1) as nat;
        assert(steps_allowed(first, m));
        lemma_steps_clear_below(first, m);
        let (set, i) = steps(first, m);
        assert(can_advance(steps(first, m).0, steps(first, m).1));
        lemma_step_clears_below(first, set, i);
    }
}

/// The set that a builder holds after adding the events of `events` in order.
pub open spec fn events_union(events: Seq<PollEvent>) -> i16
    decreases events.len(),
{
    if events.len() == 0 {
        0
    } else {
        events_union(events.drop_last()) | events.last().raw()
    }
}

/// A builder after any sequence of additions holds exactly the bits of the
/// events added, and no other; iterating that set never fails and yields its
/// events in ascending order.
pub proof fn lemma_builder_union(events: Seq<PollEvent>)
    ensures
        0 <= events_union(events) < 32,
        forall|k: u32|
            k < 16 ==> (#[trigger] has_bit(events_union(events), k) == exists|n: int|
                0 <= n < events.len() && #[trigger] events[n].index() == k),
        can_advance(events_union(events), 0),
        drain(events_union(events), 0) == events_of(events_union(events)),
    decreases events.len(),
{
    if events.len() == 0 {
        assert forall|k: u32| k < 16 implies !#[trigger] has_bit(0i16, k) by {
            lemma_set_clear_bit(0, 0, k);
        }
    } else {
        let init = events.drop_last();
        let e = events.last();
        lemma_builder_union(init);
        let u = events_union(init);
        let j = e.index();
        lemma_event_raw_round_trip(e, 0);
        assert(0 <= u | (1i16 << j) < 32) by (bit_vector)
            requires
                0 <= u < 32,
                j < 5,
        ;
        assert forall|k: u32| k < 16 implies (#[trigger] has_bit(events_union(events), k)
            == exists|n: int| 0 <= n < events.len() && #[trigger] events[n].index() == k) by {
            lemma_set_clear_bit(u, j, k);
            if has_bit(u, k) {
                let n = choose|n: int| 0 <= n < init.len() && #[trigger] init[n].index() == k;
                assert(events[n] == init[n]);
            }
            if k == j {
                assert(events[events.len() - 1].index() == k);
            }
            if exists|n: int| 0 <= n < events.len() && #[trigger] events[n].index() == k {
                let n = choose|n: int| 0 <= n < events.len() && #[trigger] events[n].index() == k;
                if n < events.len() - 1 {
                    assert(init[n] == events[n]);
                }
            }
        }
    }
    lemma_iteration_lists_events(events_union(events));
}

/// Collects poll events into a set.
#[derive(Debug, Clone, Copy)]
pub struct PollEventBuilder {
    inner: PollEventSet,
}

impl PollEventBuilder {
    /// The set collected so far.
    pub closed spec fn value(&self) -> PollEventSet {
        self.inner
    }

    /// A builder that holds the empty set.
    pub fn new() -> (r: PollEventBuilder)
        ensures
            r.value() == 0,
    {
        PollEventBuilder { inner: 0 }
    }

    /// The builder with `event` added to its set.
    pub fn add(self, event: PollEvent) -> (r: PollEventBuilder)
        ensures
            r.value() == self.value() | event.raw(),
    {
        let mut this = self;
        this.inner = this.inner | event.bits();
        this
    }

    /// The set collected.
    pub fn build(self) -> (r: PollEventSet)
        ensures
            r == self.value(),
    {
        self.inner
    }
}

/// Iterates the events of a set in ascending order of their bits.
#[derive(Debug)]
pub struct PollEventIter {
    pes: PollEventSet,
    i: usize,
}

impl PollEventIter {
    /// The set of events not yet passed.
    pub closed spec fn remaining(&self) -> PollEventSet {
        self.pes
    }

    /// The bit position at which the next step starts.
    pub closed spec fn position(&self) -> int {
        self.i as int
    }

    /// The position is never negative.
    pub proof fn lemma_position_nonnegative(&self)
        ensures
            0 <= self.position(),
    {
    }

    /// The next event of the set, or `None` once the set is exhausted.
    ///
    /// Where bits are left in the set but none of them stands for an event
    /// at the current position or above, the step cannot be taken.
    pub fn next(&mut self) -> (r: Option<PollEvent>)
        requires
            can_advance(old(self).remaining(), old(self).position()),
        ensures
            (r, final(self).remaining(), final(self).position()) == step(
                old(self).remaining(),
                old(self).position(),
            ),
    {
        if self.pes == 0 || self.i > 15 {
            None
        } else {
            let ghost start = self.i as int;
            let ghost set = self.pes;
            proof {
                lemma_first_event_from_bounds(set, start);
            }
            while self.i < 16
                invariant
                    start <= self.i <= 16,
                    self.pes == set,
                    set == old(self).remaining(),
                    start == old(self).position(),
                    set != 0,
                    start <= 15,
                    first_event_from(set, start) is Some,
                    first_event_from(set, start) matches Some(j) ==> self.i <= j < 5 && has_bit(
                        set,
                        j,
                    ) && forall|k: u32| start <= k < j ==> !has_bit(set, k),
                decreases 16 - self.i,
            {
                let k: u32 = self.i as u32;
                let result = PollEvent::from_i16(self.pes & (1i16 << k));
                proof {
                    lemma_event_of_bit(self.pes, k);
                }
                self.pes = self.pes & !(1i16 << k);
                self.i = self.i + 1;
                if let Some(r) = result {
                    proof {
                        let j = first_event_from(set, start)->0;
                        if k < j {
                            assert(!has_bit(set, k));
                        }
                        assert(k == j);
                        assert(r == event_at(j as int));
                        assert(self.pes == clear_bit(set, j));
                        assert(self.i == j + 1);
                    }
                    return Some(r);
                }
                let ghost cleared = self.pes;
                assert(cleared == set) by (bit_vector)
                    requires
                        set & (1i16 << k) == 0,
                        cleared == set & !(1i16 << k),
                        k < 16,
                ;
            }
            vstd::pervasive::unreached()
        }
    }
}

/// An iterator over the events of `pes`, starting at the lowest bit.
pub fn iterate_poll_events(pes: PollEventSet) -> (r: PollEventIter)
    ensures
        r.remaining() == pes,
        r.position() == 0,
{
    PollEventIter { pes, i: 0 }
}


/// The poll flags of the host platform, one for each poll event.
#[derive(Debug, Clone, Copy)]
pub struct PlatformPollFlags {
    pub pollin: i16,
    pub pollout: i16,
    pub pollerr: i16,
    pub pollhup: i16,
    pub pollnval: i16,
}

impl PlatformPollFlags {
    /// The platform flag that stands for `event`.
    pub open spec fn flag_of(self, event: PollEvent) -> i16 {
        match event {
            PollEvent::PollIn => self.pollin,
            PollEvent::PollOut => self.pollout,
            PollEvent::PollError => self.pollerr,
            PollEvent::PollHangUp => self.pollhup,
            PollEvent::PollInvalid => self.pollnval,
        }
    }

    /// The event that a value equal to one of the flags stands for; where it
    /// equals several, the first of `pollin`, `pollout`, `pollerr`, `pollhup`,
    /// `pollnval` decides.
    pub open spec fn event_of_flag(self, value: i16) -> Option<PollEvent> {
        if value == self.pollin {
            Some(PollEvent::PollIn)
        } else if value == self.pollout {
            Some(PollEvent::PollOut)
        } else if value == self.pollerr {
            Some(PollEvent::PollError)
        } else if value == self.pollhup {
            Some(PollEvent::PollHangUp)
        } else if value == self.pollnval {
            Some(PollEvent::PollInvalid)
        } else {
            None
        }
    }
}

/// The platform flags of the events of `pes` at bit positions below `n`,
/// joined by bitwise or.
pub open spec fn platform_flags_upto(pes: i16, flags: PlatformPollFlags, n: int) -> i16
    decreases n,
{
    if n <= 0 {
        0
    } else if n <= 5 && has_bit(pes, (n - 1) as u32) {
        platform_flags_upto(pes, flags, n - 1) | flags.flag_of(event_at(n - 1))
    } else {
        platform_flags_upto(pes, flags, n - 1)
    }
}

/// The platform flags of all events of `pes`, joined by bitwise or.
pub open spec fn platform_flags_of(pes: i16, flags: PlatformPollFlags) -> i16 {
    platform_flags_upto(pes, flags, 5)
}

/// The event bits of the platform flags found among the bits of `num` below
/// position `n`: each one-bit part `num & (1 << k)` equal to a flag adds that
/// flag's event.
pub open spec fn events_of_platform_upto(num: i16, flags: PlatformPollFlags, n: int) -> i16
    decreases n,
{
    if n <= 0 || n > 16 {
        0
    } else {
        match flags.event_of_flag(num & (1i16 << (n - 1) as u32)) {
            Some(e) => events_of_platform_upto(num, flags, n - 1) | e.raw(),
            None => events_of_platform_upto(num, flags, n - 1),
        }
    }
}

/// The event set that the platform poll bits `num` stand for.
pub open spec fn events_of_platform(num: i16, flags: PlatformPollFlags) -> i16 {
    events_of_platform_upto(num, flags, 16)
}

/// The platform poll bits of the events of `pes`, for the given platform flags.
pub fn poll_event_set_to_poll_flags(pes: PollEventSet, flags: &PlatformPollFlags) -> (r: i16)
    ensures
        r == platform_flags_of(pes, *flags),
{
    let mut out: i16 = 0;
    let mut i: u32 = 0;
    while i < 16
        invariant
            i <= 16,
            out == platform_flags_upto(pes, *flags, if i < 5 { i as int } else { 5 }),
        decreases 16 - i,
    {
        proof {
            lemma_event_of_bit(pes, i);
        }
        let flag = match PollEvent::from_i16(pes & (1i16 << i)) {
            Some(PollEvent::PollIn) => Some(flags.pollin),
            Some(PollEvent::PollOut) => Some(flags.pollout),
            Some(PollEvent::PollError) => Some(flags.pollerr),
            Some(PollEvent::PollHangUp) => Some(flags.pollhup),
            Some(PollEvent::PollInvalid) => Some(flags.pollnval),
            None => None,
        };
        if let Some(f) = flag {
            out = out | f;
        }
        i = i + 1;
    }
    out
}

/// The event set that the platform poll bits `num` stand for, for the given
/// platform flags.
pub fn poll_flags_to_poll_event_set(num: i16, flags: &PlatformPollFlags) -> (r: PollEventSet)
    ensures
        r == events_of_platform(num, *flags),
{
    let mut peb = PollEventBuilder::new();
    let mut i: u32 = 0;
    while i < 16
        invariant
            i <= 16,
            peb.value() == events_of_platform_upto(num, *flags, i as int),
        decreases 16 - i,
    {
        let part = num & (1i16 << i);
        peb = if part == flags.pollin {
            peb.add(PollEvent::PollIn)
        } else if part == flags.pollout {
            peb.add(PollEvent::PollOut)
        } else if part == flags.pollerr {
            peb.add(PollEvent::PollError)
        } else if part == flags.pollhup {
            peb.add(PollEvent::PollHangUp)
        } else if part == flags.pollnval {
            peb.add(PollEvent::PollInvalid)
        } else {
            peb
        };
        i = i + 1;
    }
    peb.build()
}



/// What the poll flags of `libc` share on every target where they are `i16`
/// constants: `POLLIN` is nonzero, the other four are single bits, and no two
/// of the five are equal. `POLLIN` itself is not a single bit everywhere: on
/// QNX it is `POLLRDNORM | POLLRDBAND`, that is 0x5.
pub open spec fn host_flag_facts(flags: PlatformPollFlags) -> bool {
    &&& flags.pollin != 0
    &&& is_single_bit(flags.pollout)
    &&& is_single_bit(flags.pollerr)
    &&& is_single_bit(flags.pollhup)
    &&& is_single_bit(flags.pollnval)
    &&& flags.pollin != flags.pollout
    &&& flags.pollin != flags.pollerr
    &&& flags.pollin != flags.pollhup
    &&& flags.pollin != flags.pollnval
    &&& flags.pollout != flags.pollerr
    &&& flags.pollout != flags.pollhup
    &&& flags.pollout != flags.pollnval
    &&& flags.pollerr != flags.pollhup
    &&& flags.pollerr != flags.pollnval
    &&& flags.pollhup != flags.pollnval
}

/// Reads the poll flags of the host platform from `libc` (`POLLIN`, `POLLOUT`,
/// `POLLERR`, `POLLHUP`, `POLLNVAL`). Their values differ from one target to
/// another (on Linux they are 0x1, 0x4, 0x8, 0x10, 0x20; on AIX `POLLERR` is
/// 0x4000); what is stated is what the source of `libc` shows on every target
/// that defines all five as `i16` (`c_short`): see `host_flag_facts`. The one
/// target whose flags break it (Horizon, where `POLLOUT` and `POLLERR` are both
/// 0x8) defines them as `i32`, where this function does not compile.
#[verifier::external_body]
fn host_poll_flags() -> (r: PlatformPollFlags)
    ensures
        host_flag_facts(r),
{
    PlatformPollFlags {
        pollin: libc::POLLIN,
        pollout: libc::POLLOUT,
        pollerr: libc::POLLERR,
        pollhup: libc::POLLHUP,
        pollnval: libc::POLLNVAL,
    }
}

/// The host platform's poll bits of the events of `pes`.
pub fn poll_event_set_to_platform_poll_events(pes: PollEventSet) -> (r: i16)
    ensures
        exists|flags: PlatformPollFlags| host_flag_facts(flags) && r == platform_flags_of(pes, flags),
{
    let flags = host_poll_flags();
    poll_event_set_to_poll_flags(pes, &flags)
}

/// The event set that the host platform's poll bits `num` stand for.
pub fn platform_poll_events_to_pollevent_set(num: i16) -> (r: PollEventSet)
    ensures
        exists|flags: PlatformPollFlags| host_flag_facts(flags) && r == events_of_platform(num, flags),
{
    let flags = host_poll_flags();
    poll_flags_to_poll_event_set(num, &flags)
}

/// Whether `flag` has exactly one bit set.
pub open spec fn is_single_bit(flag: i16) -> bool {
    exists|b: u32| b < 16 && flag == #[trigger] (1i16 << b)
}

/// Whether the platform flags are single bits, each at its own position.
pub open spec fn distinct_single_bits(flags: PlatformPollFlags) -> bool {
    &&& is_single_bit(flags.pollin)
    &&& is_single_bit(flags.pollout)
    &&& is_single_bit(flags.pollerr)
    &&& is_single_bit(flags.pollhup)
    &&& is_single_bit(flags.pollnval)
    &&& flags.pollin != flags.pollout
    &&& flags.pollin != flags.pollerr
    &&& flags.pollin != flags.pollhup
    &&& flags.pollin != flags.pollnval
    &&& flags.pollout != flags.pollerr
    &&& flags.pollout != flags.pollhup
    &&& flags.pollout != flags.pollnval
    &&& flags.pollerr != flags.pollhup
    &&& flags.pollerr != flags.pollnval
    &&& flags.pollhup != flags.pollnval
}

/// The event bits whose platform flags sit below bit position `n`, where the
/// flags of the five events sit at positions `b0` to `b4`.
pub open spec fn event_mask(b0: u32, b1: u32, b2: u32, b3: u32, b4: u32, n: u32) -> i16 {
    (if b0 < n {
        1i16
    } else {
        0i16
    }) | (if b1 < n {
        2i16
    } else {
        0i16
    }) | (if b2 < n {
        4i16
    } else {
        0i16
    }) | (if b3 < n {
        8i16
    } else {
        0i16
    }) | (if b4 < n {
        16i16
    } else {
        0i16
    })
}

proof fn lemma_shift_injective(a: u32, b: u32)
    requires
        a < 16,
        b < 16,
    ensures
        ((1i16 << a) == (1i16 << b)) == (a == b),
        (1i16 << a) != 0,
{
    assert(((1i16 << a) == (1i16 << b)) == (a == b)) by (bit_vector)
        requires
            a < 16,
            b < 16,
    ;
    assert((1i16 << a) != 0) by (bit_vector)
        requires
            a < 16,
    ;
}

proof fn lemma_mask_step(pes: i16, b0: u32, b1: u32, b2: u32, b3: u32, b4: u32, n: u32)
    requires
        n < 16,
        b0 != b1 && b0 != b2 && b0 != b3 && b0 != b4 && b1 != b2 && b1 != b3 && b1 != b4 && b2
            != b3 && b2 != b4 && b3 != b4,
    ensures
        (b0 == n && has_bit(pes, 0)) ==> pes & event_mask(b0, b1, b2, b3, b4, (n + 1) as u32) == (
        pes & event_mask(b0, b1, b2, b3, b4, n)) | 1i16,
        (b1 == n && has_bit(pes, 1)) ==> pes & event_mask(b0, b1, b2, b3, b4, (n + 1) as u32) == (
        pes & event_mask(b0, b1, b2, b3, b4, n)) | 2i16,
        (b2 == n && has_bit(pes, 2)) ==> pes & event_mask(b0, b1, b2, b3, b4, (n + 1) as u32) == (
        pes & event_mask(b0, b1, b2, b3, b4, n)) | 4i16,
        (b3 == n && has_bit(pes, 3)) ==> pes & event_mask(b0, b1, b2, b3, b4, (n + 1) as u32) == (
        pes & event_mask(b0, b1, b2, b3, b4, n)) | 8i16,
        (b4 == n && has_bit(pes, 4)) ==> pes & event_mask(b0, b1, b2, b3, b4, (n + 1) as u32) == (
        pes & event_mask(b0, b1, b2, b3, b4, n)) | 16i16,
        !(b0 == n && has_bit(pes, 0)) && !(b1 == n && has_bit(pes, 1)) && !(b2 == n && has_bit(
            pes,
            2,
        )) && !(b3 == n && has_bit(pes, 3)) && !(b4 == n && has_bit(pes, 4)) ==> pes
            & event_mask(b0, b1, b2, b3, b4, (n + 1) as u32) == pes & event_mask(
            b0,
            b1,
            b2,
            b3,
            b4,
            n,
        ),
{
    assert(
        (b0 == n && has_bit(pes, 0)) ==> pes & event_mask(b0, b1, b2, b3, b4, (n + 1) as u32) == (
        pes & event_mask(b0, b1, b2, b3, b4, n)) | 1i16) by (bit_vector)
        requires
            n < 16,
            b0 != b1 && b0 != b2 && b0 != b3 && b0 != b4,
    ;
    assert(
        (b1 == n && has_bit(pes, 1)) ==> pes & event_mask(b0, b1, b2, b3, b4, (n + 1) as u32) == (
        pes & event_mask(b0, b1, b2, b3, b4, n)) | 2i16) by (bit_vector)
        requires
            n < 16,
            b0 != b1 && b1 != b2 && b1 != b3 && b1 != b4,
    ;
    assert(
        (b2 == n && has_bit(pes, 2)) ==> pes & event_mask(b0, b1, b2, b3, b4, (n + 1) as u32) == (
        pes & event_mask(b0, b1, b2, b3, b4, n)) | 4i16) by (bit_vector)
        requires
            n < 16,
            b0 != b2 && b1 != b2 && b2 != b3 && b2 != b4,
    ;
    assert(
        (b3 == n && has_bit(pes, 3)) ==> pes & event_mask(b0, b1, b2, b3, b4, (n + 1) as u32) == (
        pes & event_mask(b0, b1, b2, b3, b4, n)) | 8i16) by (bit_vector)
        requires
            n < 16,
            b0 != b3 && b1 != b3 && b2 != b3 && b3 != b4,
    ;
    assert(
        (b4 == n && has_bit(pes, 4)) ==> pes & event_mask(b0, b1, b2, b3, b4, (n + 1) as u32) == (
        pes & event_mask(b0, b1, b2, b3, b4, n)) | 16i16) by (bit_vector)
        requires
            n < 16,
            b0 != b4 && b1 != b4 && b2 != b4 && b3 != b4,
    ;
    assert(!(b0 == n && has_bit(pes, 0)) && !(b1 == n && has_bit(pes, 1)) && !(b2 == n
        && has_bit(pes, 2)) && !(b3 == n && has_bit(pes, 3)) && !(b4 == n && has_bit(pes, 4))
        ==> pes & event_mask(b0, b1, b2, b3, b4, (n + 1) as u32) == pes & event_mask(
        b0,
        b1,
        b2,
        b3,
        b4,
        n,
    )) by (bit_vector)
        requires
            n < 16,
    ;
}


proof fn lemma_platform_flags_bits(
    pes: i16,
    flags: PlatformPollFlags,
    b0: u32,
    b1: u32,
    b2: u32,
    b3: u32,
    b4: u32,
    m: u32,
)
    requires
        m < 16,
        b0 < 16 && b1 < 16 && b2 < 16 && b3 < 16 && b4 < 16,
        flags.pollin == 1i16 << b0,
        flags.pollout == 1i16 << b1,
        flags.pollerr == 1i16 << b2,
        flags.pollhup == 1i16 << b3,
        flags.pollnval == 1i16 << b4,
    ensures
        has_bit(platform_flags_of(pes, flags), m) == ((has_bit(pes, 0) && m == b0) || (has_bit(
            pes,
            1,
        ) && m == b1) || (has_bit(pes, 2) && m == b2) || (has_bit(pes, 3) && m == b3) || (
        has_bit(pes, 4) && m == b4)),
{
    let u0 = platform_flags_upto(pes, flags, 0);
    let u1 = platform_flags_upto(pes, flags, 1);
    let u2 = platform_flags_upto(pes, flags, 2);
    let u3 = platform_flags_upto(pes, flags, 3);
    let u4 = platform_flags_upto(pes, flags, 4);
    let u5 = platform_flags_upto(pes, flags, 5);
    let f0 = flags.pollin;
    let f1 = flags.pollout;
    let f2 = flags.pollerr;
    let f3 = flags.pollhup;
    let f4 = flags.pollnval;
    let h0 = has_bit(pes, 0);
    let h1 = has_bit(pes, 1);
    let h2 = has_bit(pes, 2);
    let h3 = has_bit(pes, 3);
    let h4 = has_bit(pes, 4);
    assert(u0 == 0);
    assert(u1 == if h0 { u0 | f0 } else { u0 });
    assert(u2 == if h1 { u1 | f1 } else { u1 });
    assert(u3 == if h2 { u2 | f2 } else { u2 });
    assert(u4 == if h3 { u3 | f3 } else { u3 });
    assert(u5 == if h4 { u4 | f4 } else { u4 });
    assert(has_bit(u5, m) == ((h0 && m == b0) || (h1 && m == b1) || (h2 && m == b2) || (h3 && m
        == b3) || (h4 && m == b4))) by (bit_vector)
        requires
            m < 16,
            b0 < 16 && b1 < 16 && b2 < 16 && b3 < 16 && b4 < 16,
            f0 == 1i16 << b0,
            f1 == 1i16 << b1,
            f2 == 1i16 << b2,
            f3 == 1i16 << b3,
            f4 == 1i16 << b4,
            u0 == 0,
            u1 == if h0 { u0 | f0 } else { u0 },
            u2 == if h1 { u1 | f1 } else { u1 },
            u3 == if h2 { u2 | f2 } else { u2 },
            u4 == if h3 { u3 | f3 } else { u3 },
            u5 == if h4 { u4 | f4 } else { u4 },
    ;
}


proof fn lemma_round_trip_upto(
    pes: i16,
    flags: PlatformPollFlags,
    b0: u32,
    b1: u32,
    b2: u32,
    b3: u32,
    b4: u32,
    n: u32,
)
    requires
        n <= 16,
        b0 < 16 && b1 < 16 && b2 < 16 && b3 < 16 && b4 < 16,
        b0 != b1 && b0 != b2 && b0 != b3 && b0 != b4 && b1 != b2 && b1 != b3 && b1 != b4 && b2
            != b3 && b2 != b4 && b3 != b4,
        flags.pollin == 1i16 << b0,
        flags.pollout == 1i16 << b1,
        flags.pollerr == 1i16 << b2,
        flags.pollhup == 1i16 << b3,
        flags.pollnval == 1i16 << b4,
    ensures
        events_of_platform_upto(platform_flags_of(pes, flags), flags, n as int) == pes
            & event_mask(b0, b1, b2, b3, b4, n),
    decreases n,
{
    if n == 0 {
        assert(pes & event_mask(b0, b1, b2, b3, b4, 0) == 0) by (bit_vector);
    } else {
        let k = (n - 1) as u32;
        lemma_round_trip_upto(pes, flags, b0, b1, b2, b3, b4, k);
        let num = platform_flags_of(pes, flags);
        lemma_bit_facts(num, k);
        lemma_platform_flags_bits(pes, flags, b0, b1, b2, b3, b4, k);
        lemma_shift_injective(b0, k);
        lemma_shift_injective(b1, k);
        lemma_shift_injective(b2, k);
        lemma_shift_injective(b3, k);
        lemma_shift_injective(b4, k);
        lemma_mask_step(pes, b0, b1, b2, b3, b4, k);
        assert(n == (k + 1) as u32);
    }
}

/// Turning a set of events into platform poll bits and back gives the set's
/// events, wherever the platform flags are single bits at distinct positions.
pub proof fn lemma_platform_round_trip(pes: PollEventSet, flags: PlatformPollFlags)
    requires
        distinct_single_bits(flags),
    ensures
        events_of_platform(platform_flags_of(pes, flags), flags) == pes & 0x1fi16,
{
    let b0 = choose|b: u32| b < 16 && flags.pollin == #[trigger] (1i16 << b);
    let b1 = choose|b: u32| b < 16 && flags.pollout == #[trigger] (1i16 << b);
    let b2 = choose|b: u32| b < 16 && flags.pollerr == #[trigger] (1i16 << b);
    let b3 = choose|b: u32| b < 16 && flags.pollhup == #[trigger] (1i16 << b);
    let b4 = choose|b: u32| b < 16 && flags.pollnval == #[trigger] (1i16 << b);
    lemma_round_trip_upto(pes, flags, b0, b1, b2, b3, b4, 16);
    assert(pes & event_mask(b0, b1, b2, b3, b4, 16) == pes & 0x1fi16) by (bit_vector)
        requires
            b0 < 16 && b1 < 16 && b2 < 16 && b3 < 16 && b4 < 16,
    ;
}

/// The event bits of the flags found among the bits of `num` below position
/// `n`, where the flags of the five events sit at positions `b0` to `b4`.
pub open spec fn found_mask(num: i16, b0: u32, b1: u32, b2: u32, b3: u32, b4: u32, n: u32) -> i16 {
    (if b0 < n && has_bit(num, b0) {
        1i16
    } else {
        0i16
    }) | (if b1 < n && has_bit(num, b1) {
        2i16
    } else {
        0i16
    }) | (if b2 < n && has_bit(num, b2) {
        4i16
    } else {
        0i16
    }) | (if b3 < n && has_bit(num, b3) {
        8i16
    } else {
        0i16
    }) | (if b4 < n && has_bit(num, b4) {
        16i16
    } else {
        0i16
    })
}

proof fn lemma_found_step(num: i16, b0: u32, b1: u32, b2: u32, b3: u32, b4: u32, n: u32)
    requires
        n < 16,
        b0 != b1 && b0 != b2 && b0 != b3 && b0 != b4 && b1 != b2 && b1 != b3 && b1 != b4 && b2
            != b3 && b2 != b4 && b3 != b4,
    ensures
        (b0 == n && has_bit(num, n)) ==> found_mask(num, b0, b1, b2, b3, b4, (n + 1) as u32) == found_mask(num, b0, b1, b2, b3, b4, n) | 1i16,
        (b1 == n && has_bit(num, n)) ==> found_mask(num, b0, b1, b2, b3, b4, (n + 1) as u32) == found_mask(num, b0, b1, b2, b3, b4, n) | 2i16,
        (b2 == n && has_bit(num, n)) ==> found_mask(num, b0, b1, b2, b3, b4, (n + 1) as u32) == found_mask(num, b0, b1, b2, b3, b4, n) | 4i16,
        (b3 == n && has_bit(num, n)) ==> found_mask(num, b0, b1, b2, b3, b4, (n + 1) as u32) == found_mask(num, b0, b1, b2, b3, b4, n) | 8i16,
        (b4 == n && has_bit(num, n)) ==> found_mask(num, b0, b1, b2, b3, b4, (n + 1) as u32) == found_mask(num, b0, b1, b2, b3, b4, n) | 16i16,
        !(b0 == n && has_bit(num, n)) && !(b1 == n && has_bit(num, n)) && !(b2 == n && has_bit(num, n)) && !(b3 == n && has_bit(num, n)) && !(b4 == n && has_bit(num, n)) ==> found_mask(num, b0, b1, b2, b3, b4, (n + 1) as u32) == found_mask(num, b0, b1, b2, b3, b4, n),
{
    assert((b0 == n && has_bit(num, n)) ==> found_mask(num, b0, b1, b2, b3, b4, (n + 1) as u32) == found_mask(num, b0, b1, b2, b3, b4, n) | 1i16) by (bit_vector)
        requires
            n < 16,
            b0 != b1 && b0 != b2 && b0 != b3 && b0 != b4,
    ;
    assert((b1 == n && has_bit(num, n)) ==> found_mask(num, b0, b1, b2, b3, b4, (n + 1) as u32) == found_mask(num, b0, b1, b2, b3, b4, n) | 2i16) by (bit_vector)
        requires
            n < 16,
            b1 != b0 && b1 != b2 && b1 != b3 && b1 != b4,
    ;
    assert((b2 == n && has_bit(num, n)) ==> found_mask(num, b0, b1, b2, b3, b4, (n + 1) as u32) == found_mask(num, b0, b1, b2, b3, b4, n) | 4i16) by (bit_vector)
        requires
            n < 16,
            b2 != b0 && b2 != b1 && b2 != b3 && b2 != b4,
    ;
    assert((b3 == n && has_bit(num, n)) ==> found_mask(num, b0, b1, b2, b3, b4, (n + 1) as u32) == found_mask(num, b0, b1, b2, b3, b4, n) | 8i16) by (bit_vector)
        requires
            n < 16,
            b3 != b0 && b3 != b1 && b3 != b2 && b3 != b4,
    ;
    assert((b4 == n && has_bit(num, n)) ==> found_mask(num, b0, b1, b2, b3, b4, (n + 1) as u32) == found_mask(num, b0, b1, b2, b3, b4, n) | 16i16) by (bit_vector)
        requires
            n < 16,
            b4 != b0 && b4 != b1 && b4 != b2 && b4 != b3,
    ;
    assert(!(b0 == n && has_bit(num, n)) && !(b1 == n && has_bit(num, n)) && !(b2 == n && has_bit(num, n)) && !(b3 == n && has_bit(num, n)) && !(b4 == n && has_bit(num, n)) ==> found_mask(num, b0, b1, b2, b3, b4, (n + 1) as u32) == found_mask(num, b0, b1, b2, b3, b4, n)) by (bit_vector)
        requires
            n < 16,
    ;
}

proof fn lemma_found_upto(
    num: i16,
    flags: PlatformPollFlags,
    b0: u32,
    b1: u32,
    b2: u32,
    b3: u32,
    b4: u32,
    n: u32,
)
    requires
        n <= 16,
        b0 < 16 && b1 < 16 && b2 < 16 && b3 < 16 && b4 < 16,
        b0 != b1 && b0 != b2 && b0 != b3 && b0 != b4 && b1 != b2 && b1 != b3 && b1 != b4 && b2
            != b3 && b2 != b4 && b3 != b4,
        flags.pollin == 1i16 << b0,
        flags.pollout == 1i16 << b1,
        flags.pollerr == 1i16 << b2,
        flags.pollhup == 1i16 << b3,
        flags.pollnval == 1i16 << b4,
    ensures
        events_of_platform_upto(num, flags, n as int) == found_mask(num, b0, b1, b2, b3, b4, n),
    decreases n,
{
    if n == 0 {
        assert(found_mask(num, b0, b1, b2, b3, b4, 0) == 0) by (bit_vector);
    } else {
        let k = (n - 1) as u32;
        lemma_found_upto(num, flags, b0, b1, b2, b3, b4, k);
        lemma_bit_facts(num, k);
        lemma_shift_injective(b0, k);
        lemma_shift_injective(b1, k);
        lemma_shift_injective(b2, k);
        lemma_shift_injective(b3, k);
        lemma_shift_injective(b4, k);
        lemma_found_step(num, b0, b1, b2, b3, b4, k);
        assert(n == (k + 1) as u32);
    }
}

/// Turning platform poll bits into a set of events and back keeps exactly the
/// bits that are platform flags, wherever those flags are single bits at
/// distinct positions.
pub proof fn lemma_platform_round_trip_back(num: i16, flags: PlatformPollFlags)
    requires
        distinct_single_bits(flags),
    ensures
        platform_flags_of(events_of_platform(num, flags), flags) == num & (flags.pollin
            | flags.pollout | flags.pollerr | flags.pollhup | flags.pollnval),
{
    let b0 = choose|b: u32| b < 16 && flags.pollin == #[trigger] (1i16 << b);
    let b1 = choose|b: u32| b < 16 && flags.pollout == #[trigger] (1i16 << b);
    let b2 = choose|b: u32| b < 16 && flags.pollerr == #[trigger] (1i16 << b);
    let b3 = choose|b: u32| b < 16 && flags.pollhup == #[trigger] (1i16 << b);
    let b4 = choose|b: u32| b < 16 && flags.pollnval == #[trigger] (1i16 << b);
    lemma_found_upto(num, flags, b0, b1, b2, b3, b4, 16);
    let pes = events_of_platform(num, flags);
    let all = flags.pollin | flags.pollout | flags.pollerr | flags.pollhup | flags.pollnval;
    let f0 = flags.pollin;
    let f1 = flags.pollout;
    let f2 = flags.pollerr;
    let f3 = flags.pollhup;
    let f4 = flags.pollnval;
    assert(has_bit(pes, 0) == has_bit(num, b0) && has_bit(pes, 1) == has_bit(num, b1) && has_bit(
        pes,
        2,
    ) == has_bit(num, b2) && has_bit(pes, 3) == has_bit(num, b3) && has_bit(pes, 4) == has_bit(
        num,
        b4,
    )) by (bit_vector)
        requires
            b0 < 16 && b1 < 16 && b2 < 16 && b3 < 16 && b4 < 16,
            pes == found_mask(num, b0, b1, b2, b3, b4, 16),
    ;
    assert forall|m: u32| m < 16 implies #[trigger] has_bit(platform_flags_of(pes, flags), m)
        == has_bit(num & all, m) by {
        lemma_platform_flags_bits(pes, flags, b0, b1, b2, b3, b4, m);
        assert(has_bit(num & all, m) == (has_bit(num, m) && (m == b0 || m == b1 || m == b2 || m
            == b3 || m == b4))) by (bit_vector)
            requires
                m < 16,
                b0 < 16 && b1 < 16 && b2 < 16 && b3 < 16 && b4 < 16,
                f0 == 1i16 << b0,
                f1 == 1i16 << b1,
                f2 == 1i16 << b2,
                f3 == 1i16 << b3,
                f4 == 1i16 << b4,
                all == f0 | f1 | f2 | f3 | f4,
        ;
    }
    lemma_bits_ext(platform_flags_of(pes, flags), num & all);
}

/// Each event has its own bit, in the order of the WASI event kinds: reading
/// at bit 0, writing at bit 1, errors at bit 2, hang-ups at bit 3 and invalid
/// requests at bit 4.
pub proof fn lemma_event_bits_by_kind()
    ensures
        PollEvent::PollIn.raw() == 1 && PollEvent::PollIn.index() == 0,
        PollEvent::PollOut.raw() == 2 && PollEvent::PollOut.index() == 1,
        PollEvent::PollError.raw() == 4 && PollEvent::PollError.index() == 2,
        PollEvent::PollHangUp.raw() == 8 && PollEvent::PollHangUp.index() == 3,
        PollEvent::PollInvalid.raw() == 16 && PollEvent::PollInvalid.index() == 4,
        event_of_raw(1) == Some(PollEvent::PollIn),
        event_of_raw(2) == Some(PollEvent::PollOut),
        event_of_raw(4) == Some(PollEvent::PollError),
        event_of_raw(8) == Some(PollEvent::PollHangUp),
        event_of_raw(16) == Some(PollEvent::PollInvalid),
{
}

/// Each event stands for the platform flag of the same kind: reading for
/// `pollin`, writing for `pollout`, errors for `pollerr`, hang-ups for
/// `pollhup` and invalid requests for `pollnval`.
pub proof fn lemma_flag_of_by_kind(flags: PlatformPollFlags)
    ensures
        flags.flag_of(PollEvent::PollIn) == flags.pollin,
        flags.flag_of(PollEvent::PollOut) == flags.pollout,
        flags.flag_of(PollEvent::PollError) == flags.pollerr,
        flags.flag_of(PollEvent::PollHangUp) == flags.pollhup,
        flags.flag_of(PollEvent::PollInvalid) == flags.pollnval,
{
}

/// A set holding one event becomes exactly that event's platform flag: an
/// error becomes `pollerr`, a hang-up `pollhup`, and so on.
pub proof fn lemma_single_event_to_platform(event: PollEvent, flags: PlatformPollFlags)
    ensures
        platform_flags_of(event.raw(), flags) == flags.flag_of(event),
{
    let j = event.index();
    let raw = event.raw();
    lemma_event_raw_round_trip(event, 0);
    assert(0i16 | (1i16 << j) == (1i16 << j)) by (bit_vector)
        requires
            j < 5,
    ;
    assert forall|k: u32| k < 16 implies #[trigger] has_bit(raw, k) == (k == j) by {
        lemma_set_clear_bit(0, j, k);
    }
    assert(has_bit(raw, 0) == (j == 0));
    assert(has_bit(raw, 1) == (j == 1));
    assert(has_bit(raw, 2) == (j == 2));
    assert(has_bit(raw, 3) == (j == 3));
    assert(has_bit(raw, 4) == (j == 4));
    let f = flags.flag_of(event);
    assert(0i16 | f == f) by (bit_vector);
    assert(platform_flags_upto(raw, flags, 0) == 0);
    let u1 = platform_flags_upto(raw, flags, 1);
    let u2 = platform_flags_upto(raw, flags, 2);
    let u3 = platform_flags_upto(raw, flags, 3);
    let u4 = platform_flags_upto(raw, flags, 4);
    let u5 = platform_flags_upto(raw, flags, 5);
    assert(u1 == if j == 0 { f } else { 0i16 });
    assert(u2 == if j <= 1 { f } else { 0i16 });
    assert(u3 == if j <= 2 { f } else { 0i16 });
    assert(u4 == if j <= 3 { f } else { 0i16 });
    assert(u5 == f);
}

/// Where the platform flags are single bits at distinct positions, each flag
/// alone stands for exactly its own event: `pollerr` for an error, `pollhup`
/// for a hang-up, and so on.
pub proof fn lemma_single_flag_to_event(event: PollEvent, flags: PlatformPollFlags)
    requires
        distinct_single_bits(flags),
    ensures
        events_of_platform(flags.flag_of(event), flags) == event.raw(),
{
    lemma_single_event_to_platform(event, flags);
    lemma_platform_round_trip(event.raw(), flags);
    let raw = event.raw();
    let j = event.index();
    lemma_event_raw_round_trip(event, 0);
    assert(raw & 0x1fi16 == raw) by (bit_vector)
        requires
            raw == 1i16 << j,
            j < 5,
    ;
}

/// Marks the types that name a path of the WASI file system.
pub trait WasiPath {

}

} // verus!
