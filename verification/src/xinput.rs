//! The gamepad connection tracker and scanner.
//!
//! The platform exposes four fixed gamepad slots and no plug-and-play
//! callbacks, so connectivity is inferred by polling: any slot whose state
//! query succeeds is present, any error means absent.  The tracker keeps an
//! 8-bit bitmap of connected slots — the single source of truth for "is
//! slot N connected" — and an is-polling flag so that exactly one polling
//! task runs regardless of how many slots fill and empty.
//!
//! The sweep bodies of the two loops live here as pure functions over the
//! per-slot poll results; the loops themselves (the platform calls, the
//! 500 ms and 1 s delays, the task spawning) belong to the driver.
//!
//! Each tracker carries a ghost history of its discovery and loss
//! registrations.  Its well-formedness [`XInputConnectionTracker::wf`]
//! states the balance law: bit `i` is set exactly when one more discovery
//! than losses has been registered for slot `i`.

use vstd::prelude::*;

use crate::messages::DeviceCommunicationEvent;
use crate::messages::EventView;

verus! {

/// The four fixed gamepad slots, 1-based externally, `0..=3` as a bit
/// position internally.
#[derive(Clone, Copy, Debug, PartialEq, Eq, Structural)]
pub enum XInputControllerIndex {
    XInputController1,
    XInputController2,
    XInputController3,
    XInputController4,
}

impl XInputControllerIndex {
    /// The slot's bit position.
    pub open spec fn spec_slot(self) -> u8 {
        match self {
            XInputControllerIndex::XInputController1 => 0,
            XInputControllerIndex::XInputController2 => 1,
            XInputControllerIndex::XInputController3 => 2,
            XInputControllerIndex::XInputController4 => 3,
        }
    }

    /// The slot's bit position.
    pub fn slot(self) -> (r: u8)
        ensures
            r == self.spec_slot(),
    {
        match self {
            XInputControllerIndex::XInputController1 => 0,
            XInputControllerIndex::XInputController2 => 1,
            XInputControllerIndex::XInputController3 => 2,
            XInputControllerIndex::XInputController4 => 3,
        }
    }
}

/// The slot for a bit position.
pub fn index_from_slot(slot: u8) -> (r: XInputControllerIndex)
    requires
        slot < 4,
    ensures
        r.spec_slot() == slot,
{
    if slot == 0 {
        XInputControllerIndex::XInputController1
    } else if slot == 1 {
        XInputControllerIndex::XInputController2
    } else if slot == 2 {
        XInputControllerIndex::XInputController3
    } else {
        XInputControllerIndex::XInputController4
    }
}

/// The textual address of a slot: its 1-based number as a decimal string.
pub open spec fn spec_slot_address(slot: int) -> Seq<char> {
    if slot == 0 {
        "1"@
    } else if slot == 1 {
        "2"@
    } else if slot == 2 {
        "3"@
    } else {
        "4"@
    }
}

/// The textual address of a controller: its 1-based slot number as a
/// decimal string.
pub fn create_address(index: XInputControllerIndex) -> (r: String)
    ensures
        r@ == spec_slot_address(index.spec_slot() as int),
{
    match index {
        XInputControllerIndex::XInputController1 => String::from_str("1"),
        XInputControllerIndex::XInputController2 => String::from_str("2"),
        XInputControllerIndex::XInputController3 => String::from_str("3"),
        XInputControllerIndex::XInputController4 => String::from_str("4"),
    }
}

/// A discovery or loss registration of one slot, as recorded in the
/// tracker's ghost history.
#[derive(Clone, Copy, Debug, PartialEq, Eq, Structural)]
pub enum SlotEvent {
    Found(u8),
    Lost(u8),
}

/// Whether the slot's bit is set in the bitmap.
pub open spec fn spec_bit(bm: u8, slot: u8) -> bool {
    bm & (1u8 << slot) != 0
}

/// How many discoveries of the slot the history records.
pub open spec fn spec_found_count(h: Seq<SlotEvent>, slot: u8) -> nat
    decreases h.len(),
{
    if h.len() == 0 {
        0
    } else {
        spec_found_count(h.drop_last(), slot) + (if h.last() == SlotEvent::Found(slot) {
            1nat
        } else {
            0nat
        })
    }
}

/// How many losses of the slot the history records.
pub open spec fn spec_lost_count(h: Seq<SlotEvent>, slot: u8) -> nat
    decreases h.len(),
{
    if h.len() == 0 {
        0
    } else {
        spec_lost_count(h.drop_last(), slot) + (if h.last() == SlotEvent::Lost(slot) {
            1nat
        } else {
            0nat
        })
    }
}

/// Appending one registration raises exactly the matching count by one.
pub proof fn lemma_counts_push(h: Seq<SlotEvent>, e: SlotEvent, slot: u8)
    ensures
        spec_found_count(h.push(e), slot) == spec_found_count(h, slot) + (if e
            == SlotEvent::Found(slot) {
            1nat
        } else {
            0nat
        }),
        spec_lost_count(h.push(e), slot) == spec_lost_count(h, slot) + (if e == SlotEvent::Lost(
            slot,
        ) {
            1nat
        } else {
            0nat
        }),
{
    assert(h.push(e).drop_last() =~= h);
}

/// The balance law of a bitmap and a history: only the four slots are
/// tracked, and bit `i` is set exactly when the history holds one more
/// discovery of slot `i` than losses.
pub open spec fn spec_tracker_wf(bm: u8, h: Seq<SlotEvent>) -> bool {
    &&& bm < 16
    &&& forall|s: u8|
        s < 4 ==> ((spec_bit(bm, s) ==> #[trigger] spec_found_count(h, s) == spec_lost_count(h, s)
            + 1) && (!spec_bit(bm, s) ==> spec_found_count(h, s) == spec_lost_count(h, s)))
}

/// Setting a slot's bit touches no other bit and stays within the four
/// tracked slots.
proof fn lemma_set_bit(bm: u8, s: u8, t: u8)
    requires
        s < 4,
        t < 8,
        bm < 16,
    ensures
        spec_bit(bm | (1u8 << s), t) == (spec_bit(bm, t) || t == s),
        (bm | (1u8 << s)) < 16,
{
    assert(((bm | (1u8 << s)) & (1u8 << t) != 0) == ((bm & (1u8 << t) != 0) || t == s))
        by (bit_vector)
        requires
            s < 4,
            t < 8,
            bm < 16,
    ;
    assert((bm | (1u8 << s)) < 16) by (bit_vector)
        requires
            s < 4,
            bm < 16,
    ;
}

/// Clearing a slot's bit touches no other bit and stays within the four
/// tracked slots.
proof fn lemma_clear_bit(bm: u8, s: u8, t: u8)
    requires
        s < 4,
        t < 8,
        bm < 16,
    ensures
        spec_bit(bm & !(1u8 << s), t) == (spec_bit(bm, t) && t != s),
        (bm & !(1u8 << s)) < 16,
{
    assert(((bm & !(1u8 << s)) & (1u8 << t) != 0) == ((bm & (1u8 << t) != 0) && t != s))
        by (bit_vector)
        requires
            s < 4,
            t < 8,
            bm < 16,
    ;
    assert((bm & !(1u8 << s)) < 16) by (bit_vector)
        requires
            s < 4,
            bm < 16,
    ;
}

/// A bitmap of the four tracked slots is zero exactly when every slot's
/// bit is clear.
proof fn lemma_zero_bits(bm: u8)
    requires
        bm < 16,
    ensures
        (bm == 0) == (!spec_bit(bm, 0) && !spec_bit(bm, 1) && !spec_bit(bm, 2) && !spec_bit(
            bm,
            3,
        )),
{
    assert((bm == 0) == ((bm & (1u8 << 0u8) == 0) && (bm & (1u8 << 1u8) == 0) && (bm & (1u8 << 2u8)
        == 0) && (bm & (1u8 << 3u8) == 0))) by (bit_vector)
        requires
            bm < 16,
    ;
}

/// Mathematical view of [`XInputConnectionTracker`].
#[verifier::ext_equal]
pub struct TrackerView {
    /// The bitmap of connected slots.
    pub connected: u8,
    /// Whether a polling task is running.
    pub polling: bool,
    /// Every discovery and loss registration so far, in order.
    pub history: Seq<SlotEvent>,
}

/// The connection tracker: the bitmap of connected slots, the is-polling
/// flag, and the ghost history of registrations.
pub struct XInputConnectionTracker {
    connected_gamepads: u8,
    check_running: bool,
    history: Ghost<Seq<SlotEvent>>,
}

impl View for XInputConnectionTracker {
    type V = TrackerView;

    closed spec fn view(&self) -> TrackerView {
        TrackerView {
            connected: self.connected_gamepads,
            polling: self.check_running,
            history: self.history@,
        }
    }
}

impl Default for XInputConnectionTracker {
    /// A fresh tracker: nothing connected, no poller running.
    fn default() -> (r: XInputConnectionTracker)
        ensures
            r@.connected == 0,
            !r@.polling,
            r@.history == Seq::<SlotEvent>::empty(),
            r.wf(),
    {
        proof {
            assert forall|s: u8| s < 4 implies !spec_bit(0u8, s) by {
                assert(0u8 & (1u8 << s) == 0) by (bit_vector);
            }
        }
        XInputConnectionTracker {
            connected_gamepads: 0,
            check_running: false,
            history: Ghost(Seq::empty()),
        }
    }
}

impl XInputConnectionTracker {
    /// The balance law of [`spec_tracker_wf`], for this tracker: bit `i`
    /// is set exactly when one discovery of slot `i` is outstanding
    /// without a matching loss.
    pub open spec fn wf(&self) -> bool {
        spec_tracker_wf(self@.connected, self@.history)
    }

    /// A fresh tracker: nothing connected, no poller running.
    pub fn new() -> (r: XInputConnectionTracker)
        ensures
            r@.connected == 0,
            !r@.polling,
            r@.history == Seq::<SlotEvent>::empty(),
            r.wf(),
    {
        Self::default()
    }

    /// Whether a polling task is running.
    pub fn is_polling(&self) -> (r: bool)
        ensures
            r == self@.polling,
    {
        self.check_running
    }

    /// Whether the slot is presently connected: a lock-free read of the
    /// bitmap.
    pub fn connected(&self, index: XInputControllerIndex) -> (r: bool)
        ensures
            r == spec_bit(self@.connected, index.spec_slot()),
    {
        self.connected_gamepads & (1u8 << index.slot()) > 0
    }

    /// Marks a slot connected, registering a discovery if it was not
    /// already connected, and decides whether the caller must start the
    /// polling task: exactly when no slot was connected and no poller was
    /// running.
    pub fn add(&mut self, index: XInputControllerIndex) -> (should_start: bool)
        requires
            old(self).wf(),
        ensures
            final(self).wf(),
            final(self)@.connected == old(self)@.connected | (1u8 << index.spec_slot()),
            final(self)@.polling == old(self)@.polling,
            should_start == (old(self)@.connected == 0 && !old(self)@.polling),
            final(self)@.history == (if spec_bit(old(self)@.connected, index.spec_slot()) {
                old(self)@.history
            } else {
                old(self)@.history.push(SlotEvent::Found(index.spec_slot()))
            }),
    {
        let slot = index.slot();
        let connected = self.connected_gamepads;
        let should_start = connected == 0 && !self.check_running;
        if self.connected_gamepads & (1u8 << slot) == 0 {
            self.history = Ghost(self.history@.push(SlotEvent::Found(slot)));
        }
        self.connected_gamepads = connected | (1u8 << slot);
        proof {
            assert forall|t: u8| t < 4 implies {
                &&& (spec_bit(self@.connected, t) ==> spec_found_count(self@.history, t)
                    == spec_lost_count(self@.history, t) + 1)
                &&& (!spec_bit(self@.connected, t) ==> spec_found_count(self@.history, t)
                    == spec_lost_count(self@.history, t))
            } by {
                lemma_set_bit(connected, slot, t);
                if !spec_bit(connected, slot) {
                    lemma_counts_push(old(self)@.history, SlotEvent::Found(slot), t);
                }
            }
            lemma_set_bit(connected, slot, slot);
        }
        should_start
    }

    /// Like [`XInputConnectionTracker::add`], for the caller that also
    /// hands the poller an event sink; the start decision is the same:
    /// exactly when no slot was connected and no poller was running.
    pub fn add_with_sender(&mut self, index: XInputControllerIndex) -> (should_start: bool)
        requires
            old(self).wf(),
        ensures
            final(self).wf(),
            final(self)@.connected == old(self)@.connected | (1u8 << index.spec_slot()),
            final(self)@.polling == old(self)@.polling,
            should_start == (old(self)@.connected == 0 && !old(self)@.polling),
            final(self)@.history == (if spec_bit(old(self)@.connected, index.spec_slot()) {
                old(self)@.history
            } else {
                old(self)@.history.push(SlotEvent::Found(index.spec_slot()))
            }),
    {
        self.add(index)
    }

    /// The polling task's first step: it marks itself running.
    pub fn begin_polling(&mut self)
        requires
            old(self).wf(),
        ensures
            final(self).wf(),
            final(self)@ == (TrackerView { polling: true, ..old(self)@ }),
    {
        self.check_running = true;
    }
}

/// The views of a sequence of events, in order.
pub open spec fn events_view(v: Seq<DeviceCommunicationEvent>) -> Seq<EventView> {
    v.map_values(|e: DeviceCommunicationEvent| e@)
}

/// The disconnect events a polling sweep emits for the first `upto` slots:
/// one per tracked slot whose state query failed, in ascending slot order.
pub open spec fn spec_disconnect_events(bm: u8, present: Seq<bool>, upto: int) -> Seq<EventView>
    decreases upto,
{
    if upto <= 0 {
        Seq::empty()
    } else {
        spec_disconnect_events(bm, present, upto - 1) + (if spec_bit(bm, (upto - 1) as u8)
            && !present[upto - 1] {
            seq![EventView::DeviceDisconnected(spec_slot_address(upto - 1))]
        } else {
            Seq::empty()
        })
    }
}

/// The loss registrations matching [`spec_disconnect_events`].
pub open spec fn spec_lost_history(bm: u8, present: Seq<bool>, upto: int) -> Seq<SlotEvent>
    decreases upto,
{
    if upto <= 0 {
        Seq::empty()
    } else {
        spec_lost_history(bm, present, upto - 1) + (if spec_bit(bm, (upto - 1) as u8) && !present[
            upto - 1
        ] {
            seq![SlotEvent::Lost((upto - 1) as u8)]
        } else {
            Seq::empty()
        })
    }
}

/// The discovery events a scanning sweep emits for the first `upto` slots:
/// one per present slot whose bit is not yet set, in ascending slot order,
/// named and addressed by the slot's 1-based number.
pub open spec fn spec_found_events(bm: u8, present: Seq<bool>, upto: int) -> Seq<EventView>
    decreases upto,
{
    if upto <= 0 {
        Seq::empty()
    } else {
        spec_found_events(bm, present, upto - 1) + (if present[upto - 1] && !spec_bit(
            bm,
            (upto - 1) as u8,
        ) {
            seq![
                EventView::DeviceFound {
                    name: spec_slot_address(upto - 1),
                    address: spec_slot_address(upto - 1),
                },
            ]
        } else {
            Seq::empty()
        })
    }
}

/// The discovery registrations matching [`spec_found_events`].
pub open spec fn spec_found_history(bm: u8, present: Seq<bool>, upto: int) -> Seq<SlotEvent>
    decreases upto,
{
    if upto <= 0 {
        Seq::empty()
    } else {
        spec_found_history(bm, present, upto - 1) + (if present[upto - 1] && !spec_bit(
            bm,
            (upto - 1) as u8,
        ) {
            seq![SlotEvent::Found((upto - 1) as u8)]
        } else {
            Seq::empty()
        })
    }
}

impl XInputConnectionTracker {
    /// One sweep of the polling loop, over the four slots' poll results
    /// (`true`: the state query succeeded).
    ///
    /// Every tracked slot whose query failed is marked disconnected and
    /// reported, in ascending slot order.  When no tracked slot is left —
    /// also when none was tracked to begin with — the is-polling flag is
    /// cleared and the second component asks the polling task to exit.
    #[verifier::loop_isolation(false)]
    pub fn poll_sweep(&mut self, present: &[bool; 4]) -> (r: (
        Vec<DeviceCommunicationEvent>,
        bool,
    ))
        requires
            old(self).wf(),
        ensures
            final(self).wf(),
            forall|s: u8|
                s < 4 ==> spec_bit(final(self)@.connected, s) == (spec_bit(
                    old(self)@.connected,
                    s,
                ) && present@[s as int]),
            events_view(r.0@) == spec_disconnect_events(old(self)@.connected, present@, 4),
            final(self)@.history == old(self)@.history + spec_lost_history(
                old(self)@.connected,
                present@,
                4,
            ),
            final(self)@.polling == (if final(self)@.connected == 0 {
                false
            } else {
                old(self)@.polling
            }),
            r.1 == (final(self)@.connected == 0),
    {
        let ghost bm0 = self.connected_gamepads;
        let ghost h0 = self.history@;
        let mut events: Vec<DeviceCommunicationEvent> = Vec::new();
        let mut i: usize = 0;
        while i < 4
            invariant
                i <= 4,
                self@.polling == old(self)@.polling,
                spec_tracker_wf(self@.connected, self@.history),
                forall|s: u8|
                    i <= s && s < 4 ==> #[trigger] spec_bit(self@.connected, s) == spec_bit(
                        bm0,
                        s,
                    ),
                forall|s: u8|
                    s < i ==> #[trigger] spec_bit(self@.connected, s) == (spec_bit(bm0, s)
                        && present@[s as int]),
                events_view(events@) == spec_disconnect_events(bm0, present@, i as int),
                self@.history == h0 + spec_lost_history(bm0, present@, i as int),
            decreases 4 - i,
        {
            let slot = i as u8;
            let bm = self.connected_gamepads;
            let watched = bm & (1u8 << slot) != 0;
            if watched && !present[i] {
                self.connected_gamepads = bm & !(1u8 << slot);
                self.history = Ghost(self.history@.push(SlotEvent::Lost(slot)));
                events.push(
                    DeviceCommunicationEvent::DeviceDisconnected(
                        create_address(index_from_slot(slot)),
                    ),
                );
                proof {
                    assert forall|t: u8| t < 8 implies spec_bit(self@.connected, t) == (spec_bit(
                        bm,
                        t,
                    ) && t != slot) by {
                        lemma_clear_bit(bm, slot, t);
                    }
                    assert forall|t: u8| t < 4 implies {
                        &&& (spec_bit(self@.connected, t) ==> spec_found_count(self@.history, t)
                            == spec_lost_count(self@.history, t) + 1)
                        &&& (!spec_bit(self@.connected, t) ==> spec_found_count(self@.history, t)
                            == spec_lost_count(self@.history, t))
                    } by {
                        lemma_counts_push(h0 + spec_lost_history(bm0, present@, i as int),
                            SlotEvent::Lost(slot), t);
                    }
                    lemma_clear_bit(bm, slot, slot);
                }
            }
            proof {
                assert forall|s: u8| s < 4 implies spec_bit(self@.connected, s) == (if s < i + 1 {
                    spec_bit(bm0, s) && present@[s as int]
                } else {
                    spec_bit(bm0, s)
                }) by {
                    let before = spec_bit(bm, s);
                    assert(before == (if s < i {
                        spec_bit(bm0, s) && present@[s as int]
                    } else {
                        spec_bit(bm0, s)
                    }));
                }
                assert((i as int) as u8 == slot);
                assert(watched == spec_bit(bm, slot));
                assert(watched == spec_bit(bm0, slot));
                assert(events_view(events@) =~= spec_disconnect_events(
                    bm0,
                    present@,
                    i as int + 1,
                ));
                assert(self@.history =~= h0 + spec_lost_history(bm0, present@, i as int + 1));
                assert(forall|s: u8|
                    s < i + 1 ==> #[trigger] spec_bit(self@.connected, s) == (spec_bit(bm0, s)
                        && present@[s as int]));
            }
            i += 1;
        }
        let exited = self.connected_gamepads == 0;
        if exited {
            self.check_running = false;
        }
        (events, exited)
    }

    /// One sweep of the scanning loop, over the four slots' poll results.
    ///
    /// Every present slot not yet tracked is marked connected and reported
    /// as found, in ascending slot order.  The second component asks the
    /// caller to start the polling task; it holds exactly when the sweep
    /// found something, no slot was tracked before it, and no poller was
    /// running.
    #[verifier::loop_isolation(false)]
    pub fn scan_sweep(&mut self, present: &[bool; 4]) -> (r: (
        Vec<DeviceCommunicationEvent>,
        bool,
    ))
        requires
            old(self).wf(),
        ensures
            final(self).wf(),
            forall|s: u8|
                s < 4 ==> spec_bit(final(self)@.connected, s) == (spec_bit(
                    old(self)@.connected,
                    s,
                ) || present@[s as int]),
            events_view(r.0@) == spec_found_events(old(self)@.connected, present@, 4),
            final(self)@.history == old(self)@.history + spec_found_history(
                old(self)@.connected,
                present@,
                4,
            ),
            final(self)@.polling == old(self)@.polling,
            r.1 == (old(self)@.connected == 0 && !old(self)@.polling && spec_found_events(
                old(self)@.connected,
                present@,
                4,
            ).len() > 0),
    {
        let ghost bm0 = self.connected_gamepads;
        let ghost h0 = self.history@;
        let ghost polling0 = self.check_running;
        let mut events: Vec<DeviceCommunicationEvent> = Vec::new();
        let mut should_start = false;
        let mut i: usize = 0;
        proof {
            lemma_zero_bits(bm0);
        }
        while i < 4
            invariant
                i <= 4,
                self@.polling == polling0,
                spec_tracker_wf(self@.connected, self@.history),
                forall|s: u8|
                    s < 4 ==> #[trigger] spec_bit(self@.connected, s) == (spec_bit(bm0, s) || (s
                        < i && present@[s as int])),
                events_view(events@) == spec_found_events(bm0, present@, i as int),
                self@.history == h0 + spec_found_history(bm0, present@, i as int),
                (spec_found_events(bm0, present@, i as int).len() == 0) <==> (forall|s: u8|
                    s < i ==> !(present@[s as int] && !spec_bit(bm0, s))),
                should_start == (bm0 == 0 && !polling0 && spec_found_events(
                    bm0,
                    present@,
                    i as int,
                ).len() > 0),
            decreases 4 - i,
        {
            let slot = i as u8;
            let index = index_from_slot(slot);
            let ghost cur0 = self@.connected;
            if present[i] && !self.connected(index) {
                let ghost cur = self@.connected;
                proof {
                    lemma_zero_bits(cur);
                }
                let started = self.add(index);
                proof {
                    assert forall|t: u8| t < 8 implies spec_bit(self@.connected, t) == (spec_bit(
                        cur,
                        t,
                    ) || t == slot) by {
                        lemma_set_bit(cur, slot, t);
                    }
                }
                let address = create_address(index);
                let name = create_address(index);
                events.push(DeviceCommunicationEvent::DeviceFound { name, address });
                should_start = should_start || started;
            }
            proof {
                assert forall|s: u8| s < 4 implies spec_bit(self@.connected, s) == (spec_bit(
                    bm0,
                    s,
                ) || (s < i + 1 && present@[s as int])) by {
                    let before = spec_bit(cur0, s);
                    assert(before == (spec_bit(bm0, s) || (s < i && present@[s as int])));
                }
                assert((i as int) as u8 == slot);
                assert(spec_bit(cur0, slot) == spec_bit(bm0, slot));
                assert(events_view(events@) =~= spec_found_events(bm0, present@, i as int + 1));
                assert(self@.history =~= h0 + spec_found_history(bm0, present@, i as int + 1));
                assert(forall|s: u8|
                    s < 4 ==> #[trigger] spec_bit(self@.connected, s) == (spec_bit(bm0, s) || (s
                        < i + 1 && present@[s as int])));
            }
            i += 1;
        }
        (events, should_start)
    }
}

/// Builder of the gamepad communication manager.  The manager itself is
/// the driver's: it owns the event channel, the scanning notifier and the
/// platform probe, none of which the library holds.  The builder carries
/// no configuration; it exists so that the manager is registered like any
/// other communication manager.
#[derive(Clone)]
pub struct XInputDeviceCommunicationManagerBuilder {
}

impl Default for XInputDeviceCommunicationManagerBuilder {
    fn default() -> (r: XInputDeviceCommunicationManagerBuilder)
        ensures
            r == (XInputDeviceCommunicationManagerBuilder {  }),
    {
        XInputDeviceCommunicationManagerBuilder {  }
    }
}

/// A slot is rediscovered only after its previous discovery was matched by
/// a loss: when a scanning sweep is about to report a slot found (it is
/// present and its bit is clear), the history holds as many losses of that
/// slot as discoveries, so every earlier `DeviceFound` for its address was
/// followed by a `DeviceDisconnected` before this next `DeviceFound`.
pub proof fn lemma_refind_needs_loss(t: TrackerView, slot: u8)
    requires
        spec_tracker_wf(t.connected, t.history),
        slot < 4,
        !spec_bit(t.connected, slot),
    ensures
        spec_found_count(t.history, slot) == spec_lost_count(t.history, slot),
{
}

} // verus!
