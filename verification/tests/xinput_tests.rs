//! Tests of the gamepad connection tracker and the sweep logic of its
//! polling and scanning loops.

use buttplug::messages::DeviceCommunicationEvent;
use buttplug::xinput::{XInputConnectionTracker, XInputControllerIndex, create_address};

#[test]
fn addresses_are_one_based_decimal_strings() {
    assert_eq!(create_address(XInputControllerIndex::XInputController1), "1");
    assert_eq!(create_address(XInputControllerIndex::XInputController2), "2");
    assert_eq!(create_address(XInputControllerIndex::XInputController3), "3");
    assert_eq!(create_address(XInputControllerIndex::XInputController4), "4");
}

#[test]
fn add_starts_the_poller_exactly_once() {
    let mut tracker = XInputConnectionTracker::new();
    assert!(!tracker.connected(XInputControllerIndex::XInputController1));
    let start = tracker.add(XInputControllerIndex::XInputController1);
    assert!(start);
    tracker.begin_polling();
    assert!(tracker.is_polling());
    // Further slots do not start a second poller.
    let start = tracker.add(XInputControllerIndex::XInputController3);
    assert!(!start);
    assert!(tracker.connected(XInputControllerIndex::XInputController1));
    assert!(tracker.connected(XInputControllerIndex::XInputController3));
    assert!(!tracker.connected(XInputControllerIndex::XInputController2));
}

#[test]
fn poll_sweep_reports_disconnects_and_exits_when_empty() {
    // Seeded with slots 1 and 3 connected (bit positions 0 and 2).
    let mut tracker = XInputConnectionTracker::new();
    tracker.add(XInputControllerIndex::XInputController1);
    tracker.add(XInputControllerIndex::XInputController3);
    tracker.begin_polling();
    // Slot 3 stops answering: one disconnect, 1-based address "3".
    let (events, exited) = tracker.poll_sweep(&[true, false, false, false]);
    assert_eq!(
        events,
        vec![DeviceCommunicationEvent::DeviceDisconnected("3".to_string())]
    );
    assert!(!exited);
    assert!(tracker.is_polling());
    assert!(tracker.connected(XInputControllerIndex::XInputController1));
    assert!(!tracker.connected(XInputControllerIndex::XInputController3));
    // Slot 1 stops answering too: the poller exits and clears its flag.
    let (events, exited) = tracker.poll_sweep(&[false, false, false, false]);
    assert_eq!(
        events,
        vec![DeviceCommunicationEvent::DeviceDisconnected("1".to_string())]
    );
    assert!(exited);
    assert!(!tracker.is_polling());
}

#[test]
fn poll_sweep_with_empty_bitmap_exits_at_once() {
    let mut tracker = XInputConnectionTracker::new();
    tracker.begin_polling();
    let (events, exited) = tracker.poll_sweep(&[true, true, true, true]);
    assert!(events.is_empty());
    assert!(exited);
    assert!(!tracker.is_polling());
}

#[test]
fn scan_sweep_finds_each_present_slot_once() {
    let mut tracker = XInputConnectionTracker::new();
    let (events, start) = tracker.scan_sweep(&[true, false, true, false]);
    assert_eq!(
        events,
        vec![
            DeviceCommunicationEvent::DeviceFound {
                name: "1".to_string(),
                address: "1".to_string(),
            },
            DeviceCommunicationEvent::DeviceFound {
                name: "3".to_string(),
                address: "3".to_string(),
            },
        ]
    );
    assert!(start);
    assert!(tracker.connected(XInputControllerIndex::XInputController1));
    assert!(tracker.connected(XInputControllerIndex::XInputController3));
    // A second sweep over the same controllers finds nothing new and asks
    // for no second poller.
    let (events, start) = tracker.scan_sweep(&[true, false, true, false]);
    assert!(events.is_empty());
    assert!(!start);
}

#[test]
fn scan_sweep_with_nothing_present_starts_no_poller() {
    let mut tracker = XInputConnectionTracker::new();
    let (events, start) = tracker.scan_sweep(&[false, false, false, false]);
    assert!(events.is_empty());
    assert!(!start);
}

#[test]
fn slot_is_refound_only_after_its_disconnect() {
    let mut tracker = XInputConnectionTracker::new();
    // Found once.
    let (events, _) = tracker.scan_sweep(&[false, true, false, false]);
    assert_eq!(events.len(), 1);
    tracker.begin_polling();
    // Still connected: a new scan does not re-announce it.
    let (events, _) = tracker.scan_sweep(&[false, true, false, false]);
    assert!(events.is_empty());
    // Lost, then found again: exactly one disconnect between the two
    // discovery events.
    let (events, _) = tracker.poll_sweep(&[false, false, false, false]);
    assert_eq!(
        events,
        vec![DeviceCommunicationEvent::DeviceDisconnected("2".to_string())]
    );
    let (events, _) = tracker.scan_sweep(&[false, true, false, false]);
    assert_eq!(events.len(), 1);
}

#[test]
fn add_with_sender_starts_the_poller_exactly_once() {
    // With nothing connected and no poller running, the first slot starts
    // one, sink or no sink.
    let mut tracker = XInputConnectionTracker::new();
    assert!(tracker.add_with_sender(XInputControllerIndex::XInputController2));
    // Both adds defer to a running poller.
    let mut other = XInputConnectionTracker::new();
    other.begin_polling();
    assert!(!other.add(XInputControllerIndex::XInputController2));
    let mut third = XInputConnectionTracker::new();
    third.begin_polling();
    assert!(!third.add_with_sender(XInputControllerIndex::XInputController2));
}
