//! Tests of the dongle session state machine: the cold-start and
//! scan-find-connect sessions, the scanning flag, and the stop-scanning
//! event count.

use buttplug::messages::{DeviceCommunicationEvent, LovenseDeviceCommand,
    LovenseDongleIncomingData, LovenseDongleIncomingMessage, LovenseDongleMessageFunc,
    LovenseDongleMessageType, LovenseDongleOutgoingMessage, LovenseDongleResultCode,
    OutgoingLovenseData};
use buttplug::state_machine::{DongleAction, DongleInput, DongleMachine, LovenseDongleState,
    create_lovense_dongle_machine};

/// Runs entry work until the machine waits for input or has terminated,
/// collecting the actions.
fn settle(machine: &mut DongleMachine) -> Vec<DongleAction> {
    let mut actions = Vec::new();
    while !machine.needs_input() && !machine.is_terminated() {
        let step = machine.advance();
        actions.extend(step);
    }
    actions
}

/// One resting-state input, together with the entry work it triggers.
fn feed(machine: &mut DongleMachine, input: DongleInput) -> Vec<DongleAction> {
    let mut actions = machine.handle(input);
    actions.extend(settle(machine));
    actions
}

fn incoming(
    func: LovenseDongleMessageFunc,
    data: Option<LovenseDongleIncomingData>,
    result: Option<LovenseDongleResultCode>,
) -> DongleInput {
    DongleInput::Dongle(LovenseDongleIncomingMessage {
        func,
        message_type: LovenseDongleMessageType::Toy,
        data,
        result,
    })
}

fn count_scanning_finished(actions: &[DongleAction]) -> usize {
    actions
        .iter()
        .filter(|a| matches!(a, DongleAction::SendEvent(DeviceCommunicationEvent::ScanningFinished)))
        .count()
}

#[test]
fn cold_start_with_preconnected_toy() {
    let mut machine = create_lovense_dongle_machine();
    assert!(machine.needs_input());
    assert!(matches!(
        machine.current_state(),
        LovenseDongleState::WaitForDongle { should_scan: false }
    ));
    // The port scanner hands the dongle over; idle entry probes the toy
    // and demands the mandatory delay.
    let actions = feed(&mut machine, DongleInput::CommMgr(LovenseDeviceCommand::DongleFound));
    assert!(matches!(machine.current_state(), LovenseDongleState::Idle));
    assert_eq!(actions.len(), 2);
    assert!(matches!(
        &actions[0],
        DongleAction::SendOutput(OutgoingLovenseData::Message(LovenseDongleOutgoingMessage {
            func: LovenseDongleMessageFunc::Status,
            message_type: LovenseDongleMessageType::Toy,
            ..
        }))
    ));
    assert!(matches!(actions[1], DongleAction::Delay(250)));
    // The dongle reports a toy already attached.
    let actions = feed(
        &mut machine,
        incoming(
            LovenseDongleMessageFunc::IncomingStatus,
            Some(LovenseDongleIncomingData {
                id: Some("abc".to_string()),
                status: Some(LovenseDongleResultCode::DeviceConnectSuccess),
            }),
            None,
        ),
    );
    assert!(matches!(
        machine.current_state(),
        LovenseDongleState::DeviceLoop { device_id } if device_id == "abc"
    ));
    assert_eq!(
        actions,
        vec![DongleAction::SendEvent(DeviceCommunicationEvent::DeviceFound {
            name: "abc".to_string(),
            address: "abc".to_string(),
        })]
    );
}

#[test]
fn scan_find_connect_session() {
    let mut machine = create_lovense_dongle_machine();
    let actions = feed(&mut machine, DongleInput::CommMgr(LovenseDeviceCommand::DongleFound));
    assert_eq!(actions.len(), 2);
    // Start scanning: the search command goes out and the flag rises.
    let actions = feed(&mut machine, DongleInput::CommMgr(LovenseDeviceCommand::StartScanning));
    assert!(machine.is_scanning());
    assert!(matches!(machine.current_state(), LovenseDongleState::Scanning));
    assert_eq!(actions.len(), 1);
    assert!(matches!(
        &actions[0],
        DongleAction::SendOutput(OutgoingLovenseData::Message(LovenseDongleOutgoingMessage {
            func: LovenseDongleMessageFunc::Search,
            message_type: LovenseDongleMessageType::Toy,
            ..
        }))
    ));
    // A toy turns up: the machine stops the search.
    let actions = feed(
        &mut machine,
        incoming(
            LovenseDongleMessageFunc::ToyData,
            Some(LovenseDongleIncomingData { id: Some("xyz".to_string()), status: None }),
            None,
        ),
    );
    assert!(machine.is_scanning());
    assert_eq!(actions.len(), 1);
    assert!(matches!(
        &actions[0],
        DongleAction::SendOutput(OutgoingLovenseData::Message(LovenseDongleOutgoingMessage {
            func: LovenseDongleMessageFunc::StopSearch,
            message_type: LovenseDongleMessageType::USB,
            ..
        }))
    ));
    // The stop-search ack arrives: scan reported finished, device attached.
    let actions = feed(
        &mut machine,
        incoming(LovenseDongleMessageFunc::Search, None, Some(
            LovenseDongleResultCode::SearchStopped,
        )),
    );
    assert!(!machine.is_scanning());
    assert_eq!(
        actions,
        vec![
            DongleAction::SendEvent(DeviceCommunicationEvent::ScanningFinished),
            DongleAction::SendEvent(DeviceCommunicationEvent::DeviceFound {
                name: "xyz".to_string(),
                address: "xyz".to_string(),
            }),
        ]
    );
    assert!(matches!(
        machine.current_state(),
        LovenseDongleState::DeviceLoop { device_id } if device_id == "xyz"
    ));
}

#[test]
fn stop_scanning_reports_exactly_one_finished_scan() {
    // From idle: the machine runs the top-level stop-search exchange and
    // terminates, with exactly one scanning-finished event.
    let mut machine = create_lovense_dongle_machine();
    feed(&mut machine, DongleInput::CommMgr(LovenseDeviceCommand::DongleFound));
    let actions = feed(&mut machine, DongleInput::CommMgr(LovenseDeviceCommand::StopScanning));
    assert_eq!(count_scanning_finished(&actions), 1);
    assert!(machine.is_terminated());
    assert!(!machine.is_scanning());

    // While a device owns the dongle, scanning is a no-op and is reported
    // finished at once, once.
    let mut machine = create_lovense_dongle_machine();
    feed(&mut machine, DongleInput::CommMgr(LovenseDeviceCommand::DongleFound));
    feed(
        &mut machine,
        incoming(
            LovenseDongleMessageFunc::IncomingStatus,
            Some(LovenseDongleIncomingData {
                id: Some("abc".to_string()),
                status: Some(LovenseDongleResultCode::DeviceConnectSuccess),
            }),
            None,
        ),
    );
    let actions = feed(&mut machine, DongleInput::CommMgr(LovenseDeviceCommand::StopScanning));
    assert_eq!(count_scanning_finished(&actions), 1);
    assert!(matches!(machine.current_state(), LovenseDongleState::DeviceLoop { .. }));

    // While waiting for the dongle, a stop-scanning command only clears
    // the latch: no event.
    let mut machine = create_lovense_dongle_machine();
    let actions = feed(&mut machine, DongleInput::CommMgr(LovenseDeviceCommand::StopScanning));
    assert_eq!(count_scanning_finished(&actions), 0);
}

#[test]
fn wait_for_dongle_latches_scan_request() {
    let mut machine = create_lovense_dongle_machine();
    feed(&mut machine, DongleInput::CommMgr(LovenseDeviceCommand::StartScanning));
    assert!(matches!(
        machine.current_state(),
        LovenseDongleState::WaitForDongle { should_scan: true }
    ));
    // With the latch set, the dongle's arrival opens the search at once.
    let actions = feed(&mut machine, DongleInput::CommMgr(LovenseDeviceCommand::DongleFound));
    assert!(machine.is_scanning());
    assert!(matches!(machine.current_state(), LovenseDongleState::Scanning));
    assert_eq!(actions.len(), 1);
}

#[test]
fn device_loop_forwards_and_detaches() {
    let mut machine = create_lovense_dongle_machine();
    feed(&mut machine, DongleInput::CommMgr(LovenseDeviceCommand::DongleFound));
    feed(
        &mut machine,
        incoming(
            LovenseDongleMessageFunc::IncomingStatus,
            Some(LovenseDongleIncomingData {
                id: Some("abc".to_string()),
                status: Some(LovenseDongleResultCode::DeviceConnectSuccess),
            }),
            None,
        ),
    );
    // A device write request is forwarded verbatim to the dongle.
    let actions = feed(
        &mut machine,
        DongleInput::Device(OutgoingLovenseData::Raw("Vibrate:10;".to_string())),
    );
    assert_eq!(
        actions,
        vec![DongleAction::SendOutput(OutgoingLovenseData::Raw("Vibrate:10;".to_string()))]
    );
    // Any other dongle message is forwarded to the device.
    let actions = feed(
        &mut machine,
        incoming(LovenseDongleMessageFunc::ToyData, None, None),
    );
    assert_eq!(actions.len(), 1);
    assert!(matches!(&actions[0], DongleAction::SendToDevice(_)));
    // A disconnect notification detaches the device: back to idle, which
    // probes anew.
    let actions = feed(
        &mut machine,
        incoming(
            LovenseDongleMessageFunc::IncomingStatus,
            Some(LovenseDongleIncomingData {
                id: Some("abc".to_string()),
                status: Some(LovenseDongleResultCode::DeviceDisconnected),
            }),
            None,
        ),
    );
    assert!(matches!(machine.current_state(), LovenseDongleState::Idle));
    assert_eq!(actions.len(), 2);
}

#[test]
fn channel_loss_resets_to_wait_for_dongle() {
    let mut machine = create_lovense_dongle_machine();
    feed(&mut machine, DongleInput::CommMgr(LovenseDeviceCommand::DongleFound));
    let actions = feed(&mut machine, DongleInput::Disconnect);
    assert!(actions.is_empty());
    assert!(matches!(
        machine.current_state(),
        LovenseDongleState::WaitForDongle { should_scan: false }
    ));
    // With no dongle ever handed over, a closed command channel ends the
    // machine for good.
    let mut machine = create_lovense_dongle_machine();
    feed(&mut machine, DongleInput::Disconnect);
    assert!(machine.is_terminated());
}

#[test]
fn scanning_flag_matches_state_through_a_session() {
    let mut machine = create_lovense_dongle_machine();
    assert!(!machine.is_scanning());
    feed(&mut machine, DongleInput::CommMgr(LovenseDeviceCommand::DongleFound));
    assert!(!machine.is_scanning());
    feed(&mut machine, DongleInput::CommMgr(LovenseDeviceCommand::StartScanning));
    assert!(machine.is_scanning());
    feed(
        &mut machine,
        incoming(
            LovenseDongleMessageFunc::ToyData,
            Some(LovenseDongleIncomingData { id: Some("t".to_string()), status: None }),
            None,
        ),
    );
    // Awaiting the stop-search ack still counts as scanning.
    assert!(machine.is_scanning());
    feed(
        &mut machine,
        incoming(LovenseDongleMessageFunc::Search, None, Some(
            LovenseDongleResultCode::SearchStopped,
        )),
    );
    assert!(!machine.is_scanning());
}

#[test]
fn scanning_flag_falls_when_a_search_is_abandoned() {
    // The search ends without a find: back to idle, flag down.
    let mut machine = create_lovense_dongle_machine();
    feed(&mut machine, DongleInput::CommMgr(LovenseDeviceCommand::DongleFound));
    feed(&mut machine, DongleInput::CommMgr(LovenseDeviceCommand::StartScanning));
    assert!(machine.is_scanning());
    feed(
        &mut machine,
        incoming(LovenseDongleMessageFunc::ToyData, None, Some(
            LovenseDongleResultCode::SearchStopped,
        )),
    );
    assert!(matches!(machine.current_state(), LovenseDongleState::Idle));
    assert!(!machine.is_scanning());

    // A channel is lost mid-search: back to wait-for-dongle, flag down.
    let mut machine = create_lovense_dongle_machine();
    feed(&mut machine, DongleInput::CommMgr(LovenseDeviceCommand::DongleFound));
    feed(&mut machine, DongleInput::CommMgr(LovenseDeviceCommand::StartScanning));
    feed(&mut machine, DongleInput::Disconnect);
    assert!(matches!(
        machine.current_state(),
        LovenseDongleState::WaitForDongle { should_scan: false }
    ));
    assert!(!machine.is_scanning());

    // Lost while awaiting the stop-search ack: likewise down.
    let mut machine = create_lovense_dongle_machine();
    feed(&mut machine, DongleInput::CommMgr(LovenseDeviceCommand::DongleFound));
    feed(&mut machine, DongleInput::CommMgr(LovenseDeviceCommand::StartScanning));
    feed(
        &mut machine,
        incoming(
            LovenseDongleMessageFunc::ToyData,
            Some(LovenseDongleIncomingData { id: Some("t".to_string()), status: None }),
            None,
        ),
    );
    assert!(machine.is_scanning());
    feed(&mut machine, DongleInput::Disconnect);
    assert!(!machine.is_scanning());
}
