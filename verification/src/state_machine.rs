//! The dongle session state machine.
//!
//! A single physical dongle is driven through wait-for-hardware, idle,
//! scanning and device-attached phases.  The machine arbitrates three
//! inbound streams (external commands, dongle protocol messages, device
//! write requests) against one outbound write stream and one event stream.
//!
//! The machine here is the pure transition logic: it consumes one input at
//! a time and returns the actions the driver must perform (writes to the
//! dongle, events upward, forwards to the attached device, delays).  The
//! channels, the fair select over them and the timer live with the driver;
//! every suspension point of the session loop is a boundary between two
//! calls into this machine.
//!
//! Each state's behaviour is split in two:
//! * [`DongleMachine::advance`] performs the state's entry work (the probe
//!   and mandatory delay of `Idle`, the search or stop-search writes, the
//!   device announcement of `DeviceLoop`) and moves transient states on;
//! * [`DongleMachine::handle`] consumes one input in a state that waits
//!   for input.
//!
//! The whole transition relation is the pair of spec functions
//! [`spec_advance`] and [`spec_handle`]; the executable methods are proved
//! to implement them exactly.

use vstd::prelude::*;

use crate::messages::{
    DeviceCommunicationEvent, EventView, IncomingMessageView, LovenseDeviceCommand,
    LovenseDongleIncomingMessage, LovenseDongleMessageFunc, LovenseDongleOutgoingMessage,
    LovenseDongleResultCode, OutgoingDataView, OutgoingLovenseData, spec_search_command,
    spec_status_probe, spec_stop_search_command, search_command, status_probe,
    stop_search_command,
};

verus! {

/// The dongle locks up if it is written to again less than 250 ms after
/// the idle-entry status probe; the driver must delay at least this long.
pub const IDLE_PROBE_DELAY_MS: u64 = 250;

/// The states of the dongle session machine.
///
/// `WaitForDongle` buffers scan requests in its `should_scan` latch until
/// the port scanner hands over a dongle.  `StopScanningAndConnect` and
/// `DeviceLoop` carry the id of the toy they concern.  `Terminated` is the
/// terminal state: the machine was shut down, or a top-level stop-scanning
/// request ran to completion.
#[derive(Clone, Debug, PartialEq, Eq)]
pub enum LovenseDongleState {
    WaitForDongle { should_scan: bool },
    Idle,
    StartScanning,
    Scanning,
    StopScanning,
    StopScanningAndConnect { device_id: String },
    DeviceLoop { device_id: String },
    Terminated,
}

/// Mathematical view of [`LovenseDongleState`].
#[verifier::ext_equal]
pub enum StateView {
    WaitForDongle { should_scan: bool },
    Idle,
    StartScanning,
    Scanning,
    StopScanning,
    StopScanningAndConnect { device_id: Seq<char> },
    DeviceLoop { device_id: Seq<char> },
    Terminated,
}

impl View for LovenseDongleState {
    type V = StateView;

    open spec fn view(&self) -> StateView {
        match self {
            LovenseDongleState::WaitForDongle { should_scan } => (StateView::WaitForDongle {
                should_scan: *should_scan,
            }),
            LovenseDongleState::Idle => StateView::Idle,
            LovenseDongleState::StartScanning => StateView::StartScanning,
            LovenseDongleState::Scanning => StateView::Scanning,
            LovenseDongleState::StopScanning => StateView::StopScanning,
            LovenseDongleState::StopScanningAndConnect { device_id } => (
            StateView::StopScanningAndConnect { device_id: device_id@ }),
            LovenseDongleState::DeviceLoop { device_id } => (StateView::DeviceLoop {
                device_id: device_id@,
            }),
            LovenseDongleState::Terminated => StateView::Terminated,
        }
    }
}

/// One arrival at the machine's select point.
#[derive(Clone, Debug, PartialEq, Eq)]
pub enum DongleInput {
    /// An external command from the communication manager.
    CommMgr(LovenseDeviceCommand),
    /// A protocol message from the dongle.
    Dongle(LovenseDongleIncomingMessage),
    /// A write request from the attached device.
    Device(OutgoingLovenseData),
    /// Some inbound channel closed: shutdown or hardware loss.
    Disconnect,
}

/// Mathematical view of [`DongleInput`].
#[verifier::ext_equal]
pub enum InputView {
    CommMgr(LovenseDeviceCommand),
    Dongle(IncomingMessageView),
    Device(OutgoingDataView),
    Disconnect,
}

impl View for DongleInput {
    type V = InputView;

    open spec fn view(&self) -> InputView {
        match self {
            DongleInput::CommMgr(c) => InputView::CommMgr(*c),
            DongleInput::Dongle(m) => InputView::Dongle(m@),
            DongleInput::Device(d) => InputView::Device(d@),
            DongleInput::Disconnect => InputView::Disconnect,
        }
    }
}

/// One action the driver must perform on the machine's behalf, in order.
#[derive(Clone, Debug, PartialEq, Eq)]
pub enum DongleAction {
    /// Write to the dongle.
    SendOutput(OutgoingLovenseData),
    /// Emit a discovery event upward.
    SendEvent(DeviceCommunicationEvent),
    /// Forward a dongle message to the attached device's inbound channel.
    SendToDevice(LovenseDongleIncomingMessage),
    /// Sleep for the given number of milliseconds before going on.
    Delay(u64),
}

/// Mathematical view of [`DongleAction`].
#[verifier::ext_equal]
pub enum ActionView {
    SendOutput(OutgoingDataView),
    SendEvent(EventView),
    SendToDevice(IncomingMessageView),
    Delay(u64),
}

impl View for DongleAction {
    type V = ActionView;

    open spec fn view(&self) -> ActionView {
        match self {
            DongleAction::SendOutput(d) => ActionView::SendOutput(d@),
            DongleAction::SendEvent(e) => ActionView::SendEvent(e@),
            DongleAction::SendToDevice(m) => ActionView::SendToDevice(m@),
            DongleAction::Delay(ms) => ActionView::Delay(*ms),
        }
    }
}

/// The views of a sequence of actions, in order.
pub open spec fn actions_view(v: Seq<DongleAction>) -> Seq<ActionView> {
    v.map_values(|a: DongleAction| a@)
}

/// Mathematical view of [`DongleMachine`].
#[verifier::ext_equal]
pub struct MachineView {
    /// The current state.
    pub state: StateView,
    /// Whether the current state's entry work has been performed.
    pub entered: bool,
    /// The shared scanning flag, write-owned by the machine.
    pub is_scanning: bool,
}

/// The dongle session machine: the current state, whether that state's
/// entry work was done, and the scanning flag the machine owns.
#[derive(Clone, Debug)]
pub struct DongleMachine {
    state: LovenseDongleState,
    entered: bool,
    is_scanning: bool,
}

impl View for DongleMachine {
    type V = MachineView;

    closed spec fn view(&self) -> MachineView {
        MachineView { state: self.state@, entered: self.entered, is_scanning: self.is_scanning }
    }
}

/// The machine as first created: waiting for a dongle, no scan requested,
/// not scanning.
pub open spec fn spec_initial_machine() -> MachineView {
    MachineView {
        state: StateView::WaitForDongle { should_scan: false },
        entered: true,
        is_scanning: false,
    }
}

/// True when the machine rests in a state that waits for input; false in
/// transient states whose entry work is pending and in `Terminated`.
pub open spec fn spec_needs_input(m: MachineView) -> bool {
    m.entered && match m.state {
        StateView::WaitForDongle { .. } => true,
        StateView::Idle => true,
        StateView::Scanning => true,
        StateView::StopScanningAndConnect { .. } => true,
        StateView::DeviceLoop { .. } => true,
        _ => false,
    }
}

/// Entry work of the current state: the machine performed, actions emitted.
///
/// * `Idle` probes for a pre-attached toy and demands the mandatory delay.
/// * `StartScanning` raises the scanning flag, writes the search command
///   and moves on to `Scanning` unconditionally.
/// * `StopScanning` writes the stop-search command, clears the flag, emits
///   `ScanningFinished` and terminates the machine.
/// * `StopScanningAndConnect` writes the stop-search command, then waits
///   for the matching ack.
/// * `DeviceLoop` announces the attached device upward.
///
/// A state whose entry work is already done is left unchanged.
pub open spec fn spec_advance(m: MachineView) -> (MachineView, Seq<ActionView>) {
    if m.entered {
        (m, Seq::<ActionView>::empty())
    } else {
        match m.state {
            StateView::WaitForDongle { .. } => (
                MachineView { entered: true, ..m },
                Seq::<ActionView>::empty(),
            ),
            StateView::Idle => (
                MachineView { entered: true, ..m },
                seq![
                    ActionView::SendOutput(OutgoingDataView::Message(spec_status_probe())),
                    ActionView::Delay(IDLE_PROBE_DELAY_MS),
                ],
            ),
            StateView::StartScanning => (
                MachineView { state: StateView::Scanning, entered: false, is_scanning: true },
                seq![ActionView::SendOutput(OutgoingDataView::Message(spec_search_command()))],
            ),
            StateView::Scanning => (
                MachineView { entered: true, ..m },
                Seq::<ActionView>::empty(),
            ),
            StateView::StopScanning => (
                MachineView { state: StateView::Terminated, entered: false, is_scanning: false },
                seq![
                    ActionView::SendOutput(OutgoingDataView::Message(spec_stop_search_command())),
                    ActionView::SendEvent(EventView::ScanningFinished),
                ],
            ),
            StateView::StopScanningAndConnect { .. } => (
                MachineView { entered: true, ..m },
                seq![
                    ActionView::SendOutput(OutgoingDataView::Message(spec_stop_search_command())),
                ],
            ),
            StateView::DeviceLoop { device_id } => (
                MachineView { entered: true, ..m },
                seq![
                    ActionView::SendEvent(EventView::DeviceFound {
                        name: device_id,
                        address: device_id,
                    }),
                ],
            ),
            StateView::Terminated => (
                MachineView { entered: true, ..m },
                Seq::<ActionView>::empty(),
            ),
        }
    }
}

/// Handling of one input in a state that waits for input.
///
/// Faithful to the session protocol:
/// * `WaitForDongle` latches scan requests and builds the session once the
///   dongle appears; a closed command channel ends the machine for good.
/// * `Idle` reacts to an unsolicited connect notification, to scan
///   commands, and to channel loss; everything else is discarded.  A
///   connect notification without a device id is malformed and discarded.
/// * `Scanning` reacts only to toy data: a found toy moves to
///   `StopScanningAndConnect`, a bare search-ended result closes the
///   search — the scanning flag falls — and returns to `Idle` (which
///   probes anew).
/// * `StopScanningAndConnect` waits for the stop-search ack, then clears
///   the scanning flag, reports the finished scan and attaches the device.
/// * `DeviceLoop` forwards device write requests to the dongle and dongle
///   messages to the device, detaches on a disconnect notification, and
///   answers scan commands with an immediate `ScanningFinished` (scanning
///   is a no-op while a device owns the dongle).
/// * Channel loss in any session state falls back to `WaitForDongle`; a
///   search open at that moment is abandoned and the scanning flag falls.
///
/// An input arriving in a state that does not wait (transient states,
/// `Terminated`) is discarded unchanged.
pub open spec fn spec_handle(m: MachineView, i: InputView) -> (MachineView, Seq<ActionView>) {
    let stay = (m, Seq::<ActionView>::empty());
    if !spec_needs_input(m) {
        stay
    } else {
        match m.state {
            StateView::WaitForDongle { should_scan } => match i {
                InputView::CommMgr(cmd) => match cmd {
                    LovenseDeviceCommand::DongleFound => (
                        MachineView {
                            state: if should_scan {
                                StateView::StartScanning
                            } else {
                                StateView::Idle
                            },
                            entered: false,
                            is_scanning: m.is_scanning,
                        },
                        Seq::<ActionView>::empty(),
                    ),
                    LovenseDeviceCommand::StartScanning => (
                        MachineView {
                            state: StateView::WaitForDongle { should_scan: true },
                            ..m
                        },
                        Seq::<ActionView>::empty(),
                    ),
                    LovenseDeviceCommand::StopScanning => (
                        MachineView {
                            state: StateView::WaitForDongle { should_scan: false },
                            ..m
                        },
                        Seq::<ActionView>::empty(),
                    ),
                },
                InputView::Disconnect => (
                    MachineView { state: StateView::Terminated, entered: true, ..m },
                    Seq::<ActionView>::empty(),
                ),
                _ => stay,
            },
            StateView::Idle => match i {
                InputView::Dongle(msg) => {
                    if msg.func == LovenseDongleMessageFunc::IncomingStatus {
                        match msg.data {
                            Option::Some(d) => match (d.status, d.id) {
                                (
                                    Option::Some(LovenseDongleResultCode::DeviceConnectSuccess),
                                    Option::Some(id),
                                ) => (
                                    MachineView {
                                        state: StateView::DeviceLoop { device_id: id },
                                        entered: false,
                                        is_scanning: m.is_scanning,
                                    },
                                    Seq::<ActionView>::empty(),
                                ),
                                _ => stay,
                            },
                            Option::None => stay,
                        }
                    } else {
                        stay
                    }
                },
                InputView::CommMgr(cmd) => match cmd {
                    LovenseDeviceCommand::StartScanning => (
                        MachineView { state: StateView::StartScanning, entered: false, ..m },
                        Seq::<ActionView>::empty(),
                    ),
                    LovenseDeviceCommand::StopScanning => (
                        MachineView { state: StateView::StopScanning, entered: false, ..m },
                        Seq::<ActionView>::empty(),
                    ),
                    LovenseDeviceCommand::DongleFound => stay,
                },
                InputView::Disconnect => (
                    MachineView {
                        state: StateView::WaitForDongle { should_scan: false },
                        entered: true,
                        ..m
                    },
                    Seq::<ActionView>::empty(),
                ),
                InputView::Device(_) => stay,
            },
            StateView::Scanning => match i {
                InputView::Dongle(msg) => {
                    if msg.func == LovenseDongleMessageFunc::ToyData {
                        match msg.data {
                            Option::Some(d) => match d.id {
                                Option::Some(id) => (
                                    MachineView {
                                        state: StateView::StopScanningAndConnect {
                                            device_id: id,
                                        },
                                        entered: false,
                                        is_scanning: m.is_scanning,
                                    },
                                    Seq::<ActionView>::empty(),
                                ),
                                Option::None => stay,
                            },
                            Option::None => {
                                if msg.result is Some {
                                    (
                                        MachineView {
                                            state: StateView::Idle,
                                            entered: false,
                                            is_scanning: false,
                                        },
                                        Seq::<ActionView>::empty(),
                                    )
                                } else {
                                    stay
                                }
                            },
                        }
                    } else {
                        stay
                    }
                },
                InputView::Disconnect => (
                    MachineView {
                        state: StateView::WaitForDongle { should_scan: false },
                        entered: true,
                        is_scanning: false,
                    },
                    Seq::<ActionView>::empty(),
                ),
                _ => stay,
            },
            StateView::StopScanningAndConnect { device_id } => match i {
                InputView::Dongle(msg) => {
                    if msg.func == LovenseDongleMessageFunc::Search && msg.result == Option::Some(
                        LovenseDongleResultCode::SearchStopped,
                    ) {
                        (
                            MachineView {
                                state: StateView::DeviceLoop { device_id },
                                entered: false,
                                is_scanning: false,
                            },
                            seq![ActionView::SendEvent(EventView::ScanningFinished)],
                        )
                    } else {
                        stay
                    }
                },
                InputView::Disconnect => (
                    MachineView {
                        state: StateView::WaitForDongle { should_scan: false },
                        entered: true,
                        is_scanning: false,
                    },
                    Seq::<ActionView>::empty(),
                ),
                _ => stay,
            },
            StateView::DeviceLoop { .. } => match i {
                InputView::Device(data) => (m, seq![ActionView::SendOutput(data)]),
                InputView::Dongle(msg) => {
                    if msg.func == LovenseDongleMessageFunc::IncomingStatus {
                        match msg.data {
                            Option::Some(d) => {
                                if d.status == Option::Some(
                                    LovenseDongleResultCode::DeviceDisconnected,
                                ) {
                                    (
                                        MachineView { state: StateView::Idle, entered: false, ..m },
                                        Seq::<ActionView>::empty(),
                                    )
                                } else {
                                    stay
                                }
                            },
                            Option::None => stay,
                        }
                    } else {
                        (m, seq![ActionView::SendToDevice(msg)])
                    }
                },
                InputView::CommMgr(cmd) => match cmd {
                    LovenseDeviceCommand::StartScanning => (
                        m,
                        seq![ActionView::SendEvent(EventView::ScanningFinished)],
                    ),
                    LovenseDeviceCommand::StopScanning => (
                        m,
                        seq![ActionView::SendEvent(EventView::ScanningFinished)],
                    ),
                    LovenseDeviceCommand::DongleFound => stay,
                },
                InputView::Disconnect => (
                    MachineView {
                        state: StateView::WaitForDongle { should_scan: false },
                        entered: true,
                        ..m
                    },
                    Seq::<ActionView>::empty(),
                ),
            },
            _ => stay,
        }
    }
}

impl DongleMachine {
    /// A fresh machine, waiting for the port scanner to hand a dongle over.
    pub fn new() -> (r: DongleMachine)
        ensures
            r@ == spec_initial_machine(),
    {
        DongleMachine {
            state: LovenseDongleState::WaitForDongle { should_scan: false },
            entered: true,
            is_scanning: false,
        }
    }

    /// True when the machine rests in a state that waits for input.
    pub fn needs_input(&self) -> (r: bool)
        ensures
            r == spec_needs_input(self@),
    {
        self.entered && match &self.state {
            LovenseDongleState::WaitForDongle { .. } => true,
            LovenseDongleState::Idle => true,
            LovenseDongleState::Scanning => true,
            LovenseDongleState::StopScanningAndConnect { .. } => true,
            LovenseDongleState::DeviceLoop { .. } => true,
            _ => false,
        }
    }

    /// True once the machine has ended, by shutdown or by a completed
    /// top-level stop-scanning request.
    pub fn is_terminated(&self) -> (r: bool)
        ensures
            r == (self@.state is Terminated),
    {
        match &self.state {
            LovenseDongleState::Terminated => true,
            _ => false,
        }
    }

    /// The scanning flag: the machine's view of the shared atomic that the
    /// rest of the server reads.
    pub fn is_scanning(&self) -> (r: bool)
        ensures
            r == self@.is_scanning,
    {
        self.is_scanning
    }

    /// The current state, for observation by the driver and by tests.
    pub fn current_state(&self) -> (r: &LovenseDongleState)
        ensures
            r@ == self@.state,
    {
        &self.state
    }

    /// Performs the entry work of the current state; see [`spec_advance`].
    ///
    /// The driver calls this until [`DongleMachine::needs_input`] holds or
    /// the machine terminates, performing the returned actions in order.
    pub fn advance(&mut self) -> (r: Vec<DongleAction>)
        ensures
            final(self)@ == spec_advance(old(self)@).0,
            actions_view(r@) == spec_advance(old(self)@).1,
    {
        let ghost m0 = self@;
        let mut r: Vec<DongleAction> = Vec::new();
        if self.entered {
            assert(actions_view(r@) =~= spec_advance(m0).1);
            return r;
        }
        match &self.state {
            LovenseDongleState::WaitForDongle { .. } => {
                self.entered = true;
            },
            LovenseDongleState::Idle => {
                r.push(DongleAction::SendOutput(OutgoingLovenseData::Message(status_probe())));
                r.push(DongleAction::Delay(IDLE_PROBE_DELAY_MS));
                self.entered = true;
            },
            LovenseDongleState::StartScanning => {
                self.is_scanning = true;
                r.push(DongleAction::SendOutput(OutgoingLovenseData::Message(search_command())));
                self.state = LovenseDongleState::Scanning;
                self.entered = false;
            },
            LovenseDongleState::Scanning => {
                self.entered = true;
            },
            LovenseDongleState::StopScanning => {
                r.push(
                    DongleAction::SendOutput(OutgoingLovenseData::Message(stop_search_command())),
                );
                self.is_scanning = false;
                r.push(DongleAction::SendEvent(DeviceCommunicationEvent::ScanningFinished));
                self.state = LovenseDongleState::Terminated;
                self.entered = false;
            },
            LovenseDongleState::StopScanningAndConnect { .. } => {
                r.push(
                    DongleAction::SendOutput(OutgoingLovenseData::Message(stop_search_command())),
                );
                self.entered = true;
            },
            LovenseDongleState::DeviceLoop { device_id } => {
                let name = device_id.clone();
                let address = device_id.clone();
                r.push(
                    DongleAction::SendEvent(DeviceCommunicationEvent::DeviceFound {
                        name,
                        address,
                    }),
                );
                self.entered = true;
            },
            LovenseDongleState::Terminated => {
                self.entered = true;
            },
        }
        assert(actions_view(r@) =~= spec_advance(m0).1);
        r
    }

    /// Consumes one input; see [`spec_handle`].
    pub fn handle(&mut self, input: DongleInput) -> (r: Vec<DongleAction>)
        ensures
            final(self)@ == spec_handle(old(self)@, input@).0,
            actions_view(r@) == spec_handle(old(self)@, input@).1,
    {
        let ghost m0 = self@;
        let ghost i0 = input@;
        let mut r: Vec<DongleAction> = Vec::new();
        if !self.needs_input() {
            assert(actions_view(r@) =~= spec_handle(m0, i0).1);
            return r;
        }
        let mut st = LovenseDongleState::Terminated;
        core::mem::swap(&mut st, &mut self.state);
        match st {
            LovenseDongleState::WaitForDongle { should_scan } => match input {
                DongleInput::CommMgr(cmd) => match cmd {
                    LovenseDeviceCommand::DongleFound => {
                        self.state = if should_scan {
                            LovenseDongleState::StartScanning
                        } else {
                            LovenseDongleState::Idle
                        };
                        self.entered = false;
                    },
                    LovenseDeviceCommand::StartScanning => {
                        self.state = LovenseDongleState::WaitForDongle { should_scan: true };
                    },
                    LovenseDeviceCommand::StopScanning => {
                        self.state = LovenseDongleState::WaitForDongle { should_scan: false };
                    },
                },
                DongleInput::Disconnect => {
                    self.state = LovenseDongleState::Terminated;
                },
                _ => {
                    self.state = LovenseDongleState::WaitForDongle { should_scan };
                },
            },
            LovenseDongleState::Idle => match input {
                DongleInput::Dongle(msg) => {
                    self.state = LovenseDongleState::Idle;
                    if msg.func == LovenseDongleMessageFunc::IncomingStatus {
                        match msg.data {
                            Some(d) => match (d.status, d.id) {
                                (
                                    Some(LovenseDongleResultCode::DeviceConnectSuccess),
                                    Some(id),
                                ) => {
                                    self.state = LovenseDongleState::DeviceLoop { device_id: id };
                                    self.entered = false;
                                },
                                _ => {},
                            },
                            None => {},
                        }
                    }
                },
                DongleInput::CommMgr(cmd) => match cmd {
                    LovenseDeviceCommand::StartScanning => {
                        self.state = LovenseDongleState::StartScanning;
                        self.entered = false;
                    },
                    LovenseDeviceCommand::StopScanning => {
                        self.state = LovenseDongleState::StopScanning;
                        self.entered = false;
                    },
                    LovenseDeviceCommand::DongleFound => {
                        self.state = LovenseDongleState::Idle;
                    },
                },
                DongleInput::Disconnect => {
                    self.state = LovenseDongleState::WaitForDongle { should_scan: false };
                },
                DongleInput::Device(_) => {
                    self.state = LovenseDongleState::Idle;
                },
            },
            LovenseDongleState::Scanning => match input {
                DongleInput::Dongle(msg) => {
                    self.state = LovenseDongleState::Scanning;
                    if msg.func == LovenseDongleMessageFunc::ToyData {
                        match msg.data {
                            Some(d) => match d.id {
                                Some(id) => {
                                    self.state = LovenseDongleState::StopScanningAndConnect {
                                        device_id: id,
                                    };
                                    self.entered = false;
                                },
                                None => {},
                            },
                            None => {
                                if msg.result.is_some() {
                                    self.state = LovenseDongleState::Idle;
                                    self.entered = false;
                                    self.is_scanning = false;
                                }
                            },
                        }
                    }
                },
                DongleInput::Disconnect => {
                    self.state = LovenseDongleState::WaitForDongle { should_scan: false };
                    self.is_scanning = false;
                },
                _ => {
                    self.state = LovenseDongleState::Scanning;
                },
            },
            LovenseDongleState::StopScanningAndConnect { device_id } => match input {
                DongleInput::Dongle(msg) => {
                    let ack = msg.func == LovenseDongleMessageFunc::Search && match msg.result {
                        Some(LovenseDongleResultCode::SearchStopped) => true,
                        _ => false,
                    };
                    if ack {
                        self.is_scanning = false;
                        r.push(
                            DongleAction::SendEvent(DeviceCommunicationEvent::ScanningFinished),
                        );
                        self.state = LovenseDongleState::DeviceLoop { device_id };
                        self.entered = false;
                    } else {
                        self.state = LovenseDongleState::StopScanningAndConnect { device_id };
                    }
                },
                DongleInput::Disconnect => {
                    self.state = LovenseDongleState::WaitForDongle { should_scan: false };
                    self.is_scanning = false;
                },
                _ => {
                    self.state = LovenseDongleState::StopScanningAndConnect { device_id };
                },
            },
            LovenseDongleState::DeviceLoop { device_id } => match input {
                DongleInput::Device(data) => {
                    r.push(DongleAction::SendOutput(data));
                    self.state = LovenseDongleState::DeviceLoop { device_id };
                },
                DongleInput::Dongle(msg) => {
                    self.state = LovenseDongleState::DeviceLoop { device_id };
                    if msg.func == LovenseDongleMessageFunc::IncomingStatus {
                        let gone = match &msg.data {
                            Some(d) => match d.status {
                                Some(LovenseDongleResultCode::DeviceDisconnected) => true,
                                _ => false,
                            },
                            None => false,
                        };
                        if gone {
                            self.state = LovenseDongleState::Idle;
                            self.entered = false;
                        }
                    } else {
                        r.push(DongleAction::SendToDevice(msg));
                    }
                },
                DongleInput::CommMgr(cmd) => {
                    self.state = LovenseDongleState::DeviceLoop { device_id };
                    match cmd {
                        LovenseDeviceCommand::StartScanning => {
                            r.push(
                                DongleAction::SendEvent(
                                    DeviceCommunicationEvent::ScanningFinished,
                                ),
                            );
                        },
                        LovenseDeviceCommand::StopScanning => {
                            r.push(
                                DongleAction::SendEvent(
                                    DeviceCommunicationEvent::ScanningFinished,
                                ),
                            );
                        },
                        LovenseDeviceCommand::DongleFound => {},
                    }
                },
                DongleInput::Disconnect => {
                    self.state = LovenseDongleState::WaitForDongle { should_scan: false };
                },
            },
            _ => {
                self.state = st;
            },
        }
        assert(actions_view(r@) =~= spec_handle(m0, i0).1);
        r
    }
}

/// The scanning flag agrees with the state: it is raised exactly in the
/// two phases in which a search is open on the dongle.
pub open spec fn spec_scanning_flag_ok(m: MachineView) -> bool {
    m.is_scanning <==> (m.state is Scanning || m.state is StopScanningAndConnect)
}

/// The agreement of flag and state holds from the start: a fresh machine
/// waits for a dongle and is not scanning.
pub proof fn lemma_scanning_flag_initial()
    ensures
        spec_scanning_flag_ok(spec_initial_machine()),
{
}

/// Entry work never upsets the agreement between the scanning flag and
/// the state: raising the flag and opening the search happen in one step,
/// as do clearing it and leaving the search phase.
pub proof fn lemma_scanning_flag_advance(m: MachineView)
    requires
        spec_scanning_flag_ok(m),
    ensures
        spec_scanning_flag_ok(spec_advance(m).0),
{
}

/// Input handling keeps the scanning flag in agreement with the state on
/// every edge: the flag falls with every exit from the search phase,
/// including an abandoned search (the search ends without a find, or a
/// channel is lost while one is open).
pub proof fn lemma_scanning_flag_handle(m: MachineView, i: InputView)
    requires
        spec_scanning_flag_ok(m),
    ensures
        spec_scanning_flag_ok(spec_handle(m, i).0),
{
}

/// The number of `ScanningFinished` events among the given actions.
pub open spec fn spec_count_scanning_finished(actions: Seq<ActionView>) -> nat
    decreases actions.len(),
{
    if actions.len() == 0 {
        0
    } else {
        spec_count_scanning_finished(actions.drop_last()) + (if actions.last()
            == ActionView::SendEvent(EventView::ScanningFinished) {
            1nat
        } else {
            0nat
        })
    }
}

/// A stop-scanning command arriving at a machine at rest causes exactly
/// one `ScanningFinished` event when the machine can act on it (in `Idle`,
/// where it runs the top-level stop-search exchange, and in `DeviceLoop`,
/// where scanning is a no-op and is reported finished at once), and none
/// in the states that buffer or discard the command.  The count covers the
/// handling of the command together with the entry work it triggers.
pub proof fn lemma_stop_scanning_one_finished(m: MachineView)
    requires
        spec_needs_input(m),
    ensures
        ({
            let r1 = spec_handle(m, InputView::CommMgr(LovenseDeviceCommand::StopScanning));
            let r2 = spec_advance(r1.0);
            spec_count_scanning_finished(r1.1 + r2.1) == (
            if m.state is Idle || m.state is DeviceLoop {
                1nat
            } else {
                0nat
            })
        }),
{
    let r1 = spec_handle(m, InputView::CommMgr(LovenseDeviceCommand::StopScanning));
    let r2 = spec_advance(r1.0);
    let all = r1.1 + r2.1;
    if m.state is Idle {
        let out = ActionView::SendOutput(OutgoingDataView::Message(spec_stop_search_command()));
        let fin = ActionView::SendEvent(EventView::ScanningFinished);
        assert(all =~= seq![out, fin]);
        assert(all.drop_last() =~= seq![out]);
        assert(seq![out].drop_last() =~= Seq::<ActionView>::empty());
        assert(spec_count_scanning_finished(Seq::<ActionView>::empty()) == 0);
        assert(spec_count_scanning_finished(seq![out]) == 0);
    } else if m.state is DeviceLoop {
        let fin = ActionView::SendEvent(EventView::ScanningFinished);
        assert(all =~= seq![fin]);
        assert(all.drop_last() =~= Seq::<ActionView>::empty());
        assert(spec_count_scanning_finished(Seq::<ActionView>::empty()) == 0);
    } else {
        assert(all =~= Seq::<ActionView>::empty());
    }
}

/// The machine as the outer runtime first builds it.
pub fn create_lovense_dongle_machine() -> (r: DongleMachine)
    ensures
        r@ == spec_initial_machine(),
{
    DongleMachine::new()
}

} // verus!
