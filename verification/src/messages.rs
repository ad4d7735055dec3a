//! Wire-level message types of the dongle protocol, the external command
//! stream and the upward discovery event stream, together with their
//! mathematical views.
//!
//! The dongle speaks a line-delimited protocol whose messages carry a
//! function discriminator, a transport type, and optionally an id, a data
//! payload and a result code.  String payloads are viewed as `Seq<char>`.

use vstd::prelude::*;

verus! {

/// Function discriminator of a dongle wire message.
#[derive(Clone, Copy, Debug, PartialEq, Eq, Structural)]
pub enum LovenseDongleMessageFunc {
    /// Status probe, or a status response.
    Status,
    /// Unsolicited device connect/disconnect notification.
    IncomingStatus,
    /// Start-search command, or its ack.
    Search,
    /// Stop-search command, or its ack.
    StopSearch,
    /// Search result carrying a found toy, or a search-ended marker.
    ToyData,
}

/// Transport addressed by a dongle wire message.
#[derive(Clone, Copy, Debug, PartialEq, Eq, Structural)]
pub enum LovenseDongleMessageType {
    Toy,
    USB,
}

/// Result codes carried by acks and status notifications.
#[derive(Clone, Copy, Debug, PartialEq, Eq, Structural)]
pub enum LovenseDongleResultCode {
    DeviceConnectSuccess,
    DeviceDisconnected,
    SearchStopped,
}

/// Data payload of an inbound message: the id of the device the payload
/// concerns and its connection status.
#[derive(Clone, Debug, PartialEq, Eq)]
pub struct LovenseDongleIncomingData {
    pub id: Option<String>,
    pub status: Option<LovenseDongleResultCode>,
}

/// Mathematical view of [`LovenseDongleIncomingData`].
pub struct IncomingDataView {
    pub id: Option<Seq<char>>,
    pub status: Option<LovenseDongleResultCode>,
}

impl View for LovenseDongleIncomingData {
    type V = IncomingDataView;

    open spec fn view(&self) -> IncomingDataView {
        IncomingDataView {
            id: match self.id {
                Option::Some(s) => Option::Some(s@),
                Option::None => Option::None,
            },
            status: self.status,
        }
    }
}

/// An inbound dongle message.
#[derive(Clone, Debug, PartialEq, Eq)]
pub struct LovenseDongleIncomingMessage {
    pub func: LovenseDongleMessageFunc,
    pub message_type: LovenseDongleMessageType,
    pub data: Option<LovenseDongleIncomingData>,
    pub result: Option<LovenseDongleResultCode>,
}

/// Mathematical view of [`LovenseDongleIncomingMessage`].
pub struct IncomingMessageView {
    pub func: LovenseDongleMessageFunc,
    pub message_type: LovenseDongleMessageType,
    pub data: Option<IncomingDataView>,
    pub result: Option<LovenseDongleResultCode>,
}

impl View for LovenseDongleIncomingMessage {
    type V = IncomingMessageView;

    open spec fn view(&self) -> IncomingMessageView {
        IncomingMessageView {
            func: self.func,
            message_type: self.message_type,
            data: match self.data {
                Option::Some(d) => Option::Some(d@),
                Option::None => Option::None,
            },
            result: self.result,
        }
    }
}

/// An outbound dongle message: same shape as an inbound one minus the data
/// payload and result code.
#[derive(Clone, Debug, PartialEq, Eq)]
pub struct LovenseDongleOutgoingMessage {
    pub func: LovenseDongleMessageFunc,
    pub message_type: LovenseDongleMessageType,
    pub id: Option<String>,
    pub command: Option<String>,
    pub eager: Option<bool>,
}

/// Mathematical view of [`LovenseDongleOutgoingMessage`].
pub struct OutgoingMessageView {
    pub func: LovenseDongleMessageFunc,
    pub message_type: LovenseDongleMessageType,
    pub id: Option<Seq<char>>,
    pub command: Option<Seq<char>>,
    pub eager: Option<bool>,
}

impl View for LovenseDongleOutgoingMessage {
    type V = OutgoingMessageView;

    open spec fn view(&self) -> OutgoingMessageView {
        OutgoingMessageView {
            func: self.func,
            message_type: self.message_type,
            id: match self.id {
                Option::Some(s) => Option::Some(s@),
                Option::None => Option::None,
            },
            command: match self.command {
                Option::Some(s) => Option::Some(s@),
                Option::None => Option::None,
            },
            eager: self.eager,
        }
    }
}

/// Data bound for the dongle writer: either a protocol message or a raw
/// per-device payload destined for an already-attached toy.
#[derive(Clone, Debug, PartialEq, Eq)]
pub enum OutgoingLovenseData {
    Message(LovenseDongleOutgoingMessage),
    Raw(String),
}

/// Mathematical view of [`OutgoingLovenseData`].
pub enum OutgoingDataView {
    Message(OutgoingMessageView),
    Raw(Seq<char>),
}

impl View for OutgoingLovenseData {
    type V = OutgoingDataView;

    open spec fn view(&self) -> OutgoingDataView {
        match self {
            OutgoingLovenseData::Message(m) => OutgoingDataView::Message(m@),
            OutgoingLovenseData::Raw(s) => OutgoingDataView::Raw(s@),
        }
    }
}

/// Commands handed down to a communication manager.  `DongleFound` is
/// raised by the lower-level port scanner once it has the dongle's byte
/// channels in hand; the channels themselves stay with the driver that
/// runs the machine.
#[derive(Clone, Copy, Debug, PartialEq, Eq, Structural)]
pub enum LovenseDeviceCommand {
    StartScanning,
    StopScanning,
    DongleFound,
}

/// Discovery events emitted upward to the device manager.  The device
/// construction handle that accompanies a `DeviceFound` in the running
/// server is built by the driver from the per-device channel endpoints;
/// the library identifies the device by its name and address.
#[derive(Clone, Debug, PartialEq, Eq)]
pub enum DeviceCommunicationEvent {
    DeviceFound { name: String, address: String },
    DeviceDisconnected(String),
    ScanningFinished,
}

/// Mathematical view of [`DeviceCommunicationEvent`].
pub enum EventView {
    DeviceFound { name: Seq<char>, address: Seq<char> },
    DeviceDisconnected(Seq<char>),
    ScanningFinished,
}

impl View for DeviceCommunicationEvent {
    type V = EventView;

    open spec fn view(&self) -> EventView {
        match self {
            DeviceCommunicationEvent::DeviceFound { name, address } => (EventView::DeviceFound {
                name: name@,
                address: address@,
            }),
            DeviceCommunicationEvent::DeviceDisconnected(a) => EventView::DeviceDisconnected(a@),
            DeviceCommunicationEvent::ScanningFinished => EventView::ScanningFinished,
        }
    }
}

/// The status probe sent on entry to the idle state, to detect a toy that
/// is already attached to the dongle.
pub open spec fn spec_status_probe() -> OutgoingMessageView {
    OutgoingMessageView {
        func: LovenseDongleMessageFunc::Status,
        message_type: LovenseDongleMessageType::Toy,
        id: Option::None,
        command: Option::None,
        eager: Option::None,
    }
}

/// The search command that opens a scan.
pub open spec fn spec_search_command() -> OutgoingMessageView {
    OutgoingMessageView {
        func: LovenseDongleMessageFunc::Search,
        message_type: LovenseDongleMessageType::Toy,
        id: Option::None,
        command: Option::None,
        eager: Option::None,
    }
}

/// The stop-search command that closes a scan.
pub open spec fn spec_stop_search_command() -> OutgoingMessageView {
    OutgoingMessageView {
        func: LovenseDongleMessageFunc::StopSearch,
        message_type: LovenseDongleMessageType::USB,
        id: Option::None,
        command: Option::None,
        eager: Option::None,
    }
}

/// Builds the status probe of [`spec_status_probe`].
pub fn status_probe() -> (r: LovenseDongleOutgoingMessage)
    ensures
        r@ == spec_status_probe(),
{
    LovenseDongleOutgoingMessage {
        func: LovenseDongleMessageFunc::Status,
        message_type: LovenseDongleMessageType::Toy,
        id: None,
        command: None,
        eager: None,
    }
}

/// Builds the search command of [`spec_search_command`].
pub fn search_command() -> (r: LovenseDongleOutgoingMessage)
    ensures
        r@ == spec_search_command(),
{
    LovenseDongleOutgoingMessage {
        func: LovenseDongleMessageFunc::Search,
        message_type: LovenseDongleMessageType::Toy,
        id: None,
        command: None,
        eager: None,
    }
}

/// Builds the stop-search command of [`spec_stop_search_command`].
pub fn stop_search_command() -> (r: LovenseDongleOutgoingMessage)
    ensures
        r@ == spec_stop_search_command(),
{
    LovenseDongleOutgoingMessage {
        func: LovenseDongleMessageFunc::StopSearch,
        message_type: LovenseDongleMessageType::USB,
        id: None,
        command: None,
        eager: None,
    }
}

} // verus!
