use vstd::prelude::*;

verus! {

/// The kind of an event that a host reports.
#[derive(Debug, Clone, Copy, PartialEq, Eq, Structural)]
pub enum EventType {
    NoEvent,
    PeerConnected,
    PeerDisconnected,
    StreamOpened,
    StreamData,
    StreamClosed,
    Error,
    Unknown(i32),
}

/// The event type that a libspeer event code stands for.
pub open spec fn event_type_for_code(code: i32) -> EventType {
    if code == 0 {
        EventType::NoEvent
    } else if code == 1 {
        EventType::PeerConnected
    } else if code == 2 {
        EventType::PeerDisconnected
    } else if code == 3 {
        EventType::StreamOpened
    } else if code == 4 {
        EventType::StreamData
    } else if code == 5 {
        EventType::StreamClosed
    } else if code == 6 {
        EventType::Error
    } else {
        EventType::Unknown(code)
    }
}

impl From<i32> for EventType {
    fn from(value: i32) -> (r: Self)
        ensures
            value == 0 ==> r == EventType::NoEvent,
            value == 1 ==> r == EventType::PeerConnected,
            value == 2 ==> r == EventType::PeerDisconnected,
            value == 3 ==> r == EventType::StreamOpened,
            value == 4 ==> r == EventType::StreamData,
            value == 5 ==> r == EventType::StreamClosed,
            value == 6 ==> r == EventType::Error,
            (value < 0 || value > 6) ==> r == EventType::Unknown(value),
    {
        match value {
            0 => EventType::NoEvent,
            1 => EventType::PeerConnected,
            2 => EventType::PeerDisconnected,
            3 => EventType::StreamOpened,
            4 => EventType::StreamData,
            5 => EventType::StreamClosed,
            6 => EventType::Error,
            other => EventType::Unknown(other),
        }
    }
}

impl vstd::std_specs::convert::FromSpecImpl<i32> for EventType {
    open spec fn obeys_from_spec() -> bool {
        true
    }

    open spec fn from_spec(v: i32) -> Self {
        event_type_for_code(v)
    }
}

/// Why a peer disconnected.
#[derive(Debug, Clone, Copy, PartialEq, Eq, Structural)]
pub enum DisconnectReason {
    Normal,
    Timeout,
    HandshakeFailed,
    ProtocolError,
    Application,
    Unknown(i32),
}

/// The reason that a libspeer disconnect code stands for.
pub open spec fn disconnect_reason_for_code(code: i32) -> DisconnectReason {
    if code == 0 {
        DisconnectReason::Normal
    } else if code == 1 {
        DisconnectReason::Timeout
    } else if code == 2 {
        DisconnectReason::HandshakeFailed
    } else if code == 3 {
        DisconnectReason::ProtocolError
    } else if code == 4 {
        DisconnectReason::Application
    } else {
        DisconnectReason::Unknown(code)
    }
}

impl From<i32> for DisconnectReason {
    fn from(value: i32) -> (r: Self)
        ensures
            value == 0 ==> r == DisconnectReason::Normal,
            value == 1 ==> r == DisconnectReason::Timeout,
            value == 2 ==> r == DisconnectReason::HandshakeFailed,
            value == 3 ==> r == DisconnectReason::ProtocolError,
            value == 4 ==> r == DisconnectReason::Application,
            (value < 0 || value > 4) ==> r == DisconnectReason::Unknown(value),
    {
        match value {
            0 => DisconnectReason::Normal,
            1 => DisconnectReason::Timeout,
            2 => DisconnectReason::HandshakeFailed,
            3 => DisconnectReason::ProtocolError,
            4 => DisconnectReason::Application,
            other => DisconnectReason::Unknown(other),
        }
    }
}

impl vstd::std_specs::convert::FromSpecImpl<i32> for DisconnectReason {
    open spec fn obeys_from_spec() -> bool {
        true
    }

    open spec fn from_spec(v: i32) -> Self {
        disconnect_reason_for_code(v)
    }
}

/// Distinct event codes give distinct event types.
pub proof fn lemma_event_type_for_code_injective(a: i32, b: i32)
    requires
        event_type_for_code(a) == event_type_for_code(b),
    ensures
        a == b,
{
}

/// Distinct disconnect codes give distinct reasons.
pub proof fn lemma_disconnect_reason_for_code_injective(a: i32, b: i32)
    requires
        disconnect_reason_for_code(a) == disconnect_reason_for_code(b),
    ensures
        a == b,
{
}

/// How many bytes of an event's payload may be read: none when the payload
/// pointer is null or its length is zero, the reported length otherwise.
pub fn event_data_len(data_is_null: bool, len: usize) -> (n: usize)
    ensures
        n == (if data_is_null || len == 0 { 0 } else { len }),
{
    if data_is_null || len == 0 {
        0
    } else {
        len
    }
}

} // verus!
