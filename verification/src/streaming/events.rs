use vstd::prelude::*;

verus! {

/// Event types for WebSocket messages.
#[derive(Debug, Clone, Copy, PartialEq, Eq, Structural)]
pub enum EventType {
    /// Quote update event
    Quote,
    /// Order update event
    Order,
    /// Account update event
    Account,
    /// Trade update event
    Trade,
    /// Connection status event
    Connection,
    /// Subscription status event
    Subscription,
    /// Error event
    Error,
    /// Heartbeat event
    Heartbeat,
    /// Unknown event
    Unknown,
}

/// Connection state.
#[derive(Debug, Clone, Copy, PartialEq, Eq, Structural)]
pub enum ConnectionState {
    /// Connected
    Connected,
    /// Disconnected
    Disconnected,
    /// Reconnecting
    Reconnecting,
    /// Failed
    Failed,
}

/// Connection status event data.
#[derive(Debug, Clone, PartialEq, Eq)]
pub struct ConnectionStatus {
    /// Connection status
    pub status: ConnectionState,
    /// Connection ID
    pub connection_id: Option<String>,
    /// Connection message
    pub message: Option<String>,
}

/// Subscription state.
#[derive(Debug, Clone, Copy, PartialEq, Eq, Structural)]
pub enum SubscriptionState {
    /// Subscribed
    Subscribed,
    /// Unsubscribed
    Unsubscribed,
    /// Failed
    Failed,
}

/// Subscription status event data.
#[derive(Debug, Clone, PartialEq, Eq)]
pub struct SubscriptionStatus {
    /// Subscription ID
    pub subscription_id: String,
    /// Subscription status
    pub status: SubscriptionState,
    /// Subscription message
    pub message: Option<String>,
}

/// Error event data.
#[derive(Debug, Clone, PartialEq, Eq)]
pub struct ErrorEvent {
    /// Error code
    pub code: String,
    /// Error message
    pub message: String,
}

/// Heartbeat event data.
#[derive(Debug, Clone, PartialEq, Eq)]
pub struct HeartbeatEvent {
    /// Heartbeat ID
    pub id: String,
}

/// WebSocket event data. Quotes, orders and payloads of unknown shape are
/// held as the JSON text that came over the wire.
#[derive(Debug, Clone, PartialEq, Eq)]
pub enum EventData {
    /// Quote update event data
    Quote(String),
    /// Order update event data
    Order(String),
    /// Connection status event data
    Connection(ConnectionStatus),
    /// Subscription status event data
    Subscription(SubscriptionStatus),
    /// Error event data
    Error(ErrorEvent),
    /// Heartbeat event data
    Heartbeat(HeartbeatEvent),
    /// Unknown event data
    Unknown(String),
}

/// WebSocket event.
#[derive(Debug, Clone, PartialEq, Eq)]
pub struct Event {
    /// Event type
    pub event_type: EventType,
    /// Event timestamp, in milliseconds since the Unix epoch
    pub timestamp: i64,
    /// Event data
    pub data: EventData,
}

impl Event {
    /// Whether this is the connection event that reports `status` at `now`,
    /// with the given connection ID and message.
    pub open spec fn is_connection(
        &self,
        now: i64,
        status: ConnectionState,
        connection_id: Option<Seq<char>>,
        message: Seq<char>,
    ) -> bool {
        &&& self.event_type == EventType::Connection
        &&& self.timestamp == now
        &&& self.data matches EventData::Connection(held)
        &&& held.status == status
        &&& match (held.connection_id, connection_id) {
            (Some(a), Some(b)) => a@ == b,
            (None, None) => true,
            _ => false,
        }
        &&& held.message matches Some(text)
        &&& text@ == message
    }

    /// Whether this is the error event with the given code and message, made
    /// at `now`.
    pub open spec fn is_error(&self, now: i64, code: Seq<char>, message: Seq<char>) -> bool {
        &&& self.event_type == EventType::Error
        &&& self.timestamp == now
        &&& self.data matches EventData::Error(held)
        &&& held.code@ == code
        &&& held.message@ == message
    }

    /// Whether this is the heartbeat event with the given ID, made at `now`.
    pub open spec fn is_heartbeat(&self, now: i64, id: Seq<char>) -> bool {
        &&& self.event_type == EventType::Heartbeat
        &&& self.timestamp == now
        &&& self.data matches EventData::Heartbeat(held)
        &&& held.id@ == id
    }

    /// The connection event that reports `status` at `now`.
    pub fn connection(
        now: i64,
        status: ConnectionState,
        connection_id: Option<&str>,
        message: &str,
    ) -> (event: Self)
        ensures
            event.is_connection(now, status, crate::utils::text::text_of(connection_id), message@),
    {
        let connection_id = match connection_id {
            Some(id) => Some(id.to_owned()),
            None => None,
        };
        Event {
            event_type: EventType::Connection,
            timestamp: now,
            data: EventData::Connection(
                ConnectionStatus { status, connection_id, message: Some(message.to_owned()) },
            ),
        }
    }

    /// The error event with the given code and message, made at `now`.
    pub fn error(now: i64, code: &str, message: String) -> (event: Self)
        ensures
            event.is_error(now, code@, message@),
    {
        Event {
            event_type: EventType::Error,
            timestamp: now,
            data: EventData::Error(ErrorEvent { code: code.to_owned(), message }),
        }
    }

    /// The heartbeat event with the given ID, made at `now`.
    pub fn heartbeat(now: i64, id: String) -> (event: Self)
        ensures
            event.is_heartbeat(now, id@),
    {
        Event {
            event_type: EventType::Heartbeat,
            timestamp: now,
            data: EventData::Heartbeat(HeartbeatEvent { id }),
        }
    }
}

} // verus!
