use webull_rs::error::WebullError;
use webull_rs::streaming::client::{
    Command, ControlMessage, Frame, FrameAction, Phase, Signal, Turn, WebSocketClient,
};
use webull_rs::streaming::events::{
    ConnectionState, ConnectionStatus, ErrorEvent, Event, EventData, EventType, HeartbeatEvent,
};
use webull_rs::streaming::subscription::{
    SubscriptionRequest, SubscriptionType, UnsubscriptionRequest,
};

fn client() -> WebSocketClient {
    WebSocketClient::new("wss://stream.example.com".to_string())
}

fn connection(now: i64, status: ConnectionState, id: Option<&str>, message: &str) -> Event {
    Event {
        event_type: EventType::Connection,
        timestamp: now,
        data: EventData::Connection(ConnectionStatus {
            status,
            connection_id: id.map(|s| s.to_string()),
            message: Some(message.to_string()),
        }),
    }
}

fn error(now: i64, code: &str, message: &str) -> Event {
    Event {
        event_type: EventType::Error,
        timestamp: now,
        data: EventData::Error(ErrorEvent { code: code.to_string(), message: message.to_string() }),
    }
}

#[test]
fn new_client_is_disconnected_with_the_default_limits() {
    let client = client();
    assert_eq!(client.base_url, "wss://stream.example.com");
    assert_eq!(client.connection_state, ConnectionState::Disconnected);
    assert!(!client.channel_open);
    assert_eq!(client.heartbeat_interval, 30);
    assert_eq!(client.reconnect_attempts, 0);
    assert_eq!(client.max_reconnect_attempts, 5);
    assert_eq!(client.reconnect_delay, 5);
}

#[test]
fn events_are_built_as_asked() {
    assert_eq!(
        Event::connection(5, ConnectionState::Connected, Some("c"), "m"),
        connection(5, ConnectionState::Connected, Some("c"), "m")
    );
    assert_eq!(Event::error(6, "CODE", "why".to_string()), error(6, "CODE", "why"));
    assert_eq!(
        Event::heartbeat(7, "hb".to_string()),
        Event {
            event_type: EventType::Heartbeat,
            timestamp: 7,
            data: EventData::Heartbeat(HeartbeatEvent { id: "hb".to_string() }),
        }
    );
}

#[test]
fn socket_url_swaps_the_scheme_and_adds_the_path() {
    assert_eq!(
        WebSocketClient::new("https://api.webull.com".to_string()).connect_websocket(),
        "wss://api.webull.com/ws"
    );
    assert_eq!(client().connect_websocket(), "wss://stream.example.com/ws");
    assert_eq!(
        WebSocketClient::new("http://http.example.com/http".to_string()).connect_websocket(),
        "ws://ws.example.com/ws/ws"
    );
    assert_eq!(WebSocketClient::new("htt".to_string()).connect_websocket(), "htt/ws");
    assert_eq!(WebSocketClient::new("hhttp".to_string()).connect_websocket(), "hws/ws");
}

#[test]
fn connect_starts_the_count_from_zero() {
    let mut client = client();
    assert_eq!(client.phase, Phase::Idle);
    client.reconnect_attempts = 4;
    client.connect();
    assert_eq!(client.connection_state, ConnectionState::Reconnecting);
    assert_eq!(client.phase, Phase::Ready);
    assert_eq!(client.reconnect_attempts, 0);
    assert!(client.channel_open);
}

#[test]
fn supervisor_gives_up_after_the_first_attempt_and_five_reconnects() {
    let mut client = client();
    client.connect();
    let mut attempts = 0;
    let mut events = Vec::new();
    let mut signal = Signal::Continue;
    loop {
        let turn = client.step(signal, 100);
        events.extend(turn.events);
        signal = match turn.command {
            Command::GetToken => Signal::TokenReady,
            Command::Open(url) => {
                assert_eq!(url, "wss://stream.example.com/ws");
                attempts += 1;
                assert_eq!(client.reconnect_attempts, attempts);
                Signal::Refused("refused".to_string())
            }
            Command::Sleep(seconds) => {
                assert_eq!(seconds, 5);
                Signal::Continue
            }
            Command::RunSession => panic!("no socket was opened"),
            Command::Stop => break,
        };
        assert!(attempts < 100);
    }
    assert_eq!(attempts, 6);
    assert_eq!(client.connection_state, ConnectionState::Failed);
    assert_eq!(client.phase, Phase::Stopped);
    assert!(!client.channel_open);
    let refused = error(100, "WS_CONNECT_ERROR", "WebSocket connection error: refused");
    let reconnecting = connection(100, ConnectionState::Reconnecting, None, "Reconnecting...");
    let failed =
        connection(100, ConnectionState::Failed, None, "Maximum reconnect attempts exceeded");
    let mut expected = Vec::new();
    for _ in 0..6 {
        expected.push(refused.clone());
        expected.push(reconnecting.clone());
    }
    expected.push(failed);
    assert_eq!(events, expected);
    let preceded =
        (1..events.len()).filter(|&i| events[i] == refused && events[i - 1] == reconnecting).count();
    assert_eq!(preceded, 5);
    let after = client.clone();
    assert_eq!(client.step(Signal::Continue, 101), Turn { events: vec![], command: Command::Stop });
    assert_eq!(client, after);
}

#[test]
fn an_open_connection_starts_the_count_again() {
    let mut client = client();
    client.connect();
    for _ in 0..3 {
        assert_eq!(client.step(Signal::Continue, 0).command, Command::GetToken);
        assert!(matches!(client.step(Signal::TokenReady, 0).command, Command::Open(_)));
        assert_eq!(client.step(Signal::Refused("no".to_string()), 0).command, Command::Sleep(5));
    }
    assert_eq!(client.step(Signal::Continue, 0).command, Command::GetToken);
    assert_eq!(client.reconnect_attempts, 4);
    client.step(Signal::TokenReady, 0);
    let turn = client.step(Signal::Opened("conn-1".to_string()), 7);
    assert_eq!(
        turn,
        Turn {
            events: vec![connection(
                7,
                ConnectionState::Connected,
                Some("conn-1"),
                "Connection established"
            )],
            command: Command::RunSession,
        }
    );
    assert_eq!(client.connection_state, ConnectionState::Connected);
    assert_eq!(client.phase, Phase::InSession);
    assert_eq!(client.connection_id, Some("conn-1".to_string()));
    assert_eq!(client.reconnect_attempts, 0);
}

#[test]
fn a_missing_token_is_reported_and_tried_again() {
    let mut client = client();
    client.connect();
    assert_eq!(client.step(Signal::Continue, 0).command, Command::GetToken);
    let turn = client.step(Signal::TokenFailed(WebullError::Unauthorized), 9);
    assert_eq!(
        turn,
        Turn {
            events: vec![error(9, "AUTH_ERROR", "Authentication error: Unauthorized")],
            command: Command::Sleep(5),
        }
    );
    assert_eq!(client.connection_state, ConnectionState::Reconnecting);
    assert_eq!(client.phase, Phase::Pausing);
    assert_eq!(client.reconnect_attempts, 1);
    assert_eq!(client.step(Signal::Continue, 10), Turn { events: vec![], command: Command::GetToken });
    assert_eq!(client.reconnect_attempts, 2);
}

#[test]
fn a_token_that_never_comes_ends_at_the_ceiling_too() {
    let mut client = client();
    client.connect();
    let mut asked = 0;
    let mut signal = Signal::Continue;
    loop {
        signal = match client.step(signal, 0).command {
            Command::GetToken => {
                asked += 1;
                Signal::TokenFailed(WebullError::Unauthorized)
            }
            Command::Sleep(_) => Signal::Continue,
            Command::Stop => break,
            other => panic!("{:?}", other),
        };
    }
    assert_eq!(asked, 6);
    assert_eq!(client.connection_state, ConnectionState::Failed);
    assert!(!client.channel_open);
}

#[test]
fn the_end_of_a_session_is_reported() {
    let mut client = client();
    client.connect();
    client.step(Signal::Continue, 0);
    client.step(Signal::TokenReady, 0);
    client.step(Signal::Opened("conn-1".to_string()), 1);
    let clean = client.step(Signal::Ended(None), 2);
    assert_eq!(
        clean,
        Turn {
            events: vec![
                connection(2, ConnectionState::Disconnected, Some("conn-1"), "Connection closed"),
                connection(2, ConnectionState::Reconnecting, None, "Reconnecting..."),
            ],
            command: Command::Sleep(5),
        }
    );
    assert_eq!(client.connection_state, ConnectionState::Reconnecting);
    assert_eq!(client.phase, Phase::Pausing);
    let again = client.step(Signal::Continue, 3);
    assert_eq!(again, Turn { events: vec![], command: Command::GetToken });
    assert_eq!(client.connection_state, ConnectionState::Reconnecting);
    assert_eq!(client.reconnect_attempts, 1);
    client.step(Signal::TokenReady, 3);
    client.step(Signal::Opened("conn-2".to_string()), 3);
    let broken = client.step(Signal::Ended(Some("reset".to_string())), 4);
    assert_eq!(
        broken.events,
        vec![
            error(4, "WS_ERROR", "WebSocket error: reset"),
            connection(4, ConnectionState::Disconnected, Some("conn-2"), "Connection closed"),
            connection(4, ConnectionState::Reconnecting, None, "Reconnecting..."),
        ]
    );
}

#[test]
fn a_signal_out_of_turn_stops_the_supervisor() {
    let mut idle = client();
    assert_eq!(idle.step(Signal::Continue, 0), Turn { events: vec![], command: Command::Stop });
    assert_eq!(idle.phase, Phase::Stopped);
    for signal in [
        Signal::TokenReady,
        Signal::TokenFailed(WebullError::Unauthorized),
        Signal::Opened("c".to_string()),
        Signal::Refused("no".to_string()),
        Signal::Ended(None),
    ] {
        let mut client = client();
        client.connect();
        assert!(client.channel_open);
        assert_eq!(client.step(signal, 0), Turn { events: vec![], command: Command::Stop });
        assert_eq!(client.phase, Phase::Stopped);
        assert!(!client.channel_open);
        assert_eq!(client.connection_state, ConnectionState::Reconnecting);
    }
    let mut waiting = client();
    waiting.connect();
    waiting.step(Signal::Continue, 0);
    assert_eq!(waiting.step(Signal::Ended(None), 0).command, Command::Stop);
    assert!(!waiting.channel_open);
}

#[test]
fn disconnect_stops_the_supervisor_at_its_next_round() {
    let mut client = client();
    client.connect();
    client.step(Signal::Continue, 0);
    client.step(Signal::TokenReady, 0);
    client.step(Signal::Opened("conn-1".to_string()), 1);
    assert_eq!(client.disconnect(), Ok(()));
    assert_eq!(client.connection_state, ConnectionState::Disconnected);
    assert_eq!(client.reconnect_attempts, 6);
    assert!(client.channel_open);
    let ended = client.step(Signal::Ended(None), 2);
    assert_eq!(
        ended,
        Turn {
            events: vec![
                connection(2, ConnectionState::Disconnected, Some("conn-1"), "Connection closed"),
                connection(2, ConnectionState::Reconnecting, None, "Reconnecting..."),
            ],
            command: Command::Sleep(5),
        }
    );
    let last = client.step(Signal::Continue, 4);
    assert_eq!(
        last,
        Turn {
            events: vec![connection(
                4,
                ConnectionState::Failed,
                None,
                "Maximum reconnect attempts exceeded"
            )],
            command: Command::Stop,
        }
    );
    assert_eq!(client.connection_state, ConnectionState::Failed);
    assert_eq!(client.reconnect_attempts, 6);
    assert_eq!(client.phase, Phase::Stopped);
    assert!(!client.channel_open);
    assert_eq!(client.step(Signal::Continue, 5).command, Command::Stop);
    assert!(!client.channel_open);
}

#[test]
fn disconnect_while_waiting_stops_the_supervisor_too() {
    let mut client = client();
    client.connect();
    client.step(Signal::Continue, 0);
    client.step(Signal::TokenFailed(WebullError::Unauthorized), 0);
    client.disconnect().unwrap();
    assert_eq!(
        client.step(Signal::Continue, 1),
        Turn {
            events: vec![connection(
                1,
                ConnectionState::Failed,
                None,
                "Maximum reconnect attempts exceeded"
            )],
            command: Command::Stop,
        }
    );
    assert!(!client.channel_open);
}

#[test]
fn a_stopped_supervisor_starts_again_with_an_open_channel() {
    let mut client = client();
    client.connect();
    client.disconnect().unwrap();
    assert_eq!(client.step(Signal::Continue, 0).command, Command::Stop);
    assert!(!client.channel_open);
    client.connect();
    assert!(client.channel_open);
    assert_eq!(client.phase, Phase::Ready);
    assert_eq!(client.reconnect_attempts, 0);
    assert_eq!(client.step(Signal::Continue, 1).command, Command::GetToken);
    assert!(client.channel_open);
}

#[test]
fn only_a_connected_client_subscribes() {
    let mut client = client();
    let request = SubscriptionRequest::new_quote(vec!["AAPL".to_string()]);
    let not_connected =
        Err(WebullError::InvalidRequest("Not connected to WebSocket server".to_string()));
    assert_eq!(client.subscribe(request.clone()), not_connected);
    client.connect();
    assert_eq!(client.subscribe(request.clone()), not_connected);
    client.step(Signal::Continue, 0);
    client.step(Signal::TokenReady, 0);
    client.step(Signal::Opened("c".to_string()), 0);
    let message = client.subscribe(request.clone()).unwrap();
    assert_eq!(message, ControlMessage::Subscribe(request.clone()));
    assert_eq!(message.action(), "SUBSCRIBE");
    client.disconnect().unwrap();
    assert_eq!(client.subscribe(request), not_connected);
}

#[test]
fn only_a_connected_client_unsubscribes() {
    let mut client = client();
    let request = UnsubscriptionRequest::new_order("acct".to_string());
    assert_eq!(
        client.unsubscribe(request.clone()),
        Err(WebullError::InvalidRequest("Not connected to WebSocket server".to_string()))
    );
    client.connection_state = ConnectionState::Connected;
    let message = client.unsubscribe(request.clone()).unwrap();
    assert_eq!(message, ControlMessage::Unsubscribe(request));
    assert_eq!(message.action(), "UNSUBSCRIBE");
}

#[test]
fn heartbeat_is_due_after_a_silent_interval() {
    let mut client = client();
    client.last_heartbeat = 10_000;
    assert_eq!(client.heartbeat_tick(39_999, "a".to_string(), 1), None);
    assert_eq!(client.heartbeat_tick(40_000, "a".to_string(), 1), None);
    assert_eq!(client.last_heartbeat, 10_000);
    assert_eq!(client.heartbeat_tick(5_000, "a".to_string(), 1), None);
    let beat = client.heartbeat_tick(40_001, "hb-1".to_string(), 77);
    assert_eq!(beat, Some(Event::heartbeat(77, "hb-1".to_string())));
    assert_eq!(client.last_heartbeat, 40_001);
    assert_eq!(client.heartbeat_tick(70_001, "b".to_string(), 1), None);
    assert!(client.heartbeat_tick(70_999, "c".to_string(), 1).is_some());
    client.heartbeat_interval = u64::MAX;
    assert_eq!(client.heartbeat_tick(u64::MAX, "d".to_string(), 1), None);
}

#[test]
fn frames_are_handled_by_their_kind() {
    let mut client = client();
    client.last_heartbeat = 1;
    assert_eq!(client.handle_websocket(Frame::Text(None), 5, 50), FrameAction::Relay);
    assert_eq!(
        client.handle_websocket(Frame::Text(Some("eof".to_string())), 5, 50),
        FrameAction::Emit(error(50, "PARSE_ERROR", "Failed to parse message: eof"))
    );
    assert_eq!(client.handle_websocket(Frame::Binary, 5, 50), FrameAction::Ignore);
    assert_eq!(client.handle_websocket(Frame::Raw, 5, 50), FrameAction::Ignore);
    assert_eq!(client.handle_websocket(Frame::Close, 5, 50), FrameAction::Close);
    assert_eq!(
        client.handle_websocket(Frame::Failure("reset".to_string()), 5, 50),
        FrameAction::Fail("reset".to_string())
    );
    assert_eq!(client.last_heartbeat, 1);
    assert_eq!(client.handle_websocket(Frame::Ping, 6, 60), FrameAction::ReplyPong);
    assert_eq!(client.last_heartbeat, 6);
    assert_eq!(client.handle_websocket(Frame::Pong, 8, 80), FrameAction::Ignore);
    assert_eq!(client.last_heartbeat, 8);
    assert_eq!(
        client.pong_failed("closed", 9),
        error(9, "PONG_ERROR", "Failed to send pong: closed")
    );
}

#[test]
fn subscription_requests_name_what_they_are_for() {
    let quote = SubscriptionRequest::new_quote(vec!["AAPL".to_string(), "MSFT".to_string()]);
    assert_eq!(quote.subscription_type, SubscriptionType::Quote);
    assert_eq!(quote.symbols, Some(vec!["AAPL".to_string(), "MSFT".to_string()]));
    assert_eq!(quote.account_id, None);
    for (request, kind) in [
        (SubscriptionRequest::new_order("a".to_string()), SubscriptionType::Order),
        (SubscriptionRequest::new_account("a".to_string()), SubscriptionType::Account),
        (SubscriptionRequest::new_trade("a".to_string()), SubscriptionType::Trade),
    ] {
        assert_eq!(request.subscription_type, kind);
        assert_eq!(request.symbols, None);
        assert_eq!(request.account_id, Some("a".to_string()));
    }
    let unquote = UnsubscriptionRequest::new_quote(vec!["AAPL".to_string()]);
    assert_eq!(unquote.subscription_type, SubscriptionType::Quote);
    assert_eq!(unquote.symbols, Some(vec!["AAPL".to_string()]));
    assert_eq!(unquote.account_id, None);
    for (request, kind) in [
        (UnsubscriptionRequest::new_order("a".to_string()), SubscriptionType::Order),
        (UnsubscriptionRequest::new_account("a".to_string()), SubscriptionType::Account),
        (UnsubscriptionRequest::new_trade("a".to_string()), SubscriptionType::Trade),
    ] {
        assert_eq!(request.subscription_type, kind);
        assert_eq!(request.symbols, None);
        assert_eq!(request.account_id, Some("a".to_string()));
    }
}

#[test]
fn errors_in_words() {
    assert_eq!(WebullError::Unauthorized.to_string(), "Unauthorized");
    assert_eq!(WebullError::RateLimitExceeded.to_string(), "Rate limit exceeded");
    assert_eq!(WebullError::MfaRequired.to_string(), "MFA required");
    assert_eq!(
        WebullError::ApiError { code: "500".to_string(), message: "boom".to_string() }.to_string(),
        "API error: 500 - boom"
    );
    assert_eq!(
        WebullError::AuthenticationError("x".to_string()).to_string(),
        "Authentication error: x"
    );
    assert_eq!(WebullError::NetworkError("x".to_string()).to_string(), "Network error: x");
    assert_eq!(WebullError::InvalidRequest("x".to_string()).to_string(), "Invalid request: x");
    assert_eq!(
        WebullError::SerializationError("x".to_string()).to_string(),
        "Serialization error: x"
    );
    assert_eq!(WebullError::Unknown("x".to_string()).to_string(), "Unknown error: x");
}
