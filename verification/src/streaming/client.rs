use crate::error::{is_invalid_request, WebullError, WebullResult};
use crate::streaming::events::{ConnectionState, Event};
use crate::streaming::subscription::{SubscriptionRequest, UnsubscriptionRequest};
use crate::utils::clock::elapsed;
use crate::utils::text::{chain, replace_all, replaced};
use vstd::prelude::*;

verus! {

/// Whether the supervisor, with `attempts` attempts on its counter and a
/// ceiling of `max`, gives up instead of trying once more.
pub open spec fn gives_up(attempts: u32, max: u32) -> bool {
    attempts > max
}

/// Where the supervisor of a session stands.
#[derive(Debug, Clone, Copy, PartialEq, Eq, Structural)]
pub enum Phase {
    /// Not started
    Idle,
    /// About to begin a round
    Ready,
    /// Waiting for a token
    AwaitingToken,
    /// Waiting for the socket to open
    Connecting,
    /// The session is running
    InSession,
    /// Sleeping at the end of a round; the next round follows
    Pausing,
    /// The supervisor has stopped
    Stopped,
}

/// What the runner reports to the supervisor.
#[derive(Debug, Clone, PartialEq, Eq)]
pub enum Signal {
    /// Begin, or go on after a sleep
    Continue,
    /// A token is at hand
    TokenReady,
    /// No token could be had, for this reason
    TokenFailed(WebullError),
    /// The socket is open, under this connection ID
    Opened(String),
    /// The socket could not be opened, for this reason
    Refused(String),
    /// The session has ended, cleanly or for this reason
    Ended(Option<String>),
}

/// What the supervisor asks of its runner.
#[derive(Debug, Clone, PartialEq, Eq)]
pub enum Command {
    /// Get a token, and report `TokenReady` or `TokenFailed`
    GetToken,
    /// Open the socket at this URL, and report `Opened` or `Refused`
    Open(String),
    /// Run the session until it ends, and report `Ended`
    RunSession,
    /// Sleep for this many seconds, and report `Continue`
    Sleep(u64),
    /// Stop: the event channel is closed; drop its sender, and report
    /// nothing more
    Stop,
}

/// A command as contracts see it.
pub enum CommandView {
    GetToken,
    Open(Seq<char>),
    RunSession,
    Sleep(u64),
    Stop,
}

impl View for Command {
    type V = CommandView;

    open spec fn view(&self) -> CommandView {
        match self {
            Command::GetToken => CommandView::GetToken,
            Command::Open(url) => CommandView::Open(url@),
            Command::RunSession => CommandView::RunSession,
            Command::Sleep(seconds) => CommandView::Sleep(*seconds),
            Command::Stop => CommandView::Stop,
        }
    }
}

/// One turn of the supervisor: the events to emit, in their order, and what
/// to do next.
#[derive(Debug, Clone, PartialEq, Eq)]
pub struct Turn {
    pub events: Vec<Event>,
    pub command: Command,
}

/// A control message for the server.
#[derive(Debug, Clone, PartialEq, Eq)]
pub enum ControlMessage {
    /// Begin a subscription
    Subscribe(SubscriptionRequest),
    /// End a subscription
    Unsubscribe(UnsubscriptionRequest),
}

impl ControlMessage {
    /// The action that the message asks for.
    pub open spec fn action_name(self) -> Seq<char> {
        match self {
            ControlMessage::Subscribe(_) => "SUBSCRIBE"@,
            ControlMessage::Unsubscribe(_) => "UNSUBSCRIBE"@,
        }
    }

    /// The action that the message asks for.
    pub fn action(&self) -> (name: &'static str)
        ensures
            name@ == self.action_name(),
    {
        match self {
            ControlMessage::Subscribe(_) => "SUBSCRIBE",
            ControlMessage::Unsubscribe(_) => "UNSUBSCRIBE",
        }
    }
}

/// A frame that came over the socket, or the failure to read one.
#[derive(Debug, Clone, PartialEq, Eq)]
pub enum Frame {
    /// A text frame; with the description of the error where its text could
    /// not be read as an event
    Text(Option<String>),
    /// A binary frame
    Binary,
    /// A ping
    Ping,
    /// A pong
    Pong,
    /// A close frame
    Close,
    /// A raw frame
    Raw,
    /// The read failed, with the description of the error
    Failure(String),
}

/// What the session does with a frame.
#[derive(Debug, Clone, PartialEq, Eq)]
pub enum FrameAction {
    /// Hand the event that the text held to the consumer
    Relay,
    /// Hand this event to the consumer
    Emit(Event),
    /// Answer with a pong
    ReplyPong,
    /// Nothing to do
    Ignore,
    /// End the session
    Close,
    /// End the session for this reason, which the supervisor reports
    Fail(String),
}

/// WebSocket client for streaming data from Webull: the state of one
/// logical session, and the supervisor that keeps it alive.
#[derive(Debug, Clone, PartialEq, Eq)]
pub struct WebSocketClient {
    /// Base URL for WebSocket connections
    pub base_url: String,
    /// Connection state
    pub connection_state: ConnectionState,
    /// Where the supervisor stands
    pub phase: Phase,
    /// The ID of the connection of the session, once one was opened
    pub connection_id: Option<String>,
    /// Whether the event channel is open: `connect` opens it, and the
    /// supervisor closes it when it stops
    pub channel_open: bool,
    /// Time of the last heartbeat, ping or pong, in milliseconds on the
    /// session's monotonic clock
    pub last_heartbeat: u64,
    /// Heartbeat interval in seconds
    pub heartbeat_interval: u64,
    /// Reconnect attempts
    pub reconnect_attempts: u32,
    /// Maximum reconnect attempts
    pub max_reconnect_attempts: u32,
    /// Reconnect delay in seconds
    pub reconnect_delay: u64,
}

/// The URL of the socket for a base URL: every "http" in it becomes "ws", and
/// "/ws" follows.
pub open spec fn socket_url(base_url: Seq<char>) -> Seq<char> {
    replaced(base_url, "http"@, "ws"@) + "/ws"@
}

/// The client after the top of a round: with the counter above the ceiling
/// the supervisor gives up, the client has failed, and the event channel is
/// closed; else the attempt is counted, and a token is waited for.
pub open spec fn top(c: WebSocketClient) -> WebSocketClient {
    if gives_up(c.reconnect_attempts, c.max_reconnect_attempts) {
        WebSocketClient {
            connection_state: ConnectionState::Failed,
            phase: Phase::Stopped,
            channel_open: false,
            ..c
        }
    } else {
        WebSocketClient {
            reconnect_attempts: (c.reconnect_attempts + 1) as u32,
            phase: Phase::AwaitingToken,
            ..c
        }
    }
}

/// The client after one turn of the supervisor.
///
/// A round begins at its top. With a token the socket is opened; without
/// one the supervisor sleeps and begins the next round. An open socket makes
/// the client connected, and the attempts are counted from zero again; the
/// session runs, and when it ends the client is disconnected. After the
/// session, and after a socket that did not open, the client is reconnecting,
/// and the supervisor sleeps before the next round. A signal that the phase
/// does not expect stops the supervisor. The supervisor that stops closes the
/// event channel: nothing more is sent on it.
pub open spec fn next(c: WebSocketClient, signal: Signal) -> WebSocketClient {
    match (c.phase, signal) {
        (Phase::Ready, Signal::Continue) => top(c),
        (Phase::Pausing, Signal::Continue) => top(c),
        (Phase::AwaitingToken, Signal::TokenReady) => WebSocketClient {
            phase: Phase::Connecting,
            ..c
        },
        (Phase::AwaitingToken, Signal::TokenFailed(_)) => WebSocketClient {
            phase: Phase::Pausing,
            ..c
        },
        (Phase::Connecting, Signal::Opened(id)) => WebSocketClient {
            connection_state: ConnectionState::Connected,
            reconnect_attempts: 0,
            phase: Phase::InSession,
            connection_id: Some(id),
            ..c
        },
        (Phase::Connecting, Signal::Refused(_)) => WebSocketClient {
            connection_state: ConnectionState::Reconnecting,
            phase: Phase::Pausing,
            ..c
        },
        (Phase::InSession, Signal::Ended(_)) => WebSocketClient {
            connection_state: ConnectionState::Reconnecting,
            phase: Phase::Pausing,
            ..c
        },
        _ => WebSocketClient { phase: Phase::Stopped, channel_open: false, ..c },
    }
}

/// What the supervisor asks for at the top of a round.
pub open spec fn top_command(c: WebSocketClient) -> CommandView {
    if gives_up(c.reconnect_attempts, c.max_reconnect_attempts) {
        CommandView::Stop
    } else {
        CommandView::GetToken
    }
}

/// What the supervisor asks of its runner in one turn.
pub open spec fn command_of(c: WebSocketClient, signal: Signal) -> CommandView {
    match (c.phase, signal) {
        (Phase::Ready, Signal::Continue) => top_command(c),
        (Phase::Pausing, Signal::Continue) => top_command(c),
        (Phase::AwaitingToken, Signal::TokenReady) => CommandView::Open(socket_url(c.base_url@)),
        (Phase::AwaitingToken, Signal::TokenFailed(_)) => CommandView::Sleep(c.reconnect_delay),
        (Phase::Connecting, Signal::Opened(_)) => CommandView::RunSession,
        (Phase::Connecting, Signal::Refused(_)) => CommandView::Sleep(c.reconnect_delay),
        (Phase::InSession, Signal::Ended(_)) => CommandView::Sleep(c.reconnect_delay),
        _ => CommandView::Stop,
    }
}

/// Whether `event` is the one that reports that the supervisor has given up.
pub open spec fn is_failure(event: Event, now: i64) -> bool {
    event.is_connection(now, ConnectionState::Failed, None, "Maximum reconnect attempts exceeded"@)
}

/// Whether `event` is the one that reports that the client is reconnecting.
pub open spec fn is_reconnecting(event: Event, now: i64) -> bool {
    event.is_connection(now, ConnectionState::Reconnecting, None, "Reconnecting..."@)
}

/// Whether `events` are what the supervisor emits in one turn, made at
/// `now`: the failure where it gives up; the error where no token could be
/// had; the connection, with its ID, where the socket opened; the error, and
/// then that the client is reconnecting, where the socket did not open; and at
/// the end of a session its error, if it had one, then the disconnection, and
/// then that the client is reconnecting.
pub open spec fn are_events(
    events: Seq<Event>,
    c: WebSocketClient,
    signal: Signal,
    now: i64,
) -> bool {
    match (c.phase, signal) {
        (Phase::Ready, Signal::Continue) | (Phase::Pausing, Signal::Continue) => if gives_up(
            c.reconnect_attempts,
            c.max_reconnect_attempts,
        ) {
            events.len() == 1 && is_failure(events[0], now)
        } else {
            events.len() == 0
        },
        (Phase::AwaitingToken, Signal::TokenFailed(error)) => events.len() == 1
            && events[0].is_error(
            now,
            "AUTH_ERROR"@,
            "Authentication error: "@ + error.description(),
        ),
        (Phase::Connecting, Signal::Opened(id)) => events.len() == 1 && events[0].is_connection(
            now,
            ConnectionState::Connected,
            Some(id@),
            "Connection established"@,
        ),
        (Phase::Connecting, Signal::Refused(why)) => events.len() == 2 && events[0].is_error(
            now,
            "WS_CONNECT_ERROR"@,
            "WebSocket connection error: "@ + why@,
        ) && is_reconnecting(events[1], now),
        (Phase::InSession, Signal::Ended(error)) => {
            &&& match error {
                Some(why) => events.len() == 3 && events[0].is_error(
                    now,
                    "WS_ERROR"@,
                    "WebSocket error: "@ + why@,
                ),
                None => events.len() == 2,
            }
            &&& events[events.len() - 2].is_connection(
                now,
                ConnectionState::Disconnected,
                crate::utils::text::owned_text_of(c.connection_id),
                "Connection closed"@,
            )
            &&& is_reconnecting(events.last(), now)
        },
        _ => events.len() == 0,
    }
}

/// The client after so many rounds in a row in which a token was at hand
/// and the socket did not open.
pub open spec fn refused_rounds(c: WebSocketClient, why: String, rounds: nat) -> WebSocketClient
    decreases rounds,
{
    if rounds == 0 {
        c
    } else {
        next(
            next(
                next(refused_rounds(c, why, (rounds - 1) as nat), Signal::Continue),
                Signal::TokenReady,
            ),
            Signal::Refused(why),
        )
    }
}

/// The ceiling on reconnects. Take a supervisor about to begin, with a
/// counter of zero and a ceiling of `max`, for which every socket fails to
/// open. Each of its first `max + 1` rounds, the first attempt and `max`
/// reconnects, begins with the request for a token, and counts one attempt.
/// The round after them begins, and ends, with the command to stop.
pub proof fn law_reconnect_ceiling(c: WebSocketClient, why: String, rounds: nat)
    requires
        c.phase == Phase::Ready,
        c.reconnect_attempts == 0,
        c.max_reconnect_attempts < u32::MAX,
        rounds <= c.max_reconnect_attempts + 1,
    ensures
        refused_rounds(c, why, rounds).reconnect_attempts == rounds,
        refused_rounds(c, why, rounds).max_reconnect_attempts == c.max_reconnect_attempts,
        refused_rounds(c, why, rounds).phase == if rounds == 0 {
            Phase::Ready
        } else {
            Phase::Pausing
        },
        command_of(refused_rounds(c, why, rounds), Signal::Continue) == if rounds
            == c.max_reconnect_attempts + 1 {
            CommandView::Stop
        } else {
            CommandView::GetToken
        },
        rounds == c.max_reconnect_attempts + 1 ==> next(
            refused_rounds(c, why, rounds),
            Signal::Continue,
        ).phase == Phase::Stopped && next(
            refused_rounds(c, why, rounds),
            Signal::Continue,
        ).connection_state == ConnectionState::Failed,
    decreases rounds,
{
    if rounds > 0 {
        law_reconnect_ceiling(c, why, (rounds - 1) as nat);
    }
}

/// After a disconnect the supervisor makes no further attempt, and the
/// event channel closes. With the counter above the ceiling, as `disconnect`
/// leaves it, the round that the supervisor next comes to begin asks for no
/// token and opens no socket: it ends with the command to stop, and with the
/// channel closed. A session that is running ends in a pause after which that
/// is the next turn.
pub proof fn law_disconnect_stops(c: WebSocketClient, error: Option<String>)
    requires
        gives_up(c.reconnect_attempts, c.max_reconnect_attempts),
    ensures
        c.phase == Phase::Ready || c.phase == Phase::Pausing ==> {
            &&& command_of(c, Signal::Continue) == CommandView::Stop
            &&& next(c, Signal::Continue).phase == Phase::Stopped
            &&& !next(c, Signal::Continue).channel_open
        },
        c.phase == Phase::InSession ==> {
            &&& command_of(next(c, Signal::Ended(error)), Signal::Continue) == CommandView::Stop
            &&& next(next(c, Signal::Ended(error)), Signal::Continue).phase == Phase::Stopped
            &&& !next(next(c, Signal::Ended(error)), Signal::Continue).channel_open
        },
{
}

/// The command to stop and the closed channel come together: a turn ends
/// with the command to stop exactly when it leaves the supervisor stopped, and
/// a supervisor that has stopped has closed the event channel and stays
/// stopped, whatever is reported to it.
pub proof fn law_stop_closes_channel(c: WebSocketClient, signal: Signal, then: Signal)
    ensures
        command_of(c, signal) == CommandView::Stop <==> next(c, signal).phase == Phase::Stopped,
        next(c, signal).phase == Phase::Stopped ==> {
            &&& !next(c, signal).channel_open
            &&& next(next(c, signal), then).phase == Phase::Stopped
            &&& !next(next(c, signal), then).channel_open
            &&& command_of(next(c, signal), then) == CommandView::Stop
        },
{
}

impl WebSocketClient {
    /// Create a new WebSocket client: disconnected, with a heartbeat every
    /// thirty seconds, and five reconnects five seconds apart.
    pub fn new(base_url: String) -> (client: Self)
        ensures
            client == (WebSocketClient {
                base_url,
                connection_state: ConnectionState::Disconnected,
                phase: Phase::Idle,
                connection_id: None,
                channel_open: false,
                last_heartbeat: 0,
                heartbeat_interval: 30,
                reconnect_attempts: 0,
                max_reconnect_attempts: 5,
                reconnect_delay: 5,
            }),
    {
        WebSocketClient {
            base_url,
            connection_state: ConnectionState::Disconnected,
            phase: Phase::Idle,
            connection_id: None,
            channel_open: false,
            last_heartbeat: 0,
            heartbeat_interval: 30,
            reconnect_attempts: 0,
            max_reconnect_attempts: 5,
            reconnect_delay: 5,
        }
    }

    /// Begin to connect: the event channel opens, the client is reconnecting,
    /// the attempts are counted from zero, and the supervisor is about to
    /// begin. Its runner reports `Continue` to `step`, and from then on does
    /// what each turn asks for.
    pub fn connect(&mut self)
        ensures
            *final(self) == (WebSocketClient {
                connection_state: ConnectionState::Reconnecting,
                phase: Phase::Ready,
                channel_open: true,
                reconnect_attempts: 0,
                ..*old(self)
            }),
    {
        self.channel_open = true;
        self.connection_state = ConnectionState::Reconnecting;
        self.reconnect_attempts = 0;
        self.phase = Phase::Ready;
    }

    /// The event that reports that the client is reconnecting.
    fn reconnecting(now: i64) -> (event: Event)
        ensures
            is_reconnecting(event, now),
    {
        Event::connection(now, ConnectionState::Reconnecting, None, "Reconnecting...")
    }

    /// The top of a round.
    fn begin_round(&mut self, events: &mut Vec<Event>, now: i64) -> (command: Command)
        requires
            old(self).max_reconnect_attempts < u32::MAX,
        ensures
            *final(self) == top(*old(self)),
            command@ == top_command(*old(self)),
            if gives_up(old(self).reconnect_attempts, old(self).max_reconnect_attempts) {
                final(events)@.len() == old(events)@.len() + 1 && final(events)@.drop_last() == old(
                    events,
                )@ && is_failure(final(events)@.last(), now)
            } else {
                final(events)@ == old(events)@
            },
    {
        if self.reconnect_attempts > self.max_reconnect_attempts {
            self.connection_state = ConnectionState::Failed;
            self.phase = Phase::Stopped;
            self.channel_open = false;
            let ghost before = events@;
            events.push(
                Event::connection(
                    now,
                    ConnectionState::Failed,
                    None,
                    "Maximum reconnect attempts exceeded",
                ),
            );
            assert(events@.drop_last() =~= before);
            Command::Stop
        } else {
            self.reconnect_attempts = self.reconnect_attempts + 1;
            self.phase = Phase::AwaitingToken;
            Command::GetToken
        }
    }

    /// One turn of the supervisor, at the time `now`: what the runner reports
    /// moves the client on, and the result holds the events to emit and what
    /// the runner is to do next.
    pub fn step(&mut self, signal: Signal, now: i64) -> (turn: Turn)
        requires
            old(self).max_reconnect_attempts < u32::MAX,
        ensures
            *final(self) == next(*old(self), signal),
            turn.command@ == command_of(*old(self), signal),
            are_events(turn.events@, *old(self), signal, now),
    {
        let mut events: Vec<Event> = Vec::new();
        let command = match signal {
            Signal::Continue => match self.phase {
                Phase::Ready => self.begin_round(&mut events, now),
                Phase::Pausing => self.begin_round(&mut events, now),
                _ => {
                    self.phase = Phase::Stopped;
                    self.channel_open = false;
                    Command::Stop
                },
            },
            Signal::TokenReady => match self.phase {
                Phase::AwaitingToken => {
                    self.phase = Phase::Connecting;
                    Command::Open(self.connect_websocket())
                },
                _ => {
                    self.phase = Phase::Stopped;
                    self.channel_open = false;
                    Command::Stop
                },
            },
            Signal::TokenFailed(error) => match self.phase {
                Phase::AwaitingToken => {
                    let why = error.to_string();
                    events.push(
                        Event::error(
                            now,
                            "AUTH_ERROR",
                            chain("Authentication error: ", why.as_str()),
                        ),
                    );
                    self.phase = Phase::Pausing;
                    Command::Sleep(self.reconnect_delay)
                },
                _ => {
                    self.phase = Phase::Stopped;
                    self.channel_open = false;
                    Command::Stop
                },
            },
            Signal::Opened(id) => match self.phase {
                Phase::Connecting => {
                    events.push(
                        Event::connection(
                            now,
                            ConnectionState::Connected,
                            Some(id.as_str()),
                            "Connection established",
                        ),
                    );
                    self.connection_state = ConnectionState::Connected;
                    self.reconnect_attempts = 0;
                    self.phase = Phase::InSession;
                    self.connection_id = Some(id);
                    Command::RunSession
                },
                _ => {
                    self.phase = Phase::Stopped;
                    self.channel_open = false;
                    Command::Stop
                },
            },
            Signal::Refused(why) => match self.phase {
                Phase::Connecting => {
                    events.push(
                        Event::error(
                            now,
                            "WS_CONNECT_ERROR",
                            chain("WebSocket connection error: ", why.as_str()),
                        ),
                    );
                    events.push(WebSocketClient::reconnecting(now));
                    self.connection_state = ConnectionState::Reconnecting;
                    self.phase = Phase::Pausing;
                    Command::Sleep(self.reconnect_delay)
                },
                _ => {
                    self.phase = Phase::Stopped;
                    self.channel_open = false;
                    Command::Stop
                },
            },
            Signal::Ended(error) => match self.phase {
                Phase::InSession => {
                    if let Some(why) = &error {
                        events.push(
                            Event::error(now, "WS_ERROR", chain("WebSocket error: ", why.as_str())),
                        );
                    }
                    let id = match &self.connection_id {
                        Some(id) => Some(id.as_str()),
                        None => None,
                    };
                    events.push(
                        Event::connection(
                            now,
                            ConnectionState::Disconnected,
                            id,
                            "Connection closed",
                        ),
                    );
                    events.push(WebSocketClient::reconnecting(now));
                    self.connection_state = ConnectionState::Reconnecting;
                    self.phase = Phase::Pausing;
                    Command::Sleep(self.reconnect_delay)
                },
                _ => {
                    self.phase = Phase::Stopped;
                    self.channel_open = false;
                    Command::Stop
                },
            },
        };
        Turn { events, command }
    }

    /// Disconnect from the WebSocket server: the client is disconnected, and
    /// the counter goes above the ceiling, so that the supervisor gives up when
    /// it next comes to try, and closes the event channel as it stops. The
    /// supervisor sees this when its round ends; the socket is not closed here.
    pub fn disconnect(&mut self) -> (r: WebullResult<()>)
        requires
            old(self).max_reconnect_attempts < u32::MAX,
        ensures
            r is Ok,
            *final(self) == (WebSocketClient {
                connection_state: ConnectionState::Disconnected,
                reconnect_attempts: (old(self).max_reconnect_attempts + 1) as u32,
                ..*old(self)
            }),
            gives_up(final(self).reconnect_attempts, final(self).max_reconnect_attempts),
    {
        self.connection_state = ConnectionState::Disconnected;
        self.reconnect_attempts = self.max_reconnect_attempts + 1;
        Ok(())
    }

    /// Subscribe to a topic. Only a connected client can: else the request
    /// is invalid. The result is the control message to send over the socket.
    pub fn subscribe(&self, request: SubscriptionRequest) -> (r: WebullResult<ControlMessage>)
        ensures
            match r {
                Ok(message) => self.connection_state == ConnectionState::Connected && message
                    == ControlMessage::Subscribe(request),
                Err(e) => self.connection_state != ConnectionState::Connected
                    && is_invalid_request(e, "Not connected to WebSocket server"@),
            },
    {
        if self.connection_state != ConnectionState::Connected {
            return Err(
                WebullError::InvalidRequest("Not connected to WebSocket server".to_owned()),
            );
        }
        Ok(ControlMessage::Subscribe(request))
    }

    /// Unsubscribe from a topic. Only a connected client can: else the
    /// request is invalid. The result is the control message to send over the
    /// socket.
    pub fn unsubscribe(&self, request: UnsubscriptionRequest) -> (r: WebullResult<ControlMessage>)
        ensures
            match r {
                Ok(message) => self.connection_state == ConnectionState::Connected && message
                    == ControlMessage::Unsubscribe(request),
                Err(e) => self.connection_state != ConnectionState::Connected
                    && is_invalid_request(e, "Not connected to WebSocket server"@),
            },
    {
        if self.connection_state != ConnectionState::Connected {
            return Err(
                WebullError::InvalidRequest("Not connected to WebSocket server".to_owned()),
            );
        }
        Ok(ControlMessage::Unsubscribe(request))
    }

    /// The URL of the socket, as text.
    pub fn connect_websocket(&self) -> (url: String)
        ensures
            url@ == socket_url(self.base_url@),
    {
        proof {
            reveal_strlit("http");
        }
        let swapped = replace_all(self.base_url.as_str(), "http", "ws");
        chain(swapped.as_str(), "/ws")
    }

    /// Whether a heartbeat is due at the time `now` on the session's clock:
    /// whether the time since the last heartbeat, ping or pong exceeds the
    /// heartbeat interval.
    pub open spec fn heartbeat_due(&self, now: u64) -> bool {
        elapsed(now, self.last_heartbeat) > self.heartbeat_interval * 1000
    }

    /// The heartbeat ticker has fired, at `now` on the session's clock. Where
    /// a heartbeat is due, the result is the heartbeat event to emit, with the
    /// given ID and wall-clock time, a heartbeat is to be sent, and `now`
    /// becomes the time of the last heartbeat. Else nothing is to be done.
    pub fn heartbeat_tick(&mut self, now: u64, id: String, wall: i64) -> (beat: Option<Event>)
        ensures
            if old(self).heartbeat_due(now) {
                &&& beat matches Some(event) && event.is_heartbeat(wall, id@)
                &&& *final(self) == (WebSocketClient { last_heartbeat: now, ..*old(self) })
            } else {
                beat is None && *final(self) == *old(self)
            },
    {
        let since = if now >= self.last_heartbeat {
            now - self.last_heartbeat
        } else {
            0
        };
        let seconds = since / 1000;
        if seconds > self.heartbeat_interval || (seconds == self.heartbeat_interval && since % 1000
            > 0) {
            self.last_heartbeat = now;
            Some(Event::heartbeat(wall, id))
        } else {
            None
        }
    }

    /// Handle one frame of the session, read at `now` on the session's clock
    /// and at `wall` on the wall clock. A text frame is relayed as the event it
    /// holds, or reported as a parse error; a ping is answered with a pong, and
    /// ping and pong both count as activity; a close frame ends the session; a
    /// failed read ends it with the failure as the reason; other frames are
    /// ignored.
    pub fn handle_websocket(&mut self, frame: Frame, now: u64, wall: i64) -> (action: FrameAction)
        ensures
            match frame {
                Frame::Text(None) => action is Relay,
                Frame::Text(Some(why)) => action matches FrameAction::Emit(event) && event.is_error(
                    wall,
                    "PARSE_ERROR"@,
                    "Failed to parse message: "@ + why@,
                ),
                Frame::Binary => action is Ignore,
                Frame::Ping => action is ReplyPong,
                Frame::Pong => action is Ignore,
                Frame::Close => action is Close,
                Frame::Raw => action is Ignore,
                Frame::Failure(why) => action == FrameAction::Fail(why),
            },
            *final(self) == (WebSocketClient {
                last_heartbeat: if frame is Ping || frame is Pong {
                    now
                } else {
                    old(self).last_heartbeat
                },
                ..*old(self)
            }),
    {
        match frame {
            Frame::Text(None) => FrameAction::Relay,
            Frame::Text(Some(why)) => FrameAction::Emit(
                Event::error(wall, "PARSE_ERROR", chain("Failed to parse message: ", why.as_str())),
            ),
            Frame::Binary => FrameAction::Ignore,
            Frame::Ping => {
                self.last_heartbeat = now;
                FrameAction::ReplyPong
            },
            Frame::Pong => {
                self.last_heartbeat = now;
                FrameAction::Ignore
            },
            Frame::Close => FrameAction::Close,
            Frame::Raw => FrameAction::Ignore,
            Frame::Failure(why) => FrameAction::Fail(why),
        }
    }

    /// The pong that answers a ping could not be sent. The result is the
    /// error event to emit; the session goes on.
    pub fn pong_failed(&self, error: &str, now: i64) -> (event: Event)
        ensures
            event.is_error(now, "PONG_ERROR"@, "Failed to send pong: "@ + error@),
    {
        Event::error(now, "PONG_ERROR", chain("Failed to send pong: ", error))
    }
}

} // verus!
