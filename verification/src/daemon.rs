//! The daemon: its peer bookkeeping, connection admission, log routing,
//! process control decisions and the answers it gives to client requests.

pub mod control;
pub mod error;
pub mod logger;
pub mod network;
pub mod pidfile;
pub mod session;

use vstd::prelude::*;
use crate::clock::{chrono_utc_valid, format_timestamp, is_clock_text};
use crate::daemon::error::{error_text, Error, ErrorKind};
use crate::schemas::{ClientRequest, DaemonEvent};

verus! {

/// Log level of the daemon when none is given.
pub const DEFAULT_LOG_LEVEL: &'static str = "info";

/// What the daemon's network layer must do for a client request.
#[derive(Clone, Debug)]
pub enum NetworkAction {
    /// Nothing: the client is leaving.
    Nothing,
    /// Produce this node's ticket.
    Ticket,
    /// List the connected peers.
    ListPeers,
    /// Connect to the peer this target names.
    Connect { target: String },
    /// Disconnect from this peer.
    Disconnect { peer_id: String },
    /// Send this message to this peer.
    Send { peer_id: String, message: String },
}

/// The network action a request calls for.
pub open spec fn action_of(request: ClientRequest) -> NetworkAction {
    match request {
        ClientRequest::Bye => NetworkAction::Nothing,
        ClientRequest::MyID => NetworkAction::Ticket,
        ClientRequest::List => NetworkAction::ListPeers,
        ClientRequest::Connect { peer_id } => NetworkAction::Connect { target: peer_id },
        ClientRequest::Disconnect { peer_id } => NetworkAction::Disconnect { peer_id },
        ClientRequest::Send { peer_id, message } => NetworkAction::Send { peer_id, message },
    }
}

/// The network action a request calls for.
pub fn action_for(request: &ClientRequest) -> (a: NetworkAction)
    ensures
        a == action_of(*request),
{
    match request {
        ClientRequest::Bye => NetworkAction::Nothing,
        ClientRequest::MyID => NetworkAction::Ticket,
        ClientRequest::List => NetworkAction::ListPeers,
        ClientRequest::Connect { peer_id } => NetworkAction::Connect { target: peer_id.clone() },
        ClientRequest::Disconnect { peer_id } => NetworkAction::Disconnect { peer_id: peer_id.clone() },
        ClientRequest::Send { peer_id, message } => NetworkAction::Send { peer_id: peer_id.clone(), message: message.clone() },
    }
}

/// What came of a network action; failures carry their message.
pub enum ActionOutcome {
    Nothing,
    Ticket(Result<String, Error>),
    Peers(Vec<String>),
    Connected(Result<String, String>),
    Disconnected(Result<bool, String>),
    /// The outcome of sending, with the time it happened, in seconds since the epoch.
    Sent { outcome: Result<(), String>, at_secs: i64 },
}

/// Whether an outcome comes from the action a request calls for.
pub open spec fn outcome_fits(request: ClientRequest, outcome: ActionOutcome) -> bool {
    match request {
        ClientRequest::Bye => outcome is Nothing,
        ClientRequest::MyID => outcome is Ticket,
        ClientRequest::List => outcome is Peers,
        ClientRequest::Connect { .. } => outcome is Connected,
        ClientRequest::Disconnect { .. } => outcome is Disconnected,
        ClientRequest::Send { .. } => outcome is Sent,
    }
}

/// Whether performing the network action `a` can end in the outcome `o`:
/// each action reports in its own kind of outcome.
pub open spec fn produces(a: NetworkAction, o: ActionOutcome) -> bool {
    match a {
        NetworkAction::Nothing => o is Nothing,
        NetworkAction::Ticket => o is Ticket,
        NetworkAction::ListPeers => o is Peers,
        NetworkAction::Connect { .. } => o is Connected,
        NetworkAction::Disconnect { .. } => o is Disconnected,
        NetworkAction::Send { .. } => o is Sent,
    }
}

/// Law: the daemon acts on what the client asked, and answers it. Every
/// outcome of the action a request calls for is one that `respond` accepts
/// for that request; connect, disconnect and send act on the very target,
/// peer and text of the request; and only `Bye` calls for no network work.
pub proof fn lemma_requests_are_acted_on(request: ClientRequest, o: ActionOutcome)
    ensures
        produces(action_of(request), o) ==> outcome_fits(request, o),
        (action_of(request) is Nothing) <==> (request is Bye),
        request matches ClientRequest::Connect { peer_id } ==> action_of(request) matches NetworkAction::Connect { target } && target == peer_id,
        request matches ClientRequest::Disconnect { peer_id } ==> action_of(request) matches NetworkAction::Disconnect { peer_id: p } && p == peer_id,
        request matches ClientRequest::Send { peer_id, message } ==> action_of(request) matches NetworkAction::Send { peer_id: p, message: m } && p == peer_id && m == message,
{
}

/// Whether `info` reports a message sent to `peer_id` at `at_secs`: the
/// time of day in the local time zone, or a marker where there is none.
pub open spec fn sent_text(info: Seq<char>, peer_id: Seq<char>, at_secs: i64) -> bool {
    let head = "sent to "@ + peer_id + " at "@;
    &&& info.len() >= head.len()
    &&& info.take(head.len() as int) == head
    &&& chrono_utc_valid(at_secs) ==> is_clock_text(info.skip(head.len() as int))
    &&& !chrono_utc_valid(at_secs) ==> info.skip(head.len() as int) == "<invalid-time>"@
}

/// What the daemon answers a request, given the outcome of its action: no
/// answer to `Bye`; a failure to produce the ticket is the daemon's own
/// error; every other failure is answered with an error event.
pub fn respond(request: &ClientRequest, outcome: ActionOutcome) -> (r: Result<Option<DaemonEvent>, Error>)
    requires
        outcome_fits(*request, outcome),
    ensures
        match (*request, outcome) {
            (ClientRequest::Bye, _) => r == Ok::<Option<DaemonEvent>, Error>(None),
            (ClientRequest::MyID, ActionOutcome::Ticket(Ok(t))) =>
                r matches Ok(Some(DaemonEvent::MyId { endpoint_id })) && endpoint_id == t,
            (ClientRequest::MyID, ActionOutcome::Ticket(Err(e))) => r == Err::<Option<DaemonEvent>, Error>(e),
            (ClientRequest::List, ActionOutcome::Peers(ps)) =>
                r matches Ok(Some(DaemonEvent::PeerList { peers })) && peers == ps,
            (ClientRequest::Connect { .. }, ActionOutcome::Connected(Ok(id))) =>
                r matches Ok(Some(DaemonEvent::Success { info })) && info@ == "connected to "@ + id@,
            (ClientRequest::Connect { .. }, ActionOutcome::Connected(Err(m))) =>
                r matches Ok(Some(DaemonEvent::Error { message })) && message@ == "failed to connect: "@ + m@,
            (ClientRequest::Disconnect { peer_id }, ActionOutcome::Disconnected(Ok(true))) =>
                r matches Ok(Some(DaemonEvent::Success { info })) && info@ == "disconnected from "@ + peer_id@,
            (ClientRequest::Disconnect { peer_id }, ActionOutcome::Disconnected(Ok(false))) =>
                r matches Ok(Some(DaemonEvent::Error { message })) && message@ == "peer "@ + peer_id@ + " is not connected"@,
            (ClientRequest::Disconnect { .. }, ActionOutcome::Disconnected(Err(m))) =>
                r matches Ok(Some(DaemonEvent::Error { message })) && message@ == "disconnect failed: "@ + m@,
            (ClientRequest::Send { peer_id, .. }, ActionOutcome::Sent { outcome: Ok(()), at_secs }) =>
                r matches Ok(Some(DaemonEvent::Success { info })) && sent_text(info@, peer_id@, at_secs),
            (ClientRequest::Send { .. }, ActionOutcome::Sent { outcome: Err(m), .. }) =>
                r matches Ok(Some(DaemonEvent::Error { message })) && message@ == "send failed: "@ + m@,
            _ => false,
        },
{
    match request {
        ClientRequest::Bye => Ok(None),
        ClientRequest::MyID => match outcome {
            ActionOutcome::Ticket(Ok(t)) => Ok(Some(DaemonEvent::MyId { endpoint_id: t })),
            ActionOutcome::Ticket(Err(e)) => Err(e),
            _ => Ok(None),
        },
        ClientRequest::List => match outcome {
            ActionOutcome::Peers(ps) => Ok(Some(DaemonEvent::PeerList { peers: ps })),
            _ => Ok(None),
        },
        ClientRequest::Connect { .. } => match outcome {
            ActionOutcome::Connected(Ok(id)) => {
                let mut info = String::from_str("connected to ");
                info.append(id.as_str());
                Ok(Some(DaemonEvent::Success { info }))
            },
            ActionOutcome::Connected(Err(m)) => {
                let mut message = String::from_str("failed to connect: ");
                message.append(m.as_str());
                Ok(Some(DaemonEvent::Error { message }))
            },
            _ => Ok(None),
        },
        ClientRequest::Disconnect { peer_id } => match outcome {
            ActionOutcome::Disconnected(Ok(true)) => {
                let mut info = String::from_str("disconnected from ");
                info.append(peer_id.as_str());
                Ok(Some(DaemonEvent::Success { info }))
            },
            ActionOutcome::Disconnected(Ok(false)) => {
                let mut message = String::from_str("peer ");
                message.append(peer_id.as_str());
                message.append(" is not connected");
                Ok(Some(DaemonEvent::Error { message }))
            },
            ActionOutcome::Disconnected(Err(m)) => {
                let mut message = String::from_str("disconnect failed: ");
                message.append(m.as_str());
                Ok(Some(DaemonEvent::Error { message }))
            },
            _ => Ok(None),
        },
        ClientRequest::Send { peer_id, .. } => match outcome {
            ActionOutcome::Sent { outcome: Ok(()), at_secs } => {
                let mut info = String::from_str("sent to ");
                info.append(peer_id.as_str());
                info.append(" at ");
                let time = format_timestamp(at_secs);
                info.append(time.as_str());
                let ghost head = "sent to "@ + peer_id@ + " at "@;
                assert(info@ == head + time@);
                assert(info@.take(head.len() as int) =~= head);
                assert(info@.skip(head.len() as int) =~= time@);
                Ok(Some(DaemonEvent::Success { info }))
            },
            ActionOutcome::Sent { outcome: Err(m), .. } => {
                let mut message = String::from_str("send failed: ");
                message.append(m.as_str());
                Ok(Some(DaemonEvent::Error { message }))
            },
            _ => Ok(None),
        },
    }
}

/// What the client gateway does next with one client.
pub enum GatewayStep {
    /// Hand this request to the daemon's core.
    Forward(ClientRequest),
    /// Keep serving the client.
    Continue,
    /// This client's session is over; wait for the next one.
    EndSession,
    /// The gateway fails with this error.
    Fail(Error),
}

/// The gateway's step after receiving from the client: `Bye` and a closed
/// connection end the session; other failures end the gateway.
pub fn on_client_request(received: Result<ClientRequest, Error>) -> (s: GatewayStep)
    ensures
        match received {
            Ok(ClientRequest::Bye) => s is EndSession,
            Ok(req) => s == GatewayStep::Forward(req),
            Err(e) => if e.kind == ErrorKind::ClientAbortedConnection {
                s is EndSession
            } else {
                s matches GatewayStep::Fail(f) && f.kind == ErrorKind::Other && f.payload is Some
                    && f.payload.unwrap()@ == error_text(e)
            },
        },
{
    match received {
        Ok(ClientRequest::Bye) => GatewayStep::EndSession,
        Ok(req) => GatewayStep::Forward(req),
        Err(e) => {
            if e.kind == ErrorKind::ClientAbortedConnection {
                GatewayStep::EndSession
            } else {
                GatewayStep::Fail(Error::other(e.message()))
            }
        },
    }
}

/// The gateway's step after passing an event on to the client: a closed
/// connection ends the session, other failures end the gateway.
pub fn on_event_sent(sent: Result<(), Error>) -> (s: GatewayStep)
    ensures
        match sent {
            Ok(()) => s is Continue,
            Err(e) => if e.kind == ErrorKind::ClientAbortedConnection {
                s is EndSession
            } else {
                s matches GatewayStep::Fail(f) && f.kind == ErrorKind::Other && f.payload is Some
                    && f.payload.unwrap()@ == error_text(e)
            },
        },
{
    match sent {
        Ok(()) => GatewayStep::Continue,
        Err(e) => {
            if e.kind == ErrorKind::ClientAbortedConnection {
                GatewayStep::EndSession
            } else {
                GatewayStep::Fail(Error::other(e.message()))
            }
        },
    }
}

/// The daemon error for a failure of the socket to the client: the client
/// closing the connection is told apart from other failures.
pub fn from_socket_error(err: crate::socket::Error) -> (r: Error)
    ensures
        r.kind == (if err.kind == crate::socket::ErrorKind::ConnectionAborted {
            ErrorKind::ClientAbortedConnection
        } else {
            ErrorKind::Other
        }),
        r.payload is Some && r.payload.unwrap()@ == crate::socket::error_text(err),
{
    if err.kind() == crate::socket::ErrorKind::ConnectionAborted {
        Error::new(ErrorKind::ClientAbortedConnection, err.message())
    } else {
        Error::other(err.message())
    }
}

/// The line, shown and logged, with which the daemon ends on `err`.
pub fn failure_line(err: &Error) -> (r: String)
    ensures
        r@ == (if err.kind == ErrorKind::ClientAcceptFailed {
            "Daemon failed to accept client connection: "@
        } else {
            "Daemon failed: "@
        }) + error_text(*err),
{
    let mut r = if err.kind() == ErrorKind::ClientAcceptFailed {
        String::from_str("Daemon failed to accept client connection: ")
    } else {
        String::from_str("Daemon failed: ")
    };
    let m = err.message();
    r.append(m.as_str());
    r
}

/// A step of the daemon's start-up.
#[derive(Clone, Copy, Debug, PartialEq, Eq, Structural)]
pub enum InitStep {
    PidFile,
    ClientListener,
    Networking,
    SignalHandler,
}

/// What the daemon's start-up step `step` was to do.
pub open spec fn init_step_text(step: InitStep) -> Seq<char> {
    match step {
        InitStep::PidFile => "failed to create daemon PID file: "@,
        InitStep::ClientListener => "failed to create client connection listener: "@,
        InitStep::Networking => "failed to initialize networking stack: "@,
        InitStep::SignalHandler => "failed to create daemon signal handler: "@,
    }
}

/// The error with which the daemon's start-up fails at `step`, for the
/// failure described by `cause`.
pub fn init_failure(step: InitStep, cause: &str) -> (r: Error)
    ensures
        r.kind == ErrorKind::Other,
        r.payload is Some && r.payload.unwrap()@ == init_step_text(step) + cause@,
{
    let mut m = match step {
        InitStep::PidFile => String::from_str("failed to create daemon PID file: "),
        InitStep::ClientListener => String::from_str("failed to create client connection listener: "),
        InitStep::Networking => String::from_str("failed to initialize networking stack: "),
        InitStep::SignalHandler => String::from_str("failed to create daemon signal handler: "),
    };
    m.append(cause);
    Error::other(m)
}

/// The error when the client gateway stops without failing, which it never should.
pub const GATEWAY_STOPPED_TEXT: &'static str = "client gateway stopped unexpectedly";

/// The error when the core's events can no longer reach the gateway.
pub const EVENTS_CLOSED_TEXT: &'static str = "daemon event channel closed unexpectedly";

} // verus!
