//! The connection manager.
//!
//! The manager owns the state of the one connection to the daemon: which
//! socket handle is installed and whether it is known to be broken. It never
//! touches a socket. Each operation is a step: the embedder reports what the
//! transport did, the manager updates its state and answers with what is to
//! be done next. Three procedures are driven this way: initialisation
//! ([`log_init`], [`init_step`]), logging ([`log`], [`send_failed`]) and the
//! background task that restores a lost connection ([`reconnect_wake`],
//! [`reconnect_step`]). [`close`] has the socket shut down and marks the
//! connection as closed; it leaves the reconnect task to itself.

use crate::diagnostics::{
    connection_lost_line, errno_description, report_connection_lost, report_send_errno,
    send_failure_line,
};
use crate::fallback::{FallbackLine, FallbackLineView};
use crate::frame::{encode_handshake, encode_log_record, handshake_frame, log_record_frame};
use crate::priority::LogPriority;
use crate::timestamp::{current_timestamp, Timestamp};
use vstd::prelude::*;

verus! {

/// The time the reconnect task lets pass between two attempts, in
/// milliseconds.
pub const RECONNECT_BACKOFF_MS: u64 = 100;

/// The path of the daemon's socket, to which every connect goes.
pub const SERVER_SOCKET: &'static str = "/dev/socket/notcat_socket";

/// What a descriptor reads while no handle is installed: a number that no
/// open socket has.
pub const NO_DESCRIPTOR: i32 = -1;

/// A token for one socket endpoint that the embedder has opened.
#[derive(Clone, Copy, Debug, PartialEq, Eq, Structural)]
pub struct SocketHandle {
    pub descriptor: i32,
}

/// The named states of the connection.
#[derive(Clone, Copy, Debug, PartialEq, Eq, Structural)]
pub enum Phase {
    /// No handle was ever installed.
    Uninitialized,
    /// A handle is installed and not known to be broken.
    Connected,
    /// The installed handle is known to be broken; a new connection is
    /// pending or being made.
    Reconnecting,
    /// `close` was called. Nothing leads out of this state. It says
    /// nothing of the handle or of the reconnect task, which `close` leaves
    /// as they are.
    Closed,
}

/// The step of initialisation at which the transport failed.
#[derive(Clone, Copy, Debug, PartialEq, Eq, Structural)]
pub enum SetupStage {
    Socket,
    Address,
    Connect,
}

/// Why initialisation failed: the stage, and the error number that the
/// transport gave.
#[derive(Clone, Copy, Debug, PartialEq, Eq, Structural)]
pub struct InitError {
    pub stage: SetupStage,
    pub errno: i32,
}

/// What the transport did in answer to a request to open or connect a
/// socket.
#[derive(Clone, Copy, Debug, PartialEq, Eq, Structural)]
pub enum TransportEvent {
    /// A new endpoint was opened.
    SocketOpened { handle: SocketHandle },
    /// No endpoint could be opened.
    SocketFailed { errno: i32 },
    /// The daemon's socket path could not be turned into an address.
    AddressFailed { errno: i32 },
    /// The daemon did not accept the connection.
    ConnectFailed { errno: i32 },
    /// The installed handle is now connected; `pid` is the id of this
    /// process.
    Connected { pid: u32 },
    /// The handshake went out.
    HandshakeSent,
    /// The handshake could not be sent.
    HandshakeFailed { errno: i32 },
}

/// Why a record could not be sent.
#[derive(Clone, Copy, Debug, PartialEq, Eq, Structural)]
pub enum SendError {
    /// The peer has gone away.
    BrokenPipe,
    /// The socket is not connected.
    NotConnected,
    /// Any other error, by its number.
    Other { errno: i32 },
}

/// What initialisation asks of the embedder next.
#[derive(Clone, Copy, Debug, PartialEq, Eq)]
pub enum InitAction {
    /// Nothing is left to do: close `discard` if there is one, and report
    /// success.
    Done { discard: Option<SocketHandle> },
    /// Open a new endpoint and report how that went.
    OpenSocket,
    /// Connect `handle` to the daemon's socket path and report how that
    /// went.
    Connect { handle: SocketHandle },
    /// Send the [`handshake`] for `pid` and `sink_type` on `handle` and
    /// report how that went.
    Handshake { handle: SocketHandle, pid: u32, sink_type: u8 },
    /// Start the reconnect task and report success.
    StartTask,
    /// Report the failure.
    Fail { error: InitError },
}

/// What the reconnect task is to do next.
#[derive(Clone, Copy, Debug, PartialEq, Eq)]
pub enum ReconnectAction {
    /// Close `discard` if there is one, sleep until the next wake-up, then
    /// ask with [`reconnect_wake`].
    Wait { discard: Option<SocketHandle> },
    /// Let `delay_ms` pass, open a new endpoint and report how that went.
    OpenSocket { delay_ms: u64 },
    /// Close `discard` if there is one, let `delay_ms` pass, connect
    /// `handle` to the daemon's socket path and report how that went.
    Connect { handle: SocketHandle, delay_ms: u64, discard: Option<SocketHandle> },
    /// Send the [`handshake`] for `pid` and `sink_type` on `handle` and
    /// report how that went.
    Handshake { handle: SocketHandle, pid: u32, sink_type: u8 },
}

/// The state of the connection as contracts see it.
pub struct ConnectionState {
    /// The installed handle.
    pub handle: Option<SocketHandle>,
    /// Whether the installed handle is known to be broken.
    pub lost: bool,
    /// Whether `close` was called.
    pub closed: bool,
    /// The sinks that the handshake asks for.
    pub sink_type: u8,
}

impl ConnectionState {
    /// What holds of every state that the manager can be in: only an
    /// installed handle is known to be broken.
    pub open spec fn wf(self) -> bool {
        self.lost ==> self.handle is Some
    }

    /// Whether the reconnect task has work: the installed handle is known
    /// to be broken.
    pub open spec fn restoring(self) -> bool {
        self.lost && self.handle is Some
    }

    /// The state before anything has happened.
    pub open spec fn initial() -> ConnectionState {
        ConnectionState { handle: None, lost: false, closed: false, sink_type: 0 }
    }

    /// The named state that this state belongs to.
    pub open spec fn phase(self) -> Phase {
        if self.closed {
            Phase::Closed
        } else if self.handle is None {
            Phase::Uninitialized
        } else if self.lost {
            Phase::Reconnecting
        } else {
            Phase::Connected
        }
    }

    /// The descriptor on which records are sent.
    pub open spec fn descriptor(self) -> i32 {
        match self.handle {
            Some(h) => h.descriptor,
            None => NO_DESCRIPTOR,
        }
    }

    /// The answer to a call of `log_init`.
    pub open spec fn init_request(self) -> InitAction {
        if self.phase() == Phase::Uninitialized {
            InitAction::OpenSocket
        } else {
            InitAction::Done { discard: None }
        }
    }

    /// The state after a step of initialisation.
    pub open spec fn after_init_step(self, sink_type: u8, event: TransportEvent) -> ConnectionState {
        match event {
            TransportEvent::SocketOpened { handle } if self.phase() == Phase::Uninitialized => {
                ConnectionState { handle: Some(handle), sink_type, ..self }
            },
            _ => self,
        }
    }

    /// The answer to a step of initialisation.
    pub open spec fn init_action(self, event: TransportEvent) -> InitAction {
        match event {
            TransportEvent::SocketOpened { handle } => {
                if self.phase() == Phase::Uninitialized {
                    InitAction::Connect { handle }
                } else {
                    InitAction::Done { discard: Some(handle) }
                }
            },
            TransportEvent::SocketFailed { errno } => InitAction::Fail {
                error: InitError { stage: SetupStage::Socket, errno },
            },
            TransportEvent::AddressFailed { errno } => InitAction::Fail {
                error: InitError { stage: SetupStage::Address, errno },
            },
            TransportEvent::ConnectFailed { errno } => InitAction::Fail {
                error: InitError { stage: SetupStage::Connect, errno },
            },
            TransportEvent::Connected { pid } => match self.handle {
                Some(handle) => InitAction::Handshake { handle, pid, sink_type: self.sink_type },
                None => self.init_request(),
            },
            TransportEvent::HandshakeSent => self.after_handshake(),
            TransportEvent::HandshakeFailed { .. } => self.after_handshake(),
        }
    }

    /// What initialisation asks for once the handshake was tried, whether
    /// or not it went out.
    pub open spec fn after_handshake(self) -> InitAction {
        if self.handle is Some {
            InitAction::StartTask
        } else {
            self.init_request()
        }
    }

    /// Whether an error on sending means that the connection is lost.
    pub open spec fn means_lost(error: SendError) -> bool {
        error is BrokenPipe || error is NotConnected
    }

    /// Whether a failed send is news for the reconnect task: the error means
    /// that the connection is lost, and a handle is installed.
    pub open spec fn wakes_on(self, error: SendError) -> bool {
        Self::means_lost(error) && self.handle is Some
    }

    /// The state after the connection was found lost: the installed handle
    /// is known to be broken.
    pub open spec fn after_loss(self) -> ConnectionState {
        if self.handle is Some {
            ConnectionState { lost: true, ..self }
        } else {
            self
        }
    }

    /// The state after a failed send.
    pub open spec fn after_send_failure(self, error: SendError) -> ConnectionState {
        if Self::means_lost(error) {
            self.after_loss()
        } else {
            self
        }
    }

    /// The line that reports a failed send.
    pub open spec fn send_failure_report(error: SendError) -> FallbackLineView {
        match error {
            SendError::Other { errno } => send_failure_line(errno_description(errno)),
            _ => connection_lost_line(),
        }
    }

    /// The answer to a wake-up of the reconnect task.
    pub open spec fn wake_action(self) -> ReconnectAction {
        if self.restoring() {
            ReconnectAction::OpenSocket { delay_ms: 0 }
        } else {
            ReconnectAction::Wait { discard: None }
        }
    }

    /// The state after a step of the reconnect task.
    pub open spec fn after_reconnect_step(self, event: TransportEvent) -> ConnectionState {
        if !self.restoring() {
            self
        } else {
            match event {
                TransportEvent::SocketOpened { handle } => ConnectionState {
                    handle: Some(handle),
                    ..self
                },
                TransportEvent::Connected { .. } => ConnectionState { lost: false, ..self },
                _ => self,
            }
        }
    }

    /// The answer to a step of the reconnect task.
    pub open spec fn reconnect_action(self, event: TransportEvent) -> ReconnectAction {
        if event is HandshakeSent || event is HandshakeFailed {
            self.wake_action()
        } else if !self.restoring() {
            match event {
                TransportEvent::SocketOpened { handle } => ReconnectAction::Wait {
                    discard: Some(handle),
                },
                _ => ReconnectAction::Wait { discard: None },
            }
        } else {
            match event {
                TransportEvent::SocketOpened { handle } => ReconnectAction::Connect {
                    handle,
                    delay_ms: 0,
                    discard: self.handle,
                },
                TransportEvent::SocketFailed { .. } => ReconnectAction::OpenSocket {
                    delay_ms: RECONNECT_BACKOFF_MS,
                },
                TransportEvent::AddressFailed { .. } => ReconnectAction::Connect {
                    handle: self.handle->0,
                    delay_ms: RECONNECT_BACKOFF_MS,
                    discard: None,
                },
                TransportEvent::ConnectFailed { .. } => ReconnectAction::Connect {
                    handle: self.handle->0,
                    delay_ms: RECONNECT_BACKOFF_MS,
                    discard: None,
                },
                TransportEvent::Connected { pid } => ReconnectAction::Handshake {
                    handle: self.handle->0,
                    pid,
                    sink_type: self.sink_type,
                },
                _ => self.wake_action(),
            }
        }
    }

    /// The state after `close`: closed, and otherwise as it was.
    pub open spec fn after_close(self) -> ConnectionState {
        ConnectionState { closed: true, ..self }
    }
}

/// The connection manager's state.
pub struct Connection {
    handle: Option<SocketHandle>,
    lost: bool,
    closed: bool,
    sink_type: u8,
}

impl View for Connection {
    type V = ConnectionState;

    closed spec fn view(&self) -> ConnectionState {
        ConnectionState {
            handle: self.handle,
            lost: self.lost,
            closed: self.closed,
            sink_type: self.sink_type,
        }
    }
}

impl Connection {
    #[verifier::type_invariant]
    spec fn inv(self) -> bool {
        self@.wf()
    }

    /// A manager to which nothing has happened yet.
    pub fn new() -> (conn: Connection)
        ensures
            conn@ == ConnectionState::initial(),
            conn@.wf(),
    {
        Connection { handle: None, lost: false, closed: false, sink_type: 0 }
    }

    /// The named state that the connection is in.
    pub fn phase(&self) -> (phase: Phase)
        ensures
            phase == self@.phase(),
    {
        if self.closed {
            Phase::Closed
        } else if self.handle.is_none() {
            Phase::Uninitialized
        } else if self.lost {
            Phase::Reconnecting
        } else {
            Phase::Connected
        }
    }

    /// The installed handle.
    pub fn handle(&self) -> (handle: Option<SocketHandle>)
        ensures
            handle == self@.handle,
    {
        self.handle
    }

    /// The descriptor on which records are sent: that of the installed
    /// handle, or `NO_DESCRIPTOR`.
    pub fn descriptor(&self) -> (descriptor: i32)
        ensures
            descriptor == self@.descriptor(),
    {
        match self.handle {
            Some(handle) => handle.descriptor,
            None => NO_DESCRIPTOR,
        }
    }

    /// Whether the installed handle is known to be broken.
    pub fn is_lost(&self) -> (lost: bool)
        ensures
            lost == self@.lost,
    {
        self.lost
    }

    /// The sinks that the handshake asks for.
    pub fn sink_type(&self) -> (sink_type: u8)
        ensures
            sink_type == self@.sink_type,
    {
        self.sink_type
    }
}

/// Begins initialisation for the sinks in `sink_type`.
///
/// Where a handle was installed before, or the connection was closed, there
/// is nothing to do and the answer is `Done`. Else the answer is
/// `OpenSocket`, and initialisation goes on with [`init_step`].
pub fn log_init(conn: &Connection, sink_type: u8) -> (action: InitAction)
    ensures
        action == conn@.init_request(),
        conn@.wf(),
{
    proof {
        use_type_invariant(conn);
    }
    if conn.closed || conn.handle.is_some() {
        InitAction::Done { discard: None }
    } else {
        InitAction::OpenSocket
    }
}

/// Takes initialisation one step further.
///
/// A newly opened endpoint is installed, together with `sink_type`, if no
/// handle was installed before, and is then to be connected; if another was
/// installed meanwhile it is to be closed again, with success. Once
/// connected, the handshake is to be sent; whether or not it went out, the
/// reconnect task is then to be started, with success. A failure to open,
/// to find the address or to connect ends initialisation with that
/// failure; nothing is tried again, and a handle that was installed stays
/// installed.
pub fn init_step(conn: &mut Connection, sink_type: u8, event: TransportEvent) -> (action:
    InitAction)
    ensures
        final(conn)@ == old(conn)@.after_init_step(sink_type, event),
        action == old(conn)@.init_action(event),
        old(conn)@.wf(),
        final(conn)@.wf(),
{
    proof {
        use_type_invariant(&*conn);
    }
    match event {
        TransportEvent::SocketOpened { handle } => {
            if conn.closed || conn.handle.is_some() {
                InitAction::Done { discard: Some(handle) }
            } else {
                *conn = Connection {
                    handle: Some(handle),
                    lost: conn.lost,
                    closed: conn.closed,
                    sink_type,
                };
                InitAction::Connect { handle }
            }
        },
        TransportEvent::SocketFailed { errno } => InitAction::Fail {
            error: InitError { stage: SetupStage::Socket, errno },
        },
        TransportEvent::AddressFailed { errno } => InitAction::Fail {
            error: InitError { stage: SetupStage::Address, errno },
        },
        TransportEvent::ConnectFailed { errno } => InitAction::Fail {
            error: InitError { stage: SetupStage::Connect, errno },
        },
        TransportEvent::Connected { pid } => match conn.handle {
            Some(handle) => InitAction::Handshake { handle, pid, sink_type: conn.sink_type },
            None => log_init(conn, sink_type),
        },
        _ => if conn.handle.is_some() {
            InitAction::StartTask
        } else {
            log_init(conn, sink_type)
        },
    }
}

/// One frame on its way: what to send, on which descriptor, and how. The
/// frame goes out as one packet, in one attempt.
#[derive(Debug)]
pub struct Transmission {
    pub descriptor: i32,
    pub frame: Vec<u8>,
    /// The send must return at once where it would have to wait.
    pub dont_wait: bool,
    /// A peer that has gone away must show as an error, not as a signal.
    pub no_signal: bool,
}

/// What is to be done about a record that could not be sent.
#[derive(Debug)]
pub struct FailureReaction {
    /// The line to write to the platform log.
    pub diagnostic: FallbackLine,
    /// Whether the reconnect task is to be woken.
    pub wake: bool,
}

/// Prepares one record for sending.
///
/// The frame holds the given priority, tag and message and the time at
/// which the call was made. It is to be sent once, without waiting and
/// without raising a signal, on the descriptor of the installed handle;
/// while none is installed that is `NO_DESCRIPTOR`, on which the transport
/// fails. A failure is reported with [`send_failed`], or with
/// [`assess_send_failure`] and [`mark_lost`] where the connection is shared
/// among threads; the record is not sent again.
pub fn log(conn: &Connection, priority: LogPriority, tag: &[u8], message: &[u8]) -> (tx:
    Transmission)
    ensures
        tx.descriptor == conn@.descriptor(),
        tx.dont_wait,
        tx.no_signal,
        exists|t: Timestamp|
            t.in_calendar_range() && tx.frame@ == #[trigger] log_record_frame(
                priority,
                t,
                tag@,
                message@,
            ),
{
    let timestamp = current_timestamp();
    let frame = encode_log_record(priority, &timestamp, tag, message);
    Transmission { descriptor: conn.descriptor(), frame, dont_wait: true, no_signal: true }
}

/// Prepares the handshake that a `Handshake` action asks for. It is sent
/// as a record is, and whether the send succeeds is of no account.
pub fn handshake(handle: SocketHandle, pid: u32, sink_type: u8) -> (tx: Transmission)
    ensures
        tx.descriptor == handle.descriptor,
        tx.dont_wait,
        tx.no_signal,
        tx.frame@ == handshake_frame(pid, sink_type),
{
    Transmission {
        descriptor: handle.descriptor,
        frame: encode_handshake(pid, sink_type),
        dont_wait: true,
        no_signal: true,
    }
}

/// What a failed send calls for, as far as the error alone tells.
#[derive(Debug)]
pub struct FailureReport {
    /// The line to write to the platform log.
    pub diagnostic: FallbackLine,
    /// Whether the error means that the connection is lost, so that
    /// [`mark_lost`] is to be called.
    pub connection_lost: bool,
}

/// Sorts an error on sending: a broken pipe, or a socket that is not
/// connected, means that the connection is lost; every other error, one
/// that only says that the send would have had to wait among them, does
/// not.
pub fn means_lost(error: SendError) -> (lost: bool)
    ensures
        lost == ConnectionState::means_lost(error),
{
    match error {
        SendError::BrokenPipe => true,
        SendError::NotConnected => true,
        SendError::Other { .. } => false,
    }
}

/// Says what a failed send calls for, without looking at the connection:
/// the line for the platform log, and whether the connection is lost.
pub fn assess_send_failure(error: SendError) -> (report: FailureReport)
    ensures
        report.diagnostic@ == ConnectionState::send_failure_report(error),
        report.connection_lost == ConnectionState::means_lost(error),
{
    match error {
        SendError::Other { errno } => FailureReport {
            diagnostic: report_send_errno(errno),
            connection_lost: false,
        },
        _ => FailureReport { diagnostic: report_connection_lost(), connection_lost: true },
    }
}

/// Marks the installed handle as broken. Returns whether the reconnect
/// task is to be woken: it is, if a handle is installed.
pub fn mark_lost(conn: &mut Connection) -> (wake: bool)
    ensures
        final(conn)@ == old(conn)@.after_loss(),
        wake == (old(conn)@.handle is Some),
        final(conn)@.wf(),
{
    proof {
        use_type_invariant(&*conn);
    }
    let wake = conn.handle.is_some();
    if wake {
        *conn = Connection {
            handle: conn.handle,
            lost: true,
            closed: conn.closed,
            sink_type: conn.sink_type,
        };
    }
    wake
}

/// Takes note that a record could not be sent: [`assess_send_failure`],
/// and [`mark_lost`] where that says the connection is lost.
///
/// A broken pipe, or a socket that is not connected, means that the
/// connection is lost: where a handle is installed, it is marked as broken
/// and the reconnect task is to be woken. Any other error changes nothing.
/// Either way the record is dropped, and one line tells the platform log
/// why.
pub fn send_failed(conn: &mut Connection, error: SendError) -> (reaction: FailureReaction)
    ensures
        final(conn)@ == old(conn)@.after_send_failure(error),
        reaction.wake == old(conn)@.wakes_on(error),
        reaction.diagnostic@ == ConnectionState::send_failure_report(error),
        old(conn)@.wf(),
        final(conn)@.wf(),
{
    proof {
        use_type_invariant(&*conn);
    }
    let report = assess_send_failure(error);
    let wake = if report.connection_lost {
        mark_lost(conn)
    } else {
        false
    };
    FailureReaction { diagnostic: report.diagnostic, wake }
}

/// Answers the reconnect task when it starts and whenever it wakes up:
/// there is work exactly if the installed handle is known to be broken,
/// whether or not `close` was called.
pub fn reconnect_wake(conn: &Connection) -> (action: ReconnectAction)
    ensures
        action == conn@.wake_action(),
        conn@.wf(),
{
    proof {
        use_type_invariant(conn);
    }
    if conn.lost {
        ReconnectAction::OpenSocket { delay_ms: 0 }
    } else {
        ReconnectAction::Wait { discard: None }
    }
}

/// Takes the reconnect task one step further.
///
/// A newly opened endpoint replaces the installed handle, which is to be
/// closed, and is then to be connected. Each failure is answered by the
/// same attempt once more after `RECONNECT_BACKOFF_MS`, without end. Once
/// connected, the handle counts as usable again and the handshake is to be
/// sent; whether or not it went out, the task then looks for work as on a
/// wake-up. Where no broken handle is installed, nothing changes and the
/// task is to wait.
pub fn reconnect_step(conn: &mut Connection, event: TransportEvent) -> (action: ReconnectAction)
    ensures
        final(conn)@ == old(conn)@.after_reconnect_step(event),
        action == old(conn)@.reconnect_action(event),
        old(conn)@.wf(),
        final(conn)@.wf(),
{
    proof {
        use_type_invariant(&*conn);
    }
    let work = reconnect_wake(conn);
    let restoring = if conn.lost {
        conn.handle
    } else {
        None
    };
    if matches!(event, TransportEvent::HandshakeSent | TransportEvent::HandshakeFailed { .. }) {
        return work;
    }
    match restoring {
        None => match event {
            TransportEvent::SocketOpened { handle } => ReconnectAction::Wait {
                discard: Some(handle),
            },
            _ => ReconnectAction::Wait { discard: None },
        },
        Some(installed) => match event {
            TransportEvent::SocketOpened { handle } => {
                *conn = Connection {
                    handle: Some(handle),
                    lost: conn.lost,
                    closed: conn.closed,
                    sink_type: conn.sink_type,
                };
                ReconnectAction::Connect { handle, delay_ms: 0, discard: Some(installed) }
            },
            TransportEvent::SocketFailed { .. } => ReconnectAction::OpenSocket {
                delay_ms: RECONNECT_BACKOFF_MS,
            },
            TransportEvent::AddressFailed { .. } => ReconnectAction::Connect {
                handle: installed,
                delay_ms: RECONNECT_BACKOFF_MS,
                discard: None,
            },
            TransportEvent::ConnectFailed { .. } => ReconnectAction::Connect {
                handle: installed,
                delay_ms: RECONNECT_BACKOFF_MS,
                discard: None,
            },
            TransportEvent::Connected { pid } => {
                *conn = Connection {
                    handle: conn.handle,
                    lost: false,
                    closed: conn.closed,
                    sink_type: conn.sink_type,
                };
                ReconnectAction::Handshake { handle: installed, pid, sink_type: conn.sink_type }
            },
            _ => work,
        },
    }
}

/// Closes the connection.
///
/// Returns the installed handle, if any: it is to be shut down in both
/// directions, and whether that works is of no account. Closing always
/// succeeds. It changes nothing but the mark that says the connection is
/// closed: the handle stays installed, a handle known to be broken stays
/// so, and the reconnect task is neither stopped nor woken.
pub fn close(conn: &mut Connection) -> (retired: Option<SocketHandle>)
    ensures
        retired == old(conn)@.handle,
        final(conn)@ == old(conn)@.after_close(),
        final(conn)@.phase() == Phase::Closed,
        final(conn)@.handle == old(conn)@.handle,
        final(conn)@.lost == old(conn)@.lost,
        final(conn)@.wf(),
{
    proof {
        use_type_invariant(&*conn);
    }
    *conn = Connection {
        handle: conn.handle,
        lost: conn.lost,
        closed: true,
        sink_type: conn.sink_type,
    };
    conn.handle
}

} // verus!
