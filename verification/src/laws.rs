//! What holds of the connection manager over several steps.

use crate::connection::{
    ConnectionState, InitAction, Phase, ReconnectAction, SendError, SocketHandle, TransportEvent,
    RECONNECT_BACKOFF_MS,
};
use vstd::prelude::*;

verus! {

/// The time that an action lets pass before the transport is tried, in
/// milliseconds.
pub open spec fn delay_of(action: ReconnectAction) -> nat {
    match action {
        ReconnectAction::OpenSocket { delay_ms } => delay_ms as nat,
        ReconnectAction::Connect { delay_ms, .. } => delay_ms as nat,
        _ => 0,
    }
}

/// The state of the reconnect task's connection after the daemon has
/// refused one attempt for each error number in `refusals`, in that order.
pub open spec fn after_refusals(s: ConnectionState, refusals: Seq<i32>) -> ConnectionState
    decreases refusals.len(),
{
    if refusals.len() == 0 {
        s
    } else {
        after_refusals(s, refusals.drop_last()).after_reconnect_step(
            TransportEvent::ConnectFailed { errno: refusals.last() },
        )
    }
}

/// The time that the reconnect task lets pass, all in all, in answer to the
/// refusals in `refusals`.
pub open spec fn backoff_over(s: ConnectionState, refusals: Seq<i32>) -> nat
    decreases refusals.len(),
{
    if refusals.len() == 0 {
        0
    } else {
        backoff_over(s, refusals.drop_last()) + delay_of(
            after_refusals(s, refusals.drop_last()).reconnect_action(
                TransportEvent::ConnectFailed { errno: refusals.last() },
            ),
        )
    }
}

/// Well-formedness is kept by every step of every procedure.
pub proof fn lemma_steps_keep_wf(
    s: ConnectionState,
    sink_type: u8,
    event: TransportEvent,
    error: SendError,
)
    requires
        s.wf(),
    ensures
        ConnectionState::initial().wf(),
        s.after_init_step(sink_type, event).wf(),
        s.after_loss().wf(),
        s.after_send_failure(error).wf(),
        s.after_reconnect_step(event).wf(),
        s.after_close().wf(),
{
}

/// Initialisation happens once. From the uninitialised state a run in which
/// the transport succeeds asks for one socket, one connect and one
/// handshake, in that order, with the caller's process id and sinks, and
/// then for the reconnect task to be started. From then on a call of
/// `log_init` asks for nothing and reports success, and the state stays as
/// it is.
pub proof fn lemma_init_twice_inits_once(
    s: ConnectionState,
    sink_type: u8,
    handle: SocketHandle,
    pid: u32,
)
    requires
        s.wf(),
        s.phase() == Phase::Uninitialized,
    ensures
        ({
            let opened = TransportEvent::SocketOpened { handle };
            let connected = TransportEvent::Connected { pid };
            let installed = s.after_init_step(sink_type, opened);
            let greeted = installed.after_init_step(sink_type, connected);
            let done = greeted.after_init_step(sink_type, TransportEvent::HandshakeSent);
            &&& s.init_request() == InitAction::OpenSocket
            &&& s.init_action(opened) == InitAction::Connect { handle }
            &&& installed.init_action(connected) == InitAction::Handshake { handle, pid, sink_type }
            &&& greeted.init_action(TransportEvent::HandshakeSent) == InitAction::StartTask
            &&& done.phase() == Phase::Connected
            &&& done.handle == Some(handle)
            &&& done.init_request() == InitAction::Done { discard: None }
        }),
{
}

/// A handshake that could not be sent is no failure. Initialisation goes on
/// to start the reconnect task and reports success, and the reconnect task
/// goes on as after a handshake that went out; the state is the same
/// either way.
pub proof fn lemma_handshake_failure_is_not_fatal(s: ConnectionState, sink_type: u8, errno: i32)
    ensures
        ({
            let failed = TransportEvent::HandshakeFailed { errno };
            let sent = TransportEvent::HandshakeSent;
            &&& s.init_action(failed) == s.init_action(sent)
            &&& !(s.init_action(failed) is Fail)
            &&& s.handle is Some ==> s.init_action(failed) == InitAction::StartTask
            &&& s.after_init_step(sink_type, failed) == s
            &&& s.reconnect_action(failed) == s.reconnect_action(sent)
            &&& s.reconnect_action(failed) == s.wake_action()
            &&& s.after_reconnect_step(failed) == s.after_reconnect_step(sent)
        }),
{
}

/// Once a handle is installed or the connection is closed, `log_init` is a
/// no-op that reports success, whatever sinks it is called with; and a
/// socket that was opened for it all the same is not installed but handed
/// back to be closed.
pub proof fn lemma_init_is_idempotent(s: ConnectionState, sink_type: u8, handle: SocketHandle)
    requires
        s.phase() != Phase::Uninitialized,
    ensures
        s.init_request() == (InitAction::Done { discard: None }),
        s.after_init_step(sink_type, (TransportEvent::SocketOpened { handle })) == s,
        s.init_action((TransportEvent::SocketOpened { handle })) == (InitAction::Done {
            discard: Some(handle),
        }),
{
}

/// Initialisation never tries twice: a failure of the transport ends it
/// with that failure, and leaves the state as it was.
pub proof fn lemma_init_fails_without_retry(s: ConnectionState, sink_type: u8, event: TransportEvent)
    requires
        event is SocketFailed || event is AddressFailed || event is ConnectFailed,
    ensures
        s.init_action(event) is Fail,
        s.after_init_step(sink_type, event) == s,
{
}

/// While the connection is being restored, refusals change nothing but the
/// time: each is answered by one more attempt on the installed handle after
/// the fixed backoff, however many there are.
pub proof fn lemma_refusals_are_retried(s: ConnectionState, refusals: Seq<i32>)
    requires
        s.restoring(),
    ensures
        after_refusals(s, refusals) == s,
        backoff_over(s, refusals) == refusals.len() * RECONNECT_BACKOFF_MS,
        forall|i: int|
            0 <= i < refusals.len() ==> #[trigger] after_refusals(
                s,
                refusals.take(i),
            ).reconnect_action((TransportEvent::ConnectFailed { errno: refusals[i] }))
                == (ReconnectAction::Connect {
                handle: s.handle->0,
                delay_ms: RECONNECT_BACKOFF_MS,
                discard: None,
            }),
    decreases refusals.len(),
{
    if refusals.len() > 0 {
        lemma_refusals_are_retried(s, refusals.drop_last());
    }
    assert forall|i: int| 0 <= i < refusals.len() implies #[trigger] after_refusals(
        s,
        refusals.take(i),
    ).reconnect_action(TransportEvent::ConnectFailed { errno: refusals[i] })
        == (ReconnectAction::Connect {
        handle: s.handle->0,
        delay_ms: RECONNECT_BACKOFF_MS,
        discard: None,
    }) by {
        lemma_refusals_are_retried(s, refusals.take(i));
    }
}

/// Recovery. When a send on an installed handle fails because the
/// connection is lost, the reconnect task is woken and finds work. It opens
/// a new socket, which replaces the broken handle. However often the daemon
/// then refuses, the task keeps trying, and the time it lets pass is the
/// backoff times the number of refusals. As soon as the daemon accepts, the
/// handshake goes out anew with the sinks of the first one, the handle
/// counts as usable again, and the next record is sent on the new handle.
/// This holds whether or not `close` was called.
pub proof fn lemma_lost_connection_recovers(
    s: ConnectionState,
    error: SendError,
    fresh: SocketHandle,
    refusals: Seq<i32>,
    pid: u32,
)
    requires
        s.wf(),
        s.handle is Some,
        ConnectionState::means_lost(error),
    ensures
        ({
            let lost = s.after_send_failure(error);
            let opened = TransportEvent::SocketOpened { handle: fresh };
            let replaced = lost.after_reconnect_step(opened);
            let retried = after_refusals(replaced, refusals);
            let accepted = TransportEvent::Connected { pid };
            let restored = retried.after_reconnect_step(accepted);
            &&& s.wakes_on(error)
            &&& lost.restoring()
            &&& !s.closed ==> lost.phase() == Phase::Reconnecting
            &&& lost.wake_action() == ReconnectAction::OpenSocket { delay_ms: 0 }
            &&& lost.reconnect_action(opened) == ReconnectAction::Connect {
                handle: fresh,
                delay_ms: 0,
                discard: s.handle,
            }
            &&& backoff_over(replaced, refusals) == refusals.len() * RECONNECT_BACKOFF_MS
            &&& retried.reconnect_action(accepted) == ReconnectAction::Handshake {
                handle: fresh,
                pid,
                sink_type: s.sink_type,
            }
            &&& !restored.lost
            &&& !s.closed ==> restored.phase() == Phase::Connected
            &&& restored.handle == Some(fresh)
            &&& restored.descriptor() == fresh.descriptor
            &&& restored.closed == s.closed
            &&& restored.wake_action() == ReconnectAction::Wait { discard: None }
        }),
{
    let lost = s.after_send_failure(error);
    let replaced = lost.after_reconnect_step(TransportEvent::SocketOpened { handle: fresh });
    lemma_refusals_are_retried(replaced, refusals);
}

/// An error that does not mean a lost connection changes nothing and wakes
/// nobody.
pub proof fn lemma_transient_error_changes_nothing(s: ConnectionState, errno: i32)
    ensures
        s.after_send_failure((SendError::Other { errno })) == s,
        !s.wakes_on((SendError::Other { errno })),
{
}

/// Nothing leads out of the closed state: whatever step is taken after
/// `close`, the connection stays closed, and `log_init` asks for nothing
/// and reports success.
pub proof fn lemma_closed_stays_closed(
    s: ConnectionState,
    sink_type: u8,
    event: TransportEvent,
    error: SendError,
)
    requires
        s.closed,
    ensures
        s.phase() == Phase::Closed,
        s.after_init_step(sink_type, event) == s,
        s.after_send_failure(error).phase() == Phase::Closed,
        s.after_reconnect_step(event).phase() == Phase::Closed,
        s.after_close() == s,
        s.init_request() == (InitAction::Done { discard: None }),
{
}

/// `close` changes nothing but the mark that says the connection is
/// closed. The handle stays installed and records go on being sent on it;
/// a handle known to be broken stays so; and the reconnect task finds the
/// same work, gets the same answers and makes the same changes as it would
/// have without the call. `close` neither stops the task nor wakes it.
pub proof fn lemma_close_leaves_the_rest(s: ConnectionState, event: TransportEvent, error: SendError)
    ensures
        s.after_close().closed,
        s.after_close().handle == s.handle,
        s.after_close().lost == s.lost,
        s.after_close().sink_type == s.sink_type,
        s.after_close().descriptor() == s.descriptor(),
        s.after_close().restoring() == s.restoring(),
        s.after_close().wake_action() == s.wake_action(),
        s.after_close().reconnect_action(event) == s.reconnect_action(event),
        s.after_close().after_reconnect_step(event) == s.after_reconnect_step(event).after_close(),
        s.after_close().wakes_on(error) == s.wakes_on(error),
        s.after_close().after_send_failure(error) == s.after_send_failure(error).after_close(),
{
}

} // verus!
