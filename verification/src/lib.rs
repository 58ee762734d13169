//! Client side of the NotCat logging protocol.
//!
//! The crate holds the parts of the client that decide and compute: the wire
//! format of handshake and record frames, the timestamp layout, the rule by
//! which diagnostics reach the platform log, and the connection manager as a
//! state machine that is told what the transport did and answers with what to
//! do next. Opening, connecting and writing sockets is left to the embedder.

pub mod connection;
pub mod diagnostics;
pub mod fallback;
pub mod frame;
pub mod laws;
pub mod priority;
pub mod timestamp;
pub mod wire;

pub use connection::{
    assess_send_failure, close, handshake, init_step, log, log_init, mark_lost, means_lost,
    reconnect_step, reconnect_wake, send_failed, Connection, FailureReaction, FailureReport,
    InitAction, InitError, Phase, ReconnectAction, SendError, SetupStage, SocketHandle,
    Transmission, TransportEvent, NO_DESCRIPTOR, RECONNECT_BACKOFF_MS, SERVER_SOCKET,
};
pub use fallback::{emit, FallbackLine};
pub use frame::{
    encode_handshake, encode_log_record, ANDROID_LOGCAT_SINK, CONN_MAGIC, LOCAL_FILE_SINK,
    PROTOCOL_VERSION,
};
pub use priority::{AndroidLogPriority, LogPriority};
pub use timestamp::{
    clock_reading_at, current_timestamp, get_timestamp_bytes, read_utc_clock, ClockReading,
    Timestamp,
};
