//! The core of a D-Bus client connection, written without sockets or clocks:
//! every decision the connection takes is a verified function from the present
//! state and the outcome of the last piece of outside work to the next state
//! and the next piece of work.
//!
//! * [`transport`] is the low level: the handshake, the serial numbers and
//!   the sending of one message.
//! * [`receive`] reads one message at a time from the byte stream, so that
//!   the file descriptors that arrive with it are its own; [`framing`] holds
//!   the arithmetic of the message boundaries.
//! * [`rpc`] is the dispatcher on top: it sorts received messages into calls,
//!   signals and replies, applies the caller's filter, and lets readers wait
//!   for what they want.
//! * [`timeout`] keeps account of the time an operation may take.
//! * [`address`] finds the socket paths of the session and the system bus.
//!
//! Whoever owns the socket performs the steps these types ask for and hands
//! the outcome back. Times are in nanoseconds.
pub mod address;
pub mod error;
pub mod framing;
pub mod message;
pub mod receive;
pub mod rpc;
pub mod timeout;
pub mod transport;

pub use address::{get_session_bus_path, get_system_bus_path};
pub use error::Error;
pub use message::{ByteOrder, ControlMessage, Header, Message, MessageType};
pub use receive::{Phase, Receive, Received, Step};
pub use rpc::{RefillEvent, RefillStep, Routed, RpcConn, Waited};
pub use timeout::{calc_timeout_left, time_left};
pub use transport::{
    AuthResult, Authenticated, Conn, Connecting, Negotiating, Ready, SocketFailure,
};
