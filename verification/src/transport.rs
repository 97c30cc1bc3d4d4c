//! The low level of a connection: the handshake, the serial numbers and the
//! send buffer.
//!
//! [`Conn`] holds the state of one connection and no socket. Opening the
//! socket, talking to the peer and marshalling are the owner's work; what is
//! to be done, and what follows from its outcome, is decided here.
use vstd::prelude::*;
use crate::error::Error;
use crate::message::{ByteOrder, Message};

verus! {

/// How a call on the socket failed, as whoever made the call tells it.
#[derive(Debug, Clone, Copy, PartialEq, Eq)]
pub enum SocketFailure {
    /// The call gave up because its time ran out.
    TimedOut,
    /// The call failed for another reason; the payload is its `errno`, where
    /// it had one.
    Other(Option<i32>),
}

/// The peer's answer to one step of the handshake.
#[derive(Debug, Clone, Copy, PartialEq, Eq)]
pub enum AuthResult {
    Accepted,
    Rejected,
}

/// The state of one connection to a bus.
///
/// A `Conn` exists only for a connection whose handshake is complete: the
/// one way to a `Conn` is [`Ready::begun`].
#[derive(Debug)]
pub struct Conn {
    pub(crate) socket_path: String,
    pub(crate) byteorder: ByteOrder,
    pub(crate) msg_buf_in: Vec<u8>,
    pub(crate) msg_buf_out: Vec<u8>,
    pub(crate) serial_counter: u32,
}

/// What a [`Conn`] holds.
pub struct ConnView {
    /// Where the socket is, for diagnostics.
    pub socket_path: Seq<char>,
    /// The byte order that the connection was opened with.
    pub byteorder: ByteOrder,
    /// The bytes received of the message that is being read.
    pub msg_buf_in: Seq<u8>,
    /// The bytes of the message that is being sent.
    pub msg_buf_out: Seq<u8>,
    /// The serial that the next message without one is given.
    pub serial_counter: u32,
}

impl View for Conn {
    type V = ConnView;

    open(crate) spec fn view(&self) -> ConnView {
        ConnView {
            socket_path: self.socket_path@,
            byteorder: self.byteorder,
            msg_buf_in: self.msg_buf_in@,
            msg_buf_out: self.msg_buf_out@,
            serial_counter: self.serial_counter,
        }
    }
}

/// A connection whose socket is open and which has not yet authenticated.
/// The step to take is the authentication.
#[derive(Debug)]
pub struct Connecting {
    socket_path: String,
    byteorder: ByteOrder,
    with_unix_fd: bool,
}

/// An authenticated connection on which the passing of file descriptors is
/// still to be negotiated. The step to take is that negotiation.
#[derive(Debug)]
pub struct Negotiating {
    socket_path: String,
    byteorder: ByteOrder,
}

/// A connection that has settled everything with the peer. The step to take
/// is to send the begin indicator, after which messages flow.
#[derive(Debug)]
pub struct Ready {
    socket_path: String,
    byteorder: ByteOrder,
}

/// What follows a successful authentication.
#[derive(Debug)]
pub enum Authenticated {
    /// File descriptors were asked for: negotiate them next.
    NegotiateUnixFds(Negotiating),
    /// Nothing is left to settle: send the begin indicator next.
    SendBegin(Ready),
}

impl Connecting {
    pub closed spec fn socket_path(&self) -> Seq<char> {
        self.socket_path@
    }

    pub closed spec fn byteorder(&self) -> ByteOrder {
        self.byteorder
    }

    pub closed spec fn with_unix_fd(&self) -> bool {
        self.with_unix_fd
    }

    /// Takes the peer's answer to the authentication. A rejection ends the
    /// connection attempt with [`Error::AuthFailed`]. Otherwise the next step
    /// is the negotiation of file descriptors, if they were asked for, and
    /// the begin indicator, if not.
    pub fn authenticated(self, result: AuthResult) -> (next: Result<Authenticated, Error>)
        ensures
            result is Rejected ==> next == Err::<Authenticated, Error>(Error::AuthFailed),
            result is Accepted && self.with_unix_fd() ==> (next matches Ok(
                Authenticated::NegotiateUnixFds(n),
            ) && n.socket_path() == self.socket_path() && n.byteorder() == self.byteorder()),
            result is Accepted && !self.with_unix_fd() ==> (next matches Ok(Authenticated::SendBegin(r))
                && r.socket_path() == self.socket_path() && r.byteorder() == self.byteorder()),
    {
        match result {
            AuthResult::Rejected => Err(Error::AuthFailed),
            AuthResult::Accepted => {
                if self.with_unix_fd {
                    Ok(
                        Authenticated::NegotiateUnixFds(
                            Negotiating {
                                socket_path: self.socket_path,
                                byteorder: self.byteorder,
                            },
                        ),
                    )
                } else {
                    Ok(
                        Authenticated::SendBegin(
                            Ready { socket_path: self.socket_path, byteorder: self.byteorder },
                        ),
                    )
                }
            },
        }
    }
}

impl Negotiating {
    pub closed spec fn socket_path(&self) -> Seq<char> {
        self.socket_path@
    }

    pub closed spec fn byteorder(&self) -> ByteOrder {
        self.byteorder
    }

    /// Takes the peer's answer to the negotiation of file descriptors. A
    /// rejection ends the connection attempt with
    /// [`Error::UnixFdNegotiationFailed`].
    pub fn negotiated(self, result: AuthResult) -> (next: Result<Ready, Error>)
        ensures
            result is Rejected ==> next == Err::<Ready, Error>(Error::UnixFdNegotiationFailed),
            result is Accepted ==> (next matches Ok(r) && r.socket_path() == self.socket_path()
                && r.byteorder() == self.byteorder()),
    {
        match result {
            AuthResult::Rejected => Err(Error::UnixFdNegotiationFailed),
            AuthResult::Accepted => Ok(
                Ready { socket_path: self.socket_path, byteorder: self.byteorder },
            ),
        }
    }
}

impl Ready {
    pub closed spec fn socket_path(&self) -> Seq<char> {
        self.socket_path@
    }

    pub closed spec fn byteorder(&self) -> ByteOrder {
        self.byteorder
    }

    /// The begin indicator is sent: the connection stands, with both buffers
    /// empty and 1 as its first serial.
    pub fn begun(self) -> (conn: Conn)
        ensures
            conn@ == (ConnView {
                socket_path: self.socket_path(),
                byteorder: self.byteorder(),
                msg_buf_in: Seq::empty(),
                msg_buf_out: Seq::empty(),
                serial_counter: 1,
            }),
    {
        Conn {
            socket_path: self.socket_path,
            byteorder: self.byteorder,
            msg_buf_in: Vec::new(),
            msg_buf_out: Vec::new(),
            serial_counter: 1,
        }
    }
}

/// The message as it is sent when the connection's next serial is
/// `counter`: one without a serial is given that serial, one with a serial
/// keeps it.
pub open spec fn stamped(msg: Message, counter: u32) -> Message {
    if msg.serial is None {
        msg.with_serial(counter)
    } else {
        msg
    }
}

/// The connection's next serial after it has sent `msg`: one more if `msg`
/// took the serial, the same if not.
pub open spec fn counter_after(msg: Message, counter: int) -> int {
    if msg.serial is None {
        counter + 1
    } else {
        counter
    }
}

/// The connection's next serial after it has sent all of `msgs` in order,
/// when it stood at `counter` before.
pub open spec fn counter_after_all(msgs: Seq<Message>, counter: int) -> int
    decreases msgs.len(),
{
    if msgs.len() == 0 {
        counter
    } else {
        counter_after(msgs.last(), counter_after_all(msgs.drop_last(), counter))
    }
}

/// Serials are handed out in order.
///
/// When none of `msgs` has a serial of its own and the connection stands at
/// `counter`, sending them in order gives the message at `i` the serial
/// `counter + i`. A connection begins at 1, so its messages go out as 1, 2,
/// 3 and so on.
pub proof fn lemma_serials_count_up(msgs: Seq<Message>, counter: u32, i: int)
    requires
        forall|k: int| 0 <= k < msgs.len() ==> (#[trigger] msgs[k]).serial is None,
        0 <= i < msgs.len(),
        counter + i <= u32::MAX,
    ensures
        counter_after_all(msgs.take(i), counter as int) == counter + i,
        stamped(msgs[i], counter_after_all(msgs.take(i), counter as int) as u32).serial == Some(
            (counter + i) as u32,
        ),
    decreases i,
{
    if i > 0 {
        lemma_serials_count_up(msgs, counter, i - 1);
        assert(msgs.take(i).drop_last() =~= msgs.take(i - 1));
    }
}

/// What a socket call's failure means while sending: time that ran out is
/// [`Error::TimedOut`], anything else is the failed call.
pub open spec fn send_failure(failure: SocketFailure) -> Error {
    match failure {
        SocketFailure::TimedOut => Error::TimedOut,
        SocketFailure::Other(errno) => Error::NixError(errno),
    }
}

impl Conn {
    /// Begins a connection over the socket at `path`, with the given byte
    /// order. The socket is open; the step to take is the authentication.
    pub fn connect_to_bus_with_byteorder(
        path: String,
        byteorder: ByteOrder,
        with_unix_fd: bool,
    ) -> (connecting: Connecting)
        ensures
            connecting.socket_path() == path@,
            connecting.byteorder() == byteorder,
            connecting.with_unix_fd() == with_unix_fd,
    {
        Connecting { socket_path: path, byteorder, with_unix_fd }
    }

    /// Begins a connection over the socket at `path`, little-endian.
    pub fn connect_to_bus(path: String, with_unix_fd: bool) -> (connecting: Connecting)
        ensures
            connecting.socket_path() == path@,
            connecting.byteorder() == ByteOrder::LittleEndian,
            connecting.with_unix_fd() == with_unix_fd,
    {
        Conn::connect_to_bus_with_byteorder(path, ByteOrder::LittleEndian, with_unix_fd)
    }

    /// The serial that the next message without one is given.
    pub fn serial_counter(&self) -> (counter: u32)
        ensures
            counter == self@.serial_counter,
    {
        self.serial_counter
    }

    /// The byte order that the connection was opened with.
    pub fn byteorder(&self) -> (order: ByteOrder)
        ensures
            order == self@.byteorder,
    {
        self.byteorder
    }

    /// Where the socket is.
    pub fn socket_path(&self) -> (path: &str)
        ensures
            path@ == self@.socket_path,
    {
        self.socket_path.as_str()
    }

    /// The bytes received so far of the message that is being read.
    pub fn received(&self) -> (bytes: &Vec<u8>)
        ensures
            bytes@ == self@.msg_buf_in,
    {
        &self.msg_buf_in
    }

    /// The bytes of the message that is being sent.
    pub fn outgoing(&self) -> (bytes: &Vec<u8>)
        ensures
            bytes@ == self@.msg_buf_out,
    {
        &self.msg_buf_out
    }

    /// Begins to send `msg`: empties the send buffer and, if `msg` has no
    /// serial, gives it the connection's next one.
    ///
    /// Returns the message as it is to be marshalled, and the byte order to
    /// marshal it in, which is little-endian whatever order the connection
    /// was opened with.
    ///
    /// A connection has serials up to `u32::MAX`; a message without a serial
    /// cannot be sent once they are used up.
    pub fn send_message(&mut self, msg: Message) -> (out: (Message, ByteOrder))
        requires
            msg.serial is None ==> old(self)@.serial_counter < u32::MAX,
        ensures
            out.0 == stamped(msg, old(self)@.serial_counter),
            out.1 == ByteOrder::LittleEndian,
            final(self)@ == (ConnView {
                msg_buf_out: Seq::empty(),
                serial_counter: counter_after(msg, old(self)@.serial_counter as int) as u32,
                ..old(self)@
            }),
    {
        let mut msg = msg;
        self.msg_buf_out.clear();
        if msg.serial.is_none() {
            msg.serial = Some(self.serial_counter);
            self.serial_counter = self.serial_counter + 1;
        }
        (msg, ByteOrder::LittleEndian)
    }

    /// The second step of sending: takes the marshalled message into the
    /// send buffer, from where [`Conn::outgoing`] lends it to the one socket
    /// call that writes it, together with the message's file descriptors.
    pub fn marshalled(&mut self, bytes: Vec<u8>)
        ensures
            final(self)@ == (ConnView { msg_buf_out: bytes@, ..old(self)@ }),
    {
        self.msg_buf_out = bytes;
    }

    /// The last step of sending: takes the outcome of the one socket call
    /// that was to write the send buffer, which is the number of bytes
    /// written or the way the call failed.
    ///
    /// The message is `msg` as [`Conn::send_message`] returned it, and is
    /// handed back when the whole buffer was written. A short write leaves
    /// the stream out of step: [`Error::FramingError`].
    pub fn finish_send(&self, msg: Message, outcome: Result<usize, SocketFailure>) -> (sent: Result<
        Message,
        Error,
    >)
        ensures
            sent == (match outcome {
                Ok(written) => if written == self@.msg_buf_out.len() {
                    Ok(msg)
                } else {
                    Err(Error::FramingError)
                },
                Err(failure) => Err(send_failure(failure)),
            }),
    {
        match outcome {
            Ok(written) => {
                if written == self.msg_buf_out.len() {
                    Ok(msg)
                } else {
                    Err(Error::FramingError)
                }
            },
            Err(SocketFailure::TimedOut) => Err(Error::TimedOut),
            Err(SocketFailure::Other(errno)) => Err(Error::NixError(errno)),
        }
    }
}

} // verus!
