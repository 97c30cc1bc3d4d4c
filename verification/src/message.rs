//! Messages, and what arrives beside them.
use vstd::prelude::*;

verus! {

/// The five kinds of message.
#[derive(Debug, Clone, Copy, PartialEq, Eq)]
pub enum MessageType {
    /// A method call, which its receiver answers.
    Call,
    /// The answer to a call that went well.
    Reply,
    /// The answer to a call that failed.
    Error,
    /// A notification, which nobody answers.
    Signal,
    /// No message at all: a type that must not occur.
    Invalid,
}

/// The order of the bytes of a number on the wire.
#[derive(Debug, Clone, Copy, PartialEq, Eq)]
pub enum ByteOrder {
    LittleEndian,
    BigEndian,
}

/// What the fixed prefix of a message says about the rest of it.
#[derive(Debug, Clone, Copy, PartialEq, Eq)]
pub struct Header {
    /// The byte order of every number in this message.
    pub byteorder: ByteOrder,
    /// The length of the body in bytes.
    pub body_len: u32,
}

/// Ancillary data that arrived beside the bytes of a read.
#[derive(Debug, Clone, PartialEq, Eq)]
pub enum ControlMessage {
    /// File descriptors passed by the peer, in the order it sent them.
    ScmRights(Vec<i32>),
    /// Any other kind of ancillary data. The connection ignores it.
    Other,
}

impl ControlMessage {
    /// The file descriptors that this piece of ancillary data carries.
    pub open spec fn fds(self) -> Seq<i32> {
        match self {
            ControlMessage::ScmRights(fds) => fds@,
            ControlMessage::Other => Seq::empty(),
        }
    }
}

/// The file descriptors that a run of ancillary data carries, in the order of
/// arrival.
pub open spec fn rights(cmsgs: Seq<ControlMessage>) -> Seq<i32>
    decreases cmsgs.len(),
{
    if cmsgs.len() == 0 {
        Seq::empty()
    } else {
        rights(cmsgs.drop_last()) + cmsgs.last().fds()
    }
}

/// One message, as far as the connection looks into it.
#[derive(Debug, Clone, PartialEq, Eq)]
pub struct Message {
    /// What kind of message this is.
    pub typ: MessageType,
    /// The sender's number for this message. A message that is sent without
    /// one is given the connection's next number.
    pub serial: Option<u32>,
    /// On a reply or an error: the serial of the call that it answers.
    pub response_serial: Option<u32>,
    /// The file descriptors that travel with the message. The message owns
    /// them: whoever holds the message closes them.
    pub raw_fds: Vec<i32>,
    /// Header fields and body in the marshaller's form. The connection
    /// carries them and never reads them.
    pub body: Vec<u8>,
}

impl Message {
    /// A reply or an error names the call that it answers, and a call names
    /// none.
    pub open spec fn well_formed(self) -> bool {
        &&& self.answers() ==> self.response_serial is Some
        &&& self.typ is Call ==> self.response_serial is None
    }

    /// The message is a reply or an error.
    pub open spec fn answers(self) -> bool {
        self.typ is Reply || self.typ is Error
    }

    /// The message can be filed by the dispatcher: if it answers a call, it
    /// says which.
    pub open spec fn routable(self) -> bool {
        self.answers() ==> self.response_serial is Some
    }

    /// This message under the serial `serial`.
    pub open spec fn with_serial(self, serial: u32) -> Message {
        Message {
            typ: self.typ,
            serial: Some(serial),
            response_serial: self.response_serial,
            raw_fds: self.raw_fds,
            body: self.body,
        }
    }

    /// This message is `base` with `fds` behind the descriptors that `base`
    /// has, and nothing else changed.
    pub open spec fn is_with_fds(self, base: Message, fds: Seq<i32>) -> bool {
        &&& self.typ == base.typ
        &&& self.serial == base.serial
        &&& self.response_serial == base.response_serial
        &&& self.body == base.body
        &&& self.raw_fds@ == base.raw_fds@ + fds
    }

    /// Whether the message can be filed by the dispatcher.
    pub fn is_routable(&self) -> (b: bool)
        ensures
            b == self.routable(),
    {
        match self.typ {
            MessageType::Reply | MessageType::Error => self.response_serial.is_some(),
            _ => true,
        }
    }

    /// Whether the message names the call that it answers exactly if it is
    /// an answer.
    pub fn is_well_formed(&self) -> (b: bool)
        ensures
            b == self.well_formed(),
    {
        match self.typ {
            MessageType::Reply | MessageType::Error => self.response_serial.is_some(),
            MessageType::Call => self.response_serial.is_none(),
            _ => true,
        }
    }
}

} // verus!
