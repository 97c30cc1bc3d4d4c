//! Reading exactly one message from a byte stream.
//!
//! A stream socket hands out bytes without regard to where one message ends,
//! and file descriptors arrive beside the bytes of some read. So a read must
//! never take a byte of the following message: its descriptors would come
//! with it. The length of a message is known only after its prefix and the
//! four bytes behind it, hence the three phases of [`Phase`].
//!
//! [`Conn::get_next_message`] says what is to be done next. The owner of the
//! socket does it, reports with the method that belongs to the step, and
//! asks again, until [`Conn::finish`] hands out the message.
use vstd::prelude::*;
use crate::error::Error;
use crate::framing::{frame_len, frame_len_spec, lemma_frame_is_aligned, parse_u32, refill_len, refill_len_spec, u32_of_bytes, HEADER_LEN, PREAMBLE_LEN, READ_CHUNK};
use crate::message::{rights, ControlMessage, Header, Message};
use crate::timeout::{time_left, time_left_spec};
use crate::transport::{stamped, Conn, ConnView, SocketFailure};

verus! {

/// How far the reading of one message has come.
#[derive(Debug, Clone, Copy, PartialEq, Eq)]
pub enum Phase {
    /// The fixed prefix is being read.
    Prefix,
    /// The prefix is parsed; the length of the header fields is being read.
    FieldsLen { header: Header },
    /// The length of the message is known; the rest of it is being read.
    Body { header: Header, total: u64 },
}

/// The progress of one attempt to receive a message: the phase, and the
/// ancillary data that the reads of this attempt brought.
///
/// An attempt that ran out of time loses nothing. Taken up again, it goes on
/// in the phase that it had come to, with the bytes and the ancillary data
/// that it had received. When the message is handed out the attempt is new
/// again, for the message that follows.
#[derive(Debug)]
pub struct Receive {
    pub(crate) phase: Phase,
    pub(crate) cmsgs: Vec<ControlMessage>,
}

/// What a [`Receive`] holds.
pub struct ReceiveView {
    pub phase: Phase,
    pub cmsgs: Seq<ControlMessage>,
}

impl View for Receive {
    type V = ReceiveView;

    open(crate) spec fn view(&self) -> ReceiveView {
        ReceiveView { phase: self.phase, cmsgs: self.cmsgs@ }
    }
}

/// What one read from the socket brought.
#[derive(Debug)]
pub struct Received {
    pub bytes: Vec<u8>,
    pub cmsgs: Vec<ControlMessage>,
}

/// The next piece of work in receiving a message.
#[derive(Debug, Clone, Copy, PartialEq, Eq)]
pub enum Step {
    /// Read at most `max_len` bytes with one call, giving up after `timeout`
    /// nanoseconds if there is one; report with [`Conn::refilled`].
    Refill { max_len: usize, timeout: Option<u128> },
    /// Parse the prefix at the start of the received bytes; report with
    /// [`Receive::header_parsed`].
    ParseHeader,
    /// Parse one message, whose prefix said `header`, from the received
    /// bytes behind the prefix; report with [`Conn::finish`].
    ParseMessage { header: Header },
}

/// What a failed read means: time that ran out is [`Error::TimedOut`],
/// anything else is a failed read.
pub open spec fn recv_failure(failure: SocketFailure) -> Error {
    match failure {
        SocketFailure::TimedOut => Error::TimedOut,
        SocketFailure::Other(errno) => Error::IoError(errno),
    }
}

/// The four bytes behind the prefix in `buf`.
pub open spec fn fields_len_bytes(buf: Seq<u8>) -> Seq<u8> {
    buf.subrange(HEADER_LEN as int, PREAMBLE_LEN as int)
}

/// The phase that an attempt in `phase` is in, now that `buf` is received:
/// once the four bytes behind the prefix are there, they are read as a
/// number in the byte order of the message, and the length of the message
/// is known.
pub open spec fn settled(phase: Phase, buf: Seq<u8>) -> Phase {
    match phase {
        Phase::FieldsLen { header } => if buf.len() >= PREAMBLE_LEN {
            Phase::Body {
                header,
                total: frame_len_spec(
                    u32_of_bytes(fields_len_bytes(buf), header.byteorder),
                    header.body_len as int,
                ) as u64,
            }
        } else {
            phase
        },
        _ => phase,
    }
}

/// The read that brings a buffer of `have` bytes towards `target`, if time
/// is left for it.
pub open spec fn refill_step(target: int, have: int, elapsed: u128, timeout: Option<u128>) -> Result<
    Step,
    Error,
> {
    match time_left_spec(elapsed, timeout) {
        Ok(left) => Ok(Step::Refill { max_len: refill_len_spec(target, have) as usize, timeout: left }),
        Err(e) => Err(e),
    }
}

/// The next piece of work when `have` bytes are received, the attempt is in
/// `phase`, and `elapsed` nanoseconds of `timeout` are used up.
///
/// While bytes are missing, of the prefix, of the four bytes behind it or of
/// the rest, the next step is a read of no more than what is missing, unless
/// the time is used up. With the prefix complete it is parsed; with the
/// whole message there it is parsed. A buffer that holds more than the
/// message cannot be completed.
pub open spec fn next_step_spec(have: int, phase: Phase, elapsed: u128, timeout: Option<u128>) -> Result<
    Step,
    Error,
> {
    match phase {
        Phase::Prefix => if have < HEADER_LEN {
            refill_step(HEADER_LEN as int, have, elapsed, timeout)
        } else {
            Ok(Step::ParseHeader)
        },
        Phase::FieldsLen { header } => refill_step(PREAMBLE_LEN as int, have, elapsed, timeout),
        Phase::Body { header, total } => if have < total {
            refill_step(total as int, have, elapsed, timeout)
        } else if have == total {
            Ok(Step::ParseMessage { header })
        } else {
            Err(Error::FramingError)
        },
    }
}

/// The number of bytes that the buffer is being filled to in `phase`.
pub open spec fn target_of(phase: Phase) -> int {
    match phase {
        Phase::Prefix => HEADER_LEN as int,
        Phase::FieldsLen { header } => PREAMBLE_LEN as int,
        Phase::Body { header, total } => total as int,
    }
}

/// Every read is within the time and within the message.
///
/// Whenever the next step is a read, time is left for it and it is given what
/// is left; it asks for at least one byte, for no more than [`READ_CHUNK`],
/// and for no more than the phase's target lacks: whatever the socket returns
/// within that limit leaves the buffer no longer than the target. And once
/// the time is used up, no step is a read, in whichever phase.
pub proof fn lemma_reads_stay_in_frame(
    have: int,
    phase: Phase,
    elapsed: u128,
    timeout: Option<u128>,
)
    requires
        0 <= have <= usize::MAX,
        phase is FieldsLen ==> have < PREAMBLE_LEN,
    ensures
        next_step_spec(have, phase, elapsed, timeout) matches Ok(Step::Refill { max_len, timeout: left })
            ==> {
            &&& time_left_spec(elapsed, timeout) == Ok::<Option<u128>, Error>(left)
            &&& 0 < max_len <= READ_CHUNK
            &&& have + max_len <= target_of(phase)
        },
        time_left_spec(elapsed, timeout) is Err ==> !(next_step_spec(have, phase, elapsed, timeout)
            matches Ok(Step::Refill { max_len, timeout: left })),
        time_left_spec(elapsed, timeout) is Err && have < target_of(phase) ==> next_step_spec(
            have,
            phase,
            elapsed,
            timeout,
        ) == Err::<Step, Error>(Error::TimedOut),
{
}

/// The bytes received, the phase and the ancillary data of an attempt: what
/// a [`Conn`] and a [`Receive`] hold of it.
pub struct Attempt {
    pub buf: Seq<u8>,
    pub phase: Phase,
    pub cmsgs: Seq<ControlMessage>,
}

/// What happens in the course of an attempt.
pub enum Progress {
    /// A read brought `bytes` and, beside them, `cmsgs`.
    Read { bytes: Seq<u8>, cmsgs: Seq<ControlMessage> },
    /// The prefix was parsed and said `header`.
    Header { header: Header },
}

/// The attempt after `event`, when it stood at `before`: what
/// [`Conn::get_next_message`], which settles the phase, and then
/// [`Conn::refilled`] or [`Receive::header_parsed`] make of it.
pub open spec fn after(before: Attempt, event: Progress) -> Attempt {
    match event {
        Progress::Read { bytes, cmsgs } => Attempt {
            buf: before.buf + bytes,
            phase: settled(before.phase, before.buf),
            cmsgs: before.cmsgs + cmsgs,
        },
        Progress::Header { header } => Attempt {
            buf: before.buf,
            phase: Phase::FieldsLen { header },
            cmsgs: before.cmsgs,
        },
    }
}

/// The step that is due in the attempt `at`, time apart.
pub open spec fn step_due(at: Attempt) -> Result<Step, Error> {
    next_step_spec(at.buf.len() as int, settled(at.phase, at.buf), 0, None)
}

/// `event` is what the step that is due can come to: a read brings no more
/// than it was to take, and a parsed prefix follows the step that asks for
/// it.
pub open spec fn answers_step(at: Attempt, event: Progress) -> bool {
    match step_due(at) {
        Ok(Step::Refill { max_len, timeout }) => event matches Progress::Read { bytes, cmsgs }
            && bytes.len() <= max_len,
        Ok(Step::ParseHeader) => event is Header,
        _ => false,
    }
}

/// The attempt after all of `events`, when it began at `begin`.
pub open spec fn after_all(begin: Attempt, events: Seq<Progress>) -> Attempt
    decreases events.len(),
{
    if events.len() == 0 {
        begin
    } else {
        after(after_all(begin, events.drop_last()), events.last())
    }
}

/// Each of `events` answers the step that was due when it happened.
pub open spec fn is_attempt(begin: Attempt, events: Seq<Progress>) -> bool
    decreases events.len(),
{
    events.len() == 0 || {
        &&& is_attempt(begin, events.drop_last())
        &&& answers_step(after_all(begin, events.drop_last()), events.last())
    }
}

/// The bytes received are within the message that is being read: within the
/// prefix while it is read, within the four bytes behind it while they are
/// read, and within the whole message from then on.
pub open spec fn in_frame(have: int, phase: Phase) -> bool {
    match phase {
        Phase::Prefix => 0 <= have <= HEADER_LEN,
        Phase::FieldsLen { header } => HEADER_LEN <= have <= PREAMBLE_LEN,
        Phase::Body { header, total } => PREAMBLE_LEN <= have <= total,
    }
}

/// An attempt takes the bytes of one message from the socket and not one
/// more, in whatever pieces they arrive.
///
/// Say the attempt begins with no more than a part of the prefix in the
/// buffer, and every step is answered as [`answers_step`] says, the reads
/// bringing any number of bytes up to what they were to take. Then at every
/// point the bytes received are within the message, and when the message is
/// to be parsed they are exactly the message. So whatever the peer sent
/// behind this message, bytes or file descriptors, is still in the socket.
pub proof fn lemma_attempt_stays_in_frame(begin: Attempt, events: Seq<Progress>)
    requires
        begin.buf.len() <= HEADER_LEN,
        begin.phase is Prefix,
        is_attempt(begin, events),
    ensures
        ({
            let now = after_all(begin, events);
            let phase = settled(now.phase, now.buf);
            &&& in_frame(now.buf.len() as int, now.phase)
            &&& in_frame(now.buf.len() as int, phase)
            &&& step_due(now) is Ok
            &&& step_due(now) matches Ok(Step::ParseMessage { header }) ==> phase matches Phase::Body {
                header: h,
                total,
            } && now.buf.len() == total
        }),
    decreases events.len(),
{
    if events.len() > 0 {
        lemma_attempt_stays_in_frame(begin, events.drop_last());
    }
    let now = after_all(begin, events);
    lemma_settled_is_in_frame(now.phase, now.buf);
    if events.len() > 0 {
        let before = after_all(begin, events.drop_last());
        lemma_settled_is_in_frame(before.phase, before.buf);
    }
}

/// Once the four bytes behind the prefix are there, the message that they
/// announce is longer than what is received.
proof fn lemma_settled_is_in_frame(phase: Phase, buf: Seq<u8>)
    requires
        in_frame(buf.len() as int, phase),
    ensures
        in_frame(buf.len() as int, settled(phase, buf)),
{
    match phase {
        Phase::FieldsLen { header } => {
            if buf.len() >= PREAMBLE_LEN {
                let bytes = fields_len_bytes(buf);
                lemma_frame_is_aligned(
                    u32_of_bytes(bytes, header.byteorder),
                    header.body_len as int,
                );
            }
        },
        _ => {},
    }
}

/// What a peer has written to a stream socket: the bytes in order, and for
/// each byte the file descriptors that were sent with it, which for most
/// bytes are none.
pub struct Stream {
    pub bytes: Seq<u8>,
    pub fds: Seq<Seq<i32>>,
}

impl Stream {
    /// Every byte has its descriptors, if only none.
    pub open spec fn well_formed(self) -> bool {
        self.fds.len() == self.bytes.len()
    }

    /// The descriptors that were sent with the bytes from `from` up to, and
    /// without, `to`, in order.
    pub open spec fn fds_between(self, from: int, to: int) -> Seq<i32>
        decreases to - from,
    {
        if to <= from {
            Seq::empty()
        } else {
            self.fds_between(from, to - 1) + self.fds[to - 1]
        }
    }

    /// `event`, if it is a read, is a read of the socket at `pos`: it brings
    /// the bytes that stand there, and beside them the descriptors that were
    /// sent with these bytes, whatever other ancillary data comes with them.
    pub open spec fn delivers(self, pos: int, event: Progress) -> bool {
        event matches Progress::Read { bytes, cmsgs } ==> {
            &&& pos + bytes.len() <= self.bytes.len()
            &&& bytes == self.bytes.subrange(pos, pos + bytes.len())
            &&& rights(cmsgs) == self.fds_between(pos, pos + bytes.len())
        }
    }

    /// Every read among `events` is a read of the socket at the place that
    /// the attempt had come to, when the attempt began at `start` with
    /// nothing received.
    pub open spec fn delivers_all(self, start: int, events: Seq<Progress>) -> bool
        decreases events.len(),
    {
        events.len() == 0 || {
            &&& self.delivers_all(start, events.drop_last())
            &&& self.delivers(
                start + after_all(fresh(), events.drop_last()).buf.len(),
                events.last(),
            )
        }
    }

    /// A message of `len` bytes stands at `start`, and `fds` were sent with
    /// it: with its first byte, as one write of the peer sends them, and
    /// none with the bytes behind.
    pub open spec fn holds_message(self, start: int, len: int, fds: Seq<i32>) -> bool {
        &&& 0 <= start
        &&& 0 < len
        &&& start + len <= self.bytes.len()
        &&& self.fds[start] == fds
        &&& forall|i: int| start < i < start + len ==> (#[trigger] self.fds[i]).len() == 0
    }
}

/// An attempt before anything has happened.
pub open spec fn fresh() -> Attempt {
    Attempt { buf: Seq::empty(), phase: Phase::Prefix, cmsgs: Seq::empty() }
}

/// The descriptors of ancillary data that arrived in two runs are those of
/// the first run and then those of the second.
proof fn lemma_rights_of_both(first: Seq<ControlMessage>, second: Seq<ControlMessage>)
    ensures
        rights(first + second) == rights(first) + rights(second),
    decreases second.len(),
{
    if second.len() > 0 {
        lemma_rights_of_both(first, second.drop_last());
        assert((first + second).drop_last() =~= first + second.drop_last());
    }
}

/// The descriptors sent with two stretches of bytes, one behind the other,
/// are those of the first and then those of the second.
proof fn lemma_fds_of_both(stream: Stream, from: int, mid: int, to: int)
    requires
        from <= mid <= to,
    ensures
        stream.fds_between(from, to) == stream.fds_between(from, mid) + stream.fds_between(
            mid,
            to,
        ),
    decreases to - mid,
{
    if to == mid {
        assert(stream.fds_between(from, mid) + stream.fds_between(mid, to) =~= stream.fds_between(
            from,
            mid,
        ));
    } else {
        lemma_fds_of_both(stream, from, mid, to - 1);
        assert(stream.fds_between(from, to) =~= stream.fds_between(from, mid)
            + stream.fds_between(mid, to));
    }
}

/// The descriptors sent with a message are those sent with its bytes.
proof fn lemma_fds_of_message(stream: Stream, start: int, len: int, fds: Seq<i32>, upto: int)
    requires
        stream.holds_message(start, len, fds),
        start < upto <= start + len,
    ensures
        stream.fds_between(start, upto) == fds,
    decreases upto - start,
{
    if upto == start + 1 {
        assert(stream.fds_between(start, start).len() == 0);
    } else {
        lemma_fds_of_message(stream, start, len, fds, upto - 1);
    }
}

/// What an attempt has received is what the socket held from the place
/// where the attempt began, bytes and descriptors alike.
pub proof fn lemma_attempt_follows_stream(stream: Stream, start: int, events: Seq<Progress>)
    requires
        0 <= start <= stream.bytes.len(),
        stream.delivers_all(start, events),
    ensures
        ({
            let now = after_all(fresh(), events);
            &&& start + now.buf.len() <= stream.bytes.len()
            &&& now.buf == stream.bytes.subrange(start, start + now.buf.len())
            &&& rights(now.cmsgs) == stream.fds_between(start, start + now.buf.len())
        }),
    decreases events.len(),
{
    if events.len() > 0 {
        lemma_attempt_follows_stream(stream, start, events.drop_last());
        let before = after_all(fresh(), events.drop_last());
        match events.last() {
            Progress::Read { bytes, cmsgs } => {
                let pos = start + before.buf.len();
                lemma_rights_of_both(before.cmsgs, cmsgs);
                lemma_fds_of_both(stream, start, pos, pos + bytes.len());
            },
            Progress::Header { header } => {},
        }
    }
}

/// File descriptors stay with their message, however the bytes arrive.
///
/// Say a message stands in the socket at `start`, sent with the descriptors
/// `fds`, and whatever else, bytes or descriptors, behind it. An attempt
/// begins there with nothing received; its reads are reads of the socket, of
/// any number of bytes up to what each was to take; and the prefix and the
/// four bytes behind it announce the length that the message has. Then, when
/// the message is to be parsed, the bytes received are the bytes of the
/// message, and the descriptors received are `fds`: none is missing, and
/// none of a later message is among them. [`Conn::finish`] puts exactly
/// these behind the descriptors of the parsed message, and leaves a new
/// attempt and an empty buffer for the message that stands behind.
pub proof fn lemma_descriptors_stay_with_their_message(
    stream: Stream,
    start: int,
    len: int,
    fds: Seq<i32>,
    events: Seq<Progress>,
)
    requires
        stream.well_formed(),
        stream.holds_message(start, len, fds),
        is_attempt(fresh(), events),
        stream.delivers_all(start, events),
        step_due(after_all(fresh(), events)) matches Ok(Step::ParseMessage { header }),
        settled(after_all(fresh(), events).phase, after_all(fresh(), events).buf) matches Phase::Body {
            header,
            total,
        } && total == len,
    ensures
        after_all(fresh(), events).buf == stream.bytes.subrange(start, start + len),
        rights(after_all(fresh(), events).cmsgs) == fds,
{
    lemma_attempt_stays_in_frame(fresh(), events);
    lemma_attempt_follows_stream(stream, start, events);
    lemma_fds_of_message(stream, start, len, fds, start + len);
}

/// The parser, which begins behind the prefix, has used `bytes_used` bytes,
/// and they are the whole of the message whose length `phase` knows.
pub open spec fn frame_is_used(phase: Phase, bytes_used: usize) -> bool {
    phase matches Phase::Body { header, total } && total == bytes_used + HEADER_LEN
}

impl Receive {
    /// A new attempt, before its first read.
    pub fn new() -> (rx: Receive)
        ensures
            rx@ == (ReceiveView { phase: Phase::Prefix, cmsgs: Seq::empty() }),
    {
        Receive { phase: Phase::Prefix, cmsgs: Vec::new() }
    }

    /// How far the attempt has come.
    pub fn phase(&self) -> (phase: Phase)
        ensures
            phase == self@.phase,
    {
        self.phase
    }

    /// The prefix is parsed and says `header`: the length of the header
    /// fields is to be read next.
    pub fn header_parsed(&mut self, header: Header)
        ensures
            final(self)@ == (ReceiveView { phase: Phase::FieldsLen { header }, ..old(self)@ }),
    {
        self.phase = Phase::FieldsLen { header };
    }
}

impl Conn {
    /// What is to be done next to get the next message: the step that the
    /// attempt `rx` has come to, `elapsed` nanoseconds after the call for
    /// the message began, when the message is to be there within `timeout`
    /// nanoseconds.
    ///
    /// First the attempt is settled: with the four bytes behind the prefix
    /// received, the length of the message is worked out. Then the step is
    /// chosen. Every read of the socket, in whichever phase, is preceded by
    /// a look at the time: with the time used up the attempt fails with
    /// [`Error::TimedOut`] in place of the read, and a read that is due gets
    /// the time that is left. The bytes received so far stay. Should the
    /// buffer hold more bytes than the message has, no read can complete it,
    /// and the attempt fails with [`Error::FramingError`].
    pub fn get_next_message(&self, rx: &mut Receive, elapsed: u128, timeout: Option<u128>) -> (step:
        Result<Step, Error>)
        ensures
            final(rx)@ == (ReceiveView {
                phase: settled(old(rx)@.phase, self@.msg_buf_in),
                ..old(rx)@
            }),
            step == next_step_spec(
                self@.msg_buf_in.len() as int,
                final(rx)@.phase,
                elapsed,
                timeout,
            ),
    {
        let have: usize = self.msg_buf_in.len();
        match rx.phase {
            Phase::FieldsLen { header } => {
                if have >= PREAMBLE_LEN {
                    let bytes: [u8; 4] = [
                        self.msg_buf_in[16],
                        self.msg_buf_in[17],
                        self.msg_buf_in[18],
                        self.msg_buf_in[19],
                    ];
                    let header_fields_len = parse_u32(&bytes, header.byteorder);
                    rx.phase = Phase::Body {
                        header,
                        total: frame_len(header_fields_len, header.body_len),
                    };
                }
            },
            _ => {},
        }
        match rx.phase {
            Phase::Prefix => {
                if have < HEADER_LEN {
                    Conn::read_towards(HEADER_LEN as u64, have, elapsed, timeout)
                } else {
                    Ok(Step::ParseHeader)
                }
            },
            Phase::FieldsLen { header: _ } => Conn::read_towards(
                PREAMBLE_LEN as u64,
                have,
                elapsed,
                timeout,
            ),
            Phase::Body { header, total } => {
                if (have as u64) < total {
                    Conn::read_towards(total, have, elapsed, timeout)
                } else if have as u64 == total {
                    Ok(Step::ParseMessage { header })
                } else {
                    Err(Error::FramingError)
                }
            },
        }
    }

    fn read_towards(target: u64, have: usize, elapsed: u128, timeout: Option<u128>) -> (step: Result<
        Step,
        Error,
    >)
        ensures
            step == refill_step(target as int, have as int, elapsed, timeout),
    {
        match time_left(elapsed, timeout) {
            Ok(left) => Ok(Step::Refill { max_len: refill_len(target, have), timeout: left }),
            Err(e) => Err(e),
        }
    }

    /// Takes the outcome of a read: what it brought, or the way it failed.
    ///
    /// The bytes go behind the bytes received, the ancillary data behind
    /// that of the attempt. A failed read changes nothing, so after
    /// [`Error::TimedOut`] the attempt can go on from the bytes and the
    /// ancillary data that were there.
    pub fn refilled(&mut self, rx: &mut Receive, outcome: Result<Received, SocketFailure>) -> (done:
        Result<(), Error>)
        ensures
            match outcome {
                Ok(received) => {
                    &&& done is Ok
                    &&& final(self)@ == (ConnView {
                        msg_buf_in: old(self)@.msg_buf_in + received.bytes@,
                        ..old(self)@
                    })
                    &&& final(rx)@ == (ReceiveView {
                        cmsgs: old(rx)@.cmsgs + received.cmsgs@,
                        ..old(rx)@
                    })
                },
                Err(failure) => {
                    &&& done == Err::<(), Error>(recv_failure(failure))
                    &&& final(self)@ == old(self)@
                    &&& final(rx)@ == old(rx)@
                },
            },
    {
        match outcome {
            Ok(received) => {
                let mut received = received;
                self.msg_buf_in.append(&mut received.bytes);
                rx.cmsgs.append(&mut received.cmsgs);
                Ok(())
            },
            Err(SocketFailure::TimedOut) => Err(Error::TimedOut),
            Err(SocketFailure::Other(errno)) => Err(Error::IoError(errno)),
        }
    }

    /// Takes the parsed message `msg` and the number of bytes behind the
    /// prefix that the parser used for it.
    ///
    /// If that is not the whole message, or the attempt has not come to the
    /// phase in which a message's length is known, the stream is out of
    /// step: the attempt fails with [`Error::FramingError`], and the bytes
    /// received and the attempt stay as they are. Otherwise the bytes
    /// received are dropped, the message is returned with the file
    /// descriptors that arrived during this attempt behind its own, in the
    /// order of their arrival, and the attempt is new again.
    pub fn finish(&mut self, rx: &mut Receive, bytes_used: usize, msg: Message) -> (received:
        Result<Message, Error>)
        ensures
            frame_is_used(old(rx)@.phase, bytes_used) ==> {
                &&& received matches Ok(m)
                &&& m.is_with_fds(msg, rights(old(rx)@.cmsgs))
                &&& final(self)@ == (ConnView { msg_buf_in: Seq::empty(), ..old(self)@ })
                &&& final(rx)@ == (ReceiveView { phase: Phase::Prefix, cmsgs: Seq::empty() })
            },
            !frame_is_used(old(rx)@.phase, bytes_used) ==> {
                &&& received == Err::<Message, Error>(Error::FramingError)
                &&& final(self)@ == old(self)@
                &&& final(rx)@ == old(rx)@
            },
    {
        let total: u64 = match rx.phase {
            Phase::Body { header: _, total } => total,
            _ => 0,
        };
        if total < HEADER_LEN as u64 || total - HEADER_LEN as u64 != bytes_used as u64 {
            return Err(Error::FramingError);
        }
        self.msg_buf_in.clear();
        let msg = attach_fds(msg, &rx.cmsgs);
        rx.cmsgs.clear();
        rx.phase = Phase::Prefix;
        Ok(msg)
    }
}

/// A message that comes back as it went out arrives as it was sent.
///
/// Say `msg` is sent by a connection that stands at `counter`, the parser on
/// the other side reads its type, serial and body as they were sent and
/// leaves the descriptors to the socket, and the socket delivers the
/// descriptors of `msg`, in order, as the ancillary data `cmsgs`. Then the
/// message that [`Conn::finish`] hands out has the type, the serial, the
/// body and the descriptors of the message that was sent.
pub proof fn lemma_loopback(
    msg: Message,
    counter: u32,
    parsed: Message,
    cmsgs: Seq<ControlMessage>,
    received: Message,
)
    requires
        parsed.typ == msg.typ,
        parsed.serial == stamped(msg, counter).serial,
        parsed.body@ == msg.body@,
        parsed.raw_fds@.len() == 0,
        rights(cmsgs) == msg.raw_fds@,
        received.is_with_fds(parsed, rights(cmsgs)),
    ensures
        received.typ == stamped(msg, counter).typ,
        received.serial == stamped(msg, counter).serial,
        received.serial is Some,
        received.body@ == stamped(msg, counter).body@,
        received.raw_fds@ == stamped(msg, counter).raw_fds@,
{
}

/// Puts the file descriptors that `cmsgs` carry behind those of `msg`.
/// Ancillary data of any other kind is passed over.
pub fn attach_fds(msg: Message, cmsgs: &Vec<ControlMessage>) -> (out: Message)
    ensures
        out.is_with_fds(msg, rights(cmsgs@)),
{
    let mut out = msg;
    let mut i: usize = 0;
    while i < cmsgs.len()
        invariant
            i <= cmsgs.len(),
            out.is_with_fds(msg, rights(cmsgs@.take(i as int))),
        decreases cmsgs.len() - i,
    {
        assert(cmsgs@.take(i + 1).drop_last() =~= cmsgs@.take(i as int));
        match &cmsgs[i] {
            ControlMessage::ScmRights(fds) => {
                let mut j: usize = 0;
                while j < fds.len()
                    invariant
                        j <= fds.len(),
                        out.is_with_fds(msg, rights(cmsgs@.take(i as int)) + fds@.take(j as int)),
                    decreases fds.len() - j,
                {
                    out.raw_fds.push(fds[j]);
                    assert(fds@.take(j + 1) =~= fds@.take(j as int).push(fds@[j as int]));
                    j += 1;
                }
                assert(fds@.take(j as int) =~= fds@);
            },
            ControlMessage::Other => {},
        }
        i += 1;
    }
    assert(cmsgs@.take(i as int) =~= cmsgs@);
    out
}

} // verus!
