//! The dispatcher: one stream of messages sorted into calls, signals and
//! replies.
use vstd::prelude::*;
use std::collections::HashMap;
use std::collections::VecDeque;
use crate::error::Error;
use crate::message::{ByteOrder, Message, MessageType};
use crate::timeout::{time_left, time_left_spec};
use crate::transport::{counter_after, stamped, Conn, ConnView};

verus! {

/// A connection together with the messages that have arrived on it and that
/// nobody has asked for yet.
///
/// `F` is the type of the filter. Until [`RpcConn::set_filter`] is called
/// every message is accepted.
pub struct RpcConn<F: Fn(&Message) -> bool> {
    signals: VecDeque<Message>,
    calls: VecDeque<Message>,
    responses: HashMap<u32, Message>,
    conn: Conn,
    filter: Option<F>,
}

/// What an [`RpcConn`] holds, but for its filter.
pub struct RpcView {
    /// The signals that wait, oldest first.
    pub signals: Seq<Message>,
    /// The calls that wait, oldest first.
    pub calls: Seq<Message>,
    /// The replies and errors that wait, each under the serial of the call
    /// that it answers.
    pub responses: Map<u32, Message>,
    /// The connection underneath.
    pub conn: ConnView,
}

/// What became of a message that was handed to the dispatcher.
#[derive(Debug)]
pub enum Routed {
    /// It waits in the collection of its kind.
    Admitted,
    /// It is a call that the filter rejects. The caller is owed an
    /// unknown-method error for it.
    Rejected(Message),
    /// The filter rejects it, and nobody is owed an answer: it is gone.
    Dropped,
}

/// What happened since the dispatcher last said what to do, while it is
/// being refilled.
#[derive(Debug)]
pub enum RefillEvent {
    /// Nothing: the refill begins.
    Begin,
    /// The connection received this message.
    Received(Message),
    /// The unknown-method error for a rejected call is sent.
    Answered,
}

/// The next piece of work in refilling the dispatcher.
#[derive(Debug)]
pub enum RefillStep {
    /// Receive the next message from the connection, within `timeout`
    /// nanoseconds if there is one.
    Receive { timeout: Option<u128> },
    /// Send an unknown-method error in answer to `call`, within `timeout`
    /// nanoseconds if there is one.
    Answer { call: Message, timeout: Option<u128> },
    /// A message was admitted: the refill is over.
    Done,
}

/// What a wait has come to.
#[derive(Debug)]
pub enum Waited {
    /// The message that was waited for.
    Ready(Message),
    /// Nothing of the kind waits: refill the dispatcher, within `timeout`
    /// nanoseconds if there is one, and ask again.
    Refill { timeout: Option<u128> },
}

/// To receive the next message in what is left of `timeout` after `elapsed`
/// nanoseconds, if anything is left.
pub open spec fn receive_within(elapsed: u128, timeout: Option<u128>) -> Result<RefillStep, Error> {
    match time_left_spec(elapsed, timeout) {
        Ok(left) => Ok(RefillStep::Receive { timeout: left }),
        Err(e) => Err(e),
    }
}

/// What follows in a refill when a received message was routed with
/// `outcome`, `elapsed` nanoseconds into a refill that has `timeout`.
///
/// An admitted message ends the refill and an invalid one fails it. A
/// rejected call is answered and a dropped message is followed by the next,
/// both only while time is left.
pub open spec fn after_routing(outcome: Result<Routed, Error>, elapsed: u128, timeout: Option<u128>) -> Result<
    RefillStep,
    Error,
> {
    match outcome {
        Err(e) => Err(e),
        Ok(Routed::Admitted) => Ok(RefillStep::Done),
        Ok(Routed::Dropped) => receive_within(elapsed, timeout),
        Ok(Routed::Rejected(call)) => match time_left_spec(elapsed, timeout) {
            Ok(left) => Ok(RefillStep::Answer { call, timeout: left }),
            Err(e) => Err(e),
        },
    }
}

/// What a wait comes to when nothing of the kind waits: a refill in what is
/// left of `timeout` after `elapsed` nanoseconds, if anything is left.
pub open spec fn wait_on(elapsed: u128, timeout: Option<u128>) -> Result<Waited, Error> {
    match time_left_spec(elapsed, timeout) {
        Ok(left) => Ok(Waited::Refill { timeout: left }),
        Err(e) => Err(e),
    }
}

/// The collections after `msg` arrived and the filter said `accepted`.
///
/// An accepted message goes to the end of the calls or of the signals, or
/// under the serial that it answers, where it takes the place of an earlier
/// answer to the same call. Any other message changes nothing.
pub open spec fn route_state(before: RpcView, msg: Message, accepted: bool) -> RpcView {
    if !accepted {
        before
    } else {
        match msg.typ {
            MessageType::Call => RpcView { calls: before.calls.push(msg), ..before },
            MessageType::Signal => RpcView { signals: before.signals.push(msg), ..before },
            MessageType::Reply | MessageType::Error => RpcView {
                responses: before.responses.insert(msg.response_serial->0, msg),
                ..before
            },
            MessageType::Invalid => before,
        }
    }
}

/// What is reported of `msg` when the filter said `accepted`.
///
/// A message of the invalid type is an error whatever the filter says. An
/// accepted message is admitted; a rejected call is handed back to be
/// answered; any other rejected message is dropped.
pub open spec fn route_outcome(msg: Message, accepted: bool) -> Result<Routed, Error> {
    match msg.typ {
        MessageType::Invalid => Err(Error::UnexpectedTypeReceived),
        MessageType::Call => if accepted {
            Ok(Routed::Admitted)
        } else {
            Ok(Routed::Rejected(msg))
        },
        _ => if accepted {
            Ok(Routed::Admitted)
        } else {
            Ok(Routed::Dropped)
        },
    }
}

impl<F: Fn(&Message) -> bool> View for RpcConn<F> {
    type V = RpcView;

    closed spec fn view(&self) -> RpcView {
        RpcView {
            signals: self.signals@,
            calls: self.calls@,
            responses: self.responses@,
            conn: self.conn@,
        }
    }
}

impl<F: Fn(&Message) -> bool> RpcConn<F> {
    /// The filter, if one is set.
    pub closed spec fn filter(&self) -> Option<F> {
        self.filter
    }

    /// The filter answers for every message.
    pub open spec fn filter_is_total(&self) -> bool {
        self.filter() matches Some(f) ==> forall|m: &Message| call_requires(f, (m,))
    }

    /// `verdict` is an answer that the filter can give for `msg`. Without a
    /// filter the answer is yes.
    pub open spec fn may_say(&self, msg: &Message, verdict: bool) -> bool {
        match self.filter() {
            Some(f) => call_ensures(f, (msg,), verdict),
            None => verdict,
        }
    }

    /// `msg` can be filed whatever the filter says of it: it names the call
    /// that it answers, if it is an answer, or else the filter does not let
    /// it pass.
    pub open spec fn can_file(&self, msg: &Message) -> bool {
        msg.routable() || forall|verdict: bool| self.may_say(msg, verdict) ==> !verdict
    }

    /// A dispatcher on `conn`, with nothing waiting and every message
    /// accepted.
    pub fn new(conn: Conn) -> (rpc: Self)
        ensures
            rpc@ == (RpcView {
                signals: Seq::empty(),
                calls: Seq::empty(),
                responses: Map::empty(),
                conn: conn@,
            }),
            rpc.filter() is None,
    {
        RpcConn {
            signals: VecDeque::new(),
            calls: VecDeque::new(),
            responses: HashMap::new(),
            conn,
            filter: None,
        }
    }

    /// From now on `filter` decides which messages are accepted. What
    /// already waits stays.
    pub fn set_filter(&mut self, filter: F)
        ensures
            final(self).filter() == Some(filter),
            final(self)@ == old(self)@,
    {
        self.filter = Some(filter);
    }

    /// The connection underneath.
    pub fn conn(&self) -> (conn: &Conn)
        ensures
            conn@ == self@.conn,
    {
        &self.conn
    }

    /// The connection underneath, to send and receive on. What waits in
    /// the dispatcher and its filter are out of reach through it.
    pub fn conn_mut(&mut self) -> (conn: &mut Conn)
        ensures
            conn@ == old(self)@.conn,
            final(self)@ == (RpcView { conn: final(conn)@, ..old(self)@ }),
            final(self).filter() == old(self).filter(),
    {
        &mut self.conn
    }

    /// The answer to the call `serial`, if it waits. It waits no longer.
    pub fn try_get_response(&mut self, serial: u32) -> (response: Option<Message>)
        ensures
            response == (if old(self)@.responses.contains_key(serial) {
                Some(old(self)@.responses[serial])
            } else {
                None
            }),
            final(self)@ == (RpcView {
                responses: old(self)@.responses.remove(serial),
                ..old(self)@
            }),
            final(self).filter() == old(self).filter(),
    {
        self.responses.remove(&serial)
    }

    /// The oldest signal that waits, if any. It waits no longer.
    pub fn try_get_signal(&mut self) -> (signal: Option<Message>)
        ensures
            old(self)@.signals.len() == 0 ==> signal is None && final(self)@ == old(self)@,
            old(self)@.signals.len() > 0 ==> signal == Some(old(self)@.signals[0]) && final(self)@
                == (RpcView { signals: old(self)@.signals.skip(1), ..old(self)@ }),
            final(self).filter() == old(self).filter(),
    {
        self.signals.pop_front()
    }

    /// The oldest call that waits, if any. It waits no longer.
    pub fn try_get_call(&mut self) -> (call: Option<Message>)
        ensures
            old(self)@.calls.len() == 0 ==> call is None && final(self)@ == old(self)@,
            old(self)@.calls.len() > 0 ==> call == Some(old(self)@.calls[0]) && final(self)@
                == (RpcView { calls: old(self)@.calls.skip(1), ..old(self)@ }),
            final(self).filter() == old(self).filter(),
    {
        self.calls.pop_front()
    }

    /// One step of waiting for the answer to the call `serial`, `elapsed`
    /// nanoseconds into a wait of `timeout` nanoseconds.
    ///
    /// An answer that waits is handed out, however late it is. If none
    /// waits, the dispatcher is to be refilled in the time that is left;
    /// with no time left the wait fails with [`Error::TimedOut`]. Messages of
    /// other kinds that arrive meanwhile are kept for their own readers.
    pub fn wait_response(&mut self, serial: u32, elapsed: u128, timeout: Option<u128>) -> (waited:
        Result<Waited, Error>)
        ensures
            old(self)@.responses.contains_key(serial) ==> {
                &&& waited == Ok::<Waited, Error>(Waited::Ready(old(self)@.responses[serial]))
                &&& final(self)@ == (RpcView {
                    responses: old(self)@.responses.remove(serial),
                    ..old(self)@
                })
            },
            !old(self)@.responses.contains_key(serial) ==> {
                &&& waited == wait_on(elapsed, timeout)
                &&& final(self)@ == old(self)@
            },
            final(self).filter() == old(self).filter(),
    {
        match self.try_get_response(serial) {
            Some(msg) => Ok(Waited::Ready(msg)),
            None => {
                assert(self@.responses =~= old(self)@.responses);
                RpcConn::<F>::keep_waiting(elapsed, timeout)
            },
        }
    }

    /// One step of waiting for a signal, `elapsed` nanoseconds into a wait
    /// of `timeout` nanoseconds.
    ///
    /// The oldest signal that waits is handed out, however late it is. If
    /// none waits, the dispatcher is to be refilled in the time that is
    /// left; with no time left the wait fails with [`Error::TimedOut`].
    pub fn wait_signal(&mut self, elapsed: u128, timeout: Option<u128>) -> (waited: Result<
        Waited,
        Error,
    >)
        ensures
            old(self)@.signals.len() > 0 ==> {
                &&& waited == Ok::<Waited, Error>(Waited::Ready(old(self)@.signals[0]))
                &&& final(self)@ == (RpcView { signals: old(self)@.signals.skip(1), ..old(self)@ })
            },
            old(self)@.signals.len() == 0 ==> {
                &&& waited == wait_on(elapsed, timeout)
                &&& final(self)@ == old(self)@
            },
            final(self).filter() == old(self).filter(),
    {
        match self.try_get_signal() {
            Some(msg) => Ok(Waited::Ready(msg)),
            None => RpcConn::<F>::keep_waiting(elapsed, timeout),
        }
    }

    /// One step of waiting for a call, `elapsed` nanoseconds into a wait of
    /// `timeout` nanoseconds.
    ///
    /// The oldest call that waits is handed out, however late it is. If none
    /// waits, the dispatcher is to be refilled in the time that is left;
    /// with no time left the wait fails with [`Error::TimedOut`].
    pub fn wait_call(&mut self, elapsed: u128, timeout: Option<u128>) -> (waited: Result<
        Waited,
        Error,
    >)
        ensures
            old(self)@.calls.len() > 0 ==> {
                &&& waited == Ok::<Waited, Error>(Waited::Ready(old(self)@.calls[0]))
                &&& final(self)@ == (RpcView { calls: old(self)@.calls.skip(1), ..old(self)@ })
            },
            old(self)@.calls.len() == 0 ==> {
                &&& waited == wait_on(elapsed, timeout)
                &&& final(self)@ == old(self)@
            },
            final(self).filter() == old(self).filter(),
    {
        match self.try_get_call() {
            Some(msg) => Ok(Waited::Ready(msg)),
            None => RpcConn::<F>::keep_waiting(elapsed, timeout),
        }
    }

    fn keep_waiting(elapsed: u128, timeout: Option<u128>) -> (waited: Result<Waited, Error>)
        ensures
            waited == wait_on(elapsed, timeout),
    {
        match time_left(elapsed, timeout) {
            Ok(left) => Ok(Waited::Refill { timeout: left }),
            Err(e) => Err(e),
        }
    }

    /// Begins to send `msg` on the connection underneath, as
    /// [`Conn::send_message`] does. The dispatcher itself stays as it is.
    pub fn send_message(&mut self, msg: Message) -> (out: (Message, ByteOrder))
        requires
            msg.serial is None ==> old(self)@.conn.serial_counter < u32::MAX,
        ensures
            out.0 == stamped(msg, old(self)@.conn.serial_counter),
            out.1 == ByteOrder::LittleEndian,
            final(self)@ == (RpcView {
                conn: ConnView {
                    msg_buf_out: Seq::empty(),
                    serial_counter: counter_after(msg, old(self)@.conn.serial_counter as int) as u32,
                    ..old(self)@.conn
                },
                ..old(self)@
            }),
            final(self).filter() == old(self).filter(),
    {
        self.conn.send_message(msg)
    }

    /// Files `msg`, of which the filter said `accepted`.
    ///
    /// An answer can be filed only under the serial of the call that it
    /// answers, so an accepted reply or error has to name one.
    pub fn route(&mut self, msg: Message, accepted: bool) -> (routed: Result<Routed, Error>)
        requires
            accepted ==> msg.routable(),
        ensures
            routed == route_outcome(msg, accepted),
            final(self)@ == route_state(old(self)@, msg, accepted),
            final(self).filter() == old(self).filter(),
    {
        match msg.typ {
            MessageType::Invalid => Err(Error::UnexpectedTypeReceived),
            MessageType::Call => {
                if accepted {
                    self.calls.push_back(msg);
                    Ok(Routed::Admitted)
                } else {
                    Ok(Routed::Rejected(msg))
                }
            },
            MessageType::Signal => {
                if accepted {
                    self.signals.push_back(msg);
                    Ok(Routed::Admitted)
                } else {
                    Ok(Routed::Dropped)
                }
            },
            MessageType::Reply | MessageType::Error => {
                if accepted {
                    match msg.response_serial {
                        Some(serial) => {
                            self.responses.insert(serial, msg);
                        },
                        None => {},
                    }
                    Ok(Routed::Admitted)
                } else {
                    Ok(Routed::Dropped)
                }
            },
        }
    }

    /// What the filter says of `msg`. Without a filter the answer is yes.
    pub fn accepts(&self, msg: &Message) -> (accepted: bool)
        requires
            self.filter_is_total(),
        ensures
            self.may_say(msg, accepted),
    {
        match &self.filter {
            Some(f) => f(msg),
            None => true,
        }
    }

    /// Asks the filter about `msg` and files it accordingly.
    ///
    /// The filter is asked exactly once, and what it says decides: the
    /// outcome and the collections are those of [`RpcConn::route`] for one of
    /// the answers that the filter can give for `msg`. An answer that names
    /// no call can only be dropped, so the filter must not let it pass.
    pub fn dispatch(&mut self, msg: Message) -> (routed: Result<Routed, Error>)
        requires
            old(self).filter_is_total(),
            old(self).can_file(&msg),
        ensures
            exists|accepted: bool|
                {
                    &&& old(self).may_say(&msg, accepted)
                    &&& routed == route_outcome(msg, accepted)
                    &&& final(self)@ == route_state(old(self)@, msg, accepted)
                },
            old(self).filter() is None ==> routed == route_outcome(msg, true) && final(self)@
                == route_state(old(self)@, msg, true),
            final(self).filter() == old(self).filter(),
    {
        let accepted = self.accepts(&msg);
        self.route(msg, accepted)
    }

    /// One step of refilling the dispatcher: of waiting until a message
    /// arrives that the filter accepts, and filing it.
    ///
    /// `event` is what happened since the last step, `elapsed` the
    /// nanoseconds since the refill began and `timeout` the nanoseconds it
    /// may take. The refill begins by receiving. A received message is
    /// filed as [`RpcConn::dispatch`] says; then the refill is over, or a
    /// rejected call is to be answered, or the next message is to be
    /// received. Nothing is sent or received once the time is used up: the
    /// refill fails with [`Error::TimedOut`].
    pub fn refill(&mut self, event: RefillEvent, elapsed: u128, timeout: Option<u128>) -> (step:
        Result<RefillStep, Error>)
        requires
            old(self).filter_is_total(),
            event matches RefillEvent::Received(msg) ==> old(self).can_file(&msg),
        ensures
            match event {
                RefillEvent::Received(msg) => exists|accepted: bool|
                    {
                        &&& old(self).may_say(&msg, accepted)
                        &&& step == after_routing(route_outcome(msg, accepted), elapsed, timeout)
                        &&& final(self)@ == route_state(old(self)@, msg, accepted)
                    },
                _ => step == receive_within(elapsed, timeout) && final(self)@ == old(self)@,
            },
            final(self).filter() == old(self).filter(),
    {
        match event {
            RefillEvent::Received(msg) => {
                match self.dispatch(msg) {
                    Err(e) => Err(e),
                    Ok(Routed::Admitted) => Ok(RefillStep::Done),
                    Ok(Routed::Dropped) => RpcConn::<F>::receive_next(elapsed, timeout),
                    Ok(Routed::Rejected(call)) => match time_left(elapsed, timeout) {
                        Ok(left) => Ok(RefillStep::Answer { call, timeout: left }),
                        Err(e) => Err(e),
                    },
                }
            },
            _ => RpcConn::<F>::receive_next(elapsed, timeout),
        }
    }

    fn receive_next(elapsed: u128, timeout: Option<u128>) -> (step: Result<RefillStep, Error>)
        ensures
            step == receive_within(elapsed, timeout),
    {
        match time_left(elapsed, timeout) {
            Ok(left) => Ok(RefillStep::Receive { timeout: left }),
            Err(e) => Err(e),
        }
    }
}

/// A filter that lets only signals pass sorts a call, a signal and a reply
/// as follows: the call is handed back to be answered with an
/// unknown-method error and does not wait, the signal waits, and the reply
/// is gone.
pub proof fn lemma_signals_only(start: RpcView, call: Message, signal: Message, reply: Message)
    requires
        call.typ is Call,
        signal.typ is Signal,
        reply.typ is Reply,
        reply.response_serial is Some,
        start.calls.len() == 0,
        start.signals.len() == 0,
        start.responses == Map::<u32, Message>::empty(),
    ensures
        ({
            let end = route_state(
                route_state(route_state(start, call, false), signal, true),
                reply,
                false,
            );
            &&& route_outcome(call, false) == Ok::<Routed, Error>(Routed::Rejected(call))
            &&& route_outcome(signal, true) == Ok::<Routed, Error>(Routed::Admitted)
            &&& route_outcome(reply, false) == Ok::<Routed, Error>(Routed::Dropped)
            &&& end.calls.len() == 0
            &&& end.signals == seq![signal]
            &&& !end.responses.contains_key(reply.response_serial->0)
            &&& end.conn == start.conn
        }),
{
}

/// An answer that is admitted is handed out as it came.
///
/// Once a reply or an error that names its call is admitted, it waits under
/// the serial of that call, itself and whole, with the descriptors that it
/// arrived with; [`RpcConn::try_get_response`] and
/// [`RpcConn::wait_response`] hand out what waits there.
pub proof fn lemma_answer_is_handed_out(before: RpcView, answer: Message)
    requires
        answer.answers(),
        answer.response_serial is Some,
    ensures
        route_outcome(answer, true) == Ok::<Routed, Error>(Routed::Admitted),
        route_state(before, answer, true).responses.contains_key(answer.response_serial->0),
        route_state(before, answer, true).responses[answer.response_serial->0] == answer,
{
}

/// What is admitted waits in exactly one place: an accepted message changes
/// the collection of its kind and no other, and a message that is not
/// admitted changes none.
pub proof fn lemma_one_place(before: RpcView, msg: Message, accepted: bool)
    ensures
        ({
            let after = route_state(before, msg, accepted);
            &&& after.conn == before.conn
            &&& !(route_outcome(msg, accepted) matches Ok(Routed::Admitted)) ==> after == before
            &&& msg.typ is Call ==> after.signals == before.signals && after.responses
                == before.responses
            &&& msg.typ is Signal ==> after.calls == before.calls && after.responses
                == before.responses
            &&& msg.answers() ==> after.calls == before.calls && after.signals == before.signals
            &&& route_outcome(msg, accepted) matches Ok(Routed::Admitted) ==> {
                ||| msg.typ is Call && after.calls == before.calls.push(msg)
                ||| msg.typ is Signal && after.signals == before.signals.push(msg)
                ||| msg.answers() && after.responses == before.responses.insert(
                    msg.response_serial->0,
                    msg,
                )
            }
        }),
{
}

} // verus!
