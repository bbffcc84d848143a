use crate::errors::ApiError;
use crate::message::{parse_event, spec_json_string_field, spec_known_tag, Event};
use vstd::prelude::*;
use vstd::string::StringExecFns;

verus! {

/// One item read from the socket of an event channel.
#[derive(Debug)]
pub enum InboundFrame {
    /// A frame with a textual payload.
    Payload(String),
    /// A keep-alive control frame. The transport acknowledges these itself,
    /// so the delivery loop ignores them.
    Ping,
    /// The transport reported an error for this read; the detail is its
    /// text. Intermittent frame errors on a push channel are not fatal.
    TransportError(String),
}

/// What the delivery loop's multiplexed wait came back with: the next
/// inbound item, the end of the stream, or the cancellation signal.
#[derive(Debug)]
pub enum LoopEvent {
    /// The socket yielded an item.
    Inbound(InboundFrame),
    /// The peer cleanly ended the stream.
    StreamEnd,
    /// The externally issued cancellation signal was observed.
    Cancelled,
}

/// What the delivery loop must do with one `LoopEvent`.
#[derive(Debug)]
pub enum LoopDirective {
    /// Nothing is surfaced; wait for the next event.
    Continue,
    /// Hand this event to the registered handler, together with the send
    /// handle, then wait for the next event.
    Deliver(Event),
    /// Exit and run the cooperative close handshake on the socket.
    ExitClose,
    /// Exit; the stream is already over.
    Exit,
}

/// The state of one event channel: whether cancellation has been signalled
/// and whether the background delivery loop has exited (tearing down the
/// outbound half with it).
///
/// The embedding application owns the socket and the background task; it
/// drives this state machine with what it read and obeys the directives the
/// machine hands back. Send handles consult the same state, so once the
/// channel is cancelled or its loop has finished, every send fails fast with
/// [`ApiError::SinkAlreadyClosed`] instead of writing to a dead socket.
#[derive(Debug, Clone, Copy, PartialEq, Eq, Structural)]
pub struct Listener {
    /// Whether `terminate` has been called.
    pub cancelled: bool,
    /// Whether the delivery loop has exited.
    pub finished: bool,
}

/// One operation on a channel's state, for stating how the state evolves
/// over a whole run.
pub enum ChannelOp {
    /// The delivery loop handled one `LoopEvent`.
    Step(LoopEvent),
    /// The registered handler returned, saying whether to keep listening.
    Handler(bool),
    /// The cancellation signal was issued.
    Terminate,
}

/// The channel state after one operation.
pub open spec fn spec_op(s: Listener, op: ChannelOp) -> Listener {
    match op {
        ChannelOp::Step(ev) => Listener {
            cancelled: s.cancelled,
            finished: s.finished || ev is StreamEnd || ev is Cancelled,
        },
        ChannelOp::Handler(keep_listening) => Listener {
            cancelled: s.cancelled,
            finished: s.finished || !keep_listening,
        },
        ChannelOp::Terminate => Listener { cancelled: true, finished: s.finished },
    }
}

/// The channel state after a run of operations, first to last.
pub open spec fn spec_run(s: Listener, ops: Seq<ChannelOp>) -> Listener
    decreases ops.len(),
{
    if ops.len() == 0 {
        s
    } else {
        spec_run(spec_op(s, ops[0]), ops.drop_first())
    }
}

/// Whether one loop event carries a frame that decodes to a known message,
/// which the loop must then deliver.
pub open spec fn spec_delivers(ev: LoopEvent) -> bool {
    &&& ev matches LoopEvent::Inbound(InboundFrame::Payload(s))
    &&& spec_json_string_field(s@, "msg"@) matches Some(tag) && spec_known_tag(tag)
}

impl Listener {
    /// A freshly opened channel: not cancelled, its delivery loop running.
    pub fn new() -> (r: Listener)
        ensures
            !r.cancelled,
            !r.finished,
    {
        Listener { cancelled: false, finished: false }
    }

    /// Whether a send may still reach the socket: the channel is neither
    /// cancelled nor torn down.
    pub open spec fn send_allowed(self) -> bool {
        !self.cancelled && !self.finished
    }

    /// Issue the cancellation signal. Returns at once; idempotent, and a
    /// no-op beyond the signal when the loop has already finished.
    pub fn terminate(&mut self)
        ensures
            *final (self) == spec_op(*old(self), ChannelOp::Terminate),
    {
        self.cancelled = true;
    }

    /// The frame text a send must write for this event, or the error of a
    /// send issued after the channel was cancelled or torn down.
    ///
    /// An `Unknown` message has no mapped payload; it travels as the bare
    /// tagged object.
    pub fn prepare_send(&self, event: &Event) -> (r: Result<String, ApiError>)
        ensures
            !self.send_allowed() ==> (r matches Err(e) && e is SinkAlreadyClosed),
            self.send_allowed() ==> (r matches Ok(s) && match event.message.spec_frame() {
                Some(t) => s@ == t,
                None => s@ == "{\"msg\":\"Unknown\"}"@,
            }),
    {
        if self.cancelled || self.finished {
            return Err(ApiError::SinkAlreadyClosed);
        }
        match event.message.frame_text() {
            Some(text) => Ok(text),
            None => Ok(String::from_str("{\"msg\":\"Unknown\"}")),
        }
    }

    /// Decide what the delivery loop does with one event.
    ///
    /// A malformed frame is dropped and the loop goes on, as does a
    /// transport error and a keep-alive; a frame with an unmapped tag is
    /// dropped too, so an `Unknown` message never reaches the handler. Only
    /// the cancellation signal and the peer's end of stream exit the loop,
    /// the former through the cooperative close handshake.
    pub fn loop_step(&mut self, ev: LoopEvent) -> (r: LoopDirective)
        requires
            !old(self).finished,
        ensures
            *final (self) == spec_op(*old(self), ChannelOp::Step(ev)),
            r is Deliver <==> spec_delivers(ev),
            r matches LoopDirective::Deliver(e) ==> !(e.message is Unknown),
            ev is Cancelled ==> r is ExitClose,
            ev is StreamEnd ==> r is Exit,
            ev matches LoopEvent::Inbound(f) ==> match f {
                InboundFrame::Ping => r is Continue,
                InboundFrame::TransportError(_) => r is Continue,
                InboundFrame::Payload(s) => match spec_json_string_field(s@, "msg"@) {
                    Some(tag) => if spec_known_tag(tag) {
                        r matches LoopDirective::Deliver(e) && e.message.spec_tag() == tag
                            && e.message.spec_frame() == Some(s@)
                    } else {
                        r is Continue
                    },
                    None => r is Continue,
                },
            },
    {
        match ev {
            LoopEvent::Cancelled => {
                self.finished = true;
                LoopDirective::ExitClose
            },
            LoopEvent::StreamEnd => {
                self.finished = true;
                LoopDirective::Exit
            },
            LoopEvent::Inbound(frame) => match frame {
                InboundFrame::Ping => LoopDirective::Continue,
                InboundFrame::TransportError(_) => LoopDirective::Continue,
                InboundFrame::Payload(text) => match parse_event(text.as_str()) {
                    Err(_) => LoopDirective::Continue,
                    Ok(event) => {
                        if event.message.is_unknown() {
                            LoopDirective::Continue
                        } else {
                            LoopDirective::Deliver(event)
                        }
                    },
                },
            },
        }
    }

    /// Record what the registered handler asked for: answering `false` stops
    /// the loop, anything else leaves the channel as it was.
    pub fn handler_outcome(&mut self, keep_listening: bool)
        ensures
            *final (self) == spec_op(*old(self), ChannelOp::Handler(keep_listening)),
    {
        if !keep_listening {
            self.finished = true;
        }
    }
}

/// Once a channel is cancelled, it stays cancelled: no operation clears the
/// signal.
pub proof fn lemma_cancelled_is_stable(s: Listener, ops: Seq<ChannelOp>)
    requires
        s.cancelled,
    ensures
        spec_run(s, ops).cancelled,
    decreases ops.len(),
{
    if ops.len() > 0 {
        lemma_cancelled_is_stable(spec_op(s, ops[0]), ops.drop_first());
    }
}

/// After `terminate`, every subsequent send fails with the closed-channel
/// error, whatever the delivery loop, the handler or further `terminate`
/// calls do in between.
pub proof fn lemma_send_fails_after_terminate(s: Listener, ops: Seq<ChannelOp>)
    ensures
        !spec_run(spec_op(s, ChannelOp::Terminate), ops).send_allowed(),
{
    lemma_cancelled_is_stable(spec_op(s, ChannelOp::Terminate), ops);
}

/// `terminate` is idempotent: a second signal leaves the state exactly as
/// the first did.
pub proof fn lemma_terminate_idempotent(s: Listener)
    ensures
        spec_op(spec_op(s, ChannelOp::Terminate), ChannelOp::Terminate) == spec_op(
            s,
            ChannelOp::Terminate,
        ),
{
}

/// A malformed inbound frame does not terminate the delivery loop: it leaves
/// the channel state exactly as it was, and a well-formed frame arriving
/// after it is still delivered.
pub proof fn lemma_malformed_frame_is_survivable(s: Listener, bad: String, good: String)
    requires
        !s.finished,
        spec_json_string_field(bad@, "msg"@) is None,
        spec_json_string_field(good@, "msg"@) matches Some(tag) && spec_known_tag(tag),
    ensures
        spec_op(s, ChannelOp::Step(LoopEvent::Inbound(InboundFrame::Payload(bad)))) == s,
        spec_delivers(LoopEvent::Inbound(InboundFrame::Payload(good))),
{
}

} // verus!
