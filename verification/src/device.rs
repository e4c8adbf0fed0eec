//! The device session's sub-task logic: the writer, which serializes pending
//! commands onto the device socket one at a time, and the reader, which turns
//! the device's bare `ack` replies into write acknowledgements.

use vstd::prelude::*;
use crate::commands::Command;
use crate::hub::Hub;
use crate::messages::ActionType;
use crate::messages::Message;
use crate::messages::MessageTyp;
use crate::messages::msg_view;
use crate::messages::typ_text;
use crate::session::InboundFrame;
use crate::wire::ack_frame;
use crate::wire::is_ack_frame;
use crate::wire::encode_device_frame;
use crate::wire::spec_device_frame;

verus! {

/// What the device writer's wait on the write-acknowledgement channel came
/// back with.
pub enum AckSignal {
    /// The channel delivered a message.
    Delivered(Message),
    /// The channel is closed and can deliver nothing more.
    Closed,
}

/// What the device writer decides to do with the outcome of its wait on the
/// write-acknowledgement channel: the session loop performs exactly this.
pub enum WriterAckDecision {
    /// The device acknowledged: publish this `(200, Ack, none)` status and
    /// loop to the next command.
    Acknowledge(Message),
    /// A foreign message or a dead channel: terminate the writer, publishing
    /// nothing (the session teardown signs off).
    Stop,
}

/// Decides how the writer resolves its in-flight send, from the wait's
/// outcome alone. Pure: the session loop applies the decision to the hub and
/// its own control flow.
pub fn writer_ack_decide(signal: AckSignal) -> (d: WriterAckDecision)
    ensures
        signal matches AckSignal::Delivered(m) && m@.message == typ_text(MessageTyp::ACK) ==> (
        d matches WriterAckDecision::Acknowledge(s) && s@ == msg_view(
            200,
            MessageTyp::ACK,
            ActionType::NoAction,
        )),
        signal matches AckSignal::Delivered(m) && m@.message != typ_text(MessageTyp::ACK)
            ==> d is Stop,
        signal is Closed ==> d is Stop,
{
    match signal {
        AckSignal::Delivered(m) => {
            if m.is_ack() {
                WriterAckDecision::Acknowledge(
                    Message::new(200, MessageTyp::ACK, ActionType::NoAction),
                )
            } else {
                WriterAckDecision::Stop
            }
        },
        AckSignal::Closed => WriterAckDecision::Stop,
    }
}

/// The device writer: serializes device-bound traffic to at most one
/// in-flight command. A command taken from the hub stays in flight until its
/// outcome — an acknowledgement, a foreign reply, a dead channel, or a send
/// failure — resolves it; the writer cannot take another command before then.
pub struct DeviceWriter {
    in_flight: Option<Command>,
    sent: Ghost<Seq<Command>>,
    resolved: Ghost<nat>,
}

impl DeviceWriter {
    /// The command sent and not yet resolved, if any.
    pub closed spec fn in_flight_cmd(&self) -> Option<Command> {
        self.in_flight
    }

    /// Every command this writer has pushed to the socket, in send order.
    pub closed spec fn sent_log(&self) -> Seq<Command> {
        self.sent@
    }

    /// How many of those sends have been resolved (acknowledged or failed).
    pub closed spec fn resolved_count(&self) -> nat {
        self.resolved@
    }

    /// Well-formedness: every send but possibly the last is resolved, and the
    /// unresolved one, when it exists, is exactly the in-flight command.
    pub open spec fn wf(&self) -> bool {
        &&& self.resolved_count() <= self.sent_log().len()
        &&& (self.in_flight_cmd() matches Some(c) ==> self.sent_log().len() == self.resolved_count()
            + 1 && self.sent_log().last() == c)
        &&& (self.in_flight_cmd() is None ==> self.sent_log().len() == self.resolved_count())
    }

    /// A fresh writer with nothing sent and nothing in flight.
    pub fn new() -> (w: DeviceWriter)
        ensures
            w.wf(),
            w.in_flight_cmd() is None,
            w.sent_log() == Seq::<Command>::empty(),
            w.resolved_count() == 0,
    {
        DeviceWriter { in_flight: None, sent: Ghost(Seq::empty()), resolved: Ghost(0) }
    }

    /// Takes the oldest pending command from the hub and serializes it for the
    /// device socket, marking it in flight. Requires that no earlier send is
    /// unresolved: the writer never pushes a second command while one is in
    /// flight, so a device that never acknowledges blocks the writer here
    /// rather than allowing a second send.
    pub fn next_frame(&mut self, hub: &mut Hub) -> (r: Option<Vec<u8>>)
        requires
            old(self).wf(),
            old(self).in_flight_cmd() is None,
            old(hub).wf(),
        ensures
            final(self).wf(),
            final(hub).wf(),
            old(hub).pending_commands().len() == 0 ==> (r is None && final(self).in_flight_cmd() is None
                && final(self).sent_log() == old(self).sent_log() && final(hub).pending_commands()
                == old(hub).pending_commands()),
            old(hub).pending_commands().len() > 0 ==> (r matches Some(bytes) && bytes@
                == spec_device_frame(old(hub).pending_commands()[0]) && final(self).in_flight_cmd()
                == Some(old(hub).pending_commands()[0]) && final(self).sent_log() == old(self).sent_log().push(old(hub).pending_commands()[0]) && final(hub).pending_commands()
                == old(hub).pending_commands().drop_first()),
            final(self).resolved_count() == old(self).resolved_count(),
            final(hub).command_log() == old(hub).command_log(),
            final(hub).status_log() == old(hub).status_log(),
            final(hub).status_slot_view() == old(hub).status_slot_view(),
            final(hub).subscriber_count() == old(hub).subscriber_count(),
            final(hub).device_ack_slot_view() == old(hub).device_ack_slot_view(),
            final(hub).read_ack_slot_view() == old(hub).read_ack_slot_view(),
    {
        match hub.recv_command() {
            Some(cmd) => {
                self.in_flight = Some(cmd);
                proof {
                    self.sent@ = self.sent@.push(cmd);
                }
                Some(encode_device_frame(&cmd))
            },
            None => None,
        }
    }

    /// Resolves the in-flight send with what the wait on the
    /// write-acknowledgement channel yielded, and says whether the writer
    /// lives on. An acknowledgement draws one `(200, Ack, none)` status and
    /// the writer loops to the next command; anything else — a foreign
    /// message or a closed channel — terminates the writer with no status of
    /// its own (the session teardown signs off).
    pub fn resolve_ack(&mut self, hub: &mut Hub, signal: AckSignal) -> (alive: bool)
        requires
            old(self).wf(),
            old(self).in_flight_cmd() is Some,
            old(hub).wf(),
        ensures
            final(self).wf(),
            final(hub).wf(),
            final(self).in_flight_cmd() is None,
            final(self).resolved_count() == old(self).resolved_count() + 1,
            final(self).sent_log() == old(self).sent_log(),
            signal matches AckSignal::Delivered(m) ==> (alive == (m@.message == typ_text(
                MessageTyp::ACK,
            )) && (alive ==> final(hub).status_log() == old(hub).status_log().push(
                msg_view(200, MessageTyp::ACK, ActionType::NoAction),
            ) && final(hub).status_slot_view() == Some(
                msg_view(200, MessageTyp::ACK, ActionType::NoAction),
            )) && (!alive ==> final(hub).status_log() == old(hub).status_log() && final(hub).status_slot_view() == old(hub).status_slot_view())),
            signal is Closed ==> (!alive && final(hub).status_log() == old(hub).status_log()
                && final(hub).status_slot_view() == old(hub).status_slot_view()),
            final(hub).pending_commands() == old(hub).pending_commands(),
            final(hub).command_log() == old(hub).command_log(),
            final(hub).subscriber_count() == old(hub).subscriber_count(),
            final(hub).device_ack_slot_view() == old(hub).device_ack_slot_view(),
            final(hub).read_ack_slot_view() == old(hub).read_ack_slot_view(),
    {
        self.in_flight = None;
        proof {
            self.resolved@ = self.resolved@ + 1;
        }
        match writer_ack_decide(signal) {
            WriterAckDecision::Acknowledge(status) => {
                hub.publish_status(status);
                true
            },
            WriterAckDecision::Stop => false,
        }
    }

    /// Resolves the in-flight send after the socket send failed: one
    /// `(500, PetOffline, reconnect)` status is published and the writer
    /// terminates. The caller then closes the socket; if that close fails
    /// too, it escalates through [`report_close_failure`].
    pub fn on_send_failure(&mut self, hub: &mut Hub)
        requires
            old(self).wf(),
            old(self).in_flight_cmd() is Some,
            old(hub).wf(),
        ensures
            final(self).wf(),
            final(hub).wf(),
            final(self).in_flight_cmd() is None,
            final(self).resolved_count() == old(self).resolved_count() + 1,
            final(self).sent_log() == old(self).sent_log(),
            final(hub).status_log() == old(hub).status_log().push(
                msg_view(500, MessageTyp::PetOffline, ActionType::Reconnect),
            ),
            final(hub).status_slot_view() == Some(
                msg_view(500, MessageTyp::PetOffline, ActionType::Reconnect),
            ),
            final(hub).pending_commands() == old(hub).pending_commands(),
            final(hub).command_log() == old(hub).command_log(),
            final(hub).subscriber_count() == old(hub).subscriber_count(),
            final(hub).device_ack_slot_view() == old(hub).device_ack_slot_view(),
            final(hub).read_ack_slot_view() == old(hub).read_ack_slot_view(),
    {
        self.in_flight = None;
        proof {
            self.resolved@ = self.resolved@ + 1;
        }
        hub.publish_status(Message::new(500, MessageTyp::PetOffline, ActionType::Reconnect));
    }
}

/// Escalates a failed socket close after a failed send: one
/// `(500, PetUnrecoverableError, reboot and reconnect)` status is published.
pub fn report_close_failure(hub: &mut Hub)
    requires
        old(hub).wf(),
    ensures
        final(hub).wf(),
        final(hub).status_log() == old(hub).status_log().push(
            msg_view(500, MessageTyp::PetUnrecoverableError, ActionType::RebootReconnect),
        ),
        final(hub).status_slot_view() == Some(
            msg_view(500, MessageTyp::PetUnrecoverableError, ActionType::RebootReconnect),
        ),
        final(hub).pending_commands() == old(hub).pending_commands(),
        final(hub).command_log() == old(hub).command_log(),
        final(hub).subscriber_count() == old(hub).subscriber_count(),
        final(hub).device_ack_slot_view() == old(hub).device_ack_slot_view(),
        final(hub).read_ack_slot_view() == old(hub).read_ack_slot_view(),
{
    hub.publish_status(
        Message::new(500, MessageTyp::PetUnrecoverableError, ActionType::RebootReconnect),
    );
}

/// Single in-flight command: a well-formed device writer never has more than
/// one unresolved send, and it has an unresolved send exactly while a command
/// is in flight. Together with the precondition of
/// [`DeviceWriter::next_frame`], no second send attempt is published before
/// the outcome of the previous one is resolved.
pub proof fn lemma_single_in_flight(w: DeviceWriter)
    requires
        w.wf(),
    ensures
        w.sent_log().len() <= w.resolved_count() + 1,
        (w.sent_log().len() == w.resolved_count() + 1) <==> w.in_flight_cmd() is Some,
{
}

/// One step of the device reader, on one socket event. Returns whether the
/// reader continues.
///
/// A text frame equal to the bare `ack` publishes a `(200, Ack, none)`
/// message onto the write-acknowledgement channel, waking the writer; any
/// other text frame, and any other frame kind, is ignored. A close frame or
/// the end of the stream publishes a `(200, PetOffline, reboot and
/// reconnect)` status for the controller and terminates the reader; a read
/// error terminates it silently.
pub fn device_read_step(hub: &mut Hub, frame: &InboundFrame) -> (cont: bool)
    requires
        old(hub).wf(),
    ensures
        final(hub).wf(),
        cont == !(frame is Close || frame is ReadError || frame is StreamEnd),
        frame matches InboundFrame::Text(t) ==> ((t@ == ack_frame() ==> final(hub).device_ack_slot_view() == Some(msg_view(200, MessageTyp::ACK, ActionType::NoAction))) && (
        t@ != ack_frame() ==> final(hub).device_ack_slot_view() == old(hub).device_ack_slot_view()) && final(hub).status_log() == old(hub).status_log() && final(hub).status_slot_view() == old(hub).status_slot_view()),
        frame is Other || frame is ReadError ==> (final(hub).status_log() == old(hub).status_log()
            && final(hub).status_slot_view() == old(hub).status_slot_view() && final(hub).device_ack_slot_view() == old(hub).device_ack_slot_view()),
        frame is Close || frame is StreamEnd ==> (final(hub).status_log() == old(hub).status_log().push(msg_view(200, MessageTyp::PetOffline, ActionType::RebootReconnect))
            && final(hub).status_slot_view() == Some(
            msg_view(200, MessageTyp::PetOffline, ActionType::RebootReconnect),
        ) && final(hub).device_ack_slot_view() == old(hub).device_ack_slot_view()),
        final(hub).pending_commands() == old(hub).pending_commands(),
        final(hub).command_log() == old(hub).command_log(),
        final(hub).subscriber_count() == old(hub).subscriber_count(),
        final(hub).read_ack_slot_view() == old(hub).read_ack_slot_view(),
{
    match frame {
        InboundFrame::Text(t) => {
            if is_ack_frame(t) {
                hub.publish_device_ack(Message::new(200, MessageTyp::ACK, ActionType::NoAction));
            }
            true
        },
        InboundFrame::Other => true,
        InboundFrame::ReadError => false,
        InboundFrame::Close => {
            hub.publish_status(
                Message::new(200, MessageTyp::PetOffline, ActionType::RebootReconnect),
            );
            false
        },
        InboundFrame::StreamEnd => {
            hub.publish_status(
                Message::new(200, MessageTyp::PetOffline, ActionType::RebootReconnect),
            );
            false
        },
    }
}

} // verus!
