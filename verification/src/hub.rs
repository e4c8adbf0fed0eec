//! The relay hub: the process-wide shared routing state. Four logical
//! channels connect the two session types: controller-to-device commands,
//! device-to-controller status, a device-write acknowledgement, and a
//! device-read acknowledgement.
//!
//! The command channel buffers up to [`COMMAND_CAPACITY`] pending items and is
//! bounded-lossy: a publish onto a full buffer evicts the oldest item, so a
//! slow subscriber skips intervening items and resumes from the next one. The
//! three status and acknowledgement channels buffer a single item, latest
//! only. A publish never blocks and never fails; a publish with no current
//! command subscriber is accepted silently and never delivered, which the
//! controller session uses to detect that no device is attached.
//!
//! Two ghost histories record every accepted publish of a command and of a
//! status message; the session contracts and the relay laws are stated over
//! them.

use vstd::prelude::*;
use crate::commands::Command;
use crate::messages::Message;
use crate::messages::MessageView;

verus! {

/// How many pending commands the command channel buffers.
pub const COMMAND_CAPACITY: usize = 5;

/// A bounded-lossy publish: the new item enters at the back; if the buffer is
/// full the oldest pending item is evicted.
pub open spec fn push_lossy(s: Seq<Command>, c: Command) -> Seq<Command> {
    if s.len() >= COMMAND_CAPACITY {
        s.drop_first().push(c)
    } else {
        s.push(c)
    }
}

/// The shared routing state, created once at process start and handed to
/// every session.
pub struct Hub {
    commands: Vec<Command>,
    status_slot: Option<Message>,
    device_ack_slot: Option<Message>,
    read_ack_slot: Option<Message>,
    subscribers: u64,
    status_history: Ghost<Seq<MessageView>>,
    command_history: Ghost<Seq<Command>>,
}

impl Hub {
    /// The commands published and not yet received nor evicted, oldest first.
    pub closed spec fn pending_commands(&self) -> Seq<Command> {
        self.commands@
    }

    /// Every status message ever published, in publish order.
    pub closed spec fn status_log(&self) -> Seq<MessageView> {
        self.status_history@
    }

    /// Every command ever published, in publish order — including publishes
    /// made while no subscriber was attached to receive them.
    pub closed spec fn command_log(&self) -> Seq<Command> {
        self.command_history@
    }

    /// How many device-side subscribers the command channel has.
    pub closed spec fn subscriber_count(&self) -> u64 {
        self.subscribers
    }

    /// The undrained status message, if any.
    pub closed spec fn status_slot_view(&self) -> Option<MessageView> {
        match self.status_slot {
            Some(m) => Some(m@),
            None => None,
        }
    }

    /// The undrained device-write acknowledgement, if any.
    pub closed spec fn device_ack_slot_view(&self) -> Option<MessageView> {
        match self.device_ack_slot {
            Some(m) => Some(m@),
            None => None,
        }
    }

    /// The undrained device-read acknowledgement, if any.
    pub closed spec fn read_ack_slot_view(&self) -> Option<MessageView> {
        match self.read_ack_slot {
            Some(m) => Some(m@),
            None => None,
        }
    }

    /// Well-formedness: the command buffer respects its capacity, and an
    /// undrained status message is the most recently published one.
    pub open spec fn wf(&self) -> bool {
        &&& self.pending_commands().len() <= COMMAND_CAPACITY
        &&& (self.status_slot_view() matches Some(v) ==> self.status_log().len() > 0
            && self.status_log().last() == v)
    }

    /// A fresh hub: no pending traffic, no subscribers, empty histories.
    pub fn new() -> (h: Hub)
        ensures
            h.wf(),
            h.pending_commands() == Seq::<Command>::empty(),
            h.status_log() == Seq::<MessageView>::empty(),
            h.command_log() == Seq::<Command>::empty(),
            h.subscriber_count() == 0,
            h.status_slot_view() is None,
            h.device_ack_slot_view() is None,
            h.read_ack_slot_view() is None,
    {
        Hub {
            commands: Vec::new(),
            status_slot: None,
            device_ack_slot: None,
            read_ack_slot: None,
            subscribers: 0,
            status_history: Ghost(Seq::empty()),
            command_history: Ghost(Seq::empty()),
        }
    }

    /// How many device-side subscribers the command channel has.
    pub fn command_subscriber_count(&self) -> (n: u64)
        ensures
            n == self.subscriber_count(),
    {
        self.subscribers
    }

    /// Registers one command subscriber (a device session attaching).
    pub fn subscribe_commands(&mut self)
        requires
            old(self).wf(),
            old(self).subscriber_count() < u64::MAX,
        ensures
            final(self).wf(),
            final(self).subscriber_count() == old(self).subscriber_count() + 1,
            final(self).pending_commands() == old(self).pending_commands(),
            final(self).command_log() == old(self).command_log(),
            final(self).status_log() == old(self).status_log(),
            final(self).status_slot_view() == old(self).status_slot_view(),
            final(self).device_ack_slot_view() == old(self).device_ack_slot_view(),
            final(self).read_ack_slot_view() == old(self).read_ack_slot_view(),
    {
        self.subscribers = self.subscribers + 1;
    }

    /// Removes one command subscriber (a device session detaching).
    pub fn unsubscribe_commands(&mut self)
        requires
            old(self).wf(),
            old(self).subscriber_count() > 0,
        ensures
            final(self).wf(),
            final(self).subscriber_count() == old(self).subscriber_count() - 1,
            final(self).pending_commands() == old(self).pending_commands(),
            final(self).command_log() == old(self).command_log(),
            final(self).status_log() == old(self).status_log(),
            final(self).status_slot_view() == old(self).status_slot_view(),
            final(self).device_ack_slot_view() == old(self).device_ack_slot_view(),
            final(self).read_ack_slot_view() == old(self).read_ack_slot_view(),
    {
        self.subscribers = self.subscribers - 1;
    }

    /// Publishes a command. Never blocks and never fails: with no subscriber
    /// the command is accepted and never delivered; with a full buffer the
    /// oldest pending command is evicted.
    pub fn publish_command(&mut self, cmd: Command)
        requires
            old(self).wf(),
        ensures
            final(self).wf(),
            final(self).command_log() == old(self).command_log().push(cmd),
            old(self).subscriber_count() == 0 ==> final(self).pending_commands() == old(
                self,
            ).pending_commands(),
            old(self).subscriber_count() > 0 ==> final(self).pending_commands() == push_lossy(
                old(self).pending_commands(),
                cmd,
            ),
            final(self).subscriber_count() == old(self).subscriber_count(),
            final(self).status_log() == old(self).status_log(),
            final(self).status_slot_view() == old(self).status_slot_view(),
            final(self).device_ack_slot_view() == old(self).device_ack_slot_view(),
            final(self).read_ack_slot_view() == old(self).read_ack_slot_view(),
    {
        if self.subscribers > 0 {
            if self.commands.len() >= COMMAND_CAPACITY {
                self.commands.remove(0);
                proof {
                    assert(self.commands@ =~= old(self).commands@.drop_first());
                }
            }
            self.commands.push(cmd);
        }
        proof {
            self.command_history@ = self.command_history@.push(cmd);
        }
    }

    /// Hands the device side the oldest pending command, if one is buffered.
    pub fn recv_command(&mut self) -> (r: Option<Command>)
        requires
            old(self).wf(),
        ensures
            final(self).wf(),
            old(self).pending_commands().len() == 0 ==> r is None && final(self).pending_commands()
                == old(self).pending_commands(),
            old(self).pending_commands().len() > 0 ==> r == Some(old(self).pending_commands()[0])
                && final(self).pending_commands() == old(self).pending_commands().drop_first(),
            final(self).command_log() == old(self).command_log(),
            final(self).subscriber_count() == old(self).subscriber_count(),
            final(self).status_log() == old(self).status_log(),
            final(self).status_slot_view() == old(self).status_slot_view(),
            final(self).device_ack_slot_view() == old(self).device_ack_slot_view(),
            final(self).read_ack_slot_view() == old(self).read_ack_slot_view(),
    {
        if self.commands.len() == 0 {
            None
        } else {
            let c = self.commands.remove(0);
            proof {
                assert(self.commands@ =~= old(self).commands@.drop_first());
            }
            Some(c)
        }
    }

    /// Publishes a status message for the controller: the single slot is
    /// overwritten (latest only) and the publish is recorded in the log.
    pub fn publish_status(&mut self, msg: Message)
        requires
            old(self).wf(),
        ensures
            final(self).wf(),
            final(self).status_log() == old(self).status_log().push(msg@),
            final(self).status_slot_view() == Some(msg@),
            final(self).pending_commands() == old(self).pending_commands(),
            final(self).command_log() == old(self).command_log(),
            final(self).subscriber_count() == old(self).subscriber_count(),
            final(self).device_ack_slot_view() == old(self).device_ack_slot_view(),
            final(self).read_ack_slot_view() == old(self).read_ack_slot_view(),
    {
        proof {
            self.status_history@ = self.status_history@.push(msg@);
        }
        self.status_slot = Some(msg);
    }

    /// Hands the controller writer the undrained status message, if any.
    pub fn recv_status(&mut self) -> (r: Option<Message>)
        requires
            old(self).wf(),
        ensures
            final(self).wf(),
            r matches Some(m) ==> old(self).status_slot_view() == Some(m@),
            r is None ==> old(self).status_slot_view() is None,
            final(self).status_slot_view() is None,
            final(self).status_log() == old(self).status_log(),
            final(self).pending_commands() == old(self).pending_commands(),
            final(self).command_log() == old(self).command_log(),
            final(self).subscriber_count() == old(self).subscriber_count(),
            final(self).device_ack_slot_view() == old(self).device_ack_slot_view(),
            final(self).read_ack_slot_view() == old(self).read_ack_slot_view(),
    {
        self.status_slot.take()
    }

    /// Publishes onto the device-write acknowledgement channel (latest only).
    pub fn publish_device_ack(&mut self, msg: Message)
        requires
            old(self).wf(),
        ensures
            final(self).wf(),
            final(self).device_ack_slot_view() == Some(msg@),
            final(self).pending_commands() == old(self).pending_commands(),
            final(self).command_log() == old(self).command_log(),
            final(self).subscriber_count() == old(self).subscriber_count(),
            final(self).status_log() == old(self).status_log(),
            final(self).status_slot_view() == old(self).status_slot_view(),
            final(self).read_ack_slot_view() == old(self).read_ack_slot_view(),
    {
        self.device_ack_slot = Some(msg);
    }

    /// Hands the device writer the undrained write acknowledgement, if any.
    pub fn recv_device_ack(&mut self) -> (r: Option<Message>)
        requires
            old(self).wf(),
        ensures
            final(self).wf(),
            r matches Some(m) ==> old(self).device_ack_slot_view() == Some(m@),
            r is None ==> old(self).device_ack_slot_view() is None,
            final(self).device_ack_slot_view() is None,
            final(self).pending_commands() == old(self).pending_commands(),
            final(self).command_log() == old(self).command_log(),
            final(self).subscriber_count() == old(self).subscriber_count(),
            final(self).status_log() == old(self).status_log(),
            final(self).status_slot_view() == old(self).status_slot_view(),
            final(self).read_ack_slot_view() == old(self).read_ack_slot_view(),
    {
        self.device_ack_slot.take()
    }

    /// Publishes onto the device-read acknowledgement channel (latest only).
    pub fn publish_read_ack(&mut self, msg: Message)
        requires
            old(self).wf(),
        ensures
            final(self).wf(),
            final(self).read_ack_slot_view() == Some(msg@),
            final(self).pending_commands() == old(self).pending_commands(),
            final(self).command_log() == old(self).command_log(),
            final(self).subscriber_count() == old(self).subscriber_count(),
            final(self).status_log() == old(self).status_log(),
            final(self).status_slot_view() == old(self).status_slot_view(),
            final(self).device_ack_slot_view() == old(self).device_ack_slot_view(),
    {
        self.read_ack_slot = Some(msg);
    }

    /// Hands back the undrained read acknowledgement, if any.
    pub fn recv_read_ack(&mut self) -> (r: Option<Message>)
        requires
            old(self).wf(),
        ensures
            final(self).wf(),
            r matches Some(m) ==> old(self).read_ack_slot_view() == Some(m@),
            r is None ==> old(self).read_ack_slot_view() is None,
            final(self).read_ack_slot_view() is None,
            final(self).pending_commands() == old(self).pending_commands(),
            final(self).command_log() == old(self).command_log(),
            final(self).subscriber_count() == old(self).subscriber_count(),
            final(self).status_log() == old(self).status_log(),
            final(self).status_slot_view() == old(self).status_slot_view(),
            final(self).device_ack_slot_view() == old(self).device_ack_slot_view(),
    {
        self.read_ack_slot.take()
    }
}

} // verus!
