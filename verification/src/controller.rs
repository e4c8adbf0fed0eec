//! The controller session's sub-task logic: the reader, which validates and
//! publishes inbound commands, and the writer, which streams status messages
//! out.

use vstd::prelude::*;
use crate::commands::Command;
use crate::commands::check_validity;
use crate::commands::spec_valid;
use crate::hub::Hub;
use crate::hub::push_lossy;
use crate::messages::ActionType;
use crate::messages::Message;
use crate::messages::MessageTyp;
use crate::messages::MessageView;
use crate::messages::msg_view;
use crate::session::InboundFrame;
use crate::wire::parse_command;
use crate::wire::spec_parse_command;
use crate::wire::spec_status_frame;
use crate::wire::encode_status_frame;

verus! {

/// The advisory-validation notice a command draws: one
/// `(400, InvalidCommand, none)` status when the command fails the validity
/// gate, nothing when it passes.
pub open spec fn validity_notices(cmd: Command) -> Seq<MessageView> {
    if spec_valid(cmd) {
        Seq::empty()
    } else {
        seq![msg_view(400, MessageTyp::InvalidCommand, ActionType::NoAction)]
    }
}

/// What one controller-reader step does to the hub on a text frame carrying
/// the bytes `t`.
///
/// A frame that does not parse draws exactly one `(400, InvalidParams, none)`
/// status and publishes no command. A parsed command first draws its
/// advisory-validation notices; then, admission control: with no command
/// subscriber the command is dropped — it never enters the command channel —
/// and exactly one `(400, PetOffline, reconnect)` status is published;
/// otherwise the command is published and nothing more is.
pub open spec fn controller_text_effect(pre: Hub, post: Hub, t: Seq<u8>) -> bool {
    match spec_parse_command(t) {
        None => {
            &&& post.status_log() == pre.status_log().push(
                msg_view(400, MessageTyp::InvalidParams, ActionType::NoAction),
            )
            &&& post.status_slot_view() == Some(
                msg_view(400, MessageTyp::InvalidParams, ActionType::NoAction),
            )
            &&& post.command_log() == pre.command_log()
            &&& post.pending_commands() == pre.pending_commands()
        },
        Some(cmd) => {
            if pre.subscriber_count() == 0 {
                &&& post.command_log() == pre.command_log()
                &&& post.pending_commands() == pre.pending_commands()
                &&& post.status_log() == pre.status_log() + validity_notices(cmd).push(
                    msg_view(400, MessageTyp::PetOffline, ActionType::Reconnect),
                )
                &&& post.status_slot_view() == Some(
                    msg_view(400, MessageTyp::PetOffline, ActionType::Reconnect),
                )
            } else {
                &&& post.command_log() == pre.command_log().push(cmd)
                &&& post.pending_commands() == push_lossy(pre.pending_commands(), cmd)
                &&& post.status_log() == pre.status_log() + validity_notices(cmd)
                &&& post.status_slot_view() == (if spec_valid(cmd) {
                    pre.status_slot_view()
                } else {
                    Some(msg_view(400, MessageTyp::InvalidCommand, ActionType::NoAction))
                })
            }
        },
    }
}

/// What the controller reader decides to do with one text frame: the session
/// loop performs exactly these publishes, in order.
pub enum ControllerDecision {
    /// The frame does not parse as a command: publish the rejection status
    /// and keep the connection open.
    Reject(Message),
    /// A command parsed but no device is attached: publish the advisory
    /// notice, if any, then the offline status; the command is dropped.
    Drop { notice: Option<Message>, offline: Message },
    /// A command parsed and a device is attached: publish the advisory
    /// notice, if any, then forward the command.
    Forward { notice: Option<Message>, command: Command },
}

/// The advisory-validation notice is present iff the command fails the
/// validity gate, and then carries `(400, InvalidCommand, none)`.
pub open spec fn notice_ok(n: Option<Message>, cmd: Command) -> bool {
    if spec_valid(cmd) {
        n is None
    } else {
        n matches Some(m) && m@ == msg_view(400, MessageTyp::InvalidCommand, ActionType::NoAction)
    }
}

/// The right decision on the frame bytes `t` with `subs` command subscribers:
/// reject what does not parse; drop, with exactly one
/// `(400, PetOffline, reconnect)` status, what arrives while no device is
/// attached; forward the rest, with the advisory notice when the command is
/// out of range.
pub open spec fn controller_decision_ok(d: ControllerDecision, t: Seq<u8>, subs: u64) -> bool {
    match spec_parse_command(t) {
        None => d matches ControllerDecision::Reject(m) && m@ == msg_view(
            400,
            MessageTyp::InvalidParams,
            ActionType::NoAction,
        ),
        Some(cmd) => {
            if subs == 0 {
                d matches ControllerDecision::Drop { notice, offline } && notice_ok(notice, cmd)
                    && offline@ == msg_view(400, MessageTyp::PetOffline, ActionType::Reconnect)
            } else {
                d matches ControllerDecision::Forward { notice, command } && notice_ok(notice, cmd)
                    && command == cmd
            }
        },
    }
}

/// Decides what to do with one inbound controller text frame, given how many
/// command subscribers are attached. Pure: the session loop applies the
/// decision to the hub and the socket.
pub fn controller_decide(t: &Vec<u8>, subscriber_count: u64) -> (d: ControllerDecision)
    ensures
        controller_decision_ok(d, t@, subscriber_count),
{
    match parse_command(t) {
        None => ControllerDecision::Reject(
            Message::new(400, MessageTyp::InvalidParams, ActionType::NoAction),
        ),
        Some(cmd) => {
            let notice = if !check_validity(cmd) {
                Some(Message::new(400, MessageTyp::InvalidCommand, ActionType::NoAction))
            } else {
                None
            };
            if subscriber_count == 0 {
                ControllerDecision::Drop {
                    notice,
                    offline: Message::new(400, MessageTyp::PetOffline, ActionType::Reconnect),
                }
            } else {
                ControllerDecision::Forward { notice, command: cmd }
            }
        },
    }
}

/// One step of the controller reader, on one socket event. Returns whether
/// the reader continues.
///
/// On a text frame that does not parse as a command, exactly one
/// `(400, InvalidParams, none)` status is published and the connection stays
/// open. On a parsed command that fails the validity gate, a
/// `(400, InvalidCommand, none)` status is published, but the command stays a
/// candidate for forwarding: in the observed protocol validation is advisory,
/// not a hard gate. Before forwarding, admission control: with no command
/// subscriber the command is dropped, never published, and exactly one
/// `(400, PetOffline, reconnect)` status is published; otherwise the command
/// is published to the hub. A close frame, a read error or the end of the
/// stream terminates the reader, with no status emitted for the controller's
/// own disconnect.
pub fn controller_read_step(hub: &mut Hub, frame: &InboundFrame) -> (cont: bool)
    requires
        old(hub).wf(),
    ensures
        final(hub).wf(),
        final(hub).subscriber_count() == old(hub).subscriber_count(),
        final(hub).device_ack_slot_view() == old(hub).device_ack_slot_view(),
        final(hub).read_ack_slot_view() == old(hub).read_ack_slot_view(),
        cont == !(frame is Close || frame is ReadError || frame is StreamEnd),
        (frame is Close || frame is ReadError || frame is StreamEnd || frame is Other) ==> (
        final(hub).status_log() == old(hub).status_log() && final(hub).command_log() == old(hub).command_log() && final(hub).pending_commands() == old(hub).pending_commands()
            && final(hub).status_slot_view() == old(hub).status_slot_view()),
        frame matches InboundFrame::Text(t) ==> controller_text_effect(*old(hub), *final(hub), t@),
{
    match frame {
        InboundFrame::Text(t) => {
            let d = controller_decide(t, hub.command_subscriber_count());
            match d {
                ControllerDecision::Reject(m) => {
                    hub.publish_status(m);
                },
                ControllerDecision::Drop { notice, offline } => {
                    let ghost cmd = spec_parse_command(t@).unwrap();
                    if let Some(n) = notice {
                        hub.publish_status(n);
                    }
                    assert(hub.status_log() =~= old(hub).status_log() + validity_notices(cmd));
                    hub.publish_status(offline);
                    assert(hub.status_log() =~= old(hub).status_log() + validity_notices(
                        cmd,
                    ).push(msg_view(400, MessageTyp::PetOffline, ActionType::Reconnect)));
                },
                ControllerDecision::Forward { notice, command } => {
                    let ghost cmd = spec_parse_command(t@).unwrap();
                    if let Some(n) = notice {
                        hub.publish_status(n);
                    }
                    assert(hub.status_log() =~= old(hub).status_log() + validity_notices(cmd));
                    hub.publish_command(command);
                },
            }
            true
        },
        InboundFrame::Other => true,
        InboundFrame::Close => false,
        InboundFrame::ReadError => false,
        InboundFrame::StreamEnd => false,
    }
}

/// One step of the controller writer: drains the undrained status message, if
/// any, and serializes it for the controller socket.
pub fn controller_write_step(hub: &mut Hub) -> (r: Option<Vec<u8>>)
    requires
        old(hub).wf(),
    ensures
        final(hub).wf(),
        (r matches Some(bytes) ==> (old(hub).status_slot_view() matches Some(v) && bytes@
            == spec_status_frame(v))),
        r is None ==> old(hub).status_slot_view() is None,
        final(hub).status_slot_view() is None,
        final(hub).status_log() == old(hub).status_log(),
        final(hub).pending_commands() == old(hub).pending_commands(),
        final(hub).command_log() == old(hub).command_log(),
        final(hub).subscriber_count() == old(hub).subscriber_count(),
        final(hub).device_ack_slot_view() == old(hub).device_ack_slot_view(),
        final(hub).read_ack_slot_view() == old(hub).read_ack_slot_view(),
{
    match hub.recv_status() {
        Some(m) => Some(encode_status_frame(&m)),
        None => None,
    }
}

} // verus!
