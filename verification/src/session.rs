//! Sessions: connection admission and the per-connection supervisors.
//!
//! Each accepted socket connection runs one session, which splits into
//! concurrently running sub-tasks (reader and writer, plus the keep-alive for
//! the device role). The sub-tasks communicate only through the hub. The
//! supervisor pairs them: when either principal sub-task terminates, the
//! remaining sub-tasks are cancelled, and a device-session teardown publishes
//! exactly one terminal status message.

use vstd::prelude::*;
use crate::hub::Hub;
use crate::messages::ActionType;
use crate::messages::Message;
use crate::messages::MessageTyp;
use crate::messages::msg_view;

verus! {

/// One inbound socket event, as a session reader sees it.
pub enum InboundFrame {
    /// A text frame and its bytes.
    Text(Vec<u8>),
    /// A close frame.
    Close,
    /// Any other frame kind (binary, ping, pong): ignored.
    Other,
    /// A transport read error.
    ReadError,
    /// The end of the socket stream.
    StreamEnd,
}

/// The decision on one connection attempt.
#[derive(Clone, Copy, Debug, PartialEq, Eq, Structural)]
pub enum Admission {
    /// The presented key equals the role's configured secret.
    Granted,
    /// No key was presented: the attempt is a bad request.
    MissingKey,
    /// A key was presented and does not match: the attempt is unauthorized.
    WrongKey,
}

/// The per-request authentication check: a plain equality test of the
/// presented key against the role's configured secret. Admission is granted
/// iff a key is presented and matches.
pub fn check_key(provided: Option<&String>, expected: &String) -> (a: Admission)
    ensures
        a is Granted <==> (provided matches Some(k) && k@ == expected@),
        a is MissingKey <==> provided is None,
        a is WrongKey <==> (provided matches Some(k) && k@ != expected@),
{
    match provided {
        Some(k) => if *k == *expected {
            Admission::Granted
        } else {
            Admission::WrongKey
        },
        None => Admission::MissingKey,
    }
}

/// The supervisor state of one device session: which sub-tasks still run, and
/// whether the one terminal status of this session has been published.
pub struct DeviceSession {
    writer_running: bool,
    reader_running: bool,
    keep_alive_running: bool,
    terminal_emitted: bool,
}

impl DeviceSession {
    pub closed spec fn writer_running(&self) -> bool {
        self.writer_running
    }

    pub closed spec fn reader_running(&self) -> bool {
        self.reader_running
    }

    pub closed spec fn keep_alive_running(&self) -> bool {
        self.keep_alive_running
    }

    pub closed spec fn terminal_emitted(&self) -> bool {
        self.terminal_emitted
    }

    /// Well-formedness: once the terminal status is out, no sub-task runs.
    pub open spec fn wf(&self) -> bool {
        self.terminal_emitted() ==> (!self.writer_running() && !self.reader_running()
            && !self.keep_alive_running())
    }

    /// Tears the session down after either principal sub-task (reader or
    /// writer) has terminated: the supervisor cancels the remaining sub-tasks
    /// immediately and unconditionally, drops the session's command
    /// subscription, and publishes exactly one terminal
    /// `(500, PetOffline, reconnect)` status to signal that the device
    /// connection requires re-establishment.
    pub fn teardown(&mut self, hub: &mut Hub)
        requires
            old(self).wf(),
            !old(self).terminal_emitted(),
            old(hub).wf(),
            old(hub).subscriber_count() > 0,
        ensures
            final(self).wf(),
            !final(self).writer_running(),
            !final(self).reader_running(),
            !final(self).keep_alive_running(),
            final(self).terminal_emitted(),
            final(hub).wf(),
            final(hub).status_log() == old(hub).status_log().push(
                msg_view(500, MessageTyp::PetOffline, ActionType::Reconnect),
            ),
            final(hub).status_slot_view() == Some(
                msg_view(500, MessageTyp::PetOffline, ActionType::Reconnect),
            ),
            final(hub).subscriber_count() == old(hub).subscriber_count() - 1,
            final(hub).pending_commands() == old(hub).pending_commands(),
            final(hub).command_log() == old(hub).command_log(),
            final(hub).device_ack_slot_view() == old(hub).device_ack_slot_view(),
            final(hub).read_ack_slot_view() == old(hub).read_ack_slot_view(),
    {
        self.writer_running = false;
        self.reader_running = false;
        self.keep_alive_running = false;
        self.terminal_emitted = true;
        hub.unsubscribe_commands();
        hub.publish_status(Message::new(500, MessageTyp::PetOffline, ActionType::Reconnect));
    }
}

/// Session pairing: once a device session has published its terminal status,
/// every one of its sub-tasks has stopped; `teardown` is the only transition
/// that publishes it, runs at most once, and publishes exactly one such
/// message.
pub proof fn lemma_session_pairing(s: DeviceSession)
    requires
        s.wf(),
        s.terminal_emitted(),
    ensures
        !s.writer_running(),
        !s.reader_running(),
        !s.keep_alive_running(),
{
}

/// Opens a device session: admission first, against the device role's secret.
/// On granted admission the session attaches to the hub — it subscribes to the
/// command channel and announces itself with a `(201, PetOnline, none)` status
/// — and all three sub-tasks start. On anything else the hub is untouched and
/// no session exists: a missing key is a bad request, a wrong key is
/// unauthorized.
pub fn open_device_session(hub: &mut Hub, provided_key: Option<&String>, expected_key: &String) -> (r:
    Result<DeviceSession, Admission>)
    requires
        old(hub).wf(),
        old(hub).subscriber_count() < u64::MAX,
    ensures
        final(hub).wf(),
        r is Ok <==> (provided_key matches Some(k) && k@ == expected_key@),
        (r matches Ok(s) ==> s.wf() && s.writer_running() && s.reader_running()
            && s.keep_alive_running() && !s.terminal_emitted() && final(hub).status_log() == old(hub).status_log().push(msg_view(201, MessageTyp::PetOnline, ActionType::NoAction)) && final(hub).status_slot_view() == Some(msg_view(201, MessageTyp::PetOnline, ActionType::NoAction)) && final(hub).subscriber_count() == old(hub).subscriber_count() + 1 && final(hub).pending_commands()
            == old(hub).pending_commands() && final(hub).command_log() == old(hub).command_log()
            && final(hub).device_ack_slot_view() == old(hub).device_ack_slot_view() && final(hub).read_ack_slot_view() == old(hub).read_ack_slot_view()),
        (r matches Err(a) ==> a !is Granted && (a is MissingKey <==> provided_key is None) && (
        a is WrongKey <==> (provided_key matches Some(k) && k@ != expected_key@)) && final(hub).status_log() == old(hub).status_log() && final(hub).status_slot_view() == old(hub).status_slot_view() && final(hub).subscriber_count() == old(hub).subscriber_count()
            && final(hub).pending_commands() == old(hub).pending_commands() && final(hub).command_log() == old(hub).command_log() && final(hub).device_ack_slot_view() == old(hub).device_ack_slot_view() && final(hub).read_ack_slot_view() == old(hub).read_ack_slot_view()),
{
    let admission = check_key(provided_key, expected_key);
    match admission {
        Admission::Granted => {
            hub.subscribe_commands();
            hub.publish_status(Message::new(201, MessageTyp::PetOnline, ActionType::NoAction));
            Ok(
                DeviceSession {
                    writer_running: true,
                    reader_running: true,
                    keep_alive_running: true,
                    terminal_emitted: false,
                },
            )
        },
        Admission::MissingKey => Err(Admission::MissingKey),
        Admission::WrongKey => Err(Admission::WrongKey),
    }
}

/// The supervisor state of one controller session: which sub-tasks still run.
pub struct ControllerSession {
    writer_running: bool,
    reader_running: bool,
}

impl ControllerSession {
    pub closed spec fn writer_running(&self) -> bool {
        self.writer_running
    }

    pub closed spec fn reader_running(&self) -> bool {
        self.reader_running
    }

    /// Tears the session down after either sub-task has terminated: the
    /// supervisor cancels the other sub-task and the session ends. No status
    /// message is emitted for the controller's own disconnect; only the device
    /// side emits offline signaling, so this transition does not touch the
    /// hub.
    pub fn teardown(&mut self)
        ensures
            !final(self).writer_running(),
            !final(self).reader_running(),
    {
        self.writer_running = false;
        self.reader_running = false;
    }
}

/// Opens a controller session: admission first, against the controller role's
/// secret. On granted admission both sub-tasks start; the hub is not involved
/// until traffic flows. On anything else no session exists: a missing key is
/// a bad request, a wrong key is unauthorized.
pub fn open_controller_session(provided_key: Option<&String>, expected_key: &String) -> (r: Result<
    ControllerSession,
    Admission,
>)
    ensures
        r is Ok <==> (provided_key matches Some(k) && k@ == expected_key@),
        (r matches Ok(s) ==> s.writer_running() && s.reader_running()),
        (r matches Err(a) ==> a !is Granted && (a is MissingKey <==> provided_key is None) && (
        a is WrongKey <==> (provided_key matches Some(k) && k@ != expected_key@))),
{
    let admission = check_key(provided_key, expected_key);
    match admission {
        Admission::Granted => Ok(ControllerSession { writer_running: true, reader_running: true }),
        Admission::MissingKey => Err(Admission::MissingKey),
        Admission::WrongKey => Err(Admission::WrongKey),
    }
}

} // verus!
