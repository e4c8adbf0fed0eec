//! Status messages: the value object describing the result of a command or an
//! error, passed from the session handlers to the controller.

use vstd::prelude::*;

verus! {

/// The kind of a status message. Each kind maps to a fixed human-readable
/// string on the wire.
#[derive(Clone, Copy, Debug, PartialEq, Eq, Structural)]
pub enum MessageTyp {
    ACK,
    InvalidParams,
    InvalidCommand,
    PetOffline,
    PetUnrecoverableError,
    PetOnline,
    KeepAlive,
}

/// The recovery action a status message may ask of the device side. Present
/// only when the device must take recovery action; `NoAction` renders as an
/// absent field on the wire.
#[derive(Clone, Copy, Debug, PartialEq, Eq, Structural)]
pub enum ActionType {
    Reboot,
    Reconnect,
    RebootReconnect,
    NoAction,
}

/// The fixed wire string of each message kind.
pub open spec fn typ_text(t: MessageTyp) -> Seq<char> {
    match t {
        MessageTyp::ACK => "ack"@,
        MessageTyp::InvalidParams => "Invalid parameters"@,
        MessageTyp::InvalidCommand => "Invalid command"@,
        MessageTyp::PetOffline => "Pet went offline"@,
        MessageTyp::PetUnrecoverableError => "Pet went offline with an unrecoverable error"@,
        MessageTyp::PetOnline => "Pet is online"@,
        MessageTyp::KeepAlive => "Awaiting ACK to confirm Keep alive response"@,
    }
}

/// The fixed wire string of each recovery action; `NoAction` has none.
pub open spec fn action_text(a: ActionType) -> Option<Seq<char>> {
    match a {
        ActionType::Reboot => Some("Request reboot from pet"@),
        ActionType::Reconnect => Some("Request reconnect from pet"@),
        ActionType::RebootReconnect => Some("Request reconnect and reboot from pet"@),
        ActionType::NoAction => None,
    }
}

/// The view of an optional owned string.
pub open spec fn opt_text(o: Option<String>) -> Option<Seq<char>> {
    match o {
        Some(s) => Some(s@),
        None => None,
    }
}

/// The mathematical content of a status message: a status code, the message
/// string, and the optional recovery-action string.
#[verifier::ext_equal]
pub struct MessageView {
    pub status_code: int,
    pub message: Seq<char>,
    pub pet_action_required: Option<Seq<char>>,
}

/// The view a freshly built status message has: `code` with the fixed strings
/// of kind `t` and action `a`.
pub open spec fn msg_view(code: int, t: MessageTyp, a: ActionType) -> MessageView {
    MessageView { status_code: code, message: typ_text(t), pet_action_required: action_text(a) }
}

/// A status message as it travels through the hub and out to the controller:
/// a status code (conventionally HTTP-like), a typed message string, and an
/// optional typed follow-up action.
#[derive(Clone, Debug)]
pub struct Message {
    status_code: i16,
    message: String,
    pet_action_required: Option<String>,
}

impl View for Message {
    type V = MessageView;

    closed spec fn view(&self) -> MessageView {
        MessageView {
            status_code: self.status_code as int,
            message: self.message@,
            pet_action_required: opt_text(self.pet_action_required),
        }
    }
}

/// The message strings that `MessageTyp::from_string` recognizes: exactly the
/// image of the forward mapping, one fixed string per kind.
pub open spec fn recognized(s: Seq<char>) -> bool {
    ||| s == typ_text(MessageTyp::ACK)
    ||| s == typ_text(MessageTyp::InvalidParams)
    ||| s == typ_text(MessageTyp::InvalidCommand)
    ||| s == typ_text(MessageTyp::PetOffline)
    ||| s == typ_text(MessageTyp::PetUnrecoverableError)
    ||| s == typ_text(MessageTyp::PetOnline)
    ||| s == typ_text(MessageTyp::KeepAlive)
}

/// The kind a recognized message string maps back to: the inverse of
/// `typ_text` on its image.
pub open spec fn spec_from_string(s: Seq<char>) -> MessageTyp {
    if s == typ_text(MessageTyp::ACK) {
        MessageTyp::ACK
    } else if s == typ_text(MessageTyp::InvalidParams) {
        MessageTyp::InvalidParams
    } else if s == typ_text(MessageTyp::InvalidCommand) {
        MessageTyp::InvalidCommand
    } else if s == typ_text(MessageTyp::PetOffline) {
        MessageTyp::PetOffline
    } else if s == typ_text(MessageTyp::PetUnrecoverableError) {
        MessageTyp::PetUnrecoverableError
    } else if s == typ_text(MessageTyp::PetOnline) {
        MessageTyp::PetOnline
    } else {
        MessageTyp::KeepAlive
    }
}

/// The reverse mapping inverts the forward one: every kind is recovered from
/// its fixed wire string, so the two form an inverse pair on the wire strings
/// and the reverse mapping is total there.
pub proof fn lemma_from_string_inverts_to_string(t: MessageTyp)
    ensures
        recognized(typ_text(t)),
        spec_from_string(typ_text(t)) == t,
{
    reveal_strlit("ack");
    reveal_strlit("Invalid parameters");
    reveal_strlit("Invalid command");
    reveal_strlit("Pet went offline");
    reveal_strlit("Pet went offline with an unrecoverable error");
    reveal_strlit("Pet is online");
    reveal_strlit("Awaiting ACK to confirm Keep alive response");
    // The seven wire strings have pairwise distinct lengths, so the if-chain
    // of the reverse mapping reaches exactly the right kind.
    assert("ack"@.len() == 3);
    assert("Invalid parameters"@.len() == 18);
    assert("Invalid command"@.len() == 15);
    assert("Pet went offline"@.len() == 16);
    assert("Pet went offline with an unrecoverable error"@.len() == 44);
    assert("Pet is online"@.len() == 13);
    assert("Awaiting ACK to confirm Keep alive response"@.len() == 43);
}

/// Every built message carries a recognized string, and the kind it was built
/// from is recovered from that string.
pub proof fn lemma_get_type_recovers_kind(code: int, t: MessageTyp, a: ActionType)
    ensures
        recognized(msg_view(code, t, a).message),
        spec_from_string(msg_view(code, t, a).message) == t,
{
    lemma_from_string_inverts_to_string(t);
}

impl Message {
    /// Builds the message for status code `status_code`, kind `message` and
    /// action `pet_action_required`, with the fixed wire strings filled in.
    pub fn new(status_code: i16, message: MessageTyp, pet_action_required: ActionType) -> (m:
        Message)
        ensures
            m@ == msg_view(status_code as int, message, pet_action_required),
    {
        Message {
            status_code,
            message: message.to_string(),
            pet_action_required: pet_action_required.to_string(),
        }
    }

    /// Maps the message string back to its kind: the inverse of the forward
    /// mapping, defined on the seven fixed wire strings. Every message built
    /// by `new` satisfies the precondition
    /// (`lemma_get_type_recovers_kind`).
    pub fn get_type(&self) -> (t: MessageTyp)
        requires
            recognized(self@.message),
        ensures
            t == spec_from_string(self@.message),
    {
        MessageTyp::from_string(&self.message)
    }

    /// The status code carried by this message.
    pub fn status_code(&self) -> (c: i16)
        ensures
            c as int == self@.status_code,
    {
        self.status_code
    }

    /// The message string carried by this message.
    pub fn message_text(&self) -> (s: &String)
        ensures
            s@ == self@.message,
    {
        &self.message
    }

    /// The optional recovery-action string carried by this message.
    pub fn action_required(&self) -> (a: &Option<String>)
        ensures
            opt_text(*a) == self@.pet_action_required,
    {
        &self.pet_action_required
    }

    /// Whether this message is a bare acknowledgement.
    pub fn is_ack(&self) -> (r: bool)
        ensures
            r == (self@.message == typ_text(MessageTyp::ACK)),
    {
        let ack: String = "ack".to_owned();
        self.message == ack
    }
}

impl MessageTyp {
    /// The fixed wire string of this kind.
    pub fn to_string(&self) -> (r: String)
        ensures
            r@ == typ_text(*self),
    {
        match *self {
            MessageTyp::ACK => "ack".to_owned(),
            MessageTyp::InvalidParams => "Invalid parameters".to_owned(),
            MessageTyp::InvalidCommand => "Invalid command".to_owned(),
            MessageTyp::PetOffline => "Pet went offline".to_owned(),
            MessageTyp::PetUnrecoverableError => "Pet went offline with an unrecoverable error".to_owned(),
            MessageTyp::PetOnline => "Pet is online".to_owned(),
            MessageTyp::KeepAlive => "Awaiting ACK to confirm Keep alive response".to_owned(),
        }
    }

    /// Maps a fixed wire string back to its kind: the total inverse of
    /// `to_string` on its image (`lemma_from_string_inverts_to_string`). Any
    /// other input is left out by the precondition.
    pub fn from_string(s: &String) -> (t: MessageTyp)
        requires
            recognized(s@),
        ensures
            t == spec_from_string(s@),
    {
        let ack: String = "ack".to_owned();
        let invalid_params: String = "Invalid parameters".to_owned();
        let invalid_command: String = "Invalid command".to_owned();
        let pet_offline: String = "Pet went offline".to_owned();
        let unrecoverable: String = "Pet went offline with an unrecoverable error".to_owned();
        let pet_online: String = "Pet is online".to_owned();
        if *s == ack {
            MessageTyp::ACK
        } else if *s == invalid_params {
            MessageTyp::InvalidParams
        } else if *s == invalid_command {
            MessageTyp::InvalidCommand
        } else if *s == pet_offline {
            MessageTyp::PetOffline
        } else if *s == unrecoverable {
            MessageTyp::PetUnrecoverableError
        } else if *s == pet_online {
            MessageTyp::PetOnline
        } else {
            MessageTyp::KeepAlive
        }
    }
}

impl ActionType {
    /// The fixed wire string of this action; `NoAction` has none.
    pub fn to_string(&self) -> (r: Option<String>)
        ensures
            opt_text(r) == action_text(*self),
    {
        match *self {
            ActionType::Reboot => Some("Request reboot from pet".to_owned()),
            ActionType::Reconnect => Some("Request reconnect from pet".to_owned()),
            ActionType::RebootReconnect => Some("Request reconnect and reboot from pet".to_owned()),
            ActionType::NoAction => None,
        }
    }
}

} // verus!
