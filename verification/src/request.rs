//! The uniform request contract every endpoint descriptor satisfies, and
//! the chat-action descriptor as one instance of it.

use vstd::prelude::*;
use crate::action::ChatAction;
use crate::chat::{ChatId, ToChatId};
use crate::wire::{Params, WireValue, WireValueModel};

verus! {

/// An outbound API call, described as a value: its endpoint name, its wire
/// parameters, and how its raw reply content maps to the typed result.
///
/// Every descriptor type pins exactly one raw-response shape and one total
/// mapper from it; the mapper is pure and cannot fail.
pub trait Request {
    /// The wire-level content of a successful reply to this request.
    type RawResponse;

    /// The typed result the caller ultimately receives.
    type Response;

    /// The remote method name, as a mathematical value.
    spec fn wire_name() -> Seq<char>;

    /// The remote method name this descriptor addresses.
    fn name() -> (r: &'static str)
        ensures
            r@ == Self::wire_name(),
    ;

    /// What the mapper makes of each raw reply content.
    spec fn map_spec(raw: Self::RawResponse) -> Self::Response;

    /// Translate the raw reply content into the typed result. Total over
    /// the raw shape: defined for every value, no failure path.
    fn map(raw: Self::RawResponse) -> (r: Self::Response)
        ensures
            r == Self::map_spec(raw),
    ;

    /// The serialized parameters, as a mathematical value.
    spec fn params_model(&self) -> Seq<(Seq<char>, WireValueModel)>;

    /// Serialize the parameters into the wire key-value format, field
    /// names exactly as the remote platform documents them.
    fn to_params(&self) -> (p: Params)
        ensures
            p@ == self.params_model(),
    ;
}

/// Tell the user that something is happening on the bot's side: sets the
/// chat's action status for a few seconds or until the bot sends a message.
#[derive(Debug, Clone, PartialEq)]
pub struct SendChatAction {
    pub chat_id: ChatId,
    pub action: ChatAction,
}

impl SendChatAction {
    pub fn new<C: ToChatId>(chat: &C, action: ChatAction) -> (r: SendChatAction)
        ensures
            r.chat_id@ == chat.chat_id_model(),
            r.action == action,
    {
        SendChatAction { chat_id: chat.to_chat_id(), action }
    }
}

impl Request for SendChatAction {
    /// The platform acknowledges with a bare truthy marker.
    type RawResponse = bool;

    /// The caller only learns that the action was acknowledged.
    type Response = ();

    open spec fn wire_name() -> Seq<char> {
        "sendChatAction"@
    }

    fn name() -> (r: &'static str) {
        "sendChatAction"
    }

    open spec fn map_spec(raw: bool) -> () {
        ()
    }

    fn map(raw: bool) -> (r: ()) {
        ()
    }

    open spec fn params_model(&self) -> Seq<(Seq<char>, WireValueModel)> {
        seq![
            ("chat_id"@, self.chat_id.wire_model()),
            ("action"@, WireValueModel::Str(self.action.wire())),
        ]
    }

    fn to_params(&self) -> (p: Params) {
        let mut p = Params::new();
        p.push("chat_id".to_owned(), self.chat_id.wire_value());
        p.push("action".to_owned(), WireValue::Str(self.action.wire_str().to_owned()));
        proof {
            assert(p@ =~= self.params_model());
        }
        p
    }
}

/// The wire parameters of a chat-action request carry the chat identifier
/// under its single documented field, populated in exactly one of its two
/// forms: a numeric id travels as a number, a username as a string.
pub proof fn lemma_send_chat_action_chat_id_exclusive(d: SendChatAction)
    ensures
        d.params_model().len() == 2,
        d.params_model()[0].0 == "chat_id"@,
        d.chat_id is Id ==> d.params_model()[0].1 is Int,
        d.chat_id is Username ==> d.params_model()[0].1 is Str,
        !(d.params_model()[0].1 is Int && d.params_model()[0].1 is Str),
{
}

/// Capability of requesting a chat action: anything that can name a chat
/// can build the corresponding request descriptor.
pub trait CanSendChatAction: ToChatId {
    fn chat_action(&self, action: ChatAction) -> (r: SendChatAction)
        ensures
            r.chat_id@ == self.chat_id_model(),
            r.action == action,
    ;
}

impl<C: ToChatId> CanSendChatAction for C {
    fn chat_action(&self, action: ChatAction) -> (r: SendChatAction) {
        SendChatAction::new(self, action)
    }
}

} // verus!
