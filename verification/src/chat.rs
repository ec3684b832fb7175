//! Chat identifiers: a chat is addressed either by its numeric id or by a
//! string username, never both at once, and anything that can name a chat
//! converts into such an identifier.

use vstd::prelude::*;
use crate::wire::{WireValue, WireValueModel};

verus! {

/// Mathematical model of a chat identifier.
pub enum ChatIdModel {
    Id(int),
    Username(Seq<char>),
}

/// A chat identifier: exactly one of a numeric id or a string username.
#[derive(Debug, Clone, PartialEq)]
pub enum ChatId {
    Id(i64),
    Username(String),
}

impl View for ChatId {
    type V = ChatIdModel;

    open spec fn view(&self) -> ChatIdModel {
        match self {
            ChatId::Id(n) => ChatIdModel::Id(*n as int),
            ChatId::Username(u) => ChatIdModel::Username(u@),
        }
    }
}

impl ChatId {
    pub fn from_id(id: i64) -> (c: ChatId)
        ensures
            c@ == ChatIdModel::Id(id as int),
    {
        ChatId::Id(id)
    }

    pub fn from_username(username: String) -> (c: ChatId)
        ensures
            c@ == ChatIdModel::Username(username@),
    {
        ChatId::Username(username)
    }

    /// The wire form of this identifier: a numeric id travels as a number,
    /// a username as a string.
    pub open spec fn wire_model(&self) -> WireValueModel {
        match self {
            ChatId::Id(n) => WireValueModel::Int(*n as int),
            ChatId::Username(u) => WireValueModel::Str(u@),
        }
    }

    pub fn wire_value(&self) -> (r: WireValue)
        ensures
            r@ == self.wire_model(),
    {
        match self {
            ChatId::Id(n) => WireValue::Int(*n),
            ChatId::Username(u) => WireValue::Str(clone_string(u)),
        }
    }
}

/// The two ways of constructing a chat identifier have mutually exclusive
/// wire forms: a numeric id always travels as a number, a username always
/// as a string, and no identifier carries both.
pub proof fn lemma_chat_id_wire_exclusive(a: ChatId, b: ChatId)
    requires
        a is Id,
        b is Username,
    ensures
        a.wire_model() == WireValueModel::Int(a->Id_0 as int),
        b.wire_model() == WireValueModel::Str(b->Username_0@),
        a.wire_model() != b.wire_model(),
{
}

fn clone_string(s: &String) -> (r: String)
    ensures
        r@ == s@,
{
    s.clone()
}

/// Capability of naming a chat: any value that can be converted into a
/// chat identifier. The conversion is total and builds no request by itself.
pub trait ToChatId {
    /// The identifier this value names, as a mathematical value.
    spec fn chat_id_model(&self) -> ChatIdModel;

    fn to_chat_id(&self) -> (c: ChatId)
        ensures
            c@ == self.chat_id_model(),
    ;
}

impl ToChatId for ChatId {
    open spec fn chat_id_model(&self) -> ChatIdModel {
        self@
    }

    fn to_chat_id(&self) -> (c: ChatId) {
        match self {
            ChatId::Id(n) => ChatId::Id(*n),
            ChatId::Username(u) => ChatId::Username(clone_string(u)),
        }
    }
}

impl ToChatId for i64 {
    open spec fn chat_id_model(&self) -> ChatIdModel {
        ChatIdModel::Id(*self as int)
    }

    fn to_chat_id(&self) -> (c: ChatId) {
        ChatId::Id(*self)
    }
}

impl ToChatId for String {
    open spec fn chat_id_model(&self) -> ChatIdModel {
        ChatIdModel::Username(self@)
    }

    fn to_chat_id(&self) -> (c: ChatId) {
        ChatId::Username(clone_string(self))
    }
}

/// A richer chat record, as a caller might hold one: it exposes the
/// numeric id that names the chat.
#[derive(Debug, Clone, PartialEq)]
pub struct Chat {
    pub id: i64,
}

impl ToChatId for Chat {
    open spec fn chat_id_model(&self) -> ChatIdModel {
        ChatIdModel::Id(self.id as int)
    }

    fn to_chat_id(&self) -> (c: ChatId) {
        ChatId::Id(self.id)
    }
}

} // verus!
