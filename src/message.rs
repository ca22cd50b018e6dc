//! The message schema: an envelope around a body, whose payload is one of
//! four tagged variants, and the mathematical model of each.
use vstd::prelude::*;

verus! {

#[derive(Clone, Debug, PartialEq, Eq)]
/// The variant-specific content of a message body.
pub enum Payload {
    Init { node_id: String, node_ids: Vec<String> },
    InitOk,
    Echo { echo: String },
    EchoOk { echo: String },
}

#[derive(Clone, Debug, PartialEq, Eq)]
pub struct MessageBody {
    pub msg_id: Option<usize>,
    pub in_reply_to: Option<usize>,
    pub payload: Payload,
}

#[derive(Clone, Debug, PartialEq, Eq)]
pub struct Message {
    pub src: String,
    pub dest: String,
    pub body: MessageBody,
}

pub ghost enum PayloadModel {
    Init { node_id: Seq<char>, node_ids: Seq<Seq<char>> },
    InitOk,
    Echo { echo: Seq<char> },
    EchoOk { echo: Seq<char> },
}

pub ghost struct MessageModel {
    pub src: Seq<char>,
    pub dest: Seq<char>,
    pub msg_id: Option<usize>,
    pub in_reply_to: Option<usize>,
    pub payload: PayloadModel,
}

pub open spec fn strings_model(v: Seq<String>) -> Seq<Seq<char>> {
    v.map_values(|s: String| s@)
}

impl View for Payload {
    type V = PayloadModel;

    open spec fn view(&self) -> PayloadModel {
        match self {
            Payload::Init { node_id, node_ids } => PayloadModel::Init {
                node_id: node_id@,
                node_ids: strings_model(node_ids@),
            },
            Payload::InitOk => PayloadModel::InitOk,
            Payload::Echo { echo } => PayloadModel::Echo { echo: echo@ },
            Payload::EchoOk { echo } => PayloadModel::EchoOk { echo: echo@ },
        }
    }
}

impl View for Message {
    type V = MessageModel;

    open spec fn view(&self) -> MessageModel {
        MessageModel {
            src: self.src@,
            dest: self.dest@,
            msg_id: self.body.msg_id,
            in_reply_to: self.body.in_reply_to,
            payload: self.body.payload@,
        }
    }
}

pub open spec fn option_model(m: Option<Message>) -> Option<MessageModel> {
    match m {
        Some(x) => Some(x@),
        None => None,
    }
}

/// A field of the wire format that decoding can find missing or malformed.
#[derive(PartialEq, Eq, Structural, Clone, Copy, Debug)]
pub enum Field {
    Src,
    Dest,
    Body,
    Type,
    MsgId,
    InReplyTo,
    NodeId,
    NodeIds,
    Echo,
}

/// The member name under which a field is written.
pub open spec fn field_name(f: Field) -> Seq<char> {
    match f {
        Field::Src => "src"@,
        Field::Dest => "dest"@,
        Field::Body => "body"@,
        Field::Type => "type"@,
        Field::MsgId => "msg_id"@,
        Field::InReplyTo => "in_reply_to"@,
        Field::NodeId => "node_id"@,
        Field::NodeIds => "node_ids"@,
        Field::Echo => "echo"@,
    }
}

impl Field {
    pub fn name(self) -> (r: &'static str)
        ensures
            r@ == field_name(self),
    {
        match self {
            Field::Src => "src",
            Field::Dest => "dest",
            Field::Body => "body",
            Field::Type => "type",
            Field::MsgId => "msg_id",
            Field::InReplyTo => "in_reply_to",
            Field::NodeId => "node_id",
            Field::NodeIds => "node_ids",
            Field::Echo => "echo",
        }
    }
}

/// Why a line does not decode to a message.
#[derive(PartialEq, Eq, Structural, Clone, Copy, Debug)]
pub enum DecodeError {
    /// The line is not one well-formed JSON document.
    NotJson,
    /// The document is not a JSON object.
    NotAnObject,
    /// A required member is absent.
    MissingField(Field),
    /// A member holds a value of the wrong kind.
    WrongKind(Field),
    /// The payload tag names none of the four variants.
    UnknownType,
}

} // verus!
