//! The node: a counter of the ids it has handed out, and the rules by which
//! it answers each message.
use vstd::prelude::*;

use crate::codec::{decode, decode_line_spec, encode, wire_text};
use crate::message::{
    option_model, DecodeError, Message, MessageBody, MessageModel, Payload, PayloadModel,
};

verus! {

/// Why a node stops.
#[derive(PartialEq, Eq, Structural, Clone, Copy, Debug)]
pub enum NodeError {
    /// A line did not decode to a message.
    Decode(DecodeError),
    /// The first message was not an `init`.
    NotInit,
}

/// Whether a payload is a request that the node answers.
pub open spec fn wants_reply(p: PayloadModel) -> bool {
    p is Init || p is Echo
}

/// The reply to a message, sent under the given id: `init_ok` to `init`,
/// `echo_ok` with the same text to `echo`, and none to an acknowledgement.
pub open spec fn reply_spec(id: usize, m: MessageModel) -> Option<MessageModel> {
    match m.payload {
        PayloadModel::Init { .. } => Some(
            MessageModel {
                src: m.dest,
                dest: m.src,
                msg_id: Some(id),
                in_reply_to: m.msg_id,
                payload: PayloadModel::InitOk,
            },
        ),
        PayloadModel::Echo { echo } => Some(
            MessageModel {
                src: m.dest,
                dest: m.src,
                msg_id: Some(id),
                in_reply_to: m.msg_id,
                payload: PayloadModel::EchoOk { echo },
            },
        ),
        _ => None,
    }
}

/// What a node does with a decoded message: the first one must be an `init`.
pub open spec fn accept_spec(id: usize, m: MessageModel, first: bool) -> Result<
    Option<MessageModel>,
    NodeError,
> {
    if first && !(m.payload is Init) {
        Err(NodeError::NotInit)
    } else {
        Ok(reply_spec(id, m))
    }
}

/// The same, with the reply as the line that is written out.
pub open spec fn outcome_spec(id: usize, m: MessageModel, first: bool) -> Result<
    Option<Seq<char>>,
    NodeError,
> {
    match accept_spec(id, m, first) {
        Err(e) => Err(e),
        Ok(None) => Ok(None),
        Ok(Some(reply)) => Ok(Some(wire_text(reply))),
    }
}

pub open spec fn outcome_view(r: Result<Option<String>, NodeError>) -> Result<
    Option<Seq<char>>,
    NodeError,
> {
    match r {
        Err(e) => Err(e),
        Ok(None) => Ok(None),
        Ok(Some(line)) => Ok(Some(line@)),
    }
}

/// The replies to a run of messages handled in order, the first sent under
/// the given id.
pub open spec fn replies(id: usize, msgs: Seq<MessageModel>) -> Seq<MessageModel>
    decreases msgs.len(),
{
    if msgs.len() == 0 {
        Seq::empty()
    } else {
        match reply_spec(id, msgs[0]) {
            Some(r) => seq![r] + replies((id + 1) as usize, msgs.drop_first()),
            None => replies(id, msgs.drop_first()),
        }
    }
}

proof fn lemma_replies_numbered(id: usize, msgs: Seq<MessageModel>)
    requires
        id + msgs.len() <= usize::MAX,
    ensures
        replies(id, msgs).len() <= msgs.len(),
        forall|i: int|
            0 <= i < replies(id, msgs).len() ==> (#[trigger] replies(id, msgs)[i]).msg_id == Some(
                (id + i) as usize,
            ),
    decreases msgs.len(),
{
    if msgs.len() > 0 {
        let rest = msgs.drop_first();
        match reply_spec(id, msgs[0]) {
            Some(r) => {
                lemma_replies_numbered((id + 1) as usize, rest);
                let tail = replies((id + 1) as usize, rest);
                assert forall|i: int| 0 <= i < replies(id, msgs).len() implies (#[trigger] replies(
                    id,
                    msgs,
                )[i]).msg_id == Some((id + i) as usize) by {
                    if i > 0 {
                        assert(replies(id, msgs)[i] == tail[i - 1]);
                    }
                }
            },
            None => {
                lemma_replies_numbered(id, rest);
            },
        }
    }
}

/// Ids are consecutive: a fresh node handling any run of messages sends its
/// replies under the ids 0, 1, 2, ... in order, and a message that gets no
/// reply uses no id.
pub proof fn lemma_ids_consecutive(msgs: Seq<MessageModel>)
    requires
        msgs.len() <= usize::MAX,
    ensures
        replies(0, msgs).len() <= msgs.len(),
        forall|i: int|
            0 <= i < replies(0, msgs).len() ==> (#[trigger] replies(0, msgs)[i]).msg_id == Some(
                i as usize,
            ),
{
    lemma_replies_numbered(0, msgs);
}

/// A protocol participant. It owns the id that its next reply is sent under.
pub struct Node {
    counter: usize,
}

impl Node {
    /// The id under which the next reply goes out.
    pub closed spec fn next_id(&self) -> usize {
        self.counter
    }

    /// A node that has sent nothing yet.
    pub fn new() -> (r: Node)
        ensures
            r.next_id() == 0,
    {
        Node { counter: 0 }
    }

    pub fn counter(&self) -> (r: usize)
        ensures
            r == self.next_id(),
    {
        self.counter
    }

    /// Answers one message. A reply goes back to the sender, from the
    /// address the message was sent to, under the next id; sending it uses
    /// up that id.
    pub fn handle(&mut self, message: Message) -> (r: Option<Message>)
        requires
            wants_reply(message@.payload) ==> old(self).next_id() < usize::MAX,
        ensures
            option_model(r) == reply_spec(old(self).next_id(), message@),
            final(self).next_id() == if r is Some {
                old(self).next_id() + 1
            } else {
                old(self).next_id() as int
            },
            r is Some <==> wants_reply(message@.payload),
            r matches Some(reply) ==> reply.src@ == message.dest@ && reply.dest@ == message.src@
                && reply.body.msg_id == Some(old(self).next_id()) && reply.body.in_reply_to
                == message.body.msg_id,
            message@.payload matches PayloadModel::Echo { echo } ==> r matches Some(reply)
                && reply@.payload == (PayloadModel::EchoOk { echo }),
            !wants_reply(message@.payload) ==> r is None && final(self).next_id() == old(self).next_id(),
    {
        let Message { src, dest, body } = message;
        let MessageBody { msg_id, in_reply_to: _, payload } = body;
        let reply_payload = match payload {
            Payload::Init { .. } => Payload::InitOk,
            Payload::Echo { echo } => Payload::EchoOk { echo },
            Payload::InitOk => {
                return None;
            },
            Payload::EchoOk { .. } => {
                return None;
            },
        };
        let reply = Message {
            src: dest,
            dest: src,
            body: MessageBody { msg_id: Some(self.counter), in_reply_to: msg_id, payload: reply_payload },
        };
        self.counter = self.counter + 1;
        Some(reply)
    }

    /// Answers the first message of a session, which must be an `init`;
    /// anything else is refused and leaves the node as it was.
    pub fn handle_first(&mut self, message: Message) -> (r: Result<Message, NodeError>)
        requires
            old(self).next_id() < usize::MAX,
        ensures
            r is Ok <==> message@.payload is Init,
            r matches Ok(reply) ==> Some(reply@) == reply_spec(old(self).next_id(), message@)
                && final(self).next_id() == old(self).next_id() + 1,
            r is Err ==> r == Err::<Message, NodeError>(NodeError::NotInit) && final(self).next_id() == old(self).next_id(),
    {
        if !matches!(message.body.payload, Payload::Init { .. }) {
            return Err(NodeError::NotInit);
        }
        match self.handle(message) {
            Some(reply) => Ok(reply),
            None => Err(NodeError::NotInit),
        }
    }

    /// Handles a decoded message and encodes the reply, if there is one.
    /// `first` says whether this is the first message of the session.
    pub fn accept(&mut self, message: Message, first: bool) -> (r: Result<Option<String>, NodeError>)
        requires
            old(self).next_id() < usize::MAX,
        ensures
            outcome_view(r) == outcome_spec(old(self).next_id(), message@, first),
            final(self).next_id() == if r matches Ok(Some(_)) {
                old(self).next_id() + 1
            } else {
                old(self).next_id() as int
            },
    {
        if first {
            match self.handle_first(message) {
                Ok(reply) => Ok(Some(encode(&reply))),
                Err(e) => Err(e),
            }
        } else {
            match self.handle(message) {
                Some(reply) => Ok(Some(encode(&reply))),
                None => Ok(None),
            }
        }
    }

    /// Decodes one input line, handles it and returns the line to write
    /// back, if any. Nothing changes where the line does not decode.
    pub fn process_line(&mut self, line: &str, first: bool) -> (r: Result<
        Option<String>,
        NodeError,
    >)
        requires
            old(self).next_id() < usize::MAX,
        ensures
            match decode_line_spec(line@) {
                Err(e) => r == Err::<Option<String>, NodeError>(NodeError::Decode(e)) && final(self).next_id() == old(self).next_id(),
                Ok(m) => outcome_view(r) == outcome_spec(old(self).next_id(), m, first) && final(self).next_id() == if r matches Ok(Some(_)) {
                    old(self).next_id() + 1
                } else {
                    old(self).next_id() as int
                },
            },
    {
        match decode(line) {
            Err(e) => Err(NodeError::Decode(e)),
            Ok(message) => self.accept(message, first),
        }
    }
}

} // verus!
