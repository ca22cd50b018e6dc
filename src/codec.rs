//! Decoding a wire line into a message and encoding a message as a wire line.
use vstd::prelude::*;

use crate::json::{json_parse, json_quoted, parse_json, quote, JsonValue};
use crate::message::{
    field_name, strings_model, DecodeError, Field, Message, MessageBody, MessageModel, Payload,
    PayloadModel,
};

verus! {

/// The value of the first member of an object named `key`.
pub open spec fn lookup(entries: Seq<(String, JsonValue)>, key: Seq<char>) -> Option<JsonValue>
    decreases entries.len(),
{
    if entries.len() == 0 {
        None
    } else if entries[0].0@ == key {
        Some(entries[0].1)
    } else {
        lookup(entries.drop_first(), key)
    }
}

pub open spec fn res_view<T: View>(r: Result<T, DecodeError>) -> Result<T::V, DecodeError> {
    match r {
        Ok(x) => Ok(x@),
        Err(e) => Err(e),
    }
}

/// A required string member.
pub open spec fn member_str(entries: Seq<(String, JsonValue)>, f: Field) -> Result<
    Seq<char>,
    DecodeError,
> {
    match lookup(entries, field_name(f)) {
        None => Err(DecodeError::MissingField(f)),
        Some(JsonValue::Str(s)) => Ok(s@),
        Some(_) => Err(DecodeError::WrongKind(f)),
    }
}

/// An optional message id: absent or `null` gives `None`.
pub open spec fn member_id(entries: Seq<(String, JsonValue)>, f: Field) -> Result<
    Option<usize>,
    DecodeError,
> {
    match lookup(entries, field_name(f)) {
        None => Ok(None),
        Some(JsonValue::Null) => Ok(None),
        Some(JsonValue::Unsigned(n)) => if n <= usize::MAX {
            Ok(Some(n as usize))
        } else {
            Err(DecodeError::WrongKind(f))
        },
        Some(_) => Err(DecodeError::WrongKind(f)),
    }
}

pub open spec fn string_of(x: JsonValue) -> Seq<char> {
    match x {
        JsonValue::Str(s) => s@,
        _ => Seq::empty(),
    }
}

pub open spec fn all_strings(items: Seq<JsonValue>) -> bool {
    forall|i: int| 0 <= i < items.len() ==> (#[trigger] items[i] is Str)
}

pub open spec fn strings_res_view(r: Result<Vec<String>, DecodeError>) -> Result<
    Seq<Seq<char>>,
    DecodeError,
> {
    match r {
        Ok(v) => Ok(strings_model(v@)),
        Err(e) => Err(e),
    }
}

/// A required array of strings.
pub open spec fn member_strings(entries: Seq<(String, JsonValue)>, f: Field) -> Result<
    Seq<Seq<char>>,
    DecodeError,
> {
    match lookup(entries, field_name(f)) {
        None => Err(DecodeError::MissingField(f)),
        Some(JsonValue::Array(items)) => if all_strings(items@) {
            Ok(items@.map_values(|x: JsonValue| string_of(x)))
        } else {
            Err(DecodeError::WrongKind(f))
        },
        Some(_) => Err(DecodeError::WrongKind(f)),
    }
}

/// The payload of a body, selected by its `type` member.
pub open spec fn payload_spec(entries: Seq<(String, JsonValue)>) -> Result<
    PayloadModel,
    DecodeError,
> {
    match member_str(entries, Field::Type) {
        Err(e) => Err(e),
        Ok(t) => if t == "init"@ {
            match member_str(entries, Field::NodeId) {
                Err(e) => Err(e),
                Ok(node_id) => match member_strings(entries, Field::NodeIds) {
                    Err(e) => Err(e),
                    Ok(node_ids) => Ok(PayloadModel::Init { node_id, node_ids }),
                },
            }
        } else if t == "init_ok"@ {
            Ok(PayloadModel::InitOk)
        } else if t == "echo"@ {
            match member_str(entries, Field::Echo) {
                Err(e) => Err(e),
                Ok(echo) => Ok(PayloadModel::Echo { echo }),
            }
        } else if t == "echo_ok"@ {
            match member_str(entries, Field::Echo) {
                Err(e) => Err(e),
                Ok(echo) => Ok(PayloadModel::EchoOk { echo }),
            }
        } else {
            Err(DecodeError::UnknownType)
        },
    }
}

/// The message that a body object and the envelope's two addresses make.
pub open spec fn body_spec(src: Seq<char>, dest: Seq<char>, body: Seq<(String, JsonValue)>) -> Result<
    MessageModel,
    DecodeError,
> {
    match payload_spec(body) {
        Err(e) => Err(e),
        Ok(payload) => match member_id(body, Field::MsgId) {
            Err(e) => Err(e),
            Ok(msg_id) => match member_id(body, Field::InReplyTo) {
                Err(e) => Err(e),
                Ok(in_reply_to) => Ok(MessageModel { src, dest, msg_id, in_reply_to, payload }),
            },
        },
    }
}

/// The message that a JSON document denotes, or why it denotes none.
pub open spec fn decode_spec(v: JsonValue) -> Result<MessageModel, DecodeError> {
    match v {
        JsonValue::Object(top) => match member_str(top@, Field::Src) {
            Err(e) => Err(e),
            Ok(src) => match member_str(top@, Field::Dest) {
                Err(e) => Err(e),
                Ok(dest) => match lookup(top@, field_name(Field::Body)) {
                    None => Err(DecodeError::MissingField(Field::Body)),
                    Some(JsonValue::Object(body)) => body_spec(src, dest, body@),
                    Some(_) => Err(DecodeError::WrongKind(Field::Body)),
                },
            },
        },
        _ => Err(DecodeError::NotAnObject),
    }
}

/// The message that a wire line denotes, or why it denotes none.
pub open spec fn decode_line_spec(line: Seq<char>) -> Result<MessageModel, DecodeError> {
    match json_parse(line) {
        None => Err(DecodeError::NotJson),
        Some(v) => decode_spec(v),
    }
}

fn find_member(entries: &Vec<(String, JsonValue)>, key: &str) -> (r: Option<usize>)
    ensures
        match r {
            Some(i) => i < entries@.len() && lookup(entries@, key@) == Some(entries@[i as int].1),
            None => lookup(entries@, key@) is None,
        },
{
    let k = key.to_owned();
    let mut i: usize = 0;
    assert(entries@.subrange(0, entries@.len() as int) =~= entries@);
    while i < entries.len()
        invariant
            i <= entries@.len(),
            k@ == key@,
            lookup(entries@, key@) == lookup(
                entries@.subrange(i as int, entries@.len() as int),
                key@,
            ),
        decreases entries@.len() - i,
    {
        assert(entries@.subrange(i as int, entries@.len() as int).drop_first() =~= entries@.subrange(
            i + 1,
            entries@.len() as int,
        ));
        if entries[i].0 == k {
            return Some(i);
        }
        i += 1;
    }
    None
}

fn get_str(entries: &Vec<(String, JsonValue)>, f: Field) -> (r: Result<String, DecodeError>)
    ensures
        res_view(r) == member_str(entries@, f),
{
    match find_member(entries, f.name()) {
        None => Err(DecodeError::MissingField(f)),
        Some(i) => match &entries[i].1 {
            JsonValue::Str(s) => Ok(s.clone()),
            _ => Err(DecodeError::WrongKind(f)),
        },
    }
}

fn get_id(entries: &Vec<(String, JsonValue)>, f: Field) -> (r: Result<Option<usize>, DecodeError>)
    ensures
        r == member_id(entries@, f),
{
    match find_member(entries, f.name()) {
        None => Ok(None),
        Some(i) => match &entries[i].1 {
            JsonValue::Null => Ok(None),
            JsonValue::Unsigned(n) => if *n <= usize::MAX as u64 {
                Ok(Some(*n as usize))
            } else {
                Err(DecodeError::WrongKind(f))
            },
            _ => Err(DecodeError::WrongKind(f)),
        },
    }
}

fn get_strings(entries: &Vec<(String, JsonValue)>, f: Field) -> (r: Result<Vec<String>, DecodeError>)
    ensures
        strings_res_view(r) == member_strings(entries@, f),
{
    match find_member(entries, f.name()) {
        None => Err(DecodeError::MissingField(f)),
        Some(i) => match &entries[i].1 {
            JsonValue::Array(items) => {
                assert(lookup(entries@, field_name(f)) == Some(JsonValue::Array(*items)));
                let mut out: Vec<String> = Vec::new();
                let mut j: usize = 0;
                while j < items.len()
                    invariant
                        lookup(entries@, field_name(f)) == Some(JsonValue::Array(*items)),
                        j <= items@.len(),
                        out@.len() == j,
                        forall|k: int| 0 <= k < j ==> (#[trigger] items@[k]) is Str,
                        forall|k: int| 0 <= k < j ==> (#[trigger] out@[k])@ == string_of(items@[k]),
                    decreases items@.len() - j,
                {
                    match &items[j] {
                        JsonValue::Str(s) => out.push(s.clone()),
                        _ => {
                            assert(!(items@[j as int] is Str));
                            assert(!all_strings(items@));
                            return Err(DecodeError::WrongKind(f));
                        },
                    }
                    j += 1;
                }
                assert(strings_model(out@) =~= items@.map_values(|x: JsonValue| string_of(x)));
                Ok(out)
            },
            _ => Err(DecodeError::WrongKind(f)),
        },
    }
}

fn same_text(a: &String, b: &str) -> (r: bool)
    ensures
        r == (a@ == b@),
{
    *a == b.to_owned()
}

fn get_payload(entries: &Vec<(String, JsonValue)>) -> (r: Result<Payload, DecodeError>)
    ensures
        res_view(r) == payload_spec(entries@),
{
    let t = match get_str(entries, Field::Type) {
        Err(e) => return Err(e),
        Ok(t) => t,
    };
    if same_text(&t, "init") {
        let node_id = match get_str(entries, Field::NodeId) {
            Err(e) => return Err(e),
            Ok(s) => s,
        };
        match get_strings(entries, Field::NodeIds) {
            Err(e) => Err(e),
            Ok(node_ids) => Ok(Payload::Init { node_id, node_ids }),
        }
    } else if same_text(&t, "init_ok") {
        Ok(Payload::InitOk)
    } else if same_text(&t, "echo") {
        match get_str(entries, Field::Echo) {
            Err(e) => Err(e),
            Ok(echo) => Ok(Payload::Echo { echo }),
        }
    } else if same_text(&t, "echo_ok") {
        match get_str(entries, Field::Echo) {
            Err(e) => Err(e),
            Ok(echo) => Ok(Payload::EchoOk { echo }),
        }
    } else {
        Err(DecodeError::UnknownType)
    }
}

/// Reads a message out of a parsed JSON document.
pub fn decode_value(v: &JsonValue) -> (r: Result<Message, DecodeError>)
    ensures
        res_view(r) == decode_spec(*v),
{
    match v {
        JsonValue::Object(top) => {
            let src = match get_str(top, Field::Src) {
                Err(e) => return Err(e),
                Ok(s) => s,
            };
            let dest = match get_str(top, Field::Dest) {
                Err(e) => return Err(e),
                Ok(s) => s,
            };
            match find_member(top, Field::Body.name()) {
                None => Err(DecodeError::MissingField(Field::Body)),
                Some(i) => match &top[i].1 {
                    JsonValue::Object(body) => {
                        let payload = match get_payload(body) {
                            Err(e) => return Err(e),
                            Ok(p) => p,
                        };
                        let msg_id = match get_id(body, Field::MsgId) {
                            Err(e) => return Err(e),
                            Ok(x) => x,
                        };
                        let in_reply_to = match get_id(body, Field::InReplyTo) {
                            Err(e) => return Err(e),
                            Ok(x) => x,
                        };
                        Ok(Message { src, dest, body: MessageBody { msg_id, in_reply_to, payload } })
                    },
                    _ => Err(DecodeError::WrongKind(Field::Body)),
                },
            }
        },
        _ => Err(DecodeError::NotAnObject),
    }
}

/// Decodes one wire line.
pub fn decode(line: &str) -> (r: Result<Message, DecodeError>)
    ensures
        res_view(r) == decode_line_spec(line@),
{
    match parse_json(line) {
        None => Err(DecodeError::NotJson),
        Some(v) => decode_value(&v),
    }
}

pub open spec fn digit_text(d: nat) -> Seq<char> {
    if d == 0 {
        "0"@
    } else if d == 1 {
        "1"@
    } else if d == 2 {
        "2"@
    } else if d == 3 {
        "3"@
    } else if d == 4 {
        "4"@
    } else if d == 5 {
        "5"@
    } else if d == 6 {
        "6"@
    } else if d == 7 {
        "7"@
    } else if d == 8 {
        "8"@
    } else {
        "9"@
    }
}

/// The decimal digits of a number, without leading zeros.
pub open spec fn decimal(n: nat) -> Seq<char>
    decreases n,
{
    if n < 10 {
        digit_text(n)
    } else {
        decimal(n / 10) + digit_text(n % 10)
    }
}

/// An id member, or nothing where the id is absent.
pub open spec fn id_text(label: Seq<char>, id: Option<usize>) -> Seq<char> {
    match id {
        None => Seq::empty(),
        Some(n) => label + decimal(n as nat),
    }
}

/// String literals separated by commas.
pub open spec fn quoted_list(items: Seq<Seq<char>>) -> Seq<char>
    decreases items.len(),
{
    if items.len() == 0 {
        Seq::empty()
    } else if items.len() == 1 {
        json_quoted(items[0])
    } else {
        quoted_list(items.drop_last()) + ","@ + json_quoted(items.last())
    }
}

pub open spec fn tag_text(p: PayloadModel) -> Seq<char> {
    match p {
        PayloadModel::Init { .. } => "\"init\""@,
        PayloadModel::InitOk => "\"init_ok\""@,
        PayloadModel::Echo { .. } => "\"echo\""@,
        PayloadModel::EchoOk { .. } => "\"echo_ok\""@,
    }
}

/// The members that a payload variant adds after the ids.
pub open spec fn fields_text(p: PayloadModel) -> Seq<char> {
    match p {
        PayloadModel::Init { node_id, node_ids } => ",\"node_id\":"@ + json_quoted(node_id)
            + ",\"node_ids\":["@ + quoted_list(node_ids) + "]"@,
        PayloadModel::InitOk => Seq::empty(),
        PayloadModel::Echo { echo } => ",\"echo\":"@ + json_quoted(echo),
        PayloadModel::EchoOk { echo } => ",\"echo\":"@ + json_quoted(echo),
    }
}

/// The body object: the tag first, then the ids that are present, then the
/// variant's own members, all as siblings.
pub open spec fn body_text(m: MessageModel) -> Seq<char> {
    "{\"type\":"@ + tag_text(m.payload) + id_text(",\"msg_id\":"@, m.msg_id) + id_text(
        ",\"in_reply_to\":"@,
        m.in_reply_to,
    ) + fields_text(m.payload) + "}"@
}

/// The single line that encodes a message.
pub open spec fn wire_text(m: MessageModel) -> Seq<char> {
    "{\"src\":"@ + json_quoted(m.src) + ",\"dest\":"@ + json_quoted(m.dest) + ",\"body\":"@
        + body_text(m) + "}"@
}

fn digit_str(d: usize) -> (r: &'static str)
    requires
        d < 10,
    ensures
        r@ == digit_text(d as nat),
{
    if d == 0 {
        "0"
    } else if d == 1 {
        "1"
    } else if d == 2 {
        "2"
    } else if d == 3 {
        "3"
    } else if d == 4 {
        "4"
    } else if d == 5 {
        "5"
    } else if d == 6 {
        "6"
    } else if d == 7 {
        "7"
    } else if d == 8 {
        "8"
    } else {
        "9"
    }
}

fn push_decimal(out: &mut String, n: usize)
    ensures
        final(out)@ == old(out)@ + decimal(n as nat),
    decreases n,
{
    if n >= 10 {
        push_decimal(out, n / 10);
    }
    out.append(digit_str(n % 10));
}

fn push_id(out: &mut String, label: &str, id: Option<usize>)
    ensures
        final(out)@ == old(out)@ + id_text(label@, id),
{
    match id {
        None => {
            assert(old(out)@ + Seq::<char>::empty() =~= old(out)@);
        },
        Some(n) => {
            out.append(label);
            push_decimal(out, n);
            assert(final(out)@ =~= old(out)@ + (label@ + decimal(n as nat)));
        },
    }
}

fn push_quoted_list(out: &mut String, items: &Vec<String>)
    ensures
        final(out)@ == old(out)@ + quoted_list(strings_model(items@)),
{
    let ghost start = out@;
    let ghost model = strings_model(items@);
    let mut i: usize = 0;
    assert(model.take(0) =~= Seq::<Seq<char>>::empty());
    assert(start + Seq::<char>::empty() =~= start);
    while i < items.len()
        invariant
            i <= items@.len(),
            model == strings_model(items@),
            out@ == start + quoted_list(model.take(i as int)),
        decreases items@.len() - i,
    {
        let ghost before = out@;
        assert(model.take(i + 1).drop_last() =~= model.take(i as int));
        assert(model.take(i + 1).last() == items@[i as int]@);
        if i > 0 {
            out.append(",");
        }
        let q = quote(items[i].as_str());
        out.append(q.as_str());
        if i == 0 {
            assert(out@ =~= start + quoted_list(model.take(1)));
        } else {
            assert(out@ =~= start + quoted_list(model.take(i + 1)));
        }
        i += 1;
    }
    assert(model.take(items@.len() as int) =~= model);
}

fn push_quoted(out: &mut String, s: &String)
    ensures
        final(out)@ == old(out)@ + json_quoted(s@),
{
    let q = quote(s.as_str());
    out.append(q.as_str());
}

/// Encodes a message as one line of text, without the line terminator.
pub fn encode(m: &Message) -> (r: String)
    ensures
        r@ == wire_text(m@),
{
    let mut out = String::new();
    out.append("{\"src\":");
    push_quoted(&mut out, &m.src);
    out.append(",\"dest\":");
    push_quoted(&mut out, &m.dest);
    out.append(",\"body\":");
    let ghost head = out@;
    out.append("{\"type\":");
    match &m.body.payload {
        Payload::Init { .. } => out.append("\"init\""),
        Payload::InitOk => out.append("\"init_ok\""),
        Payload::Echo { .. } => out.append("\"echo\""),
        Payload::EchoOk { .. } => out.append("\"echo_ok\""),
    }
    push_id(&mut out, ",\"msg_id\":", m.body.msg_id);
    push_id(&mut out, ",\"in_reply_to\":", m.body.in_reply_to);
    let ghost ids = out@;
    match &m.body.payload {
        Payload::Init { node_id, node_ids } => {
            out.append(",\"node_id\":");
            push_quoted(&mut out, node_id);
            out.append(",\"node_ids\":[");
            push_quoted_list(&mut out, node_ids);
            out.append("]");
        },
        Payload::InitOk => {},
        Payload::Echo { echo } => {
            out.append(",\"echo\":");
            push_quoted(&mut out, echo);
        },
        Payload::EchoOk { echo } => {
            out.append(",\"echo\":");
            push_quoted(&mut out, echo);
        },
    }
    assert(out@ =~= ids + fields_text(m@.payload));
    out.append("}");
    assert(out@ =~= head + body_text(m@));
    out.append("}");
    assert(out@ =~= wire_text(m@));
    out
}

/// The tag that names a payload variant.
pub open spec fn tag_name(p: PayloadModel) -> Seq<char> {
    match p {
        PayloadModel::Init { .. } => "init"@,
        PayloadModel::InitOk => "init_ok"@,
        PayloadModel::Echo { .. } => "echo"@,
        PayloadModel::EchoOk { .. } => "echo_ok"@,
    }
}

pub open spec fn holds_str(v: Option<JsonValue>, s: Seq<char>) -> bool {
    v matches Some(JsonValue::Str(x)) && x@ == s
}

pub open spec fn holds_id(v: Option<JsonValue>, id: Option<usize>) -> bool {
    match id {
        None => v is None,
        Some(n) => v == Some(JsonValue::Unsigned(n as u64)),
    }
}

pub open spec fn holds_strings(v: Option<JsonValue>, s: Seq<Seq<char>>) -> bool {
    v matches Some(JsonValue::Array(items)) && all_strings(items@) && items@.map_values(
        |x: JsonValue| string_of(x),
    ) == s
}

/// The members of a body object that carry a payload's own fields.
pub open spec fn carries_payload(body: Seq<(String, JsonValue)>, p: PayloadModel) -> bool {
    &&& holds_str(lookup(body, field_name(Field::Type)), tag_name(p))
    &&& match p {
        PayloadModel::Init { node_id, node_ids } => holds_str(
            lookup(body, field_name(Field::NodeId)),
            node_id,
        ) && holds_strings(lookup(body, field_name(Field::NodeIds)), node_ids),
        PayloadModel::InitOk => true,
        PayloadModel::Echo { echo } => holds_str(lookup(body, field_name(Field::Echo)), echo),
        PayloadModel::EchoOk { echo } => holds_str(lookup(body, field_name(Field::Echo)), echo),
    }
}

/// A document carries a message where each member that `wire_text` writes
/// for it reads back with the value written, and an absent id reads back as
/// an absent member.
pub open spec fn carries(v: JsonValue, m: MessageModel) -> bool {
    match v {
        JsonValue::Object(top) => {
            &&& holds_str(lookup(top@, field_name(Field::Src)), m.src)
            &&& holds_str(lookup(top@, field_name(Field::Dest)), m.dest)
            &&& match lookup(top@, field_name(Field::Body)) {
                Some(JsonValue::Object(body)) => {
                    &&& carries_payload(body@, m.payload)
                    &&& holds_id(lookup(body@, field_name(Field::MsgId)), m.msg_id)
                    &&& holds_id(lookup(body@, field_name(Field::InReplyTo)), m.in_reply_to)
                },
                _ => false,
            }
        },
        _ => false,
    }
}

/// Round trip: a document that carries the members of a message decodes to
/// exactly that message, with absent ids still absent.
pub proof fn lemma_round_trip(v: JsonValue, m: MessageModel)
    requires
        carries(v, m),
    ensures
        decode_spec(v) == Ok::<MessageModel, DecodeError>(m),
{
    reveal_strlit("init");
    reveal_strlit("init_ok");
    reveal_strlit("echo");
    reveal_strlit("echo_ok");
    if let JsonValue::Object(top) = v {
        if let Some(JsonValue::Object(body)) = lookup(top@, field_name(Field::Body)) {
            assert(member_str(top@, Field::Src) == Ok::<Seq<char>, DecodeError>(m.src));
            assert(member_str(top@, Field::Dest) == Ok::<Seq<char>, DecodeError>(m.dest));
            assert(member_str(body@, Field::Type) == Ok::<Seq<char>, DecodeError>(
                tag_name(m.payload),
            ));
            assert("init"@[0] != "echo"@[0]);
            assert("init"@.len() != "init_ok"@.len() && "init"@.len() != "echo_ok"@.len());
            assert("echo"@.len() != "init_ok"@.len() && "echo"@.len() != "echo_ok"@.len());
            assert("init_ok"@[0] != "echo_ok"@[0]);
            match m.payload {
                PayloadModel::Init { node_id, node_ids } => {
                    assert(member_str(body@, Field::NodeId) == Ok::<Seq<char>, DecodeError>(
                        node_id,
                    ));
                    assert(member_strings(body@, Field::NodeIds) == Ok::<
                        Seq<Seq<char>>,
                        DecodeError,
                    >(node_ids));
                },
                _ => {},
            }
            assert(payload_spec(body@) == Ok::<PayloadModel, DecodeError>(m.payload));
            assert(member_id(body@, Field::MsgId) == Ok::<Option<usize>, DecodeError>(m.msg_id));
            assert(member_id(body@, Field::InReplyTo) == Ok::<Option<usize>, DecodeError>(
                m.in_reply_to,
            ));
            assert(body_spec(m.src, m.dest, body@) == Ok::<MessageModel, DecodeError>(m));
        }
    }
}

} // verus!
