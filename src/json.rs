//! JSON on the wire: the request bodies the providers take, framed here around
//! string literals that serde_json renders, and the reading of one string out
//! of a reply that serde_json parses.
use vstd::prelude::*;
use crate::config::opt_view;
use crate::messages::{entries_view, ChatEntry, Role};
use crate::number::{decimal, push_decimal};

verus! {

/// serde_json::Error, the failure of serde_json::to_string, carried as an
/// opaque value.
#[verifier::external_type_specification]
#[verifier::external_body]
pub struct ExJsonError(serde_json::Error);

/// The JSON string literal that serde_json writes for a string, quotes and
/// escapes included; `None` where it fails to write one.
pub uninterp spec fn json_quoted(s: Seq<char>) -> Option<Seq<char>>;

/// What serde_json makes of `text` read as one JSON document: its description
/// of the failure when the text is not JSON; otherwise the string that the
/// JSON pointer `pointer` addresses, or `None` when nothing is there or it is
/// not a string.
pub uninterp spec fn json_string_at(text: Seq<char>, pointer: Seq<char>) -> Result<
    Option<Seq<char>>,
    Seq<char>,
>;

/// Relies on serde_json::to_string on a `str`: the JSON string literal of `s`.
#[verifier::external_body]
pub(crate) fn quote(s: &str) -> (r: Result<String, serde_json::Error>)
    ensures
        r is Ok <==> json_quoted(s@) is Some,
        r matches Ok(q) ==> json_quoted(s@) == Some(q@),
{
    serde_json::to_string(s)
}

/// Relies on serde_json::from_str into a serde_json::Value, whose
/// Value::pointer and Value::as_str then read the string at `pointer`; a
/// parse failure is handed back as the `Display` text of serde_json::Error.
#[verifier::external_body]
pub(crate) fn string_at(text: &str, pointer: &str) -> (r: Result<Option<String>, String>)
    ensures
        json_string_at(text@, pointer@) == match r {
            Ok(found) => Ok(opt_view(found)),
            Err(e) => Err(e@),
        },
{
    let value: serde_json::Value = serde_json::from_str(text).map_err(|e| e.to_string())?;
    Ok(value.pointer(pointer).and_then(|v| v.as_str()).map(|s| s.to_string()))
}

/// Whether serde_json writes `s` as a JSON string.
pub open spec fn quotable(s: Seq<char>) -> bool {
    json_quoted(s) is Some
}

/// The JSON string literal of `s`, where serde_json writes one.
pub open spec fn quoted(s: Seq<char>) -> Seq<char>
    recommends
        quotable(s),
{
    json_quoted(s)->Some_0
}

/// Whether serde_json writes the content of every entry.
pub open spec fn contents_quotable(entries: Seq<(Role, Seq<char>)>) -> bool {
    forall|i: int| 0 <= i < entries.len() ==> quotable(#[trigger] entries[i].1)
}

/// How a message's content is written.
#[derive(Debug, Clone, Copy, PartialEq, Eq, Structural)]
pub enum ContentStyle {
    /// The content is a JSON string.
    Text,
    /// The content is an array of one `{"type":"text","text":...}` block.
    Blocks,
}

/// A role's name as a JSON string.
pub open spec fn role_json(r: Role) -> Seq<char> {
    match r {
        Role::System => "\"system\""@,
        Role::User => "\"user\""@,
        Role::Assistant => "\"assistant\""@,
    }
}

/// The JSON object of one message, around its content already written as a
/// JSON string literal.
pub open spec fn message_frame(role: Role, quoted: Seq<char>, style: ContentStyle) -> Seq<char> {
    match style {
        ContentStyle::Text => "{\"role\":"@ + role_json(role) + ",\"content\":"@ + quoted + "}"@,
        ContentStyle::Blocks => "{\"role\":"@ + role_json(role)
            + ",\"content\":[{\"type\":\"text\",\"text\":"@ + quoted + "}]}"@,
    }
}

/// The JSON object of one message.
pub open spec fn message_json(e: (Role, Seq<char>), style: ContentStyle) -> Seq<char> {
    message_frame(e.0, quoted(e.1), style)
}

/// Items separated by commas.
pub open spec fn comma_joined(items: Seq<Seq<char>>) -> Seq<char>
    decreases items.len(),
{
    if items.len() == 0 {
        Seq::empty()
    } else if items.len() == 1 {
        items[0]
    } else {
        comma_joined(items.drop_last()) + seq![','] + items.last()
    }
}

/// The messages of a request, as the members of a JSON array.
pub open spec fn messages_json(entries: Seq<(Role, Seq<char>)>, style: ContentStyle) -> Seq<
    char,
> {
    comma_joined(entries.map_values(|e: (Role, Seq<char>)| message_json(e, style)))
}

/// The body of a chat-completions request: the model and the messages, with
/// plain-text contents.
pub open spec fn chat_completion_body(model: Seq<char>, entries: Seq<(Role, Seq<char>)>) -> Seq<
    char,
> {
    "{\"model\":"@ + quoted(model) + ",\"messages\":["@ + messages_json(
        entries,
        ContentStyle::Text,
    ) + "]}"@
}

/// The body of a messages request: the model, the token limit, the messages
/// with block contents, and the system instructions as a field of their own.
pub open spec fn messages_body(
    model: Seq<char>,
    max_tokens: nat,
    entries: Seq<(Role, Seq<char>)>,
    system: Seq<char>,
) -> Seq<char> {
    "{\"model\":"@ + quoted(model) + ",\"max_tokens\":"@ + decimal(max_tokens)
        + ",\"messages\":["@ + messages_json(entries, ContentStyle::Blocks) + "],\"system\":"@
        + quoted(system) + "}"@
}

/// The JSON object of one message around its content, already written as a
/// JSON string literal.
pub fn frame_message(role: Role, quoted: &str, style: ContentStyle) -> (r: String)
    ensures
        r@ == message_frame(role, quoted@, style),
{
    let mut out = String::from_str("{\"role\":");
    match role {
        Role::System => out.append("\"system\""),
        Role::User => out.append("\"user\""),
        Role::Assistant => out.append("\"assistant\""),
    }
    match style {
        ContentStyle::Text => {
            out.append(",\"content\":");
            out.append(quoted);
            out.append("}");
        },
        ContentStyle::Blocks => {
            out.append(",\"content\":[{\"type\":\"text\",\"text\":");
            out.append(quoted);
            out.append("}]}");
        },
    }
    out
}

/// Appends the messages as the members of a JSON array; fails only where
/// serde_json fails to write a content.
pub fn push_messages(out: &mut String, entries: &Vec<ChatEntry>, style: ContentStyle) -> (r:
    Result<(), serde_json::Error>)
    ensures
        r is Ok <==> contents_quotable(entries_view(entries@)),
        r is Ok ==> final(out)@ == old(out)@ + messages_json(entries_view(entries@), style),
{
    let ghost items = entries_view(entries@).map_values(
        |e: (Role, Seq<char>)| message_json(e, style),
    );
    let ghost start = out@;
    let n = entries.len();
    for i in 0..n
        invariant
            n == entries@.len(),
            items == entries_view(entries@).map_values(
                |e: (Role, Seq<char>)| message_json(e, style),
            ),
            out@ == start + comma_joined(items.take(i as int)),
            forall|j: int| 0 <= j < i ==> quotable(#[trigger] entries_view(entries@)[j].1),
    {
        let entry = &entries[i];
        assert(entries_view(entries@)[i as int] == entry@);
        let text = match quote(entry.content.as_str()) {
            Ok(q) => q,
            Err(e) => {
                assert(!quotable(entries_view(entries@)[i as int].1));
                return Err(e);
            },
        };
        if i > 0 {
            out.append(",");
        }
        let framed = frame_message(entry.role, text.as_str(), style);
        out.append(framed.as_str());
        proof {
            reveal_strlit(",");
            assert(items.take(i + 1).drop_last() =~= items.take(i as int));
            assert(items[i as int] == message_json(entry@, style));
            if i == 0 {
                assert(items.take(1) =~= seq![items[0]]);
            }
            assert(out@ =~= start + comma_joined(items.take(i + 1)));
        }
    }
    assert(items.take(n as int) =~= items);
    Ok(())
}

/// Appends `s` as a JSON string literal.
fn push_quoted(out: &mut String, s: &str) -> (r: Result<(), serde_json::Error>)
    ensures
        r is Ok <==> quotable(s@),
        r is Ok ==> final(out)@ == old(out)@ + quoted(s@),
{
    let quoted = quote(s)?;
    out.append(quoted.as_str());
    Ok(())
}

/// The body of a chat-completions request; fails only where serde_json fails
/// to write a string.
pub fn chat_completion_payload(model: &str, entries: &Vec<ChatEntry>) -> (r: Result<
    String,
    serde_json::Error,
>)
    ensures
        r is Ok <==> quotable(model@) && contents_quotable(entries_view(entries@)),
        r matches Ok(body) ==> body@ == chat_completion_body(model@, entries_view(entries@)),
{
    let mut out = String::from_str("{\"model\":");
    push_quoted(&mut out, model)?;
    out.append(",\"messages\":[");
    push_messages(&mut out, entries, ContentStyle::Text)?;
    out.append("]}");
    Ok(out)
}

/// The body of a messages request; fails only where serde_json fails to write
/// a string.
pub fn messages_payload(model: &str, max_tokens: u32, entries: &Vec<ChatEntry>, system: &str) -> (r:
    Result<String, serde_json::Error>)
    ensures
        r is Ok <==> quotable(model@) && contents_quotable(entries_view(entries@)) && quotable(
            system@,
        ),
        r matches Ok(body) ==> body@ == messages_body(
            model@,
            max_tokens as nat,
            entries_view(entries@),
            system@,
        ),
{
    let mut out = String::from_str("{\"model\":");
    push_quoted(&mut out, model)?;
    out.append(",\"max_tokens\":");
    push_decimal(&mut out, max_tokens);
    out.append(",\"messages\":[");
    push_messages(&mut out, entries, ContentStyle::Blocks)?;
    out.append("],\"system\":");
    push_quoted(&mut out, system)?;
    out.append("}");
    Ok(out)
}

} // verus!
