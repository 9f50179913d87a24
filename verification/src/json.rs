//! Writing a projected envelope as JSON: an array with one element per item,
//! each an object with a single member, named after the item's kind.
use crate::error::SerializeError;
use crate::item::{envelope_contents, ItemContent, ItemKind};
use crate::projection::{
    first_unsupported, optional_string, project, projected, projection, summaries, supported,
    AttachmentSerialisable, AttachmentSummary, EnvelopeItemSerialisable, ItemSummary,
};
use crate::records::{
    event_compact, event_pretty, event_to_string, event_to_string_pretty,
    session_aggregates_compact, session_aggregates_pretty, session_aggregates_to_string,
    session_aggregates_to_string_pretty, session_update_compact, session_update_pretty,
    session_update_to_string, session_update_to_string_pretty, transaction_compact,
    transaction_pretty, transaction_to_string, transaction_to_string_pretty,
};
use crate::text::{
    array_text, decimal, decimal_text, digit_char, member_text, object_text, texts, write_array,
    write_member, write_object, Layout,
};
use sentry_types::protocol::v7::Envelope;
use vstd::prelude::*;

verus! {

/// The digit that stands for `d` in base sixteen, in lower case, for `d`
/// below sixteen.
pub open spec fn hex_digit(d: nat) -> char {
    if d < 10 {
        digit_char(d)
    } else if d == 10 {
        'a'
    } else if d == 11 {
        'b'
    } else if d == 12 {
        'c'
    } else if d == 13 {
        'd'
    } else if d == 14 {
        'e'
    } else {
        'f'
    }
}

/// How one character stands inside a JSON string literal: the quote and the
/// backslash after a backslash; backspace, tab, line feed, form feed and
/// carriage return as a backslash and their letter; every other character
/// below U+0020 as `\u00` and its two digits in base sixteen; any other
/// character as it is.
pub open spec fn escaped(c: char) -> Seq<char> {
    if c == '"' {
        seq!['\\', '"']
    } else if c == '\\' {
        seq!['\\', '\\']
    } else if c == '\u{8}' {
        seq!['\\', 'b']
    } else if c == '\t' {
        seq!['\\', 't']
    } else if c == '\n' {
        seq!['\\', 'n']
    } else if c == '\u{c}' {
        seq!['\\', 'f']
    } else if c == '\r' {
        seq!['\\', 'r']
    } else if (c as u32) < 0x20 {
        seq![
            '\\',
            'u',
            '0',
            '0',
            hex_digit((c as u32 / 16) as nat),
            hex_digit((c as u32 % 16) as nat),
        ]
    } else {
        seq![c]
    }
}

/// The characters of `text`, each as it stands inside a JSON string literal.
pub open spec fn escaped_text(text: Seq<char>) -> Seq<char>
    decreases text.len(),
{
    if text.len() == 0 {
        Seq::empty()
    } else {
        escaped_text(text.drop_last()) + escaped(text.last())
    }
}

/// The JSON string literal for `text`: its characters, escaped where JSON
/// asks for it, between two quotes.
pub open spec fn json_string(text: Seq<char>) -> Seq<char> {
    seq!['"'] + escaped_text(text) + seq!['"']
}

/// `serde_json::to_string` on a `str`: the JSON string literal for the text.
/// The writer behind it writes into memory and the text is a plain string, so
/// there is no failure to report.
#[verifier::external_body]
fn quote(text: &str) -> (literal: String)
    ensures
        literal@ == json_string(text@),
{
    serde_json::to_string(text).unwrap_or_default()
}

/// The JSON text of an optional string: its literal, or `null`.
pub open spec fn nullable_text(text: Option<Seq<char>>) -> Seq<char> {
    match text {
        Some(t) => json_string(t),
        None => "null"@,
    }
}

/// The members of an attachment's summary, in the order in which they are
/// written.
pub open spec fn attachment_members(layout: Layout, attachment: AttachmentSummary) -> Seq<
    Seq<char>,
> {
    seq![
        member_text(layout, "length"@, decimal_text(attachment.length)),
        member_text(layout, "filename"@, json_string(attachment.filename)),
        member_text(layout, "content_type"@, nullable_text(attachment.content_type)),
        member_text(layout, "ty"@, nullable_text(attachment.ty)),
    ]
}

/// The JSON text of an attachment's summary.
pub open spec fn attachment_text(layout: Layout, attachment: AttachmentSummary) -> Seq<char> {
    object_text(layout, attachment_members(layout, attachment))
}

/// The name of a kind of item.
pub open spec fn kind_name(kind: ItemKind) -> Seq<char> {
    match kind {
        ItemKind::Event => "Event"@,
        ItemKind::SessionUpdate => "SessionUpdate"@,
        ItemKind::SessionAggregates => "SessionAggregates"@,
        ItemKind::Transaction => "Transaction"@,
        ItemKind::Attachment => "Attachment"@,
    }
}

/// The name under which an item is written: that of its kind.
pub open spec fn tag(item: ItemSummary) -> Seq<char> {
    kind_name(item.kind())
}

/// The JSON text of what an item holds: for a record the text that its own
/// serialiser gives, where it gives one; for an attachment that of its
/// summary.
pub open spec fn body_text(layout: Layout, item: ItemSummary) -> Option<Seq<char>> {
    match item {
        ItemSummary::Event(record) => match layout {
            Layout::Compact => event_compact(record),
            Layout::Pretty => event_pretty(record),
        },
        ItemSummary::SessionUpdate(record) => match layout {
            Layout::Compact => session_update_compact(record),
            Layout::Pretty => session_update_pretty(record),
        },
        ItemSummary::SessionAggregates(record) => match layout {
            Layout::Compact => session_aggregates_compact(record),
            Layout::Pretty => session_aggregates_pretty(record),
        },
        ItemSummary::Transaction(record) => match layout {
            Layout::Compact => transaction_compact(record),
            Layout::Pretty => transaction_pretty(record),
        },
        ItemSummary::Attachment(attachment) => Some(attachment_text(layout, attachment)),
    }
}

/// An element of the array: an object whose single member has the item's
/// kind as its name and the item's text as its value.
pub open spec fn element_text(layout: Layout, name: Seq<char>, body: Seq<char>) -> Seq<char> {
    object_text(layout, seq![member_text(layout, name, body)])
}

/// Whether an item has a JSON text, in the one layout and in the other.
pub open spec fn has_text(item: ItemSummary) -> bool {
    body_text(Layout::Compact, item) is Some && body_text(Layout::Pretty, item) is Some
}

/// Whether every item has a JSON text.
pub open spec fn renderable(items: Seq<ItemSummary>) -> bool {
    forall|i: int| 0 <= i < items.len() ==> has_text(#[trigger] items[i])
}

/// The elements of the array, one per item, in the items' order.
pub open spec fn elements(layout: Layout, items: Seq<ItemSummary>) -> Seq<Seq<char>> {
    Seq::new(
        items.len(),
        |i: int| element_text(layout, tag(items[i]), body_text(layout, items[i])->0),
    )
}

/// The JSON text of a sequence of items that all have one.
pub open spec fn rendered(layout: Layout, items: Seq<ItemSummary>) -> Seq<char> {
    array_text(layout, elements(layout, items))
}

/// Writes an optional string: its literal, or `null`.
fn write_nullable(text: &Option<String>) -> (json: String)
    ensures
        json@ == nullable_text(optional_string(*text)),
{
    match text {
        Some(t) => quote(t.as_str()),
        None => "null".to_owned(),
    }
}

/// Writes the summary of an attachment: an object with the members `length`,
/// `filename`, `content_type` and `ty`, in this order.
pub fn write_attachment(layout: Layout, attachment: &AttachmentSerialisable) -> (json: String)
    ensures
        json@ == attachment_text(layout, attachment@),
{
    let length = decimal(attachment.length);
    let filename = quote(attachment.filename.as_str());
    let content_type = write_nullable(&attachment.content_type);
    let ty = write_nullable(&attachment.ty);
    let mut members: Vec<String> = Vec::new();
    members.push(write_member(layout, "length", length.as_str()));
    members.push(write_member(layout, "filename", filename.as_str()));
    members.push(write_member(layout, "content_type", content_type.as_str()));
    members.push(write_member(layout, "ty", ty.as_str()));
    assert(texts(members@) =~= attachment_members(layout, attachment@));
    write_object(layout, &members)
}

/// Writes an element of the array: an object with the single member `name`,
/// whose value is `body`.
pub fn write_element(layout: Layout, name: &str, body: &str) -> (json: String)
    ensures
        json@ == element_text(layout, name@, body@),
{
    let mut members: Vec<String> = Vec::new();
    members.push(write_member(layout, name, body));
    assert(texts(members@) =~= seq![member_text(layout, name@, body@)]);
    write_object(layout, &members)
}

/// The name of a kind of item.
pub fn name_of(kind: ItemKind) -> (name: &'static str)
    ensures
        name@ == kind_name(kind),
{
    match kind {
        ItemKind::Event => "Event",
        ItemKind::SessionUpdate => "SessionUpdate",
        ItemKind::SessionAggregates => "SessionAggregates",
        ItemKind::Transaction => "Transaction",
        ItemKind::Attachment => "Attachment",
    }
}

/// Writes what an item holds. Fails where a record's own serialiser fails,
/// which it does in the one layout exactly where it does in the other.
fn write_body(layout: Layout, item: &EnvelopeItemSerialisable) -> (json: Result<
    String,
    serde_json::Error,
>)
    ensures
        json is Ok <==> has_text(item@),
        json matches Ok(text) ==> body_text(layout, item@) == Some(text@),
{
    match item {
        EnvelopeItemSerialisable::Event(record) => match layout {
            Layout::Compact => event_to_string(record),
            Layout::Pretty => event_to_string_pretty(record),
        },
        EnvelopeItemSerialisable::SessionUpdate(record) => match layout {
            Layout::Compact => session_update_to_string(record),
            Layout::Pretty => session_update_to_string_pretty(record),
        },
        EnvelopeItemSerialisable::SessionAggregates(record) => match layout {
            Layout::Compact => session_aggregates_to_string(record),
            Layout::Pretty => session_aggregates_to_string_pretty(record),
        },
        EnvelopeItemSerialisable::Transaction(record) => match layout {
            Layout::Compact => transaction_to_string(record),
            Layout::Pretty => transaction_to_string_pretty(record),
        },
        EnvelopeItemSerialisable::Attachment(attachment) => Ok(
            write_attachment(layout, attachment),
        ),
    }
}

/// Writes projected items as a JSON array, one element per item, in the
/// items' order. Fails exactly where one of the records has no JSON text,
/// whatever the layout.
pub fn render(layout: Layout, items: &Vec<EnvelopeItemSerialisable>) -> (outcome: Result<
    String,
    SerializeError,
>)
    ensures
        match outcome {
            Ok(json) => renderable(summaries(items@)) && json@ == rendered(
                layout,
                summaries(items@),
            ),
            Err(SerializeError::Json(_)) => !renderable(summaries(items@)),
            Err(SerializeError::UnsupportedItemKind(_)) => false,
        },
{
    let mut parts: Vec<String> = Vec::new();
    let mut i: usize = 0;
    while i < items.len()
        invariant
            i <= items.len(),
            parts@.len() == i,
            forall|j: int| 0 <= j < i ==> has_text(#[trigger] summaries(items@)[j]),
            forall|j: int|
                0 <= j < i ==> (#[trigger] parts@[j])@ == element_text(
                    layout,
                    tag(items@[j]@),
                    body_text(layout, items@[j]@)->0,
                ),
        decreases items.len() - i,
    {
        let item = &items[i];
        assert(summaries(items@)[i as int] == item@);
        match write_body(layout, item) {
            Ok(body) => {
                parts.push(write_element(layout, name_of(item.kind()), body.as_str()));
            },
            Err(error) => {
                return Err(SerializeError::Json(error));
            },
        }
        i += 1;
    }
    assert(texts(parts@) =~= elements(layout, summaries(items@)));
    Ok(write_array(layout, &parts))
}

/// Projecting and rendering keep the items in their order: the array has one
/// element per item of the envelope, and the element at each place is named
/// after the kind of the item at that place and holds the text of that item's
/// projection.
pub proof fn lemma_rendering_keeps_order(layout: Layout, contents: Seq<Option<ItemContent>>)
    requires
        supported(contents),
        renderable(projection(contents)),
    ensures
        rendered(layout, projection(contents)) == array_text(
            layout,
            elements(layout, projection(contents)),
        ),
        elements(layout, projection(contents)).len() == contents.len(),
        forall|i: int|
            0 <= i < contents.len() ==> (#[trigger] elements(layout, projection(contents))[i])
                == element_text(
                layout,
                kind_name((contents[i]->0).kind()),
                body_text(layout, projected(contents[i]->0))->0,
            ),
{
}

/// The outcome of writing an envelope as JSON in the given layout: the text
/// of its projection, where every item is of a supported kind and has a text.
/// Which of the three outcomes it is does not depend on the layout.
pub open spec fn envelope_json(layout: Layout, envelope: Envelope, outcome: Result<
    String,
    SerializeError,
>) -> bool {
    let contents = envelope_contents(envelope);
    match outcome {
        Ok(json) => {
            &&& supported(contents)
            &&& renderable(projection(contents))
            &&& json@ == rendered(layout, projection(contents))
        },
        Err(SerializeError::UnsupportedItemKind(index)) => first_unsupported(
            contents,
            index as int,
        ),
        Err(SerializeError::Json(_)) => {
            &&& supported(contents)
            &&& !renderable(projection(contents))
        },
    }
}

/// Whether two failures are of the same kind, and at the same item where
/// they name one.
pub open spec fn same_failure(first: SerializeError, second: SerializeError) -> bool {
    match (first, second) {
        (
            SerializeError::UnsupportedItemKind(one),
            SerializeError::UnsupportedItemKind(other),
        ) => one == other,
        (SerializeError::Json(_), SerializeError::Json(_)) => true,
        _ => false,
    }
}

/// The two layouts succeed on the same envelopes, and where they fail they
/// fail in the same way: at the same unsupported item, or both on a record
/// without a JSON text.
pub proof fn lemma_layouts_agree(
    envelope: Envelope,
    compact: Result<String, SerializeError>,
    pretty: Result<String, SerializeError>,
)
    requires
        envelope_json(Layout::Compact, envelope, compact),
        envelope_json(Layout::Pretty, envelope, pretty),
    ensures
        compact is Ok <==> pretty is Ok,
        compact matches Err(first) ==> (pretty matches Err(second) && same_failure(first, second)),
{
    let contents = envelope_contents(envelope);
    if let Err(SerializeError::UnsupportedItemKind(first)) = compact {
        if let Err(SerializeError::UnsupportedItemKind(second)) = pretty {
            assert(contents[first as int] is None);
            assert(contents[second as int] is None);
            assert(first == second);
        } else {
            assert(contents[first as int] is None);
        }
    } else if let Err(SerializeError::UnsupportedItemKind(second)) = pretty {
        assert(contents[second as int] is None);
    }
}

/// Writes the projection of an envelope in the given layout.
pub fn to_json_in(layout: Layout, envelope: &Envelope) -> (outcome: Result<String, SerializeError>)
    ensures
        envelope_json(layout, *envelope, outcome),
{
    match project(envelope) {
        Ok(items) => render(layout, &items),
        Err(error) => Err(error),
    }
}

/// Writes the projection of an envelope as compact JSON: an array with one
/// element per item, in the items' order.
pub fn to_json(env: &Envelope) -> (outcome: Result<String, SerializeError>)
    ensures
        envelope_json(Layout::Compact, *env, outcome),
{
    to_json_in(Layout::Compact, env)
}

/// Writes the projection of an envelope as indented JSON: the same array as
/// the compact form, one member or element per line.
pub fn to_json_pretty(env: &Envelope) -> (outcome: Result<String, SerializeError>)
    ensures
        envelope_json(Layout::Pretty, *env, outcome),
{
    to_json_in(Layout::Pretty, env)
}

} // verus!
