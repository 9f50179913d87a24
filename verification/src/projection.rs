//! The JSON-safe projection of an envelope's items: records are copied as they
//! are, and an attachment is summed up by the length of its payload and its
//! metadata.
use crate::error::SerializeError;
use crate::item::{
    contents, envelope_contents, item_content, item_ref, optional_text, read_items,
    AttachmentContent, AttachmentRef, ItemContent, ItemKind, ItemRef,
};
use sentry_types::protocol::v7::{
    Envelope, EnvelopeItem, Event, SessionAggregates, SessionUpdate, Transaction,
};
use vstd::prelude::*;
use vstd::std_specs::convert::FromSpecImpl;

verus! {

/// Represents an attachment item: its metadata, and the length of its payload
/// in place of the payload.
#[derive(Debug, PartialEq, Eq)]
pub struct AttachmentSerialisable {
    /// The length of the attachment data, in bytes.
    pub length: u64,
    /// The filename of the attachment.
    pub filename: String,
    /// The Content Type of the attachment
    pub content_type: Option<String>,
    /// The special type of this attachment.
    pub ty: Option<String>,
}

/// An envelope item in a form that can be written as JSON.
#[derive(Debug, PartialEq)]
#[non_exhaustive]
#[allow(clippy::large_enum_variant)]
pub enum EnvelopeItemSerialisable {
    /// An Event Item.
    Event(Event<'static>),
    /// A Session Item.
    SessionUpdate(SessionUpdate<'static>),
    /// A Session Aggregates Item.
    SessionAggregates(SessionAggregates<'static>),
    /// A Transaction Item.
    Transaction(Transaction<'static>),
    /// An Attachment Item.
    Attachment(AttachmentSerialisable),
}

/// What the summary of an attachment says.
pub struct AttachmentSummary {
    /// The length of the payload, in bytes.
    pub length: nat,
    /// The file name.
    pub filename: Seq<char>,
    /// The declared content type.
    pub content_type: Option<Seq<char>>,
    /// The canonical name of the attachment's sub-kind.
    pub ty: Option<Seq<char>>,
}

/// What a projected item says.
pub enum ItemSummary {
    /// An error or log record.
    Event(Event<'static>),
    /// The state delta of one session.
    SessionUpdate(SessionUpdate<'static>),
    /// Aggregated counts for several sessions.
    SessionAggregates(SessionAggregates<'static>),
    /// A performance or tracing record.
    Transaction(Transaction<'static>),
    /// The summary of an attachment.
    Attachment(AttachmentSummary),
}

impl ItemSummary {
    /// The kind of the item.
    pub open spec fn kind(self) -> ItemKind {
        match self {
            ItemSummary::Event(_) => ItemKind::Event,
            ItemSummary::SessionUpdate(_) => ItemKind::SessionUpdate,
            ItemSummary::SessionAggregates(_) => ItemKind::SessionAggregates,
            ItemSummary::Transaction(_) => ItemKind::Transaction,
            ItemSummary::Attachment(_) => ItemKind::Attachment,
        }
    }
}

/// The view of an optional string.
pub open spec fn optional_string(text: Option<String>) -> Option<Seq<char>> {
    match text {
        Some(t) => Some(t@),
        None => None,
    }
}

impl View for AttachmentSerialisable {
    type V = AttachmentSummary;

    open spec fn view(&self) -> AttachmentSummary {
        AttachmentSummary {
            length: self.length as nat,
            filename: self.filename@,
            content_type: optional_string(self.content_type),
            ty: optional_string(self.ty),
        }
    }
}

impl View for EnvelopeItemSerialisable {
    type V = ItemSummary;

    open spec fn view(&self) -> ItemSummary {
        match *self {
            EnvelopeItemSerialisable::Event(record) => ItemSummary::Event(record),
            EnvelopeItemSerialisable::SessionUpdate(record) => ItemSummary::SessionUpdate(record),
            EnvelopeItemSerialisable::SessionAggregates(record) => ItemSummary::SessionAggregates(
                record,
            ),
            EnvelopeItemSerialisable::Transaction(record) => ItemSummary::Transaction(record),
            EnvelopeItemSerialisable::Attachment(attachment) => ItemSummary::Attachment(
                attachment@,
            ),
        }
    }
}

/// The summary of an attachment: the length of its payload, and its metadata
/// as it stands.
pub open spec fn summary(attachment: AttachmentContent) -> AttachmentSummary {
    AttachmentSummary {
        length: attachment.buffer.len(),
        filename: attachment.filename,
        content_type: attachment.content_type,
        ty: attachment.ty,
    }
}

/// The projection of one item: a record as it stands, an attachment as its
/// summary.
pub open spec fn projected(item: ItemContent) -> ItemSummary {
    match item {
        ItemContent::Event(record) => ItemSummary::Event(record),
        ItemContent::SessionUpdate(record) => ItemSummary::SessionUpdate(record),
        ItemContent::SessionAggregates(record) => ItemSummary::SessionAggregates(record),
        ItemContent::Transaction(record) => ItemSummary::Transaction(record),
        ItemContent::Attachment(attachment) => ItemSummary::Attachment(summary(attachment)),
    }
}

/// Whether every item is of a supported kind.
pub open spec fn supported(contents: Seq<Option<ItemContent>>) -> bool {
    forall|i: int| 0 <= i < contents.len() ==> (#[trigger] contents[i]) is Some
}

/// Whether the item at `index` is the first of an unsupported kind.
pub open spec fn first_unsupported(contents: Seq<Option<ItemContent>>, index: int) -> bool {
    &&& 0 <= index < contents.len()
    &&& contents[index] is None
    &&& forall|i: int| 0 <= i < index ==> (#[trigger] contents[i]) is Some
}

/// The projection of a sequence of supported items: item by item, in the same
/// order.
pub open spec fn projection(contents: Seq<Option<ItemContent>>) -> Seq<ItemSummary> {
    Seq::new(contents.len(), |i: int| projected(contents[i]->0))
}

/// The views of a sequence of projected items.
pub open spec fn summaries(items: Seq<EnvelopeItemSerialisable>) -> Seq<ItemSummary> {
    Seq::new(items.len(), |i: int| items[i]@)
}

impl EnvelopeItemSerialisable {
    /// Projects one item of an envelope, where its kind is supported.
    pub fn from_item(item: &EnvelopeItem) -> (projection: Option<Self>)
        ensures
            match item_content(*item) {
                Some(content) => projection matches Some(p) && p@ == projected(content),
                None => projection is None,
            },
    {
        match item_ref(item) {
            Some(found) => Some(EnvelopeItemSerialisable::from(&found)),
            None => None,
        }
    }

    /// The kind of the item.
    pub fn kind(&self) -> (kind: ItemKind)
        ensures
            kind == self@.kind(),
    {
        match self {
            EnvelopeItemSerialisable::Event(_) => ItemKind::Event,
            EnvelopeItemSerialisable::SessionUpdate(_) => ItemKind::SessionUpdate,
            EnvelopeItemSerialisable::SessionAggregates(_) => ItemKind::SessionAggregates,
            EnvelopeItemSerialisable::Transaction(_) => ItemKind::Transaction,
            EnvelopeItemSerialisable::Attachment(_) => ItemKind::Attachment,
        }
    }
}

impl Default for AttachmentSerialisable {
    fn default() -> (attachment: Self)
        ensures
            attachment@ == (AttachmentSummary {
                length: 0,
                filename: Seq::empty(),
                content_type: None,
                ty: None,
            }),
    {
        AttachmentSerialisable {
            length: 0,
            filename: String::new(),
            content_type: None,
            ty: None,
        }
    }
}

/// Copies an optional string.
fn copied(text: &Option<String>) -> (copy: Option<String>)
    ensures
        optional_string(copy) == optional_string(*text),
{
    match text {
        Some(t) => Some(t.clone()),
        None => None,
    }
}

impl Clone for AttachmentSerialisable {
    fn clone(&self) -> (copy: Self)
        ensures
            copy@ == self@,
    {
        AttachmentSerialisable {
            length: self.length,
            filename: self.filename.clone(),
            content_type: copied(&self.content_type),
            ty: copied(&self.ty),
        }
    }
}

impl Clone for EnvelopeItemSerialisable {
    fn clone(&self) -> (copy: Self)
        ensures
            copy@ == self@,
    {
        match self {
            EnvelopeItemSerialisable::Event(record) => Self::Event(record.clone()),
            EnvelopeItemSerialisable::SessionUpdate(record) => Self::SessionUpdate(record.clone()),
            EnvelopeItemSerialisable::SessionAggregates(record) => Self::SessionAggregates(
                record.clone(),
            ),
            EnvelopeItemSerialisable::Transaction(record) => Self::Transaction(record.clone()),
            EnvelopeItemSerialisable::Attachment(attachment) => Self::Attachment(
                attachment.clone(),
            ),
        }
    }
}

/// Copies an optional text.
fn owned(text: Option<&str>) -> (copy: Option<String>)
    ensures
        optional_string(copy) == optional_text(text),
{
    match text {
        Some(t) => Some(t.to_owned()),
        None => None,
    }
}

impl<'a> From<&AttachmentRef<'a>> for AttachmentSerialisable {
    /// Sums an attachment up: the length of its payload, and a copy of its
    /// metadata.
    fn from(attachment: &AttachmentRef<'a>) -> (projection: Self)
        ensures
            projection@ == summary(attachment@),
            projection.length == attachment.buffer@.len(),
    {
        AttachmentSerialisable {
            length: attachment.buffer.len() as u64,
            filename: attachment.filename.to_owned(),
            content_type: owned(attachment.content_type),
            ty: owned(attachment.ty),
        }
    }
}

/// What the conversion gives is stated over views, on `from` itself.
impl<'a> FromSpecImpl<&AttachmentRef<'a>> for AttachmentSerialisable {
    open spec fn obeys_from_spec() -> bool {
        false
    }

    open spec fn from_spec(attachment: &AttachmentRef<'a>) -> Self {
        arbitrary()
    }
}

impl<'a> From<&ItemRef<'a>> for EnvelopeItemSerialisable {
    /// Projects one item: a record is copied, an attachment is summed up.
    fn from(item: &ItemRef<'a>) -> (projection: Self)
        ensures
            projection@ == projected(item@),
    {
        match item {
            ItemRef::Event(record) => Self::Event((*record).clone()),
            ItemRef::SessionUpdate(record) => Self::SessionUpdate((*record).clone()),
            ItemRef::SessionAggregates(record) => Self::SessionAggregates((*record).clone()),
            ItemRef::Transaction(record) => Self::Transaction((*record).clone()),
            ItemRef::Attachment(attachment) => Self::Attachment(
                AttachmentSerialisable::from(attachment),
            ),
        }
    }
}

/// What the conversion gives is stated over views, on `from` itself.
impl<'a> FromSpecImpl<&ItemRef<'a>> for EnvelopeItemSerialisable {
    open spec fn obeys_from_spec() -> bool {
        false
    }

    open spec fn from_spec(item: &ItemRef<'a>) -> Self {
        arbitrary()
    }
}

/// The summary of an attachment gives the exact length of its payload,
/// whatever that length is, zero included, and the metadata unchanged.
pub proof fn lemma_attachment_length(attachment: AttachmentContent)
    ensures
        projected(ItemContent::Attachment(attachment)) == ItemSummary::Attachment(
            summary(attachment),
        ),
        summary(attachment).length == attachment.buffer.len(),
        summary(attachment).filename == attachment.filename,
        summary(attachment).content_type == attachment.content_type,
        summary(attachment).ty == attachment.ty,
{
}

/// The projection has one item per item of the envelope, and the item at each
/// place is the projection of the item at that place, of the same kind.
pub proof fn lemma_projection_keeps_order(contents: Seq<Option<ItemContent>>)
    requires
        supported(contents),
    ensures
        projection(contents).len() == contents.len(),
        forall|i: int|
            0 <= i < contents.len() ==> (#[trigger] projection(contents)[i]) == projected(
                contents[i]->0,
            ),
        forall|i: int|
            0 <= i < contents.len() ==> (#[trigger] projection(contents)[i]).kind() == (
            contents[i]->0).kind(),
{
}

/// Projects items in order. Fails at the first item of an unsupported kind.
pub fn project_items(items: &Vec<Option<ItemRef<'_>>>) -> (outcome: Result<
    Vec<EnvelopeItemSerialisable>,
    SerializeError,
>)
    ensures
        match outcome {
            Ok(projections) => supported(contents(items@)) && summaries(projections@)
                == projection(contents(items@)),
            Err(SerializeError::UnsupportedItemKind(index)) => first_unsupported(
                contents(items@),
                index as int,
            ),
            Err(SerializeError::Json(_)) => false,
        },
{
    let mut projections: Vec<EnvelopeItemSerialisable> = Vec::new();
    let mut i: usize = 0;
    while i < items.len()
        invariant
            i <= items.len(),
            projections@.len() == i,
            forall|j: int| 0 <= j < i ==> (#[trigger] contents(items@)[j]) is Some,
            forall|j: int|
                0 <= j < i ==> (#[trigger] projections@[j])@ == projected(contents(items@)[j]->0),
        decreases items.len() - i,
    {
        match &items[i] {
            Some(item) => {
                projections.push(EnvelopeItemSerialisable::from(item));
            },
            None => {
                return Err(SerializeError::UnsupportedItemKind(i));
            },
        }
        i += 1;
    }
    assert(summaries(projections@) =~= projection(contents(items@)));
    Ok(projections)
}

/// Projects the items of an envelope in order. Fails at the first item of an
/// unsupported kind.
pub fn project(envelope: &Envelope) -> (outcome: Result<
    Vec<EnvelopeItemSerialisable>,
    SerializeError,
>)
    ensures
        match outcome {
            Ok(projections) => supported(envelope_contents(*envelope)) && summaries(projections@)
                == projection(envelope_contents(*envelope)),
            Err(SerializeError::UnsupportedItemKind(index)) => first_unsupported(
                envelope_contents(*envelope),
                index as int,
            ),
            Err(SerializeError::Json(_)) => false,
        },
{
    let items = read_items(envelope);
    project_items(&items)
}

} // verus!
