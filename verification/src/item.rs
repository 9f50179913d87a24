//! What an envelope holds, as far as this library reads it: the records of the
//! four structured kinds, and the payload and metadata of an attachment.
use sentry_types::protocol::v7::{
    AttachmentType, Envelope, EnvelopeItem, Event, SessionAggregates, SessionUpdate, Transaction,
};
use vstd::prelude::*;

verus! {

/// A decoded envelope: an ordered sequence of items.
#[verifier::external_type_specification]
#[verifier::external_body]
pub struct ExEnvelope(Envelope);

/// One item of an envelope, of a supported kind or of another.
#[verifier::external_type_specification]
#[verifier::external_body]
pub struct ExEnvelopeItem(EnvelopeItem);

/// A borrowed attachment: its payload and its metadata.
#[derive(Clone, Copy, Debug)]
pub struct AttachmentRef<'a> {
    /// The payload.
    pub buffer: &'a [u8],
    /// The file name.
    pub filename: &'a str,
    /// The declared content type.
    pub content_type: Option<&'a str>,
    /// The canonical name of the attachment's sub-kind.
    pub ty: Option<&'a str>,
}

/// A borrowed item of one of the five supported kinds.
#[derive(Clone, Copy, Debug)]
pub enum ItemRef<'a> {
    /// An error or log record.
    Event(&'a Event<'static>),
    /// The state delta of one session.
    SessionUpdate(&'a SessionUpdate<'static>),
    /// Aggregated counts for several sessions.
    SessionAggregates(&'a SessionAggregates<'static>),
    /// A performance or tracing record.
    Transaction(&'a Transaction<'static>),
    /// A binary payload with its metadata.
    Attachment(AttachmentRef<'a>),
}

/// The five kinds of item that have a projection.
#[derive(Clone, Copy, Debug, PartialEq, Eq, Structural)]
pub enum ItemKind {
    /// An error or log record.
    Event,
    /// The state delta of one session.
    SessionUpdate,
    /// Aggregated counts for several sessions.
    SessionAggregates,
    /// A performance or tracing record.
    Transaction,
    /// A binary payload with its metadata.
    Attachment,
}

/// What an attachment holds.
pub struct AttachmentContent {
    /// The payload.
    pub buffer: Seq<u8>,
    /// The file name.
    pub filename: Seq<char>,
    /// The declared content type.
    pub content_type: Option<Seq<char>>,
    /// The canonical name of the attachment's sub-kind.
    pub ty: Option<Seq<char>>,
}

/// What an item of a supported kind holds.
pub enum ItemContent {
    /// An error or log record.
    Event(Event<'static>),
    /// The state delta of one session.
    SessionUpdate(SessionUpdate<'static>),
    /// Aggregated counts for several sessions.
    SessionAggregates(SessionAggregates<'static>),
    /// A performance or tracing record.
    Transaction(Transaction<'static>),
    /// A binary payload with its metadata.
    Attachment(AttachmentContent),
}

impl ItemContent {
    /// The kind of the item.
    pub open spec fn kind(self) -> ItemKind {
        match self {
            ItemContent::Event(_) => ItemKind::Event,
            ItemContent::SessionUpdate(_) => ItemKind::SessionUpdate,
            ItemContent::SessionAggregates(_) => ItemKind::SessionAggregates,
            ItemContent::Transaction(_) => ItemKind::Transaction,
            ItemContent::Attachment(_) => ItemKind::Attachment,
        }
    }
}

/// The view of an optional text.
pub open spec fn optional_text(text: Option<&str>) -> Option<Seq<char>> {
    match text {
        Some(t) => Some(t@),
        None => None,
    }
}

impl<'a> View for AttachmentRef<'a> {
    type V = AttachmentContent;

    open spec fn view(&self) -> AttachmentContent {
        AttachmentContent {
            buffer: self.buffer@,
            filename: self.filename@,
            content_type: optional_text(self.content_type),
            ty: optional_text(self.ty),
        }
    }
}

impl<'a> View for ItemRef<'a> {
    type V = ItemContent;

    open spec fn view(&self) -> ItemContent {
        match *self {
            ItemRef::Event(record) => ItemContent::Event(*record),
            ItemRef::SessionUpdate(record) => ItemContent::SessionUpdate(*record),
            ItemRef::SessionAggregates(record) => ItemContent::SessionAggregates(*record),
            ItemRef::Transaction(record) => ItemContent::Transaction(*record),
            ItemRef::Attachment(attachment) => ItemContent::Attachment(attachment@),
        }
    }
}

impl<'a> ItemRef<'a> {
    /// The kind of the item.
    pub fn kind(&self) -> (kind: ItemKind)
        ensures
            kind == self@.kind(),
    {
        match self {
            ItemRef::Event(_) => ItemKind::Event,
            ItemRef::SessionUpdate(_) => ItemKind::SessionUpdate,
            ItemRef::SessionAggregates(_) => ItemKind::SessionAggregates,
            ItemRef::Transaction(_) => ItemKind::Transaction,
            ItemRef::Attachment(_) => ItemKind::Attachment,
        }
    }
}

/// What an optional borrowed item holds.
pub open spec fn content(item: Option<ItemRef<'_>>) -> Option<ItemContent> {
    match item {
        Some(r) => Some(r@),
        None => None,
    }
}

/// What a sequence of optional borrowed items holds.
pub open spec fn contents(items: Seq<Option<ItemRef<'_>>>) -> Seq<Option<ItemContent>> {
    Seq::new(items.len(), |i: int| content(items[i]))
}

/// The items of an envelope, in the order in which they were submitted.
pub uninterp spec fn envelope_items(envelope: Envelope) -> Seq<EnvelopeItem>;

/// What an item holds, where it is of a supported kind.
pub uninterp spec fn item_content(item: EnvelopeItem) -> Option<ItemContent>;

/// What an envelope holds: for each item in order its content, or `None` for
/// an item of an unsupported kind.
pub open spec fn envelope_contents(envelope: Envelope) -> Seq<Option<ItemContent>> {
    Seq::new(envelope_items(envelope).len(), |i: int| item_content(envelope_items(envelope)[i]))
}

/// `Envelope::items`, collected: the envelope's items in the order in which
/// they stand in it.
#[verifier::external_body]
pub(crate) fn items_of<'a>(envelope: &'a Envelope) -> (items: Vec<&'a EnvelopeItem>)
    ensures
        items@.len() == envelope_items(*envelope).len(),
        forall|i: int|
            0 <= i < items@.len() ==> *(#[trigger] items@[i]) == envelope_items(*envelope)[i],
{
    envelope.items().collect()
}

/// Tells the variants of `EnvelopeItem` apart and borrows what the item
/// holds; the sub-kind of an attachment is named by `AttachmentType::as_str`.
/// An item of another kind gives `None`.
#[verifier::external_body]
pub(crate) fn item_ref<'a>(item: &'a EnvelopeItem) -> (found: Option<ItemRef<'a>>)
    ensures
        content(found) == item_content(*item),
{
    match item {
        EnvelopeItem::Event(record) => Some(ItemRef::Event(record.as_ref())),
        EnvelopeItem::SessionUpdate(record) => Some(ItemRef::SessionUpdate(record)),
        EnvelopeItem::SessionAggregates(record) => Some(ItemRef::SessionAggregates(record)),
        EnvelopeItem::Transaction(record) => Some(ItemRef::Transaction(record.as_ref())),
        EnvelopeItem::Attachment(attachment) => Some(ItemRef::Attachment(AttachmentRef {
            buffer: attachment.buffer.as_slice(),
            filename: attachment.filename.as_str(),
            content_type: attachment.content_type.as_deref(),
            ty: attachment.ty.as_ref().map(AttachmentType::as_str),
        })),
        _ => None,
    }
}

/// Reads an envelope: its items in order, each borrowed where its kind is
/// supported.
pub fn read_items<'a>(envelope: &'a Envelope) -> (items: Vec<Option<ItemRef<'a>>>)
    ensures
        contents(items@) == envelope_contents(*envelope),
{
    let raw = items_of(envelope);
    let mut items: Vec<Option<ItemRef<'a>>> = Vec::new();
    let mut i: usize = 0;
    while i < raw.len()
        invariant
            i <= raw.len(),
            items@.len() == i,
            raw@.len() == envelope_items(*envelope).len(),
            forall|j: int|
                0 <= j < raw@.len() ==> *(#[trigger] raw@[j]) == envelope_items(*envelope)[j],
            forall|j: int|
                0 <= j < i ==> content(#[trigger] items@[j]) == item_content(
                    envelope_items(*envelope)[j],
                ),
        decreases raw.len() - i,
    {
        items.push(item_ref(raw[i]));
        i += 1;
    }
    assert(contents(items@) =~= envelope_contents(*envelope));
    items
}

} // verus!
