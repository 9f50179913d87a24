//! An ingestion fixture for envelopes: it decodes a posted envelope, hands it
//! to the one waiting consumer through a channel with a single slot, and
//! writes the envelope's items as JSON for inspection, with the payload of an
//! attachment summed up by its length.
pub mod endpoint;
pub mod error;
pub mod handoff;
pub mod item;
pub mod json;
pub mod projection;
pub mod records;
pub mod text;

pub use crate::endpoint::{ingest, respond, status_code, IngestError, Request};
pub use crate::error::SerializeError;
pub use crate::handoff::{handoff, pull, push, ChannelClosed};
pub use crate::item::{read_items, AttachmentRef, ItemKind, ItemRef};
pub use crate::json::{render, to_json, to_json_pretty};
pub use crate::projection::{project, AttachmentSerialisable, EnvelopeItemSerialisable};
pub use crate::text::Layout;
