//! The structured records that an envelope carries. They are defined by the
//! wire format's own crate; this library passes them through untouched, copies
//! them, and asks for their JSON text.
use sentry_types::protocol::v7::{Event, SessionAggregates, SessionUpdate, Transaction};
use vstd::prelude::*;

verus! {

/// An error or log record.
#[verifier::external_type_specification]
#[verifier::external_body]
pub struct ExEvent<'a>(Event<'a>);

/// The state delta of one session.
#[verifier::external_type_specification]
#[verifier::external_body]
pub struct ExSessionUpdate<'a>(SessionUpdate<'a>);

/// Aggregated counts for several sessions.
#[verifier::external_type_specification]
#[verifier::external_body]
pub struct ExSessionAggregates<'a>(SessionAggregates<'a>);

/// A performance or tracing record.
#[verifier::external_type_specification]
#[verifier::external_body]
pub struct ExTransaction<'a>(Transaction<'a>);

/// Why a value could not be written as JSON.
#[verifier::external_type_specification]
#[verifier::external_body]
pub struct ExJsonError(serde_json::Error);

/// The compact JSON text of an event, where it has one.
pub uninterp spec fn event_compact(record: Event<'static>) -> Option<Seq<char>>;

/// The indented JSON text of an event, where it has one.
pub uninterp spec fn event_pretty(record: Event<'static>) -> Option<Seq<char>>;

/// The compact JSON text of a session update, where it has one.
pub uninterp spec fn session_update_compact(record: SessionUpdate<'static>) -> Option<Seq<char>>;

/// The indented JSON text of a session update, where it has one.
pub uninterp spec fn session_update_pretty(record: SessionUpdate<'static>) -> Option<Seq<char>>;

/// The compact JSON text of session aggregates, where they have one.
pub uninterp spec fn session_aggregates_compact(record: SessionAggregates<'static>) -> Option<
    Seq<char>,
>;

/// The indented JSON text of session aggregates, where they have one.
pub uninterp spec fn session_aggregates_pretty(record: SessionAggregates<'static>) -> Option<
    Seq<char>,
>;

/// The compact JSON text of a transaction, where it has one.
pub uninterp spec fn transaction_compact(record: Transaction<'static>) -> Option<Seq<char>>;

/// The indented JSON text of a transaction, where it has one.
pub uninterp spec fn transaction_pretty(record: Transaction<'static>) -> Option<Seq<char>>;

/// `Clone::clone` of `Event`, which the record's crate derives: the copy
/// equals the record it was made from.
pub assume_specification<'a>[ <sentry_types::protocol::v7::Event<'a> as Clone>::clone ](
    record: &sentry_types::protocol::v7::Event<'a>,
) -> (copy: sentry_types::protocol::v7::Event<'a>)
    ensures
        copy == *record,
;

/// `Clone::clone` of `SessionUpdate`, which the record's crate derives: the
/// copy equals the record it was made from.
pub assume_specification<'a>[ <sentry_types::protocol::v7::SessionUpdate<'a> as Clone>::clone ](
    record: &sentry_types::protocol::v7::SessionUpdate<'a>,
) -> (copy: sentry_types::protocol::v7::SessionUpdate<'a>)
    ensures
        copy == *record,
;

/// `Clone::clone` of `SessionAggregates`, which the record's crate derives:
/// the copy equals the record it was made from.
pub assume_specification<'a>[ <sentry_types::protocol::v7::SessionAggregates<'a> as Clone>::clone ](
    record: &sentry_types::protocol::v7::SessionAggregates<'a>,
) -> (copy: sentry_types::protocol::v7::SessionAggregates<'a>)
    ensures
        copy == *record,
;

/// `Clone::clone` of `Transaction`, which the record's crate derives: the copy
/// equals the record it was made from.
pub assume_specification<'a>[ <sentry_types::protocol::v7::Transaction<'a> as Clone>::clone ](
    record: &sentry_types::protocol::v7::Transaction<'a>,
) -> (copy: sentry_types::protocol::v7::Transaction<'a>)
    ensures
        copy == *record,
;

/// `serde_json::to_string` on an event: the text depends on the record alone,
/// and so does whether there is one. A failure comes from the record's own
/// serialiser, so the record has a compact text exactly where it has an
/// indented one.
#[verifier::external_body]
pub(crate) fn event_to_string(record: &Event<'static>) -> (text: Result<String, serde_json::Error>)
    ensures
        text is Ok <==> event_compact(*record) is Some,
        text is Ok <==> event_pretty(*record) is Some,
        text matches Ok(t) ==> event_compact(*record) == Some(t@),
{
    serde_json::to_string(record)
}

/// `serde_json::to_string_pretty` on an event: the text depends on the record
/// alone, and so does whether there is one. A failure comes from the record's
/// own serialiser, so the record has a compact text exactly where it has an
/// indented one.
#[verifier::external_body]
pub(crate) fn event_to_string_pretty(record: &Event<'static>) -> (text: Result<
    String,
    serde_json::Error,
>)
    ensures
        text is Ok <==> event_pretty(*record) is Some,
        text is Ok <==> event_compact(*record) is Some,
        text matches Ok(t) ==> event_pretty(*record) == Some(t@),
{
    serde_json::to_string_pretty(record)
}

/// `serde_json::to_string` on a session update: the text depends on the record
/// alone, and so does whether there is one. A failure comes from the record's
/// own serialiser, so the record has a compact text exactly where it has an
/// indented one.
#[verifier::external_body]
pub(crate) fn session_update_to_string(record: &SessionUpdate<'static>) -> (text: Result<
    String,
    serde_json::Error,
>)
    ensures
        text is Ok <==> session_update_compact(*record) is Some,
        text is Ok <==> session_update_pretty(*record) is Some,
        text matches Ok(t) ==> session_update_compact(*record) == Some(t@),
{
    serde_json::to_string(record)
}

/// `serde_json::to_string_pretty` on a session update: the text depends on the
/// record alone, and so does whether there is one. A failure comes from the
/// record's own serialiser, so the record has a compact text exactly where it
/// has an indented one.
#[verifier::external_body]
pub(crate) fn session_update_to_string_pretty(record: &SessionUpdate<'static>) -> (text: Result<
    String,
    serde_json::Error,
>)
    ensures
        text is Ok <==> session_update_pretty(*record) is Some,
        text is Ok <==> session_update_compact(*record) is Some,
        text matches Ok(t) ==> session_update_pretty(*record) == Some(t@),
{
    serde_json::to_string_pretty(record)
}

/// `serde_json::to_string` on session aggregates: the text depends on the
/// record alone, and so does whether there is one. A failure comes from the
/// record's own serialiser, so the record has a compact text exactly where it
/// has an indented one.
#[verifier::external_body]
pub(crate) fn session_aggregates_to_string(record: &SessionAggregates<'static>) -> (text: Result<
    String,
    serde_json::Error,
>)
    ensures
        text is Ok <==> session_aggregates_compact(*record) is Some,
        text is Ok <==> session_aggregates_pretty(*record) is Some,
        text matches Ok(t) ==> session_aggregates_compact(*record) == Some(t@),
{
    serde_json::to_string(record)
}

/// `serde_json::to_string_pretty` on session aggregates: the text depends on
/// the record alone, and so does whether there is one. A failure comes from
/// the record's own serialiser, so the record has a compact text exactly where
/// it has an indented one.
#[verifier::external_body]
pub(crate) fn session_aggregates_to_string_pretty(record: &SessionAggregates<'static>) -> (text:
    Result<String, serde_json::Error>)
    ensures
        text is Ok <==> session_aggregates_pretty(*record) is Some,
        text is Ok <==> session_aggregates_compact(*record) is Some,
        text matches Ok(t) ==> session_aggregates_pretty(*record) == Some(t@),
{
    serde_json::to_string_pretty(record)
}

/// `serde_json::to_string` on a transaction: the text depends on the record
/// alone, and so does whether there is one. A failure comes from the record's
/// own serialiser, so the record has a compact text exactly where it has an
/// indented one.
#[verifier::external_body]
pub(crate) fn transaction_to_string(record: &Transaction<'static>) -> (text: Result<
    String,
    serde_json::Error,
>)
    ensures
        text is Ok <==> transaction_compact(*record) is Some,
        text is Ok <==> transaction_pretty(*record) is Some,
        text matches Ok(t) ==> transaction_compact(*record) == Some(t@),
{
    serde_json::to_string(record)
}

/// `serde_json::to_string_pretty` on a transaction: the text depends on the
/// record alone, and so does whether there is one. A failure comes from the
/// record's own serialiser, so the record has a compact text exactly where it
/// has an indented one.
#[verifier::external_body]
pub(crate) fn transaction_to_string_pretty(record: &Transaction<'static>) -> (text: Result<
    String,
    serde_json::Error,
>)
    ensures
        text is Ok <==> transaction_pretty(*record) is Some,
        text is Ok <==> transaction_compact(*record) is Some,
        text matches Ok(t) ==> transaction_pretty(*record) == Some(t@),
{
    serde_json::to_string_pretty(record)
}

} // verus!
