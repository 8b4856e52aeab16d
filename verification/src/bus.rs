//! The bus of classified events: a broadcast log with independent readers.
//!
//! The log itself is `shrev::EventChannel`. Nothing of it is verified here:
//! the items of this file state, without proof, what the channel does, and the
//! rest of the crate is proved against these statements.

use vstd::prelude::*;
use shrev::{EventChannel, ReaderId};
use crate::events::FilteredInputEvent;

verus! {

/// `shrev::EventChannel`, opaque to the verifier.
#[verifier::external_type_specification]
#[verifier::external_body]
#[verifier::reject_recursive_types(E)]
pub struct ExEventChannel<E>(EventChannel<E>);

/// `shrev::ReaderId`, opaque to the verifier.
#[verifier::external_type_specification]
#[verifier::external_body]
#[verifier::reject_recursive_types(T)]
pub struct ExReaderId<T: 'static>(ReaderId<T>);

/// Every event written to the channel since it was made, oldest first.
pub uninterp spec fn published(channel: EventChannel<FilteredInputEvent>) -> Seq<FilteredInputEvent>;

/// The identity that a channel hands to the readers it registers.
pub uninterp spec fn channel_identity(channel: EventChannel<FilteredInputEvent>) -> int;

/// The identity of the channel that registered the reader.
pub uninterp spec fn reader_source(reader: ReaderId<FilteredInputEvent>) -> int;

/// How many events of its channel's log the reader has gone past.
pub uninterp spec fn cursor(reader: ReaderId<FilteredInputEvent>) -> nat;

/// The reader was registered by this channel and has not gone past its end.
pub open spec fn reads_from(
    reader: ReaderId<FilteredInputEvent>,
    channel: EventChannel<FilteredInputEvent>,
) -> bool {
    reader_source(reader) == channel_identity(channel) && cursor(reader) <= published(channel).len()
}

/// The events that the reader has not seen yet, oldest first.
pub open spec fn pending(
    reader: ReaderId<FilteredInputEvent>,
    channel: EventChannel<FilteredInputEvent>,
) -> Seq<FilteredInputEvent> {
    published(channel).subrange(cursor(reader) as int, published(channel).len() as int)
}

/// Calls `shrev::EventChannel::new`. Claims that nothing has been written to
/// the new channel.
#[verifier::external_body]
pub(crate) fn channel_new() -> (channel: EventChannel<FilteredInputEvent>)
    ensures
        published(channel) == Seq::<FilteredInputEvent>::empty(),
{
    EventChannel::new()
}

/// Calls `shrev::EventChannel::register_reader`. Claims that the channel's log
/// and identity stay, and that the new reader belongs to the channel and
/// stands at the end of its log, so that it sees only later events.
#[verifier::external_body]
pub(crate) fn channel_register_reader(channel: &mut EventChannel<FilteredInputEvent>) -> (reader: ReaderId<FilteredInputEvent>)
    ensures
        published(*final(channel)) == published(*old(channel)),
        channel_identity(*final(channel)) == channel_identity(*old(channel)),
        reader_source(reader) == channel_identity(*old(channel)),
        cursor(reader) == published(*old(channel)).len(),
{
    channel.register_reader()
}

/// Calls `shrev::EventChannel::single_write`. Claims that the event is added
/// at the end of the log and that the channel keeps its identity.
#[verifier::external_body]
pub(crate) fn channel_single_write(channel: &mut EventChannel<FilteredInputEvent>, event: FilteredInputEvent)
    ensures
        published(*final(channel)) == published(*old(channel)).push(event),
        channel_identity(*final(channel)) == channel_identity(*old(channel)),
{
    channel.single_write(event)
}

/// Calls `shrev::EventChannel::read` and copies out what it yields. Asks that
/// the reader was registered by this channel (the call panics otherwise).
/// Claims that the events come out that were written since the reader's last
/// read, oldest first, and that the reader then stands at the end of the log.
#[verifier::external_body]
pub(crate) fn channel_read(channel: &EventChannel<FilteredInputEvent>, reader: &mut ReaderId<FilteredInputEvent>) -> (events: Vec<FilteredInputEvent>)
    requires
        reads_from(*old(reader), *channel),
    ensures
        events@ == pending(*old(reader), *channel),
        reader_source(*final(reader)) == reader_source(*old(reader)),
        cursor(*final(reader)) == published(*channel).len(),
{
    channel.read(reader).map(|event| event.duplicate()).collect()
}

} // verus!
