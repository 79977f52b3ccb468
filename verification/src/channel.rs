//! `shrev` event channels, as far as the engine and the life tracker use
//! them. Nothing in this file is proved: each contract restates what `shrev`
//! documents of the method it calls.

use crate::events::{BlockCollisionEvent, LifeEvent, ScoreEvent, StopBallAttractionEvent};
use shrev::{EventChannel, ReaderId};
use vstd::prelude::*;

verus! {

/// `shrev::EventChannel`, opaque to the verifier.
#[verifier::external_type_specification]
#[verifier::external_body]
#[verifier::reject_recursive_types(E)]
pub struct ExEventChannel<E>(shrev::EventChannel<E>);

/// `shrev::ReaderId`, opaque to the verifier.
#[verifier::external_type_specification]
#[verifier::external_body]
#[verifier::reject_recursive_types(T)]
pub struct ExReaderId<T: 'static>(shrev::ReaderId<T>);

/// Every block hit written to the channel since it was made, oldest first.
pub uninterp spec fn block_hits_written(channel: EventChannel<BlockCollisionEvent>) -> Seq<
    BlockCollisionEvent,
>;

/// Every life event written to the channel since it was made, oldest first.
pub uninterp spec fn life_events_written(channel: EventChannel<LifeEvent>) -> Seq<LifeEvent>;

/// Every score event written to the channel since it was made, oldest first.
pub uninterp spec fn score_events_written(channel: EventChannel<ScoreEvent>) -> Seq<ScoreEvent>;

/// Every stop event written to the channel since it was made, oldest first.
pub uninterp spec fn stop_events_written(channel: EventChannel<StopBallAttractionEvent>) -> Seq<
    StopBallAttractionEvent,
>;

/// The mark that `shrev` gives a channel when it is made, and by which it
/// tells its own readers from those of other channels.
pub uninterp spec fn life_channel_mark(channel: EventChannel<LifeEvent>) -> int;

/// The mark of the channel that registered the reader.
pub uninterp spec fn life_reader_mark(reader: ReaderId<LifeEvent>) -> int;

/// How many of the channel's life events lie behind the reader: those written
/// before it was registered, and those it has read.
pub uninterp spec fn life_reader_position(reader: ReaderId<LifeEvent>) -> nat;

/// `EventChannel::single_write`: the event becomes the newest of the channel.
#[verifier::external_body]
pub(crate) fn write_block_hit(
    channel: &mut EventChannel<BlockCollisionEvent>,
    event: BlockCollisionEvent,
)
    ensures
        block_hits_written(*final(channel)) == block_hits_written(*old(channel)).push(event),
{
    channel.single_write(event)
}

/// `EventChannel::single_write`: the event becomes the newest of the channel,
/// which stays the channel it was.
#[verifier::external_body]
pub(crate) fn write_life_event(channel: &mut EventChannel<LifeEvent>, event: LifeEvent)
    ensures
        life_events_written(*final(channel)) == life_events_written(*old(channel)).push(event),
        life_channel_mark(*final(channel)) == life_channel_mark(*old(channel)),
{
    channel.single_write(event)
}

/// `EventChannel::single_write`: the event becomes the newest of the channel.
#[verifier::external_body]
pub(crate) fn write_score_event(channel: &mut EventChannel<ScoreEvent>, event: ScoreEvent)
    ensures
        score_events_written(*final(channel)) == score_events_written(*old(channel)).push(event),
{
    channel.single_write(event)
}

/// `EventChannel::single_write`: the event becomes the newest of the channel.
#[verifier::external_body]
pub(crate) fn write_stop_event(
    channel: &mut EventChannel<StopBallAttractionEvent>,
    event: StopBallAttractionEvent,
)
    ensures
        stop_events_written(*final(channel)) == stop_events_written(*old(channel)).push(event),
{
    channel.single_write(event)
}

/// `EventChannel::register_reader`: the new reader belongs to this channel and
/// stands behind everything written so far. The channel's events are as they
/// were.
#[verifier::external_body]
pub(crate) fn register_life_reader(channel: &mut EventChannel<LifeEvent>) -> (reader: ReaderId<
    LifeEvent,
>)
    ensures
        life_reader_mark(reader) == life_channel_mark(*final(channel)),
        life_reader_position(reader) == life_events_written(*final(channel)).len(),
        life_events_written(*final(channel)) == life_events_written(*old(channel)),
        life_channel_mark(*final(channel)) == life_channel_mark(*old(channel)),
{
    channel.register_reader()
}

/// `EventChannel::read`, collected: the events written since the reader last
/// read (or was registered), oldest first; the reader then stands behind all
/// of them. `shrev` panics on a reader of another channel.
#[verifier::external_body]
pub(crate) fn read_life_events(
    channel: &EventChannel<LifeEvent>,
    reader: &mut ReaderId<LifeEvent>,
) -> (events: Vec<LifeEvent>)
    requires
        life_reader_mark(*old(reader)) == life_channel_mark(*channel),
        life_reader_position(*old(reader)) <= life_events_written(*channel).len(),
    ensures
        events@ == life_events_written(*channel).subrange(
            life_reader_position(*old(reader)) as int,
            life_events_written(*channel).len() as int,
        ),
        life_reader_position(*final(reader)) == life_events_written(*channel).len(),
        life_reader_mark(*final(reader)) == life_reader_mark(*old(reader)),
{
    channel.read(reader).copied().collect()
}

} // verus!
