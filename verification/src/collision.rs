//! The collision engine: one pass over the balls per tick.
//!
//! For each free ball the checks run in a fixed order: left wall, right wall,
//! top wall, bottom, paddle, blocks. A ball that reaches the bottom is lost and
//! is checked no further. Without a paddle no ball is lost and none bounces off
//! it; walls and blocks are checked all the same.

use crate::channel::{
    block_hits_written, life_channel_mark, life_events_written, score_events_written,
    stop_events_written, write_block_hit, write_life_event, write_score_event, write_stop_event,
};
use crate::contact::{BallContact, BallResponse};
use crate::events::{
    BlockCollisionEvent, Entity, LifeEvent, ScoreEvent, StopBallAttractionEvent, BLOCK_HIT_SCORE,
    LIFE_LOST_SCORE,
};
use shrev::EventChannel;
use vstd::prelude::*;

verus! {

/// The events of one tick, one list for each channel, oldest first.
#[derive(Debug, PartialEq, Eq)]
pub struct TickEvents {
    pub block_hits: Vec<BlockCollisionEvent>,
    pub lives: Vec<LifeEvent>,
    pub scores: Vec<ScoreEvent>,
    pub stops: Vec<StopBallAttractionEvent>,
}

/// Four sequences of events, one for each channel, oldest first.
#[verifier::ext_equal]
pub struct EventLog {
    pub block_hits: Seq<BlockCollisionEvent>,
    pub lives: Seq<LifeEvent>,
    pub scores: Seq<ScoreEvent>,
    pub stops: Seq<StopBallAttractionEvent>,
}

impl EventLog {
    /// No event on any channel.
    pub open spec fn empty() -> EventLog {
        EventLog {
            block_hits: Seq::empty(),
            lives: Seq::empty(),
            scores: Seq::empty(),
            stops: Seq::empty(),
        }
    }

    /// On each channel, the events of `self` followed by those of `later`.
    pub open spec fn followed_by(self, later: EventLog) -> EventLog {
        EventLog {
            block_hits: self.block_hits + later.block_hits,
            lives: self.lives + later.lives,
            scores: self.scores + later.scores,
            stops: self.stops + later.stops,
        }
    }
}

impl View for TickEvents {
    type V = EventLog;

    open spec fn view(&self) -> EventLog {
        EventLog {
            block_hits: self.block_hits@,
            lives: self.lives@,
            scores: self.scores@,
            stops: self.stops@,
        }
    }
}

impl TickEvents {
    /// A batch without events.
    pub fn new() -> (events: TickEvents)
        ensures
            events@ == EventLog::empty(),
    {
        TickEvents {
            block_hits: Vec::new(),
            lives: Vec::new(),
            scores: Vec::new(),
            stops: Vec::new(),
        }
    }
}

/// One hit for each block whose flag is set, in the order of the compound.
/// `entities[i]` is the block behind rectangle `i`, so the two lists must be
/// of one length; where they are not, no block is named.
pub open spec fn touched_blocks(entities: Seq<Entity>, flags: Seq<bool>) -> Seq<
    BlockCollisionEvent,
>
    decreases flags.len(),
{
    if flags.len() == 0 || entities.len() != flags.len() {
        Seq::empty()
    } else {
        let before = touched_blocks(entities.drop_last(), flags.drop_last());
        if flags.last() {
            before.push(BlockCollisionEvent { entity: entities.last() })
        } else {
            before
        }
    }
}

/// `count` times the score of a block.
pub open spec fn block_scores(count: nat) -> Seq<ScoreEvent> {
    Seq::new(count, |i: int| ScoreEvent { score: BLOCK_HIT_SCORE })
}

/// The events that one ball raises in a tick.
pub open spec fn ball_events(
    has_paddle: bool,
    ball: BallContact,
    entities: Seq<Entity>,
    time: u64,
) -> EventLog {
    let stop = seq![StopBallAttractionEvent { collision_time: time }];
    if ball.loses_life(has_paddle) {
        EventLog {
            block_hits: Seq::empty(),
            lives: seq![LifeEvent],
            scores: seq![ScoreEvent { score: LIFE_LOST_SCORE }],
            stops: Seq::empty(),
        }
    } else {
        let hits = if ball.hits_blocks(has_paddle) {
            touched_blocks(entities, ball.blocks@)
        } else {
            Seq::empty()
        };
        EventLog {
            block_hits: hits,
            lives: Seq::empty(),
            scores: block_scores(hits.len()),
            stops: (if ball.hits_paddle(has_paddle) {
                stop
            } else {
                Seq::empty()
            }) + (if ball.hits_blocks(has_paddle) {
                stop
            } else {
                Seq::empty()
            }),
        }
    }
}

/// The events of a whole tick: those of each ball, in the order of the balls.
pub open spec fn tick_events(
    has_paddle: bool,
    balls: Seq<BallContact>,
    entities: Seq<Entity>,
    time: u64,
) -> EventLog
    decreases balls.len(),
{
    if balls.len() == 0 {
        EventLog::empty()
    } else {
        tick_events(has_paddle, balls.drop_last(), entities, time).followed_by(
            ball_events(has_paddle, balls.last(), entities, time),
        )
    }
}

/// The response of each ball, in the order of the balls.
pub open spec fn tick_responses(has_paddle: bool, balls: Seq<BallContact>) -> Seq<BallResponse> {
    Seq::new(balls.len(), |i: int| balls[i].response(has_paddle))
}

/// The collision engine. It keeps nothing from one tick to the next.
pub struct CollisionSystem;

impl CollisionSystem {
    /// Resolves one ball: returns what the ball has to do and appends the
    /// events it raises to `events`. `has_paddle` tells whether there is a
    /// paddle, `block_entities[i]` is the block behind rectangle `i` of the
    /// compound.
    pub fn collide_ball(
        has_paddle: bool,
        ball: &BallContact,
        block_entities: &Vec<Entity>,
        time: u64,
        events: &mut TickEvents,
    ) -> (response: BallResponse)
        ensures
            response == ball.response(has_paddle),
            final(events)@ == old(events)@.followed_by(
                ball_events(has_paddle, *ball, block_entities@, time),
            ),
    {
        let ghost before = events@;
        let ghost raised = ball_events(has_paddle, *ball, block_entities@, time);
        let response = ball.respond(has_paddle);
        if response.life_lost {
            events.lives.push(LifeEvent);
            events.scores.push(ScoreEvent { score: LIFE_LOST_SCORE });
            assert(events@ =~= before.followed_by(raised));
            return response;
        }
        if response.paddle_bounce {
            events.stops.push(StopBallAttractionEvent { collision_time: time });
        }
        if response.block_bounce {
            events.stops.push(StopBallAttractionEvent { collision_time: time });
            let count: usize = ball.blocks.len();
            if count == block_entities.len() {
                let mut index: usize = 0;
                while index < count
                    invariant
                        index <= count,
                        count == ball.blocks@.len(),
                        count == block_entities@.len(),
                        events.lives@ == before.lives,
                        events.stops@ == before.stops + raised.stops,
                        events.block_hits@ == before.block_hits + touched_blocks(
                            block_entities@.take(index as int),
                            ball.blocks@.take(index as int),
                        ),
                        events.scores@ == before.scores + block_scores(
                            touched_blocks(
                                block_entities@.take(index as int),
                                ball.blocks@.take(index as int),
                            ).len(),
                        ),
                    decreases count - index,
                {
                    proof {
                        let next = index + 1;
                        assert(block_entities@.take(next).drop_last() =~= block_entities@.take(
                            index as int,
                        ));
                        assert(ball.blocks@.take(next).drop_last() =~= ball.blocks@.take(
                            index as int,
                        ));
                    }
                    if ball.blocks[index] {
                        let entity = block_entities[index];
                        events.block_hits.push(BlockCollisionEvent { entity });
                        events.scores.push(ScoreEvent { score: BLOCK_HIT_SCORE });
                    }
                    index += 1;
                }
                proof {
                    assert(block_entities@.take(count as int) =~= block_entities@);
                    assert(ball.blocks@.take(count as int) =~= ball.blocks@);
                }
            }
        }
        assert(events@ =~= before.followed_by(raised));
        response
    }

    /// Resolves every ball of a tick, in order, and returns the responses with
    /// the events raised.
    pub fn collide(
        has_paddle: bool,
        balls: &Vec<BallContact>,
        block_entities: &Vec<Entity>,
        time: u64,
    ) -> (out: (Vec<BallResponse>, TickEvents))
        ensures
            out.0@ == tick_responses(has_paddle, balls@),
            out.1@ == tick_events(has_paddle, balls@, block_entities@, time),
    {
        let mut responses: Vec<BallResponse> = Vec::new();
        let mut events = TickEvents::new();
        let mut index: usize = 0;
        while index < balls.len()
            invariant
                index <= balls@.len(),
                responses@ == tick_responses(has_paddle, balls@.take(index as int)),
                events@ == tick_events(
                    has_paddle,
                    balls@.take(index as int),
                    block_entities@,
                    time,
                ),
            decreases balls@.len() - index,
        {
            proof {
                assert(balls@.take(index + 1).drop_last() =~= balls@.take(index as int));
            }
            let response = Self::collide_ball(
                has_paddle,
                &balls[index],
                block_entities,
                time,
                &mut events,
            );
            responses.push(response);
            index += 1;
            assert(responses@ =~= tick_responses(has_paddle, balls@.take(index as int)));
        }
        proof {
            assert(balls@.take(index as int) =~= balls@);
        }
        (responses, events)
    }

    /// Runs one tick: resolves every ball, writes the events to the four
    /// channels in the order raised, and returns the responses, one for each
    /// ball.
    pub fn run(
        &mut self,
        has_paddle: bool,
        balls: &Vec<BallContact>,
        block_entities: &Vec<Entity>,
        time: u64,
        block_collision_event_channel: &mut EventChannel<BlockCollisionEvent>,
        life_event_channel: &mut EventChannel<LifeEvent>,
        score_event_channel: &mut EventChannel<ScoreEvent>,
        stop_ball_attraction_event_channel: &mut EventChannel<StopBallAttractionEvent>,
    ) -> (responses: Vec<BallResponse>)
        ensures
            responses@ == tick_responses(has_paddle, balls@),
            block_hits_written(*final(block_collision_event_channel)) == block_hits_written(
                *old(block_collision_event_channel),
            ) + tick_events(has_paddle, balls@, block_entities@, time).block_hits,
            life_events_written(*final(life_event_channel)) == life_events_written(
                *old(life_event_channel),
            ) + tick_events(has_paddle, balls@, block_entities@, time).lives,
            life_channel_mark(*final(life_event_channel)) == life_channel_mark(
                *old(life_event_channel),
            ),
            score_events_written(*final(score_event_channel)) == score_events_written(
                *old(score_event_channel),
            ) + tick_events(has_paddle, balls@, block_entities@, time).scores,
            stop_events_written(*final(stop_ball_attraction_event_channel)) == stop_events_written(
                *old(stop_ball_attraction_event_channel),
            ) + tick_events(has_paddle, balls@, block_entities@, time).stops,
    {
        let (responses, events) = Self::collide(has_paddle, balls, block_entities, time);
        publish_block_hits(block_collision_event_channel, &events.block_hits);
        publish_life_events(life_event_channel, &events.lives);
        publish_score_events(score_event_channel, &events.scores);
        publish_stop_events(stop_ball_attraction_event_channel, &events.stops);
        responses
    }
}

/// Writes the events to the channel, oldest first.
fn publish_block_hits(
    channel: &mut EventChannel<BlockCollisionEvent>,
    events: &Vec<BlockCollisionEvent>,
)
    ensures
        block_hits_written(*final(channel)) == block_hits_written(*old(channel)) + events@,
{
    let ghost before = block_hits_written(*channel);
    let mut index: usize = 0;
    while index < events.len()
        invariant
            index <= events@.len(),
            block_hits_written(*channel) == before + events@.take(index as int),
        decreases events@.len() - index,
    {
        write_block_hit(channel, events[index]);
        index += 1;
        assert(block_hits_written(*channel) =~= before + events@.take(index as int));
    }
    assert(events@.take(index as int) =~= events@);
}

/// Writes the events to the channel, oldest first.
fn publish_life_events(channel: &mut EventChannel<LifeEvent>, events: &Vec<LifeEvent>)
    ensures
        life_events_written(*final(channel)) == life_events_written(*old(channel)) + events@,
        life_channel_mark(*final(channel)) == life_channel_mark(*old(channel)),
{
    let ghost before = life_events_written(*channel);
    let mut index: usize = 0;
    while index < events.len()
        invariant
            index <= events@.len(),
            life_events_written(*channel) == before + events@.take(index as int),
            life_channel_mark(*channel) == life_channel_mark(*old(channel)),
        decreases events@.len() - index,
    {
        write_life_event(channel, events[index]);
        index += 1;
        assert(life_events_written(*channel) =~= before + events@.take(index as int));
    }
    assert(events@.take(index as int) =~= events@);
}

/// Writes the events to the channel, oldest first.
fn publish_score_events(channel: &mut EventChannel<ScoreEvent>, events: &Vec<ScoreEvent>)
    ensures
        score_events_written(*final(channel)) == score_events_written(*old(channel)) + events@,
{
    let ghost before = score_events_written(*channel);
    let mut index: usize = 0;
    while index < events.len()
        invariant
            index <= events@.len(),
            score_events_written(*channel) == before + events@.take(index as int),
        decreases events@.len() - index,
    {
        write_score_event(channel, events[index]);
        index += 1;
        assert(score_events_written(*channel) =~= before + events@.take(index as int));
    }
    assert(events@.take(index as int) =~= events@);
}

/// Writes the events to the channel, oldest first.
fn publish_stop_events(
    channel: &mut EventChannel<StopBallAttractionEvent>,
    events: &Vec<StopBallAttractionEvent>,
)
    ensures
        stop_events_written(*final(channel)) == stop_events_written(*old(channel)) + events@,
{
    let ghost before = stop_events_written(*channel);
    let mut index: usize = 0;
    while index < events.len()
        invariant
            index <= events@.len(),
            stop_events_written(*channel) == before + events@.take(index as int),
        decreases events@.len() - index,
    {
        write_stop_event(channel, events[index]);
        index += 1;
        assert(stop_events_written(*channel) =~= before + events@.take(index as int));
    }
    assert(events@.take(index as int) =~= events@);
}

/// How many flags are set.
pub open spec fn overlap_count(flags: Seq<bool>) -> nat
    decreases flags.len(),
{
    if flags.len() == 0 {
        0
    } else {
        overlap_count(flags.drop_last()) + if flags.last() {
            1nat
        } else {
            0nat
        }
    }
}

/// The hit names a block whose flag is set.
pub open spec fn names_overlapped(
    hit: BlockCollisionEvent,
    entities: Seq<Entity>,
    flags: Seq<bool>,
) -> bool {
    exists|i: int| 0 <= i < flags.len() && #[trigger] flags[i] && hit.entity == entities[i]
}

/// With one block behind each rectangle, the hits are as many as the flags
/// that are set; each hit names a block whose flag is set, and each such block
/// is named by a hit.
pub proof fn lemma_touched_blocks(entities: Seq<Entity>, flags: Seq<bool>)
    requires
        entities.len() == flags.len(),
    ensures
        touched_blocks(entities, flags).len() == overlap_count(flags),
        forall|k: int|
            0 <= k < touched_blocks(entities, flags).len() ==> names_overlapped(
                #[trigger] touched_blocks(entities, flags)[k],
                entities,
                flags,
            ),
        forall|i: int|
            0 <= i < flags.len() && #[trigger] flags[i] ==> touched_blocks(
                entities,
                flags,
            ).contains(BlockCollisionEvent { entity: entities[i] }),
    decreases flags.len(),
{
    if flags.len() > 0 {
        let hits = touched_blocks(entities, flags);
        let before = touched_blocks(entities.drop_last(), flags.drop_last());
        let last = flags.len() - 1;
        lemma_touched_blocks(entities.drop_last(), flags.drop_last());
        assert forall|k: int| 0 <= k < hits.len() implies names_overlapped(
            #[trigger] hits[k],
            entities,
            flags,
        ) by {
            if k < before.len() {
                assert(names_overlapped(before[k], entities.drop_last(), flags.drop_last()));
                let i = choose|i: int|
                    0 <= i < flags.drop_last().len() && #[trigger] flags.drop_last()[i]
                        && before[k].entity == entities.drop_last()[i];
                assert(flags[i] && hits[k].entity == entities[i]);
            } else {
                assert(flags[last] && hits[k].entity == entities[last]);
            }
        }
        assert forall|i: int| 0 <= i < flags.len() && #[trigger] flags[i] implies hits.contains(
            BlockCollisionEvent { entity: entities[i] },
        ) by {
            if i < last {
                assert(flags.drop_last()[i]);
                let hit = BlockCollisionEvent { entity: entities.drop_last()[i] };
                let k = choose|k: int| 0 <= k < before.len() && before[k] == hit;
                assert(hits[k] == hit);
            } else {
                assert(hits[hits.len() - 1] == (BlockCollisionEvent { entity: entities[i] }));
            }
        }
    }
}

/// A free ball that reaches the bottom while there is a paddle is lost, and
/// nothing else happens to it: it takes no bounce, and it raises one life
/// event and one score event of `LIFE_LOST_SCORE`, no block hit and no stop.
pub proof fn lemma_lost_ball(ball: BallContact, entities: Seq<Entity>, time: u64)
    requires
        !ball.sticky,
        ball.bottom,
    ensures
        ball.response(true).life_lost,
        !ball.response(true).paddle_bounce,
        !ball.response(true).block_bounce,
        ball_events(true, ball, entities, time).lives == seq![LifeEvent],
        ball_events(true, ball, entities, time).scores == seq![
            ScoreEvent { score: LIFE_LOST_SCORE },
        ],
        ball_events(true, ball, entities, time).block_hits == Seq::<BlockCollisionEvent>::empty(),
        ball_events(true, ball, entities, time).stops == Seq::<StopBallAttractionEvent>::empty(),
{
}

/// A ball that bounces off a field of N blocks and overlaps K of them raises
/// K block hits and K score events of `BLOCK_HIT_SCORE`. Each hit names a
/// block that the ball overlaps, and each overlapped block is named.
pub proof fn lemma_block_hits(
    has_paddle: bool,
    ball: BallContact,
    entities: Seq<Entity>,
    time: u64,
)
    requires
        ball.hits_blocks(has_paddle),
        ball.blocks@.len() == entities.len(),
    ensures
        ball_events(has_paddle, ball, entities, time).block_hits.len() == overlap_count(
            ball.blocks@,
        ),
        ball_events(has_paddle, ball, entities, time).scores == block_scores(
            overlap_count(ball.blocks@),
        ),
        forall|k: int|
            0 <= k < overlap_count(ball.blocks@) ==> names_overlapped(
                #[trigger] ball_events(has_paddle, ball, entities, time).block_hits[k],
                entities,
                ball.blocks@,
            ),
        forall|i: int|
            0 <= i < entities.len() && #[trigger] ball.blocks@[i] ==> ball_events(
                has_paddle,
                ball,
                entities,
                time,
            ).block_hits.contains(BlockCollisionEvent { entity: entities[i] }),
{
    lemma_touched_blocks(entities, ball.blocks@);
}

/// How many of the balls are lost in a tick.
pub open spec fn lost_count(has_paddle: bool, balls: Seq<BallContact>) -> nat
    decreases balls.len(),
{
    if balls.len() == 0 {
        0
    } else {
        lost_count(has_paddle, balls.drop_last()) + if balls.last().loses_life(has_paddle) {
            1nat
        } else {
            0nat
        }
    }
}

/// A tick raises one life event for each ball that is lost, and no other.
pub proof fn lemma_life_events(
    has_paddle: bool,
    balls: Seq<BallContact>,
    entities: Seq<Entity>,
    time: u64,
)
    ensures
        tick_events(has_paddle, balls, entities, time).lives.len() == lost_count(
            has_paddle,
            balls,
        ),
    decreases balls.len(),
{
    if balls.len() > 0 {
        lemma_life_events(has_paddle, balls.drop_last(), entities, time);
    }
}

} // verus!
