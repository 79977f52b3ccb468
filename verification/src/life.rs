//! The life tracker: counts lost lives and raises the end of the game.

use crate::channel::{
    life_channel_mark, life_events_written, life_reader_mark, life_reader_position,
    read_life_events, register_life_reader,
};
use crate::events::LifeEvent;
use shrev::{EventChannel, ReaderId};
use vstd::prelude::*;

verus! {

/// What the game asks of the states around it.
#[derive(Clone, Copy, Debug, PartialEq, Eq)]
pub enum GameEvent {
    /// No life is left.
    GameOver,
}

/// The state of a session that the life tracker keeps.
#[derive(Clone, Copy, Debug, PartialEq, Eq)]
pub struct Game {
    /// Lives left. It may fall below zero when several balls are lost at once.
    pub lifes: i32,
    /// The request that waits to be taken up, if any.
    pub event: Option<GameEvent>,
}

impl Game {
    /// The session after `count` lives were lost: the counter is `count`
    /// lower, and the game is over if it is no longer positive.
    pub open spec fn after_losses(self, count: nat) -> Game {
        Game {
            lifes: (self.lifes - count) as i32,
            event: if self.lifes - count <= 0 {
                Some(GameEvent::GameOver)
            } else {
                self.event
            },
        }
    }

    /// Takes one life for each event, then raises the end of the game if no
    /// life is left. Returns the count to display: the new one if any life was
    /// lost, none if the display stays as it is.
    pub fn lose_lives(&mut self, events: &Vec<LifeEvent>) -> (shown: Option<i32>)
        requires
            old(self).lifes - events@.len() >= i32::MIN,
        ensures
            *final(self) == old(self).after_losses(events@.len()),
            shown == if events@.len() > 0 {
                Some(final(self).lifes)
            } else {
                None
            },
    {
        let mut shown: Option<i32> = None;
        let mut index: usize = 0;
        while index < events.len()
            invariant
                index <= events@.len(),
                old(self).lifes - events@.len() >= i32::MIN,
                self.lifes == old(self).lifes - index,
                self.event == old(self).event,
                shown == if index > 0 {
                    Some(self.lifes)
                } else {
                    None
                },
            decreases events@.len() - index,
        {
            self.lifes = self.lifes - 1;
            shown = Some(self.lifes);
            index += 1;
        }
        if self.lifes <= 0 {
            self.event = Some(GameEvent::GameOver);
        }
        shown
    }
}

/// The life tracker. It reads the life events of one channel, each once.
pub struct LifeSystem {
    reader: ReaderId<LifeEvent>,
}

impl LifeSystem {
    /// The mark of the channel that the tracker reads.
    pub closed spec fn mark(self) -> int {
        life_reader_mark(self.reader)
    }

    /// How many of that channel's events lie behind the tracker.
    pub closed spec fn position(self) -> nat {
        life_reader_position(self.reader)
    }

    /// The tracker reads `channel`, and is not ahead of it.
    pub open spec fn follows(self, channel: EventChannel<LifeEvent>) -> bool {
        &&& self.mark() == life_channel_mark(channel)
        &&& self.position() <= life_events_written(channel).len()
    }

    /// The events of `channel` that the tracker has not read yet.
    pub open spec fn pending(self, channel: EventChannel<LifeEvent>) -> Seq<LifeEvent> {
        life_events_written(channel).subrange(
            self.position() as int,
            life_events_written(channel).len() as int,
        )
    }

    /// What is written to the channel that the tracker follows is what the
    /// tracker reads next, after what it had left unread.
    pub proof fn lemma_pending_grows(
        self,
        before: EventChannel<LifeEvent>,
        after: EventChannel<LifeEvent>,
        written: Seq<LifeEvent>,
    )
        requires
            self.follows(before),
            life_events_written(after) == life_events_written(before) + written,
            life_channel_mark(after) == life_channel_mark(before),
        ensures
            self.follows(after),
            self.pending(after) == self.pending(before) + written,
    {
        assert(self.pending(after) =~= self.pending(before) + written);
    }

    /// A tracker for `channel`. It sees the events written from now on.
    pub fn new(channel: &mut EventChannel<LifeEvent>) -> (system: LifeSystem)
        ensures
            system.follows(*final(channel)),
            system.pending(*final(channel)) == Seq::<LifeEvent>::empty(),
            life_events_written(*final(channel)) == life_events_written(*old(channel)),
            life_channel_mark(*final(channel)) == life_channel_mark(*old(channel)),
    {
        let reader = register_life_reader(channel);
        LifeSystem { reader }
    }

    /// Takes the unread events off the channel, oldest first.
    pub fn drain(&mut self, channel: &EventChannel<LifeEvent>) -> (events: Vec<LifeEvent>)
        requires
            old(self).follows(*channel),
        ensures
            events@ == old(self).pending(*channel),
            final(self).follows(*channel),
            final(self).pending(*channel) == Seq::<LifeEvent>::empty(),
    {
        read_life_events(channel, &mut self.reader)
    }

    /// Runs one tick: takes the unread life events off the channel and a life
    /// off `game` for each. Returns the count to display, as
    /// [`Game::lose_lives`] does.
    pub fn run(&mut self, game: &mut Game, channel: &EventChannel<LifeEvent>) -> (shown: Option<
        i32,
    >)
        requires
            old(self).follows(*channel),
            old(game).lifes - old(self).pending(*channel).len() >= i32::MIN,
        ensures
            *final(game) == old(game).after_losses(old(self).pending(*channel).len()),
            shown == if old(self).pending(*channel).len() > 0 {
                Some(final(game).lifes)
            } else {
                None
            },
            final(self).follows(*channel),
            final(self).pending(*channel) == Seq::<LifeEvent>::empty(),
    {
        let events = self.drain(channel);
        game.lose_lives(&events)
    }
}

} // verus!
