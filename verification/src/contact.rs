//! What is reported of a ball, and what the ball is told to do.

use vstd::prelude::*;

verus! {

/// What one ball touches at the start of a tick. The caller measures; each
/// flag is the outcome of one test on the ball's disc, with no tolerance.
#[derive(Debug, PartialEq, Eq)]
pub struct BallContact {
    /// The ball rides on the paddle. Such a ball is not tested at all, and
    /// the other flags are not looked at.
    pub sticky: bool,
    /// The centre is no further than the radius from the left wall.
    pub left_wall: bool,
    /// The centre is no further than the radius from the right wall.
    pub right_wall: bool,
    /// The centre is no further than the radius from the top wall.
    pub top_wall: bool,
    /// The centre is no further than the radius from the bottom of the arena.
    pub bottom: bool,
    /// The disc overlaps the paddle's rectangle.
    pub paddle: bool,
    /// The disc overlaps the compound of all blocks.
    pub block_field: bool,
    /// For each rectangle of the compound, in the compound's order, whether
    /// the disc overlaps it.
    pub blocks: Vec<bool>,
}

/// One change of a ball's direction.
#[derive(Clone, Copy, Debug, PartialEq, Eq, Structural)]
pub enum Turn {
    /// Make the horizontal part point right, keeping its size.
    Right,
    /// Make the horizontal part point left, keeping its size.
    Left,
    /// Make the vertical part point down, keeping its size.
    Down,
    /// Leave the paddle upwards, at the angle that the place of contact gives.
    OffPaddle,
    /// Mirror the direction at the normal of the contact with the blocks.
    OffBlocks,
}

/// What a ball has to do after a tick. The turns apply to the ball's
/// direction in the order of the fields, so that a later one overrides an
/// earlier one; [`BallResponse::turns`] lists them in that order.
#[derive(Clone, Copy, Debug, PartialEq, Eq, Structural)]
pub struct BallResponse {
    /// Make the horizontal part of the direction point right.
    pub turn_right: bool,
    /// Make the horizontal part of the direction point left.
    pub turn_left: bool,
    /// Make the vertical part of the direction point down.
    pub turn_down: bool,
    /// The ball is lost: it becomes sticky, goes back onto the paddle with
    /// its speed and colour reset, and takes no further turn this tick.
    pub life_lost: bool,
    /// Leave the paddle upwards, at the angle that the place of contact gives.
    pub paddle_bounce: bool,
    /// Mirror the direction at the blocks' contact normal.
    pub block_bounce: bool,
}

impl BallContact {
    /// The ball is lost this tick. Without a paddle to return to, no ball is.
    pub open spec fn loses_life(self, has_paddle: bool) -> bool {
        !self.sticky && has_paddle && self.bottom
    }

    /// The ball bounces off the paddle this tick.
    pub open spec fn hits_paddle(self, has_paddle: bool) -> bool {
        !self.sticky && has_paddle && !self.bottom && self.paddle
    }

    /// The ball bounces off the blocks this tick.
    pub open spec fn hits_blocks(self, has_paddle: bool) -> bool {
        !self.sticky && !self.loses_life(has_paddle) && self.block_field
    }

    /// What the ball has to do, `has_paddle` telling whether there is a paddle.
    pub open spec fn response(self, has_paddle: bool) -> BallResponse {
        BallResponse {
            turn_right: !self.sticky && self.left_wall,
            turn_left: !self.sticky && self.right_wall,
            turn_down: !self.sticky && self.top_wall,
            life_lost: self.loses_life(has_paddle),
            paddle_bounce: self.hits_paddle(has_paddle),
            block_bounce: self.hits_blocks(has_paddle),
        }
    }

    /// Computes [`BallContact::response`].
    pub fn respond(&self, has_paddle: bool) -> (response: BallResponse)
        ensures
            response == self.response(has_paddle),
    {
        let free = !self.sticky;
        let lost = free && has_paddle && self.bottom;
        BallResponse {
            turn_right: free && self.left_wall,
            turn_left: free && self.right_wall,
            turn_down: free && self.top_wall,
            life_lost: lost,
            paddle_bounce: free && has_paddle && !self.bottom && self.paddle,
            block_bounce: free && !lost && self.block_field,
        }
    }
}

impl BallResponse {
    /// The changes of direction that the response asks for, in the order in
    /// which they apply: walls first, then the paddle, then the blocks.
    pub open spec fn turns(self) -> Seq<Turn> {
        (if self.turn_right {
            seq![Turn::Right]
        } else {
            Seq::empty()
        }) + (if self.turn_left {
            seq![Turn::Left]
        } else {
            Seq::empty()
        }) + (if self.turn_down {
            seq![Turn::Down]
        } else {
            Seq::empty()
        }) + (if self.paddle_bounce {
            seq![Turn::OffPaddle]
        } else {
            Seq::empty()
        }) + (if self.block_bounce {
            seq![Turn::OffBlocks]
        } else {
            Seq::empty()
        })
    }

    /// Computes [`BallResponse::turns`].
    pub fn get_turns(&self) -> (turns: Vec<Turn>)
        ensures
            turns@ == self.turns(),
    {
        let mut turns: Vec<Turn> = Vec::new();
        if self.turn_right {
            turns.push(Turn::Right);
        }
        if self.turn_left {
            turns.push(Turn::Left);
        }
        if self.turn_down {
            turns.push(Turn::Down);
        }
        if self.paddle_bounce {
            turns.push(Turn::OffPaddle);
        }
        if self.block_bounce {
            turns.push(Turn::OffBlocks);
        }
        assert(turns@ =~= self.turns());
        turns
    }
}

} // verus!
