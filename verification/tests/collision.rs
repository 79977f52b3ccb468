use breakout::{
    BallContact, BallResponse, BlockCollisionEvent, CollisionSystem, Entity, Game, GameEvent,
    LifeEvent, LifeSystem, ScoreEvent, StopBallAttractionEvent, TickEvents, Turn,
};
use ncollide2d::na::{Isometry2, RealField, Rotation2, Unit, Vector2};
use ncollide2d::query;
use ncollide2d::shape::{Ball, Compound, Cuboid, ShapeHandle};
use shrev::{EventChannel, ReaderId};

const ARENA: (f32, f32) = (100.0, 100.0);

#[derive(Clone, Copy)]
struct Rect {
    x: f32,
    y: f32,
    width: f32,
    height: f32,
}

impl Rect {
    fn shape(&self) -> Cuboid<f32> {
        Cuboid::new(Vector2::new(self.width / 2.0, self.height / 2.0))
    }

    fn position(&self) -> Isometry2<f32> {
        Isometry2::new(Vector2::new(self.x, self.y), 0.0)
    }
}

fn block_field(blocks: &[Rect]) -> Compound<f32> {
    Compound::new(
        blocks
            .iter()
            .map(|block| (block.position(), ShapeHandle::new(block.shape())))
            .collect(),
    )
}

/// Measures a free ball against the walls, the paddle and the blocks, and
/// gives the normal at which it meets the blocks, if it does.
fn measure_with_normal(
    x: f32,
    y: f32,
    radius: f32,
    paddle: Option<&Rect>,
    blocks: &[Rect],
) -> (BallContact, Option<Unit<Vector2<f32>>>) {
    let field = block_field(blocks);
    let disc = Ball::new(radius);
    let at = Isometry2::new(Vector2::new(x, y), 0.0);
    let on_paddle = paddle.map_or(false, |paddle| {
        query::contact(&paddle.position(), &paddle.shape(), &at, &disc, 0.0).is_some()
    });
    let on_field = query::contact(&Isometry2::identity(), &field, &at, &disc, 0.0);
    let blocks = match on_field {
        Some(_) => field
            .shapes()
            .iter()
            .map(|(position, shape)| {
                query::contact(position, shape.as_ref(), &at, &disc, 0.0).is_some()
            })
            .collect(),
        None => Vec::new(),
    };
    let contact = BallContact {
        sticky: false,
        left_wall: x <= radius,
        right_wall: x >= ARENA.0 - radius,
        top_wall: y >= ARENA.1 - radius,
        bottom: y <= radius,
        paddle: on_paddle,
        block_field: on_field.is_some(),
        blocks,
    };
    (contact, on_field.map(|found| found.normal))
}

fn measure(x: f32, y: f32, radius: f32, paddle: Option<&Rect>, blocks: &[Rect]) -> BallContact {
    measure_with_normal(x, y, radius, paddle, blocks).0
}

/// Carries out the turns of a response on a direction.
fn steer(
    direction: Unit<Vector2<f32>>,
    response: &BallResponse,
    offset: f32,
    paddle_width: f32,
    normal: Option<Unit<Vector2<f32>>>,
) -> Unit<Vector2<f32>> {
    let mut direction = direction;
    for turn in response.get_turns() {
        match (turn, normal) {
            (Turn::Right, _) => direction.as_mut_unchecked().x = direction.x.abs(),
            (Turn::Left, _) => direction.as_mut_unchecked().x = -direction.x.abs(),
            (Turn::Down, _) => direction.as_mut_unchecked().y = -direction.y.abs(),
            (Turn::OffPaddle, _) => {
                let angle = (offset / paddle_width * f32::pi())
                    .min(f32::pi() / 3.0)
                    .max(-f32::pi() / 3.0);
                direction = Unit::new_unchecked(Vector2::new(-angle.sin(), angle.cos()));
            }
            (Turn::OffBlocks, Some(normal)) => {
                let angle = (-direction.perp(&normal)).atan2(-direction.dot(&normal));
                direction = -(Rotation2::new(2.0 * angle) * direction);
                direction.renormalize();
            }
            (Turn::OffBlocks, None) => {}
        }
    }
    direction
}

fn free_ball() -> BallContact {
    BallContact {
        sticky: false,
        left_wall: false,
        right_wall: false,
        top_wall: false,
        bottom: false,
        paddle: false,
        block_field: false,
        blocks: Vec::new(),
    }
}

fn still() -> BallResponse {
    BallResponse {
        turn_right: false,
        turn_left: false,
        turn_down: false,
        life_lost: false,
        paddle_bounce: false,
        block_bounce: false,
    }
}

fn block(id: u32) -> Entity {
    Entity { id, gen: 1 }
}

fn hit(id: u32) -> BlockCollisionEvent {
    BlockCollisionEvent { entity: block(id) }
}

fn stop(collision_time: u64) -> StopBallAttractionEvent {
    StopBallAttractionEvent { collision_time }
}

struct Channels {
    block_hits: EventChannel<BlockCollisionEvent>,
    lives: EventChannel<LifeEvent>,
    scores: EventChannel<ScoreEvent>,
    stops: EventChannel<StopBallAttractionEvent>,
    block_reader: ReaderId<BlockCollisionEvent>,
    life_reader: ReaderId<LifeEvent>,
    score_reader: ReaderId<ScoreEvent>,
    stop_reader: ReaderId<StopBallAttractionEvent>,
}

fn channels() -> Channels {
    let mut block_hits = EventChannel::new();
    let mut lives = EventChannel::new();
    let mut scores = EventChannel::new();
    let mut stops = EventChannel::new();
    let block_reader = block_hits.register_reader();
    let life_reader = lives.register_reader();
    let score_reader = scores.register_reader();
    let stop_reader = stops.register_reader();
    Channels {
        block_hits,
        lives,
        scores,
        stops,
        block_reader,
        life_reader,
        score_reader,
        stop_reader,
    }
}

/// Runs one tick on the channels and returns the responses with what each
/// channel then holds unread.
fn tick(
    channels: &mut Channels,
    has_paddle: bool,
    balls: &Vec<BallContact>,
    entities: &Vec<Entity>,
    time: u64,
) -> (Vec<BallResponse>, TickEvents) {
    let mut engine = CollisionSystem;
    let responses = engine.run(
        has_paddle,
        balls,
        entities,
        time,
        &mut channels.block_hits,
        &mut channels.lives,
        &mut channels.scores,
        &mut channels.stops,
    );
    let written = TickEvents {
        block_hits: channels.block_hits.read(&mut channels.block_reader).copied().collect(),
        lives: channels.lives.read(&mut channels.life_reader).copied().collect(),
        scores: channels.scores.read(&mut channels.score_reader).copied().collect(),
        stops: channels.stops.read(&mut channels.stop_reader).copied().collect(),
    };
    (responses, written)
}

#[test]
fn ball_at_the_bottom_is_lost_and_costs_a_life() {
    let paddle = Rect { x: 50.0, y: 5.0, width: 20.0, height: 2.0 };
    let ball = measure(50.0, 1.0, 2.0, Some(&paddle), &[]);
    assert!(ball.bottom);
    assert!(!ball.left_wall && !ball.right_wall && !ball.top_wall);

    let mut channels = channels();
    let mut tracker = LifeSystem::new(&mut channels.lives);
    let mut game = Game { lifes: 3, event: None };
    let (responses, written) = tick(&mut channels, true, &vec![ball], &Vec::new(), 0);

    assert_eq!(responses, vec![BallResponse { life_lost: true, ..still() }]);
    assert_eq!(written.lives, vec![LifeEvent]);
    assert_eq!(written.scores, vec![ScoreEvent { score: -1000 }]);
    assert_eq!(written.block_hits, vec![]);
    assert_eq!(written.stops, vec![]);

    let down = Unit::new_unchecked(Vector2::new(0.0, -1.0));
    assert_eq!(steer(down, &responses[0], 0.0, paddle.width, None), down);

    let shown = tracker.run(&mut game, &channels.lives);
    assert_eq!(game.lifes, 2);
    assert_eq!(game.event, None);
    assert_eq!(shown, Some(2));
}

#[test]
fn ball_on_a_block_bounces_and_reports_it() {
    let paddle = Rect { x: 50.0, y: 5.0, width: 20.0, height: 2.0 };
    let blocks = [Rect { x: 50.0, y: 52.0, width: 4.0, height: 4.0 }];
    let (ball, normal) = measure_with_normal(50.0, 50.0, 2.0, Some(&paddle), &blocks);
    assert!(ball.block_field);
    assert_eq!(ball.blocks, vec![true]);
    assert!(!ball.paddle && !ball.bottom);

    let mut channels = channels();
    let (responses, written) = tick(&mut channels, true, &vec![ball], &vec![block(7)], 1_500);

    assert_eq!(responses, vec![BallResponse { block_bounce: true, ..still() }]);
    assert_eq!(written.block_hits, vec![hit(7)]);
    assert_eq!(written.scores, vec![ScoreEvent { score: 50 }]);
    assert_eq!(written.stops, vec![stop(1_500)]);
    assert_eq!(written.lives, vec![]);

    let up = Unit::new_unchecked(Vector2::new(0.0, 1.0));
    let after = steer(up, &responses[0], 0.0, paddle.width, normal);
    assert!(after.y < 0.0);
    assert!((after.x - 0.0).abs() < 1e-5 && (after.y + 1.0).abs() < 1e-5);
}

#[test]
fn measured_ball_far_from_everything_is_left_alone() {
    let paddle = Rect { x: 50.0, y: 5.0, width: 20.0, height: 2.0 };
    let blocks = [Rect { x: 50.0, y: 80.0, width: 4.0, height: 4.0 }];
    let ball = measure(30.0, 40.0, 2.0, Some(&paddle), &blocks);
    let mut channels = channels();
    let (responses, written) = tick(&mut channels, true, &vec![ball], &vec![block(1)], 3);
    assert_eq!(responses, vec![still()]);
    assert!(written.block_hits.is_empty());
    assert!(written.lives.is_empty());
    assert!(written.scores.is_empty());
    assert!(written.stops.is_empty());
}

#[test]
fn measured_ball_on_the_paddle_bounces_off_it() {
    let paddle = Rect { x: 50.0, y: 5.0, width: 20.0, height: 2.0 };
    let ball = measure(55.0, 7.5, 2.0, Some(&paddle), &[]);
    assert!(ball.paddle);
    let mut channels = channels();
    let (responses, written) = tick(&mut channels, true, &vec![ball], &Vec::new(), 42);
    assert_eq!(responses, vec![BallResponse { paddle_bounce: true, ..still() }]);
    assert_eq!(written.stops, vec![stop(42)]);
    assert!(written.scores.is_empty());
}

#[test]
fn each_wall_turns_the_ball_away() {
    let left = BallContact { left_wall: true, ..free_ball() };
    let right = BallContact { right_wall: true, ..free_ball() };
    let top = BallContact { top_wall: true, ..free_ball() };
    assert_eq!(left.respond(true), BallResponse { turn_right: true, ..still() });
    assert_eq!(right.respond(true), BallResponse { turn_left: true, ..still() });
    assert_eq!(top.respond(true), BallResponse { turn_down: true, ..still() });
}

#[test]
fn corner_applies_both_walls() {
    let ball = measure(99.0, 99.5, 2.0, None, &[]);
    assert_eq!(ball.respond(true), BallResponse { turn_left: true, turn_down: true, ..still() });
    let ball = measure(1.0, 98.0, 2.0, None, &[]);
    assert_eq!(ball.respond(true), BallResponse { turn_right: true, turn_down: true, ..still() });
}

#[test]
fn walls_raise_no_event() {
    let ball = BallContact { left_wall: true, top_wall: true, ..free_ball() };
    let mut channels = channels();
    let (_, written) = tick(&mut channels, true, &vec![ball], &Vec::new(), 1);
    assert!(written.block_hits.is_empty());
    assert!(written.lives.is_empty());
    assert!(written.scores.is_empty());
    assert!(written.stops.is_empty());
}

#[test]
fn lost_ball_takes_no_bounce() {
    let ball = BallContact {
        left_wall: true,
        bottom: true,
        paddle: true,
        block_field: true,
        blocks: vec![true],
        ..free_ball()
    };
    let mut channels = channels();
    let (responses, written) = tick(&mut channels, true, &vec![ball], &vec![block(3)], 9);
    assert_eq!(responses, vec![BallResponse { turn_right: true, life_lost: true, ..still() }]);
    assert_eq!(written.lives, vec![LifeEvent]);
    assert_eq!(written.scores, vec![ScoreEvent { score: -1000 }]);
    assert_eq!(written.block_hits, vec![]);
    assert_eq!(written.stops, vec![]);
}

#[test]
fn without_a_paddle_no_ball_is_lost() {
    let ball = BallContact {
        bottom: true,
        paddle: true,
        block_field: true,
        blocks: vec![false, true],
        ..free_ball()
    };
    let mut channels = channels();
    let (responses, written) =
        tick(&mut channels, false, &vec![ball], &vec![block(3), block(4)], 9);
    assert_eq!(responses, vec![BallResponse { block_bounce: true, ..still() }]);
    assert_eq!(written.lives, vec![]);
    assert_eq!(written.block_hits, vec![hit(4)]);
    assert_eq!(written.scores, vec![ScoreEvent { score: 50 }]);
    assert_eq!(written.stops, vec![stop(9)]);
}

#[test]
fn sticky_ball_is_skipped() {
    let ball = BallContact {
        sticky: true,
        left_wall: true,
        right_wall: true,
        top_wall: true,
        bottom: true,
        paddle: true,
        block_field: true,
        blocks: vec![true],
    };
    let mut channels = channels();
    let (responses, written) = tick(&mut channels, true, &vec![ball], &vec![block(3)], 9);
    assert_eq!(responses, vec![still()]);
    assert!(written.block_hits.is_empty());
    assert!(written.lives.is_empty());
    assert!(written.scores.is_empty());
    assert!(written.stops.is_empty());
}

#[test]
fn every_overlapped_block_is_hit_once() {
    let blocks = [
        Rect { x: 46.0, y: 52.0, width: 4.0, height: 4.0 },
        Rect { x: 50.0, y: 60.0, width: 4.0, height: 4.0 },
        Rect { x: 52.0, y: 52.0, width: 4.0, height: 4.0 },
        Rect { x: 80.0, y: 52.0, width: 4.0, height: 4.0 },
    ];
    let ball = measure(49.0, 50.0, 2.0, None, &blocks);
    assert_eq!(ball.blocks, vec![true, false, true, false]);
    let entities = vec![block(10), block(11), block(12), block(13)];
    let mut channels = channels();
    let (responses, written) = tick(&mut channels, true, &vec![ball], &entities, 5);
    assert_eq!(responses, vec![BallResponse { block_bounce: true, ..still() }]);
    assert_eq!(written.block_hits, vec![hit(10), hit(12)]);
    assert_eq!(written.scores, vec![ScoreEvent { score: 50 }, ScoreEvent { score: 50 }]);
    assert_eq!(written.stops, vec![stop(5)]);
}

#[test]
fn stale_block_list_bounces_without_naming_a_block() {
    let ball = BallContact { block_field: true, blocks: vec![true, true], ..free_ball() };
    let mut channels = channels();
    let (responses, written) = tick(&mut channels, true, &vec![ball], &vec![block(1)], 8);
    assert_eq!(responses, vec![BallResponse { block_bounce: true, ..still() }]);
    assert_eq!(written.block_hits, vec![]);
    assert_eq!(written.scores, vec![]);
    assert_eq!(written.stops, vec![stop(8)]);
}

#[test]
fn block_flags_without_field_contact_are_not_looked_at() {
    let ball = BallContact { blocks: vec![true], ..free_ball() };
    let mut channels = channels();
    let (responses, written) = tick(&mut channels, true, &vec![ball], &vec![block(1)], 8);
    assert_eq!(responses, vec![still()]);
    assert!(written.block_hits.is_empty());
    assert!(written.scores.is_empty());
    assert!(written.stops.is_empty());
}

#[test]
fn paddle_and_blocks_in_one_tick_stop_twice() {
    let ball = BallContact {
        paddle: true,
        block_field: true,
        blocks: vec![true],
        ..free_ball()
    };
    let mut channels = channels();
    let (responses, written) = tick(&mut channels, true, &vec![ball], &vec![block(2)], 77);
    assert_eq!(
        responses,
        vec![BallResponse { paddle_bounce: true, block_bounce: true, ..still() }]
    );
    assert_eq!(written.stops, vec![stop(77), stop(77)]);
    assert_eq!(written.block_hits, vec![hit(2)]);
}

#[test]
fn balls_are_resolved_in_order() {
    let balls = vec![
        BallContact { block_field: true, blocks: vec![false, true], ..free_ball() },
        BallContact { bottom: true, ..free_ball() },
        BallContact { sticky: true, bottom: true, ..free_ball() },
        BallContact { paddle: true, block_field: true, blocks: vec![true, false], ..free_ball() },
    ];
    let entities = vec![block(20), block(21)];
    let mut channels = channels();
    let (responses, written) = tick(&mut channels, true, &balls, &entities, 6);
    assert_eq!(
        responses,
        vec![
            BallResponse { block_bounce: true, ..still() },
            BallResponse { life_lost: true, ..still() },
            still(),
            BallResponse { paddle_bounce: true, block_bounce: true, ..still() },
        ]
    );
    assert_eq!(written.block_hits, vec![hit(21), hit(20)]);
    assert_eq!(written.lives, vec![LifeEvent]);
    assert_eq!(
        written.scores,
        vec![ScoreEvent { score: 50 }, ScoreEvent { score: -1000 }, ScoreEvent { score: 50 }]
    );
    assert_eq!(written.stops, vec![stop(6), stop(6), stop(6)]);
}

#[test]
fn no_ball_no_event() {
    let mut channels = channels();
    let (responses, written) = tick(&mut channels, true, &Vec::new(), &vec![block(1)], 6);
    assert!(responses.is_empty());
    assert!(written.block_hits.is_empty());
    assert!(written.lives.is_empty());
    assert!(written.scores.is_empty());
    assert!(written.stops.is_empty());
}

#[test]
fn events_follow_those_already_written() {
    let mut channels = channels();
    channels.scores.single_write(ScoreEvent { score: 7 });
    channels.block_hits.single_write(hit(99));
    let ball = BallContact { block_field: true, blocks: vec![true], ..free_ball() };
    let (_, written) = tick(&mut channels, true, &vec![ball], &vec![block(1)], 6);
    assert_eq!(written.scores, vec![ScoreEvent { score: 7 }, ScoreEvent { score: 50 }]);
    assert_eq!(written.block_hits, vec![hit(99), hit(1)]);
}

#[test]
fn collide_returns_what_run_writes() {
    let balls = vec![
        BallContact { paddle: true, ..free_ball() },
        BallContact { block_field: true, blocks: vec![true], ..free_ball() },
        BallContact { bottom: true, ..free_ball() },
    ];
    let entities = vec![block(5)];
    let (responses, events) = CollisionSystem::collide(true, &balls, &entities, 11);
    let mut channels = channels();
    let (written_responses, written) = tick(&mut channels, true, &balls, &entities, 11);
    assert_eq!(responses, written_responses);
    assert_eq!(events.block_hits, written.block_hits);
    assert_eq!(events.lives, written.lives);
    assert_eq!(events.scores, written.scores);
    assert_eq!(events.stops, written.stops);
    assert_eq!(events.scores, vec![ScoreEvent { score: 50 }, ScoreEvent { score: -1000 }]);
}

#[test]
fn collide_ball_appends_to_the_batch() {
    let mut events = TickEvents::new();
    events.stops.push(stop(1));
    let ball = BallContact { paddle: true, ..free_ball() };
    let response = CollisionSystem::collide_ball(true, &ball, &Vec::new(), 2, &mut events);
    assert_eq!(response, BallResponse { paddle_bounce: true, ..still() });
    assert_eq!(events.stops, vec![stop(1), stop(2)]);
    assert!(events.scores.is_empty());
}

#[test]
fn two_lost_balls_end_a_game_with_one_life() {
    let balls = vec![
        BallContact { bottom: true, ..free_ball() },
        BallContact { bottom: true, ..free_ball() },
    ];
    let mut channels = channels();
    let mut tracker = LifeSystem::new(&mut channels.lives);
    let mut game = Game { lifes: 1, event: None };
    tick(&mut channels, true, &balls, &Vec::new(), 0);
    let shown = tracker.run(&mut game, &channels.lives);
    assert_eq!(game.lifes, -1);
    assert_eq!(game.event, Some(GameEvent::GameOver));
    assert_eq!(shown, Some(-1));
}

#[test]
fn paddle_bounce_at_the_centre_goes_straight_up() {
    let paddle = Rect { x: 50.0, y: 5.0, width: 20.0, height: 2.0 };
    let ball = measure(50.0, 7.5, 2.0, Some(&paddle), &[]);
    let response = ball.respond(true);
    assert!(response.paddle_bounce);
    let down = Unit::new_normalize(Vector2::new(0.6, -0.8));
    let after = steer(down, &response, paddle.x - 50.0, paddle.width, None);
    assert!(after.x.abs() < 1e-5);
    assert!((after.y - 1.0).abs() < 1e-5);
}

#[test]
fn paddle_bounce_is_capped_at_a_third_of_a_half_turn() {
    let paddle = Rect { x: 50.0, y: 5.0, width: 20.0, height: 2.0 };
    let ball = measure(61.0, 7.5, 2.0, Some(&paddle), &[]);
    let response = ball.respond(true);
    assert!(response.paddle_bounce);
    let down = Unit::new_normalize(Vector2::new(0.6, -0.8));
    let limit = f32::pi() / 3.0;
    let after = steer(down, &response, paddle.x - 61.0, paddle.width, None);
    assert!((after.x - limit.sin()).abs() < 1e-5);
    assert!((after.y - limit.cos()).abs() < 1e-5);
    let further = steer(down, &response, paddle.x - 500.0, paddle.width, None);
    assert_eq!(further, after);
    let other_side = steer(down, &response, 500.0 - paddle.x, paddle.width, None);
    assert!((other_side.x + limit.sin()).abs() < 1e-5);
    assert!((other_side.y - limit.cos()).abs() < 1e-5);
}

#[test]
fn block_bounce_mirrors_the_direction_and_keeps_its_length() {
    let blocks = [Rect { x: 50.0, y: 52.0, width: 4.0, height: 4.0 }];
    let (ball, normal) = measure_with_normal(49.0, 48.5, 2.0, None, &blocks);
    let response = ball.respond(true);
    assert!(response.block_bounce);
    let normal = normal.unwrap();
    let before = Unit::new_normalize(Vector2::new(0.6, 0.8));
    let after = steer(before, &response, 0.0, 1.0, Some(normal));
    let mirrored = before.into_inner() - normal.into_inner() * (2.0 * before.dot(&normal));
    assert!((after.x - mirrored.x).abs() < 1e-5);
    assert!((after.y - mirrored.y).abs() < 1e-5);
    assert!((after.norm() - 1.0).abs() < 1e-5);
    assert!(after.y < 0.0);
}

#[test]
fn wall_turns_keep_the_length_of_the_direction() {
    let ball = measure(1.0, 99.0, 2.0, None, &[]);
    let response = ball.respond(false);
    let before = Unit::new_normalize(Vector2::new(-0.6, 0.8));
    let after = steer(before, &response, 0.0, 1.0, None);
    assert!((after.x - 0.6).abs() < 1e-6);
    assert!((after.y + 0.8).abs() < 1e-6);
    assert!((after.norm() - 1.0).abs() < 1e-5);
}

#[test]
fn turns_come_in_the_order_of_the_checks() {
    let all = BallResponse {
        turn_right: true,
        turn_left: true,
        turn_down: true,
        life_lost: false,
        paddle_bounce: true,
        block_bounce: true,
    };
    assert_eq!(
        all.get_turns(),
        vec![Turn::Right, Turn::Left, Turn::Down, Turn::OffPaddle, Turn::OffBlocks]
    );
    assert_eq!(still().get_turns(), vec![]);
    let lost = BallContact { top_wall: true, bottom: true, paddle: true, ..free_ball() };
    assert_eq!(lost.respond(true).get_turns(), vec![Turn::Down]);
    let bounced = BallContact { left_wall: true, block_field: true, ..free_ball() };
    assert_eq!(bounced.respond(true).get_turns(), vec![Turn::Right, Turn::OffBlocks]);
}

#[test]
fn right_wall_wins_over_left_wall() {
    let squeezed = BallContact { left_wall: true, right_wall: true, ..free_ball() };
    let response = squeezed.respond(true);
    assert_eq!(response.get_turns(), vec![Turn::Right, Turn::Left]);
    let before = Unit::new_normalize(Vector2::new(0.6, 0.8));
    let after = steer(before, &response, 0.0, 1.0, None);
    assert!(after.x < 0.0 && after.y > 0.0);
}
