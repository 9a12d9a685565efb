use yeehaw::input::{Input, InputState};
use yeehaw::units::{Vec2, POS_UNITS_PER_WORLD_UNIT, VEL_UNITS_PER_WORLD_UNIT, TICK};
use yeehaw::world::{BulletStatus, Config, Facing, World, ARENA_BOUND, BULLET_SPEED, GROUND_Y, JUMP_SPEED, SHOT_COOLDOWN};
use yeehaw::game::Game;

const P: i64 = POS_UNITS_PER_WORLD_UNIT;
const V: i64 = VEL_UNITS_PER_WORLD_UNIT;

fn world(pool: usize, hooks: Vec<Vec2>) -> World {
    World::new(&Config { pool_size: pool, reload: SHOT_COOLDOWN, hooks }).unwrap()
}

fn alive(w: &World) -> usize {
    (0..w.entities.len()).filter(|&i| w.bullet.get(i) == Some(BulletStatus::Alive)).count()
}

#[test]
fn kinematics_gravity_step() {
    let mut w = world(1, vec![]);
    w.pos.insert(0, Vec2::new(3 * P, 10 * P));
    w.vel.insert(0, Vec2::new(60 * V, 120 * V));
    w.kinematics(TICK);
    // 60 u/s and 120 u/s for 1/60 s: 1 u and 2 u
    assert_eq!(w.pos.get(0), Some(Vec2::new(4 * P, 12 * P)));
    // 500 u/s² for 1/60 s: 500/60 u/s, i.e. 5000 velocity units
    assert_eq!(w.vel.get(0), Some(Vec2::new(60 * V, 120 * V - 5000)));
    assert_eq!(120 * V - 5000, 120 * V - 500 * TICK as i64);
}

#[test]
fn kinematics_skips_dead_bullets() {
    let mut w = world(1, vec![]);
    w.vel.insert(1, Vec2::new(600 * V, 0));
    w.kinematics(TICK);
    assert_eq!(w.pos.get(1), Some(Vec2::new(0, 0)));
    w.bullet.insert(1, BulletStatus::Alive);
    w.kinematics(TICK);
    assert_eq!(w.pos.get(1), Some(Vec2::new(10 * P, 0)));
    assert_eq!(w.vel.get(1), Some(Vec2::new(600 * V, 0)));
}

#[test]
fn ground_clamp() {
    let mut w = world(1, vec![]);
    w.pos.insert(0, Vec2::new(0, -200 * P));
    w.vel.insert(0, Vec2::new(0, -50 * V));
    w.is_jumping.insert(0, true);
    w.player_control(&InputState::new(), TICK);
    assert_eq!(w.pos.get(0).unwrap().y, -150 * P);
    assert_eq!(w.pos.get(0).unwrap().y, GROUND_Y);
    assert_eq!(w.vel.get(0).unwrap().y, 0);
    assert_eq!(w.is_jumping.get(0), Some(false));
}

#[test]
fn cooldown_never_negative() {
    let mut w = world(1, vec![]);
    // 0.01 s left, a step of 0.02 s
    w.cooldown.insert(0, 6);
    w.player_control(&InputState::new(), 12);
    assert_eq!(w.cooldown.get(0), Some(0));
}

#[test]
fn cooldown_counts_down() {
    let mut w = world(1, vec![]);
    w.cooldown.insert(0, 21);
    w.player_control(&InputState::new(), TICK);
    assert_eq!(w.cooldown.get(0), Some(11));
}

#[test]
fn walking_and_sticky_facing() {
    let mut w = world(1, vec![]);
    let mut input = InputState::new();
    input.register_keypress(Input::Left);
    w.player_control(&input, TICK);
    // 100 u/s for 1/60 s
    assert_eq!(w.pos.get(0).unwrap().x, -100 * P / 60);
    assert_eq!(w.facing.get(0), Some(Facing::Left));
    input.unregister_keypress(Input::Left);
    w.player_control(&input, TICK);
    assert_eq!(w.pos.get(0).unwrap().x, -100 * P / 60);
    assert_eq!(w.facing.get(0), Some(Facing::Left));
    input.register_keypress(Input::Right);
    w.player_control(&input, TICK);
    assert_eq!(w.facing.get(0), Some(Facing::Right));
}

#[test]
fn jump_only_when_not_jumping() {
    let mut w = world(1, vec![]);
    let mut input = InputState::new();
    input.register_keypress(Input::Jump);
    w.player_control(&input, TICK);
    assert_eq!(w.vel.get(0).unwrap().y, JUMP_SPEED);
    assert_eq!(w.is_jumping.get(0), Some(true));
    w.vel.insert(0, Vec2::new(0, 7));
    w.player_control(&input, TICK);
    assert_eq!(w.vel.get(0).unwrap().y, 7);
}

#[test]
fn fire_takes_first_dead_slot() {
    let mut w = world(3, vec![]);
    w.bullet.insert(1, BulletStatus::Alive);
    w.pos.insert(0, Vec2::new(P, 2 * P));
    w.facing.insert(0, Facing::Left);
    w.cooldown.insert(0, 0);
    let mut input = InputState::new();
    input.register_keypress(Input::Shoot);
    w.projectiles(&input);
    assert_eq!(w.bullet.get(2), Some(BulletStatus::Alive));
    assert_eq!(w.pos.get(2), Some(Vec2::new(P, 2 * P)));
    assert_eq!(w.vel.get(2), Some(Vec2::new(-BULLET_SPEED, 0)));
    assert_eq!(w.bullet.get(3), Some(BulletStatus::Dead));
    assert_eq!(w.cooldown.get(0), Some(SHOT_COOLDOWN));
    // still cooling down: no shot
    w.projectiles(&input);
    assert_eq!(w.bullet.get(3), Some(BulletStatus::Dead));
}

#[test]
fn no_shot_without_shoot() {
    let mut w = world(2, vec![]);
    w.cooldown.insert(0, 0);
    w.projectiles(&InputState::new());
    assert_eq!(alive(&w), 0);
    assert_eq!(w.cooldown.get(0), Some(0));
}

#[test]
fn pool_exhaustion() {
    let mut w = world(3, vec![]);
    let mut input = InputState::new();
    input.register_keypress(Input::Shoot);
    for _ in 0..3 {
        w.cooldown.insert(0, 0);
        w.projectiles(&input);
    }
    assert_eq!(alive(&w), 3);
    let before: Vec<_> = (0..4).map(|i| (w.bullet.get(i), w.pos.get(i), w.vel.get(i))).collect();
    w.cooldown.insert(0, 0);
    w.projectiles(&input);
    let after: Vec<_> = (0..4).map(|i| (w.bullet.get(i), w.pos.get(i), w.vel.get(i))).collect();
    assert_eq!(alive(&w), 3);
    assert_eq!(before, after);
}

#[test]
fn bullet_recycling() {
    let mut w = world(2, vec![]);
    // keep the player still at the origin
    w.has_gravity.remove(0);
    let mut shoot = InputState::new();
    shoot.register_keypress(Input::Shoot);
    let idle = InputState::new();
    w.cooldown.insert(0, 0);
    w.projectiles(&shoot);
    assert_eq!(w.bullet.get(1), Some(BulletStatus::Alive));
    let mut ticks = 0;
    loop {
        w.kinematics(TICK);
        w.projectiles(&idle);
        ticks += 1;
        let x = w.pos.get(1).unwrap().x;
        if x > ARENA_BOUND {
            assert_eq!(w.bullet.get(1), Some(BulletStatus::Dead));
            break;
        }
        assert_eq!(w.bullet.get(1), Some(BulletStatus::Alive));
        assert!(ticks < 100);
    }
    // 400 u at 10 u per tick: dead on the 41st tick
    assert_eq!(ticks, 41);
    w.cooldown.insert(0, 0);
    w.projectiles(&shoot);
    assert_eq!(w.bullet.get(1), Some(BulletStatus::Alive));
    assert_eq!(w.pos.get(1), Some(Vec2::new(0, 0)));
    assert_eq!(w.bullet.get(2), Some(BulletStatus::Dead));
}

#[test]
fn despawn_on_vertical_bound() {
    let mut w = world(1, vec![]);
    w.bullet.insert(1, BulletStatus::Alive);
    w.pos.insert(1, Vec2::new(0, -ARENA_BOUND - 1));
    w.despawn_out_of_bounds();
    assert_eq!(w.bullet.get(1), Some(BulletStatus::Dead));
}

#[test]
fn hold_shoot_one_second() {
    let mut g = Game::new(world(100, vec![]));
    // keep the boss out of the line of fire
    g.boss.pos = Vec2::new(0, 300 * P);
    g.input.register_keypress(Input::Shoot);
    let mut shots = 0;
    for _ in 0..60 {
        g.begin_tick();
        if g.world.cooldown.get(0) == Some(SHOT_COOLDOWN) {
            shots += 1;
        }
        g.end_tick();
        g.input.clear_edges();
    }
    // one decrement of 1/60 s per tick: a 0.035 s cooldown allows a shot
    // every third tick, the first one once the starting cooldown is over
    assert_eq!(shots, 20);
}
