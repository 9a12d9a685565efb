use yeehaw::input::{Input, InputState};
use yeehaw::units::{Vec2, POS_UNITS_PER_WORLD_UNIT, VEL_UNITS_PER_WORLD_UNIT, TICK};
use yeehaw::world::{BulletStatus, Config, Facing, World, BULLET_SPEED, JUMP_SPEED, SHOT_COOLDOWN, HOOK_RANGE};
use yeehaw::grapple::{isqrt, swing_phase};
use yeehaw::boss::{Boss, BossPhase, Disc, BOSS_HP, EVADE_SPEED, PHASE_LENGTH};
use yeehaw::game::Game;

const P: i64 = POS_UNITS_PER_WORLD_UNIT;
const V: i64 = VEL_UNITS_PER_WORLD_UNIT;

fn world(hooks: Vec<Vec2>) -> World {
    World::new(&Config { pool_size: 2, reload: SHOT_COOLDOWN, hooks }).unwrap()
}

fn tool() -> InputState {
    let mut s = InputState::new();
    s.register_keypress(Input::Tool);
    s
}

#[test]
fn integer_square_root() {
    assert_eq!(isqrt(0), 0);
    assert_eq!(isqrt(1), 1);
    assert_eq!(isqrt(15), 3);
    assert_eq!(isqrt(16), 4);
    assert_eq!(isqrt(17), 4);
    assert_eq!(isqrt(2_500_000_000), 50_000);
}

#[test]
fn hook_out_of_range_does_not_attach() {
    let mut w = world(vec![Vec2::new(-150 * P, 0)]);
    w.grapple(&tool(), TICK, 0);
    assert_eq!(w.swing.get(0), None);
}

#[test]
fn hook_in_range_attaches() {
    let mut w = world(vec![Vec2::new(-50 * P, 0)]);
    w.is_jumping.insert(0, true);
    w.grapple(&tool(), TICK, 77);
    let b = w.swing.get(0).unwrap();
    assert_eq!(b.hook, 3);
    assert_eq!(b.dx, 50 * P);
    assert_eq!(b.dy, 0);
    assert_eq!(b.dist, 50 * P);
    assert_eq!(b.start_time, 77);
    assert_eq!(w.is_jumping.get(0), Some(false));
    let theta0 = (b.dx as f64).atan2(-(b.dy as f64));
    assert!((theta0 - std::f64::consts::FRAC_PI_2).abs() < 1e-12);
}

#[test]
fn hook_at_exact_range_does_not_attach() {
    let mut w = world(vec![Vec2::new(0, HOOK_RANGE)]);
    w.grapple(&tool(), TICK, 0);
    assert_eq!(w.swing.get(0), None);
    let mut w = world(vec![Vec2::new(0, HOOK_RANGE - 1)]);
    w.grapple(&tool(), TICK, 0);
    assert!(w.swing.get(0).is_some());
}

#[test]
fn nearest_hook_wins() {
    let mut w = world(vec![Vec2::new(-60 * P, 0), Vec2::new(30 * P, 40 * P), Vec2::new(90 * P, 0)]);
    w.grapple(&tool(), TICK, 0);
    let b = w.swing.get(0).unwrap();
    assert_eq!(b.hook, 4);
    assert_eq!(b.dx, -30 * P);
    assert_eq!(b.dy, -40 * P);
    assert_eq!(b.dist, 50 * P);
}

#[test]
fn nearest_hook_tie_takes_first() {
    let w = world(vec![Vec2::new(10 * P, 0), Vec2::new(-10 * P, 0)]);
    let (h, d2) = w.find_nearest_hook(Vec2::new(0, 0)).unwrap();
    assert_eq!(h, 3);
    assert_eq!(d2, (10 * P as i128) * (10 * P as i128));
    assert!(world(vec![]).find_nearest_hook(Vec2::new(0, 0)).is_none());
}

#[test]
fn swing_toggle() {
    let mut w = world(vec![Vec2::new(0, 60 * P)]);
    w.vel.insert(0, Vec2::new(0, -5 * V));
    w.grapple(&tool(), TICK, 0);
    let b = w.swing.get(0).unwrap();
    assert_eq!(b.dist, 60 * P);
    assert_eq!((b.dx, b.dy), (0, -60 * P));
    assert_eq!(w.vel.get(0).unwrap().y, 0);
    // second edge, still attached: let go
    w.grapple(&tool(), TICK, 10);
    assert_eq!(w.swing.get(0), None);
    // gravity acts again
    w.kinematics(TICK);
    assert_eq!(w.vel.get(0).unwrap().y, -5000);
}

#[test]
fn held_tool_does_not_toggle() {
    let mut w = world(vec![Vec2::new(0, 60 * P)]);
    let mut s = tool();
    w.grapple(&s, TICK, 0);
    s.clear_edges();
    w.grapple(&s, TICK, 10);
    assert!(w.swing.get(0).is_some());
}

#[test]
fn jump_releases_swing() {
    let mut w = world(vec![Vec2::new(0, 60 * P)]);
    w.grapple(&tool(), TICK, 0);
    assert!(w.swing.get(0).is_some());
    let mut s = InputState::new();
    s.register_keypress(Input::Jump);
    w.player_control(&s, TICK);
    assert_eq!(w.swing.get(0), None);
    assert_eq!(w.vel.get(0).unwrap().y, JUMP_SPEED);
}

#[test]
fn swing_pump_follows_axis() {
    let mut w = world(vec![Vec2::new(0, 60 * P)]);
    let mut s = tool();
    s.register_keypress(Input::Right);
    w.grapple(&s, TICK, 0);
    // the attaching pass leaves the starting angle as it is
    assert_eq!(w.swing.get(0).unwrap().pump, 0);
    s.clear_edges();
    w.grapple(&s, TICK, 10);
    assert_eq!(w.swing.get(0).unwrap().pump, 10);
    s.unregister_keypress(Input::Right);
    s.register_keypress(Input::Left);
    s.clear_edges();
    w.grapple(&s, TICK, 20);
    w.grapple(&s, TICK, 30);
    assert_eq!(w.swing.get(0).unwrap().pump, -10);
}

#[test]
fn swing_periodicity() {
    let mut w = world(vec![Vec2::new(-50 * P, 0)]);
    w.grapple(&tool(), TICK, 1000);
    let b = w.swing.get(0).unwrap();
    assert_eq!(swing_phase(&b, 1000), 0);
    // radius 50: one cycle lasts 50 s, i.e. 30000 time units
    assert_eq!(swing_phase(&b, 1000 + 30000), 0);
    assert_eq!(swing_phase(&b, 1000 + 15000), b.dist as u64 / 2);
    assert_eq!(swing_phase(&b, 1000 + 7), swing_phase(&b, 1000 + 30007));
    // before the start the phase stays at zero
    assert_eq!(swing_phase(&b, 0), 0);
}

#[test]
fn swing_offset_places_player() {
    let mut w = world(vec![Vec2::new(-50 * P, 0)]);
    w.grapple(&tool(), TICK, 0);
    w.apply_swing_offset(Vec2::new(0, -50 * P));
    assert_eq!(w.pos.get(0), Some(Vec2::new(-50 * P, -50 * P)));
    let mut free = world(vec![]);
    free.apply_swing_offset(Vec2::new(3, 4));
    assert_eq!(free.pos.get(0), Some(Vec2::new(0, 0)));
}

#[test]
fn boss_chases_player() {
    let mut b = Boss::new();
    b.pos = Vec2::new(0, 0);
    b.update(Vec2::new(100 * P, 0), TICK);
    assert_eq!(b.facing, Facing::Right);
    assert_eq!(b.pos.x, 100 * P / 60);
    let mut c = Boss::new();
    c.update(Vec2::new(P, 0), TICK);
    assert_eq!(c.pos.x, 0);
    assert_eq!(c.facing, Facing::Left);
}

#[test]
fn boss_falls_and_lands() {
    let mut b = Boss::new();
    b.phase = BossPhase::Evade;
    b.update(Vec2::new(0, 0), TICK);
    assert_eq!(b.vel.y, -5000);
    b.pos.y = -200 * P;
    b.update(Vec2::new(0, 0), TICK);
    assert_eq!(b.pos.y, -150 * P);
    assert_eq!(b.vel.y, 0);
    assert!(!b.jumping);
}

#[test]
fn boss_damping() {
    let mut b = Boss::new();
    b.phase = BossPhase::Attack;
    b.jumping = true;
    b.vel = Vec2::new(600, 0);
    b.pos = Vec2::new(0, 0);
    b.update(Vec2::new(0, 0), TICK);
    // loses 10 * (1/60) of itself: 600 - 100
    assert_eq!(b.vel.x, 500);
    b.vel = Vec2::new(-600, 0);
    b.update(Vec2::new(b.pos.x, 0), TICK);
    assert_eq!(b.vel.x, -500);
}

#[test]
fn boss_phase_switches_after_ten_seconds() {
    let mut b = Boss::new();
    assert_eq!(b.phase, BossPhase::Attack);
    for _ in 0..600 {
        b.update(Vec2::new(0, 0), TICK);
    }
    assert_eq!(b.phase, BossPhase::Attack);
    assert_eq!(b.phase_timer, PHASE_LENGTH);
    b.update(Vec2::new(0, 0), TICK);
    assert_eq!(b.phase, BossPhase::Evade);
    assert_eq!(b.phase_timer, 0);
}

#[test]
fn boss_attack_pounces() {
    let mut b = Boss::new();
    b.attack();
    assert_eq!(b.vel.y, JUMP_SPEED);
    assert!(b.jumping);
    b.vel.y = 3;
    b.attack();
    assert_eq!(b.vel.y, 3);
}

#[test]
fn boss_evade_runs_away() {
    let mut b = Boss::new();
    b.evade(Vec2::new(10, 0));
    assert_eq!(b.vel.x, -EVADE_SPEED);
    b.evade(Vec2::new(-10, 0));
    assert_eq!(b.vel.x, EVADE_SPEED);
}

#[test]
fn disc_overlap() {
    let a = Disc::new(Vec2::new(0, 0), 5);
    assert!(a.intersects(&Disc::new(Vec2::new(14, 0), 10)));
    assert!(!a.intersects(&Disc::new(Vec2::new(15, 0), 10)));
    assert!(!a.intersects(&Disc::new(Vec2::new(9, 12), 10)));
}

#[test]
fn bullets_hit_boss() {
    let mut w = World::new(&Config { pool_size: 3, reload: SHOT_COOLDOWN, hooks: vec![] }).unwrap();
    let mut b = Boss::new();
    b.pos = Vec2::new(100 * P, 0);
    // two hits, one miss, one dead bullet on top of the boss
    w.bullet.insert(1, BulletStatus::Alive);
    w.pos.insert(1, Vec2::new(90 * P, 0));
    w.vel.insert(1, Vec2::new(BULLET_SPEED, 0));
    w.bullet.insert(2, BulletStatus::Alive);
    w.pos.insert(2, Vec2::new(100 * P, 14 * P));
    w.vel.insert(2, Vec2::new(-BULLET_SPEED, 0));
    w.pos.insert(3, Vec2::new(100 * P, 0));
    w.vel.insert(3, Vec2::new(BULLET_SPEED, 0));
    b.handle_intersection(&mut w);
    assert_eq!(w.bullet.get(1), Some(BulletStatus::Dead));
    assert_eq!(w.bullet.get(2), Some(BulletStatus::Dead));
    assert_eq!(w.bullet.get(3), Some(BulletStatus::Dead));
    assert_eq!(b.hp, BOSS_HP - 20);
    assert_eq!(b.vel.x, 0);
    w.bullet.insert(1, BulletStatus::Alive);
    w.pos.insert(1, Vec2::new(100 * P - 15 * P, 0));
    b.handle_intersection(&mut w);
    assert_eq!(w.bullet.get(1), Some(BulletStatus::Alive));
    assert_eq!(b.hp, BOSS_HP - 20);
}

#[test]
fn boss_knockback_and_hp() {
    let mut w = World::new(&Config { pool_size: 1, reload: SHOT_COOLDOWN, hooks: vec![] }).unwrap();
    let mut b = Boss::new();
    b.hp = 5;
    w.bullet.insert(1, BulletStatus::Alive);
    w.vel.insert(1, Vec2::new(-BULLET_SPEED, 0));
    b.handle_intersection(&mut w);
    assert_eq!(b.hp, -5);
    assert_eq!(b.vel.x, -BULLET_SPEED / 2);
}

#[test]
fn end_to_end_hook_range() {
    for (hook_x, attaches) in [(-150 * P, false), (-50 * P, true)] {
        let mut g = Game::new(world(vec![Vec2::new(hook_x, 0)]));
        g.boss.pos = Vec2::new(300 * P, 0);
        g.input.register_keypress(Input::Tool);
        let r = g.begin_tick();
        assert_eq!(r.is_some(), attaches);
        if let Some((b, phase)) = r {
            assert_eq!(phase, 0);
            let theta0 = (b.dx as f64).atan2(-(b.dy as f64));
            assert!((theta0 - std::f64::consts::FRAC_PI_2).abs() < 1e-6);
        }
        g.end_tick();
        g.input.clear_edges();
        assert_eq!(g.time, TICK as u64);
    }
}
