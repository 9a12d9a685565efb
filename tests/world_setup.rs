use yeehaw::input::{Input, InputState};
use yeehaw::units::{advance_coord, clamp, Vec2, COORD_LIMIT, POS_UNITS_PER_WORLD_UNIT, TICK};
use yeehaw::world::{BulletStatus, Config, Facing, SetupError, World, SHOT_COOLDOWN};
use yeehaw::ecs::{join, without, Registry, Table};
use yeehaw::game::{Game, SpriteKind};

const P: i64 = POS_UNITS_PER_WORLD_UNIT;

fn config(pool: usize, hooks: Vec<Vec2>) -> Config {
    Config { pool_size: pool, reload: SHOT_COOLDOWN, hooks }
}

#[test]
fn world_layout() {
    let w = World::new(&config(3, vec![Vec2::new(-150 * P, 0), Vec2::new(0, 0)])).unwrap();
    assert_eq!(w.entities.len(), 6);
    assert_eq!(w.player, 0);
    assert_eq!(w.pos.get(0), Some(Vec2::new(0, 0)));
    assert_eq!(w.facing.get(0), Some(Facing::Right));
    assert_eq!(w.cooldown.get(0), Some(SHOT_COOLDOWN));
    assert!(w.has_gravity.contains(0));
    for i in 1..4 {
        assert_eq!(w.bullet.get(i), Some(BulletStatus::Dead));
        assert!(!w.has_gravity.contains(i));
    }
    assert!(w.is_hook.contains(4));
    assert_eq!(w.pos.get(4), Some(Vec2::new(-150 * P, 0)));
    assert!(w.is_hook.contains(5));
    assert_eq!(w.bullet.get(4), None);
}

#[test]
fn setup_rejects_empty_pool() {
    assert_eq!(World::new(&config(0, vec![])).err(), Some(SetupError::EmptyPool));
}

#[test]
fn setup_rejects_negative_reload() {
    let c = Config { pool_size: 4, reload: -1, hooks: vec![] };
    assert_eq!(World::new(&c).err(), Some(SetupError::NegativeReload));
    let c = Config { pool_size: 4, reload: 0, hooks: vec![] };
    assert!(World::new(&c).is_ok());
    let c = Config { pool_size: 4, reload: i64::MAX, hooks: vec![] };
    assert!(World::new(&c).is_ok());
}

#[test]
fn setup_rejects_hook_out_of_range() {
    let c = config(4, vec![Vec2::new(i64::MAX, 0)]);
    assert_eq!(World::new(&c).err(), Some(SetupError::HookOutOfRange));
}

#[test]
fn table_insert_remove() {
    let mut t: Table<i64> = Table::new();
    t.push_empty();
    t.push_empty();
    assert_eq!(t.len(), 2);
    assert_eq!(t.insert(1, 7), None);
    assert_eq!(t.insert(1, 8), Some(7));
    assert_eq!(t.get(1), Some(8));
    assert_eq!(t.entities(), vec![1]);
    assert_eq!(t.remove(1), Some(8));
    assert!(!t.contains(1));
    assert_eq!(t.entities(), Vec::<usize>::new());
}

#[test]
fn registry_create_destroy() {
    let mut r = Registry::new();
    assert_eq!(r.create(), 0);
    assert_eq!(r.create(), 1);
    assert_eq!(r.create(), 2);
    assert!(r.destroy(1));
    assert!(!r.destroy(1));
    assert!(!r.destroy(9));
    assert!(r.is_alive(0));
    assert!(!r.is_alive(1));
    assert_eq!(r.live(), vec![0, 2]);
}

#[test]
fn input_edges() {
    let mut s = InputState::new();
    s.register_keypress(Input::Tool);
    assert!(s.keys.contains(Input::Tool));
    assert!(s.just_pressed.contains(Input::Tool));
    s.clear_edges();
    assert!(!s.just_pressed.contains(Input::Tool));
    // held: a repeat is no new edge
    s.register_keypress(Input::Tool);
    assert!(!s.just_pressed.contains(Input::Tool));
    s.unregister_keypress(Input::Tool);
    assert!(!s.keys.contains(Input::Tool));
    s.register_keypress(Input::Tool);
    assert!(s.just_pressed.contains(Input::Tool));
}

#[test]
fn input_axis() {
    let mut s = InputState::new();
    assert_eq!(s.xaxis(), 0);
    s.register_keypress(Input::Left);
    assert_eq!(s.xaxis(), -1);
    s.register_keypress(Input::Right);
    assert_eq!(s.xaxis(), 0);
    s.unregister_keypress(Input::Left);
    assert_eq!(s.xaxis(), 1);
}

#[test]
fn frame_clock_counts_ticks() {
    let w = World::new(&config(1, vec![])).unwrap();
    let mut g = Game::new(w);
    assert_eq!(g.ticks_due(25), 2);
    assert_eq!(g.pending, 5);
    assert_eq!(g.ticks_due(4), 0);
    assert_eq!(g.ticks_due(1), 1);
    assert_eq!(g.pending, 0);
    assert_eq!(TICK, 10);
}

#[test]
fn sprites_show_live_bullets_and_hooks() {
    let mut w = World::new(&config(2, vec![Vec2::new(5 * P, 0)])).unwrap();
    w.bullet.insert(2, BulletStatus::Alive);
    let g = Game::new(w);
    let s = g.sprites();
    assert_eq!(s.len(), 4);
    assert_eq!(s[0], Some((Vec2::new(0, 0), SpriteKind::Actor)));
    assert_eq!(s[1], None);
    assert_eq!(s[2], Some((Vec2::new(0, 0), SpriteKind::Bullet)));
    assert_eq!(s[3], Some((Vec2::new(5 * P, 0), SpriteKind::Hook)));
}

#[test]
fn facing_sign() {
    assert_eq!(Facing::Left.to_sign(), -1);
    assert_eq!(Facing::Right.to_sign(), 1);
}

#[test]
fn coordinates_saturate() {
    assert_eq!(clamp(COORD_LIMIT as i128 + 1), COORD_LIMIT);
    assert_eq!(clamp(-(COORD_LIMIT as i128) - 5), -COORD_LIMIT);
    assert_eq!(advance_coord(5, -3, 4), -7);
    assert_eq!(advance_coord(COORD_LIMIT, COORD_LIMIT, 10), COORD_LIMIT);
}

#[test]
fn first_free_slot_when_exhausted() {
    let mut w = World::new(&config(2, vec![])).unwrap();
    assert_eq!(w.first_free_slot(), 1);
    w.bullet.insert(1, BulletStatus::Alive);
    assert_eq!(w.first_free_slot(), 2);
    w.bullet.insert(2, BulletStatus::Alive);
    assert_eq!(w.first_free_slot(), 3);
}

#[test]
fn joins_over_tables() {
    let w = World::new(&config(2, vec![Vec2::new(0, 0)])).unwrap();
    // position and bullet status: the bullet slots
    assert_eq!(join(&w.pos, &w.bullet), vec![1, 2]);
    // position but no bullet status and no hook: the player
    assert_eq!(without(&w.pos, &w.bullet), vec![0, 3]);
    assert_eq!(without(&w.pos, &w.is_hook), vec![0, 1, 2]);
    assert_eq!(join(&w.pos, &w.is_hook), vec![3]);
}
