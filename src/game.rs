//! The fixed-step pipeline: one tick runs the systems in their fixed order,
//! and a frame runs as many ticks as the elapsed time holds.
use vstd::prelude::*;
use crate::units::{Vec2, TICK};
use crate::input::InputState;
use crate::world::{World, SwingBinding, BulletStatus};
use crate::physics::{kinematics_post, same_frame};
use crate::control::control_post;
use crate::projectiles::projectiles_post;
use crate::grapple::{grapple_post, swing_phase, phase_of, elapsed_of};
use crate::boss::{Boss, boss_step, hit_boss, spent};

verus! {

/// `b` is `a` after the systems before the swing override, in their order:
/// kinematics, player control, projectiles, grapple.
pub open spec fn systems_post(a: World, b: World, input: InputState, dt: int, now: u64) -> bool {
    exists|w1: World, w2: World, w3: World|
        #![trigger kinematics_post(a, w1, dt), control_post(w1, w2, input, dt), projectiles_post(w2, w3, input)]
        kinematics_post(a, w1, dt) && w1.wf()
        && control_post(w1, w2, input, dt) && w2.wf()
        && projectiles_post(w2, w3, input) && w3.wf()
        && grapple_post(w3, b, input, dt, now)
}

/// What is drawn for an entity.
#[derive(Clone, Copy, Debug, PartialEq, Eq, Structural)]
pub enum SpriteKind {
    Bullet,
    Hook,
    Actor,
}

/// What entity `i` shows: live bullets, hooks, and anything else with a
/// position that is neither; dead bullets show nothing.
pub open spec fn sprite_of(w: World, i: int) -> Option<(Vec2, SpriteKind)> {
    if w.pos@[i].is_none() {
        None
    } else if w.bullet@[i].is_some() {
        if w.bullet@[i] == Some(BulletStatus::Alive) { Some((w.pos@[i].unwrap(), SpriteKind::Bullet)) } else { None }
    } else if w.is_hook@[i].is_some() {
        Some((w.pos@[i].unwrap(), SpriteKind::Hook))
    } else {
        Some((w.pos@[i].unwrap(), SpriteKind::Actor))
    }
}

/// The whole simulation: the world, the boss, the input of the current
/// frame, the clock, and the time not yet consumed by ticks.
pub struct Game {
    pub world: World,
    pub boss: Boss,
    pub input: InputState,
    /// Simulation time of the next tick.
    pub time: u64,
    /// Elapsed time not yet run as ticks (below one tick).
    pub pending: u64,
}

impl Game {
    pub open spec fn wf(&self) -> bool {
        &&& self.world.wf()
        &&& self.boss.wf()
        &&& self.pending < TICK
    }

    /// A game over `world`, with a new boss and no input.
    pub fn new(world: World) -> (r: Game)
        requires
            world.wf(),
        ensures
            r.wf(),
            r.world == world,
            r.boss == Boss::new_spec(),
            r.time == 0,
            r.pending == 0,
            forall|b: crate::input::Input| !r.input.keys.has(b) && !r.input.just_pressed.has(b),
    {
        Game { world, boss: Boss::new(), input: InputState::new(), time: 0, pending: 0 }
    }

    /// Adds `elapsed` time and returns how many whole ticks are now due;
    /// the remainder waits for the next frame.
    pub fn ticks_due(&mut self, elapsed: u64) -> (r: u64)
        requires
            old(self).wf(),
        ensures
            final(self).wf(),
            r * TICK + final(self).pending == old(self).pending + elapsed,
            final(self).world == old(self).world,
            final(self).boss == old(self).boss,
            final(self).input == old(self).input,
            final(self).time == old(self).time,
    {
        let total: u128 = self.pending as u128 + elapsed as u128;
        let r = total / (TICK as u128);
        self.pending = (total % (TICK as u128)) as u64;
        assert(r <= 0xffff_ffff_ffff_ffff);
        r as u64
    }

    /// The first part of a tick: kinematics, player control, projectiles,
    /// grapple. Returns the player's binding and its swing phase, from
    /// which the caller computes the pendulum offset for
    /// `World::apply_swing_offset`.
    pub fn begin_tick(&mut self) -> (r: Option<(SwingBinding, u64)>)
        requires
            old(self).wf(),
        ensures
            final(self).wf(),
            systems_post(old(self).world, final(self).world, old(self).input, TICK as int, old(self).time),
            final(self).boss == old(self).boss,
            final(self).input == old(self).input,
            final(self).time == old(self).time,
            final(self).pending == old(self).pending,
            r == match final(self).world.swing@[final(self).world.player as int] {
                Some(b) => Some((b, phase_of(b.dist as int, elapsed_of(b, old(self).time)) as u64)),
                None => None::<(SwingBinding, u64)>,
            },
    {
        let ghost w0 = self.world;
        self.world.kinematics(TICK);
        let ghost w1 = self.world;
        self.world.player_control(&self.input, TICK);
        let ghost w2 = self.world;
        self.world.projectiles(&self.input);
        let ghost w3 = self.world;
        self.world.grapple(&self.input, TICK, self.time);
        assert(kinematics_post(w0, w1, TICK as int) && control_post(w1, w2, self.input, TICK as int)
            && projectiles_post(w2, w3, self.input));
        let p = self.world.player;
        match self.world.swing.get(p) {
            Some(b) => {
                let ph = swing_phase(&b, self.time);
                Some((b, ph))
            },
            None => None,
        }
    }

    /// The last part of a tick: the boss moves toward the player and takes
    /// its hits; the clock advances one tick.
    pub fn end_tick(&mut self)
        requires
            old(self).wf(),
            old(self).time + TICK <= u64::MAX,
            old(self).boss.hp - crate::boss::BULLET_DAMAGE * old(self).world.n() >= i64::MIN,
        ensures
            final(self).wf(),
            final(self).time == old(self).time + TICK,
            final(self).input == old(self).input,
            final(self).pending == old(self).pending,
            ({
                let a = old(self).world;
                let b = final(self).world;
                let moved = boss_step(old(self).boss, a.pos@[a.player as int].unwrap(), TICK as int);
                &&& final(self).boss == hit_boss(moved, a)
                &&& b.bullet@ == spent(a, moved.pos)
                &&& same_frame(a, b)
                &&& b.pos@ == a.pos@
                &&& b.vel@ == a.vel@
                &&& b.cooldown@ == a.cooldown@
                &&& b.swing@ == a.swing@
                &&& b.is_jumping@ == a.is_jumping@
                &&& b.facing@ == a.facing@
            }),
    {
        let p = self.world.player;
        let pp = self.world.pos.get(p).unwrap();
        self.boss.update(pp, TICK);
        self.boss.handle_intersection(&mut self.world);
        self.time = self.time + TICK as u64;
    }

    /// What to draw, one entry per entity.
    pub fn sprites(&self) -> (r: Vec<Option<(Vec2, SpriteKind)>>)
        requires
            self.world.wf(),
        ensures
            r@.len() == self.world.n(),
            forall|i: int| 0 <= i < r@.len() ==> #[trigger] r@[i] == sprite_of(self.world, i),
    {
        let w = &self.world;
        let n = w.entities.len();
        let mut r: Vec<Option<(Vec2, SpriteKind)>> = Vec::new();
        let mut i: usize = 0;
        while i < n
            invariant
                w.wf(),
                n == w.n(),
                i <= n,
                r@.len() == i,
                forall|j: int| 0 <= j < i ==> #[trigger] r@[j] == sprite_of(*w, j),
            decreases n - i,
        {
            let s = match w.pos.get(i) {
                None => None,
                Some(q) => match w.bullet.get(i) {
                    Some(BulletStatus::Alive) => Some((q, SpriteKind::Bullet)),
                    Some(BulletStatus::Dead) => None,
                    None => if w.is_hook.contains(i) { Some((q, SpriteKind::Hook)) } else { Some((q, SpriteKind::Actor)) },
                },
            };
            r.push(s);
            i += 1;
        }
        r
    }
}

} // verus!
