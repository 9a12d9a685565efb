//! The boss: chases the player, alternates between an attack and an evade
//! phase, and takes damage from the player's bullets.
use vstd::prelude::*;
use crate::units::{Vec2, advance, advance_coord, clamp, clamp_coord};
use crate::physics::moved;
use crate::world::{World, Facing, BulletStatus, WALK_SPEED, JUMP_SPEED, GROUND_Y, GRAVITY};
use crate::grapple::dist2;

verus! {

/// Length of each phase (10 s).
pub const PHASE_LENGTH: i64 = 6000;

/// Horizontal distance under which the boss stops chasing (5 world units).
pub const CHASE_DEADZONE: i64 = 1_800_000;

/// Speed of the evade move (150 world units / s).
pub const EVADE_SPEED: i64 = 90_000;

/// Fraction of horizontal velocity lost per second: `10 * dt` seconds' worth.
pub const DAMPING: i64 = 10;

/// Radius of a bullet (5 world units).
pub const BULLET_RADIUS: i64 = 1_800_000;

/// Radius of the boss (10 world units).
pub const BOSS_RADIUS: i64 = 3_600_000;

/// Hit points lost per bullet.
pub const BULLET_DAMAGE: i64 = 10;

/// Hit points of a new boss.
pub const BOSS_HP: i64 = 50;

#[derive(Clone, Copy, Debug, PartialEq, Eq, Structural)]
pub enum BossPhase {
    /// Pounce: jump whenever standing.
    Attack,
    /// Back away from the player at `EVADE_SPEED`.
    Evade,
}

#[derive(Clone, Copy, Debug, PartialEq, Eq, Structural)]
pub struct Boss {
    pub pos: Vec2,
    pub vel: Vec2,
    pub hp: i64,
    pub facing: Facing,
    pub jumping: bool,
    pub phase: BossPhase,
    /// Time spent in the current phase.
    pub phase_timer: i64,
}

impl Boss {
    /// The boss `new` makes.
    pub open spec fn new_spec() -> Boss {
        Boss {
            pos: Vec2 { x: 0, y: 0 },
            vel: Vec2 { x: 0, y: 0 },
            hp: BOSS_HP,
            facing: Facing::Left,
            jumping: false,
            phase: BossPhase::Attack,
            phase_timer: 0,
        }
    }

    pub open spec fn wf(self) -> bool {
        &&& self.pos.ok()
        &&& self.vel.ok()
        &&& 0 <= self.phase_timer <= PHASE_LENGTH
    }

    /// A boss at the origin, facing left, in its attack phase.
    pub fn new() -> (r: Boss)
        ensures
            r.wf(),
            r == Boss::new_spec(),
    {
        Boss {
            pos: Vec2 { x: 0, y: 0 },
            vel: Vec2 { x: 0, y: 0 },
            hp: BOSS_HP,
            facing: Facing::Left,
            jumping: false,
            phase: BossPhase::Attack,
            phase_timer: 0,
        }
    }
}

/// `v` after `dt` of damping: it loses `DAMPING * dt / TIME_UNITS_PER_SECOND`
/// of itself, rounded toward zero.
pub open spec fn damped(v: int, dt: int) -> int {
    if v >= 0 {
        clamp_coord(v - (DAMPING * dt * v) / 600)
    } else {
        clamp_coord(v + (DAMPING * dt * (-v)) / 600)
    }
}

/// Half of `v`, rounded toward zero.
pub open spec fn half(v: int) -> int {
    if v >= 0 { v / 2 } else { -((-v) / 2) }
}

/// The shared movement of one tick: integrate, chase, stand on the ground
/// or fall, and damp horizontal drift.
pub open spec fn moved_boss(b: Boss, player: Vec2, dt: int) -> Boss {
    let pm = moved(b.pos, b.vel, dt);
    let gap = player.x - pm.x;
    let chase = gap > CHASE_DEADZONE || gap < -CHASE_DEADZONE;
    let dir: int = if gap > 0 { 1 } else { -1 };
    let pc = if chase { Vec2 { x: advance(pm.x as int, dir * WALK_SPEED, dt) as i64, y: pm.y } } else { pm };
    let facing = if chase { if dir > 0 { Facing::Right } else { Facing::Left } } else { b.facing };
    let below = pc.y < GROUND_Y;
    let pg = if below { Vec2 { x: pc.x, y: GROUND_Y } } else { pc };
    let landed = below && b.vel.y < 0;
    let vy = if landed { 0 } else if below { b.vel.y as int } else { clamp_coord(b.vel.y - GRAVITY * dt) };
    Boss {
        pos: pg,
        vel: Vec2 { x: damped(b.vel.x as int, dt) as i64, y: vy as i64 },
        facing,
        jumping: if landed { false } else { b.jumping },
        ..b
    }
}

/// The phase clock: after more than `PHASE_LENGTH` in one phase the boss
/// switches to the other and the clock restarts.
pub open spec fn clocked(b: Boss, dt: int) -> Boss {
    let t = b.phase_timer + dt;
    if t > PHASE_LENGTH {
        Boss {
            phase: match b.phase {
                BossPhase::Attack => BossPhase::Evade,
                BossPhase::Evade => BossPhase::Attack,
            },
            phase_timer: 0,
            ..b
        }
    } else {
        Boss { phase_timer: t as i64, ..b }
    }
}

/// The attack move: jump at the player whenever standing.
pub open spec fn attacked(b: Boss) -> Boss {
    if b.jumping { b } else { Boss { vel: Vec2 { x: b.vel.x, y: JUMP_SPEED }, jumping: true, ..b } }
}

/// The evade move: run away from the player.
pub open spec fn evaded(b: Boss, player: Vec2) -> Boss {
    Boss { vel: Vec2 { x: (if player.x >= b.pos.x { -EVADE_SPEED } else { EVADE_SPEED as int }) as i64, y: b.vel.y }, ..b }
}

/// The move of the current phase.
pub open spec fn acted(b: Boss, player: Vec2) -> Boss {
    match b.phase {
        BossPhase::Attack => attacked(b),
        BossPhase::Evade => evaded(b, player),
    }
}

/// One boss tick.
pub open spec fn boss_step(b: Boss, player: Vec2, dt: int) -> Boss {
    acted(clocked(moved_boss(b, player, dt), dt), player)
}

fn damp(v: i64, dt: u32) -> (r: i64)
    requires
        -1_000_000_000_000_000 <= v <= 1_000_000_000_000_000,
    ensures
        r as int == damped(v as int, dt as int),
{
    let ghost gv = v as int;
    let ghost gd = dt as int;
    if v >= 0 {
        assert(0 <= 10 * gd * gv <= 10 * 0xffff_ffff * 1_000_000_000_000_000) by (nonlinear_arith)
            requires 0 <= gv <= 1_000_000_000_000_000, 0 <= gd <= 0xffff_ffff;
        let loss: i128 = (DAMPING as i128) * (dt as i128) * (v as i128) / 600;
        clamp(v as i128 - loss)
    } else {
        assert(0 <= 10 * gd * (-gv) <= 10 * 0xffff_ffff * 1_000_000_000_000_000) by (nonlinear_arith)
            requires 0 <= -gv <= 1_000_000_000_000_000, 0 <= gd <= 0xffff_ffff;
        let loss: i128 = (DAMPING as i128) * (dt as i128) * (-(v as i128)) / 600;
        clamp(v as i128 + loss)
    }
}

impl Boss {
    /// Pounces when standing.
    pub fn attack(&mut self)
        requires
            old(self).wf(),
        ensures
            final(self).wf(),
            *final(self) == attacked(*old(self)),
    {
        if !self.jumping {
            self.vel.y = JUMP_SPEED;
            self.jumping = true;
        }
    }

    /// Runs away from the player.
    pub fn evade(&mut self, player: Vec2)
        requires
            old(self).wf(),
        ensures
            final(self).wf(),
            *final(self) == evaded(*old(self), player),
    {
        self.vel.x = if player.x >= self.pos.x { -EVADE_SPEED } else { EVADE_SPEED };
    }

    /// One tick of the boss toward a player at `player`: move, chase, fall
    /// or land, damp, advance the phase clock, then act by phase.
    pub fn update(&mut self, player: Vec2, dt: u32)
        requires
            old(self).wf(),
            player.ok(),
        ensures
            final(self).wf(),
            *final(self) == boss_step(*old(self), player, dt as int),
    {
        let ghost b0 = *self;
        let pm = Vec2 { x: advance_coord(self.pos.x, self.vel.x, dt), y: advance_coord(self.pos.y, self.vel.y, dt) };
        let gap: i64 = player.x - pm.x;
        let mut pc = pm;
        if gap > CHASE_DEADZONE || gap < -CHASE_DEADZONE {
            let dir: i64 = if gap > 0 { 1 } else { -1 };
            pc.x = advance_coord(pm.x, dir * WALK_SPEED, dt);
            self.facing = if dir > 0 { Facing::Right } else { Facing::Left };
        }
        let below = pc.y < GROUND_Y;
        if below {
            pc.y = GROUND_Y;
        }
        let vy: i64 = if below && self.vel.y < 0 {
            self.jumping = false;
            0
        } else if below {
            self.vel.y
        } else {
            advance_coord(self.vel.y, -GRAVITY, dt)
        };
        self.pos = pc;
        self.vel = Vec2 { x: damp(self.vel.x, dt), y: vy };
        assert(*self == moved_boss(b0, player, dt as int));
        let t: i64 = self.phase_timer + dt as i64;
        if t > PHASE_LENGTH {
            self.phase = match self.phase {
                BossPhase::Attack => BossPhase::Evade,
                BossPhase::Evade => BossPhase::Attack,
            };
            self.phase_timer = 0;
        } else {
            self.phase_timer = t;
        }
        match self.phase {
            BossPhase::Attack => self.attack(),
            BossPhase::Evade => self.evade(player),
        }
    }
}

/// Bullet `i` of `w` hits a boss at `c`: it is alive and the two discs
/// overlap (centres closer than the sum of the radii).
pub open spec fn hits(w: World, c: Vec2, i: int) -> bool {
    &&& w.bullet@[i] == Some(BulletStatus::Alive)
    &&& w.pos@[i].is_some()
    &&& dist2(w.pos@[i].unwrap(), c) < (BULLET_RADIUS + BOSS_RADIUS) * (BULLET_RADIUS + BOSS_RADIUS)
}

/// Number of the first `i` slots that hit.
pub open spec fn hit_count(w: World, c: Vec2, i: int) -> int
    decreases i,
{
    if i <= 0 { 0 } else { hit_count(w, c, i - 1) + if hits(w, c, i - 1) { 1int } else { 0int } }
}

/// Horizontal speed of slot `i`'s bullet (zero without a velocity).
pub open spec fn bullet_vx(w: World, i: int) -> int {
    if w.vel@[i].is_some() { w.vel@[i].unwrap().x as int } else { 0 }
}

/// The boss's horizontal velocity after the first `i` slots pushed it:
/// each hit adds half the bullet's horizontal velocity.
pub open spec fn knocked_vx(w: World, c: Vec2, vx: int, i: int) -> int
    decreases i,
{
    if i <= 0 {
        vx
    } else {
        let v = knocked_vx(w, c, vx, i - 1);
        if hits(w, c, i - 1) { clamp_coord(v + half(bullet_vx(w, i - 1))) } else { v }
    }
}

/// The bullet pool after the hits: every hitting bullet is dead.
pub open spec fn spent(w: World, c: Vec2) -> Seq<Option<BulletStatus>> {
    Seq::new(w.n(), |i: int| if hits(w, c, i) { Some(BulletStatus::Dead) } else { w.bullet@[i] })
}

/// Boss `b` after the bullets of `w` that hit it.
pub open spec fn hit_boss(b: Boss, w: World) -> Boss {
    let hp = b.hp - BULLET_DAMAGE * hit_count(w, b.pos, w.n() as int);
    Boss {
        hp: hp as i64,
        vel: Vec2 { x: knocked_vx(w, b.pos, b.vel.x as int, w.n() as int) as i64, y: b.vel.y },
        ..b
    }
}

/// A disc, for overlap tests.
pub struct Disc {
    pub pos: Vec2,
    pub radius: i64,
}

impl Disc {
    pub fn new(pos: Vec2, radius: i64) -> (r: Disc)
        ensures
            r.pos == pos,
            r.radius == radius,
    {
        Disc { pos, radius }
    }

    /// The discs overlap: their centres are closer than the sum of the radii.
    pub fn intersects(&self, other: &Disc) -> (r: bool)
        requires
            self.pos.ok(),
            other.pos.ok(),
            0 <= self.radius <= 1_000_000_000_000_000,
            0 <= other.radius <= 1_000_000_000_000_000,
        ensures
            r == (dist2(self.pos, other.pos) < (self.radius + other.radius) * (self.radius + other.radius)),
    {
        let dx: i128 = self.pos.x as i128 - other.pos.x as i128;
        let dy: i128 = self.pos.y as i128 - other.pos.y as i128;
        let rs: i128 = self.radius as i128 + other.radius as i128;
        assert(0 <= dx * dx <= 4_000_000_000_000_000_000_000_000_000_000) by (nonlinear_arith)
            requires -2_000_000_000_000_000 <= dx <= 2_000_000_000_000_000;
        assert(0 <= dy * dy <= 4_000_000_000_000_000_000_000_000_000_000) by (nonlinear_arith)
            requires -2_000_000_000_000_000 <= dy <= 2_000_000_000_000_000;
        assert(0 <= rs * rs <= 4_000_000_000_000_000_000_000_000_000_000) by (nonlinear_arith)
            requires 0 <= rs <= 2_000_000_000_000_000;
        dx * dx + dy * dy < rs * rs
    }
}

impl Boss {
    /// Resolves the bullets that hit the boss: each one dies, takes
    /// `BULLET_DAMAGE` hit points, and pushes the boss
    /// by half its horizontal velocity.
    pub fn handle_intersection(&mut self, w: &mut World)
        requires
            old(self).wf(),
            old(w).wf(),
            old(self).hp - BULLET_DAMAGE * old(w).n() >= i64::MIN,
        ensures
            final(self).wf(),
            final(w).wf(),
            final(w).bullet@ == spent(*old(w), old(self).pos),
            final(w).pos@ == old(w).pos@,
            final(w).vel@ == old(w).vel@,
            final(w).cooldown@ == old(w).cooldown@,
            final(w).swing@ == old(w).swing@,
            final(w).is_jumping@ == old(w).is_jumping@,
            final(w).facing@ == old(w).facing@,
            final(w).entities@ == old(w).entities@,
            final(w).is_player@ == old(w).is_player@,
            final(w).has_gravity@ == old(w).has_gravity@,
            final(w).is_hook@ == old(w).is_hook@,
            final(w).player == old(w).player,
            final(w).reload == old(w).reload,
            *final(self) == hit_boss(*old(self), *old(w)),
    {
        let ghost w0 = *w;
        let ghost b0 = *self;
        let n = w.bullet.len();
        let me = Disc::new(self.pos, BOSS_RADIUS);
        let mut i: usize = 0;
        while i < n
            invariant
                w0.wf(),
                b0.wf(),
                n == w0.n(),
                i <= n,
                me.pos == b0.pos,
                me.radius == BOSS_RADIUS,
                self.wf(),
                *self == (Boss { hp: self.hp, vel: Vec2 { x: self.vel.x, y: b0.vel.y }, ..b0 }),
                self.hp == b0.hp - BULLET_DAMAGE * hit_count(w0, b0.pos, i as int),
                b0.hp - BULLET_DAMAGE * n >= i64::MIN,
                self.vel.x == knocked_vx(w0, b0.pos, b0.vel.x as int, i as int),
                0 <= hit_count(w0, b0.pos, i as int) <= i,
                w.pos@ == w0.pos@,
                w.vel@ == w0.vel@,
                w.cooldown@ == w0.cooldown@,
                w.swing@ == w0.swing@,
                w.is_jumping@ == w0.is_jumping@,
                w.facing@ == w0.facing@,
                w.entities@ == w0.entities@,
                w.is_player@ == w0.is_player@,
                w.has_gravity@ == w0.has_gravity@,
                w.is_hook@ == w0.is_hook@,
                w.player == w0.player,
                w.reload == w0.reload,
                w.bullet@.len() == n,
                forall|j: int| 0 <= j < i ==> #[trigger] w.bullet@[j] == (if hits(w0, b0.pos, j) { Some(BulletStatus::Dead) } else { w0.bullet@[j] }),
                forall|j: int| i <= j < n ==> #[trigger] w.bullet@[j] == w0.bullet@[j],
            decreases n - i,
        {
            let alive = match w.bullet.get(i) {
                Some(BulletStatus::Alive) => true,
                _ => false,
            };
            if alive {
                match w.pos.get(i) {
                    Some(q) => {
                        let d = Disc::new(q, BULLET_RADIUS);
                        if d.intersects(&me) {
                            w.bullet.insert(i, BulletStatus::Dead);
                            self.hp = self.hp - BULLET_DAMAGE;
                            let bvx: i64 = match w.vel.get(i) {
                                Some(v) => v.x,
                                None => 0,
                            };
                            let h: i64 = if bvx >= 0 { bvx / 2 } else { -((-bvx) / 2) };
                            self.vel.x = clamp(self.vel.x as i128 + h as i128);
                        }
                    },
                    None => {},
                }
            }
            i += 1;
        }
        assert(w.bullet@ =~= spent(w0, b0.pos));
        assert(w.values_ok());
    }
}

} // verus!
