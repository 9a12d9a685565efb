//! The world: the entity registry, one table per component kind, and the
//! setup that fills them.
use vstd::prelude::*;
use crate::ecs::{Entity, Registry, Table};
use crate::units::{Vec2, COORD_LIMIT};

verus! {

/// Gravity: velocity units lost per time unit (500 world units / s²).
pub const GRAVITY: i64 = 500;

/// Walking speed in velocity units (100 world units / s).
pub const WALK_SPEED: i64 = 60_000;

/// Vertical speed given by a jump (300 world units / s).
pub const JUMP_SPEED: i64 = 180_000;

/// Speed of a fired bullet (600 world units / s).
pub const BULLET_SPEED: i64 = 360_000;

/// Height of the ground (-150 world units).
pub const GROUND_Y: i64 = -54_000_000;

/// Half the side of the square outside which bullets die (400 world units).
pub const ARENA_BOUND: i64 = 144_000_000;

/// Hooks closer than this can be grabbed (100 world units).
pub const HOOK_RANGE: i64 = 36_000_000;

/// Time between two shots (0.035 s).
pub const SHOT_COOLDOWN: i64 = 21;

/// Which way an actor looks.
#[derive(Clone, Copy, Debug, PartialEq, Eq, Structural)]
pub enum Facing {
    Left,
    Right,
}

impl Facing {
    pub open spec fn sign(self) -> int {
        match self {
            Facing::Left => -1,
            Facing::Right => 1,
        }
    }

    /// -1 for Left, +1 for Right.
    pub fn to_sign(self) -> (r: i64)
        ensures
            r as int == self.sign(),
    {
        match self {
            Facing::Left => -1,
            Facing::Right => 1,
        }
    }
}

/// State of a bullet slot of the pool.
#[derive(Clone, Copy, Debug, PartialEq, Eq, Structural)]
pub enum BulletStatus {
    Alive,
    Dead,
}

/// Pendulum parameters linking an actor to the hook it hangs from.
///
/// The starting angle is the angle of `(dx, dy)` measured from straight
/// down, and `pump` (in time units, i.e. 1/600 radian) is what horizontal
/// input has added to it since.
#[derive(Clone, Copy, Debug, PartialEq, Eq, Structural)]
pub struct SwingBinding {
    /// The hook used as the pivot.
    pub hook: Entity,
    /// Actor minus hook at the moment of attaching.
    pub dx: i64,
    pub dy: i64,
    /// Pendulum radius: the integer square root of `dx² + dy²`.
    pub dist: i64,
    /// Simulation time of attaching.
    pub start_time: u64,
    /// Change of the starting angle from horizontal input.
    pub pump: i64,
}

/// Rejected world configurations.
#[derive(Clone, Copy, Debug, PartialEq, Eq, Structural)]
pub enum SetupError {
    /// A bullet pool must hold at least one slot.
    EmptyPool,
    /// The reload time must not be negative.
    NegativeReload,
    /// A hook coordinate lies outside the representable range.
    HookOutOfRange,
}

/// What a world is made from.
pub struct Config {
    /// Number of bullet slots.
    pub pool_size: usize,
    /// Cooldown set by each shot, in time units.
    pub reload: i64,
    /// Positions of the hooks.
    pub hooks: Vec<Vec2>,
}

pub struct World {
    pub entities: Registry,
    pub pos: Table<Vec2>,
    pub vel: Table<Vec2>,
    pub facing: Table<Facing>,
    pub is_player: Table<()>,
    pub has_gravity: Table<()>,
    pub is_jumping: Table<bool>,
    pub cooldown: Table<i64>,
    pub bullet: Table<BulletStatus>,
    pub is_hook: Table<()>,
    pub swing: Table<SwingBinding>,
    /// The one entity that holds `is_player`.
    pub player: Entity,
    /// Cooldown set by each shot.
    pub reload: i64,
}

/// A binding whose numbers stay within the ranges the systems compute in.
pub open spec fn binding_ok(b: SwingBinding) -> bool {
    &&& -(HOOK_RANGE as int) <= b.dx <= HOOK_RANGE as int
    &&& -(HOOK_RANGE as int) <= b.dy <= HOOK_RANGE as int
    &&& 0 <= b.dist <= HOOK_RANGE as int
    &&& -(COORD_LIMIT as int) <= b.pump <= COORD_LIMIT as int
}

impl World {
    /// Number of entities ever created.
    pub open spec fn n(&self) -> nat {
        self.entities@.len()
    }

    /// Every table has one slot per entity.
    pub open spec fn aligned(&self) -> bool {
        let n = self.n();
        &&& n <= usize::MAX
        &&& self.pos@.len() == n
        &&& self.vel@.len() == n
        &&& self.facing@.len() == n
        &&& self.is_player@.len() == n
        &&& self.has_gravity@.len() == n
        &&& self.is_jumping@.len() == n
        &&& self.cooldown@.len() == n
        &&& self.bullet@.len() == n
        &&& self.is_hook@.len() == n
        &&& self.swing@.len() == n
    }

    /// Stored positions and velocities are in range, cooldowns lie in
    /// `[0, reload]`, and bindings name a hook.
    pub open spec fn values_ok(&self) -> bool {
        &&& forall|i: int| 0 <= i < self.n() && (#[trigger] self.pos@[i]).is_some() ==> self.pos@[i].unwrap().ok()
        &&& forall|i: int| 0 <= i < self.n() && (#[trigger] self.vel@[i]).is_some() ==> self.vel@[i].unwrap().ok()
        &&& forall|i: int| 0 <= i < self.n() && (#[trigger] self.cooldown@[i]).is_some()
            ==> 0 <= self.cooldown@[i].unwrap() <= self.reload
        &&& forall|i: int| 0 <= i < self.n() && (#[trigger] self.swing@[i]).is_some() ==> {
            let b = self.swing@[i].unwrap();
            &&& b.hook < self.n()
            &&& self.is_hook@[b.hook as int].is_some()
            &&& self.pos@[b.hook as int].is_some()
            &&& binding_ok(b)
        }
    }

    /// Exactly one entity is the player, and it has every component the
    /// player systems read.
    pub open spec fn player_ok(&self) -> bool {
        let p = self.player as int;
        &&& 0 <= p < self.n()
        &&& forall|i: int| 0 <= i < self.n() ==> ((#[trigger] self.is_player@[i]).is_some() <==> i == p)
        &&& self.pos@[p].is_some()
        &&& self.vel@[p].is_some()
        &&& self.has_gravity@[p].is_some()
        &&& self.facing@[p].is_some()
        &&& self.cooldown@[p].is_some()
        &&& self.is_jumping@[p].is_some()
        &&& self.bullet@[p].is_none()
        &&& self.is_hook@[p].is_none()
    }

    /// The world's invariant, kept by every system.
    pub open spec fn wf(&self) -> bool {
        &&& self.aligned()
        &&& self.values_ok()
        &&& self.player_ok()
        &&& 0 <= self.reload
    }

    /// The layout `new` builds from `c`: the player is entity 0, the
    /// bullet slots follow, then the hooks.
    pub open spec fn built_from(&self, c: &Config) -> bool {
        let pool = c.pool_size as int;
        let hooks = c.hooks@;
        &&& self.wf()
        &&& self.n() == 1 + pool + hooks.len()
        &&& self.player == 0
        &&& self.reload == c.reload
        &&& forall|i: int| 0 <= i < self.n() ==> #[trigger] self.entities@[i]
        &&& self.pos@[0] == Some(Vec2 { x: 0, y: 0 })
        &&& self.vel@[0] == Some(Vec2 { x: 0, y: 0 })
        &&& self.facing@[0] == Some(Facing::Right)
        &&& self.has_gravity@[0].is_some()
        &&& self.is_jumping@[0] == Some(false)
        &&& self.cooldown@[0] == Some(c.reload)
        &&& forall|i: int| 1 <= i <= pool ==> {
            &&& #[trigger] self.bullet@[i] == Some(BulletStatus::Dead)
            &&& self.pos@[i] == Some(Vec2 { x: 0, y: 0 })
            &&& self.vel@[i] == Some(Vec2 { x: 0, y: 0 })
            &&& self.has_gravity@[i].is_none()
        }
        &&& forall|j: int| 0 <= j < hooks.len() ==> {
            &&& #[trigger] self.is_hook@[1 + pool + j].is_some()
            &&& self.pos@[1 + pool + j] == Some(hooks[j])
            &&& self.vel@[1 + pool + j].is_none()
        }
        &&& forall|i: int| 0 <= i < self.n() ==> (#[trigger] self.bullet@[i]).is_some() == (1 <= i <= pool)
        &&& forall|i: int| 0 <= i < self.n() ==> (#[trigger] self.is_hook@[i]).is_some() == (1 + pool <= i)
        &&& forall|i: int| 0 <= i < self.n() ==> (#[trigger] self.swing@[i]).is_none()
    }

    /// Builds the world: one player at the origin facing right, `pool_size`
    /// dead bullet slots, and one hook at each given position.
    pub fn new(c: &Config) -> (r: Result<World, SetupError>)
        ensures
            c.pool_size == 0 ==> r == Err::<World, SetupError>(SetupError::EmptyPool),
            c.pool_size > 0 && c.reload < 0 ==> r == Err::<World, SetupError>(SetupError::NegativeReload),
            c.pool_size > 0 && 0 <= c.reload && (exists|j: int| 0 <= j < c.hooks@.len() && !(#[trigger] c.hooks@[j]).ok())
                ==> r == Err::<World, SetupError>(SetupError::HookOutOfRange),
            r.is_ok() <==> (c.pool_size > 0 && 0 <= c.reload && forall|j: int| 0 <= j < c.hooks@.len() ==> (#[trigger] c.hooks@[j]).ok()),
            r matches Ok(w) ==> w.built_from(c),
    {
        if c.pool_size == 0 {
            return Err(SetupError::EmptyPool);
        }
        if c.reload < 0 {
            return Err(SetupError::NegativeReload);
        }
        let mut k: usize = 0;
        while k < c.hooks.len()
            invariant
                k <= c.hooks@.len(),
                c.pool_size > 0,
                0 <= c.reload,
                forall|j: int| 0 <= j < k ==> (#[trigger] c.hooks@[j]).ok(),
            decreases c.hooks@.len() - k,
        {
            let h = c.hooks[k];
            if h.x < -COORD_LIMIT || h.x > COORD_LIMIT || h.y < -COORD_LIMIT || h.y > COORD_LIMIT {
                return Err(SetupError::HookOutOfRange);
            }
            k += 1;
        }
        let mut w = World {
            entities: Registry::new(),
            pos: Table::new(),
            vel: Table::new(),
            facing: Table::new(),
            is_player: Table::new(),
            has_gravity: Table::new(),
            is_jumping: Table::new(),
            cooldown: Table::new(),
            bullet: Table::new(),
            is_hook: Table::new(),
            swing: Table::new(),
            player: 0,
            reload: c.reload,
        };
        let zero = Vec2 { x: 0, y: 0 };
        let p = w.create_entity();
        w.pos.insert(p, zero);
        w.vel.insert(p, zero);
        w.facing.insert(p, Facing::Right);
        w.is_player.insert(p, ());
        w.has_gravity.insert(p, ());
        w.is_jumping.insert(p, false);
        w.cooldown.insert(p, c.reload);
        let mut i: usize = 0;
        while i < c.pool_size
            invariant
                i <= c.pool_size,
                w.aligned(),
                w.n() == 1 + i,
                w.player == 0,
                w.reload == c.reload,
                0 <= c.reload,
                forall|t: int| 0 <= t < w.n() ==> #[trigger] w.entities@[t],
                w.pos@[0] == Some(zero),
                w.vel@[0] == Some(zero),
                w.facing@[0] == Some(Facing::Right),
                w.is_player@[0].is_some(),
                w.has_gravity@[0].is_some(),
                w.is_jumping@[0] == Some(false),
                w.cooldown@[0] == Some(c.reload),
                forall|t: int| 1 <= t < w.n() ==> {
                    &&& #[trigger] w.bullet@[t] == Some(BulletStatus::Dead)
                    &&& w.pos@[t] == Some(zero)
                    &&& w.vel@[t] == Some(zero)
                    &&& w.has_gravity@[t].is_none()
                    &&& w.is_player@[t].is_none()
                    &&& w.cooldown@[t].is_none()
                },
                w.bullet@[0].is_none(),
                forall|t: int| 0 <= t < w.n() ==> (#[trigger] w.is_hook@[t]).is_none(),
                forall|t: int| 0 <= t < w.n() ==> (#[trigger] w.swing@[t]).is_none(),
            decreases c.pool_size - i,
        {
            let e = w.create_entity();
            w.pos.insert(e, zero);
            w.vel.insert(e, zero);
            w.bullet.insert(e, BulletStatus::Dead);
            i += 1;
        }
        let mut j: usize = 0;
        while j < c.hooks.len()
            invariant
                j <= c.hooks@.len(),
                forall|t: int| 0 <= t < c.hooks@.len() ==> (#[trigger] c.hooks@[t]).ok(),
                w.aligned(),
                w.n() == 1 + c.pool_size + j,
                w.player == 0,
                w.reload == c.reload,
                0 <= c.reload,
                forall|t: int| 0 <= t < w.n() ==> #[trigger] w.entities@[t],
                w.pos@[0] == Some(zero),
                w.vel@[0] == Some(zero),
                w.facing@[0] == Some(Facing::Right),
                w.is_player@[0].is_some(),
                w.has_gravity@[0].is_some(),
                w.is_jumping@[0] == Some(false),
                w.cooldown@[0] == Some(c.reload),
                forall|t: int| 1 <= t <= c.pool_size ==> {
                    &&& #[trigger] w.bullet@[t] == Some(BulletStatus::Dead)
                    &&& w.pos@[t] == Some(zero)
                    &&& w.vel@[t] == Some(zero)
                    &&& w.has_gravity@[t].is_none()
                    &&& w.is_player@[t].is_none()
                    &&& w.cooldown@[t].is_none()
                },
                forall|t: int| 0 <= t < j ==> {
                    &&& #[trigger] w.is_hook@[1 + c.pool_size + t].is_some()
                    &&& w.pos@[1 + c.pool_size + t] == Some(c.hooks@[t])
                },
                forall|t: int| 1 + c.pool_size <= t < w.n() ==> {
                    &&& (#[trigger] w.bullet@[t]).is_none()
                    &&& w.vel@[t].is_none()
                    &&& w.is_player@[t].is_none()
                    &&& w.cooldown@[t].is_none()
                    &&& w.is_hook@[t].is_some()
                    &&& w.pos@[t].is_some() && w.pos@[t].unwrap().ok()
                },
                w.bullet@[0].is_none(),
                w.is_hook@[0].is_none(),
                forall|t: int| 1 <= t <= c.pool_size ==> (#[trigger] w.is_hook@[t]).is_none(),
                forall|t: int| 0 <= t < w.n() ==> (#[trigger] w.swing@[t]).is_none(),
            decreases c.hooks@.len() - j,
        {
            let e = w.create_entity();
            w.pos.insert(e, c.hooks[j]);
            w.is_hook.insert(e, ());
            j += 1;
        }
        assert(w.aligned());
        assert forall|i: int| 0 <= i < w.n() implies
            (w.pos@[i].is_some() ==> w.pos@[i].unwrap().ok())
            && (w.vel@[i].is_some() ==> w.vel@[i].unwrap().ok())
            && (w.cooldown@[i].is_some() ==> 0 <= w.cooldown@[i].unwrap() <= w.reload)
            && (w.is_player@[i].is_some() <==> i == 0) by {
            if 1 <= i <= c.pool_size {
                assert(w.bullet@[i] == Some(BulletStatus::Dead));
            } else if i > c.pool_size {
                assert(w.bullet@[i].is_none());
            }
        }
        assert(w.values_ok());
        assert(w.player_ok());
        assert(w.wf());
        assert forall|i: int| 0 <= i < w.n() implies
            (w.bullet@[i].is_some() == (1 <= i <= c.pool_size))
            && (w.is_hook@[i].is_some() == (1 + c.pool_size <= i)) by {
            if 1 <= i <= c.pool_size {
                assert(w.bullet@[i] == Some(BulletStatus::Dead));
            } else if i > c.pool_size {
                assert(w.bullet@[i].is_none());
            }
        }
        assert forall|t: int| 0 <= t < c.hooks@.len() implies (#[trigger] w.vel@[1 + c.pool_size + t]).is_none() by {
            assert(w.bullet@[1 + c.pool_size + t].is_none());
        }
        assert(w.built_from(c));
        Ok(w)
    }

    /// A new entity with no components.
    fn create_entity(&mut self) -> (e: Entity)
        requires
            old(self).aligned(),
        ensures
            e == old(self).n(),
            final(self).aligned(),
            final(self).entities@ == old(self).entities@.push(true),
            final(self).pos@ == old(self).pos@.push(None),
            final(self).vel@ == old(self).vel@.push(None),
            final(self).facing@ == old(self).facing@.push(None),
            final(self).is_player@ == old(self).is_player@.push(None),
            final(self).has_gravity@ == old(self).has_gravity@.push(None),
            final(self).is_jumping@ == old(self).is_jumping@.push(None),
            final(self).cooldown@ == old(self).cooldown@.push(None),
            final(self).bullet@ == old(self).bullet@.push(None),
            final(self).is_hook@ == old(self).is_hook@.push(None),
            final(self).swing@ == old(self).swing@.push(None),
            final(self).player == old(self).player,
            final(self).reload == old(self).reload,
    {
        let e = self.entities.create();
        self.pos.push_empty();
        self.vel.push_empty();
        self.facing.push_empty();
        self.is_player.push_empty();
        self.has_gravity.push_empty();
        self.is_jumping.push_empty();
        self.cooldown.push_empty();
        self.bullet.push_empty();
        self.is_hook.push_empty();
        self.swing.push_empty();
        e
    }
}

} // verus!
