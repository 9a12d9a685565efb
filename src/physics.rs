//! Kinematics: integrate positions from velocities, then apply gravity.
use vstd::prelude::*;
use crate::units::{Vec2, advance, advance_coord, clamp_coord, coord_ok};
use crate::world::{World, BulletStatus, GRAVITY};

verus! {

/// `p + v * dt`, saturated per coordinate.
pub open spec fn moved(p: Vec2, v: Vec2, dt: int) -> Vec2 {
    Vec2 { x: advance(p.x as int, v.x as int, dt) as i64, y: advance(p.y as int, v.y as int, dt) as i64 }
}

/// `v` after `dt` of gravity.
pub open spec fn fallen(v: Vec2, dt: int) -> Vec2 {
    Vec2 { x: v.x, y: clamp_coord(v.y - GRAVITY * dt) as i64 }
}

/// Entity `i` moves under kinematics: it has a position and a velocity and
/// is not a dead bullet.
pub open spec fn integrates(w: World, i: int) -> bool {
    &&& w.pos@[i].is_some()
    &&& w.vel@[i].is_some()
    &&& w.bullet@[i] != Some(BulletStatus::Dead)
}

pub open spec fn kin_pos(w: World, i: int, dt: int) -> Option<Vec2> {
    if integrates(w, i) {
        Some(moved(w.pos@[i].unwrap(), w.vel@[i].unwrap(), dt))
    } else {
        w.pos@[i]
    }
}

pub open spec fn kin_vel(w: World, i: int, dt: int) -> Option<Vec2> {
    if integrates(w, i) && w.has_gravity@[i].is_some() {
        Some(fallen(w.vel@[i].unwrap(), dt))
    } else {
        w.vel@[i]
    }
}

/// The tables that no system changes.
pub open spec fn same_frame(a: World, b: World) -> bool {
    &&& b.entities@ == a.entities@
    &&& b.is_player@ == a.is_player@
    &&& b.has_gravity@ == a.has_gravity@
    &&& b.is_hook@ == a.is_hook@
    &&& b.player == a.player
    &&& b.reload == a.reload
}

/// `b` is `a` after one kinematics pass of `dt`.
pub open spec fn kinematics_post(a: World, b: World, dt: int) -> bool {
    &&& same_frame(a, b)
    &&& b.facing@ == a.facing@
    &&& b.is_jumping@ == a.is_jumping@
    &&& b.cooldown@ == a.cooldown@
    &&& b.bullet@ == a.bullet@
    &&& b.swing@ == a.swing@
    &&& b.pos@ == Seq::new(a.n(), |i: int| kin_pos(a, i, dt))
    &&& b.vel@ == Seq::new(a.n(), |i: int| kin_vel(a, i, dt))
}

/// One kinematics pass over an entity with gravity: its vertical velocity
/// drops by exactly `GRAVITY * dt`, and its new position is its old position
/// plus its old velocity times `dt` (the update is semi-implicit: gravity
/// acts on the next tick's motion). Holds wherever no coordinate saturates.
pub proof fn lemma_gravity_step(a: World, b: World, dt: nat, i: int)
    requires
        a.wf(),
        kinematics_post(a, b, dt as int),
        0 <= i < a.n(),
        integrates(a, i),
        a.has_gravity@[i].is_some(),
        coord_ok(a.pos@[i].unwrap().x + a.vel@[i].unwrap().x * dt),
        coord_ok(a.pos@[i].unwrap().y + a.vel@[i].unwrap().y * dt),
        coord_ok(a.vel@[i].unwrap().y - GRAVITY * dt),
    ensures
        b.vel@[i].unwrap().y == a.vel@[i].unwrap().y - GRAVITY * dt,
        b.vel@[i].unwrap().x == a.vel@[i].unwrap().x,
        b.pos@[i].unwrap().x == a.pos@[i].unwrap().x + a.vel@[i].unwrap().x * dt,
        b.pos@[i].unwrap().y == a.pos@[i].unwrap().y + a.vel@[i].unwrap().y * dt,
{
    assert(b.vel@[i] == kin_vel(a, i, dt as int));
    assert(b.pos@[i] == kin_pos(a, i, dt as int));
}

impl World {
    /// One kinematics pass: every moving entity advances by its velocity of
    /// the previous tick, then those with gravity lose `GRAVITY * dt` of
    /// vertical velocity.
    pub fn kinematics(&mut self, dt: u32)
        requires
            old(self).wf(),
        ensures
            final(self).wf(),
            kinematics_post(*old(self), *final(self), dt as int),
    {
        let ghost w0 = *self;
        let n = self.entities.len();
        let mut i: usize = 0;
        while i < n
            invariant
                w0.wf(),
                n == w0.n(),
                i <= n,
                same_frame(w0, *self),
                self.facing@ == w0.facing@,
                self.is_jumping@ == w0.is_jumping@,
                self.cooldown@ == w0.cooldown@,
                self.bullet@ == w0.bullet@,
                self.swing@ == w0.swing@,
                self.pos@.len() == n,
                self.vel@.len() == n,
                forall|j: int| 0 <= j < i ==> #[trigger] self.pos@[j] == kin_pos(w0, j, dt as int),
                forall|j: int| 0 <= j < i ==> #[trigger] self.vel@[j] == kin_vel(w0, j, dt as int),
                forall|j: int| i <= j < n ==> #[trigger] self.pos@[j] == w0.pos@[j],
                forall|j: int| i <= j < n ==> #[trigger] self.vel@[j] == w0.vel@[j],
            decreases n - i,
        {
            let dead = match self.bullet.get(i) {
                Some(BulletStatus::Dead) => true,
                _ => false,
            };
            match (self.pos.get(i), self.vel.get(i)) {
                (Some(p), Some(v)) => {
                    if !dead {
                        assert(w0.pos@[i as int].is_some() && w0.vel@[i as int].is_some());
                        let np = Vec2 { x: advance_coord(p.x, v.x, dt), y: advance_coord(p.y, v.y, dt) };
                        self.pos.insert(i, np);
                        if self.has_gravity.contains(i) {
                            let g: u32 = dt;
                            let ny = advance_coord(v.y, -GRAVITY, g);
                            assert(ny as int == clamp_coord(v.y - GRAVITY * dt)) by (nonlinear_arith)
                                requires ny as int == clamp_coord(v.y as int + (-GRAVITY) * dt as int);
                            self.vel.insert(i, Vec2 { x: v.x, y: ny });
                        }
                    }
                },
                _ => {},
            }
            i += 1;
        }
        assert(self.pos@ =~= Seq::new(w0.n(), |j: int| kin_pos(w0, j, dt as int)));
        assert(self.vel@ =~= Seq::new(w0.n(), |j: int| kin_vel(w0, j, dt as int)));
        assert forall|j: int| 0 <= j < self.n() && (#[trigger] self.pos@[j]).is_some() implies self.pos@[j].unwrap().ok() by {
            assert(self.pos@[j] == kin_pos(w0, j, dt as int));
        }
        assert forall|j: int| 0 <= j < self.n() && (#[trigger] self.vel@[j]).is_some() implies self.vel@[j].unwrap().ok() by {
            assert(self.vel@[j] == kin_vel(w0, j, dt as int));
        }
        assert forall|j: int| 0 <= j < self.n() && (#[trigger] self.swing@[j]).is_some() implies self.pos@[self.swing@[j].unwrap().hook as int].is_some() by {
            let h = self.swing@[j].unwrap().hook as int;
            assert(self.pos@[h] == kin_pos(w0, h, dt as int));
        }
    }
}

} // verus!
