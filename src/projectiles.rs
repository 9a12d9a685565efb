//! The bullet pool: fire into the first dead slot, kill bullets that leave
//! the arena.
use vstd::prelude::*;
use crate::units::Vec2;
use crate::input::InputState;
use crate::physics::same_frame;
use crate::world::{World, BulletStatus, ARENA_BOUND, BULLET_SPEED};

verus! {

/// `k` is the first dead slot of `s`, or `s.len()` when none is dead.
pub open spec fn is_first_free(s: Seq<Option<BulletStatus>>, k: int) -> bool {
    &&& 0 <= k <= s.len()
    &&& k < s.len() ==> s[k] == Some(BulletStatus::Dead)
    &&& forall|j: int| 0 <= j < k ==> #[trigger] s[j] != Some(BulletStatus::Dead)
}

/// The slot the next shot goes to (`s.len()` when the pool is exhausted).
pub open spec fn first_free(s: Seq<Option<BulletStatus>>) -> int {
    choose|k: int| is_first_free(s, k)
}

/// There is exactly one first free slot.
pub proof fn lemma_first_free(s: Seq<Option<BulletStatus>>, k: int)
    requires
        is_first_free(s, k),
    ensures
        first_free(s) == k,
{
    let c = first_free(s);
    assert(is_first_free(s, c));
    if c < k {
        assert(s[c] != Some(BulletStatus::Dead));
    } else if k < c {
        assert(s[k] != Some(BulletStatus::Dead));
    }
}

/// A shot is fired: Shoot is held and the cooldown is over.
pub open spec fn fires(a: World, input: InputState) -> bool {
    input.keys.shoot && a.cooldown@[a.player as int] == Some(0i64)
}

/// The slot a shot in `a` takes, if there is one.
pub open spec fn shot_slot(a: World, input: InputState) -> int {
    if fires(a, input) { first_free(a.bullet@) } else { a.n() as int }
}

pub open spec fn fired_bullets(a: World, input: InputState) -> Seq<Option<BulletStatus>> {
    let k = shot_slot(a, input);
    if 0 <= k < a.n() { a.bullet@.update(k, Some(BulletStatus::Alive)) } else { a.bullet@ }
}

pub open spec fn fired_pos(a: World, input: InputState) -> Seq<Option<Vec2>> {
    let k = shot_slot(a, input);
    if 0 <= k < a.n() { a.pos@.update(k, a.pos@[a.player as int]) } else { a.pos@ }
}

/// Velocity of a bullet fired by an actor facing `sign`.
pub open spec fn muzzle_velocity(sign: int) -> Vec2 {
    Vec2 { x: (BULLET_SPEED * sign) as i64, y: 0 }
}

pub open spec fn fired_vel(a: World, input: InputState) -> Seq<Option<Vec2>> {
    let k = shot_slot(a, input);
    if 0 <= k < a.n() {
        a.vel@.update(k, Some(muzzle_velocity(a.facing@[a.player as int].unwrap().sign())))
    } else {
        a.vel@
    }
}

pub open spec fn fired_cooldown(a: World, input: InputState) -> Seq<Option<i64>> {
    if fires(a, input) { a.cooldown@.update(a.player as int, Some(a.reload)) } else { a.cooldown@ }
}

/// A position outside the arena square.
pub open spec fn out_of_arena(p: Vec2) -> bool {
    p.x > ARENA_BOUND || p.x < -ARENA_BOUND || p.y > ARENA_BOUND || p.y < -ARENA_BOUND
}

/// Slot `i` after the out-of-bounds check.
pub open spec fn after_bounds(bullet: Option<BulletStatus>, pos: Option<Vec2>) -> Option<BulletStatus> {
    if bullet == Some(BulletStatus::Alive) && pos.is_some() && out_of_arena(pos.unwrap()) {
        Some(BulletStatus::Dead)
    } else {
        bullet
    }
}

pub open spec fn despawned(bullet: Seq<Option<BulletStatus>>, pos: Seq<Option<Vec2>>) -> Seq<Option<BulletStatus>> {
    Seq::new(bullet.len(), |i: int| after_bounds(bullet[i], pos[i]))
}

/// `b` is `a` after one projectile pass.
pub open spec fn projectiles_post(a: World, b: World, input: InputState) -> bool {
    &&& same_frame(a, b)
    &&& b.facing@ == a.facing@
    &&& b.is_jumping@ == a.is_jumping@
    &&& b.swing@ == a.swing@
    &&& b.cooldown@ == fired_cooldown(a, input)
    &&& b.pos@ == fired_pos(a, input)
    &&& b.vel@ == fired_vel(a, input)
    &&& b.bullet@ == despawned(fired_bullets(a, input), fired_pos(a, input))
}

/// With no dead slot the pool is exhausted: a shot changes no slot, and
/// after the pass no slot is alive that was not alive before.
pub proof fn lemma_exhausted_pool(a: World, b: World, input: InputState)
    requires
        a.wf(),
        forall|i: int| 0 <= i < a.n() ==> #[trigger] a.bullet@[i] != Some(BulletStatus::Dead),
        projectiles_post(a, b, input),
    ensures
        fired_bullets(a, input) == a.bullet@,
        b.pos@ == a.pos@,
        b.vel@ == a.vel@,
        b.bullet@ == despawned(a.bullet@, a.pos@),
        forall|i: int| 0 <= i < a.n() && #[trigger] b.bullet@[i] == Some(BulletStatus::Alive)
            ==> a.bullet@[i] == Some(BulletStatus::Alive),
{
    lemma_first_free(a.bullet@, a.n() as int);
}

/// A recycled slot is reused: when the out-of-bounds check kills the live
/// bullet in slot `k` and no earlier slot is dead, the next shot of a world
/// with that pool goes to slot `k`, at the player's position.
pub proof fn lemma_recycled_slot(a: World, b: World, input: InputState, k: int, c: World, d: World, input2: InputState)
    requires
        a.wf(),
        0 <= k < a.n(),
        projectiles_post(a, b, input),
        fired_bullets(a, input)[k] == Some(BulletStatus::Alive),
        out_of_arena(fired_pos(a, input)[k].unwrap()),
        fired_pos(a, input)[k].is_some(),
        forall|j: int| 0 <= j < k ==> #[trigger] b.bullet@[j] != Some(BulletStatus::Dead),
        c.wf(),
        c.bullet@ == b.bullet@,
        fires(c, input2),
        projectiles_post(c, d, input2),
    ensures
        b.bullet@[k] == Some(BulletStatus::Dead),
        shot_slot(c, input2) == k,
        fired_bullets(c, input2)[k] == Some(BulletStatus::Alive),
        d.pos@[k] == c.pos@[c.player as int],
{
    let fb = fired_bullets(a, input);
    assert(fb.len() == a.n());
    assert(b.bullet@ == despawned(fb, fired_pos(a, input)));
    assert(despawned(fb, fired_pos(a, input))[k] == after_bounds(fb[k], fired_pos(a, input)[k]));
    assert(c.bullet@.len() == a.n());
    assert(is_first_free(c.bullet@, k));
    lemma_first_free(c.bullet@, k);
}

impl World {
    /// The first dead slot, or the number of entities when none is dead.
    pub fn first_free_slot(&self) -> (k: usize)
        requires
            self.wf(),
        ensures
            is_first_free(self.bullet@, k as int),
            k == first_free(self.bullet@),
    {
        let n = self.bullet.len();
        let mut k: usize = 0;
        while k < n
            invariant
                n == self.bullet@.len(),
                k <= n,
                forall|j: int| 0 <= j < k ==> #[trigger] self.bullet@[j] != Some(BulletStatus::Dead),
            decreases n - k,
        {
            match self.bullet.get(k) {
                Some(BulletStatus::Dead) => {
                    proof { lemma_first_free(self.bullet@, k as int); }
                    return k;
                },
                _ => {},
            }
            k += 1;
        }
        proof { lemma_first_free(self.bullet@, k as int); }
        k
    }

    /// Fires when Shoot is held and the cooldown is zero: the cooldown is
    /// reloaded, and the first dead slot comes alive at the player's
    /// position with `BULLET_SPEED` the way the player faces. With no dead
    /// slot the shot is dropped.
    pub fn fire(&mut self, input: &InputState)
        requires
            old(self).wf(),
        ensures
            final(self).wf(),
            same_frame(*old(self), *final(self)),
            final(self).facing@ == old(self).facing@,
            final(self).is_jumping@ == old(self).is_jumping@,
            final(self).swing@ == old(self).swing@,
            final(self).cooldown@ == fired_cooldown(*old(self), *input),
            final(self).pos@ == fired_pos(*old(self), *input),
            final(self).vel@ == fired_vel(*old(self), *input),
            final(self).bullet@ == fired_bullets(*old(self), *input),
    {
        let p = self.player;
        let cooldown = self.cooldown.get(p).unwrap();
        if input.keys.shoot && cooldown == 0 {
            let reload = self.reload;
            self.cooldown.insert(p, reload);
            let k = self.first_free_slot();
            if k < self.bullet.len() {
                let pp = self.pos.get(p).unwrap();
                let sign = self.facing.get(p).unwrap().to_sign();
                self.bullet.insert(k, BulletStatus::Alive);
                self.pos.insert(k, pp);
                self.vel.insert(k, Vec2 { x: BULLET_SPEED * sign, y: 0 });
            }
        }
        assert(self.values_ok());
    }

    /// Kills every live bullet outside the arena.
    pub fn despawn_out_of_bounds(&mut self)
        requires
            old(self).wf(),
        ensures
            final(self).wf(),
            same_frame(*old(self), *final(self)),
            final(self).facing@ == old(self).facing@,
            final(self).is_jumping@ == old(self).is_jumping@,
            final(self).swing@ == old(self).swing@,
            final(self).cooldown@ == old(self).cooldown@,
            final(self).pos@ == old(self).pos@,
            final(self).vel@ == old(self).vel@,
            final(self).bullet@ == despawned(old(self).bullet@, old(self).pos@),
    {
        let ghost a = *self;
        let n = self.bullet.len();
        let mut i: usize = 0;
        while i < n
            invariant
                a.wf(),
                n == a.n(),
                i <= n,
                same_frame(a, *self),
                self.facing@ == a.facing@,
                self.is_jumping@ == a.is_jumping@,
                self.swing@ == a.swing@,
                self.cooldown@ == a.cooldown@,
                self.pos@ == a.pos@,
                self.vel@ == a.vel@,
                self.bullet@.len() == n,
                forall|j: int| 0 <= j < i ==> #[trigger] self.bullet@[j] == after_bounds(a.bullet@[j], a.pos@[j]),
                forall|j: int| i <= j < n ==> #[trigger] self.bullet@[j] == a.bullet@[j],
            decreases n - i,
        {
            match (self.bullet.get(i), self.pos.get(i)) {
                (Some(BulletStatus::Alive), Some(q)) => {
                    if q.x > ARENA_BOUND || q.x < -ARENA_BOUND || q.y > ARENA_BOUND || q.y < -ARENA_BOUND {
                        self.bullet.insert(i, BulletStatus::Dead);
                    }
                },
                _ => {},
            }
            i += 1;
        }
        assert(self.bullet@ =~= despawned(a.bullet@, a.pos@));
    }

    /// One projectile pass: fire, then kill what left the arena.
    pub fn projectiles(&mut self, input: &InputState)
        requires
            old(self).wf(),
        ensures
            final(self).wf(),
            projectiles_post(*old(self), *final(self), *input),
    {
        self.fire(input);
        self.despawn_out_of_bounds();
    }
}

} // verus!
