//! The grappling hook: toggle a pendulum binding to the nearest hook in
//! range, and the swing arithmetic that does not need trigonometry.
use vstd::prelude::*;
use vstd::arithmetic::div_mod::lemma_mod_multiples_vanish;
use crate::ecs::Entity;
use crate::units::{Vec2, clamp, clamp_coord, coord_ok, POS_UNITS_PER_WORLD_UNIT, TIME_UNITS_PER_SECOND};
use crate::input::{InputState, axis_of};
use crate::physics::{same_frame, kinematics_post, lemma_gravity_step};
use crate::world::{World, SwingBinding, HOOK_RANGE, GRAVITY};

verus! {

/// Squared distance between two points.
pub open spec fn dist2(p: Vec2, q: Vec2) -> int {
    (p.x - q.x) * (p.x - q.x) + (p.y - q.y) * (p.y - q.y)
}

/// `r` is the integer square root of `n`.
pub open spec fn is_isqrt(n: int, r: int) -> bool {
    0 <= r && r * r <= n < (r + 1) * (r + 1)
}

/// The integer square root of `n`.
pub open spec fn isqrt_of(n: int) -> int {
    choose|r: int| is_isqrt(n, r)
}

/// The integer square root is unique.
pub proof fn lemma_isqrt_unique(n: int, r: int)
    requires
        is_isqrt(n, r),
    ensures
        isqrt_of(n) == r,
{
    let c = isqrt_of(n);
    assert(is_isqrt(n, c));
    if c < r {
        assert((c + 1) * (c + 1) <= r * r) by (nonlinear_arith)
            requires 0 <= c < r;
    } else if r < c {
        assert((r + 1) * (r + 1) <= c * c) by (nonlinear_arith)
            requires 0 <= r < c;
    }
}

/// Integer square root, by bisection.
pub fn isqrt(n: u64) -> (r: u64)
    requires
        n < 0x4000_0000_0000_0000,
    ensures
        is_isqrt(n as int, r as int),
        r == isqrt_of(n as int),
{
    let mut lo: u64 = 0;
    let mut hi: u64 = 0x8000_0000;
    while hi - lo > 1
        invariant
            lo < hi <= 0x8000_0000,
            lo * lo <= n,
            n < hi * hi,
        decreases hi - lo,
    {
        let mid = lo + (hi - lo) / 2;
        assert(mid * mid <= 0x8000_0000 * 0x8000_0000) by (nonlinear_arith)
            requires mid <= 0x8000_0000;
        if mid * mid <= n {
            lo = mid;
        } else {
            hi = mid;
        }
    }
    assert(hi == lo + 1);
    proof { lemma_isqrt_unique(n as int, lo as int); }
    lo
}

/// Entity `j` is a hook with a position.
pub open spec fn is_hook_at(w: World, j: int) -> bool {
    0 <= j < w.n() && w.is_hook@[j].is_some() && w.pos@[j].is_some()
}

/// `h` is the hook nearest to `from`, the first of the nearest on ties.
pub open spec fn is_nearest_hook(w: World, from: Vec2, h: int) -> bool {
    &&& is_hook_at(w, h)
    &&& forall|j: int| #[trigger] is_hook_at(w, j) ==> {
        &&& dist2(from, w.pos@[h].unwrap()) <= dist2(from, w.pos@[j].unwrap())
        &&& (j < h ==> dist2(from, w.pos@[h].unwrap()) < dist2(from, w.pos@[j].unwrap()))
    }
}

/// Some hook is nearest to `from`: the world has a hook.
pub open spec fn has_nearest_hook(w: World, from: Vec2) -> bool {
    exists|h: int| is_nearest_hook(w, from, h)
}

pub open spec fn nearest_hook(w: World, from: Vec2) -> int {
    choose|h: int| is_nearest_hook(w, from, h)
}

/// There is at most one nearest hook.
pub proof fn lemma_nearest_unique(w: World, from: Vec2, h: int)
    requires
        is_nearest_hook(w, from, h),
    ensures
        nearest_hook(w, from) == h,
{
    let c = nearest_hook(w, from);
    assert(is_nearest_hook(w, from, c));
    assert(is_hook_at(w, c) && is_hook_at(w, h));
}

/// Close enough to grab: distance below `HOOK_RANGE`.
pub open spec fn in_range(d2: int) -> bool {
    d2 < HOOK_RANGE * HOOK_RANGE
}

/// The hook the player grabs this tick, if any: on a Tool edge while not
/// swinging, the nearest hook, when it is in range.
pub open spec fn attach_target(a: World, input: InputState) -> Option<int> {
    let p = a.player as int;
    let from = a.pos@[p].unwrap();
    if input.just_pressed.tool && a.swing@[p].is_none() && has_nearest_hook(a, from)
        && in_range(dist2(from, a.pos@[nearest_hook(a, from)].unwrap())) {
        Some(nearest_hook(a, from))
    } else {
        None
    }
}

/// The binding made by grabbing hook `h` at time `now`.
pub open spec fn new_binding(a: World, h: int, now: u64) -> SwingBinding {
    let from = a.pos@[a.player as int].unwrap();
    let hp = a.pos@[h].unwrap();
    SwingBinding {
        hook: h as usize,
        dx: (from.x - hp.x) as i64,
        dy: (from.y - hp.y) as i64,
        dist: isqrt_of(dist2(from, hp)) as i64,
        start_time: now,
        pump: 0,
    }
}

/// The player's binding after the Tool toggle.
pub open spec fn toggled_swing(a: World, input: InputState, now: u64) -> Option<SwingBinding> {
    let p = a.player as int;
    if input.just_pressed.tool && a.swing@[p].is_some() {
        None
    } else if attach_target(a, input).is_some() {
        Some(new_binding(a, attach_target(a, input).unwrap(), now))
    } else {
        a.swing@[p]
    }
}

/// A binding after `dt` of horizontal input along `axis`.
pub open spec fn pumped(b: SwingBinding, axis: int, dt: int) -> SwingBinding {
    SwingBinding { pump: clamp_coord(b.pump + axis * dt) as i64, ..b }
}

/// `b` is `a` after one grapple pass at time `now`.
pub open spec fn grapple_post(a: World, b: World, input: InputState, dt: int, now: u64) -> bool {
    let p = a.player as int;
    let s = toggled_swing(a, input, now);
    &&& same_frame(a, b)
    &&& b.facing@ == a.facing@
    &&& b.cooldown@ == a.cooldown@
    &&& b.bullet@ == a.bullet@
    &&& b.pos@ == a.pos@
    &&& b.swing@ == a.swing@.update(p,
        if attach_target(a, input).is_some() {
            s
        } else if s.is_some() {
            Some(pumped(s.unwrap(), axis_of(input.keys), dt))
        } else {
            None
        })
    &&& b.is_jumping@ == if attach_target(a, input).is_some() { a.is_jumping@.update(p, Some(false)) } else { a.is_jumping@ }
    &&& b.vel@ == if s.is_some() {
        a.vel@.update(p, Some(Vec2 { x: a.vel@[p].unwrap().x, y: 0 }))
    } else {
        a.vel@
    }
}

/// Every natural number has an integer square root.
pub proof fn lemma_isqrt_exists(n: int)
    requires
        0 <= n,
    ensures
        is_isqrt(n, isqrt_of(n)),
    decreases n,
{
    if n == 0 {
        assert(is_isqrt(0, 0));
    } else {
        lemma_isqrt_exists(n - 1);
        let r = isqrt_of(n - 1);
        if n < (r + 1) * (r + 1) {
            assert(is_isqrt(n, r));
        } else {
            assert((r + 1) * (r + 1) <= n < (r + 2) * (r + 2)) by (nonlinear_arith)
                requires 0 <= r, r * r <= n - 1, n - 1 < (r + 1) * (r + 1), n >= (r + 1) * (r + 1);
            assert(is_isqrt(n, r + 1));
        }
    }
}

/// Tool toggles the swing: from no binding, a Tool edge with the nearest
/// hook in range binds the player to that hook, with the offset from the
/// hook (which fixes the starting angle `atan2(dx, -dy)`) and the radius
/// `isqrt(dx² + dy²)`, unpumped; a second Tool edge right after removes the
/// binding, so the next kinematics pass moves the player under gravity again
/// (where no coordinate saturates).
pub proof fn lemma_tool_toggle(a: World, b: World, c: World, d: World, in1: InputState, in2: InputState,
    dt1: int, dt2: int, dt3: nat, now1: u64, now2: u64)
    requires
        a.wf(),
        c.wf(),
        a.swing@[a.player as int].is_none(),
        in1.just_pressed.tool,
        in2.just_pressed.tool,
        has_nearest_hook(a, a.pos@[a.player as int].unwrap()),
        in_range(dist2(a.pos@[a.player as int].unwrap(), a.pos@[nearest_hook(a, a.pos@[a.player as int].unwrap())].unwrap())),
        grapple_post(a, b, in1, dt1, now1),
        grapple_post(b, c, in2, dt2, now2),
        kinematics_post(c, d, dt3 as int),
        coord_ok(c.pos@[a.player as int].unwrap().x + c.vel@[a.player as int].unwrap().x * dt3),
        coord_ok(c.pos@[a.player as int].unwrap().y + c.vel@[a.player as int].unwrap().y * dt3),
        coord_ok(c.vel@[a.player as int].unwrap().y - GRAVITY * dt3),
    ensures
        ({
            let p = a.player as int;
            let from = a.pos@[p].unwrap();
            let h = nearest_hook(a, from);
            let hp = a.pos@[h].unwrap();
            let bd = b.swing@[p].unwrap();
            &&& b.swing@[p].is_some()
            &&& bd.hook == h
            &&& bd.dx == from.x - hp.x
            &&& bd.dy == from.y - hp.y
            &&& is_isqrt(dist2(from, hp), bd.dist as int)
            &&& bd.start_time == now1
            &&& bd.pump == 0
            &&& b.is_jumping@[p] == Some(false)
            &&& c.swing@[p].is_none()
            &&& d.vel@[p].unwrap().y == c.vel@[p].unwrap().y - GRAVITY * dt3
            &&& d.pos@[p].unwrap().x == c.pos@[p].unwrap().x + c.vel@[p].unwrap().x * dt3
            &&& d.pos@[p].unwrap().y == c.pos@[p].unwrap().y + c.vel@[p].unwrap().y * dt3
        }),
{
    let p = a.player as int;
    let from = a.pos@[p].unwrap();
    let h = nearest_hook(a, from);
    let hp = a.pos@[h].unwrap();
    let sq = dist2(from, hp);
    assert(is_nearest_hook(a, from, h));
    let gx = from.x - hp.x;
    let gy = from.y - hp.y;
    assert(0 <= sq) by (nonlinear_arith)
        requires sq == gx * gx + gy * gy;
    lemma_isqrt_exists(sq);
    let r = isqrt_of(sq);
    assert(r < HOOK_RANGE) by (nonlinear_arith)
        requires r * r <= sq, sq < HOOK_RANGE * HOOK_RANGE, r >= 0;
    assert(-HOOK_RANGE < gx < HOOK_RANGE) by (nonlinear_arith)
        requires gx * gx + gy * gy < HOOK_RANGE * HOOK_RANGE;
    assert(-HOOK_RANGE < gy < HOOK_RANGE) by (nonlinear_arith)
        requires gx * gx + gy * gy < HOOK_RANGE * HOOK_RANGE;
    assert(attach_target(a, in1) == Some(h));
    let bd = b.swing@[p].unwrap();
    assert(b.swing@[p].is_some());
    assert(bd.hook == h);
    assert(bd.dx == from.x - hp.x);
    assert(bd.dy == from.y - hp.y);
    assert(bd.dist == r);
    assert(bd.start_time == now1);
    assert(b.is_jumping@[p] == Some(false));
    assert(c.swing@[p].is_none());
    assert(c.player == a.player);
    lemma_gravity_step(c, d, dt3, p);
}

/// Squared distance in exact arithmetic for coordinates in range.
fn dist2_exec(p: Vec2, q: Vec2) -> (r: i128)
    requires
        p.ok(),
        q.ok(),
    ensures
        r as int == dist2(p, q),
        0 <= r,
{
    let dx: i128 = p.x as i128 - q.x as i128;
    let dy: i128 = p.y as i128 - q.y as i128;
    assert(0 <= dx * dx <= 4_000_000_000_000_000_000_000_000_000_000) by (nonlinear_arith)
        requires -2_000_000_000_000_000 <= dx <= 2_000_000_000_000_000;
    assert(0 <= dy * dy <= 4_000_000_000_000_000_000_000_000_000_000) by (nonlinear_arith)
        requires -2_000_000_000_000_000 <= dy <= 2_000_000_000_000_000;
    dx * dx + dy * dy
}

/// The swing phase: how far `elapsed` time units carry a pendulum of radius
/// `dist` through its cycle, as a numerator over `dist` (a full cycle is
/// `dist`). The angle is `theta0 * cos(2π * phase / dist)`: with the angular
/// frequency `2π / dist` (radius in world units, time in seconds), one
/// cycle lasts `dist` seconds.
pub open spec fn phase_of(dist: int, elapsed: int) -> int {
    if dist <= 0 { 0 } else { (elapsed * (POS_UNITS_PER_WORLD_UNIT / TIME_UNITS_PER_SECOND)) % dist }
}

/// Time since the binding was made (zero before it).
pub open spec fn elapsed_of(b: SwingBinding, now: u64) -> int {
    if now >= b.start_time { now - b.start_time } else { 0 }
}

/// The swing is periodic: after any whole number of cycles the phase, and
/// so the angle, is back where it was; in particular at the end of each
/// cycle the angle is `theta0` again.
pub proof fn lemma_swing_period(dist: int, elapsed: int, cycles: int, m: int)
    requires
        dist > 0,
        elapsed >= 0,
        cycles >= 0,
        m * (POS_UNITS_PER_WORLD_UNIT / TIME_UNITS_PER_SECOND) == cycles * dist,
    ensures
        phase_of(dist, elapsed + m) == phase_of(dist, elapsed),
        phase_of(dist, m) == phase_of(dist, 0),
        phase_of(dist, 0) == 0,
{
    let s = POS_UNITS_PER_WORLD_UNIT / TIME_UNITS_PER_SECOND;
    assert(s == 600);
    assert((elapsed + m) * s == dist * cycles + elapsed * s) by (nonlinear_arith)
        requires m * s == cycles * dist;
    lemma_mod_multiples_vanish(cycles, elapsed * s, dist);
    lemma_mod_multiples_vanish(cycles, 0, dist);
    assert(m * s == dist * cycles + 0) by (nonlinear_arith)
        requires m * s == cycles * dist;
    assert(0int % dist == 0);
}

/// The phase of binding `b` at time `now`.
pub fn swing_phase(b: &SwingBinding, now: u64) -> (r: u64)
    requires
        0 <= b.dist,
    ensures
        r as int == phase_of(b.dist as int, elapsed_of(*b, now)),
        b.dist > 0 ==> (r as int) < b.dist,
{
    if b.dist <= 0 {
        return 0;
    }
    let e: u64 = if now >= b.start_time { now - b.start_time } else { 0 };
    let s: u128 = (POS_UNITS_PER_WORLD_UNIT / TIME_UNITS_PER_SECOND) as u128;
    assert(e * s <= 0xffff_ffff_ffff_ffff * 600) by (nonlinear_arith)
        requires e <= 0xffff_ffff_ffff_ffff, s == 600;
    let r = ((e as u128) * s) % (b.dist as u128);
    r as u64
}

impl World {
    /// The nearest hook to `from`, the first one on ties; none when the
    /// world has no hook.
    pub fn find_nearest_hook(&self, from: Vec2) -> (r: Option<(Entity, i128)>)
        requires
            self.wf(),
            from.ok(),
        ensures
            r.is_none() <==> !has_nearest_hook(*self, from),
            r.is_none() <==> forall|j: int| !#[trigger] is_hook_at(*self, j),
            r matches Some((h, d2)) ==> is_nearest_hook(*self, from, h as int)
                && h == nearest_hook(*self, from)
                && d2 == dist2(from, self.pos@[h as int].unwrap()),
    {
        let n = self.entities.len();
        let mut best: Option<(Entity, i128)> = None;
        let mut j: usize = 0;
        while j < n
            invariant
                self.wf(),
                n == self.n(),
                j <= n,
                from.ok(),
                best.is_none() <==> forall|t: int| 0 <= t < j ==> !#[trigger] is_hook_at(*self, t),
                best matches Some((h, d2)) ==> {
                    &&& (h as int) < j
                    &&& is_hook_at(*self, h as int)
                    &&& d2 == dist2(from, self.pos@[h as int].unwrap())
                    &&& forall|t: int| 0 <= t < j && #[trigger] is_hook_at(*self, t) ==> {
                        &&& d2 <= dist2(from, self.pos@[t].unwrap())
                        &&& (t < h ==> d2 < dist2(from, self.pos@[t].unwrap()))
                    }
                },
            decreases n - j,
        {
            if self.is_hook.contains(j) {
                match self.pos.get(j) {
                    Some(q) => {
                        let d = dist2_exec(from, q);
                        match best {
                            None => {
                                best = Some((j, d));
                            },
                            Some((_, bd)) => {
                                if d < bd {
                                    best = Some((j, d));
                                }
                            },
                        }
                    },
                    None => {},
                }
            }
            proof {
                if best.is_some() {
                    assert(is_hook_at(*self, best.unwrap().0 as int));
                }
            }
            j += 1;
        }
        match best {
            Some((h, _)) => {
                proof {
                    assert(is_nearest_hook(*self, from, h as int));
                    lemma_nearest_unique(*self, from, h as int);
                }
            },
            None => {
                assert forall|h: int| !is_nearest_hook(*self, from, h) by {
                    if 0 <= h < n {
                        assert(!is_hook_at(*self, h));
                    }
                }
            },
        }
        best
    }

    /// One grapple pass at time `now`. On a Tool edge the player lets go if
    /// swinging, and otherwise grabs the nearest hook when it lies within
    /// `HOOK_RANGE` (which ends a jump); the new binding starts unpumped.
    /// A binding kept from before the pass is pumped by horizontal input.
    /// While swinging, the pendulum owns vertical motion.
    pub fn grapple(&mut self, input: &InputState, dt: u32, now: u64)
        requires
            old(self).wf(),
        ensures
            final(self).wf(),
            grapple_post(*old(self), *final(self), *input, dt as int, now),
    {
        let ghost a = *self;
        let p = self.player;
        let mut s = self.swing.get(p);
        let mut attached = false;
        if input.just_pressed.tool {
            if s.is_some() {
                s = None;
            } else {
                let from = self.pos.get(p).unwrap();
                match self.find_nearest_hook(from) {
                    Some((h, d2)) => {
                        if d2 < (HOOK_RANGE as i128) * (HOOK_RANGE as i128) {
                            let hp = self.pos.get(h).unwrap();
                            let ghost gx = from.x - hp.x;
                            let ghost gy = from.y - hp.y;
                            assert(-HOOK_RANGE < gx < HOOK_RANGE) by (nonlinear_arith)
                                requires gx * gx + gy * gy < HOOK_RANGE * HOOK_RANGE;
                            assert(-HOOK_RANGE < gy < HOOK_RANGE) by (nonlinear_arith)
                                requires gx * gx + gy * gy < HOOK_RANGE * HOOK_RANGE;
                            let dx = from.x - hp.x;
                            let dy = from.y - hp.y;
                            assert(HOOK_RANGE as i128 * HOOK_RANGE as i128 == 1_296_000_000_000_000);
                            assert(0 <= gx * gx + gy * gy) by (nonlinear_arith);
                            let n: u64 = d2 as u64;
                            assert(n as int == d2);
                            let dist = isqrt(n);
                            let ghost gd = dist as int;
                            assert(gd < 36_000_000) by (nonlinear_arith)
                                requires gd * gd <= n as int, (n as int) < 1_296_000_000_000_000, gd >= 0;
                            s = Some(SwingBinding { hook: h, dx, dy, dist: dist as i64, start_time: now, pump: 0 });
                            attached = true;
                        }
                    },
                    None => {},
                }
            }
        }
        assert(s == toggled_swing(a, *input, now));
        match s {
            Some(b) => {
                if attached {
                    self.swing.insert(p, b);
                } else {
                    let axis = input.xaxis();
                    assert(-1 <= axis <= 1);
                    assert(-0x1_0000_0000 <= (axis as int) * (dt as int) <= 0x1_0000_0000) by (nonlinear_arith)
                        requires -1 <= axis <= 1, 0 <= dt <= 0xffff_ffff;
                    let pump = clamp(b.pump as i128 + (axis as i128) * (dt as i128));
                    self.swing.insert(p, SwingBinding { pump, ..b });
                }
                let v = self.vel.get(p).unwrap();
                self.vel.insert(p, Vec2 { x: v.x, y: 0 });
            },
            None => {
                self.swing.remove(p);
                assert(self.swing@ =~= a.swing@.update(p as int, None));
            },
        }
        if attached {
            self.is_jumping.insert(p, false);
        }
        assert(self.values_ok());
    }

    /// Puts a swinging player at its hook plus `offset`, the pendulum
    /// offset `dist * (sin θ, -cos θ)` for the current angle θ. Does
    /// nothing when the player is not swinging.
    pub fn apply_swing_offset(&mut self, offset: Vec2)
        requires
            old(self).wf(),
            offset.ok(),
        ensures
            final(self).wf(),
            same_frame(*old(self), *final(self)),
            final(self).facing@ == old(self).facing@,
            final(self).cooldown@ == old(self).cooldown@,
            final(self).bullet@ == old(self).bullet@,
            final(self).swing@ == old(self).swing@,
            final(self).is_jumping@ == old(self).is_jumping@,
            final(self).vel@ == old(self).vel@,
            final(self).pos@ == match old(self).swing@[old(self).player as int] {
                Some(b) => {
                    let hp = old(self).pos@[b.hook as int].unwrap();
                    old(self).pos@.update(old(self).player as int,
                        Some(Vec2 { x: clamp_coord(hp.x + offset.x) as i64, y: clamp_coord(hp.y + offset.y) as i64 }))
                },
                None => old(self).pos@,
            },
    {
        let p = self.player;
        match self.swing.get(p) {
            Some(b) => {
                let hp = self.pos.get(b.hook).unwrap();
                let np = Vec2 { x: clamp(hp.x as i128 + offset.x as i128), y: clamp(hp.y as i128 + offset.y as i128) };
                self.pos.insert(p, np);
                assert(self.values_ok());
            },
            None => {},
        }
    }
}

} // verus!
