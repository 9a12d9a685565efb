//! Player control: walking, ground clamp, jumping, shot cooldown and facing.
use vstd::prelude::*;
use crate::units::{Vec2, advance, advance_coord};
use crate::input::{InputState, axis_of};
use crate::physics::same_frame;
use crate::world::{World, Facing, WALK_SPEED, JUMP_SPEED, GROUND_Y};

verus! {

/// Position after walking `dt` along `axis`.
pub open spec fn walked(p: Vec2, axis: int, dt: int) -> Vec2 {
    Vec2 { x: advance(p.x as int, axis * WALK_SPEED, dt) as i64, y: p.y }
}

/// Below the ground: the actor is put back on it.
pub open spec fn below_ground(p: Vec2) -> bool {
    p.y < GROUND_Y
}

/// The player's state after one control pass.
pub struct ControlOut {
    pub pos: Vec2,
    pub vel: Vec2,
    pub jumping: bool,
    pub cooldown: i64,
    pub facing: Facing,
    /// The jump impulse was applied (and any swing released).
    pub jumped: bool,
}

/// One control pass on the player's components.
pub open spec fn control_of(pos: Vec2, vel: Vec2, jumping: bool, cooldown: i64, facing: Facing, input: InputState, dt: int) -> ControlOut {
    let axis = axis_of(input.keys);
    let w = walked(pos, axis, dt);
    let grounded = below_ground(w);
    let pos1 = if grounded { Vec2 { x: w.x, y: GROUND_Y } } else { w };
    let vy1 = if grounded { 0i64 } else { vel.y };
    let jumping1 = if grounded { false } else { jumping };
    let jumps = input.keys.jump && !jumping1;
    ControlOut {
        pos: pos1,
        vel: Vec2 { x: vel.x, y: if jumps { JUMP_SPEED } else { vy1 } },
        jumping: jumps || jumping1,
        cooldown: if cooldown > dt { (cooldown - dt) as i64 } else { 0i64 },
        facing: if axis < 0 { Facing::Left } else if axis > 0 { Facing::Right } else { facing },
        jumped: jumps,
    }
}

/// The player's control result in world `a`.
pub open spec fn player_control_of(a: World, input: InputState, dt: int) -> ControlOut {
    let p = a.player as int;
    control_of(a.pos@[p].unwrap(), a.vel@[p].unwrap(), a.is_jumping@[p].unwrap(), a.cooldown@[p].unwrap(),
        a.facing@[p].unwrap(), input, dt)
}

/// `b` is `a` after one control pass: only the player changes, and a jump
/// releases its swing.
pub open spec fn control_post(a: World, b: World, input: InputState, dt: int) -> bool {
    let p = a.player as int;
    let o = player_control_of(a, input, dt);
    &&& same_frame(a, b)
    &&& b.bullet@ == a.bullet@
    &&& b.pos@ == a.pos@.update(p, Some(o.pos))
    &&& b.vel@ == a.vel@.update(p, Some(o.vel))
    &&& b.is_jumping@ == a.is_jumping@.update(p, Some(o.jumping))
    &&& b.cooldown@ == a.cooldown@.update(p, Some(o.cooldown))
    &&& b.facing@ == a.facing@.update(p, Some(o.facing))
    &&& b.swing@ == if o.jumped { a.swing@.update(p, None) } else { a.swing@ }
}

/// Ground clamp: a player that ends its walk below the ground stands on it,
/// with no vertical speed and no longer jumping, unless Jump is held, which
/// starts a new jump from the ground.
pub proof fn lemma_ground_clamp(a: World, b: World, input: InputState, dt: int)
    requires
        a.wf(),
        control_post(a, b, input, dt),
        below_ground(walked(a.pos@[a.player as int].unwrap(), axis_of(input.keys), dt)),
    ensures
        b.pos@[a.player as int].unwrap().y == GROUND_Y,
        !input.keys.jump ==> b.vel@[a.player as int].unwrap().y == 0 && b.is_jumping@[a.player as int] == Some(false),
        input.keys.jump ==> b.vel@[a.player as int].unwrap().y == JUMP_SPEED && b.is_jumping@[a.player as int] == Some(true),
{
}

/// The shot cooldown counts down by `dt` and stops at zero: it never goes
/// negative.
pub proof fn lemma_cooldown_floor(a: World, b: World, input: InputState, dt: int)
    requires
        a.wf(),
        dt >= 0,
        control_post(a, b, input, dt),
    ensures
        ({
            let c = a.cooldown@[a.player as int].unwrap();
            &&& b.cooldown@[a.player as int] == Some((if c > dt { c - dt } else { 0 }) as i64)
            &&& 0 <= b.cooldown@[a.player as int].unwrap() <= c
        }),
{
}

impl World {
    /// Moves the player by the input: walk at `WALK_SPEED` along the axis,
    /// stand on the ground, jump when Jump is held and not already jumping,
    /// count the shot cooldown down to zero, and face the way walked.
    pub fn player_control(&mut self, input: &InputState, dt: u32)
        requires
            old(self).wf(),
        ensures
            final(self).wf(),
            control_post(*old(self), *final(self), *input, dt as int),
    {
        let ghost a = *self;
        let p = self.player;
        let pos = self.pos.get(p).unwrap();
        let vel = self.vel.get(p).unwrap();
        let mut jumping = self.is_jumping.get(p).unwrap();
        let cooldown = self.cooldown.get(p).unwrap();
        let mut facing = self.facing.get(p).unwrap();
        let axis = input.xaxis();

        let mut np = Vec2 { x: advance_coord(pos.x, axis * WALK_SPEED, dt), y: pos.y };
        let mut nv = vel;
        if np.y < GROUND_Y {
            np.y = GROUND_Y;
            nv.y = 0;
            jumping = false;
        }
        let mut jumped = false;
        if input.keys.jump && !jumping {
            nv.y = JUMP_SPEED;
            jumping = true;
            jumped = true;
        }
        let nc: i64 = if cooldown > dt as i64 { cooldown - dt as i64 } else { 0 };
        if axis < 0 {
            facing = Facing::Left;
        } else if axis > 0 {
            facing = Facing::Right;
        }
        self.pos.insert(p, np);
        self.vel.insert(p, nv);
        self.is_jumping.insert(p, jumping);
        self.cooldown.insert(p, nc);
        self.facing.insert(p, facing);
        if jumped {
            self.swing.remove(p);
        }
        assert(self.values_ok());
    }
}

} // verus!
