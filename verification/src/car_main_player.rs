//! The player's vehicle: a kinematic body that accumulates orientation
//! multiplicatively, integrates throttle into a tentative move, wraps at the
//! world boundary, and rolls the translation back — keeping the new
//! orientation — when terrain or scenery refuses the move.
use vstd::prelude::*;

use crate::geom::{dist2_xz, lemma_tdiv_bound, spec_clamp, tdiv, Vec3i};
use crate::ground::{
    spec_ground_height, spec_on_road, spec_road_label, spec_scenery_strike, spec_wrap_x, spec_wrap_z,
    wrap_coord_x, wrap_coord_z, Ground, HALF_WORLD_MILLI,
};
use crate::landscape::{
    copy_bytes, description_contains_road, lemma_scenery_pick_props, spec_contains_road,
};
use crate::motion::{IdAllocator, MovementAndCollision};
use crate::scenery::SceneryType;
use crate::trig::{cos_milli, sin_milli, spec_cos_milli, spec_sin_milli};

verus! {

/// Vertical clearance the vehicle keeps above the terrain, in milli-units.
pub const MODEL_HEIGHT_MILLI: i64 = 7;

/// Gravity ramp step and cap, in milli-units per tick.
pub const GRAVITY_ADD_MILLI: i64 = 50;

pub const GRAVITY_MAX_MILLI: i64 = 50;

/// Off-road penalty added per off-road tick, in milli-points.
pub const OFF_ROAD_RATE_MILLI: i64 = 1000;

/// Threshold past which the off-road accumulator fires a reset event.
pub const OFF_ROAD_LIMIT_MILLI: i64 = 30_000;

/// Numeric cap on the accumulator, far above the threshold; keeps the value
/// bounded over any number of ticks.
pub const OFF_ROAD_CAP_MILLI: i64 = 1_000_000;

/// Steering bias clamp, in milli-degrees of yaw per tick.
pub const STEER_MAX_MILLI: i64 = 750;

/// Accelerator clamp, in milli-units.
pub const ACCEL_MAX_MILLI: i64 = 500;

/// The status the vehicle surfaces after a tick.
pub enum Msg {
    Empty,
    Road(Vec<u8>),
    Hit(SceneryType),
}

/// Ghost shape of a `Msg`, with the label as a sequence.
pub enum MsgView {
    Empty,
    Road(Seq<u8>),
    Hit(SceneryType),
}

pub open spec fn msg_view(m: Msg) -> MsgView {
    match m {
        Msg::Empty => MsgView::Empty,
        Msg::Road(d) => MsgView::Road(d@),
        Msg::Hit(t) => MsgView::Hit(t),
    }
}

pub struct CarMainPlayer {
    pub movement_collision: MovementAndCollision,
    /// Accumulated orientation about the vertical, milli-degrees `[0, 360000)`.
    pub yaw_mdeg: i64,
    /// Steering bias: milli-degrees of yaw added per accelerating tick.
    pub steering: i64,
    /// Derived display heading, whole degrees `[0, 360)`.
    pub rotation_y: i64,
    /// Derived display banking; the world is flat, so it stays 0.
    pub rotation_x: i64,
    pub accelerator_pressed: i64,
    pub gravity: i64,
    /// Latched direction sign: -1 drives forward, +1 reverse.
    pub forward_reverse: i64,
    /// Displacement applied by the last tick.
    pub dir: Vec3i,
    pub crashed: bool,
    pub crashed_ticker: i64,
    pub off_road: i64,
    pub msg: Msg,
}

// --- the per-tick pipeline, as spec functions -------------------------------
/// Yaw added this tick: the steering bias, only while accelerating.
pub open spec fn spec_yaw_delta(s: CarMainPlayer) -> int {
    if s.accelerator_pressed > 10 {
        -(s.steering as int)
    } else {
        0
    }
}

pub open spec fn spec_yaw_next(s: CarMainPlayer) -> int {
    (s.yaw_mdeg + spec_yaw_delta(s)) % 360_000
}

/// Forward displacement, rotated into world space by the orientation held at
/// the start of the tick.
pub open spec fn spec_dir_x(s: CarMainPlayer) -> int {
    tdiv(
        s.accelerator_pressed * s.forward_reverse * spec_sin_milli(s.yaw_mdeg as int),
        10_000,
    )
}

pub open spec fn spec_dir_z(s: CarMainPlayer) -> int {
    tdiv(
        s.accelerator_pressed * s.forward_reverse * spec_cos_milli(s.yaw_mdeg as int),
        10_000,
    )
}

/// The tentative pose: displacement and gravity applied, then wrapped at the
/// world boundary.
pub open spec fn spec_tent(s: CarMainPlayer) -> Vec3i {
    Vec3i {
        x: spec_wrap_x(s.movement_collision.position.x + spec_dir_x(s)) as i64,
        y: (s.movement_collision.position.y - s.gravity) as i64,
        z: spec_wrap_z(s.movement_collision.position.z + spec_dir_z(s)) as i64,
    }
}

/// Gravity after the ramp: grows by a step on ramp ticks until the cap.
pub open spec fn spec_gravity_ramp(s: CarMainPlayer, tick: int) -> int {
    if tick % 60 <= 1 && s.gravity <= GRAVITY_MAX_MILLI {
        s.gravity + GRAVITY_ADD_MILLI
    } else {
        s.gravity as int
    }
}

/// The height-rollback rule: the tentative pose sinks below clearance. The
/// ahead point coincides with the body position (the vehicle's ahead offset
/// is zero), so one test covers the ahead and the current clause.
pub open spec fn spec_height_rollback(s: CarMainPlayer, g: Ground) -> bool {
    let t = spec_tent(s);
    t.y < spec_ground_height(g, t.x as int, t.z as int) + MODEL_HEIGHT_MILLI
}

/// The position after the height rule: the tentative pose, or the pre-tick
/// one when the rule refuses it.
pub open spec fn spec_pos_after_height(s: CarMainPlayer, g: Ground) -> Vec3i {
    if spec_height_rollback(s, g) {
        s.movement_collision.position
    } else {
        spec_tent(s)
    }
}

/// The off-road accumulator after one tick, accounted at the current —
/// possibly rolled-back — position: decay while positive, then one rate step
/// unless on a road, capped.
pub open spec fn spec_off_road_next(s: CarMainPlayer, g: Ground, delta: int) -> int {
    let p = spec_pos_after_height(s, g);
    let decayed = if s.off_road > 0 {
        s.off_road - 5 * delta
    } else {
        s.off_road as int
    };
    let stepped = if spec_on_road(g, p.x as int, p.z as int) {
        decayed
    } else {
        decayed + OFF_ROAD_RATE_MILLI
    };
    if stepped > OFF_ROAD_CAP_MILLI {
        OFF_ROAD_CAP_MILLI as int
    } else {
        stepped
    }
}

/// Off-road accumulator law: a tick spent off the road, with the decay
/// outpaced (a tick shorter than 200 ms) and the accumulator not yet past the
/// reset threshold, strictly increases the accumulator. Together with
/// `off_road_too_much`, which fires exactly on crossing the threshold and
/// zeroes the accumulator, this pins the monotonic rise and the
/// once-per-crossing reset down.
pub proof fn lemma_off_road_strictly_increases(s: CarMainPlayer, g: Ground, delta: int)
    requires
        0 < delta < 200,
        !spec_on_road(
            g,
            spec_pos_after_height(s, g).x as int,
            spec_pos_after_height(s, g).z as int,
        ),
        s.off_road <= OFF_ROAD_LIMIT_MILLI,
    ensures
        spec_off_road_next(s, g, delta) > s.off_road,
{
}

impl CarMainPlayer {
    pub open spec fn wf(self) -> bool {
        &&& 0 <= self.yaw_mdeg < 360_000
        &&& -STEER_MAX_MILLI <= self.steering <= STEER_MAX_MILLI
        &&& 0 <= self.rotation_y < 360
        &&& self.rotation_x == 0
        &&& 0 <= self.accelerator_pressed <= ACCEL_MAX_MILLI
        &&& 0 <= self.gravity <= 2 * GRAVITY_ADD_MILLI
        &&& (self.forward_reverse == -1 || self.forward_reverse == 1)
        &&& -HALF_WORLD_MILLI <= self.movement_collision.position.x <= HALF_WORLD_MILLI
        &&& -HALF_WORLD_MILLI <= self.movement_collision.position.z <= HALF_WORLD_MILLI
        &&& -1_000_000 <= self.movement_collision.position.y <= 300_000
        &&& -6000 <= self.off_road <= OFF_ROAD_CAP_MILLI
    }

    pub fn new(ids: &mut IdAllocator) -> (r: CarMainPlayer)
        requires
            old(ids).next < u128::MAX,
        ensures
            r.wf(),
            r.movement_collision.position == (Vec3i { x: 0, y: 2000, z: 0 }),
            r.yaw_mdeg == 0,
            r.steering == 0,
            r.rotation_y == 0,
            r.accelerator_pressed == 0,
            r.gravity == GRAVITY_ADD_MILLI,
            r.forward_reverse == -1,
            !r.crashed,
            r.crashed_ticker == 0,
            r.off_road == 0,
            msg_view(r.msg) == MsgView::Empty,
    {
        CarMainPlayer {
            movement_collision: MovementAndCollision::new(8, Vec3i { x: 0, y: 2000, z: 0 }, ids),
            yaw_mdeg: 0,
            steering: 0,
            rotation_y: 0,
            rotation_x: 0,
            accelerator_pressed: 0,
            gravity: GRAVITY_ADD_MILLI,
            forward_reverse: -1,
            dir: Vec3i { x: 0, y: 0, z: 0 },
            crashed: false,
            crashed_ticker: 0,
            off_road: 0,
            msg: Msg::Empty,
        }
    }

    /// Puts the vehicle back in its launch state after a negative event; the
    /// ground position is kept, only the height restarts.
    pub fn reset(&mut self)
        requires
            old(self).wf(),
        ensures
            final(self).wf(),
            !final(self).crashed,
            final(self).crashed_ticker == 0,
            final(self).movement_collision.position == (Vec3i {
                x: old(self).movement_collision.position.x,
                y: 2000,
                z: old(self).movement_collision.position.z,
            }),
            final(self).yaw_mdeg == 0,
            final(self).gravity == GRAVITY_ADD_MILLI,
            final(self).dir == (Vec3i { x: 0, y: 0, z: 0 }),
            final(self).accelerator_pressed == 0,
            final(self).off_road == 0,
            final(self).steering == old(self).steering,
            final(self).forward_reverse == old(self).forward_reverse,
            final(self).rotation_y == old(self).rotation_y,
    {
        self.crashed = false;
        self.crashed_ticker = 0;
        self.movement_collision.position.y = 2000;
        self.yaw_mdeg = 0;
        self.gravity = GRAVITY_ADD_MILLI;
        self.dir = Vec3i { x: 0, y: 0, z: 0 };
        self.accelerator_pressed = 0;
        self.off_road = 0;
    }

    /// The once-per-frame reset query: fires exactly when the accumulator has
    /// crossed the threshold, and zeroes it so the event fires once per
    /// crossing.
    pub fn off_road_too_much(&mut self) -> (r: bool)
        ensures
            r == (old(self).off_road > OFF_ROAD_LIMIT_MILLI),
            r ==> *final(self) == (CarMainPlayer { off_road: 0, ..*old(self) }),
            !r ==> *final(self) == *old(self),
    {
        if self.off_road > OFF_ROAD_LIMIT_MILLI {
            self.off_road = 0;
            return true;
        }
        false
    }

    /// Latches the drive direction from the sign of the intent, only while
    /// the accelerator is at rest.
    pub fn go_forward(&mut self, change_by: i64, _ground: &Ground)
        ensures
            final(self).forward_reverse == (if old(self).accelerator_pressed == 0 && change_by != 0 {
                if change_by > 0 {
                    -1int
                } else {
                    1int
                }
            } else {
                old(self).forward_reverse as int
            }),
            *final(self) == (CarMainPlayer {
                forward_reverse: final(self).forward_reverse,
                ..*old(self)
            }),
    {
        if self.accelerator_pressed == 0 && change_by != 0 {
            self.forward_reverse = if change_by > 0 {
                -1
            } else {
                1
            };
        }
    }

    /// Adds to the steering bias, clamped to the lateral turn limit.
    pub fn steer_rotation_y_constant(&mut self, change_by: i64)
        requires
            -100_000 <= change_by <= 100_000,
            -STEER_MAX_MILLI <= old(self).steering <= STEER_MAX_MILLI,
        ensures
            final(self).steering == spec_clamp(
                old(self).steering + change_by,
                -STEER_MAX_MILLI as int,
                STEER_MAX_MILLI as int,
            ),
            *final(self) == (CarMainPlayer { steering: final(self).steering, ..*old(self) }),
    {
        let mut s = self.steering + change_by;
        if s > STEER_MAX_MILLI {
            s = STEER_MAX_MILLI;
        }
        if s < -STEER_MAX_MILLI {
            s = -STEER_MAX_MILLI;
        }
        self.steering = s;
    }

    /// Adds to the accelerator level, clamped to `[0, ACCEL_MAX_MILLI]`.
    pub fn accelerate(&mut self, forward_by: i64, _ground: &Ground)
        requires
            -100_000 <= forward_by <= 100_000,
            0 <= old(self).accelerator_pressed <= ACCEL_MAX_MILLI,
        ensures
            final(self).accelerator_pressed == spec_clamp(
                old(self).accelerator_pressed + forward_by,
                0,
                ACCEL_MAX_MILLI as int,
            ),
            *final(self) == (CarMainPlayer {
                accelerator_pressed: final(self).accelerator_pressed,
                ..*old(self)
            }),
    {
        let mut a = self.accelerator_pressed + forward_by;
        if a < 0 {
            a = 0;
        }
        if a > ACCEL_MAX_MILLI {
            a = ACCEL_MAX_MILLI;
        }
        self.accelerator_pressed = a;
    }

    /// One simulation tick: accumulate orientation, tentatively move, wrap at
    /// the world boundary, account the off-road penalty at the new ground
    /// position, then roll the translation back — orientation kept — on a
    /// scenery strike or when the height rule refuses the move.
    #[verifier::rlimit(100)]
    pub fn update(&mut self, delta: i64, ground: &Ground, tick: u64)
        requires
            old(self).wf(),
            ground.wf(),
            0 < delta <= 1000,
        ensures
            final(self).wf(),
            final(self).steering == old(self).steering,
            final(self).accelerator_pressed == old(self).accelerator_pressed,
            final(self).forward_reverse == old(self).forward_reverse,
            final(self).crashed == old(self).crashed,
            final(self).crashed_ticker == old(self).crashed_ticker,
            final(self).movement_collision.id == old(self).movement_collision.id,
            final(self).movement_collision.radius == old(self).movement_collision.radius,
            final(self).yaw_mdeg == spec_yaw_next(*old(self)),
            final(self).rotation_y == ((spec_yaw_next(*old(self)) + 500) / 1000) % 360,
            final(self).dir == (Vec3i {
                x: spec_dir_x(*old(self)) as i64,
                y: 0,
                z: spec_dir_z(*old(self)) as i64,
            }),
            final(self).off_road == spec_off_road_next(*old(self), *ground, delta as int),
            ({
                let p = spec_pos_after_height(*old(self), *ground);
                let hit = spec_scenery_strike(*ground, p.x as int, p.z as int);
                let rb = spec_height_rollback(*old(self), *ground);
                &&& final(self).movement_collision.position == (if hit is Some {
                    old(self).movement_collision.position
                } else {
                    p
                })
                &&& final(self).gravity == (if rb {
                    0
                } else {
                    spec_gravity_ramp(*old(self), tick as int)
                })
                &&& msg_view(final(self).msg) == (match hit {
                    Option::Some(kind) => MsgView::Hit(kind),
                    Option::None => {
                        match spec_road_label(*ground, p.x as int, p.z as int) {
                            Option::Some(d) => if spec_contains_road(d) {
                                MsgView::Road(d)
                            } else {
                                MsgView::Empty
                            },
                            Option::None => MsgView::Empty,
                        }
                    },
                })
            }),
    {
        let ghost s0 = *self;
        let old_pos = self.movement_collision.position;

        // orientation: forward displacement uses the orientation held at the
        // start of the tick, then the yaw delta is composed onto it
        let yaw_delta = if self.accelerator_pressed > 10 {
            -self.steering
        } else {
            0
        };
        let c = self.accelerator_pressed * self.forward_reverse;
        let sy = sin_milli(self.yaw_mdeg);
        let cy = cos_milli(self.yaw_mdeg);
        proof {
            assert(-500_000 <= c * sy <= 500_000 && -500_000 <= c * cy <= 500_000)
                by (nonlinear_arith)
                requires
                    -500 <= c <= 500 && -1000 <= sy <= 1000 && -1000 <= cy <= 1000,
            ;
            lemma_tdiv_bound(c * sy, 10_000, 500_000);
            lemma_tdiv_bound(c * cy, 10_000, 500_000);
        }
        let dir_x = crate::geom::div_trunc(c * sy, 10_000);
        let dir_z = crate::geom::div_trunc(c * cy, 10_000);
        self.dir = Vec3i { x: dir_x, y: 0, z: dir_z };

        let mut yaw = self.yaw_mdeg + yaw_delta;
        if yaw >= 360_000 {
            yaw = yaw - 360_000;
        }
        if yaw < 0 {
            yaw = yaw + 360_000;
        }
        self.yaw_mdeg = yaw;
        self.rotation_y = (((yaw + 500) as u64 / 1000) % 360) as i64;

        // tentative move, wrapped at the world boundary
        let tx = wrap_coord_x(old_pos.x + dir_x);
        let ty = old_pos.y - self.gravity;
        let tz = wrap_coord_z(old_pos.z + dir_z);
        self.movement_collision.position = Vec3i { x: tx, y: ty, z: tz };

        // gravity ramps on ramp ticks until its cap
        if tick % 60 <= 1 && self.gravity <= GRAVITY_MAX_MILLI {
            self.gravity = self.gravity + GRAVITY_ADD_MILLI;
        }

        // the height rule: the ahead probe coincides with the body position,
        // so one test covers the ahead and the current clause
        let ground_height_ahead = ground.position_height(tx, tz);
        if ty < ground_height_ahead + MODEL_HEIGHT_MILLI {
            self.movement_collision.position = old_pos;
            self.gravity = 0;
        }
        let cur = self.movement_collision.position;

        // off-road accounting at the current, possibly rolled-back position
        self.msg = Msg::Empty;
        if self.off_road > 0 {
            self.off_road = self.off_road - 5 * delta;
        }
        let over = ground.object_at(cur.x, cur.z);
        match over {
            Option::None => {
                self.off_road = self.off_road + OFF_ROAD_RATE_MILLI;
            },
            Option::Some(o) => {
                if description_contains_road(&o.description) {
                    self.msg = Msg::Road(copy_bytes(&o.description));
                } else {
                    self.off_road = self.off_road + OFF_ROAD_RATE_MILLI;
                }
            },
        }
        if self.off_road > OFF_ROAD_CAP_MILLI {
            self.off_road = OFF_ROAD_CAP_MILLI;
        }

        // scenery strike: roll the translation back, keep the orientation
        let (hit_scenery, cell_xyz) = ground.scenery_at(cur.x, cur.z);
        let cell_x = cell_xyz.x;
        let cell_z = cell_xyz.z;
        match hit_scenery {
            Option::Some(sc) => {
                proof {
                    let cell = ground.spec_cell_at(cur.x as int, cur.z as int);
                    lemma_scenery_pick_props(
                        cell.scenery_instances@,
                        cell.xyz,
                        cur.x as int,
                        cur.z as int,
                        0,
                    );
                    let mr = sc.movement_collision.radius as int;
                    assert(0 <= mr <= 100_000 && sc.position.bounded(1_000_000)
                        && cell.xyz.bounded(1_000_000) && *cell_xyz == cell.xyz) by {
                        reveal(crate::ground::Ground::wf);
                        reveal(crate::landscape::Landscape::wf);
                    }
                    assert(0 <= mr * mr <= 10_000_000_000) by (nonlinear_arith)
                        requires
                            0 <= mr <= 100_000,
                    ;
                }
                let world = Vec3i { x: cell_x + sc.position.x, y: 0, z: cell_z + sc.position.z };
                let d2 = dist2_xz(world, Vec3i { x: cur.x, y: 0, z: cur.z });
                if d2 < sc.movement_collision.radius * sc.movement_collision.radius {
                    self.movement_collision.position = old_pos;
                    self.msg = Msg::Hit(sc.scenery_type);
                }
            },
            Option::None => {},
        }
    }
}

} // verus!
