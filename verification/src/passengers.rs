//! Autonomous agents: pedestrians that wander the roads, escalate into
//! hostiles on a countdown, chase the vehicle, and self-destruct.
//!
//! Each tick is a pipeline of small steps; every step is stated as a
//! `Passenger`-valued spec function, so the contracts pin the whole state
//! transition down. The one nondeterministic point is the stuck-recovery
//! heading, a uniformly random cardinal.
use vstd::prelude::*;

use crate::geom::{dist2_xyz, lemma_tdiv_bound, spec_dist2_xyz, tdiv, Vec3i};
use crate::ground::{
    spec_ground_height, spec_on_polygon, spec_wrap_x, spec_wrap_z, wrap_coord_x, wrap_coord_z,
    Ground, HALF_WORLD_MILLI,
};
use crate::motion::{IdAllocator, MovementAndCollision};
use crate::rng::random_below;
use crate::trig::{
    bearing_deg, cos_milli, normalize_deg, sin_milli, spec_bearing, spec_cos_milli,
    spec_sin_milli,
};

verus! {

/// Vertical clearance an agent keeps above the terrain, in milli-units.
pub const PASSENGER_HEIGHT_MILLI: i64 = 100;

pub const GRAVITY_ADD_MILLI: i64 = 50;

pub const GRAVITY_MAX_MILLI: i64 = 50;

/// Speed once hostile, in milli-units.
pub const ZOMBIE_SPEED_MILLI: i64 = 250;

/// Squared pickup distance, in squared milli-units.
pub const PICKUP_DIST2: i64 = 60_000;

/// Squared hostile-contact distance.
pub const ZOMBIE_CONTACT_DIST2: i64 = 200_000;

/// Squared sensing radius while docile.
pub const HUMAN_SEE_DIST2: i64 = 4_000_000;

/// Squared sensing radius once hostile.
pub const ZOMBIE_SEE_DIST2: i64 = 8_000_000;

/// Forward-probe step, in milli-units.
pub const PROBE_STEP_MILLI: i64 = 100;

/// Cardinal road-probe distance, in milli-units.
pub const TEST_DISTANCE_MILLI: i64 = 1500;

/// Ticks of stationary turning before the hostile state is reached.
pub const TURNING_TICKS: i64 = 100;

/// Self-destruct countdown once exploding, in milliseconds.
pub const EXPLODE_MS: i64 = 500;

/// Hostile self-destruct bound on the countdown, in milliseconds.
pub const ZOMBIE_TIMEOUT_MS: i64 = -100_000;

/// Numeric floor of the countdown.
pub const COUNTDOWN_FLOOR_MS: i64 = -200_000;

/// Ticks a heading must be held before direct homing may override it.
pub const HOMING_DEBOUNCE_TICKS: i64 = 60;

/// Settle window, in ticks since the last passability change.
pub const SETTLE_CLICKS: i64 = 10;

/// Animation frames an agent cycles through.
pub const FRAME_COUNT: i64 = 4;

/// Numeric cap on the tick counters.
pub const COUNTER_CAP: i64 = 1_000_000;

/// Which of the four cardinal directions are passable.
#[derive(Clone, Copy, PartialEq, Eq, Structural, Debug)]
pub struct Nsew {
    pub north: bool,
    pub south: bool,
    pub east: bool,
    pub west: bool,
}

pub struct Passenger {
    pub movement_collision: MovementAndCollision,
    /// Animation phase, milli-frames `[0, 4000)`.
    pub animate: i64,
    pub zombie: bool,
    /// Lifecycle countdown, milliseconds.
    pub zombie_countdown: i64,
    /// Stationary ticks spent turning hostile, `[0, TURNING_TICKS + 1]`.
    pub turning_zombie: i64,
    pub zombie_exploding: bool,
    /// Facing angle, whole degrees `[0, 360)`.
    pub rotation_angle: i64,
    /// Per-tick angular increment: -1, 0 or 1 degree.
    pub angle_of_rotation: i64,
    /// Heading the agent is turning toward, whole degrees `[0, 360)`.
    pub target_angle: i64,
    pub previous_target_angle: i64,
    /// Derived display heading.
    pub rotation_y: i64,
    /// Derived display banking; stays 0 on the flat world.
    pub rotation_x: i64,
    /// Ticks the current heading has been held.
    pub moves_since_last_change: i64,
    pub nsew: Nsew,
    pub old_nsew: Nsew,
    /// Ticks since the passability vector last changed.
    pub nsew_change_clicks: i64,
    pub gravity: i64,
    /// Direction sign along the facing axis; agents always walk forward.
    pub forward_reverse: i64,
    /// Displacement applied by the last tick.
    pub dir: Vec3i,
    /// Walking speed, milli-units.
    pub speed: i64,
    /// Animation advance rate, milli-frames per second.
    pub animate_speed: i64,
    /// Whether this tick emitted the periodic turning-hostile cue.
    pub turning_cue: bool,
}

// --- pipeline spec functions -------------------------------------------------
pub open spec fn spec_min_cap(v: int, cap: int) -> int {
    if v > cap {
        cap
    } else {
        v
    }
}

/// One of the four cardinal headings.
pub open spec fn spec_is_cardinal(t: int) -> bool {
    t == 0 || t == 90 || t == 180 || t == 270
}

/// Countdown decremented, floored.
pub open spec fn sp_dec(s: Passenger, delta: int) -> Passenger {
    let cd = if s.zombie_countdown - delta < COUNTDOWN_FLOOR_MS {
        COUNTDOWN_FLOOR_MS as int
    } else {
        s.zombie_countdown - delta
    };
    Passenger { zombie_countdown: cd as i64, ..s }
}

/// Animation phase advanced and cycled; reset while exploding.
pub open spec fn sp_anim(s: Passenger, delta: int) -> Passenger {
    let a1 = s.animate + (delta * s.animate_speed) / 1000;
    let a2 = if a1 / 1000 >= FRAME_COUNT || s.zombie_exploding {
        0
    } else {
        a1
    };
    Passenger { animate: a2 as i64, ..s }
}

/// Whether the hostile transition is in progress this tick.
pub open spec fn spec_transition(s: Passenger) -> bool {
    !s.zombie && s.zombie_countdown < 0
}

pub open spec fn spec_becomes_zombie(s: Passenger) -> bool {
    spec_transition(s) && s.turning_zombie > TURNING_TICKS
}

pub open spec fn spec_halted(s: Passenger) -> bool {
    spec_transition(s) && s.turning_zombie <= TURNING_TICKS
}

/// Displacement along the facing angle held at the start of the tick.
pub open spec fn spec_move_x(s: Passenger) -> int {
    tdiv(s.forward_reverse * s.speed * spec_sin_milli(1000 * s.rotation_angle), 10_000)
}

pub open spec fn spec_move_z(s: Passenger) -> int {
    -tdiv(s.forward_reverse * s.speed * spec_cos_milli(1000 * s.rotation_angle), 10_000)
}

/// The movement step of a non-exploding agent: hostile transition bookkeeping,
/// facing advanced by the held increment, translation and gravity applied.
#[verifier::opaque]
pub open spec fn sp_movement(s: Passenger, tick: int) -> Passenger {
    let halted = spec_halted(s);
    let becomes = spec_becomes_zombie(s);
    let mx = if halted {
        0
    } else {
        spec_move_x(s)
    };
    let mz = if halted {
        0
    } else {
        spec_move_z(s)
    };
    let rot2 = (s.rotation_angle + s.angle_of_rotation) % 360;
    Passenger {
        zombie: s.zombie || becomes,
        speed: if becomes {
            ZOMBIE_SPEED_MILLI
        } else {
            s.speed
        },
        turning_zombie: if halted {
            (s.turning_zombie + 1) as i64
        } else {
            s.turning_zombie
        },
        zombie_countdown: if spec_transition(s) {
            (-1000) as i64
        } else {
            s.zombie_countdown
        },
        turning_cue: halted && (s.turning_zombie + 1) % 5 == 0,
        animate: if halted {
            0
        } else {
            s.animate
        },
        rotation_angle: rot2 as i64,
        rotation_y: rot2 as i64,
        dir: Vec3i { x: mx as i64, y: 0, z: mz as i64 },
        movement_collision: MovementAndCollision {
            position: Vec3i {
                x: (s.movement_collision.position.x + mx) as i64,
                y: (s.movement_collision.position.y - s.gravity) as i64,
                z: (s.movement_collision.position.z + mz) as i64,
            },
            ..s.movement_collision
        },
        gravity: if tick % 60 <= 1 && s.gravity <= GRAVITY_MAX_MILLI {
            (s.gravity + GRAVITY_ADD_MILLI) as i64
        } else {
            s.gravity
        },
        ..s
    }
}

/// The sink step of an exploding agent: it only falls, clamped at the
/// numeric world floor.
pub open spec fn sp_sink(s: Passenger, delta: int) -> Passenger {
    let y1 = s.movement_collision.position.y - (delta * 5) / 4;
    let y2 = if y1 < -1_000_000 {
        -1_000_000
    } else {
        y1
    };
    Passenger {
        movement_collision: MovementAndCollision {
            position: Vec3i { y: y2 as i64, ..s.movement_collision.position },
            ..s.movement_collision
        },
        ..s
    }
}

/// World-boundary wrap of the ground components.
pub open spec fn sp_wrap(s: Passenger) -> Passenger {
    Passenger {
        movement_collision: MovementAndCollision {
            position: Vec3i {
                x: spec_wrap_x(s.movement_collision.position.x as int) as i64,
                y: s.movement_collision.position.y,
                z: spec_wrap_z(s.movement_collision.position.z as int) as i64,
            },
            ..s.movement_collision
        },
        ..s
    }
}

// --- lifecycle triggers ------------------------------------------------------
pub open spec fn spec_pickup(s: Passenger, d2: int) -> bool {
    d2 < PICKUP_DIST2 && !s.zombie
}

pub open spec fn spec_contact(s: Passenger, d2: int) -> bool {
    !s.zombie_exploding && d2 < ZOMBIE_CONTACT_DIST2 && s.zombie
}

pub open spec fn spec_timeout(s: Passenger, d2: int) -> bool {
    s.zombie && s.zombie_countdown < ZOMBIE_TIMEOUT_MS && !(s.zombie_exploding || spec_contact(
        s,
        d2,
    ))
}

/// The self-destruct triggers applied to the state.
pub open spec fn sp_triggers(s: Passenger, d2: int) -> Passenger {
    if spec_contact(s, d2) || spec_timeout(s, d2) {
        Passenger { zombie_exploding: true, zombie_countdown: EXPLODE_MS, ..s }
    } else {
        s
    }
}

/// The tick's returned events: (finished, awarded points, hostile explosion).
pub open spec fn spec_events(s: Passenger, d2: int) -> (bool, bool, bool) {
    let pickup = spec_pickup(s, d2);
    let after = sp_triggers(s, d2);
    let fin = pickup || (after.zombie_exploding && after.zombie_countdown <= 0);
    (fin, pickup, spec_contact(s, d2))
}

// --- direction finding -------------------------------------------------------
/// Angle the forward probe is cast along: the facing plus the pending
/// increment once more.
pub open spec fn spec_probe_angle(s: Passenger) -> int {
    (s.rotation_angle + s.angle_of_rotation) % 360
}

/// A point one probe step ahead of `p` along heading `ang` (whole degrees).
pub open spec fn spec_probe_x(p: Vec3i, ang: int, k: int) -> int {
    p.x + tdiv(k * PROBE_STEP_MILLI * spec_sin_milli(1000 * ang), 1000)
}

pub open spec fn spec_probe_z(p: Vec3i, ang: int, k: int) -> int {
    p.z - tdiv(k * PROBE_STEP_MILLI * spec_cos_milli(1000 * ang), 1000)
}

/// Whether a polygon lies one step ahead along the pending facing.
#[verifier::opaque]
pub open spec fn spec_okay_forward(s: Passenger, g: Ground) -> bool {
    let p = s.movement_collision.position;
    let ang = spec_probe_angle(s);
    spec_on_polygon(g, spec_probe_x(p, ang, 1), spec_probe_z(p, ang, 1))
}

/// The four cardinal road probes around a point.
#[verifier::opaque]
pub open spec fn spec_nsew_probes(g: Ground, p: Vec3i) -> Nsew {
    Nsew {
        north: spec_on_polygon(g, p.x as int, p.z - TEST_DISTANCE_MILLI),
        south: spec_on_polygon(g, p.x as int, p.z + TEST_DISTANCE_MILLI),
        east: spec_on_polygon(g, p.x + TEST_DISTANCE_MILLI, p.z as int),
        west: spec_on_polygon(g, p.x - TEST_DISTANCE_MILLI, p.z as int),
    }
}

/// Heading of the homing override, from the bearing between the agent and
/// the chase target shifted a quarter turn; hostiles walking this heading
/// close on the target.
#[verifier::opaque]
pub open spec fn spec_bearing_target(old_pos: Vec3i, chase: Vec3i) -> int {
    (spec_bearing(old_pos.z - chase.z, old_pos.x - chase.x) - 90) % 360
}

/// Whether direct homing applies: target sensed within the mode's radius and
/// the current heading held long enough.
pub open spec fn spec_homing_applies(s: Passenger, d2: int) -> bool {
    (s.zombie && d2 < ZOMBIE_SEE_DIST2 || d2 < HUMAN_SEE_DIST2)
        && s.moves_since_last_change > HOMING_DEBOUNCE_TICKS
}

/// Whether the homing heading is confirmed: both short forward probes along
/// it stay on a polygon.
#[verifier::opaque]
pub open spec fn spec_homing_ok(s: Passenger, g: Ground, old_pos: Vec3i, chase: Vec3i) -> bool {
    let p = s.movement_collision.position;
    let b = spec_bearing_target(old_pos, chase);
    spec_on_polygon(g, spec_probe_x(p, b, 1), spec_probe_z(p, b, 1)) && spec_on_polygon(
        g,
        spec_probe_x(p, b, 2),
        spec_probe_z(p, b, 2),
    )
}

// --- the road-following heuristic ---------------------------------------------
/// Position after the forward-probe rollback inside the heuristic.
pub open spec fn spec_street_pos(s: Passenger, okay: bool, old_pos: Vec3i) -> Vec3i {
    if okay {
        s.movement_collision.position
    } else {
        old_pos
    }
}

pub open spec fn spec_street_clicks(s: Passenger, okay: bool, cur: Nsew) -> int {
    if okay && cur != s.nsew && s.moves_since_last_change > HOMING_DEBOUNCE_TICKS {
        0
    } else {
        spec_min_cap(s.nsew_change_clicks + 1, COUNTER_CAP as int)
    }
}

pub open spec fn spec_street_old_nsew(s: Passenger, okay: bool, cur: Nsew) -> Nsew {
    if okay && cur != s.nsew && s.moves_since_last_change > HOMING_DEBOUNCE_TICKS {
        s.nsew
    } else {
        s.old_nsew
    }
}

/// The state after the probe rollback and the passability bookkeeping.
pub open spec fn sp_mid(s: Passenger, okay: bool, cur: Nsew, old_pos: Vec3i) -> Passenger {
    Passenger {
        movement_collision: MovementAndCollision {
            position: spec_street_pos(s, okay, old_pos),
            ..s.movement_collision
        },
        nsew_change_clicks: spec_street_clicks(s, okay, cur) as i64,
        old_nsew: spec_street_old_nsew(s, okay, cur),
        ..s
    }
}

/// The settle-window heading rules, over the state they run in: each cardinal
/// whose passability changed and moves the agent toward the target may take
/// over, in fixed rule order.
pub open spec fn spec_settle_rules(s: Passenger, chase: Vec3i, cur: Nsew) -> int {
    let pos = s.movement_collision.position;
    let t1 = if s.old_nsew.east != s.nsew.east && s.target_angle != 270 && pos.x < chase.x
        && cur.east {
        90int
    } else {
        s.target_angle as int
    };
    let t2 = if s.old_nsew.west != s.nsew.west && t1 != 90 && pos.x > chase.x && cur.west {
        270int
    } else {
        t1
    };
    let t3 = if s.old_nsew.south != s.nsew.south && t2 != 0 && pos.z < chase.z && cur.south {
        180int
    } else {
        t2
    };
    if s.old_nsew.north != s.nsew.north && t3 != 180 && pos.z > chase.z && cur.north {
        0int
    } else {
        t3
    }
}




/// The cardinal the stuck branch picks, over the state it runs in; `None`
/// falls through to the uniformly random cardinal pick.
pub open spec fn spec_stuck_rules(s: Passenger, chase: Vec3i, cur: Nsew) -> Option<int> {
    let pos = s.movement_collision.position;
    if s.target_angle == 0 || s.target_angle == 180 {
        if pos.x < chase.x {
            if cur.east {
                Option::Some(90int)
            } else if cur.west {
                Option::Some(270int)
            } else {
                Option::None
            }
        } else {
            if cur.west {
                Option::Some(270int)
            } else if cur.east {
                Option::Some(90int)
            } else {
                Option::None
            }
        }
    } else {
        if pos.z < chase.z {
            if cur.south {
                Option::Some(180int)
            } else if cur.north {
                Option::Some(0int)
            } else {
                Option::None
            }
        } else {
            if cur.north {
                Option::Some(0int)
            } else if cur.south {
                Option::Some(180int)
            } else {
                Option::None
            }
        }
    }
}






/// The state after the settle-window update, when its tick has come.
#[verifier::opaque]
pub open spec fn sp_settled(
    s: Passenger,
    okay: bool,
    cur: Nsew,
    chase: Vec3i,
    old_pos: Vec3i,
) -> Passenger {
    let mid = sp_mid(s, okay, cur, old_pos);
    if mid.nsew_change_clicks == SETTLE_CLICKS {
        let t = spec_settle_rules(mid, chase, cur);
        Passenger {
            target_angle: t as i64,
            previous_target_angle: if t != mid.target_angle as int {
                mid.target_angle
            } else {
                mid.previous_target_angle
            },
            ..mid
        }
    } else {
        mid
    }
}

/// The heading after the settle window.
pub open spec fn spec_street_settle(
    s: Passenger,
    okay: bool,
    cur: Nsew,
    chase: Vec3i,
    old_pos: Vec3i,
) -> int {
    sp_settled(s, okay, cur, chase, old_pos).target_angle as int
}

/// Whether the stuck branch runs: the forward probe failed while already
/// facing the (settled) target.
pub open spec fn spec_street_stuck(
    s: Passenger,
    okay: bool,
    cur: Nsew,
    chase: Vec3i,
    old_pos: Vec3i,
) -> bool {
    !okay && spec_street_settle(s, okay, cur, chase, old_pos) == s.rotation_angle as int
}

/// The heuristic's heading, where it is deterministic; `None` is the
/// uniformly random stuck-recovery pick over the cardinals.
pub open spec fn spec_street_target(
    s: Passenger,
    okay: bool,
    cur: Nsew,
    chase: Vec3i,
    old_pos: Vec3i,
) -> Option<int> {
    if spec_street_stuck(s, okay, cur, chase, old_pos) {
        spec_stuck_rules(sp_settled(s, okay, cur, chase, old_pos), chase, cur)
    } else {
        Option::Some(spec_street_settle(s, okay, cur, chase, old_pos))
    }
}

/// The previously-held heading the heuristic records.
pub open spec fn spec_street_previous(
    s: Passenger,
    okay: bool,
    cur: Nsew,
    chase: Vec3i,
    old_pos: Vec3i,
) -> int {
    let st = sp_settled(s, okay, cur, chase, old_pos);
    if spec_street_stuck(s, okay, cur, chase, old_pos) {
        st.target_angle as int
    } else {
        st.previous_target_angle as int
    }
}

/// The direction step's heading: the homing heading where it applies and both
/// probes confirm it, else the road-following heuristic's.
pub open spec fn spec_direction_target(
    s: Passenger,
    g: Ground,
    chase: Vec3i,
    old_pos: Vec3i,
    d2: int,
) -> Option<int> {
    if spec_homing_applies(s, d2) && spec_homing_ok(s, g, old_pos, chase) {
        Option::Some(spec_bearing_target(old_pos, chase))
    } else {
        spec_street_target(
            s,
            spec_okay_forward(s, g),
            spec_nsew_probes(g, old_pos),
            chase,
            old_pos,
        )
    }
}

// --- turning and the height rule ----------------------------------------------
/// The shorter rotational direction from `rot` toward `tgt`: +1, -1, or 0
/// when already aligned.
pub open spec fn spec_turn_dir(rot: int, tgt: int) -> int {
    if tgt == rot {
        0
    } else if 0 < (tgt - rot) % 360 < 180 {
        1
    } else {
        -1
    }
}

/// Circular distance between two headings, in degrees: the length of the
/// shorter rotational arc.
pub open spec fn spec_cdist(rot: int, tgt: int) -> int {
    let d = (tgt - rot) % 360;
    if d <= 180 {
        d
    } else {
        360 - d
    }
}

/// The facing after `k` turn ticks toward a fixed target, each tick applying
/// the one-degree increment in the shorter rotational direction.
pub open spec fn spec_turn_iter(rot: int, tgt: int, k: nat) -> int
    decreases k,
{
    if k == 0 {
        rot
    } else {
        spec_turn_iter((rot + spec_turn_dir(rot, tgt)) % 360, tgt, (k - 1) as nat)
    }
}

/// One turn tick strictly shortens the arc to the target by exactly one
/// degree and never leaves the valid range.
pub proof fn lemma_turn_one_step(rot: int, tgt: int)
    requires
        0 <= rot < 360,
        0 <= tgt < 360,
        rot != tgt,
    ensures
        ({
            let rot2 = (rot + spec_turn_dir(rot, tgt)) % 360;
            0 <= rot2 < 360 && spec_cdist(rot2, tgt) == spec_cdist(rot, tgt) - 1
        }),
{
    let d = (tgt - rot) % 360;
    if tgt > rot {
        assert(d == tgt - rot);
    } else {
        assert(d == tgt - rot + 360);
    }
}

/// Heading-turn convergence law: from any facing, turning toward a fixed
/// target reaches it exactly within the circular distance in ticks, and then
/// holds it — no overshoot and no oscillation.
pub proof fn lemma_turn_converges(rot: int, tgt: int, k: nat)
    requires
        0 <= rot < 360,
        0 <= tgt < 360,
        k >= spec_cdist(rot, tgt),
    ensures
        spec_turn_iter(rot, tgt, k) == tgt,
    decreases k,
{
    if rot == tgt {
        if k > 0 {
            assert((rot + spec_turn_dir(rot, tgt)) % 360 == tgt);
            lemma_turn_converges(tgt, tgt, (k - 1) as nat);
        }
    } else {
        lemma_turn_one_step(rot, tgt);
        lemma_turn_converges((rot + spec_turn_dir(rot, tgt)) % 360, tgt, (k - 1) as nat);
    }
}

/// The turn step: while facing differs from the target, hold the translation
/// (back to the pre-tick position), step the angle increment, and suppress
/// the animation; once aligned, count the held ticks.
pub open spec fn sp_turn(s: Passenger, old_pos: Vec3i) -> Passenger {
    if s.target_angle == s.rotation_angle {
        Passenger {
            angle_of_rotation: 0,
            moves_since_last_change: spec_min_cap(
                s.moves_since_last_change + 1,
                COUNTER_CAP as int,
            ) as i64,
            ..s
        }
    } else {
        Passenger {
            angle_of_rotation: spec_turn_dir(s.rotation_angle as int, s.target_angle as int) as i64,
            moves_since_last_change: 0,
            animate: 0,
            movement_collision: MovementAndCollision { position: old_pos, ..s.movement_collision },
            ..s
        }
    }
}

/// The terrain rule: a non-exploding agent below clearance is put back.
pub open spec fn sp_height(s: Passenger, g: Ground, old_pos: Vec3i) -> Passenger {
    let p = s.movement_collision.position;
    if !s.zombie_exploding && p.y < spec_ground_height(g, p.x as int, p.z as int)
        + PASSENGER_HEIGHT_MILLI {
        Passenger {
            movement_collision: MovementAndCollision { position: old_pos, ..s.movement_collision },
            gravity: 0,
            ..s
        }
    } else {
        s
    }
}

/// State after the movement phase: countdown, animation, movement or sink,
/// wrap.
pub open spec fn sp_moved(s: Passenger, delta: int, tick: int) -> Passenger {
    let sa = sp_anim(sp_dec(s, delta), delta);
    let sb = if sa.zombie_exploding {
        sp_sink(sa, delta)
    } else {
        sp_movement(sa, tick)
    };
    sp_wrap(sb)
}

/// Everything after the direction step.
pub open spec fn sp_finish(s: Passenger, g: Ground, old_pos: Vec3i) -> Passenger {
    sp_height(sp_turn(s, old_pos), g, old_pos)
}

impl Passenger {
    /// The part of well-formedness the navigation steps need; it holds in the
    /// middle of a tick, where the full invariant does not yet.
    pub open spec fn nav_ok(self) -> bool {
        &&& 0 <= self.rotation_angle < 360
        &&& (self.angle_of_rotation == -1 || self.angle_of_rotation == 0
            || self.angle_of_rotation == 1)
        &&& 0 <= self.target_angle < 360
        &&& 0 <= self.previous_target_angle < 360
        &&& 0 <= self.moves_since_last_change <= COUNTER_CAP
        &&& 0 <= self.nsew_change_clicks <= COUNTER_CAP
        &&& -HALF_WORLD_MILLI <= self.movement_collision.position.x <= HALF_WORLD_MILLI
        &&& -HALF_WORLD_MILLI <= self.movement_collision.position.z <= HALF_WORLD_MILLI
    }

    pub open spec fn wf(self) -> bool {
        &&& 0 <= self.animate < 4000
        &&& COUNTDOWN_FLOOR_MS <= self.zombie_countdown <= 120_000
        &&& 0 <= self.turning_zombie <= TURNING_TICKS + 1
        &&& 0 <= self.rotation_angle < 360
        &&& (self.angle_of_rotation == -1 || self.angle_of_rotation == 0
            || self.angle_of_rotation == 1)
        &&& 0 <= self.target_angle < 360
        &&& 0 <= self.previous_target_angle < 360
        &&& 0 <= self.rotation_y < 360
        &&& self.rotation_x == 0
        &&& 0 <= self.moves_since_last_change <= COUNTER_CAP
        &&& 0 <= self.nsew_change_clicks <= COUNTER_CAP
        &&& 0 <= self.gravity <= 2 * GRAVITY_ADD_MILLI
        &&& self.forward_reverse == 1
        &&& 100 <= self.speed <= ZOMBIE_SPEED_MILLI
        &&& 8400 <= self.animate_speed <= 21_000
        &&& -HALF_WORLD_MILLI <= self.movement_collision.position.x <= HALF_WORLD_MILLI
        &&& -HALF_WORLD_MILLI <= self.movement_collision.position.z <= HALF_WORLD_MILLI
        &&& -1_000_000 <= self.movement_collision.position.y <= 300_000
        &&& (!self.zombie_exploding ==> self.movement_collision.position.y >= -999_900)
        &&& (self.zombie_exploding ==> self.zombie)
    }

    /// Spawns an agent at a world position, facing south, with a randomized
    /// walking speed.
    pub fn new(start_position: Vec3i, ids: &mut IdAllocator) -> (r: Passenger)
        requires
            old(ids).next < u128::MAX,
            -HALF_WORLD_MILLI <= start_position.x <= HALF_WORLD_MILLI,
            -HALF_WORLD_MILLI <= start_position.z <= HALF_WORLD_MILLI,
            -999_900 <= start_position.y <= 300_000,
        ensures
            r.wf(),
            r.movement_collision.position == start_position,
            !r.zombie,
            !r.zombie_exploding,
            r.zombie_countdown == 6000,
            r.turning_zombie == 0,
            r.rotation_angle == 180,
            r.target_angle == 180,
            r.previous_target_angle == 0,
            r.angle_of_rotation == 0,
            r.moves_since_last_change == 0,
            r.nsew_change_clicks == 100,
            r.gravity == GRAVITY_ADD_MILLI,
            100 <= r.speed < 150,
            r.animate_speed == r.speed * 84,
    {
        let draw = random_below(50);
        let speed = 100 + (draw as i64);
        Passenger {
            movement_collision: MovementAndCollision::new(125, start_position, ids),
            animate: 0,
            zombie: false,
            zombie_countdown: 6000,
            turning_zombie: 0,
            zombie_exploding: false,
            rotation_angle: 180,
            angle_of_rotation: 0,
            target_angle: 180,
            previous_target_angle: 0,
            rotation_y: 180,
            rotation_x: 0,
            moves_since_last_change: 0,
            nsew: Nsew { north: false, south: false, east: false, west: false },
            old_nsew: Nsew { north: false, south: false, east: false, west: false },
            nsew_change_clicks: 100,
            gravity: GRAVITY_ADD_MILLI,
            forward_reverse: 1,
            dir: Vec3i { x: 0, y: 0, z: 0 },
            speed,
            animate_speed: speed * 84,
            turning_cue: false,
        }
    }

    /// Draws the time this agent takes to turn hostile: uniform over
    /// 40 to 120 simulated seconds.
    pub fn set_random_time_to_zombie(&mut self)
        ensures
            40_000 <= final(self).zombie_countdown < 120_000,
            *final(self) == (Passenger {
                zombie_countdown: final(self).zombie_countdown,
                ..*old(self)
            }),
    {
        let draw = random_below(80_000);
        self.zombie_countdown = 40_000 + (draw as i64);
    }

    fn set_to_explode(&mut self) -> (r: bool)
        ensures
            r,
            *final(self) == (Passenger {
                zombie_exploding: true,
                zombie_countdown: EXPLODE_MS,
                ..*old(self)
            }),
    {
        self.zombie_exploding = true;
        self.zombie_countdown = EXPLODE_MS;
        true
    }

    /// Whether any polygon covers the given world point.
    fn see_if_road_ahead(&self, ground: &Ground, x: i64, z: i64) -> (b: bool)
        requires
            ground.wf(),
            -2_000_000 <= x <= 2_000_000,
            -2_000_000 <= z <= 2_000_000,
        ensures
            b == spec_on_polygon(*ground, x as int, z as int),
    {
        let r = ground.object_at(x, z).is_some();
        proof {
            reveal(crate::ground::spec_on_polygon);
        }
        r
    }

    fn stuck_random_move(&mut self)
        ensures
            final(self).target_angle == 0 || final(self).target_angle == 90
                || final(self).target_angle == 180 || final(self).target_angle == 270,
            *final(self) == (Passenger { target_angle: final(self).target_angle, ..*old(self) }),
    {
        let draw = random_below(4);
        self.target_angle = (draw as i64) * 90;
    }

    fn wrap_position_if_needed(&mut self)
        requires
            -48_000 <= old(self).movement_collision.position.x <= 48_000,
            -48_000 <= old(self).movement_collision.position.z <= 48_000,
        ensures
            *final(self) == sp_wrap(*old(self)),
            -HALF_WORLD_MILLI <= final(self).movement_collision.position.x <= HALF_WORLD_MILLI,
            -HALF_WORLD_MILLI <= final(self).movement_collision.position.z <= HALF_WORLD_MILLI,
    {
        let x = wrap_coord_x(self.movement_collision.position.x);
        let z = wrap_coord_z(self.movement_collision.position.z);
        self.movement_collision.position.x = x;
        self.movement_collision.position.z = z;
    }

    #[verifier::rlimit(100)]
    fn do_movement_updates(&mut self, tick: u64)
        requires
            old(self).wf(),
            !old(self).zombie_exploding,
        ensures
            *final(self) == sp_movement(*old(self), tick as int),
            -16_025 <= final(self).movement_collision.position.x <= 16_025,
            -16_025 <= final(self).movement_collision.position.z <= 16_025,
            final(self).movement_collision.position.y
                == old(self).movement_collision.position.y - old(self).gravity,
            final(self).target_angle == old(self).target_angle,
            final(self).previous_target_angle == old(self).previous_target_angle,
            final(self).angle_of_rotation == old(self).angle_of_rotation,
            0 <= final(self).rotation_angle < 360,
            0 <= final(self).rotation_y < 360,
            final(self).rotation_x == old(self).rotation_x,
            final(self).moves_since_last_change == old(self).moves_since_last_change,
            final(self).nsew_change_clicks == old(self).nsew_change_clicks,
            final(self).nsew == old(self).nsew,
            final(self).old_nsew == old(self).old_nsew,
            final(self).zombie_exploding == old(self).zombie_exploding,
            final(self).animate_speed == old(self).animate_speed,
            final(self).forward_reverse == old(self).forward_reverse,
            final(self).movement_collision.id == old(self).movement_collision.id,
            final(self).movement_collision.radius == old(self).movement_collision.radius,
            final(self).movement_collision.been_hit == old(self).movement_collision.been_hit,
            final(self).movement_collision.moved == old(self).movement_collision.moved,
            0 <= final(self).animate < 4000,
            (final(self).zombie_countdown == -1000 || final(self).zombie_countdown == old(
                self,
            ).zombie_countdown),
            (old(self).zombie ==> final(self).zombie),
            0 <= final(self).turning_zombie <= TURNING_TICKS + 1,
            (final(self).speed == old(self).speed || final(self).speed == ZOMBIE_SPEED_MILLI),
            0 <= final(self).gravity <= 2 * GRAVITY_ADD_MILLI,
    {
        let halted = !self.zombie && self.zombie_countdown < 0 && self.turning_zombie
            <= TURNING_TICKS;
        let fr_speed = self.forward_reverse * self.speed;
        let sy = sin_milli(1000 * self.rotation_angle);
        let cy = cos_milli(1000 * self.rotation_angle);
        proof {
            assert(0 <= fr_speed * sy <= 250_000 || -250_000 <= fr_speed * sy <= 0)
                by (nonlinear_arith)
                requires
                    0 <= fr_speed <= 250 && -1000 <= sy <= 1000,
            ;
            assert(0 <= fr_speed * cy <= 250_000 || -250_000 <= fr_speed * cy <= 0)
                by (nonlinear_arith)
                requires
                    0 <= fr_speed <= 250 && -1000 <= cy <= 1000,
            ;
            lemma_tdiv_bound(fr_speed * sy, 10_000, 250_000);
            lemma_tdiv_bound(fr_speed * cy, 10_000, 250_000);
        }
        let mx = if halted {
            0
        } else {
            crate::geom::div_trunc(fr_speed * sy, 10_000)
        };
        let mz = if halted {
            0
        } else {
            -crate::geom::div_trunc(fr_speed * cy, 10_000)
        };

        if !self.zombie && self.zombie_countdown < 0 {
            self.zombie_countdown = -1000;
            if self.turning_zombie > TURNING_TICKS {
                self.zombie = true;
                self.speed = ZOMBIE_SPEED_MILLI;
                self.turning_cue = false;
            } else {
                self.animate = 0;
                self.turning_zombie = self.turning_zombie + 1;
                self.turning_cue = (self.turning_zombie as u64) % 5 == 0;
            }
        } else {
            self.turning_cue = false;
        }

        let rot2 = normalize_deg(self.rotation_angle + self.angle_of_rotation);
        self.rotation_angle = rot2;
        self.rotation_y = rot2;

        self.dir = Vec3i { x: mx, y: 0, z: mz };
        self.movement_collision.position = Vec3i {
            x: self.movement_collision.position.x + mx,
            y: self.movement_collision.position.y - self.gravity,
            z: self.movement_collision.position.z + mz,
        };

        if tick % 60 <= 1 && self.gravity <= GRAVITY_MAX_MILLI {
            self.gravity = self.gravity + GRAVITY_ADD_MILLI;
        }
        proof {
            assert(halted == spec_halted(*old(self)));
            assert(mx as int == (if spec_halted(*old(self)) {
                0int
            } else {
                spec_move_x(*old(self))
            }));
            assert(mz as int == (if spec_halted(*old(self)) {
                0int
            } else {
                spec_move_z(*old(self))
            }));
            assert(*self == sp_movement(*old(self), tick as int)) by {
                reveal(sp_movement);
            }
        }
    }

    fn turn_around_update(&mut self, old_pos: Vec3i)
        requires
            0 <= old(self).rotation_angle < 360,
            0 <= old(self).target_angle < 360,
            0 <= old(self).moves_since_last_change <= COUNTER_CAP,
        ensures
            *final(self) == sp_turn(*old(self), old_pos),
    {
        if self.target_angle == self.rotation_angle {
            self.angle_of_rotation = 0;
            if self.moves_since_last_change < COUNTER_CAP {
                self.moves_since_last_change = self.moves_since_last_change + 1;
            }
        } else {
            let mut diff = self.target_angle - self.rotation_angle;
            if diff < 0 {
                diff = diff + 360;
            }
            self.animate = 0;
            self.movement_collision.position = old_pos;
            self.moves_since_last_change = 0;
            self.angle_of_rotation = if diff > 0 && diff < 180 {
                1
            } else {
                -1
            };
        }
    }

    #[verifier::rlimit(100)]
    /// The settle-window heading update, on the state it runs in.
    fn apply_settle_rules(&mut self, chase_target: Vec3i, cur: Nsew)
        requires
            0 <= old(self).target_angle < 360,
        ensures
            ({
                let t = spec_settle_rules(*old(self), chase_target, cur);
                &&& *final(self) == (Passenger {
                    target_angle: t as i64,
                    previous_target_angle: (if t != old(self).target_angle as int {
                        old(self).target_angle
                    } else {
                        old(self).previous_target_angle
                    }),
                    ..*old(self)
                })
                &&& (t == 0 || t == 90 || t == 180 || t == 270 || t == old(
                    self,
                ).target_angle as int)
            }),
    {
        let save = self.target_angle;
        if self.old_nsew.east != self.nsew.east && self.target_angle != 270
            && self.movement_collision.position.x < chase_target.x && cur.east {
            self.target_angle = 90;
        }
        if self.old_nsew.west != self.nsew.west && self.target_angle != 90
            && self.movement_collision.position.x > chase_target.x && cur.west {
            self.target_angle = 270;
        }
        if self.old_nsew.south != self.nsew.south && self.target_angle != 0
            && self.movement_collision.position.z < chase_target.z && cur.south {
            self.target_angle = 180;
        }
        if self.old_nsew.north != self.nsew.north && self.target_angle != 180
            && self.movement_collision.position.z > chase_target.z && cur.north {
            self.target_angle = 0;
        }
        if self.target_angle != save {
            self.previous_target_angle = save;
        }
    }

    /// The stuck-recovery pick, on the state it runs in: a passable cardinal
    /// toward the target's coordinate, or a uniformly random cardinal.
    fn apply_stuck_rules(&mut self, chase_target: Vec3i, cur: Nsew)
        ensures
            match spec_stuck_rules(*old(self), chase_target, cur) {
                Option::Some(t) => *final(self) == (Passenger {
                    target_angle: t as i64,
                    previous_target_angle: old(self).target_angle,
                    ..*old(self)
                }),
                Option::None => exists|t: int|
                    #[trigger] spec_is_cardinal(t) && *final(self) == (Passenger {
                        target_angle: t as i64,
                        previous_target_angle: old(self).target_angle,
                        ..*old(self)
                    }),
            },
    {
        let save = self.target_angle;
        if self.target_angle == 0 || self.target_angle == 180 {
            if self.movement_collision.position.x < chase_target.x {
                if cur.east {
                    self.target_angle = 90;
                } else if cur.west {
                    self.target_angle = 270;
                } else {
                    self.stuck_random_move();
                }
            } else {
                if cur.west {
                    self.target_angle = 270;
                } else if cur.east {
                    self.target_angle = 90;
                } else {
                    self.stuck_random_move();
                }
            }
        } else {
            if self.movement_collision.position.z < chase_target.z {
                if cur.south {
                    self.target_angle = 180;
                } else if cur.north {
                    self.target_angle = 0;
                } else {
                    self.stuck_random_move();
                }
            } else {
                if cur.north {
                    self.target_angle = 0;
                } else if cur.south {
                    self.target_angle = 180;
                } else {
                    self.stuck_random_move();
                }
            }
        }
        self.previous_target_angle = save;
        proof {
            if spec_stuck_rules(*old(self), chase_target, cur) is None {
                let t = self.target_angle as int;
                assert(spec_is_cardinal(t) && *self == (Passenger {
                    target_angle: t as i64,
                    previous_target_angle: old(self).target_angle,
                    ..*old(self)
                }));
            }
        }
    }

    /// The probe phase of the road-following heuristic: the forward probe
    /// with its rollback, the four cardinal probes, and the passability
    /// bookkeeping. Returns the forward-probe outcome and the probes.
    #[verifier::rlimit(100)]
    fn probe_surroundings(&mut self, ground: &Ground, old_pos: Vec3i) -> (r: (bool, Nsew))
        requires
            ground.wf(),
            old(self).nav_ok(),
            -HALF_WORLD_MILLI <= old_pos.x <= HALF_WORLD_MILLI,
            -HALF_WORLD_MILLI <= old_pos.z <= HALF_WORLD_MILLI,
        ensures
            r.0 == spec_okay_forward(*old(self), *ground),
            r.1 == spec_nsew_probes(*ground, old_pos),
            *final(self) == sp_mid(*old(self), r.0, r.1, old_pos),
    {
        let pa = normalize_deg(self.rotation_angle + self.angle_of_rotation);
        let sy = sin_milli(1000 * pa);
        let cy = cos_milli(1000 * pa);
        proof {
            lemma_tdiv_bound(100 * sy, 1000, 100_000);
            lemma_tdiv_bound(100 * cy, 1000, 100_000);
        }
        let fx = self.movement_collision.position.x + crate::geom::div_trunc(100 * sy, 1000);
        let fz = self.movement_collision.position.z - crate::geom::div_trunc(100 * cy, 1000);
        let okay_forward = self.see_if_road_ahead(ground, fx, fz);
        proof {
            assert(okay_forward == spec_okay_forward(*old(self), *ground)) by {
                reveal(spec_okay_forward);
                assert(pa as int == spec_probe_angle(*old(self)));
            }
        }

        if !okay_forward {
            self.movement_collision.position = old_pos;
        }

        let north = self.see_if_road_ahead(ground, old_pos.x, old_pos.z - TEST_DISTANCE_MILLI);
        let south = self.see_if_road_ahead(ground, old_pos.x, old_pos.z + TEST_DISTANCE_MILLI);
        let east = self.see_if_road_ahead(ground, old_pos.x + TEST_DISTANCE_MILLI, old_pos.z);
        let west = self.see_if_road_ahead(ground, old_pos.x - TEST_DISTANCE_MILLI, old_pos.z);
        let current_nsew = Nsew { north, south, east, west };
        proof {
            assert(current_nsew == spec_nsew_probes(*ground, old_pos)) by {
                reveal(spec_nsew_probes);
            }
        }

        if self.nsew_change_clicks < COUNTER_CAP {
            self.nsew_change_clicks = self.nsew_change_clicks + 1;
        }
        let changed = current_nsew.north != self.nsew.north || current_nsew.south
            != self.nsew.south || current_nsew.east != self.nsew.east || current_nsew.west
            != self.nsew.west;
        if okay_forward && changed && self.moves_since_last_change > HOMING_DEBOUNCE_TICKS {
            self.nsew_change_clicks = 0;
            self.old_nsew = self.nsew;
        }
        proof {
            assert((current_nsew == old(self).nsew) <==> !changed);
            assert(*self == sp_mid(*old(self), okay_forward, current_nsew, old_pos));
        }
        (okay_forward, current_nsew)
    }

    /// The heading-update tail of the road-following heuristic, after the
    /// probes are in hand: the settle-window update, the stuck recovery, and
    /// the passability recording. `s0` is the state the heuristic started
    /// from; the caller hands the probe outcomes in.
    #[verifier::rlimit(100)]
    fn finish_street_smarts(
        &mut self,
        chase_target: Vec3i,
        old_pos: Vec3i,
        okay_forward: bool,
        cur: Nsew,
        Ghost(s0): Ghost<Passenger>,
    )
        requires
            *old(self) == sp_mid(s0, okay_forward, cur, old_pos),
            0 <= s0.rotation_angle < 360,
            0 <= s0.target_angle < 360,
            0 <= s0.previous_target_angle < 360,
            0 <= s0.moves_since_last_change <= COUNTER_CAP,
            0 <= s0.nsew_change_clicks <= COUNTER_CAP,
        ensures
            final(self).movement_collision.position == spec_street_pos(s0, okay_forward, old_pos),
            final(self).nsew == cur,
            final(self).old_nsew == spec_street_old_nsew(s0, okay_forward, cur),
            final(self).nsew_change_clicks as int == spec_street_clicks(s0, okay_forward, cur),
            final(self).previous_target_angle as int == spec_street_previous(
                s0,
                okay_forward,
                cur,
                chase_target,
                old_pos,
            ),
            match spec_street_target(s0, okay_forward, cur, chase_target, old_pos) {
                Option::Some(t) => final(self).target_angle as int == t,
                Option::None => spec_is_cardinal(final(self).target_angle as int),
            },
            0 <= final(self).target_angle < 360,
            0 <= final(self).previous_target_angle < 360,
            final(self).rotation_angle == s0.rotation_angle,
            final(self).angle_of_rotation == s0.angle_of_rotation,
            final(self).moves_since_last_change == s0.moves_since_last_change,
            final(self).zombie == s0.zombie,
            final(self).zombie_exploding == s0.zombie_exploding,
            final(self).zombie_countdown == s0.zombie_countdown,
            final(self).turning_zombie == s0.turning_zombie,
            final(self).animate == s0.animate,
            final(self).gravity == s0.gravity,
            final(self).speed == s0.speed,
            final(self).animate_speed == s0.animate_speed,
            final(self).forward_reverse == s0.forward_reverse,
            final(self).rotation_y == s0.rotation_y,
            final(self).rotation_x == s0.rotation_x,
            final(self).dir == s0.dir,
            final(self).turning_cue == s0.turning_cue,
            final(self).movement_collision.id == s0.movement_collision.id,
            final(self).movement_collision.radius == s0.movement_collision.radius,
            final(self).movement_collision.been_hit == s0.movement_collision.been_hit,
            final(self).movement_collision.moved == s0.movement_collision.moved,
    {
        if self.nsew_change_clicks == SETTLE_CLICKS {
            self.apply_settle_rules(chase_target, cur);
        }
        let ghost st = sp_settled(s0, okay_forward, cur, chase_target, old_pos);
        proof {
            assert(*self == st) by {
                reveal(sp_settled);
            }
            assert(st.movement_collision.position == spec_street_pos(s0, okay_forward, old_pos)
                && st.nsew_change_clicks as int == spec_street_clicks(s0, okay_forward, cur)
                && st.old_nsew == spec_street_old_nsew(s0, okay_forward, cur)
                && st.rotation_angle == s0.rotation_angle && (st.target_angle as int
                == spec_street_settle(s0, okay_forward, cur, chase_target, old_pos)) && (
            st.target_angle == s0.target_angle || st.target_angle == 0 || st.target_angle == 90
                || st.target_angle == 180 || st.target_angle == 270) && (st.previous_target_angle
                == s0.target_angle || st.previous_target_angle == s0.previous_target_angle)) by {
                reveal(sp_settled);
            }
        }
        let stuck = !okay_forward && self.target_angle == self.rotation_angle;
        proof {
            assert(stuck == spec_street_stuck(s0, okay_forward, cur, chase_target, old_pos));
        }
        if stuck {
            self.apply_stuck_rules(chase_target, cur);
        }

        self.nsew = cur;
    }

    #[verifier::rlimit(100)]
    fn do_some_street_smarts(&mut self, ground: &Ground, chase_target: Vec3i, old_pos: Vec3i)
        requires
            ground.wf(),
            old(self).nav_ok(),
            -HALF_WORLD_MILLI <= old_pos.x <= HALF_WORLD_MILLI,
            -HALF_WORLD_MILLI <= old_pos.z <= HALF_WORLD_MILLI,
            chase_target.bounded(1_000_000),
        ensures
            final(self).rotation_angle == old(self).rotation_angle,
            final(self).angle_of_rotation == old(self).angle_of_rotation,
            0 <= final(self).target_angle < 360,
            0 <= final(self).previous_target_angle < 360,
            final(self).moves_since_last_change == old(self).moves_since_last_change,
            0 <= final(self).nsew_change_clicks <= COUNTER_CAP,
            final(self).zombie == old(self).zombie,
            final(self).zombie_exploding == old(self).zombie_exploding,
            final(self).zombie_countdown == old(self).zombie_countdown,
            final(self).turning_zombie == old(self).turning_zombie,
            final(self).animate == old(self).animate,
            final(self).gravity == old(self).gravity,
            final(self).speed == old(self).speed,
            final(self).animate_speed == old(self).animate_speed,
            final(self).forward_reverse == old(self).forward_reverse,
            final(self).rotation_y == old(self).rotation_y,
            final(self).rotation_x == old(self).rotation_x,
            final(self).dir == old(self).dir,
            final(self).turning_cue == old(self).turning_cue,
            final(self).movement_collision.id == old(self).movement_collision.id,
            final(self).movement_collision.radius == old(self).movement_collision.radius,
            final(self).movement_collision.been_hit == old(self).movement_collision.been_hit,
            final(self).movement_collision.moved == old(self).movement_collision.moved,
            final(self).movement_collision.position == spec_street_pos(
                *old(self),
                spec_okay_forward(*old(self), *ground),
                old_pos,
            ),
            final(self).nsew == spec_nsew_probes(*ground, old_pos),
            final(self).old_nsew == spec_street_old_nsew(
                *old(self),
                spec_okay_forward(*old(self), *ground),
                spec_nsew_probes(*ground, old_pos),
            ),
            final(self).nsew_change_clicks as int == spec_street_clicks(
                *old(self),
                spec_okay_forward(*old(self), *ground),
                spec_nsew_probes(*ground, old_pos),
            ),
            final(self).previous_target_angle as int == spec_street_previous(
                *old(self),
                spec_okay_forward(*old(self), *ground),
                spec_nsew_probes(*ground, old_pos),
                chase_target,
                old_pos,
            ),
            match spec_street_target(
                *old(self),
                spec_okay_forward(*old(self), *ground),
                spec_nsew_probes(*ground, old_pos),
                chase_target,
                old_pos,
            ) {
                Option::Some(t) => final(self).target_angle as int == t,
                Option::None => spec_is_cardinal(final(self).target_angle as int),
            },
    {
        let ghost s0 = *old(self);
        let (okay_forward, current_nsew) = self.probe_surroundings(ground, old_pos);
        self.finish_street_smarts(chase_target, old_pos, okay_forward, current_nsew, Ghost(s0));
    }

    fn workout_my_direction(
        &mut self,
        ground: &Ground,
        chase_target: Vec3i,
        old_pos: Vec3i,
        distance: i64,
    )
        requires
            ground.wf(),
            old(self).nav_ok(),
            -HALF_WORLD_MILLI <= old_pos.x <= HALF_WORLD_MILLI,
            -HALF_WORLD_MILLI <= old_pos.z <= HALF_WORLD_MILLI,
            chase_target.bounded(1_000_000),
            0 <= distance,
        ensures
            final(self).rotation_angle == old(self).rotation_angle,
            final(self).angle_of_rotation == old(self).angle_of_rotation,
            0 <= final(self).target_angle < 360,
            0 <= final(self).previous_target_angle < 360,
            final(self).moves_since_last_change == old(self).moves_since_last_change,
            0 <= final(self).nsew_change_clicks <= COUNTER_CAP,
            final(self).zombie == old(self).zombie,
            final(self).zombie_exploding == old(self).zombie_exploding,
            final(self).zombie_countdown == old(self).zombie_countdown,
            final(self).turning_zombie == old(self).turning_zombie,
            final(self).animate == old(self).animate,
            final(self).gravity == old(self).gravity,
            final(self).speed == old(self).speed,
            final(self).animate_speed == old(self).animate_speed,
            final(self).forward_reverse == old(self).forward_reverse,
            final(self).rotation_y == old(self).rotation_y,
            final(self).rotation_x == old(self).rotation_x,
            final(self).dir == old(self).dir,
            final(self).turning_cue == old(self).turning_cue,
            final(self).movement_collision.id == old(self).movement_collision.id,
            final(self).movement_collision.radius == old(self).movement_collision.radius,
            final(self).movement_collision.been_hit == old(self).movement_collision.been_hit,
            final(self).movement_collision.moved == old(self).movement_collision.moved,
            final(self).movement_collision.position == (if spec_homing_applies(
                *old(self),
                distance as int,
            ) && spec_homing_ok(*old(self), *ground, old_pos, chase_target) {
                old(self).movement_collision.position
            } else {
                spec_street_pos(*old(self), spec_okay_forward(*old(self), *ground), old_pos)
            }),
            match spec_direction_target(
                *old(self),
                *ground,
                chase_target,
                old_pos,
                distance as int,
            ) {
                Option::Some(t) => final(self).target_angle as int == t,
                Option::None => spec_is_cardinal(final(self).target_angle as int),
            },
    {
        let ghost s0 = *old(self);
        let sees = (self.zombie && distance < ZOMBIE_SEE_DIST2) || distance < HUMAN_SEE_DIST2;
        let mut homing_done = false;
        if sees && self.moves_since_last_change > HOMING_DEBOUNCE_TICKS {
            let b = bearing_deg(old_pos.z - chase_target.z, old_pos.x - chase_target.x);
            let angle = normalize_deg(b - 90);
            proof {
                assert(angle as int == spec_bearing_target(old_pos, chase_target)) by {
                    reveal(spec_bearing_target);
                }
            }
            let sy = sin_milli(1000 * angle);
            let cy = cos_milli(1000 * angle);
            proof {
                lemma_tdiv_bound(100 * sy, 1000, 100_000);
                lemma_tdiv_bound(100 * cy, 1000, 100_000);
                lemma_tdiv_bound(200 * sy, 1000, 200_000);
                lemma_tdiv_bound(200 * cy, 1000, 200_000);
            }
            let p1 = self.see_if_road_ahead(
                ground,
                self.movement_collision.position.x + crate::geom::div_trunc(100 * sy, 1000),
                self.movement_collision.position.z - crate::geom::div_trunc(100 * cy, 1000),
            );
            let p2 = self.see_if_road_ahead(
                ground,
                self.movement_collision.position.x + crate::geom::div_trunc(200 * sy, 1000),
                self.movement_collision.position.z - crate::geom::div_trunc(200 * cy, 1000),
            );
            proof {
                assert((p1 && p2) == spec_homing_ok(s0, *ground, old_pos, chase_target)) by {
                    reveal(spec_homing_ok);
                }
            }
            if p1 && p2 {
                self.target_angle = angle;
                homing_done = true;
            }
        }
        if homing_done {
            return ;
        }
        proof {
            assert(!(spec_homing_applies(s0, distance as int) && spec_homing_ok(
                s0,
                *ground,
                old_pos,
                chase_target,
            )));
        }
        self.do_some_street_smarts(ground, chase_target, old_pos);
    }

    /// The movement phase of a tick: countdown and animation advance, then
    /// the movement step or the exploding sink, then the world wrap.
    #[verifier::rlimit(100)]
    fn advance_movement(&mut self, delta: i64, tick: u64)
        requires
            old(self).wf(),
            0 < delta <= 1000,
        ensures
            *final(self) == sp_moved(*old(self), delta as int, tick as int),
            -HALF_WORLD_MILLI <= final(self).movement_collision.position.x <= HALF_WORLD_MILLI,
            -HALF_WORLD_MILLI <= final(self).movement_collision.position.z <= HALF_WORLD_MILLI,
            -1_000_000 <= final(self).movement_collision.position.y <= 300_000,
            final(self).zombie_exploding == old(self).zombie_exploding,
            (old(self).zombie ==> final(self).zombie),
            (final(self).zombie_exploding ==> final(self).zombie),
            COUNTDOWN_FLOOR_MS <= final(self).zombie_countdown <= 120_000,
            0 <= final(self).rotation_angle < 360,
            0 <= final(self).rotation_y < 360,
            final(self).rotation_x == old(self).rotation_x,
            final(self).angle_of_rotation == old(self).angle_of_rotation,
            final(self).target_angle == old(self).target_angle,
            final(self).previous_target_angle == old(self).previous_target_angle,
            final(self).moves_since_last_change == old(self).moves_since_last_change,
            final(self).nsew_change_clicks == old(self).nsew_change_clicks,
            0 <= final(self).animate < 4000,
            0 <= final(self).turning_zombie <= TURNING_TICKS + 1,
            (final(self).speed == old(self).speed || final(self).speed == ZOMBIE_SPEED_MILLI),
            final(self).animate_speed == old(self).animate_speed,
            final(self).forward_reverse == old(self).forward_reverse,
            0 <= final(self).gravity <= 2 * GRAVITY_ADD_MILLI,
            final(self).movement_collision.id == old(self).movement_collision.id,
            final(self).movement_collision.radius == old(self).movement_collision.radius,
            (!old(self).zombie_exploding ==> final(self).movement_collision.position.y >= old(
                self,
            ).movement_collision.position.y - 100),
    {
        let ghost s0 = *old(self);

        let mut cd = self.zombie_countdown - delta;
        if cd < COUNTDOWN_FLOOR_MS {
            cd = COUNTDOWN_FLOOR_MS;
        }
        self.zombie_countdown = cd;

        proof {
            assert(0 <= delta * self.animate_speed <= 21_000_000) by (nonlinear_arith)
                requires
                    0 < delta <= 1000 && 0 <= self.animate_speed <= 21_000,
            ;
            lemma_tdiv_bound(delta * self.animate_speed, 1000, 21_000_000);
        }
        let inc = (((delta * self.animate_speed) as u64) / 1000) as i64;
        let a1 = self.animate + inc;
        self.animate = if ((a1 as u64) / 1000) >= (FRAME_COUNT as u64) || self.zombie_exploding {
            0
        } else {
            a1
        };
        proof {
            assert(*self == sp_anim(sp_dec(s0, delta as int), delta as int));
        }

        if !self.zombie_exploding {
            self.do_movement_updates(tick);
        } else {
            let sink = (((delta * 5) as u64) / 4) as i64;
            let mut y = self.movement_collision.position.y - sink;
            if y < -1_000_000 {
                y = -1_000_000;
            }
            self.movement_collision.position.y = y;
            proof {
                assert(*self == sp_sink(
                    sp_anim(sp_dec(s0, delta as int), delta as int),
                    delta as int,
                ));
            }
        }

        self.wrap_position_if_needed();
        proof {
            assert(*self == sp_moved(s0, delta as int, tick as int));
        }
    }

    /// The lifecycle triggers of a tick, against the squared distance to the
    /// chase target: pickup, hostile contact, hostile timeout, and the end of
    /// the self-destruct sequence. Returns (finished, awarded points,
    /// hostile explosion).
    fn apply_lifecycle_triggers(&mut self, distance: i64) -> (r: (bool, bool, bool))
        requires
            0 <= distance,
        ensures
            *final(self) == sp_triggers(*old(self), distance as int),
            r == spec_events(*old(self), distance as int),
    {
        let mut finished = false;
        let mut add_score = false;
        let mut zombie_explode = false;
        if distance < PICKUP_DIST2 && !self.zombie {
            finished = true;
            add_score = true;
        }
        if !self.zombie_exploding && distance < ZOMBIE_CONTACT_DIST2 && self.zombie {
            zombie_explode = true;
            self.set_to_explode();
        }
        if self.zombie && self.zombie_countdown < ZOMBIE_TIMEOUT_MS && !self.zombie_exploding {
            self.set_to_explode();
        }
        if self.zombie_exploding && self.zombie_countdown <= 0 {
            finished = true;
        }
        (finished, add_score, zombie_explode)
    }

    /// One simulation tick: countdown and animation advance, movement or the
    /// exploding sink, world wrap, the lifecycle triggers against the chase
    /// target, direction finding, turning, and the terrain rule. Returns
    /// (finished, awarded points, hostile explosion).
    #[verifier::rlimit(100)]
    pub fn update(
        &mut self,
        delta: i64,
        ground: &Ground,
        tick: u64,
        chase_target: Vec3i,
    ) -> (r: (bool, bool, bool))
        requires
            old(self).wf(),
            ground.wf(),
            0 < delta <= 1000,
            chase_target.bounded(1_000_000),
        ensures
            final(self).wf(),
            ({
                let moved = sp_moved(*old(self), delta as int, tick as int);
                let d2 = spec_dist2_xyz(chase_target, moved.movement_collision.position);
                let trig = sp_triggers(moved, d2);
                let old_pos = old(self).movement_collision.position;
                &&& r == spec_events(moved, d2)
                &&& final(self).zombie == moved.zombie
                &&& final(self).zombie_exploding == trig.zombie_exploding
                &&& final(self).zombie_countdown == trig.zombie_countdown
                &&& final(self).turning_zombie == moved.turning_zombie
                &&& final(self).speed == moved.speed
                &&& final(self).turning_cue == moved.turning_cue
                &&& final(self).rotation_angle == moved.rotation_angle
                &&& final(self).dir == moved.dir
                &&& final(self).angle_of_rotation as int == spec_turn_dir(
                    final(self).rotation_angle as int,
                    final(self).target_angle as int,
                )
                &&& final(self).moves_since_last_change as int == (if final(self).target_angle
                    == final(self).rotation_angle {
                    spec_min_cap(moved.moves_since_last_change + 1, COUNTER_CAP as int)
                } else {
                    0int
                })
                &&& final(self).animate == (if final(self).target_angle == final(self).rotation_angle {
                    moved.animate
                } else {
                    0i64
                })
                &&& match spec_direction_target(trig, *ground, chase_target, old_pos, d2) {
                    Option::Some(t) => final(self).target_angle as int == t,
                    Option::None => spec_is_cardinal(final(self).target_angle as int),
                }
                &&& ({
                    let homing = spec_homing_applies(trig, d2) && spec_homing_ok(
                        trig,
                        *ground,
                        old_pos,
                        chase_target,
                    );
                    let p_mid = if homing {
                        moved.movement_collision.position
                    } else {
                        spec_street_pos(trig, spec_okay_forward(trig, *ground), old_pos)
                    };
                    let p_turn = if final(self).target_angle == final(self).rotation_angle {
                        p_mid
                    } else {
                        old_pos
                    };
                    let rb = !trig.zombie_exploding && p_turn.y < spec_ground_height(
                        *ground,
                        p_turn.x as int,
                        p_turn.z as int,
                    ) + PASSENGER_HEIGHT_MILLI;
                    &&& final(self).movement_collision.position == (if rb {
                        old_pos
                    } else {
                        p_turn
                    })
                    &&& final(self).gravity == (if rb {
                        0
                    } else {
                        moved.gravity
                    })
                })
            }),
    {
        let ghost s0 = *old(self);
        let old_pos = self.movement_collision.position;

        self.advance_movement(delta, tick);

        let distance = dist2_xyz(chase_target, self.movement_collision.position);
        let ghost moved = sp_moved(s0, delta as int, tick as int);
        let ghost d2 = spec_dist2_xyz(chase_target, moved.movement_collision.position);

        let events = self.apply_lifecycle_triggers(distance);
        let ghost trig = sp_triggers(moved, d2);
        proof {
            assert(*self == trig);
            assert(events == spec_events(moved, d2));
        }

        self.workout_my_direction(ground, chase_target, old_pos, distance);
        let ghost s_dir = *self;

        self.turn_around_update(old_pos);
        proof {
            assert(*self == sp_turn(s_dir, old_pos));
        }

        if !self.zombie_exploding {
            let p = self.movement_collision.position;
            // the forward probe of the terrain rule coincides with the body
            // position, so one test covers both clauses
            let ground_height = ground.position_height(p.x, p.z);
            if p.y < ground_height + PASSENGER_HEIGHT_MILLI {
                self.movement_collision.position = old_pos;
                self.gravity = 0;
            }
        }

        events
    }
}

} // verus!
