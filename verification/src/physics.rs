//! The custom rigid-body physics step: gravity, velocity integration, and
//! AABB collision resolution between dynamic and static bodies.
//!
//! A simulation tick runs three stages in a fixed order — gravity, then
//! integration, then collision resolution — because each stage reads the
//! previous stage's already-applied output.  Every stage is a pure integer
//! transform of the body set; the contracts below state each stage's effect
//! exactly, through the ghost model [`BodyState`].
//!
//! World geometry lives in a bounded arena: static centers and all half
//! extents are at most [`COORD_LIMIT`] in magnitude, dynamic centers at most
//! three times that.  The bound exists only so that every intermediate value
//! of a tick provably fits in an `i64`; it is far beyond any playable level.

use vstd::prelude::*;

use crate::vec2::Vec2;
use crate::vec2::abs_val;

verus! {

/// Magnitude bound on static-body centers and on collider half-extents.
/// Dynamic-body centers may reach three times this bound, which is where
/// accumulated collision corrections provably stay.
pub const COORD_LIMIT: i64 = 0x1000_0000_0000_0000;

/// A 2D velocity vector, owned by the same entity as its position.
#[derive(Clone, Copy, Debug, PartialEq, Eq, Structural)]
pub struct Velocity(pub Vec2);

/// An axis-aligned collision box given by its half-extents; the box sits
/// centered on the owning body's position.  Immutable during simulation.
#[derive(Clone, Copy, Debug, PartialEq, Eq, Structural)]
pub struct Collider {
    pub half: Vec2,
}

/// A dynamic body: subject to gravity, integration, and collision-driven
/// displacement.
#[derive(Clone, Copy, Debug, PartialEq, Eq, Structural)]
pub struct RigidBody {
    pub pos: Vec2,
    pub vel: Velocity,
    pub collider: Collider,
}

/// A static body: collision geometry that never moves and is never
/// displaced or slowed by collision resolution.
#[derive(Clone, Copy, Debug, PartialEq, Eq, Structural)]
pub struct Static {
    pub pos: Vec2,
    pub collider: Collider,
}

/// The mathematical state of a dynamic body: center, velocity and
/// half-extents as unbounded integers.
pub ghost struct BodyState {
    pub px: int,
    pub py: int,
    pub vx: int,
    pub vy: int,
    pub hx: int,
    pub hy: int,
}

impl View for RigidBody {
    type V = BodyState;

    open spec fn view(&self) -> BodyState {
        BodyState {
            px: self.pos.x as int,
            py: self.pos.y as int,
            vx: self.vel.0.x as int,
            vy: self.vel.0.y as int,
            hx: self.collider.half.x as int,
            hy: self.collider.half.y as int,
        }
    }
}

/// Whether a mathematical integer fits in an `i64`.
pub open spec fn fits_i64(v: int) -> bool {
    i64::MIN <= v <= i64::MAX
}

/// Whether a coordinate is within the world bound for static centers.
pub open spec fn coord_in_world(v: int) -> bool {
    -COORD_LIMIT <= v <= COORD_LIMIT
}

/// Whether a coordinate is within the (three times larger) bound that
/// dynamic centers stay inside across collision corrections.
pub open spec fn coord_in_arena(v: int) -> bool {
    -3 * COORD_LIMIT <= v <= 3 * COORD_LIMIT
}

/// A well-formed collider: half-extents are non-negative and bounded.
pub open spec fn collider_wf(c: Collider) -> bool {
    &&& 0 <= c.half.x <= COORD_LIMIT
    &&& 0 <= c.half.y <= COORD_LIMIT
}

/// A well-formed static body: bounded center, well-formed collider.
pub open spec fn static_wf(s: Static) -> bool {
    &&& collider_wf(s.collider)
    &&& coord_in_world(s.pos.x as int)
    &&& coord_in_world(s.pos.y as int)
}

/// A dynamic body state inside the arena: bounded half-extents and a
/// center within the arena bound.
pub open spec fn state_in_arena(st: BodyState) -> bool {
    &&& 0 <= st.hx <= COORD_LIMIT
    &&& 0 <= st.hy <= COORD_LIMIT
    &&& coord_in_arena(st.px)
    &&& coord_in_arena(st.py)
}

// ---------------------------------------------------------------------------
// Stage models
// ---------------------------------------------------------------------------

/// Effect of the gravity stage on one body: the acceleration vector scaled
/// by the elapsed time is added to the velocity; nothing else changes.
pub open spec fn gravity_step(st: BodyState, gx: int, gy: int, dt: int) -> BodyState {
    BodyState {
        px: st.px,
        py: st.py,
        vx: st.vx + gx * dt,
        vy: st.vy + gy * dt,
        hx: st.hx,
        hy: st.hy,
    }
}

/// Effect of the integration stage on one body: the velocity scaled by the
/// elapsed time is added to the position; nothing else changes.  A body at
/// rest therefore keeps its position exactly.
pub open spec fn integrate_step(st: BodyState, dt: int) -> BodyState {
    BodyState {
        px: st.px + st.vx * dt,
        py: st.py + st.vy * dt,
        vx: st.vx,
        vy: st.vy,
        hx: st.hx,
        hy: st.hy,
    }
}

/// Penetration depth of the two world-space boxes along the x axis:
/// positive exactly when their x extents strictly overlap.
pub open spec fn overlap_x(st: BodyState, s: Static) -> int {
    (st.hx + s.collider.half.x) - abs_val(st.px - s.pos.x)
}

/// Penetration depth along the y axis.
pub open spec fn overlap_y(st: BodyState, s: Static) -> int {
    (st.hy + s.collider.half.y) - abs_val(st.py - s.pos.y)
}

/// The two boxes overlap iff they strictly overlap on both axes; boxes
/// that exactly touch (penetration zero) do not collide.
pub open spec fn overlapping(st: BodyState, s: Static) -> bool {
    overlap_x(st, s) > 0 && overlap_y(st, s) > 0
}

/// The x component of the minimum translation vector for this pair: the
/// correction is applied along the axis of smaller penetration, pushing
/// the dynamic body away from the static center.  On an exact tie the y
/// axis is corrected, so vertical correction is preferred.  Zero when the
/// pair does not overlap or the y axis is chosen.
pub open spec fn correction_x(st: BodyState, s: Static) -> int {
    if overlapping(st, s) && overlap_x(st, s) < overlap_y(st, s) {
        if st.px < s.pos.x {
            -overlap_x(st, s)
        } else {
            overlap_x(st, s)
        }
    } else {
        0
    }
}

/// The y component of the minimum translation vector; zero when the pair
/// does not overlap or the x axis is chosen.
pub open spec fn correction_y(st: BodyState, s: Static) -> int {
    if overlapping(st, s) && !(overlap_x(st, s) < overlap_y(st, s)) {
        if st.py < s.pos.y {
            -overlap_y(st, s)
        } else {
            overlap_y(st, s)
        }
    } else {
        0
    }
}

/// Resolution of one dynamic/static pair: the correction is added to the
/// position, and the velocity of a corrected axis is set to exactly zero,
/// which stops further penetrating motion but leaves sliding along the
/// other axis untouched.  A non-overlapping pair leaves the body unchanged.
pub open spec fn resolve_pair(st: BodyState, s: Static) -> BodyState {
    BodyState {
        px: st.px + correction_x(st, s),
        py: st.py + correction_y(st, s),
        vx: if correction_x(st, s) != 0 {
            0
        } else {
            st.vx
        },
        vy: if correction_y(st, s) != 0 {
            0
        } else {
            st.vy
        },
        hx: st.hx,
        hy: st.hy,
    }
}

/// The body state after resolving against the first `n` static bodies in
/// order.  Corrections accumulate: each pair test sees the position left
/// by the previous one.
pub open spec fn resolve_prefix(st: BodyState, statics: Seq<Static>, n: int) -> BodyState
    decreases n,
{
    if n <= 0 {
        st
    } else {
        resolve_pair(resolve_prefix(st, statics, n - 1), statics[n - 1])
    }
}

/// Effect of the whole collision stage on one dynamic body: resolution
/// against every static body, in order.
pub open spec fn resolve_all(st: BodyState, statics: Seq<Static>) -> BodyState {
    resolve_prefix(st, statics, statics.len() as int)
}

/// Effect of one full simulation tick on one dynamic body:
/// gravity, then integration, then collision resolution.
pub open spec fn tick_step(
    st: BodyState,
    gx: int,
    gy: int,
    dt: int,
    statics: Seq<Static>,
) -> BodyState {
    resolve_all(integrate_step(gravity_step(st, gx, gy, dt), dt), statics)
}

// ---------------------------------------------------------------------------
// Overflow side conditions
// ---------------------------------------------------------------------------

/// The gravity stage's arithmetic on this body stays within `i64`.
pub open spec fn gravity_fits(st: BodyState, gx: int, gy: int, dt: int) -> bool {
    &&& fits_i64(gx * dt)
    &&& fits_i64(gy * dt)
    &&& fits_i64(st.vx + gx * dt)
    &&& fits_i64(st.vy + gy * dt)
}

/// The integration stage's arithmetic on this body stays within `i64`.
pub open spec fn integrate_fits(st: BodyState, dt: int) -> bool {
    &&& fits_i64(st.vx * dt)
    &&& fits_i64(st.vy * dt)
    &&& fits_i64(st.px + st.vx * dt)
    &&& fits_i64(st.py + st.vy * dt)
}

// ---------------------------------------------------------------------------
// Gravity stage
// ---------------------------------------------------------------------------

/// Gravity stage: add `g * dt` to the velocity of every dynamic body.
/// Positions and colliders are untouched; static bodies take no part.
pub fn gravity(dynamics: &mut Vec<RigidBody>, g: Vec2, dt: i64)
    requires
        forall|k: int|
            0 <= k < old(dynamics)@.len() ==> gravity_fits(
                #[trigger] old(dynamics)@[k]@,
                g.x as int,
                g.y as int,
                dt as int,
            ),
    ensures
        final(dynamics)@.len() == old(dynamics)@.len(),
        forall|k: int|
            0 <= k < old(dynamics)@.len() ==> #[trigger] final(dynamics)@[k]@ == gravity_step(
                old(dynamics)@[k]@,
                g.x as int,
                g.y as int,
                dt as int,
            ),
        forall|k: int|
            0 <= k < old(dynamics)@.len() ==> (#[trigger] final(dynamics)@[k]).pos == old(
                dynamics,
            )@[k].pos && final(dynamics)@[k].collider == old(dynamics)@[k].collider,
{
    let n = dynamics.len();
    let mut i: usize = 0;
    while i < n
        invariant
            n == dynamics@.len() == old(dynamics)@.len(),
            i <= n,
            forall|k: int|
                0 <= k < n ==> gravity_fits(
                    #[trigger] old(dynamics)@[k]@,
                    g.x as int,
                    g.y as int,
                    dt as int,
                ),
            forall|k: int|
                0 <= k < i ==> #[trigger] dynamics@[k]@ == gravity_step(
                    old(dynamics)@[k]@,
                    g.x as int,
                    g.y as int,
                    dt as int,
                ),
            forall|k: int|
                0 <= k < i ==> (#[trigger] dynamics@[k]).pos == old(dynamics)@[k].pos
                    && dynamics@[k].collider == old(dynamics)@[k].collider,
            forall|k: int| i <= k < n ==> #[trigger] dynamics@[k] == old(dynamics)@[k],
        decreases n - i,
    {
        let b = dynamics[i];
        proof {
            assert(b == old(dynamics)@[i as int]);
            assert(gravity_fits(old(dynamics)@[i as int]@, g.x as int, g.y as int, dt as int));
        }
        let gx_dt = g.x * dt;
        let gy_dt = g.y * dt;
        let nb = RigidBody {
            pos: b.pos,
            vel: Velocity(Vec2 { x: b.vel.0.x + gx_dt, y: b.vel.0.y + gy_dt }),
            collider: b.collider,
        };
        dynamics[i] = nb;
        i = i + 1;
    }
}

// ---------------------------------------------------------------------------
// Integration stage
// ---------------------------------------------------------------------------

/// Integration stage: add `velocity * dt` to the position of every dynamic
/// body.  A body with zero velocity is skipped outright, so its position is
/// untouched, not merely rewritten with an equal value.  Velocities and
/// colliders are unchanged.
pub fn apply_velocity(dynamics: &mut Vec<RigidBody>, dt: i64)
    requires
        forall|k: int|
            0 <= k < old(dynamics)@.len() ==> integrate_fits(
                #[trigger] old(dynamics)@[k]@,
                dt as int,
            ),
    ensures
        final(dynamics)@.len() == old(dynamics)@.len(),
        forall|k: int|
            0 <= k < old(dynamics)@.len() ==> #[trigger] final(dynamics)@[k]@ == integrate_step(
                old(dynamics)@[k]@,
                dt as int,
            ),
        forall|k: int|
            0 <= k < old(dynamics)@.len() ==> (#[trigger] final(dynamics)@[k]).vel == old(
                dynamics,
            )@[k].vel && final(dynamics)@[k].collider == old(dynamics)@[k].collider,
{
    let n = dynamics.len();
    let mut i: usize = 0;
    while i < n
        invariant
            n == dynamics@.len() == old(dynamics)@.len(),
            i <= n,
            forall|k: int|
                0 <= k < n ==> integrate_fits(#[trigger] old(dynamics)@[k]@, dt as int),
            forall|k: int|
                0 <= k < i ==> #[trigger] dynamics@[k]@ == integrate_step(
                    old(dynamics)@[k]@,
                    dt as int,
                ),
            forall|k: int|
                0 <= k < i ==> (#[trigger] dynamics@[k]).vel == old(dynamics)@[k].vel
                    && dynamics@[k].collider == old(dynamics)@[k].collider,
            forall|k: int| i <= k < n ==> #[trigger] dynamics@[k] == old(dynamics)@[k],
        decreases n - i,
    {
        let b = dynamics[i];
        proof {
            assert(b == old(dynamics)@[i as int]);
            assert(integrate_fits(old(dynamics)@[i as int]@, dt as int));
        }
        if !b.vel.0.is_zero() {
            let nb = RigidBody {
                pos: Vec2 { x: b.pos.x + b.vel.0.x * dt, y: b.pos.y + b.vel.0.y * dt },
                vel: b.vel,
                collider: b.collider,
            };
            dynamics[i] = nb;
        }
        i = i + 1;
    }
}

// ---------------------------------------------------------------------------
// Collision stage
// ---------------------------------------------------------------------------

/// The geometric part of a dynamic body's state: its velocity takes no
/// part in overlap testing, so it is modeled as zero.
pub open spec fn geom_state(pos: Vec2, c: Collider) -> BodyState {
    BodyState {
        px: pos.x as int,
        py: pos.y as int,
        vx: 0,
        vy: 0,
        hx: c.half.x as int,
        hy: c.half.y as int,
    }
}

/// Overlap test and minimum translation vector for one dynamic/static pair.
///
/// Returns `Some(correction)` exactly when the two world-space boxes
/// strictly overlap on both axes; boxes that merely touch do not collide.
/// The correction is along the single axis of smaller penetration (the y
/// axis on an exact tie), signed so that it pushes the dynamic body away
/// from the static center, and its magnitude equals that penetration, so
/// that adding it to the dynamic position leaves the pair exactly touching.
pub fn check_collision(
    dyn_pos: Vec2,
    dyn_collider: &Collider,
    static_pos: Vec2,
    static_collider: &Collider,
) -> (r: Option<Vec2>)
    requires
        collider_wf(*dyn_collider),
        collider_wf(*static_collider),
        coord_in_arena(dyn_pos.x as int),
        coord_in_arena(dyn_pos.y as int),
        coord_in_world(static_pos.x as int),
        coord_in_world(static_pos.y as int),
    ensures
        ({
            let st = geom_state(dyn_pos, *dyn_collider);
            let s = (Static { pos: static_pos, collider: *static_collider });
            &&& r.is_some() <==> overlapping(st, s)
            &&& r matches Some(c) ==> c.x as int == correction_x(st, s) && c.y as int
                == correction_y(st, s)
        }),
{
    let dx_abs = if dyn_pos.x >= static_pos.x {
        dyn_pos.x - static_pos.x
    } else {
        static_pos.x - dyn_pos.x
    };
    let dy_abs = if dyn_pos.y >= static_pos.y {
        dyn_pos.y - static_pos.y
    } else {
        static_pos.y - dyn_pos.y
    };
    let sum_x = dyn_collider.half.x + static_collider.half.x;
    let sum_y = dyn_collider.half.y + static_collider.half.y;

    if dx_abs < sum_x && dy_abs < sum_y {
        let ox = sum_x - dx_abs;
        let oy = sum_y - dy_abs;
        if ox < oy {
            let cx = if dyn_pos.x < static_pos.x {
                -ox
            } else {
                ox
            };
            Some(Vec2 { x: cx, y: 0 })
        } else {
            let cy = if dyn_pos.y < static_pos.y {
                -oy
            } else {
                oy
            };
            Some(Vec2 { x: 0, y: cy })
        }
    } else {
        None
    }
}

/// A resolved position lands exactly on the static box's surface, so a
/// correction never moves a dynamic body out of the arena, and the
/// corrected coordinates fit in an `i64`.
pub proof fn lemma_resolve_pair_bounds(st: BodyState, s: Static)
    requires
        state_in_arena(st),
        static_wf(s),
    ensures
        state_in_arena(resolve_pair(st, s)),
        fits_i64(st.px + correction_x(st, s)),
        fits_i64(st.py + correction_y(st, s)),
{
}

/// Collision stage: every dynamic body is tested against every static body
/// in order, and corrections from successive static bodies accumulate on
/// the same position within the tick.  Static bodies are never displaced
/// and never have their velocity touched; dynamic bodies never affect one
/// another.
pub fn check_collisions(dynamics: &mut Vec<RigidBody>, statics: &Vec<Static>)
    requires
        forall|k: int| 0 <= k < old(dynamics)@.len() ==> state_in_arena(#[trigger] old(dynamics)@[k]@),
        forall|j: int| 0 <= j < statics@.len() ==> static_wf(#[trigger] statics@[j]),
    ensures
        final(dynamics)@.len() == old(dynamics)@.len(),
        forall|k: int|
            0 <= k < old(dynamics)@.len() ==> #[trigger] final(dynamics)@[k]@ == resolve_all(
                old(dynamics)@[k]@,
                statics@,
            ),
        forall|k: int|
            0 <= k < old(dynamics)@.len() ==> state_in_arena(#[trigger] final(dynamics)@[k]@),
        forall|k: int|
            0 <= k < old(dynamics)@.len() ==> (#[trigger] final(dynamics)@[k]).collider == old(
                dynamics,
            )@[k].collider,
{
    let n = dynamics.len();
    let m = statics.len();
    let mut i: usize = 0;
    while i < n
        invariant
            n == dynamics@.len() == old(dynamics)@.len(),
            m == statics@.len(),
            i <= n,
            forall|k: int| 0 <= k < n ==> state_in_arena(#[trigger] old(dynamics)@[k]@),
            forall|j: int| 0 <= j < m ==> static_wf(#[trigger] statics@[j]),
            forall|k: int|
                0 <= k < i ==> #[trigger] dynamics@[k]@ == resolve_all(
                    old(dynamics)@[k]@,
                    statics@,
                ),
            forall|k: int| 0 <= k < i ==> state_in_arena(#[trigger] dynamics@[k]@),
            forall|k: int|
                0 <= k < i ==> (#[trigger] dynamics@[k]).collider == old(dynamics)@[k].collider,
            forall|k: int| i <= k < n ==> #[trigger] dynamics@[k] == old(dynamics)@[k],
        decreases n - i,
    {
        let b0 = dynamics[i];
        let mut b = b0;
        let mut j: usize = 0;
        proof {
            assert(b0 == old(dynamics)@[i as int]);
            assert(state_in_arena(b0@));
        }
        while j < m
            invariant
                m == statics@.len(),
                j <= m,
                forall|jj: int| 0 <= jj < m ==> static_wf(#[trigger] statics@[jj]),
                b@ == resolve_prefix(b0@, statics@, j as int),
                state_in_arena(b@),
                b.collider == b0.collider,
            decreases m - j,
        {
            let s = statics[j];
            if let Some(c) = check_collision(b.pos, &b.collider, s.pos, &s.collider) {
                proof {
                    assert(c.x as int == correction_x(b@, s));
                    assert(c.y as int == correction_y(b@, s));
                    lemma_resolve_pair_bounds(b@, s);
                }
                let nvx = if c.x != 0 {
                    0
                } else {
                    b.vel.0.x
                };
                let nvy = if c.y != 0 {
                    0
                } else {
                    b.vel.0.y
                };
                b = RigidBody {
                    pos: Vec2 { x: b.pos.x + c.x, y: b.pos.y + c.y },
                    vel: Velocity(Vec2 { x: nvx, y: nvy }),
                    collider: b.collider,
                };
            } else {
                proof {
                    assert(resolve_pair(b@, s) == b@);
                }
            }
            proof {
                assert(b@ == resolve_prefix(b0@, statics@, j as int + 1));
            }
            j = j + 1;
        }
        dynamics[i] = b;
        i = i + 1;
    }
}

// ---------------------------------------------------------------------------
// The tick pipeline
// ---------------------------------------------------------------------------

/// The physics configuration: a constant gravitational acceleration and the
/// fixed simulation time step, both in the caller's units.  [`Physics::step`]
/// runs the three stages over a body set in their load-bearing order.
#[derive(Clone, Copy, Debug, PartialEq, Eq, Structural)]
pub struct Physics {
    pub gravity: Vec2,
    pub dt: i64,
}

impl Physics {
    /// One fixed simulation tick: gravity, then integration, then collision
    /// resolution, strictly in that order.  The effect on every dynamic body
    /// is exactly [`tick_step`] of its starting state; static bodies are
    /// never mutated.
    pub fn step(&self, dynamics: &mut Vec<RigidBody>, statics: &Vec<Static>)
        requires
            forall|k: int|
                0 <= k < old(dynamics)@.len() ==> gravity_fits(
                    #[trigger] old(dynamics)@[k]@,
                    self.gravity.x as int,
                    self.gravity.y as int,
                    self.dt as int,
                ),
            forall|k: int|
                0 <= k < old(dynamics)@.len() ==> integrate_fits(
                    gravity_step(
                        #[trigger] old(dynamics)@[k]@,
                        self.gravity.x as int,
                        self.gravity.y as int,
                        self.dt as int,
                    ),
                    self.dt as int,
                ),
            forall|k: int|
                0 <= k < old(dynamics)@.len() ==> state_in_arena(
                    integrate_step(
                        gravity_step(
                            #[trigger] old(dynamics)@[k]@,
                            self.gravity.x as int,
                            self.gravity.y as int,
                            self.dt as int,
                        ),
                        self.dt as int,
                    ),
                ),
            forall|j: int| 0 <= j < statics@.len() ==> static_wf(#[trigger] statics@[j]),
        ensures
            final(dynamics)@.len() == old(dynamics)@.len(),
            forall|k: int|
                0 <= k < old(dynamics)@.len() ==> #[trigger] final(dynamics)@[k]@ == tick_step(
                    old(dynamics)@[k]@,
                    self.gravity.x as int,
                    self.gravity.y as int,
                    self.dt as int,
                    statics@,
                ),
            forall|k: int|
                0 <= k < old(dynamics)@.len() ==> state_in_arena(#[trigger] final(dynamics)@[k]@),
            forall|k: int|
                0 <= k < old(dynamics)@.len() ==> (#[trigger] final(dynamics)@[k]).collider == old(
                    dynamics,
                )@[k].collider,
    {
        let ghost orig = dynamics@;
        let ghost gx = self.gravity.x as int;
        let ghost gy = self.gravity.y as int;
        let ghost dt = self.dt as int;
        gravity(dynamics, self.gravity, self.dt);
        proof {
            assert forall|k: int| 0 <= k < dynamics@.len() implies integrate_fits(
                #[trigger] dynamics@[k]@,
                dt,
            ) by {
                assert(dynamics@[k]@ == gravity_step(orig[k]@, gx, gy, dt));
            }
        }
        apply_velocity(dynamics, self.dt);
        proof {
            assert forall|k: int| 0 <= k < dynamics@.len() implies state_in_arena(
                #[trigger] dynamics@[k]@,
            ) by {
                assert(dynamics@[k]@ == integrate_step(gravity_step(orig[k]@, gx, gy, dt), dt));
            }
        }
        check_collisions(dynamics, statics);
        proof {
            assert forall|k: int| 0 <= k < orig.len() implies #[trigger] dynamics@[k]@ == tick_step(
                orig[k]@,
                gx,
                gy,
                dt,
                statics@,
            ) by {
                assert(dynamics@[k]@ == resolve_all(
                    integrate_step(gravity_step(orig[k]@, gx, gy, dt), dt),
                    statics@,
                ));
            }
        }
    }
}

} // verus!
