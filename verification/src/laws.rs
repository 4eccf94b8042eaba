//! Laws of the physics step, proved once and for all over the ghost model.
//!
//! Each proof function here states a property of the stage models in
//! [`crate::physics`] for every body state and every static set, so the
//! corresponding guarantee carries over to the executable stages through
//! their `ensures` clauses.

use vstd::prelude::*;

use crate::physics::BodyState;
use crate::physics::Static;
use crate::physics::integrate_step;
use crate::physics::overlapping;
use crate::physics::overlap_x;
use crate::physics::overlap_y;
use crate::physics::correction_x;
use crate::physics::correction_y;
use crate::physics::resolve_pair;
use crate::physics::resolve_prefix;
use crate::physics::resolve_all;

verus! {

/// A dynamic body with zero velocity is left exactly where it is by the
/// integration stage: the equality is exact, not approximate.
pub proof fn law_integration_fixes_resting_body(st: BodyState, dt: int)
    requires
        st.vx == 0,
        st.vy == 0,
    ensures
        integrate_step(st, dt) == st,
{
}

/// A dynamic/static pair whose boxes do not overlap is left completely
/// unchanged by collision resolution: position and velocity keep their
/// exact values.
pub proof fn law_resolution_ignores_separated_pair(st: BodyState, s: Static)
    requires
        !overlapping(st, s),
    ensures
        resolve_pair(st, s) == st,
{
}

/// Resolving an overlapping pair separates it: afterwards the pair no
/// longer overlaps, the corrected axis's boxes touch exactly (penetration
/// zero), and the corrected axis's velocity is exactly zero.
pub proof fn law_resolution_separates_overlapping_pair(st: BodyState, s: Static)
    requires
        overlapping(st, s),
    ensures
        !overlapping(resolve_pair(st, s), s),
        overlap_x(st, s) < overlap_y(st, s) ==> overlap_x(resolve_pair(st, s), s) == 0
            && resolve_pair(st, s).vx == 0,
        !(overlap_x(st, s) < overlap_y(st, s)) ==> overlap_y(resolve_pair(st, s), s) == 0
            && resolve_pair(st, s).vy == 0,
{
}

/// Resolution corrects at most one axis, and the uncorrected axis's
/// position and velocity are untouched.
pub proof fn law_resolution_touches_one_axis(st: BodyState, s: Static)
    ensures
        correction_x(st, s) == 0 || correction_y(st, s) == 0,
        correction_x(st, s) == 0 ==> resolve_pair(st, s).px == st.px && resolve_pair(st, s).vx
            == st.vx,
        correction_y(st, s) == 0 ==> resolve_pair(st, s).py == st.py && resolve_pair(st, s).vy
            == st.vy,
{
}

/// Resolving the same pair twice is the same as resolving it once: the
/// first resolution leaves the pair separated, so the second does nothing.
pub proof fn law_resolution_idempotent_per_pair(st: BodyState, s: Static)
    ensures
        resolve_pair(resolve_pair(st, s), s) == resolve_pair(st, s),
{
    if overlapping(st, s) {
        law_resolution_separates_overlapping_pair(st, s);
        law_resolution_ignores_separated_pair(resolve_pair(st, s), s);
    } else {
        law_resolution_ignores_separated_pair(st, s);
    }
}

/// A body that overlaps none of the first `n` static bodies is left
/// unchanged by resolving against them in order.
proof fn lemma_resolve_prefix_of_separated_body(st: BodyState, statics: Seq<Static>, n: int)
    requires
        0 <= n <= statics.len(),
        forall|j: int| 0 <= j < n ==> !overlapping(st, #[trigger] statics[j]),
    ensures
        resolve_prefix(st, statics, n) == st,
    decreases n,
{
    if n > 0 {
        lemma_resolve_prefix_of_separated_body(st, statics, n - 1);
        law_resolution_ignores_separated_pair(st, statics[n - 1]);
    }
}

/// The collision stage is idempotent on a body it fully resolved: when the
/// first pass leaves the body overlapping no static body, a second pass
/// with no intervening motion is a no-op.  (A first pass need not achieve
/// that: with several mutually close static bodies a later correction can
/// push the body back into an earlier one.)
pub proof fn law_collision_stage_idempotent(st: BodyState, statics: Seq<Static>)
    requires
        forall|j: int|
            0 <= j < statics.len() ==> !overlapping(resolve_all(st, statics), #[trigger] statics[j]),
    ensures
        resolve_all(resolve_all(st, statics), statics) == resolve_all(st, statics),
{
    lemma_resolve_prefix_of_separated_body(
        resolve_all(st, statics),
        statics,
        statics.len() as int,
    );
}

} // verus!
