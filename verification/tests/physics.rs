// Exercises the physics stages on concrete worlds.  Coordinates are in
// hundredths of a world unit, so 9.81 units of gravity is -981 and a half
// extent of 0.5 units is 50.

use platformer_physics::physics::Collider;
use platformer_physics::physics::Physics;
use platformer_physics::physics::RigidBody;
use platformer_physics::physics::Static;
use platformer_physics::physics::Velocity;
use platformer_physics::physics::apply_velocity;
use platformer_physics::physics::check_collision;
use platformer_physics::physics::check_collisions;
use platformer_physics::physics::gravity;
use platformer_physics::vec2::Vec2;

fn body(px: i64, py: i64, vx: i64, vy: i64, hx: i64, hy: i64) -> RigidBody {
    RigidBody {
        pos: Vec2 { x: px, y: py },
        vel: Velocity(Vec2 { x: vx, y: vy }),
        collider: Collider { half: Vec2 { x: hx, y: hy } },
    }
}

fn wall(px: i64, py: i64, hx: i64, hy: i64) -> Static {
    Static { pos: Vec2 { x: px, y: py }, collider: Collider { half: Vec2 { x: hx, y: hy } } }
}

#[test]
fn gravity_adds_scaled_acceleration() {
    let mut dynamics = vec![body(7, 8, 30, -40, 50, 50)];
    gravity(&mut dynamics, Vec2 { x: 0, y: -981 }, 2);
    assert_eq!(dynamics[0].vel.0.x, 30);
    assert_eq!(dynamics[0].vel.0.y, -40 - 1962);
    assert_eq!(dynamics[0].pos, Vec2 { x: 7, y: 8 });
}

#[test]
fn gravity_with_horizontal_component() {
    let mut dynamics = vec![body(0, 0, 0, 0, 50, 50)];
    gravity(&mut dynamics, Vec2 { x: 5, y: -320 }, 3);
    assert_eq!(dynamics[0].vel.0.x, 15);
    assert_eq!(dynamics[0].vel.0.y, -960);
}

#[test]
fn integration_adds_scaled_velocity() {
    let mut dynamics = vec![body(100, 200, 30, -40, 50, 50)];
    apply_velocity(&mut dynamics, 2);
    assert_eq!(dynamics[0].pos, Vec2 { x: 160, y: 120 });
    assert_eq!(dynamics[0].vel.0, Vec2 { x: 30, y: -40 });
}

#[test]
fn integration_keeps_resting_body_exactly() {
    let before = body(123, -456, 0, 0, 50, 50);
    let mut dynamics = vec![before];
    apply_velocity(&mut dynamics, 7);
    assert_eq!(dynamics[0], before);
}

#[test]
fn separated_pair_is_not_reported() {
    let r = check_collision(
        Vec2 { x: 0, y: 500 },
        &Collider { half: Vec2 { x: 50, y: 50 } },
        Vec2 { x: 0, y: 0 },
        &Collider { half: Vec2 { x: 500, y: 50 } },
    );
    assert_eq!(r, None);
}

#[test]
fn touching_pair_is_not_a_collision() {
    // Exactly touching on both axes: zero overlap must not count as overlap.
    let half = Collider { half: Vec2 { x: 50, y: 50 } };
    let r = check_collision(Vec2 { x: 100, y: 100 }, &half, Vec2 { x: 0, y: 0 }, &half);
    assert_eq!(r, None);

    let mut dynamics = vec![body(100, 100, -5, -5, 50, 50)];
    let statics = vec![wall(0, 0, 50, 50)];
    check_collisions(&mut dynamics, &statics);
    assert_eq!(dynamics[0], body(100, 100, -5, -5, 50, 50));
}

#[test]
fn shallower_axis_is_corrected() {
    // Penetration is 20 on y and 550 on x, so only y is corrected, pushing
    // the body up onto the static box's top surface.
    let r = check_collision(
        Vec2 { x: 0, y: 80 },
        &Collider { half: Vec2 { x: 50, y: 50 } },
        Vec2 { x: 0, y: 0 },
        &Collider { half: Vec2 { x: 500, y: 50 } },
    );
    assert_eq!(r, Some(Vec2 { x: 0, y: 20 }));
}

#[test]
fn correction_sign_pushes_away_from_static_center() {
    let dyn_half = Collider { half: Vec2 { x: 50, y: 50 } };
    let st_half = Collider { half: Vec2 { x: 50, y: 500 } };
    // Dynamic body left of the static center: pushed further left.
    let r = check_collision(Vec2 { x: -70, y: 0 }, &dyn_half, Vec2 { x: 0, y: 0 }, &st_half);
    assert_eq!(r, Some(Vec2 { x: -30, y: 0 }));
    // Dynamic body right of the static center: pushed further right.
    let r = check_collision(Vec2 { x: 70, y: 0 }, &dyn_half, Vec2 { x: 0, y: 0 }, &st_half);
    assert_eq!(r, Some(Vec2 { x: 30, y: 0 }));
}

#[test]
fn exact_tie_corrects_the_vertical_axis() {
    // Equal penetration on both axes: the y axis is chosen.
    let half = Collider { half: Vec2 { x: 50, y: 50 } };
    let r = check_collision(Vec2 { x: 60, y: 60 }, &half, Vec2 { x: 0, y: 0 }, &half);
    assert_eq!(r, Some(Vec2 { x: 0, y: 40 }));
}

#[test]
fn resolution_lands_body_on_top_and_zeroes_fall() {
    let mut dynamics = vec![body(0, 80, 30, -500, 50, 50)];
    let statics = vec![wall(0, 0, 500, 50)];
    check_collisions(&mut dynamics, &statics);
    // Corrected to the static box's top surface; horizontal slide kept.
    assert_eq!(dynamics[0].pos, Vec2 { x: 0, y: 100 });
    assert_eq!(dynamics[0].vel.0, Vec2 { x: 30, y: 0 });
}

#[test]
fn separated_world_is_left_unchanged() {
    // Two static boxes flank the body with x overlap but no y overlap:
    // both pair tests are negative, so nothing moves.
    let before = body(0, 0, 12, -34, 50, 50);
    let mut dynamics = vec![before];
    let statics = vec![wall(-80, 200, 50, 50), wall(80, 200, 50, 50)];
    check_collisions(&mut dynamics, &statics);
    assert_eq!(dynamics[0], before);
}

#[test]
fn corrections_accumulate_across_statics() {
    // The floor corrects y first; the post-correction position then
    // overlaps the wall, which corrects x.
    let mut dynamics = vec![body(10, 80, 40, -500, 50, 50)];
    let statics = vec![wall(0, 0, 500, 50), wall(80, 100, 50, 50)];
    check_collisions(&mut dynamics, &statics);
    assert_eq!(dynamics[0].pos, Vec2 { x: -20, y: 100 });
    assert_eq!(dynamics[0].vel.0, Vec2 { x: 0, y: 0 });
}

#[test]
fn second_collision_pass_is_a_no_op() {
    let mut dynamics = vec![body(0, 80, 30, -500, 50, 50)];
    let statics = vec![wall(0, 0, 500, 50)];
    check_collisions(&mut dynamics, &statics);
    let resolved = dynamics[0];
    check_collisions(&mut dynamics, &statics);
    assert_eq!(dynamics[0], resolved);
}

#[test]
fn zero_size_collider_inside_box_is_pushed_out() {
    // A degenerate point collider strictly inside a box still overlaps;
    // the tie-break corrects y away from the center.
    let mut dynamics = vec![body(0, 10, 0, 0, 0, 0)];
    let statics = vec![wall(0, 0, 50, 50)];
    check_collisions(&mut dynamics, &statics);
    assert_eq!(dynamics[0].pos, Vec2 { x: 0, y: 50 });
}

#[test]
fn full_tick_runs_stages_in_order() {
    // One tick at dt=1 with gravity (0,-9.81): the fall is slowed to
    // -109.81, the position integrates to -99.81 with the new velocity,
    // and the collision stage finds the body far below the platform.
    let physics = Physics { gravity: Vec2 { x: 0, y: -981 }, dt: 1 };
    let mut dynamics = vec![body(0, 1000, 0, -10000, 50, 50)];
    let statics = vec![wall(0, 0, 500, 50)];
    physics.step(&mut dynamics, &statics);
    assert_eq!(dynamics[0].vel.0, Vec2 { x: 0, y: -10981 });
    // -99.81 units: the body passed straight through the thin platform,
    // the accepted fast-motion limitation of this resolver.
    assert_eq!(dynamics[0].pos, Vec2 { x: 0, y: -9981 });
}

#[test]
fn full_tick_lands_a_slow_fall() {
    // Same platform, but a fall slow enough for overlap to be seen: the
    // tick ends with the body resting exactly on top, vertical motion
    // zeroed, horizontal motion kept.
    let physics = Physics { gravity: Vec2 { x: 0, y: -20 }, dt: 1 };
    let mut dynamics = vec![body(0, 170, 25, -60, 50, 50)];
    let statics = vec![wall(0, 0, 500, 50)];
    physics.step(&mut dynamics, &statics);
    // Velocity after gravity: (25, -80); integrated position: (25, 90);
    // y overlap 10 is shallower than x overlap 525, so y is corrected.
    assert_eq!(dynamics[0].pos, Vec2 { x: 25, y: 100 });
    assert_eq!(dynamics[0].vel.0, Vec2 { x: 25, y: 0 });
}

#[test]
fn statics_and_other_bodies_are_untouched() {
    let physics = Physics { gravity: Vec2 { x: 0, y: -20 }, dt: 1 };
    let mut dynamics = vec![body(0, 170, 0, -60, 50, 50), body(5000, 0, 0, 0, 50, 50)];
    let statics = vec![wall(0, 0, 500, 50)];
    physics.step(&mut dynamics, &statics);
    // The far-away resting body only picks up this tick's gravity.
    assert_eq!(dynamics[1].pos, Vec2 { x: 5000, y: -20 });
    assert_eq!(dynamics[1].vel.0, Vec2 { x: 0, y: -20 });
    assert_eq!(statics[0], wall(0, 0, 500, 50));
}
