use enemy_motion::enemy::{AgentTarget, BodyKind, Enemy, Grounded, Knockback, MovementState};
use enemy_motion::geometry::{within_range, Vec3i};
use enemy_motion::gravity::{apply_gravity, apply_gravity_system, gravity_would_fit};
use enemy_motion::ground::{is_grounded, is_support, update_grounded, update_grounded_one, ContactNormal};
use enemy_motion::pipeline::run_tick;
use enemy_motion::steering::{enemy_move_toward_target, steer, Facing};
use enemy_motion::targeting::{
    choose_target, enemy_track_nearby_player, PlayerSighting, PointSample, DETECTION_RANGE,
};

const M: i64 = 1_000_000_000;

fn v(x: i64, y: i64, z: i64) -> Vec3i {
    Vec3i::new(x, y, z)
}

fn moving_enemy(target: AgentTarget, desired: Vec3i, velocity: Vec3i) -> Enemy {
    let mut e = Enemy::spawn(v(0, 0, 0), BodyKind::Kinematic);
    e.state = MovementState::Moving;
    e.target = target;
    e.desired_velocity = desired;
    e.linear_velocity = velocity;
    e
}

fn knockback() -> Option<Knockback> {
    Some(Knockback { velocity: v(3 * M, M, 0), remaining_time: 250_000 })
}

#[test]
fn spawned_enemy_has_no_target() {
    let e = Enemy::spawn(v(1, 2, 3), BodyKind::Dynamic);
    assert_eq!(e.target, AgentTarget::NoTarget);
    assert_eq!(e.state, MovementState::Idle);
    assert_eq!(e.linear_velocity, Vec3i::zero());
    assert!(!e.is_grounded());
    assert!(!e.is_knocked_back());
}

#[test]
fn detection_range_boundary() {
    assert!(within_range(v(0, 0, 0), v(5 * M, 0, 0), DETECTION_RANGE));
    assert!(!within_range(v(0, 0, 0), v(5 * M + 1, 0, 0), DETECTION_RANGE));
    assert!(within_range(v(0, 0, 0), v(3 * M, 0, 4 * M), DETECTION_RANGE));
    assert!(!within_range(v(0, 0, 0), v(3 * M, 1, 4 * M), DETECTION_RANGE));
    assert!(!within_range(v(i64::MIN, 0, 0), v(i64::MAX, 0, 0), DETECTION_RANGE));
}

#[test]
fn target_follows_player_in_and_out_of_range() {
    let player_entity = 42;
    let sampled = v(3 * M, 0, 10);
    let mut enemies = vec![Enemy::spawn(v(0, 0, 0), BodyKind::Kinematic)];
    let player = PlayerSighting { entity: player_entity, position: v(3 * M, 0, 0) };
    enemy_track_nearby_player(&mut enemies, Some(player), Some(PointSample::Found(sampled)));
    assert_eq!(enemies[0].target, AgentTarget::Point(sampled));

    let player = PlayerSighting { entity: player_entity, position: v(5_010_000_000, 0, 0) };
    enemy_track_nearby_player(&mut enemies, Some(player), Some(PointSample::Found(sampled)));
    assert_eq!(enemies[0].target, AgentTarget::NoTarget);
}

#[test]
fn failed_sample_falls_back_to_player_entity() {
    let player = PlayerSighting { entity: 7, position: v(0, M, 2 * M) };
    assert_eq!(choose_target(v(0, 0, 0), player, PointSample::Failed), AgentTarget::Entity(7));
    let far = PlayerSighting { entity: 7, position: v(0, 0, 6 * M) };
    assert_eq!(choose_target(v(0, 0, 0), far, PointSample::Failed), AgentTarget::NoTarget);
}

#[test]
fn missing_player_or_mesh_changes_nothing() {
    let mut e = Enemy::spawn(v(0, 0, 0), BodyKind::Kinematic);
    e.target = AgentTarget::Point(v(1, 1, 1));
    let mut enemies = vec![e];
    enemy_track_nearby_player(&mut enemies, None, Some(PointSample::Failed));
    assert_eq!(enemies[0], e);
    let player = PlayerSighting { entity: 1, position: v(0, 0, 0) };
    enemy_track_nearby_player(&mut enemies, Some(player), None);
    assert_eq!(enemies[0], e);
}

#[test]
fn moving_enemy_takes_desired_velocity_and_faces_it() {
    let mut e = moving_enemy(AgentTarget::Point(v(9, 9, 9)), v(2 * M, 0, M), v(0, -5, 0));
    let facing = steer(&mut e);
    assert_eq!(e.linear_velocity, v(2 * M, 0, M));
    let f = facing.expect("a moving enemy with a target turns");
    assert_eq!(f, Facing { x: 2 * M, z: M });
    let yaw = std::f64::consts::FRAC_PI_2 - (f.z as f64).atan2(f.x as f64);
    let expected = std::f64::consts::FRAC_PI_2 - 1.0f64.atan2(2.0);
    assert!((yaw - expected).abs() < 1e-12);
}

#[test]
fn moving_enemy_without_target_is_left_alone() {
    let mut e = moving_enemy(AgentTarget::NoTarget, v(2 * M, 0, M), v(4, 5, 6));
    assert_eq!(steer(&mut e), None);
    assert_eq!(e.linear_velocity, v(4, 5, 6));
}

#[test]
fn enemy_not_moving_stops_horizontally() {
    for state in [
        MovementState::Idle,
        MovementState::ReachedTarget,
        MovementState::AgentNotOnNavMesh,
        MovementState::TargetNotOnNavMesh,
        MovementState::NoPath,
        MovementState::ReachedAnimationLink,
        MovementState::UsingAnimationLink,
        MovementState::Paused,
    ] {
        let mut e = moving_enemy(AgentTarget::Entity(3), v(M, M, M), v(7 * M, -2 * M, -9 * M));
        e.state = state;
        assert_eq!(steer(&mut e), None);
        assert_eq!(e.linear_velocity, v(0, -2 * M, 0));
    }
}

#[test]
fn knockback_suspends_steering_and_gravity() {
    let mut e = moving_enemy(AgentTarget::Point(v(1, 0, 1)), v(M, 0, M), v(5, 6, 7));
    e.body = BodyKind::Dynamic;
    e.knockback = knockback();
    let before = e;
    assert_eq!(steer(&mut e), None);
    apply_gravity(&mut e, 16_667);
    assert_eq!(e, before);

    let mut all = vec![before];
    let facings = enemy_move_toward_target(&mut all);
    apply_gravity_system(&mut all, 16_667);
    assert_eq!(facings, vec![None]);
    assert_eq!(all[0], before);
}

#[test]
fn support_needs_an_upward_surface() {
    // hit normals on the probe point down at a floor below it
    let floor = ContactNormal { x: 0, y: -1_000_000_000, z: 0 };
    assert!(is_support(floor));
    // about 0.05 rad off vertical
    assert!(is_support(ContactNormal { x: 49_979_169, y: -998_750_260, z: 0 }));
    // about 0.2 rad off vertical
    assert!(!is_support(ContactNormal { x: 198_669_331, y: -980_066_578, z: 0 }));
    assert!(!is_support(ContactNormal { x: 0, y: 1_000_000_000, z: 0 }));
    assert!(!is_support(ContactNormal { x: 0, y: 0, z: 0 }));
    assert!(!is_support(ContactNormal { x: 1_000_000_000, y: 0, z: 0 }));
    assert!(is_support(ContactNormal { x: i32::MIN, y: i32::MIN, z: i32::MIN }) == false);
}

#[test]
fn ground_classification_is_repeatable() {
    let wall = ContactNormal { x: 1_000_000_000, y: 0, z: 0 };
    let floor = ContactNormal { x: 0, y: -1_000_000_000, z: 0 };
    let hits = vec![wall, floor];
    assert!(is_grounded(&hits));
    assert!(is_grounded(&hits));
    assert!(!is_grounded(&vec![wall]));
    assert!(!is_grounded(&vec![]));

    let mut a = Enemy::spawn(v(0, 0, 0), BodyKind::Dynamic);
    let mut b = a;
    b.grounded = Some(Grounded);
    update_grounded_one(&mut a, &hits);
    update_grounded_one(&mut b, &hits);
    assert_eq!(a.grounded, b.grounded);
    let once = a;
    update_grounded_one(&mut a, &hits);
    assert_eq!(a, once);

    update_grounded_one(&mut a, &vec![wall]);
    assert_eq!(a.grounded, None);
}

#[test]
fn knocked_back_enemy_keeps_ground_marker() {
    let mut e = Enemy::spawn(v(0, 0, 0), BodyKind::Dynamic);
    e.knockback = knockback();
    let mut all = vec![e];
    update_grounded(&mut all, &vec![vec![ContactNormal { x: 0, y: -1, z: 0 }]]);
    assert_eq!(all[0].grounded, None);
}

#[test]
fn gravity_is_linear_in_tick_length() {
    let start = Enemy::spawn(v(0, 0, 0), BodyKind::Dynamic);
    let mut one = start;
    let mut two = start;
    apply_gravity(&mut one, 16_000);
    apply_gravity(&mut two, 32_000);
    let d1 = one.linear_velocity.y - start.linear_velocity.y;
    let d2 = two.linear_velocity.y - start.linear_velocity.y;
    assert_eq!(d1, -156_960_000);
    assert_eq!(d2, 2 * d1);
    assert_eq!(one.linear_velocity.x, 0);
}

#[test]
fn gravity_spares_grounded_and_kinematic_bodies() {
    let mut grounded = Enemy::spawn(v(0, 0, 0), BodyKind::Dynamic);
    grounded.grounded = Some(Grounded);
    let kinematic = Enemy::spawn(v(0, 0, 0), BodyKind::Kinematic);
    let fixed = Enemy::spawn(v(0, 0, 0), BodyKind::Static);
    let mut all = vec![grounded, kinematic, fixed];
    apply_gravity_system(&mut all, 1_000_000);
    assert_eq!(all, vec![grounded, kinematic, fixed]);
}

#[test]
fn gravity_fit_check() {
    let mut e = Enemy::spawn(v(0, 0, 0), BodyKind::Dynamic);
    e.linear_velocity.y = i64::MIN + 9810;
    assert!(gravity_would_fit(&e, 1));
    assert!(!gravity_would_fit(&e, 2));
    e.grounded = Some(Grounded);
    assert!(gravity_would_fit(&e, u32::MAX));
}

#[test]
fn one_tick_runs_stages_in_order() {
    let mut e = Enemy::spawn(v(0, 0, 0), BodyKind::Dynamic);
    e.state = MovementState::Moving;
    e.desired_velocity = v(M, 0, 0);
    let mut enemies = vec![e];
    let player = PlayerSighting { entity: 9, position: v(2 * M, 0, 0) };
    let facings = run_tick(
        &mut enemies,
        Some(player),
        Some(PointSample::Found(v(2 * M, 0, 0))),
        &vec![vec![]],
        10_000,
    );
    // target set first, so steering takes the desired velocity; no ground,
    // so gravity then acts on it
    assert_eq!(enemies[0].target, AgentTarget::Point(v(2 * M, 0, 0)));
    assert_eq!(enemies[0].linear_velocity, v(M, -98_100_000, 0));
    assert_eq!(enemies[0].grounded, None);
    assert_eq!(facings, vec![Some(Facing { x: M, z: 0 })]);
}
