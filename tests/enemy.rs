use enemy_ai::catalog::{
    dog, enemy_types, greeno, shooter, EnemyMovement, EnemyState, EnemyType, ProjectileFiring,
    StateChangeCondition, ALIEN_BALL,
};
use enemy_ai::enemy::{dispatch, evaluate_transition, Enemy, Player, Projectile};
use enemy_ai::geometry::Point;

fn st(
    animation_id: usize,
    speed: i64,
    movement: EnemyMovement,
    projectile_firing: ProjectileFiring,
    change_state: StateChangeCondition,
    damage_on_exit: Option<i64>,
) -> EnemyState {
    EnemyState { animation_id, speed, movement, projectile_firing, change_state, damage_on_exit }
}

/// One frame, with a physics step that moves freely, or caps the speed at
/// `cap` when given.
fn tick(
    e: &mut Enemy,
    player: &mut Player,
    dt: u64,
    clips: &Vec<u64>,
    projectiles: &mut Vec<Projectile>,
    cap: Option<i64>,
) -> Option<bool> {
    if !e.begin_frame(dt) {
        return None;
    }
    if e.request_path(dt, player.pos) {
        e.set_path(None);
    }
    let moved = e.steer(player.pos).map(|v| {
        let v = match cap {
            Some(c) => Point { x: v.x.clamp(-c, c), y: v.y.clamp(-c, c) },
            None => v,
        };
        let t = dt as i64;
        (Point { x: e.pos.x + v.x * t / 1000, y: e.pos.y + v.y * t / 1000 }, v)
    });
    Some(e.finish_frame(moved, player, clips, projectiles))
}

#[test]
fn chase_then_strike_scenario() {
    let ty = EnemyType {
        health: 20,
        states: vec![
            st(0, 25_000, EnemyMovement::Chase, ProjectileFiring::Nothing, StateChangeCondition::NearPlayer, None),
            st(1, 0, EnemyMovement::Stationary, ProjectileFiring::Forwards(ALIEN_BALL), StateChangeCondition::AnimationFinish, Some(15)),
        ],
    };
    let clips = vec![1000, 500];
    assert!(ty.validate(clips.len()));
    let mut player = Player { pos: Point { x: 0, y: 0 }, health: 100 };
    let mut e = Enemy::new(&ty, Point { x: 200_000, y: 0 });
    let mut projectiles = Vec::new();
    // emergence
    let mut frames = 0;
    while e.emerging {
        tick(&mut e, &mut player, 16, &clips, &mut projectiles, None);
        frames += 1;
        assert!(frames < 1000);
    }
    assert_eq!(e.state, 0);
    // chase until near
    let mut steps = 0;
    loop {
        let d2 = (e.pos.x as i128).pow(2) + (e.pos.y as i128).pow(2);
        let ended = tick(&mut e, &mut player, 16, &clips, &mut projectiles, None).unwrap();
        let d2_after = (e.pos.x as i128).pow(2) + (e.pos.y as i128).pow(2);
        if ended {
            assert!(d2_after < 144_000_000);
            break;
        }
        assert!(d2_after >= 144_000_000);
        assert!(d2 > 0);
        assert_eq!(e.state, 0);
        steps += 1;
        assert!(steps < 2000);
    }
    assert_eq!(e.state, 1);
    assert_eq!(e.animation_time, 0);
    assert_eq!(player.health, 100);
    assert!(projectiles.is_empty());
    // strike once the 500 ms clip has played
    let mut elapsed = 0;
    loop {
        let ended = tick(&mut e, &mut player, 16, &clips, &mut projectiles, None).unwrap();
        elapsed += 16;
        if ended {
            break;
        }
        assert!(elapsed < 500);
        assert_eq!(player.health, 100);
    }
    assert!(elapsed >= 500);
    assert_eq!(elapsed, 512);
    assert_eq!(e.state, 2);
    assert_eq!(e.state % ty.states.len(), 0);
    assert_eq!(player.health, 85);
    assert_eq!(projectiles.len(), 1);
    assert_eq!(projectiles[0].kind, ALIEN_BALL);
    assert_eq!(projectiles[0].pos, e.pos);
    assert_eq!(projectiles[0].turns, 1);
    assert!(!projectiles[0].friendly);
}

#[test]
fn emerging_enemy_does_not_move() {
    let ty = greeno();
    let mut player = Player { pos: Point { x: 0, y: 0 }, health: 100 };
    let mut e = Enemy::new(&ty, Point { x: 50_000, y: 0 });
    let clips = vec![400, 400];
    let mut projectiles = Vec::new();
    for _ in 0..112 {
        assert_eq!(tick(&mut e, &mut player, 16, &clips, &mut projectiles, None), None);
        assert_eq!(e.pos, Point { x: 50_000, y: 0 });
        assert_eq!(e.velocity, Point { x: 0, y: 0 });
        assert_eq!(e.state, 0);
        assert!(e.emerging);
    }
    assert_eq!(e.animation_time, 1792);
    assert!(tick(&mut e, &mut player, 16, &clips, &mut projectiles, None).is_some());
    assert!(!e.emerging);
    assert_ne!(e.pos, Point { x: 50_000, y: 0 });
}

#[test]
fn animation_finish_is_inclusive() {
    let p = Point { x: 0, y: 0 };
    assert!(!evaluate_transition(StateChangeCondition::AnimationFinish, 499, 500, p, p, false));
    assert!(evaluate_transition(StateChangeCondition::AnimationFinish, 500, 500, p, p, false));
    assert!(evaluate_transition(StateChangeCondition::AnimationFinish, 501, 500, p, p, false));
}

#[test]
fn player_near_is_exclusive() {
    let p = Point { x: 0, y: 0 };
    assert!(!evaluate_transition(StateChangeCondition::NearPlayer, 0, 0, p, Point { x: 12_000, y: 0 }, false));
    assert!(evaluate_transition(StateChangeCondition::NearPlayer, 0, 0, p, Point { x: 11_999, y: 0 }, false));
    assert!(!evaluate_transition(StateChangeCondition::NearPlayer, 0, 0, p, Point { x: 7_200, y: 9_600 }, false));
    assert!(evaluate_transition(StateChangeCondition::NearPlayer, 0, 0, p, Point { x: 7_200, y: 9_599 }, false));
}

#[test]
fn never_and_always() {
    let p = Point { x: 0, y: 0 };
    assert!(!evaluate_transition(StateChangeCondition::Never, 1_000_000, 0, p, p, true));
    assert!(evaluate_transition(StateChangeCondition::Always, 0, 1_000_000, p, Point { x: 900_000, y: 0 }, false));
    assert!(evaluate_transition(StateChangeCondition::HitWall, 0, 0, p, p, true));
    assert!(!evaluate_transition(StateChangeCondition::HitWall, 0, 0, p, p, false));
}

#[test]
fn radial_four_from_angle_zero() {
    let mut out = Vec::new();
    let pos = Point { x: 3_000, y: -7_000 };
    let facing = Point { x: 1000, y: 0 };
    dispatch(ProjectileFiring::Around(9, 4), pos, facing, &mut out);
    assert_eq!(out.len(), 4);
    for (i, p) in out.iter().enumerate() {
        assert_eq!(p.pos, pos);
        assert_eq!(p.dir, facing);
        assert_eq!(p.turn as usize, i);
        assert_eq!(p.turns, 4);
        assert_eq!(p.kind, 9);
        assert_eq!(p.time, 0);
        assert!(!p.friendly);
        let angle = (p.turn as f64 / p.turns as f64) * std::f64::consts::TAU;
        let expected = [0.0, std::f64::consts::FRAC_PI_2, std::f64::consts::PI, 3.0 * std::f64::consts::FRAC_PI_2][i];
        assert!((angle - expected).abs() < 1e-9);
    }
}

#[test]
fn dispatch_nothing_and_forward() {
    let mut out = Vec::new();
    let pos = Point { x: 1, y: 2 };
    dispatch(ProjectileFiring::Nothing, pos, Point { x: 0, y: 1000 }, &mut out);
    assert!(out.is_empty());
    dispatch(ProjectileFiring::Forwards(3), pos, Point { x: 0, y: 1000 }, &mut out);
    assert_eq!(out, vec![Projectile { kind: 3, pos, dir: Point { x: 0, y: 1000 }, turn: 0, turns: 1, time: 0, friendly: false }]);
}

#[test]
fn pathfind_timer_limits_queries() {
    let ty = EnemyType {
        health: 5,
        states: vec![st(0, 10_000, EnemyMovement::Pathfind, ProjectileFiring::Nothing, StateChangeCondition::Never, None)],
    };
    let mut e = Enemy::new(&ty, Point { x: 100_000, y: 0 });
    e.emerging = false;
    let player = Point { x: 0, y: 0 };
    // no path yet: ask at once
    assert!(e.request_path(100, player));
    e.set_path(Some(vec![(6, 0), (5, 0), (4, 0)]));
    assert_eq!(e.time_til_pathfind, 2000);
    // 0.1 later: no second query
    assert!(!e.request_path(100, player));
    // 2.1 after the query: exactly one more
    assert!(e.request_path(2000, player));
    e.set_path(Some(vec![(6, 0), (5, 0)]));
    assert!(!e.request_path(16, player));
}

#[test]
fn failed_pathfind_waits_for_timer() {
    let ty = EnemyType {
        health: 5,
        states: vec![st(0, 10_000, EnemyMovement::Pathfind, ProjectileFiring::Nothing, StateChangeCondition::Never, None)],
    };
    let mut e = Enemy::new(&ty, Point { x: 100_000, y: 0 });
    assert!(e.request_path(16, Point { x: 0, y: 0 }));
    e.set_path(None);
    assert_eq!(e.time_til_pathfind, 2000);
    // no path: chase the player directly, and no query before the timer ends
    assert!(!e.request_path(16, Point { x: 0, y: 0 }));
    assert_eq!(e.steer(Point { x: 0, y: 0 }).map(|v| v.x < 0), Some(true));
    assert!(e.request_path(1984, Point { x: 0, y: 0 }));
}

#[test]
fn negative_exit_damage_heals() {
    let ty = EnemyType {
        health: 5,
        states: vec![st(0, 0, EnemyMovement::Stationary, ProjectileFiring::Nothing, StateChangeCondition::Always, Some(-4))],
    };
    let clips = vec![0];
    let mut player = Player { pos: Point { x: 0, y: 0 }, health: i64::MAX - 1 };
    let mut projectiles = Vec::new();
    let mut e = Enemy::new(&ty, Point { x: 1_000, y: 0 });
    e.emerging = false;
    assert!(e.current_state().damage_on_exit == Some(-4));
    assert_eq!(tick(&mut e, &mut player, 16, &clips, &mut projectiles, None), Some(true));
    assert_eq!(player.health, i64::MAX);
}

#[test]
fn steering_follows_waypoints() {
    let ty = EnemyType {
        health: 5,
        states: vec![st(0, 10_000, EnemyMovement::Pathfind, ProjectileFiring::Nothing, StateChangeCondition::Never, None)],
    };
    let mut e = Enemy::new(&ty, Point { x: 96_000, y: 0 });
    e.set_path(Some(vec![(6, 0), (6, 2), (5, 2)]));
    // next waypoint (6, 2) lies 32 units below
    assert_eq!(e.steer(Point { x: 0, y: 0 }), Some(Point { x: 0, y: 10_000 }));
    assert_eq!(e.direction, Point { x: 0, y: 1000 });
    assert_eq!(e.path.as_ref().unwrap().len(), 3);
    // within 4 units of it: popped, still steering to it this frame
    e.pos = Point { x: 96_000, y: 29_000 };
    assert_eq!(e.steer(Point { x: 0, y: 0 }), Some(Point { x: 0, y: 10_000 }));
    assert_eq!(e.path, Some(vec![(6, 2), (5, 2)]));
}

#[test]
fn stationary_state_holds_still() {
    let ty = EnemyType {
        health: 5,
        states: vec![st(0, 10_000, EnemyMovement::Stationary, ProjectileFiring::Nothing, StateChangeCondition::Never, None)],
    };
    let mut e = Enemy::new(&ty, Point { x: 5_000, y: 0 });
    e.velocity = Point { x: 7, y: 7 };
    assert_eq!(e.steer(Point { x: 0, y: 0 }), None);
    assert_eq!(e.velocity, Point { x: 0, y: 0 });
    assert_eq!(e.direction, Point { x: 1000, y: 0 });
}

#[test]
fn target_reached_holds_position() {
    let ty = greeno();
    let mut e = Enemy::new(&ty, Point { x: 8_000, y: 8_000 });
    assert_eq!(e.steer(Point { x: 0, y: 0 }), None);
    assert_eq!(e.pos, Point { x: 8_000, y: 8_000 });
}

#[test]
fn wall_hit_detection() {
    let ty = EnemyType {
        health: 5,
        states: vec![
            st(0, 30_000, EnemyMovement::Chase, ProjectileFiring::Around(1, 2), StateChangeCondition::HitWall, Some(2)),
            st(0, 30_000, EnemyMovement::Chase, ProjectileFiring::Nothing, StateChangeCondition::Never, None),
        ],
    };
    let clips = vec![100];
    let mut player = Player { pos: Point { x: 0, y: 0 }, health: 10 };
    let mut projectiles = Vec::new();
    let mut e = Enemy::new(&ty, Point { x: 108_000, y: 8_000 });
    e.emerging = false;
    // equal magnitude: no hit
    assert_eq!(tick(&mut e, &mut player, 16, &clips, &mut projectiles, None), Some(false));
    assert_eq!(e.state, 0);
    // clipped: hit on the same frame
    assert_eq!(tick(&mut e, &mut player, 16, &clips, &mut projectiles, Some(10_000)), Some(true));
    assert_eq!(e.state, 1);
    assert_eq!(player.health, 8);
    assert_eq!(projectiles.len(), 2);
    assert_eq!(projectiles[1].turn, 1);
    assert_eq!(projectiles[1].dir, Point { x: -1000, y: 0 });
}

#[test]
fn catalog_is_valid() {
    let all = enemy_types();
    assert_eq!(all.len(), 3);
    for ty in &all {
        assert!(ty.validate(5));
    }
    assert!(!shooter().validate(4));
    assert_eq!(greeno().health, 20);
    assert_eq!(dog().states[1].damage_on_exit, Some(5));
    assert_eq!(shooter().states[0].projectile_firing, ProjectileFiring::Forwards(ALIEN_BALL));
}

#[test]
fn invalid_archetypes_are_rejected() {
    let empty = EnemyType { health: 5, states: vec![] };
    assert!(!empty.validate(10));
    let radial_zero = EnemyType {
        health: 5,
        states: vec![st(0, 0, EnemyMovement::Chase, ProjectileFiring::Around(0, 0), StateChangeCondition::Never, None)],
    };
    assert!(!radial_zero.validate(10));
}

#[test]
fn state_index_wraps() {
    let ty = dog();
    let clips = vec![0, 0, 300, 300, 0];
    let mut player = Player { pos: Point { x: 0, y: 0 }, health: 30 };
    let mut projectiles = Vec::new();
    let mut e = Enemy::new(&ty, Point { x: 1_000, y: 0 });
    e.emerging = false;
    // near at once, then the bite after its clip, then near again
    assert_eq!(tick(&mut e, &mut player, 16, &clips, &mut projectiles, None), Some(true));
    assert_eq!(e.state, 1);
    for _ in 0..18 {
        assert_eq!(tick(&mut e, &mut player, 16, &clips, &mut projectiles, None), Some(false));
    }
    assert_eq!(tick(&mut e, &mut player, 16, &clips, &mut projectiles, None), Some(true));
    assert_eq!(player.health, 25);
    assert_eq!(e.state, 2);
    assert_eq!(e.state % ty.states.len(), 0);
    assert_eq!(tick(&mut e, &mut player, 16, &clips, &mut projectiles, None), Some(true));
    assert_eq!(e.state, 3);
}

#[test]
fn chase_then_strike_through_update() {
    let ty = EnemyType {
        health: 20,
        states: vec![
            st(0, 25_000, EnemyMovement::Chase, ProjectileFiring::Nothing, StateChangeCondition::NearPlayer, None),
            st(1, 0, EnemyMovement::Stationary, ProjectileFiring::Forwards(ALIEN_BALL), StateChangeCondition::AnimationFinish, Some(15)),
        ],
    };
    let clips = vec![1000, 500];
    let mut player = Player { pos: Point { x: 0, y: 0 }, health: 100 };
    let mut e = Enemy::new(&ty, Point { x: 200_000, y: 0 });
    let mut projectiles = Vec::new();
    let queries = std::cell::Cell::new(0);
    let free = |p: Point, v: Point, t: u64| {
        let t = t as i64;
        (Point { x: p.x + v.x * t / 1000, y: p.y + v.y * t / 1000 }, v)
    };
    let mut frames = 0;
    while e.state == 0 {
        let before = e.pos;
        let emerging = e.emerging;
        let ended = e.update(16, &mut player, |_, _| {
            queries.set(queries.get() + 1);
            None
        }, free, &clips, &mut projectiles);
        if emerging && e.emerging {
            assert_eq!(e.pos, before);
            assert!(!ended);
        }
        frames += 1;
        assert!(frames < 3000);
    }
    assert_eq!(queries.get(), 0);
    assert_eq!(e.animation_time, 0);
    assert_eq!(player.health, 100);
    assert!(projectiles.is_empty());
    let mut elapsed = 0;
    while e.state == 1 {
        e.update(16, &mut player, |_, _| None, free, &clips, &mut projectiles);
        elapsed += 16;
    }
    assert_eq!(elapsed, 512);
    assert_eq!(e.state % 2, 0);
    assert_eq!(player.health, 85);
    assert_eq!(projectiles.len(), 1);
}

#[test]
fn pathfind_queries_through_update() {
    let ty = EnemyType {
        health: 5,
        states: vec![st(0, 10_000, EnemyMovement::Pathfind, ProjectileFiring::Nothing, StateChangeCondition::Never, None)],
    };
    let clips = vec![100];
    let mut player = Player { pos: Point { x: 0, y: 0 }, health: 10 };
    let mut projectiles = Vec::new();
    let mut e = Enemy::new(&ty, Point { x: 200_000, y: 0 });
    e.emerging = false;
    let queries = std::cell::Cell::new(0);
    let pathfind = |_: Point, _: Point| {
        queries.set(queries.get() + 1);
        Some(vec![(12, 0), (11, 0), (10, 0)])
    };
    let free = |p: Point, v: Point, t: u64| {
        let t = t as i64;
        (Point { x: p.x + v.x * t / 1000, y: p.y + v.y * t / 1000 }, v)
    };
    e.update(100, &mut player, pathfind, free, &clips, &mut projectiles);
    assert_eq!(queries.get(), 1);
    e.update(100, &mut player, pathfind, free, &clips, &mut projectiles);
    assert_eq!(queries.get(), 1);
    e.update(2000, &mut player, pathfind, free, &clips, &mut projectiles);
    assert_eq!(queries.get(), 2);
    // heading for cell (11, 0) along the path
    assert!(e.velocity.x < 0 && e.velocity.y == 0);
}
