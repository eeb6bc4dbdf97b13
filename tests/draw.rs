use enemy_ai::catalog::greeno;
use enemy_ai::enemy::{DrawPhase, Enemy, EnemyView};
use enemy_ai::geometry::Point;

#[test]
fn hole_opens_then_enemy_rises() {
    let ty = greeno();
    let mut e = Enemy::new(&ty, Point { x: 0, y: 0 });
    assert_eq!(e.draw(), EnemyView { clip: 0, clip_time: 0, flip_x: true, phase: DrawPhase::Hole { diameter: 0 } });
    e.animation_time = 350;
    assert_eq!(e.draw().phase, DrawPhase::Hole { diameter: 10 });
    e.animation_time = 700;
    assert_eq!(e.draw().phase, DrawPhase::Hole { diameter: 20 });
    e.animation_time = 1000;
    assert_eq!(e.draw().phase, DrawPhase::Rising { diameter: 20, rise_time: 300 });
}

#[test]
fn active_enemy_shows_health_bar() {
    let ty = greeno();
    let mut e = Enemy::new(&ty, Point { x: 0, y: 0 });
    e.emerging = false;
    e.animation_time = 40;
    e.direction = Point { x: -1000, y: 0 };
    assert_eq!(e.draw(), EnemyView { clip: 0, clip_time: 40, flip_x: true, phase: DrawPhase::Active { health_bar_width: 25 } });
    e.health = 10;
    assert_eq!(e.draw().phase, DrawPhase::Active { health_bar_width: 12 });
    e.health = -3;
    assert_eq!(e.draw().phase, DrawPhase::Active { health_bar_width: 0 });
    e.state = 3;
    assert_eq!(e.draw().clip, 1);
}
