use arena_core::actor::{Body, PARKED_HEIGHT};
use arena_core::enemy::{Enemy, EnemyState};
use arena_core::enemy_falling::handle_enemy_falls;
use arena_core::player::check_fall;
use arena_core::score::{BearScore, DuckScore, STARTING_SCORE};
use arena_core::timer::{Timer, TimerMode};
use arena_core::vector::Vec3;
use arena_core::win::check_win_condition;

const FRAME: u32 = 16_666;

fn body(x: i32, y: i32, z: i32, velocity: Vec3) -> Body {
    Body { position: Vec3::new(x, y, z), velocity, angular_velocity: Vec3::new(10, 20, 30) }
}

fn score(name: &str) -> BearScore {
    BearScore::new(name.to_string())
}

#[test]
fn scores_start_at_ten() {
    assert_eq!(STARTING_SCORE, 10);
    let bear = score("Player");
    assert_eq!(bear.value, 10);
    assert_eq!(bear.name, "Player");
    let duck = DuckScore::new("Enemy 1".to_string());
    assert_eq!(duck.value, 10);
    assert_eq!(duck.name, "Enemy 1");
    assert_eq!(duck.clone().name, "Enemy 1");
}

#[test]
fn body_halts_where_it_is() {
    let mut b = body(1, 2, 3, Vec3::new(4, 5, 6));
    b.halt();
    assert_eq!(b.position, Vec3::new(1, 2, 3));
    assert_eq!(b.velocity, Vec3::zero());
    assert_eq!(b.angular_velocity, Vec3::zero());
}

#[test]
fn enemy_on_the_platform_is_left_alone() {
    let mut enemy = Enemy::new();
    let before = enemy;
    let mut b = body(1_000, 5_500, 0, Vec3::new(100, 0, 0));
    let mut s = score("Enemy 1");
    handle_enemy_falls(&mut enemy, &mut b, &mut s, FRAME);
    assert_eq!(enemy, before);
    assert_eq!(b, body(1_000, 5_500, 0, Vec3::new(100, 0, 0)));
    assert_eq!(s.value, 10);
}

#[test]
fn enemy_off_the_platform_is_pulled_down() {
    let mut enemy = Enemy::new();
    let mut b = body(11_000, 4_000, 0, Vec3::new(100, 0, 0));
    let mut s = score("Enemy 1");
    handle_enemy_falls(&mut enemy, &mut b, &mut s, 100_000);
    assert!(!enemy.is_fallen);
    assert_eq!(b.velocity, Vec3::new(100, -3_000, 0));
    assert_eq!(b.position, Vec3::new(11_000, 4_000, 0));
    assert_eq!(b.angular_velocity, Vec3::new(10, 20, 30));
    assert_eq!(s.value, 10);
}

#[test]
fn enemy_at_the_threshold_has_not_fallen_yet() {
    let mut enemy = Enemy::new();
    let mut b = body(11_000, -5_000, 0, Vec3::zero());
    let mut s = score("Enemy 1");
    handle_enemy_falls(&mut enemy, &mut b, &mut s, FRAME);
    assert!(!enemy.is_fallen);
    assert_eq!(s.value, 10);
}

#[test]
fn enemy_below_the_threshold_falls() {
    let mut enemy = Enemy::new();
    enemy.state = EnemyState::Chase;
    let mut b = body(11_000, -5_001, 3_000, Vec3::new(100, -9_000, 0));
    let mut s = score("Enemy 1");
    handle_enemy_falls(&mut enemy, &mut b, &mut s, FRAME);
    assert!(enemy.is_fallen);
    assert_eq!(enemy.state, EnemyState::Fallen);
    assert_eq!(s.value, 9);
    assert_eq!(s.name, "Enemy 1");
    assert_eq!(b.position, Vec3::new(11_000, -100_000, 3_000));
    assert_eq!(b.velocity, Vec3::zero());
    assert_eq!(b.angular_velocity, Vec3::zero());
    assert_eq!(enemy.respawn_timer.elapsed, FRAME);
    assert!(!enemy.respawn_timer.finished());
}

#[test]
fn fallen_enemy_is_kept_far_below_the_arena() {
    let mut enemy = Enemy::new();
    let mut b = body(11_000, -5_001, 3_000, Vec3::new(100, -9_000, 0));
    let mut s = score("Enemy 1");
    handle_enemy_falls(&mut enemy, &mut b, &mut s, FRAME);
    assert_eq!(PARKED_HEIGHT, -100_000);
    assert_eq!(b.position.y, -100_000);
    let mut deeper = Enemy::new();
    let mut d = body(11_000, -250_000, 3_000, Vec3::new(100, -9_000, 0));
    handle_enemy_falls(&mut deeper, &mut d, &mut s, FRAME);
    assert_eq!(d.position, Vec3::new(11_000, -250_000, 3_000));
    assert_eq!(d.velocity, Vec3::zero());
}

#[test]
fn body_is_parked_straight_below() {
    let mut b = body(1, 2, 3, Vec3::new(4, 5, 6));
    b.park();
    assert_eq!(b.position, Vec3::new(1, -100_000, 3));
    assert_eq!(b.velocity, Vec3::zero());
    assert_eq!(b.angular_velocity, Vec3::zero());
    let mut at = body(1, -100_000, 3, Vec3::zero());
    at.park();
    assert_eq!(at.position.y, -100_000);
    let mut low = body(1, i32::MIN, 3, Vec3::zero());
    low.park();
    assert_eq!(low.position.y, i32::MIN);
}

#[test]
fn score_stops_at_the_least_value() {
    let mut s = score("Enemy 1");
    s.value = i32::MIN + 1;
    s.lose_point();
    assert_eq!(s.value, i32::MIN);
    s.lose_point();
    assert_eq!(s.value, i32::MIN);
    assert_eq!(s.name, "Enemy 1");
    let mut enemy = Enemy::new();
    let mut b = body(11_000, -6_000, 0, Vec3::zero());
    handle_enemy_falls(&mut enemy, &mut b, &mut s, FRAME);
    assert!(enemy.is_fallen);
    assert_eq!(enemy.state, EnemyState::Fallen);
    assert_eq!(s.value, i32::MIN);
    let mut p = body(11_000, -6_000, 0, Vec3::zero());
    assert!(check_fall(&mut p, &mut s, FRAME));
    assert_eq!(s.value, i32::MIN);
}

#[test]
fn fallen_enemy_loses_one_point_only() {
    let mut enemy = Enemy::new();
    let mut b = body(11_000, -9_000, 0, Vec3::zero());
    let mut s = score("Enemy 1");
    handle_enemy_falls(&mut enemy, &mut b, &mut s, FRAME);
    assert_eq!(s.value, 9);
    b.position.y = -9_000;
    handle_enemy_falls(&mut enemy, &mut b, &mut s, FRAME);
    handle_enemy_falls(&mut enemy, &mut b, &mut s, FRAME);
    assert!(enemy.is_fallen);
    assert_eq!(s.value, 9);
    assert_eq!(b.velocity, Vec3::zero());
}

#[test]
fn fall_and_respawn_round_trip() {
    let mut enemy = Enemy::new();
    let mut b = body(11_000, -6_000, 3_000, Vec3::new(100, -9_000, 0));
    let mut s = score("Enemy 1");
    handle_enemy_falls(&mut enemy, &mut b, &mut s, FRAME);
    assert!(enemy.is_fallen);
    assert_eq!(s.value, 9);
    handle_enemy_falls(&mut enemy, &mut b, &mut s, 2_000_000 - FRAME - 1);
    assert!(enemy.is_fallen);
    assert_eq!(enemy.state, EnemyState::Fallen);
    handle_enemy_falls(&mut enemy, &mut b, &mut s, 1);
    assert!(!enemy.is_fallen);
    assert_eq!(enemy.state, EnemyState::Patrol);
    assert_eq!(b.position, Vec3::new(0, 7_000, 0));
    assert_eq!(b.velocity, Vec3::zero());
    assert_eq!(b.angular_velocity, Vec3::zero());
    assert_eq!(s.value, 9);
    handle_enemy_falls(&mut enemy, &mut b, &mut s, 5_000_000);
    assert!(!enemy.is_fallen);
    assert_eq!(b.position, Vec3::new(0, 7_000, 0));
    assert_eq!(s.value, 9);
}

#[test]
fn fall_and_respawn_in_one_long_frame() {
    let mut enemy = Enemy::new();
    let mut b = body(11_000, -6_000, 3_000, Vec3::new(100, -9_000, 0));
    let mut s = score("Enemy 1");
    handle_enemy_falls(&mut enemy, &mut b, &mut s, 2_000_000);
    assert!(!enemy.is_fallen);
    assert_eq!(enemy.state, EnemyState::Patrol);
    assert_eq!(b.position, Vec3::new(0, 7_000, 0));
    assert_eq!(b.velocity, Vec3::zero());
    assert_eq!(s.value, 9);
}

#[test]
fn enemy_can_fall_again_after_it_came_back() {
    let mut enemy = Enemy::new();
    let mut b = body(11_000, -6_000, 0, Vec3::zero());
    let mut s = score("Enemy 1");
    handle_enemy_falls(&mut enemy, &mut b, &mut s, 2_000_000);
    assert_eq!(s.value, 9);
    b.position = Vec3::new(-12_000, -5_500, 0);
    handle_enemy_falls(&mut enemy, &mut b, &mut s, FRAME);
    assert!(enemy.is_fallen);
    assert_eq!(s.value, 8);
    assert_eq!(enemy.respawn_timer.elapsed, FRAME);
}

#[test]
fn enemy_score_may_go_below_zero() {
    let mut enemy = Enemy::new();
    let mut s = score("Enemy 1");
    s.value = 0;
    let mut b = body(11_000, -6_000, 0, Vec3::zero());
    handle_enemy_falls(&mut enemy, &mut b, &mut s, FRAME);
    assert_eq!(s.value, -1);
    assert!(enemy.is_fallen);
}

#[test]
fn player_on_the_platform_is_left_alone() {
    let mut b = body(1_000, 5_500, 0, Vec3::new(100, 0, 0));
    let mut s = score("Player");
    assert!(!check_fall(&mut b, &mut s, FRAME));
    assert_eq!(b, body(1_000, 5_500, 0, Vec3::new(100, 0, 0)));
    assert_eq!(s.value, 10);
}

#[test]
fn player_off_the_platform_is_pulled_down() {
    let mut b = body(11_000, 2_000, 0, Vec3::new(100, 0, 0));
    let mut s = score("Player");
    assert!(!check_fall(&mut b, &mut s, 100_000));
    assert_eq!(b.velocity, Vec3::new(100, -3_000, 0));
    assert_eq!(b.position, Vec3::new(11_000, 2_000, 0));
    assert_eq!(s.value, 10);
}

#[test]
fn player_fall_costs_a_point_and_respawns() {
    let mut b = body(11_000, -5_001, 0, Vec3::new(100, -9_000, 0));
    let mut s = score("Player");
    assert!(!check_fall(&mut b, &mut s, FRAME));
    assert_eq!(s.value, 9);
    assert_eq!(s.name, "Player");
    assert_eq!(b.position, Vec3::new(0, 7_000, 0));
    assert_eq!(b.velocity, Vec3::zero());
    assert_eq!(b.angular_velocity, Vec3::zero());
}

#[test]
fn player_at_the_threshold_has_not_fallen_yet() {
    let mut b = body(11_000, -5_000, 0, Vec3::zero());
    let mut s = score("Player");
    assert!(!check_fall(&mut b, &mut s, FRAME));
    assert_eq!(s.value, 10);
    assert_eq!(b.position, Vec3::new(11_000, -5_000, 0));
}

#[test]
fn game_over_comes_with_the_tenth_fall() {
    let mut s = score("Player");
    assert_eq!(s.value, 10);
    let mut b = body(0, 7_000, 0, Vec3::zero());
    let mut signals = 0;
    let mut fall = 1;
    while fall <= 10 {
        b.position = Vec3::new(12_000, -5_500, 0);
        b.velocity = Vec3::new(0, -7_000, 0);
        let game_over = check_fall(&mut b, &mut s, FRAME);
        assert_eq!(s.value, 10 - fall);
        if game_over {
            signals += 1;
        }
        if fall < 10 {
            assert!(!game_over);
            assert_eq!(b.position, Vec3::new(0, 7_000, 0));
            assert_eq!(b.velocity, Vec3::zero());
            assert!(!check_fall(&mut b, &mut s, FRAME));
        } else {
            assert!(game_over);
            assert_eq!(b.position, Vec3::new(12_000, -5_500, 0));
        }
        fall += 1;
    }
    assert_eq!(signals, 1);
    assert_eq!(s.value, 0);
}

#[test]
fn game_over_also_below_zero() {
    let mut s = score("Player");
    s.value = -3;
    let mut b = body(12_000, -5_500, 0, Vec3::zero());
    assert!(check_fall(&mut b, &mut s, FRAME));
    assert_eq!(s.value, -4);
    s.value = 2;
    assert!(!check_fall(&mut b, &mut s, FRAME));
    assert_eq!(s.value, 1);
}

#[test]
fn game_is_won_when_every_enemy_has_fallen() {
    let mut fallen = Enemy::new();
    fallen.is_fallen = true;
    fallen.state = EnemyState::Fallen;
    let standing = Enemy::new();
    assert!(check_win_condition(&vec![fallen]));
    assert!(check_win_condition(&vec![fallen, fallen, fallen, fallen]));
    assert!(!check_win_condition(&vec![fallen, standing]));
    assert!(!check_win_condition(&vec![standing, fallen, fallen]));
    assert!(!check_win_condition(&vec![standing]));
}

#[test]
fn game_without_enemies_is_won() {
    assert!(check_win_condition(&Vec::new()));
}

#[test]
fn win_goes_by_the_flag() {
    let mut flagged = Enemy::new();
    flagged.is_fallen = true;
    assert!(check_win_condition(&vec![flagged]));
    let mut only_state = Enemy::new();
    only_state.state = EnemyState::Fallen;
    assert!(!check_win_condition(&vec![only_state]));
}

#[test]
fn respawn_timer_of_a_new_enemy_is_one_shot() {
    assert_eq!(Enemy::new().respawn_timer, Timer::new(2_000_000, TimerMode::Once));
}
