use arena_core::enemy::{
    next_state, Enemy, EnemyState, CHASE_CHANCE, CHASE_DISTANCE, FULL_HEALTH, GIVE_UP_CHANCE,
    GIVE_UP_DISTANCE, HOVER_HEIGHT, PATROL_RANGE, RESPAWN_DELAY, STATE_PERIOD, TARGET_PERIOD,
    WEAK_THRESHOLD,
};
use arena_core::timer::{Timer, TimerMode};
use arena_core::vector::Vec3;
use rand::rngs::StdRng;
use rand::SeedableRng;

const NEAR: u128 = 9_000_000;
const EDGE_OF_RANGE: u128 = 100_000_000;
const EDGE_OF_REACH: u128 = 225_000_000;
const FAR: u128 = 400_000_000;

#[test]
fn enemy_constants_are_the_documented_ones() {
    assert_eq!(WEAK_THRESHOLD, 30_000);
    assert_eq!(FULL_HEALTH, 100_000);
    assert_eq!(STATE_PERIOD, 1_500_000);
    assert_eq!(RESPAWN_DELAY, 2_000_000);
    assert_eq!(TARGET_PERIOD, 1_000_000);
    assert_eq!(PATROL_RANGE, 8_000);
    assert_eq!(HOVER_HEIGHT, 7_000);
    assert_eq!(CHASE_DISTANCE, 10_000);
    assert_eq!(GIVE_UP_DISTANCE, 15_000);
    assert_eq!(CHASE_CHANCE, 70);
    assert_eq!(GIVE_UP_CHANCE, 40);
}

#[test]
fn new_enemy_is_on_patrol() {
    let enemy = Enemy::new();
    assert_eq!(enemy.state, EnemyState::Patrol);
    assert_eq!(enemy.target_position, None);
    assert_eq!(enemy.target, None);
    assert!(!enemy.is_fallen);
    assert_eq!(enemy.health, FULL_HEALTH);
    assert_eq!(enemy.state_timer, Timer::new(1_500_000, TimerMode::Repeating));
    assert_eq!(enemy.respawn_timer, Timer::new(2_000_000, TimerMode::Once));
    assert_eq!(enemy.target_timer, Timer::new(1_000_000, TimerMode::Repeating));
    assert_eq!(EnemyState::default(), EnemyState::Patrol);
}

#[test]
fn enemy_is_weak_at_thirty_health() {
    let mut enemy = Enemy::new();
    assert!(!enemy.is_weak());
    enemy.health = 30_001;
    assert!(!enemy.is_weak());
    enemy.health = 30_000;
    assert!(enemy.is_weak());
    enemy.health = 0;
    assert!(enemy.is_weak());
}

#[test]
fn patrol_takes_up_the_chase_in_range_on_the_draw() {
    assert_eq!(next_state(EnemyState::Patrol, NEAR, 0), EnemyState::Chase);
    assert_eq!(next_state(EnemyState::Patrol, NEAR, 69), EnemyState::Chase);
    assert_eq!(next_state(EnemyState::Patrol, NEAR, 70), EnemyState::Patrol);
    assert_eq!(next_state(EnemyState::Patrol, NEAR, 99), EnemyState::Patrol);
    assert_eq!(next_state(EnemyState::Patrol, 0, 0), EnemyState::Chase);
}

#[test]
fn patrol_stays_on_patrol_out_of_range() {
    assert_eq!(next_state(EnemyState::Patrol, EDGE_OF_RANGE - 1, 0), EnemyState::Chase);
    assert_eq!(next_state(EnemyState::Patrol, EDGE_OF_RANGE, 0), EnemyState::Patrol);
    assert_eq!(next_state(EnemyState::Patrol, FAR, 0), EnemyState::Patrol);
    assert_eq!(next_state(EnemyState::Patrol, u128::MAX, 0), EnemyState::Patrol);
}

#[test]
fn chase_gives_up_on_the_draw_or_out_of_reach() {
    assert_eq!(next_state(EnemyState::Chase, NEAR, 39), EnemyState::Patrol);
    assert_eq!(next_state(EnemyState::Chase, NEAR, 40), EnemyState::Chase);
    assert_eq!(next_state(EnemyState::Chase, NEAR, 99), EnemyState::Chase);
    assert_eq!(next_state(EnemyState::Chase, EDGE_OF_REACH, 99), EnemyState::Chase);
    assert_eq!(next_state(EnemyState::Chase, EDGE_OF_REACH + 1, 99), EnemyState::Patrol);
    assert_eq!(next_state(EnemyState::Chase, FAR, 99), EnemyState::Patrol);
    assert_eq!(next_state(EnemyState::Chase, FAR, 0), EnemyState::Patrol);
}

#[test]
fn timer_never_makes_an_enemy_fall() {
    let states = [EnemyState::Patrol, EnemyState::Chase, EnemyState::Fallen];
    let distances: [u128; 7] = [0, NEAR, EDGE_OF_RANGE - 1, EDGE_OF_RANGE, EDGE_OF_REACH, FAR, u128::MAX];
    for state in states {
        for distance in distances {
            let mut draw: u32 = 0;
            while draw < 130 {
                let next = next_state(state, distance, draw);
                assert!(next == EnemyState::Patrol || next == EnemyState::Chase);
                draw += 1;
            }
            assert_ne!(next_state(state, distance, u32::MAX), EnemyState::Fallen);
        }
    }
    assert_eq!(next_state(EnemyState::Fallen, NEAR, 0), EnemyState::Patrol);
}

#[test]
fn reconsidering_on_patrol_sets_a_new_patrol_target() {
    let goal = Vec3::new(-3_000, 7_000, 2_500);
    let mut enemy = Enemy::new();
    enemy.reconsider(NEAR, 70, goal);
    assert_eq!(enemy.state, EnemyState::Patrol);
    assert_eq!(enemy.target_position, Some(goal));
    let mut far = Enemy::new();
    far.target_position = Some(Vec3::new(1, 7_000, 1));
    far.reconsider(FAR, 0, goal);
    assert_eq!(far.state, EnemyState::Patrol);
    assert_eq!(far.target_position, Some(goal));
}

#[test]
fn reconsidering_into_the_chase_keeps_the_rest() {
    let mut enemy = Enemy::new();
    enemy.target_position = Some(Vec3::new(1, 7_000, 1));
    enemy.reconsider(NEAR, 0, Vec3::new(-3_000, 7_000, 2_500));
    assert_eq!(enemy.state, EnemyState::Chase);
    assert_eq!(enemy.target_position, Some(Vec3::new(1, 7_000, 1)));
    assert_eq!(enemy.target, None);
}

#[test]
fn giving_up_the_chase_lets_go_of_the_target() {
    let goal = Vec3::new(-3_000, 7_000, 2_500);
    let mut enemy = Enemy::new();
    enemy.state = EnemyState::Chase;
    enemy.target = Some(17);
    enemy.reconsider(NEAR, 39, goal);
    assert_eq!(enemy.state, EnemyState::Patrol);
    assert_eq!(enemy.target, None);
    assert_eq!(enemy.target_position, Some(goal));
}

#[test]
fn staying_in_the_chase_keeps_the_target() {
    let mut enemy = Enemy::new();
    enemy.state = EnemyState::Chase;
    enemy.target = Some(17);
    enemy.reconsider(NEAR, 40, Vec3::new(-3_000, 7_000, 2_500));
    assert_eq!(enemy.state, EnemyState::Chase);
    assert_eq!(enemy.target, Some(17));
    assert_eq!(enemy.target_position, None);
}

#[test]
fn fallen_enemy_does_not_reconsider() {
    let mut enemy = Enemy::new();
    enemy.state = EnemyState::Fallen;
    enemy.is_fallen = true;
    let before = enemy;
    enemy.reconsider(NEAR, 0, Vec3::new(-3_000, 7_000, 2_500));
    assert_eq!(enemy, before);
}

#[test]
fn platform_position_hovers_over_the_platform() {
    assert_eq!(Enemy::platform_position(-8_000, 7_999), Vec3::new(-8_000, 7_000, 7_999));
}

#[test]
fn random_platform_positions_lie_within_the_patrol_range() {
    let mut rng = StdRng::seed_from_u64(1);
    let first = Enemy::get_random_platform_position(&mut rng);
    let mut differs = false;
    let mut off_the_low_corner = false;
    let mut i = 0;
    while i < 500 {
        let p = Enemy::get_random_platform_position(&mut rng);
        assert!(-8_000 <= p.x && p.x < 8_000);
        assert!(-8_000 <= p.z && p.z < 8_000);
        assert_eq!(p.y, 7_000);
        if p != first {
            differs = true;
        }
        if p.x != -8_000 && p.z != -8_000 {
            off_the_low_corner = true;
        }
        i += 1;
    }
    assert!(differs);
    assert!(off_the_low_corner);
}

#[test]
fn random_platform_positions_follow_the_seed() {
    let mut one = StdRng::seed_from_u64(99);
    let mut two = StdRng::seed_from_u64(99);
    let mut i = 0;
    while i < 20 {
        assert_eq!(
            Enemy::get_random_platform_position(&mut one),
            Enemy::get_random_platform_position(&mut two)
        );
        i += 1;
    }
}
