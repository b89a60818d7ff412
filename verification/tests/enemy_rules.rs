use combat2d::enemy::{
    flyers_allowed, max_flyers, max_ground_enemies, plan_enemy_motion, EnemyBrain, EnemyMotion,
    EnemyState, FlyingState, Gait, GroundSpawnBudget, Proximity, ATTACK_COOLDOWN_NS,
    ATTACK_DURATION_NS, IDLE_PAUSE_NS,
};
use combat2d::motion::Anim;
use combat2d::player::Facing;
use combat2d::timer::GameTimer;

const FAR: Proximity = Proximity { within_detection: false, within_melee: false, beyond_drop_off: true };
const SEEN: Proximity = Proximity { within_detection: true, within_melee: false, beyond_drop_off: false };
const CLOSE: Proximity = Proximity { within_detection: true, within_melee: true, beyond_drop_off: false };
const MID: Proximity = Proximity { within_detection: false, within_melee: false, beyond_drop_off: false };
const FRAME: u64 = 16_000_000;

#[test]
fn spawned_enemy_is_idle_and_ready() {
    let b = EnemyBrain::spawn();
    assert_eq!(b.state, EnemyState::Idle);
    assert_eq!(b.idle_timer, GameTimer { duration_ns: IDLE_PAUSE_NS, elapsed_ns: 0 });
    assert_eq!(b.cooldown, GameTimer { duration_ns: ATTACK_COOLDOWN_NS, elapsed_ns: ATTACK_COOLDOWN_NS });
    assert!(b.cooldown.is_finished());
    assert_eq!(b.attack_timer, None);
    assert_eq!(EnemyState::default(), EnemyState::Idle);
    assert_eq!(FlyingState::default(), FlyingState::Hover);
}

#[test]
fn idle_enemy_spots_player() {
    let mut b = EnemyBrain::spawn();
    assert!(!b.decide(false, SEEN, FRAME));
    assert_eq!(b.state, EnemyState::Chase);
    assert_eq!(b.idle_timer.elapsed_ns, 0);
}

#[test]
fn idle_enemy_patrols_after_pause() {
    let mut b = EnemyBrain::spawn();
    b.decide(false, FAR, 1_999_999_999);
    assert_eq!(b.state, EnemyState::Idle);
    b.decide(false, FAR, 1);
    assert_eq!(b.state, EnemyState::Patrol);
}

#[test]
fn patrolling_enemy_spots_player() {
    let mut b = EnemyBrain::spawn();
    b.decide(false, FAR, IDLE_PAUSE_NS);
    assert_eq!(b.state, EnemyState::Patrol);
    b.decide(false, FAR, FRAME);
    assert_eq!(b.state, EnemyState::Patrol);
    b.decide(false, SEEN, FRAME);
    assert_eq!(b.state, EnemyState::Chase);
}

#[test]
fn chase_attack_and_cooldown() {
    let mut b = EnemyBrain::spawn();
    b.decide(false, SEEN, FRAME);
    assert_eq!(b.state, EnemyState::Chase);
    b.decide(false, CLOSE, FRAME);
    assert_eq!(b.state, EnemyState::Attacking);
    assert_eq!(b.attack_timer, Some(GameTimer { duration_ns: ATTACK_DURATION_NS, elapsed_ns: 0 }));
    b.decide(false, CLOSE, 200_000_000);
    assert_eq!(b.state, EnemyState::Attacking);
    assert_eq!(b.attack_timer.unwrap().elapsed_ns, 200_000_000);
    b.decide(false, CLOSE, 300_000_000);
    assert_eq!(b.state, EnemyState::Chase);
    assert_eq!(b.cooldown.elapsed_ns, 0);
    assert_eq!(b.attack_timer, None);
    // the cooldown blocks an immediate second attack
    b.decide(false, CLOSE, FRAME);
    assert_eq!(b.state, EnemyState::Chase);
    b.decide(false, CLOSE, ATTACK_COOLDOWN_NS);
    assert_eq!(b.state, EnemyState::Attacking);
}

#[test]
fn chasing_enemy_gives_up() {
    let mut b = EnemyBrain::spawn();
    b.idle_timer.tick(1_000_000_000);
    b.decide(false, SEEN, FRAME);
    assert_eq!(b.state, EnemyState::Chase);
    b.decide(false, MID, FRAME);
    assert_eq!(b.state, EnemyState::Chase);
    b.decide(false, FAR, FRAME);
    assert_eq!(b.state, EnemyState::Idle);
    assert_eq!(b.idle_timer.elapsed_ns, 0);
}

#[test]
fn dying_enemy_reported_once() {
    let mut b = EnemyBrain::spawn();
    b.decide(false, SEEN, FRAME);
    let before = b;
    assert!(b.decide(true, SEEN, FRAME));
    assert_eq!(b.state, EnemyState::Dead);
    assert_eq!(b.cooldown, before.cooldown);
    assert_eq!(b.idle_timer, before.idle_timer);
    assert!(!b.decide(true, CLOSE, FRAME));
    assert_eq!(b.state, EnemyState::Dead);
    assert!(!b.decide(false, CLOSE, FRAME));
    assert_eq!(b.state, EnemyState::Dead);
}

#[test]
fn dead_enemy_keeps_attack_timer() {
    let mut b = EnemyBrain::spawn();
    b.decide(false, SEEN, FRAME);
    b.decide(false, CLOSE, FRAME);
    assert!(b.attack_timer.is_some());
    assert!(b.decide(true, CLOSE, FRAME));
    assert!(b.attack_timer.is_some());
    b.decide(false, CLOSE, FRAME);
    assert!(b.attack_timer.is_some());
}

#[test]
fn attacking_without_timer_gets_one() {
    let mut b = EnemyBrain::spawn();
    b.state = EnemyState::Attacking;
    b.decide(false, CLOSE, FRAME);
    assert_eq!(b.state, EnemyState::Attacking);
    assert_eq!(b.attack_timer, Some(GameTimer { duration_ns: ATTACK_DURATION_NS, elapsed_ns: 0 }));
}

#[test]
fn patrol_turns_at_route_ends() {
    let m = plan_enemy_motion(EnemyState::Patrol, false, Facing::Left, true, false, false);
    assert_eq!(m, EnemyMotion { gait: Gait::Patrol, patrol_heading: Facing::Right, flip_x: Some(false), anim: Anim::Walk });
    let m = plan_enemy_motion(EnemyState::Patrol, false, Facing::Right, false, true, false);
    assert_eq!(m.patrol_heading, Facing::Left);
    assert_eq!(m.flip_x, Some(true));
    let m = plan_enemy_motion(EnemyState::Patrol, false, Facing::Left, false, false, false);
    assert_eq!(m.patrol_heading, Facing::Left);
    let m = plan_enemy_motion(EnemyState::Patrol, false, Facing::Left, true, true, false);
    assert_eq!(m.patrol_heading, Facing::Right);
}

#[test]
fn chase_faces_player() {
    let m = plan_enemy_motion(EnemyState::Chase, false, Facing::Right, false, false, true);
    assert_eq!(m, EnemyMotion { gait: Gait::Chase, patrol_heading: Facing::Right, flip_x: Some(true), anim: Anim::Walk });
}

#[test]
fn other_states_stand_still() {
    for s in [EnemyState::Idle, EnemyState::Attacking, EnemyState::Dead] {
        let m = plan_enemy_motion(s, false, Facing::Left, true, true, true);
        assert_eq!(m, EnemyMotion { gait: Gait::Still, patrol_heading: Facing::Left, flip_x: None, anim: Anim::Idle });
    }
}

#[test]
fn tier_caps() {
    assert_eq!(max_ground_enemies(0), 2);
    assert_eq!(max_ground_enemies(1), 3);
    assert_eq!(max_ground_enemies(2), 4);
    assert_eq!(max_ground_enemies(9), 4);
    assert_eq!(max_flyers(0), 0);
    assert_eq!(max_flyers(1), 1);
    assert_eq!(max_flyers(2), 2);
    assert_eq!(max_flyers(7), 2);
}

#[test]
fn flyers_from_chunk_five() {
    assert!(!flyers_allowed(4));
    assert!(flyers_allowed(5));
    assert!(flyers_allowed(12));
    assert!(!flyers_allowed(-3));
}

#[test]
fn ground_budget_caps_spawns() {
    let mut b = GroundSpawnBudget::for_tier(0);
    assert_eq!(b.cap, 2);
    assert!(!b.is_full());
    assert_eq!(b.consider(false, true), None);
    assert_eq!(b.consider(true, false), None);
    assert_eq!(b.consider(true, true), Some(0));
    assert!(!b.is_full());
    assert_eq!(b.consider(true, true), Some(1));
    assert!(b.is_full());
    assert_eq!(b.spawned, 2);
}

#[test]
fn staggered_enemy_keeps_its_velocity() {
    for s in [EnemyState::Idle, EnemyState::Patrol, EnemyState::Chase, EnemyState::Attacking, EnemyState::Dead] {
        let m = plan_enemy_motion(s, true, Facing::Left, false, false, true);
        assert_eq!(m.gait, Gait::Keep);
        assert_eq!(m.patrol_heading, Facing::Left);
    }
    // heading, flip and animation are still chosen as usual
    let m = plan_enemy_motion(EnemyState::Patrol, true, Facing::Left, true, false, false);
    assert_eq!(m, EnemyMotion { gait: Gait::Keep, patrol_heading: Facing::Right, flip_x: Some(false), anim: Anim::Walk });
    let m = plan_enemy_motion(EnemyState::Chase, true, Facing::Right, false, false, true);
    assert_eq!(m, EnemyMotion { gait: Gait::Keep, patrol_heading: Facing::Right, flip_x: Some(true), anim: Anim::Walk });
    let m = plan_enemy_motion(EnemyState::Idle, true, Facing::Left, false, false, false);
    assert_eq!(m, EnemyMotion { gait: Gait::Keep, patrol_heading: Facing::Left, flip_x: None, anim: Anim::Idle });
}
