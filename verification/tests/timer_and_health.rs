use combat2d::health::{
    apply_void_death, check_player_death, lowest_chunk, BestScore, EnemyKillCount, Health, RunStats,
};
use combat2d::timer::GameTimer;

#[test]
fn timer_starts_unfinished() {
    let t = GameTimer::new(500);
    assert_eq!(t.elapsed_ns, 0);
    assert_eq!(t.duration_ns, 500);
    assert!(!t.is_finished());
}

#[test]
fn timer_tick_advances_and_clamps() {
    let mut t = GameTimer::new(500_000_000);
    t.tick(300_000_000);
    assert_eq!(t.elapsed_ns, 300_000_000);
    assert!(!t.is_finished());
    t.tick(300_000_000);
    assert_eq!(t.elapsed_ns, 500_000_000);
    assert!(t.is_finished());
}

#[test]
fn timer_finishes_exactly_at_duration() {
    let mut t = GameTimer::new(10);
    t.tick(9);
    assert!(!t.is_finished());
    t.tick(1);
    assert!(t.is_finished());
    assert_eq!(t.elapsed_ns, 10);
}

#[test]
fn timer_ticks_add_up() {
    let mut a = GameTimer::new(1_000);
    a.tick(250);
    a.tick(400);
    let mut b = GameTimer::new(1_000);
    b.tick(650);
    assert_eq!(a, b);
}

#[test]
fn timer_finished_stays_finished() {
    let mut t = GameTimer::new(100);
    t.tick(150);
    let before = t;
    t.tick(1_000_000);
    assert_eq!(t, before);
    assert!(t.is_finished());
}

#[test]
fn timer_reset_needs_full_duration_again() {
    let mut t = GameTimer::new(100);
    t.tick(100);
    t.reset();
    assert_eq!(t.elapsed_ns, 0);
    assert!(!t.is_finished());
    t.tick(99);
    assert!(!t.is_finished());
    t.tick(1);
    assert!(t.is_finished());
}

#[test]
fn timer_huge_delta_saturates_at_duration() {
    let mut t = GameTimer::new(u64::MAX);
    t.tick(u64::MAX - 1);
    t.tick(u64::MAX);
    assert_eq!(t.elapsed_ns, u64::MAX);
    assert!(t.is_finished());
}

#[test]
fn health_new_is_full() {
    let h = Health::new(100);
    assert_eq!(h.current, 100);
    assert_eq!(h.max, 100);
    assert!(!h.is_dead());
}

#[test]
fn health_damage_and_death() {
    let mut h = Health::new(60);
    h.take_damage(34);
    assert_eq!(h.current, 26);
    assert!(!h.is_dead());
    h.take_damage(34);
    assert_eq!(h.current, -8);
    assert!(h.is_dead());
    h.take_damage(34);
    assert_eq!(h.current, -42);
    assert!(h.is_dead());
    assert_eq!(h.max, 60);
}

#[test]
fn health_zero_is_dead() {
    let mut h = Health::new(15);
    h.take_damage(15);
    assert_eq!(h.current, 0);
    assert!(h.is_dead());
}

#[test]
fn health_damage_bottoms_out() {
    let mut h = Health { current: i32::MIN + 5, max: 100 };
    h.take_damage(34);
    assert_eq!(h.current, i32::MIN);
}

#[test]
fn health_kill_sets_zero() {
    let mut h = Health::new(100);
    h.kill();
    assert_eq!(h.current, 0);
    assert_eq!(h.max, 100);
    assert!(h.is_dead());
}

#[test]
fn kill_count_counts() {
    let mut k = EnemyKillCount::default();
    assert_eq!(k.0, 0);
    k.record_kill();
    k.record_kill();
    assert_eq!(k.0, 2);
}

#[test]
fn best_score_default_is_zero() {
    assert_eq!(BestScore::default().height_meters, 0);
}

#[test]
fn best_score_records_new_best() {
    let mut best = BestScore { height_meters: 12 };
    let stats = best.record_run(30, Some(4));
    assert_eq!(stats, RunStats { height_meters: 30, enemies_killed: 4, is_new_best: true });
    assert_eq!(best.height_meters, 30);
}

#[test]
fn best_score_keeps_higher_best() {
    let mut best = BestScore { height_meters: 30 };
    let stats = best.record_run(30, None);
    assert_eq!(stats, RunStats { height_meters: 30, enemies_killed: 0, is_new_best: false });
    assert_eq!(best.height_meters, 30);
    let stats = best.record_run(7, Some(1));
    assert!(!stats.is_new_best);
    assert_eq!(best.height_meters, 30);
}

#[test]
fn player_death_ends_run() {
    let mut best = BestScore { height_meters: 5 };
    let dead = Health { current: -3, max: 100 };
    let r = check_player_death(&dead, 9, Some(2), &mut best);
    assert_eq!(r, Some(RunStats { height_meters: 9, enemies_killed: 2, is_new_best: true }));
    assert_eq!(best.height_meters, 9);
}

#[test]
fn living_player_does_not_end_run() {
    let mut best = BestScore { height_meters: 5 };
    let alive = Health::new(1);
    assert_eq!(check_player_death(&alive, 90, Some(2), &mut best), None);
    assert_eq!(best.height_meters, 5);
}

#[test]
fn lowest_chunk_of_empty_is_zero() {
    assert_eq!(lowest_chunk(&vec![]), 0);
}

#[test]
fn lowest_chunk_finds_minimum() {
    assert_eq!(lowest_chunk(&vec![3, -2, 7, 0]), -2);
    assert_eq!(lowest_chunk(&vec![4]), 4);
    assert_eq!(lowest_chunk(&vec![5, 1, 9]), 1);
}

#[test]
fn void_kills_living_player_below_line() {
    let mut p = Health::new(100);
    apply_void_death(&mut p, true);
    assert_eq!(p.current, 0);
    let mut q = Health::new(100);
    apply_void_death(&mut q, false);
    assert_eq!(q.current, 100);
}

#[test]
fn void_leaves_dead_player_alone() {
    let mut p = Health { current: -20, max: 100 };
    apply_void_death(&mut p, true);
    assert_eq!(p.current, -20);
}
