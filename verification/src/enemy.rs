use vstd::prelude::*;
use crate::motion::Anim;
use crate::player::Facing;
use crate::timer::GameTimer;

verus! {

/// Pause an idle ground enemy waits before it starts patrolling.
pub const IDLE_PAUSE_NS: u64 = 2_000_000_000;

/// Time a ground enemy must wait between two attacks.
pub const ATTACK_COOLDOWN_NS: u64 = 1_500_000_000;

/// Length of a ground enemy's attack.
pub const ATTACK_DURATION_NS: u64 = 500_000_000;

/// Time a dead enemy stays on screen while it fades out.
pub const DEATH_FADE_NS: u64 = 2_000_000_000;

/// Ground enemies walk platforms; flying enemies swoop from the air.
#[derive(Clone, Copy, Debug, PartialEq, Eq, Structural)]
pub enum EnemyKind {
    Ground,
    Flying,
}

/// Behaviour state of a ground enemy.
#[derive(Clone, Copy, Debug, PartialEq, Eq, Structural)]
pub enum EnemyState {
    Idle,
    Patrol,
    Chase,
    Attacking,
    Dead,
}

impl Default for EnemyState {
    fn default() -> (r: EnemyState)
        ensures
            r == EnemyState::Idle,
    {
        EnemyState::Idle
    }
}

/// Phase of a flying enemy: hover, then swoop at the player, then retreat.
#[derive(Clone, Copy, Debug, PartialEq, Eq, Structural)]
pub enum FlyingState {
    Hover,
    Swoop,
    Retreat,
}

impl Default for FlyingState {
    fn default() -> (r: FlyingState)
        ensures
            r == FlyingState::Hover,
    {
        FlyingState::Hover
    }
}

/// Where the player stands relative to an enemy this frame: within sight
/// (detection range), within arm's reach (melee range), and past the
/// distance at which a chasing enemy gives up.
#[derive(Clone, Copy, Debug, PartialEq, Eq)]
pub struct Proximity {
    pub within_detection: bool,
    pub within_melee: bool,
    pub beyond_drop_off: bool,
}

/// Everything the behaviour of one ground enemy depends on besides the
/// player's position: its state, the pause before patrolling, the attack
/// cooldown, and the timer of the attack in progress (present only while
/// it attacks).
#[derive(Clone, Copy, Debug, PartialEq, Eq)]
pub struct EnemyBrain {
    pub state: EnemyState,
    pub idle_timer: GameTimer,
    pub cooldown: GameTimer,
    pub attack_timer: Option<GameTimer>,
}

impl EnemyBrain {
    pub open spec fn wf(self) -> bool {
        &&& self.idle_timer.wf()
        &&& self.cooldown.wf()
        &&& (self.attack_timer matches Some(t) ==> t.wf())
    }

    /// The brain after reacting to the player for one frame (the enemy is
    /// alive): the cooldown runs every frame, and each state has its own
    /// transitions.
    pub open spec fn reacted(self, near: Proximity, delta_ns: u64) -> EnemyBrain {
        let b = EnemyBrain { cooldown: self.cooldown.ticked(delta_ns), ..self };
        match b.state {
            EnemyState::Idle => if near.within_detection {
                EnemyBrain { state: EnemyState::Chase, ..b }
            } else {
                let idle = b.idle_timer.ticked(delta_ns);
                EnemyBrain {
                    state: if idle.finished() { EnemyState::Patrol } else { EnemyState::Idle },
                    idle_timer: idle,
                    ..b
                }
            },
            EnemyState::Patrol => if near.within_detection {
                EnemyBrain { state: EnemyState::Chase, ..b }
            } else {
                b
            },
            EnemyState::Chase => if near.within_melee && b.cooldown.finished() {
                EnemyBrain { state: EnemyState::Attacking, ..b }
            } else if near.beyond_drop_off {
                EnemyBrain { state: EnemyState::Idle, idle_timer: b.idle_timer.restarted(), ..b }
            } else {
                b
            },
            EnemyState::Attacking => match b.attack_timer {
                Some(t) => {
                    let t2 = t.ticked(delta_ns);
                    if t2.finished() {
                        EnemyBrain {
                            state: EnemyState::Chase,
                            attack_timer: Some(t2),
                            cooldown: b.cooldown.restarted(),
                            ..b
                        }
                    } else {
                        EnemyBrain { attack_timer: Some(t2), ..b }
                    }
                },
                None => b,
            },
            EnemyState::Dead => b,
        }
    }

    /// The brain with its attack timer matched to its state: an attacking
    /// enemy gets a fresh attack timer if it has none, a dead one keeps
    /// whatever it has, and any other loses it.
    pub open spec fn synced(self) -> EnemyBrain {
        match self.state {
            EnemyState::Attacking => if self.attack_timer is None {
                EnemyBrain {
                    attack_timer: Some(GameTimer { duration_ns: ATTACK_DURATION_NS, elapsed_ns: 0 }),
                    ..self
                }
            } else {
                self
            },
            EnemyState::Dead => self,
            _ => EnemyBrain { attack_timer: None, ..self },
        }
    }

    /// One frame of behaviour. A dead enemy turns `Dead` (reporting the
    /// death the first time) and nothing else changes; a living one reacts
    /// to the player and then has its attack timer matched to its state.
    pub open spec fn step(self, is_dead: bool, near: Proximity, delta_ns: u64) -> (EnemyBrain, bool) {
        if is_dead {
            if self.state is Dead {
                (self, false)
            } else {
                (EnemyBrain { state: EnemyState::Dead, ..self }, true)
            }
        } else {
            (self.reacted(near, delta_ns).synced(), false)
        }
    }

    /// A freshly spawned ground enemy: idle, with its attack cooldown
    /// already run out so that it may attack at once, and no attack in
    /// progress.
    pub fn spawn() -> (b: EnemyBrain)
        ensures
            b.wf(),
            b.state == EnemyState::Idle,
            b.idle_timer == (GameTimer { duration_ns: IDLE_PAUSE_NS, elapsed_ns: 0 }),
            b.cooldown == (GameTimer { duration_ns: ATTACK_COOLDOWN_NS, elapsed_ns: ATTACK_COOLDOWN_NS }),
            b.attack_timer is None,
    {
        let idle_timer = GameTimer::new(IDLE_PAUSE_NS);
        let mut cooldown = GameTimer::new(ATTACK_COOLDOWN_NS);
        cooldown.tick(2_000_000_000);
        EnemyBrain { state: EnemyState::Idle, idle_timer, cooldown, attack_timer: None }
    }

    fn sync_attack_timer(&mut self)
        requires
            old(self).wf(),
        ensures
            final(self).wf(),
            *final(self) == old(self).synced(),
    {
        match self.state {
            EnemyState::Attacking => {
                if self.attack_timer.is_none() {
                    self.attack_timer = Some(GameTimer::new(ATTACK_DURATION_NS));
                }
            },
            EnemyState::Dead => {},
            _ => {
                self.attack_timer = None;
            },
        }
    }

    /// Runs one frame of behaviour: `is_dead` says whether the enemy's hit
    /// points are gone, `near` where the player is, and `delta_ns` how much
    /// time passed. Returns whether the enemy died this frame.
    pub fn decide(&mut self, is_dead: bool, near: Proximity, delta_ns: u64) -> (died: bool)
        requires
            old(self).wf(),
        ensures
            final(self).wf(),
            (*final(self), died) == old(self).step(is_dead, near, delta_ns),
    {
        if is_dead {
            match self.state {
                EnemyState::Dead => {
                    return false;
                },
                _ => {
                    self.state = EnemyState::Dead;
                    return true;
                },
            }
        }
        self.cooldown.tick(delta_ns);
        match self.state {
            EnemyState::Idle => {
                if near.within_detection {
                    self.state = EnemyState::Chase;
                } else {
                    self.idle_timer.tick(delta_ns);
                    if self.idle_timer.is_finished() {
                        self.state = EnemyState::Patrol;
                    }
                }
            },
            EnemyState::Patrol => {
                if near.within_detection {
                    self.state = EnemyState::Chase;
                }
            },
            EnemyState::Chase => {
                if near.within_melee && self.cooldown.is_finished() {
                    self.state = EnemyState::Attacking;
                } else if near.beyond_drop_off {
                    self.state = EnemyState::Idle;
                    self.idle_timer.reset();
                }
            },
            EnemyState::Attacking => {
                if let Some(t) = self.attack_timer {
                    let mut t2 = t;
                    t2.tick(delta_ns);
                    self.attack_timer = Some(t2);
                    if t2.is_finished() {
                        self.state = EnemyState::Chase;
                        self.cooldown.reset();
                    }
                }
            },
            EnemyState::Dead => {},
        }
        self.sync_attack_timer();
        false
    }
}


/// How a ground enemy moves this frame: standing still, walking its patrol
/// route, running at the player, or keeping the velocity it has (while it
/// staggers from a hit, so that the knockback plays out).
#[derive(Clone, Copy, Debug, PartialEq, Eq, Structural)]
pub enum Gait {
    Keep,
    Still,
    Patrol,
    Chase,
}

/// The movement chosen for a ground enemy: its gait, the direction of its
/// patrol afterwards, how to flip its sprite (`Some(true)` faces left,
/// `None` leaves it), and which animation to play.
#[derive(Clone, Copy, Debug, PartialEq, Eq)]
pub struct EnemyMotion {
    pub gait: Gait,
    pub patrol_heading: Facing,
    pub flip_x: Option<bool>,
    pub anim: Anim,
}

/// Chooses how a ground enemy moves. `staggered` says whether it is
/// staggering from a hit, `at_left_bound` / `at_right_bound` whether it
/// stands at or past an end of its patrol route, and `player_to_left`
/// whether the player is to its left. A patrolling enemy turns right at the
/// left end and left at the right end, a chasing one faces the player, and
/// the others stand still. Staggering only pauses the velocity the behaviour
/// sets: a staggering enemy keeps its velocity, while its patrol direction,
/// sprite flip and animation are chosen as usual.
pub fn plan_enemy_motion(
    state: EnemyState,
    staggered: bool,
    heading: Facing,
    at_left_bound: bool,
    at_right_bound: bool,
    player_to_left: bool,
) -> (m: EnemyMotion)
    ensures
        m.anim == (if state is Patrol || state is Chase {
            Anim::Walk
        } else {
            Anim::Idle
        }),
        staggered ==> m.gait == Gait::Keep,
        state is Patrol ==> {
            let h = if at_left_bound {
                Facing::Right
            } else if at_right_bound {
                Facing::Left
            } else {
                heading
            };
            &&& !staggered ==> m.gait == Gait::Patrol
            &&& m.patrol_heading == h
            &&& m.flip_x == Some(h == Facing::Left)
        },
        state is Chase ==> (!staggered ==> m.gait == Gait::Chase) && m.patrol_heading == heading
            && m.flip_x == Some(player_to_left),
        !(state is Patrol) && !(state is Chase) ==> (!staggered ==> m.gait == Gait::Still)
            && m.patrol_heading == heading && m.flip_x is None,
{
    let planned = match state {
        EnemyState::Patrol => {
            let h = if at_left_bound {
                Facing::Right
            } else if at_right_bound {
                Facing::Left
            } else {
                heading
            };
            let left = match h {
                Facing::Left => true,
                Facing::Right => false,
            };
            EnemyMotion { gait: Gait::Patrol, patrol_heading: h, flip_x: Some(left), anim: Anim::Walk }
        },
        EnemyState::Chase => EnemyMotion {
            gait: Gait::Chase,
            patrol_heading: heading,
            flip_x: Some(player_to_left),
            anim: Anim::Walk,
        },
        _ => EnemyMotion { gait: Gait::Still, patrol_heading: heading, flip_x: None, anim: Anim::Idle },
    };
    if staggered {
        EnemyMotion { gait: Gait::Keep, ..planned }
    } else {
        planned
    }
}

/// No flying enemy appears in a chunk below this index.
pub const FLYER_MIN_CHUNK: i32 = 5;

/// Most ground enemies a chunk of the given difficulty tier may hold.
pub open spec fn ground_cap(tier: u32) -> nat {
    if tier == 0 {
        2
    } else if tier == 1 {
        3
    } else {
        4
    }
}

/// Most flying enemies a chunk of the given difficulty tier may hold.
pub open spec fn flyer_cap(tier: u32) -> nat {
    if tier == 0 {
        0
    } else if tier == 1 {
        1
    } else {
        2
    }
}

/// The number of ground enemies a chunk of difficulty `tier` may hold.
pub fn max_ground_enemies(tier: u32) -> (n: usize)
    ensures
        n == ground_cap(tier),
{
    match tier {
        0 => 2,
        1 => 3,
        2 => 4,
        _ => 4,
    }
}

/// The number of flying enemies a chunk of difficulty `tier` may try to
/// spawn.
pub fn max_flyers(tier: u32) -> (n: usize)
    ensures
        n == flyer_cap(tier),
{
    match tier {
        0 => 0,
        1 => 1,
        2 => 2,
        _ => 2,
    }
}

/// Whether flying enemies may appear in the chunk with this index.
pub fn flyers_allowed(chunk_index: i32) -> (r: bool)
    ensures
        r == (chunk_index >= FLYER_MIN_CHUNK),
{
    chunk_index >= FLYER_MIN_CHUNK
}

/// Counts the ground enemies placed in one chunk against the chunk's cap.
#[derive(Clone, Copy, Debug, PartialEq, Eq)]
pub struct GroundSpawnBudget {
    pub cap: usize,
    pub spawned: usize,
}

impl GroundSpawnBudget {
    pub open spec fn wf(self) -> bool {
        self.spawned <= self.cap
    }

    /// An empty budget for a chunk of difficulty `tier`.
    pub fn for_tier(tier: u32) -> (b: GroundSpawnBudget)
        ensures
            b.wf(),
            b.cap == ground_cap(tier),
            b.spawned == 0,
    {
        GroundSpawnBudget { cap: max_ground_enemies(tier), spawned: 0 }
    }

    /// Whether the chunk already holds as many ground enemies as it may.
    pub fn is_full(&self) -> (r: bool)
        ensures
            r == (self.spawned >= self.cap),
    {
        self.spawned >= self.cap
    }

    /// Considers the next platform: it gets an enemy when its spawn roll
    /// passed and it is wide enough to patrol. Returns the new enemy's
    /// number within the chunk.
    pub fn consider(&mut self, roll_passed: bool, wide_enough: bool) -> (r: Option<usize>)
        requires
            old(self).wf(),
            old(self).spawned < old(self).cap,
        ensures
            final(self).wf(),
            final(self).cap == old(self).cap,
            roll_passed && wide_enough ==> r == Some(old(self).spawned) && final(self).spawned
                == old(self).spawned + 1,
            !(roll_passed && wide_enough) ==> r is None && final(self).spawned == old(self).spawned,
    {
        if !roll_passed {
            return None;
        }
        if !wide_enough {
            return None;
        }
        let n = self.spawned;
        self.spawned = self.spawned + 1;
        Some(n)
    }
}


/// A frame of behaviour keeps the brain well formed.
pub proof fn law_step_keeps_wf(b: EnemyBrain, is_dead: bool, near: Proximity, delta_ns: u64)
    requires
        b.wf(),
    ensures
        b.step(is_dead, near, delta_ns).0.wf(),
{
}

/// `Dead` is final: a dead enemy stays dead and its death is not reported
/// again.
pub proof fn law_dead_is_final(b: EnemyBrain, is_dead: bool, near: Proximity, delta_ns: u64)
    requires
        b.state is Dead,
    ensures
        b.step(is_dead, near, delta_ns).0.state is Dead,
        !b.step(is_dead, near, delta_ns).1,
{
}

/// An enemy without hit points is `Dead` after the frame, with its timers
/// untouched; its death is reported exactly when it was not dead before.
pub proof fn law_death_reported_once(b: EnemyBrain, near: Proximity, delta_ns: u64)
    ensures
        b.step(true, near, delta_ns).0.state is Dead,
        b.step(true, near, delta_ns).1 <==> !(b.state is Dead),
        b.step(true, near, delta_ns).0.idle_timer == b.idle_timer,
        b.step(true, near, delta_ns).0.cooldown == b.cooldown,
        b.step(true, near, delta_ns).0.attack_timer == b.attack_timer,
{
}

/// A living enemy's death is never reported.
pub proof fn law_no_death_while_alive(b: EnemyBrain, near: Proximity, delta_ns: u64)
    ensures
        !b.step(false, near, delta_ns).1,
        b.step(false, near, delta_ns).0.state is Dead <==> b.state is Dead,
{
}

/// After a frame of a living enemy, an attack timer exists exactly while it
/// attacks.
pub proof fn law_attack_timer_matches_state(b: EnemyBrain, near: Proximity, delta_ns: u64)
    requires
        !(b.state is Dead),
    ensures
        b.step(false, near, delta_ns).0.state is Attacking <==> b.step(
            false,
            near,
            delta_ns,
        ).0.attack_timer is Some,
{
}

/// An enemy starts attacking only from a chase, with the player within
/// reach and its cooldown run out.
pub proof fn law_attack_needs_ready_chase(b: EnemyBrain, is_dead: bool, near: Proximity, delta_ns: u64)
    requires
        b.step(is_dead, near, delta_ns).0.state is Attacking,
        !(b.state is Attacking),
    ensures
        !is_dead,
        b.state is Chase,
        near.within_melee,
        b.cooldown.ticked(delta_ns).finished(),
{
}

/// Ending an attack starts the cooldown over.
pub proof fn law_attack_end_restarts_cooldown(b: EnemyBrain, near: Proximity, delta_ns: u64)
    requires
        b.wf(),
        b.state is Attacking,
        b.step(false, near, delta_ns).0.state is Chase,
    ensures
        b.step(false, near, delta_ns).0.cooldown == b.cooldown.restarted(),
        !b.step(false, near, delta_ns).0.cooldown.finished(),
{
}

/// No back-to-back attacks: after an attack ends, the next frame can start
/// another only if that frame alone lasts the whole cooldown.
pub proof fn law_no_back_to_back_attacks(
    b: EnemyBrain,
    near1: Proximity,
    delta1: u64,
    is_dead2: bool,
    near2: Proximity,
    delta2: u64,
)
    requires
        b.wf(),
        b.state is Attacking,
        b.step(false, near1, delta1).0.state is Chase,
        b.step(false, near1, delta1).0.step(is_dead2, near2, delta2).0.state is Attacking,
    ensures
        delta2 >= b.cooldown.duration_ns,
{
    law_attack_end_restarts_cooldown(b, near1, delta1);
}

/// An idle enemy that does not see the player starts patrolling exactly
/// when its pause has run out.
pub proof fn law_patrol_after_pause(b: EnemyBrain, near: Proximity, delta_ns: u64)
    requires
        b.state is Idle,
        !near.within_detection,
    ensures
        b.step(false, near, delta_ns).0.state is Patrol <==> b.idle_timer.ticked(delta_ns).finished(),
        !(b.step(false, near, delta_ns).0.state is Patrol) ==> b.step(false, near, delta_ns).0.state is Idle,
{
}

/// A chasing enemy that loses the player goes idle with its pause started
/// over.
pub proof fn law_giving_up_restarts_pause(b: EnemyBrain, near: Proximity, delta_ns: u64)
    requires
        b.state is Chase,
        b.step(false, near, delta_ns).0.state is Idle,
    ensures
        near.beyond_drop_off,
        b.step(false, near, delta_ns).0.idle_timer == b.idle_timer.restarted(),
{
}


/// A patrolling enemy starts chasing exactly when the player comes within
/// detection range; otherwise it keeps patrolling.
pub proof fn law_patrol_chases_only_in_sight(b: EnemyBrain, near: Proximity, delta_ns: u64)
    requires
        b.state is Patrol,
    ensures
        near.within_detection ==> b.step(false, near, delta_ns).0.state is Chase,
        !near.within_detection ==> b.step(false, near, delta_ns).0.state is Patrol,
{
}

/// An idle enemy that sees the player starts chasing at once, without
/// running its pause.
pub proof fn law_idle_chases_in_sight(b: EnemyBrain, near: Proximity, delta_ns: u64)
    requires
        b.state is Idle,
        near.within_detection,
    ensures
        b.step(false, near, delta_ns).0.state is Chase,
        b.step(false, near, delta_ns).0.idle_timer == b.idle_timer,
{
}

/// A chasing enemy attacks when the player is within reach and its
/// cooldown (run for this frame) is over; failing that it gives up when the
/// player is past the drop-off; otherwise it keeps chasing.
pub proof fn law_chase_outcomes(b: EnemyBrain, near: Proximity, delta_ns: u64)
    requires
        b.state is Chase,
    ensures
        near.within_melee && b.cooldown.ticked(delta_ns).finished() ==> b.step(false, near, delta_ns).0.state is Attacking,
        !(near.within_melee && b.cooldown.ticked(delta_ns).finished()) && near.beyond_drop_off ==> b.step(
            false,
            near,
            delta_ns,
        ).0.state is Idle,
        !(near.within_melee && b.cooldown.ticked(delta_ns).finished()) && !near.beyond_drop_off ==> b.step(
            false,
            near,
            delta_ns,
        ).0.state is Chase,
{
}

/// An attack runs to its end whatever the player does: the enemy stays
/// `Attacking` with its attack timer advanced by the frame until that timer
/// finishes, and then returns to the chase.
pub proof fn law_attack_runs_to_end(b: EnemyBrain, t: GameTimer, near: Proximity, delta_ns: u64)
    requires
        b.state is Attacking,
        b.attack_timer == Some(t),
    ensures
        !t.ticked(delta_ns).finished() ==> b.step(false, near, delta_ns).0.state is Attacking
            && b.step(false, near, delta_ns).0.attack_timer == Some(t.ticked(delta_ns)),
        t.ticked(delta_ns).finished() ==> b.step(false, near, delta_ns).0.state is Chase,
{
}

/// The attack cooldown of a living enemy runs every frame, in every state;
/// the only other change to it is the restart when an attack ends.
pub proof fn law_cooldown_always_runs(b: EnemyBrain, near: Proximity, delta_ns: u64)
    ensures
        !(b.state is Attacking && b.step(false, near, delta_ns).0.state is Chase) ==> b.step(
            false,
            near,
            delta_ns,
        ).0.cooldown == b.cooldown.ticked(delta_ns),
        b.state is Attacking && b.step(false, near, delta_ns).0.state is Chase ==> b.step(
            false,
            near,
            delta_ns,
        ).0.cooldown == b.cooldown.restarted(),
{
}

/// The pause before patrolling only runs while the enemy is idle, and is
/// only started over when a chasing enemy gives up.
pub proof fn law_idle_pause_only_runs_when_idle(b: EnemyBrain, near: Proximity, delta_ns: u64)
    requires
        !(b.state is Idle),
        !(b.state is Chase && b.step(false, near, delta_ns).0.state is Idle),
    ensures
        b.step(false, near, delta_ns).0.idle_timer == b.idle_timer,
{
}

/// A chunk holds between 2 and 4 ground enemies: 2 at tier 0, 3 at tier 1,
/// and 4 from tier 2 on; the cap never falls as the tier rises.
pub proof fn law_ground_cap_by_tier(tier: u32, higher: u32)
    ensures
        2 <= ground_cap(tier) <= 4,
        tier == 0 ==> ground_cap(tier) == 2,
        tier == 1 ==> ground_cap(tier) == 3,
        tier >= 2 ==> ground_cap(tier) == 4,
        tier <= higher ==> ground_cap(tier) <= ground_cap(higher),
{
}

/// A chunk gets at most 2 flying enemies: none at tier 0, 1 at tier 1, and
/// 2 from tier 2 on; the cap never falls as the tier rises.
pub proof fn law_flyer_cap_by_tier(tier: u32, higher: u32)
    ensures
        flyer_cap(tier) <= 2,
        tier == 0 ==> flyer_cap(tier) == 0,
        tier == 1 ==> flyer_cap(tier) == 1,
        tier >= 2 ==> flyer_cap(tier) == 2,
        tier <= higher ==> flyer_cap(tier) <= flyer_cap(higher),
{
}


/// An idle enemy that does not see the player runs its pause by the frame.
pub proof fn law_idle_pause_runs(b: EnemyBrain, near: Proximity, delta_ns: u64)
    requires
        b.state is Idle,
        !near.within_detection,
    ensures
        b.step(false, near, delta_ns).0.idle_timer == b.idle_timer.ticked(delta_ns),
{
}

/// An enemy that starts an attack gets a fresh attack timer of
/// `ATTACK_DURATION_NS` (a chasing enemy holds none, as every frame leaves
/// it); one found attacking without a timer gets one too and keeps
/// attacking.
pub proof fn law_attack_starts_fresh(b: EnemyBrain, near: Proximity, delta_ns: u64)
    ensures
        b.state is Chase && b.attack_timer is None && b.step(false, near, delta_ns).0.state is Attacking
            ==> b.step(
            false,
            near,
            delta_ns,
        ).0.attack_timer == Some(GameTimer { duration_ns: ATTACK_DURATION_NS, elapsed_ns: 0 }),
        b.state is Attacking && b.attack_timer is None ==> b.step(false, near, delta_ns).0.state is Attacking
            && b.step(false, near, delta_ns).0.attack_timer == Some(
            GameTimer { duration_ns: ATTACK_DURATION_NS, elapsed_ns: 0 },
        ),
{
}

/// The state after a frame is reachable from the state before: idle goes
/// to chase or patrol, patrol only to chase, chase to attack or idle, an
/// attack only back to chase, and nothing but death leads to `Dead`.
pub proof fn law_reachable_states(b: EnemyBrain, is_dead: bool, near: Proximity, delta_ns: u64)
    ensures
        ({
            let s = b.step(is_dead, near, delta_ns).0.state;
            &&& s == b.state || is_dead && s is Dead || match b.state {
                EnemyState::Idle => s is Chase || s is Patrol,
                EnemyState::Patrol => s is Chase,
                EnemyState::Chase => s is Attacking || s is Idle,
                EnemyState::Attacking => s is Chase,
                EnemyState::Dead => false,
            }
            &&& s is Dead ==> is_dead || b.state is Dead
        }),
{
}

} // verus!
