use vstd::prelude::*;
use crate::enemy::{EnemyKind, EnemyState, FlyingState};
use crate::health::Health;
use crate::motion::Sign;
use crate::player::Facing;
use crate::timer::GameTimer;

verus! {

/// Hit points a sword swing takes from an enemy.
pub const SWORD_DAMAGE: i32 = 34;

/// Hit points a ground enemy's attack takes from the player.
pub const ENEMY_MELEE_DAMAGE: i32 = 15;

/// Hit points a swooping flyer takes from the player on contact.
pub const FLYER_CONTACT_DAMAGE: i32 = 10;

/// How a struck enemy is thrown back: a flyer is pushed through the air
/// for a short stagger, a ground enemy gets its body velocity set and a
/// longer stagger.
#[derive(Clone, Copy, Debug, PartialEq, Eq, Structural)]
pub enum KnockbackStyle {
    Airborne,
    Grounded,
}

/// What a sword hit did to an enemy: whether this hit killed it (it was
/// alive before and has no hit points left after), how it is knocked back,
/// and in which direction. Striking an enemy that was already dead is not a
/// kill.
#[derive(Clone, Copy, Debug, PartialEq, Eq)]
pub struct StrikeOutcome {
    pub killed: bool,
    pub knockback: KnockbackStyle,
    pub push: Facing,
}

/// An enemy is in front of the player when the offset from the player to
/// the enemy points the way the player faces.
pub open spec fn in_front(facing: Facing, dx: Sign) -> bool {
    match facing {
        Facing::Right => dx is Positive,
        Facing::Left => dx is Negative,
    }
}

/// Flyers are knocked back through the air; anything else (including an
/// enemy of unknown kind) on the ground.
pub open spec fn knockback_for(kind: Option<EnemyKind>) -> KnockbackStyle {
    if kind == Some(EnemyKind::Flying) {
        KnockbackStyle::Airborne
    } else {
        KnockbackStyle::Grounded
    }
}

/// Applies the player's swing to one enemy not yet hit by it. The enemy is
/// hit when it is within reach and in front of the player (`dx` is the sign
/// of its horizontal offset from the player); it then loses
/// `SWORD_DAMAGE` hit points and is pushed the way the player faces.
pub fn strike_enemy(
    facing: Facing,
    within_reach: bool,
    dx: Sign,
    kind: Option<EnemyKind>,
    enemy: &mut Health,
) -> (r: Option<StrikeOutcome>)
    ensures
        within_reach && in_front(facing, dx) ==> {
            &&& *final(enemy) == old(enemy).damaged(SWORD_DAMAGE)
            &&& r == Some(
                StrikeOutcome {
                    killed: !old(enemy).dead() && final(enemy).dead(),
                    knockback: knockback_for(kind),
                    push: facing,
                },
            )
        },
        !(within_reach && in_front(facing, dx)) ==> r is None && *final(enemy) == *old(enemy),
{
    if !within_reach {
        return None;
    }
    let front = match facing {
        Facing::Right => match dx {
            Sign::Positive => true,
            _ => false,
        },
        Facing::Left => match dx {
            Sign::Negative => true,
            _ => false,
        },
    };
    if !front {
        return None;
    }
    let was_alive = !enemy.is_dead();
    enemy.take_damage(SWORD_DAMAGE);
    let knockback = match kind {
        Some(EnemyKind::Flying) => KnockbackStyle::Airborne,
        _ => KnockbackStyle::Grounded,
    };
    Some(StrikeOutcome { killed: was_alive && enemy.is_dead(), knockback, push: facing })
}

/// An enemy as seen by the player's current swing: whether the swing has
/// already hit it, whether it is within reach, the sign of its horizontal
/// offset from the player, its kind, and its hit points.
#[derive(Clone, Copy, Debug, PartialEq, Eq)]
pub struct SwingTarget {
    pub already_hit: bool,
    pub within_reach: bool,
    pub dx: Sign,
    pub kind: Option<EnemyKind>,
    pub health: Health,
}

/// The swing hits the target this frame: not hit yet, within reach, in
/// front of the player.
pub open spec fn swing_hits(facing: Facing, t: SwingTarget) -> bool {
    !t.already_hit && t.within_reach && in_front(facing, t.dx)
}

/// The target after one frame of the swing: a target the swing hits loses
/// `SWORD_DAMAGE` hit points and is marked as hit; any other is unchanged.
pub open spec fn after_swing(facing: Facing, t: SwingTarget) -> SwingTarget {
    if swing_hits(facing, t) {
        SwingTarget { already_hit: true, health: t.health.damaged(SWORD_DAMAGE), ..t }
    } else {
        t
    }
}

/// The swing kills the target this frame: it hits a target that was
/// still alive, and leaves it with no hit points.
pub open spec fn swing_kills(facing: Facing, t: SwingTarget) -> bool {
    swing_hits(facing, t) && !t.health.dead() && after_swing(facing, t).health.dead()
}

/// One frame of the player's swing against all enemies. Each enemy is hit
/// at most once per swing: targets already hit are skipped, and every
/// target hit now is marked. Returns, in order, the index and outcome of
/// each target hit this frame.
pub fn resolve_swing(facing: Facing, targets: &mut Vec<SwingTarget>) -> (hits: Vec<(usize, StrikeOutcome)>)
    ensures
        final(targets)@.len() == old(targets)@.len(),
        forall|i: int|
            0 <= i < old(targets)@.len() ==> #[trigger] final(targets)@[i] == after_swing(
                facing,
                old(targets)@[i],
            ),
        forall|k: int|
            0 <= k < hits@.len() ==> {
                let (i, o) = #[trigger] hits@[k];
                &&& i < old(targets)@.len()
                &&& swing_hits(facing, old(targets)@[i as int])
                &&& o == (StrikeOutcome {
                    killed: !old(targets)@[i as int].health.dead() && final(targets)@[i as int].health.dead(),
                    knockback: knockback_for(old(targets)@[i as int].kind),
                    push: facing,
                })
            },
        forall|k1: int, k2: int|
            0 <= k1 < k2 < hits@.len() ==> (#[trigger] hits@[k1]).0 < (#[trigger] hits@[k2]).0,
        forall|i: int|
            0 <= i < old(targets)@.len() && swing_hits(facing, #[trigger] old(targets)@[i]) ==> exists|
                k: int,
            | 0 <= k < hits@.len() && (#[trigger] hits@[k]).0 == i,
{
    let mut hits: Vec<(usize, StrikeOutcome)> = Vec::new();
    let n = targets.len();
    let mut i: usize = 0;
    while i < n
        invariant
            n == old(targets)@.len(),
            targets@.len() == n,
            i <= n,
            forall|j: int| 0 <= j < i ==> #[trigger] targets@[j] == after_swing(facing, old(targets)@[j]),
            forall|j: int| i <= j < n ==> #[trigger] targets@[j] == old(targets)@[j],
            forall|k: int|
                0 <= k < hits@.len() ==> {
                    let (j, o) = #[trigger] hits@[k];
                    &&& j < i
                    &&& swing_hits(facing, old(targets)@[j as int])
                    &&& o == (StrikeOutcome {
                        killed: !old(targets)@[j as int].health.dead() && after_swing(facing, old(targets)@[j as int]).health.dead(),
                        knockback: knockback_for(old(targets)@[j as int].kind),
                        push: facing,
                    })
                },
            forall|k1: int, k2: int|
                0 <= k1 < k2 < hits@.len() ==> (#[trigger] hits@[k1]).0 < (#[trigger] hits@[k2]).0,
            forall|j: int|
                0 <= j < i && swing_hits(facing, #[trigger] old(targets)@[j]) ==> exists|k: int|
                    0 <= k < hits@.len() && (#[trigger] hits@[k]).0 == j,
        decreases n - i,
    {
        let t = targets[i];
        if !t.already_hit {
            let mut h = t.health;
            let r = strike_enemy(facing, t.within_reach, t.dx, t.kind, &mut h);
            match r {
                Some(o) => {
                    let ghost old_hits = hits@;
                    targets.set(i, SwingTarget { already_hit: true, health: h, ..t });
                    hits.push((i, o));
                    assert(hits@[old_hits.len() as int].0 == i);
                    assert forall|j: int|
                        0 <= j < i + 1 && swing_hits(facing, #[trigger] old(targets)@[j]) implies exists|
                            k: int,
                        | 0 <= k < hits@.len() && (#[trigger] hits@[k]).0 == j by {
                        if j < i {
                            let k = choose|k: int| 0 <= k < old_hits.len() && (#[trigger] old_hits[k]).0 == j;
                            assert(hits@[k] == old_hits[k]);
                        } else {
                            assert(hits@[old_hits.len() as int].0 == j);
                        }
                    }
                },
                None => {},
            }
        }
        i = i + 1;
    }
    hits
}

/// A ground enemy that may be hitting the player this frame: its state,
/// whether its attack is at the moment that deals damage, and whether the
/// player is within its reach.
#[derive(Clone, Copy, Debug, PartialEq, Eq)]
pub struct MeleeThreat {
    pub state: EnemyState,
    pub in_strike_window: bool,
    pub within_reach: bool,
}

/// The threat's attack lands on the player.
pub open spec fn melee_lands(t: MeleeThreat) -> bool {
    t.state is Attacking && t.in_strike_window && t.within_reach
}

/// Resolves the ground enemies' attacks on the player for one frame. While
/// the player is being knocked back nothing lands; otherwise the first
/// threat (in order) whose attack lands deals `ENEMY_MELEE_DAMAGE` and the
/// others are ignored. Returns the index of that threat.
pub fn resolve_enemy_melee(player: &mut Health, knocked_back: bool, threats: &Vec<MeleeThreat>) -> (r:
    Option<usize>)
    ensures
        knocked_back ==> r is None && *final(player) == *old(player),
        !knocked_back ==> match r {
            Some(i) => {
                &&& i < threats@.len()
                &&& melee_lands(threats@[i as int])
                &&& forall|j: int| 0 <= j < i ==> !melee_lands(#[trigger] threats@[j])
                &&& *final(player) == old(player).damaged(ENEMY_MELEE_DAMAGE)
            },
            None => {
                &&& forall|j: int| 0 <= j < threats@.len() ==> !melee_lands(#[trigger] threats@[j])
                &&& *final(player) == *old(player)
            },
        },
{
    if knocked_back {
        return None;
    }
    let mut k: usize = 0;
    while k < threats.len()
        invariant
            k <= threats@.len(),
            *player == *old(player),
            !knocked_back,
            forall|j: int| 0 <= j < k ==> !melee_lands(#[trigger] threats@[j]),
        decreases threats@.len() - k,
    {
        let t = threats[k];
        let lands = match t.state {
            EnemyState::Attacking => t.in_strike_window && t.within_reach,
            _ => false,
        };
        if lands {
            player.take_damage(ENEMY_MELEE_DAMAGE);
            return Some(k);
        }
        k = k + 1;
    }
    None
}

/// A flying enemy that may be touching the player this frame: its phase and
/// whether the player is within its contact reach.
#[derive(Clone, Copy, Debug, PartialEq, Eq)]
pub struct SwoopThreat {
    pub state: FlyingState,
    pub within_reach: bool,
}

/// The flyer touches the player during its swoop.
pub open spec fn swoop_lands(t: SwoopThreat) -> bool {
    t.state is Swoop && t.within_reach
}

/// Resolves the flyers' contact damage on the player for one frame. A dead
/// player, or one being knocked back, takes nothing; otherwise the first
/// flyer (in order) that touches the player during its swoop deals
/// `FLYER_CONTACT_DAMAGE` and the others are ignored. Returns its index.
pub fn resolve_swoop_contact(player: &mut Health, knocked_back: bool, threats: &Vec<SwoopThreat>) -> (r:
    Option<usize>)
    ensures
        old(player).dead() || knocked_back ==> r is None && *final(player) == *old(player),
        !old(player).dead() && !knocked_back ==> match r {
            Some(i) => {
                &&& i < threats@.len()
                &&& swoop_lands(threats@[i as int])
                &&& forall|j: int| 0 <= j < i ==> !swoop_lands(#[trigger] threats@[j])
                &&& *final(player) == old(player).damaged(FLYER_CONTACT_DAMAGE)
            },
            None => {
                &&& forall|j: int| 0 <= j < threats@.len() ==> !swoop_lands(#[trigger] threats@[j])
                &&& *final(player) == *old(player)
            },
        },
{
    if player.is_dead() {
        return None;
    }
    if knocked_back {
        return None;
    }
    let mut k: usize = 0;
    while k < threats.len()
        invariant
            k <= threats@.len(),
            *player == *old(player),
            !old(player).dead(),
            !knocked_back,
            forall|j: int| 0 <= j < k ==> !swoop_lands(#[trigger] threats@[j]),
        decreases threats@.len() - k,
    {
        let t = threats[k];
        let lands = match t.state {
            FlyingState::Swoop => t.within_reach,
            _ => false,
        };
        if lands {
            player.take_damage(FLYER_CONTACT_DAMAGE);
            return Some(k);
        }
        k = k + 1;
    }
    None
}

/// Whether pressing attack starts a new swing: only when no swing is under
/// way.
pub fn begins_swing(swinging: bool, attack_just_pressed: bool) -> (r: bool)
    ensures
        r == (!swinging && attack_just_pressed),
{
    !swinging && attack_just_pressed
}

/// Colour tint of a character sprite.
#[derive(Clone, Copy, Debug, PartialEq, Eq, Structural)]
pub enum Tint {
    /// The sprite's own colours.
    Plain,
    /// Flashing red after being hit.
    Hurt,
    /// The player's yellow-white glow while swinging.
    Swinging,
    /// The purple of flying enemies.
    Flyer,
}

/// The player's tint: red while a hit flash lasts, else yellow-white while
/// swinging, else plain.
pub open spec fn player_tint_of(hit_flash: bool, swinging: bool) -> Tint {
    if hit_flash {
        Tint::Hurt
    } else if swinging {
        Tint::Swinging
    } else {
        Tint::Plain
    }
}

/// The player's tint for this frame.
pub fn player_tint(hit_flash: bool, swinging: bool) -> (t: Tint)
    ensures
        t == player_tint_of(hit_flash, swinging),
{
    if hit_flash {
        Tint::Hurt
    } else if swinging {
        Tint::Swinging
    } else {
        Tint::Plain
    }
}

/// A hit flash after `delta_ns` more nanoseconds: its timer runs on, and the
/// flash is gone once the timer has finished.
pub open spec fn flash_after(flash: Option<GameTimer>, delta_ns: u64) -> Option<GameTimer> {
    match flash {
        Some(t) => if t.ticked(delta_ns).finished() {
            None
        } else {
            Some(t.ticked(delta_ns))
        },
        None => None,
    }
}

/// Runs a hit flash (the player's or an enemy's) for one frame and ends it
/// once its timer has finished.
pub fn tick_flash(flash: Option<GameTimer>, delta_ns: u64) -> (r: Option<GameTimer>)
    requires
        flash matches Some(t) ==> t.wf(),
    ensures
        r == flash_after(flash, delta_ns),
        r matches Some(t) ==> t.wf() && !t.finished(),
{
    match flash {
        Some(t) => {
            let mut t2 = t;
            t2.tick(delta_ns);
            if t2.is_finished() {
                None
            } else {
                Some(t2)
            }
        },
        None => None,
    }
}

/// A hit enemy's tint: red until its flash runs out, then back to its own
/// colour (purple for flyers, plain otherwise).
pub fn enemy_flash_tint(flash_finished: bool, kind: Option<EnemyKind>) -> (t: Tint)
    ensures
        !flash_finished ==> t == Tint::Hurt,
        flash_finished ==> t == (if kind == Some(EnemyKind::Flying) {
            Tint::Flyer
        } else {
            Tint::Plain
        }),
{
    if !flash_finished {
        return Tint::Hurt;
    }
    match kind {
        Some(EnemyKind::Flying) => Tint::Flyer,
        _ => Tint::Plain,
    }
}


/// The same swing never hits an enemy twice: a target hit in one frame of
/// a swing is left untouched by every later frame of that swing, wherever
/// it stands and whichever way the player then faces.
pub proof fn law_one_hit_per_swing(facing1: Facing, t: SwingTarget, facing2: Facing, later: SwingTarget)
    requires
        swing_hits(facing1, t),
        later.already_hit == after_swing(facing1, t).already_hit,
    ensures
        after_swing(facing2, later) == later,
{
}

/// A target is hit at most once over two consecutive frames of a swing.
pub proof fn law_swing_damage_once(facing1: Facing, facing2: Facing, t: SwingTarget)
    ensures
        after_swing(facing2, after_swing(facing1, t)).health == (if swing_hits(facing1, t) || swing_hits(
            facing2,
            t,
        ) {
            t.health.damaged(SWORD_DAMAGE)
        } else {
            t.health
        }),
{
}


/// Striking a corpse is not a kill: an enemy already without hit points is
/// never reported killed.
pub proof fn law_corpse_is_not_a_kill(facing: Facing, t: SwingTarget)
    requires
        t.health.dead(),
    ensures
        !swing_kills(facing, t),
{
}

/// An enemy is counted as killed at most once: once a swing has killed it,
/// no later hit on it (by this swing or any other) is a kill again.
pub proof fn law_kill_counted_once(facing1: Facing, t: SwingTarget, facing2: Facing, later: SwingTarget)
    requires
        swing_kills(facing1, t),
        later.health == after_swing(facing1, t).health,
    ensures
        !swing_kills(facing2, later),
{
}


/// A hit flash is brief: a frame that lasts at least the time the flash has
/// left ends it.
pub proof fn law_flash_ends(t: GameTimer, delta_ns: u64)
    requires
        t.wf(),
        delta_ns >= t.duration_ns - t.elapsed_ns,
    ensures
        flash_after(Some(t), delta_ns) is None,
{
}

/// Once the player's hit flash has run for its whole duration over two
/// frames without a new hit, the player is no longer tinted red.
pub proof fn law_player_flash_fades(t: GameTimer, d1: u64, d2: u64, swinging: bool)
    requires
        t.wf(),
        d1 + d2 >= t.duration_ns - t.elapsed_ns,
    ensures
        flash_after(flash_after(Some(t), d1), d2) is None,
        player_tint_of(flash_after(flash_after(Some(t), d1), d2) is Some, swinging) != Tint::Hurt,
{
}


/// A hit flash run frame by frame for the given frame lengths.
pub open spec fn flash_after_frames(flash: Option<GameTimer>, deltas: Seq<u64>) -> Option<GameTimer>
    decreases deltas.len(),
{
    if deltas.len() == 0 {
        flash
    } else {
        flash_after_frames(flash_after(flash, deltas[0]), deltas.drop_first())
    }
}

/// The total length of a sequence of frames.
pub open spec fn total_time(deltas: Seq<u64>) -> int
    decreases deltas.len(),
{
    if deltas.len() == 0 {
        0
    } else {
        deltas[0] + total_time(deltas.drop_first())
    }
}

proof fn lemma_ended_flash_stays_ended(deltas: Seq<u64>)
    ensures
        flash_after_frames(None, deltas) is None,
    decreases deltas.len(),
{
    if deltas.len() > 0 {
        lemma_ended_flash_stays_ended(deltas.drop_first());
    }
}

/// A hit flash is brief: a running flash (its timer not yet finished, as
/// every new flash and every flash `tick_flash` keeps) ends over any run of
/// frames whose total length reaches the time it has left, and the player
/// is then no longer tinted red.
pub proof fn law_flash_fades_over_frames(t: GameTimer, deltas: Seq<u64>, swinging: bool)
    requires
        t.wf(),
        !t.finished(),
        total_time(deltas) >= t.duration_ns - t.elapsed_ns,
    ensures
        flash_after_frames(Some(t), deltas) is None,
        player_tint_of(flash_after_frames(Some(t), deltas) is Some, swinging) != Tint::Hurt,
    decreases deltas.len(),
{
    if deltas.len() > 0 {
        let rest = deltas.drop_first();
        match flash_after(Some(t), deltas[0]) {
            Some(t2) => {
                assert(t2.elapsed_ns == t.elapsed_ns + deltas[0]);
                law_flash_fades_over_frames(t2, rest, swinging);
            },
            None => {
                lemma_ended_flash_stays_ended(rest);
            },
        }
    }
}


/// Only an attacking enemy hits the player: a threat whose enemy is in any
/// other state (a dead one included) never lands, and a landing threat is in
/// its strike window with the player within reach.
pub proof fn law_only_attackers_land(t: MeleeThreat)
    ensures
        !(t.state is Attacking) ==> !melee_lands(t),
        melee_lands(t) ==> t.in_strike_window && t.within_reach,
        t.state is Attacking && t.in_strike_window && t.within_reach ==> melee_lands(t),
{
}

/// Only a swooping flyer touches the player: a flyer hovering or retreating
/// never does, and one that lands has the player within reach.
pub proof fn law_only_swoops_land(t: SwoopThreat)
    ensures
        !(t.state is Swoop) ==> !swoop_lands(t),
        swoop_lands(t) ==> t.within_reach,
        t.state is Swoop && t.within_reach ==> swoop_lands(t),
{
}


/// An enemy is in front of the player only when its horizontal offset
/// points the way the player faces; an enemy level with the player (zero
/// offset) is never in front.
pub proof fn law_in_front_follows_facing(facing: Facing, dx: Sign)
    ensures
        in_front(facing, dx) ==> !(dx is Zero),
        in_front(Facing::Right, dx) <==> dx is Positive,
        in_front(Facing::Left, dx) <==> dx is Negative,
{
}

/// Flyers, and only flyers, are knocked back through the air.
pub proof fn law_only_flyers_fly_back(kind: Option<EnemyKind>)
    ensures
        knockback_for(kind) is Airborne <==> kind == Some(EnemyKind::Flying),
{
}

/// A swing leaves alone any enemy it has already hit or cannot reach; an
/// enemy it hits loses exactly `SWORD_DAMAGE` hit points (unless that would
/// pass the smallest value) and is marked as hit, with nothing else changed.
pub proof fn law_swing_effect(facing: Facing, t: SwingTarget)
    ensures
        t.already_hit || !t.within_reach ==> after_swing(facing, t) == t,
        swing_hits(facing, t) ==> after_swing(facing, t).already_hit
            && after_swing(facing, t).within_reach == t.within_reach
            && after_swing(facing, t).dx == t.dx
            && after_swing(facing, t).kind == t.kind
            && after_swing(facing, t).health.max == t.health.max,
        swing_hits(facing, t) && t.health.current - SWORD_DAMAGE >= i32::MIN ==> after_swing(
            facing,
            t,
        ).health.current == t.health.current - SWORD_DAMAGE,
        !swing_hits(facing, t) ==> after_swing(facing, t) == t,
{
}

} // verus!
