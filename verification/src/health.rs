use vstd::prelude::*;

verus! {

/// Hit points shared by the player and the enemies.
///
/// Damage only ever lowers `current`; a value at or below zero means the
/// owner is dead.
#[derive(Clone, Copy, Debug, PartialEq, Eq)]
pub struct Health {
    pub current: i32,
    pub max: i32,
}

impl Health {
    /// The owner has no hit points left.
    pub open spec fn dead(self) -> bool {
        self.current <= 0
    }

    /// The hit points after losing `amount`, bottoming out at the smallest
    /// representable value.
    pub open spec fn damaged(self, amount: i32) -> Health {
        Health {
            current: if self.current - amount < i32::MIN {
                i32::MIN
            } else {
                (self.current - amount) as i32
            },
            max: self.max,
        }
    }

    /// Full health of the given size.
    pub fn new(max: i32) -> (h: Health)
        ensures
            h.current == max,
            h.max == max,
    {
        Health { current: max, max }
    }

    /// Whether no hit points are left.
    pub fn is_dead(&self) -> (r: bool)
        ensures
            r == self.dead(),
    {
        self.current <= 0
    }

    /// Loses `amount` hit points.
    pub fn take_damage(&mut self, amount: i32)
        requires
            amount >= 0,
        ensures
            *final(self) == old(self).damaged(amount),
    {
        if self.current < i32::MIN + amount {
            self.current = i32::MIN;
        } else {
            self.current = self.current - amount;
        }
    }

    /// Drops the hit points to zero.
    pub fn kill(&mut self)
        ensures
            final(self).current == 0,
            final(self).max == old(self).max,
    {
        self.current = 0;
    }
}

/// Number of enemies killed during the current run.
#[derive(Clone, Copy, Debug, PartialEq, Eq)]
pub struct EnemyKillCount(pub u32);

impl Default for EnemyKillCount {
    fn default() -> (r: EnemyKillCount)
        ensures
            r.0 == 0,
    {
        EnemyKillCount(0)
    }
}

impl EnemyKillCount {
    /// Counts one more kill.
    pub fn record_kill(&mut self)
        requires
            old(self).0 < u32::MAX,
        ensures
            final(self).0 == old(self).0 + 1,
    {
        self.0 = self.0 + 1;
    }
}

/// Summary of a finished run, shown on the game-over screen.
#[derive(Clone, Copy, Debug, PartialEq, Eq)]
pub struct RunStats {
    pub height_meters: i32,
    pub enemies_killed: u32,
    pub is_new_best: bool,
}

/// Best height in meters reached over all runs.
#[derive(Clone, Copy, Debug, PartialEq, Eq)]
pub struct BestScore {
    pub height_meters: i32,
}

impl Default for BestScore {
    fn default() -> (r: BestScore)
        ensures
            r.height_meters == 0,
    {
        BestScore { height_meters: 0 }
    }
}

impl BestScore {
    /// The best height after a run that reached `height_meters`.
    pub open spec fn after_run(self, height_meters: i32) -> BestScore {
        if height_meters > self.height_meters {
            BestScore { height_meters }
        } else {
            self
        }
    }

    /// Records a finished run and returns its summary; a missing kill count
    /// counts as zero kills.
    pub fn record_run(&mut self, height_meters: i32, kills: Option<u32>) -> (stats: RunStats)
        ensures
            *final(self) == old(self).after_run(height_meters),
            stats.height_meters == height_meters,
            stats.enemies_killed == (match kills {
                Some(k) => k,
                None => 0,
            }),
            stats.is_new_best == (height_meters > old(self).height_meters),
    {
        let enemies_killed = match kills {
            Some(k) => k,
            None => 0,
        };
        let is_new_best = height_meters > self.height_meters;
        if is_new_best {
            self.height_meters = height_meters;
        }
        RunStats { height_meters, enemies_killed, is_new_best }
    }
}

/// Ends the run when the player has died: records the run against the best
/// score and returns its summary. A living player leaves everything as it is
/// and gets `None`.
pub fn check_player_death(
    player: &Health,
    height_meters: i32,
    kills: Option<u32>,
    best: &mut BestScore,
) -> (r: Option<RunStats>)
    ensures
        player.dead() ==> {
            &&& *final(best) == old(best).after_run(height_meters)
            &&& r == Some(
                RunStats {
                    height_meters,
                    enemies_killed: match kills {
                        Some(k) => k,
                        None => 0,
                    },
                    is_new_best: height_meters > old(best).height_meters,
                },
            )
        },
        !player.dead() ==> r is None && *final(best) == *old(best),
{
    if !player.is_dead() {
        return None;
    }
    Some(best.record_run(height_meters, kills))
}

/// The lowest chunk index among the generated chunks, or 0 when none has
/// been generated.
pub fn lowest_chunk(generated: &Vec<i32>) -> (r: i32)
    ensures
        generated@.len() == 0 ==> r == 0,
        generated@.len() > 0 ==> generated@.contains(r),
        forall|i: int| 0 <= i < generated@.len() ==> r <= #[trigger] generated@[i],
{
    if generated.len() == 0 {
        return 0;
    }
    let mut low: i32 = generated[0];
    let mut k: usize = 1;
    while k < generated.len()
        invariant
            1 <= k <= generated@.len(),
            generated@.contains(low),
            forall|i: int| 0 <= i < k ==> low <= #[trigger] generated@[i],
        decreases generated@.len() - k,
    {
        if generated[k] < low {
            low = generated[k];
        }
        k = k + 1;
    }
    low
}

/// Kills a living player who has fallen below the void line; a player who
/// is already dead, or still above it, is left unchanged.
pub fn apply_void_death(player: &mut Health, below_void: bool)
    ensures
        !old(player).dead() && below_void ==> final(player).current == 0 && final(player).max
            == old(player).max,
        !(!old(player).dead() && below_void) ==> *final(player) == *old(player),
{
    if player.is_dead() {
        return;
    }
    if below_void {
        player.kill();
    }
}


/// Damage never adds hit points.
pub proof fn law_damage_never_heals(h: Health, amount: i32)
    requires
        amount >= 0,
    ensures
        h.damaged(amount).current <= h.current,
        h.damaged(amount).max == h.max,
{
}

/// Once dead, further damage keeps the owner dead.
pub proof fn law_dead_stays_dead(h: Health, amount: i32)
    requires
        h.dead(),
        amount >= 0,
    ensures
        h.damaged(amount).dead(),
{
}

/// The best score after a run is the higher of the old best and the run's
/// height: it never goes down, and it goes up exactly when the run is
/// reported as a new best.
pub proof fn law_best_score_is_running_max(best: BestScore, height_meters: i32)
    ensures
        best.after_run(height_meters).height_meters == (if height_meters > best.height_meters {
            height_meters
        } else {
            best.height_meters
        }),
        best.after_run(height_meters).height_meters >= best.height_meters,
        best.after_run(height_meters).height_meters >= height_meters,
        (best.after_run(height_meters).height_meters > best.height_meters) <==> (height_meters
            > best.height_meters),
{
}


/// Damage takes exactly the amount off, unless that would pass the smallest
/// representable value, where it stops.
pub proof fn law_damage_is_exact(h: Health, amount: i32)
    requires
        amount >= 0,
    ensures
        h.current - amount >= i32::MIN ==> h.damaged(amount).current == h.current - amount,
        h.current - amount < i32::MIN ==> h.damaged(amount).current == i32::MIN,
{
}

} // verus!
