use vstd::prelude::*;

verus! {

/// Calls `bevy::time::Timer::tick` on a one-shot timer of length
/// `duration_ns` that has run for `elapsed_ns`, and reads back the elapsed
/// time (`Timer::new`, `Timer::set_elapsed` and `Timer::elapsed` only carry
/// the plain values into and out of the engine's timer).
///
/// Claimed of bevy 0.17: a one-shot timer built this way is not finished,
/// so `tick` adds the delta to the elapsed time and, once that reaches the
/// length, sets the elapsed time to the length. The result is therefore the
/// smaller of `elapsed_ns + delta_ns` and `duration_ns`.
#[verifier::external_body]
fn bevy_once_timer_tick(duration_ns: u64, elapsed_ns: u64, delta_ns: u64) -> (r: u64)
    requires
        elapsed_ns <= duration_ns,
    ensures
        r == (if elapsed_ns + delta_ns >= duration_ns { duration_ns as int } else { elapsed_ns + delta_ns }),
{
    let mut timer = bevy::time::Timer::new(
        core::time::Duration::from_nanos(duration_ns),
        bevy::time::TimerMode::Once,
    );
    timer.set_elapsed(core::time::Duration::from_nanos(elapsed_ns));
    timer.tick(core::time::Duration::from_nanos(delta_ns));
    timer.elapsed().as_nanos() as u64
}

/// A one-shot countdown measured in nanoseconds.
///
/// It finishes once the elapsed time reaches the duration and then stays
/// finished until it is reset.
#[derive(Clone, Copy, Debug, PartialEq, Eq)]
pub struct GameTimer {
    pub duration_ns: u64,
    pub elapsed_ns: u64,
}

impl GameTimer {
    /// A timer is well formed when its duration is positive and it has not
    /// run past its duration.
    pub open spec fn wf(self) -> bool {
        &&& 0 < self.duration_ns
        &&& self.elapsed_ns <= self.duration_ns
    }

    /// The timer has reached its duration.
    pub open spec fn finished(self) -> bool {
        self.elapsed_ns >= self.duration_ns
    }

    /// The timer after `delta_ns` more nanoseconds: the elapsed time grows
    /// by the delta but never past the duration.
    pub open spec fn ticked(self, delta_ns: u64) -> GameTimer {
        GameTimer {
            duration_ns: self.duration_ns,
            elapsed_ns: if self.elapsed_ns + delta_ns >= self.duration_ns {
                self.duration_ns
            } else {
                (self.elapsed_ns + delta_ns) as u64
            },
        }
    }

    /// The timer started over.
    pub open spec fn restarted(self) -> GameTimer {
        GameTimer { duration_ns: self.duration_ns, elapsed_ns: 0 }
    }

    /// A fresh timer of the given length.
    pub fn new(duration_ns: u64) -> (t: GameTimer)
        requires
            duration_ns > 0,
        ensures
            t.wf(),
            t.duration_ns == duration_ns,
            t.elapsed_ns == 0,
            !t.finished(),
    {
        GameTimer { duration_ns, elapsed_ns: 0 }
    }

    /// Whether the timer has reached its duration.
    pub fn is_finished(&self) -> (r: bool)
        ensures
            r == self.finished(),
    {
        self.elapsed_ns >= self.duration_ns
    }

    /// Advances the timer by `delta_ns` nanoseconds.
    pub fn tick(&mut self, delta_ns: u64)
        requires
            old(self).wf(),
        ensures
            *final(self) == old(self).ticked(delta_ns),
            final(self).wf(),
    {
        self.elapsed_ns = bevy_once_timer_tick(self.duration_ns, self.elapsed_ns, delta_ns);
    }

    /// Starts the timer over from zero.
    pub fn reset(&mut self)
        requires
            old(self).wf(),
        ensures
            *final(self) == old(self).restarted(),
            final(self).wf(),
            !final(self).finished(),
    {
        self.elapsed_ns = 0;
    }
}


/// Ticking keeps a timer well formed: the elapsed time never passes the
/// duration.
pub proof fn law_tick_keeps_wf(t: GameTimer, delta_ns: u64)
    requires
        t.wf(),
    ensures
        t.ticked(delta_ns).wf(),
        t.ticked(delta_ns).duration_ns == t.duration_ns,
{
}

/// Ticking never turns a timer back.
pub proof fn law_tick_is_monotone(t: GameTimer, delta_ns: u64)
    requires
        t.wf(),
    ensures
        t.ticked(delta_ns).elapsed_ns >= t.elapsed_ns,
{
}

/// Two ticks in a row advance a timer as far as one tick by their sum.
pub proof fn law_ticks_add_up(t: GameTimer, a: u64, b: u64)
    requires
        t.wf(),
        a + b <= u64::MAX,
    ensures
        t.ticked(a).ticked(b) == t.ticked((a + b) as u64),
{
}

/// A finished timer stays finished, unchanged, however long it is ticked,
/// until it is reset.
pub proof fn law_finished_stays_finished(t: GameTimer, delta_ns: u64)
    requires
        t.wf(),
        t.finished(),
    ensures
        t.ticked(delta_ns) == t,
        t.ticked(delta_ns).finished(),
{
}

/// A timer started over is not finished, and it takes its whole duration
/// to finish again.
pub proof fn law_restart_takes_full_duration(t: GameTimer, delta_ns: u64)
    requires
        t.wf(),
    ensures
        !t.restarted().finished(),
        t.restarted().ticked(delta_ns).finished() <==> delta_ns >= t.duration_ns,
{
}


/// A tick that does not finish the timer adds exactly the frame's length;
/// one that does leaves the elapsed time equal to the duration.
pub proof fn law_tick_is_exact(t: GameTimer, delta_ns: u64)
    requires
        t.wf(),
    ensures
        !t.ticked(delta_ns).finished() ==> t.ticked(delta_ns).elapsed_ns == t.elapsed_ns + delta_ns,
        t.ticked(delta_ns).finished() ==> t.ticked(delta_ns).elapsed_ns == t.duration_ns
            && t.elapsed_ns + delta_ns >= t.duration_ns,
{
}

} // verus!
