//! A smooth transition: the brightness moves from where it is to a target in
//! steps of one hundredth of the maximum, and the last step is cut short so
//! that it lands on the target.

use crate::change::{Delay, Direction};
use crate::err::BlibError;
use vstd::prelude::*;

verus! {

/// The size of a full step on a device whose maximum is `max`.
pub open spec fn sweep_rate(max: u32) -> u32 {
    max / 100
}

/// The way from `current` to `target`.
pub open spec fn sweep_direction(current: u32, target: u32) -> Direction {
    if target > current {
        Direction::Inc
    } else {
        Direction::Dec
    }
}

/// Whether a sweep that stands at `current` has nothing more to write.
pub open spec fn sweep_finished(current: u32, target: u32, max: u32, dir: Direction) -> bool {
    ||| current == target
    ||| target > max
    ||| (current == 0 && dir == Direction::Dec)
    ||| (current == max && dir == Direction::Inc)
}

/// The value that a sweep writes after `current`: one step of `rate` towards
/// `target`, or `target` itself where that step would pass it.
pub open spec fn sweep_next(current: u32, target: u32, rate: u32, dir: Direction) -> u32 {
    match dir {
        Direction::Inc => if current + rate > target {
            target
        } else {
            (current + rate) as u32
        },
        Direction::Dec => if rate > current || current - rate < target {
            target
        } else {
            (current - rate) as u32
        },
    }
}

/// Where a sweep stands after at most `n` writes.
pub open spec fn sweep_after(
    current: u32,
    target: u32,
    max: u32,
    dir: Direction,
    n: nat,
) -> u32
    decreases n,
{
    if n == 0 || sweep_finished(current, target, max, dir) {
        current
    } else {
        sweep_after(
            sweep_next(current, target, sweep_rate(max), dir),
            target,
            max,
            dir,
            (n - 1) as nat,
        )
    }
}

/// The distance between two brightness values.
pub open spec fn distance(a: u32, b: u32) -> nat {
    if a <= b {
        (b - a) as nat
    } else {
        (a - b) as nat
    }
}

/// A sweep under way. It is made by `Device::sweep_write` and driven by
/// `step`: the caller writes each value that `step` hands out, waits for
/// `delay`, and reports how the write went.
#[derive(Debug)]
pub struct Sweep {
    current: u32,
    target: u32,
    max: u32,
    rate: u32,
    dir: Direction,
    delay: Delay,
}

impl Sweep {
    /// The value written last, or the device's brightness before the first write.
    pub closed spec fn spec_current(&self) -> u32 {
        self.current
    }

    pub closed spec fn spec_target(&self) -> u32 {
        self.target
    }

    pub closed spec fn spec_max(&self) -> u32 {
        self.max
    }

    pub closed spec fn spec_direction(&self) -> Direction {
        self.dir
    }

    pub closed spec fn spec_delay(&self) -> Delay {
        self.delay
    }

    /// The step size was taken from the maximum when the sweep began.
    pub closed spec fn wf(&self) -> bool {
        self.rate == sweep_rate(self.max)
    }

    /// Whether nothing is left to write.
    pub open spec fn finished(&self) -> bool {
        sweep_finished(
            self.spec_current(),
            self.spec_target(),
            self.spec_max(),
            self.spec_direction(),
        )
    }

    /// Begins a sweep from `current` to `target` on a device whose maximum is `max`.
    pub fn begin(current: u32, target: u32, max: u32, delay: Delay) -> (r: Sweep)
        ensures
            r.wf(),
            r.spec_current() == current,
            r.spec_target() == target,
            r.spec_max() == max,
            r.spec_direction() == sweep_direction(current, target),
            r.spec_delay() == delay,
    {
        let dir = if target > current {
            Direction::Inc
        } else {
            Direction::Dec
        };
        Sweep { current, target, max, rate: max / 100, dir, delay }
    }

    #[verifier::when_used_as_spec(spec_current)]
    pub fn current(&self) -> (r: u32)
        ensures
            r == self.spec_current(),
    {
        self.current
    }

    #[verifier::when_used_as_spec(spec_target)]
    pub fn target(&self) -> (r: u32)
        ensures
            r == self.spec_target(),
    {
        self.target
    }

    /// The pause to make after each write.
    #[verifier::when_used_as_spec(spec_delay)]
    pub fn delay(&self) -> (r: Delay)
        ensures
            r == self.spec_delay(),
    {
        self.delay
    }

    /// Decides what comes next. `last` says how the caller's last action
    /// went: opening the brightness file before the first step, the write of
    /// the value handed out before every other.
    ///
    /// A failure ends the sweep with `SweepError` and leaves the state as it
    /// was. Otherwise the result is `None` once nothing is left to write, and
    /// else the next value to write, which the sweep then stands at.
    pub fn step(&mut self, last: Result<(), std::io::Error>) -> (r: Result<Option<u32>, BlibError>)
        requires
            old(self).wf(),
        ensures
            final(self).wf(),
            final(self).spec_target() == old(self).spec_target(),
            final(self).spec_max() == old(self).spec_max(),
            final(self).spec_direction() == old(self).spec_direction(),
            final(self).spec_delay() == old(self).spec_delay(),
            match last {
                Err(e) => r == Err::<Option<u32>, BlibError>(BlibError::SweepError(e))
                    && final(self).spec_current() == old(self).spec_current(),
                Ok(_) => if old(self).finished() {
                    r == Ok::<Option<u32>, BlibError>(None) && final(self).spec_current() == old(
                        self,
                    ).spec_current()
                } else {
                    r == Ok::<Option<u32>, BlibError>(Some(final(self).spec_current()))
                        && final(self).spec_current() == sweep_next(
                        old(self).spec_current(),
                        old(self).spec_target(),
                        sweep_rate(old(self).spec_max()),
                        old(self).spec_direction(),
                    )
                },
            },
    {
        match last {
            Err(e) => Err(BlibError::SweepError(e)),
            Ok(_) => {
                let at_floor = self.current == 0 && self.dir == Direction::Dec;
                let at_ceiling = self.current == self.max && self.dir == Direction::Inc;
                if self.current == self.target || self.target > self.max || at_floor
                    || at_ceiling {
                    return Ok(None);
                }
                let next: u32 = match self.dir {
                    Direction::Inc => {
                        if self.rate > self.target || self.current > self.target - self.rate {
                            self.target
                        } else {
                            self.current + self.rate
                        }
                    },
                    Direction::Dec => {
                        if self.rate > self.current || self.current - self.rate < self.target {
                            self.target
                        } else {
                            self.current - self.rate
                        }
                    },
                };
                self.current = next;
                Ok(Some(next))
            },
        }
    }
}

/// A sweep to a target within the device's range ends on the target: on a
/// device whose maximum is at least 100, so that a step is at least 1, the
/// sweep from `current` to `target` has reached `target` after at most as
/// many writes as the two values are apart, and stays there.
pub proof fn lemma_sweep_reaches_target(current: u32, target: u32, max: u32, n: nat)
    requires
        target <= max,
        max >= 100,
        n >= distance(current, target),
    ensures
        sweep_after(current, target, max, sweep_direction(current, target), n) == target,
{
    lemma_sweep_converges(current, target, max, sweep_direction(current, target), n);
}

/// The induction behind `lemma_sweep_reaches_target`: it holds from every
/// value that lies on the sweep's side of the target.
pub proof fn lemma_sweep_converges(current: u32, target: u32, max: u32, dir: Direction, n: nat)
    requires
        target <= max,
        max >= 100,
        n >= distance(current, target),
        dir == Direction::Inc ==> current <= target,
        dir == Direction::Dec ==> current >= target,
    ensures
        sweep_after(current, target, max, dir, n) == target,
    decreases n,
{
    if current != target {
        let next = sweep_next(current, target, sweep_rate(max), dir);
        assert(sweep_rate(max) >= 1);
        assert(!sweep_finished(current, target, max, dir));
        assert(distance(next, target) < distance(current, target));
        lemma_sweep_converges(next, target, max, dir, (n - 1) as nat);
    }
}

/// On a device whose maximum is below 100 a step is 0, and a sweep that is
/// not at its target from the start never gets anywhere: it hands out the
/// value it stands at, again and again.
pub proof fn lemma_sweep_stalls_without_rate(current: u32, target: u32, max: u32, n: nat)
    requires
        max < 100,
    ensures
        sweep_after(current, target, max, sweep_direction(current, target), n) == current,
        current != target && target <= max ==> !sweep_finished(
            current,
            target,
            max,
            sweep_direction(current, target),
        ),
    decreases n,
{
    let dir = sweep_direction(current, target);
    if n > 0 && !sweep_finished(current, target, max, dir) {
        assert(sweep_next(current, target, sweep_rate(max), dir) == current);
        lemma_sweep_stalls_without_rate(current, target, max, (n - 1) as nat);
    }
}

/// A sweep towards the target never passes it and never turns back: each
/// value written lies between the value before it and the target.
pub proof fn lemma_sweep_step_between(current: u32, target: u32, max: u32)
    ensures
        ({
            let next = sweep_next(
                current,
                target,
                sweep_rate(max),
                sweep_direction(current, target),
            );
            if target > current {
                current <= next <= target
            } else {
                target <= next <= current
            }
        }),
{
}

/// A sweep to a target above the device's maximum writes nothing: it stands
/// where it began, however many steps are taken.
pub proof fn lemma_sweep_beyond_max_is_noop(
    current: u32,
    target: u32,
    max: u32,
    dir: Direction,
    n: nat,
)
    requires
        target > max,
    ensures
        sweep_finished(current, target, max, dir),
        sweep_after(current, target, max, dir, n) == current,
{
}

} // verus!
