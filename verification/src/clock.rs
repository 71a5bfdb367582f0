//! The system clock: a counter of phases that marks, out of a number of
//! quadrature clock lines, the one that is high.

use vstd::prelude::*;

verus! {

/// A clock as numbers: the count of phases so far, the number of phases in a
/// cycle, the frequency, and the levels of the clock lines.
#[verifier::ext_equal]
pub struct ClockState {
    pub phase: int,
    pub phases: int,
    pub frequency: int,
    pub quadrature_clocks: Seq<bool>,
}

impl ClockState {
    /// The line that is high after the next tick.
    pub open spec fn next_line(self) -> int {
        (self.phase + 1) % self.phases
    }

    /// Whether the clock can tick: a cycle has at least one phase, the count
    /// of phases has room for one more, and the line that gets high exists.
    pub open spec fn can_tick(self) -> bool {
        &&& self.phases > 0
        &&& self.phase < u32::MAX
        &&& self.next_line() < self.quadrature_clocks.len()
    }

    /// The clock after a tick: one phase further, with the line of that
    /// phase high and every other line low.
    pub open spec fn tick(self) -> ClockState {
        ClockState {
            phase: self.phase + 1,
            quadrature_clocks: Seq::new(
                self.quadrature_clocks.len(),
                |i: int| i == self.next_line(),
            ),
            ..self
        }
    }
}

/// The system clock.
#[derive(Debug)]
pub struct SystemClock {
    pub phase: u32,
    pub phases: u32,
    pub quadrature_clocks: Vec<bool>,
    pub frequency: u32,
}

impl View for SystemClock {
    type V = ClockState;

    open spec fn view(&self) -> ClockState {
        ClockState {
            phase: self.phase as int,
            phases: self.phases as int,
            frequency: self.frequency as int,
            quadrature_clocks: self.quadrature_clocks@,
        }
    }
}

impl Clone for SystemClock {
    /// A copy at the same phase.
    fn clone(&self) -> (r: Self)
        ensures
            r@ == self@,
    {
        let lines: Vec<bool> = self.quadrature_clocks.clone();
        assert(lines@ =~= self.quadrature_clocks@);
        SystemClock {
            phase: self.phase,
            phases: self.phases,
            quadrature_clocks: lines,
            frequency: self.frequency,
        }
    }
}

impl SystemClock {
    /// A clock of `phases` phases at `frequency` ticks a second, before its
    /// first tick: every line is low.
    pub fn new(phases: u32, frequency: u32) -> (r: Self)
        ensures
            r@ == (ClockState {
                phase: 0,
                phases: phases as int,
                frequency: frequency as int,
                quadrature_clocks: Seq::new(phases as nat, |i: int| false),
            }),
    {
        let mut lines: Vec<bool> = Vec::new();
        let mut i: u32 = 0;
        while i < phases
            invariant
                i <= phases,
                lines@ =~= Seq::new(i as nat, |k: int| false),
            decreases phases - i,
        {
            lines.push(false);
            i += 1;
        }
        Self { phase: 0, phases, quadrature_clocks: lines, frequency }
    }

    /// Whether the clock can tick.
    pub fn can_tick(&self) -> (r: bool)
        ensures
            r == self@.can_tick(),
    {
        self.phases > 0 && self.phase < u32::MAX && (((self.phase + 1) % self.phases) as usize)
            < self.quadrature_clocks.len()
    }

    /// Moves the clock on by one phase: the line of the new phase gets high,
    /// every other line low.
    pub fn tick(&mut self)
        requires
            old(self)@.can_tick(),
        ensures
            final(self)@ == old(self)@.tick(),
    {
        self.phase += 1;
        let count: usize = self.quadrature_clocks.len();
        let mut i: usize = 0;
        while i < count
            invariant
                i <= count,
                count == self.quadrature_clocks@.len(),
                count == old(self).quadrature_clocks@.len(),
                self.phase == old(self).phase + 1,
                self.phases == old(self).phases,
                self.frequency == old(self).frequency,
                forall|k: int| 0 <= k < i ==> !self.quadrature_clocks@[k],
            decreases count - i,
        {
            self.quadrature_clocks.set(i, false);
            i += 1;
        }
        let line: usize = (self.phase % self.phases) as usize;
        self.quadrature_clocks.set(line, true);
        assert(self@.quadrature_clocks =~= old(self)@.tick().quadrature_clocks);
    }
}

} // verus!
