use vstd::prelude::*;

verus! {

/// Counts m-cycles and ticks once every `cycles_to_tick` of them (the period given in
/// t-cycles, divided by 4); a period of 0 never ticks.
pub struct Timer {
    cycles_to_tick: u16,
    cycle_counter: u16,
}

impl Timer {
    /// The period in m-cycles.
    pub closed spec fn period(&self) -> u16 {
        self.cycles_to_tick
    }

    /// The m-cycles counted since the last tick.
    pub closed spec fn counter(&self) -> u16 {
        self.cycle_counter
    }

    pub closed spec fn wf(&self) -> bool {
        self.cycle_counter == 0 || self.cycle_counter < self.cycles_to_tick
    }

    pub fn new(cycles_to_tick: u16) -> (r: Self)
        ensures
            r.wf(),
            r.period() == cycles_to_tick >> 2,
            r.counter() == 0,
    {
        Timer { cycle_counter: 0, cycles_to_tick: cycles_to_tick >> 2 }
    }

    /// Counts one m-cycle; tells whether the timer ticked.
    pub fn cycle(&mut self) -> (ticked: bool)
        requires
            old(self).wf(),
        ensures
            final(self).wf(),
            final(self).period() == old(self).period(),
            old(self).period() == 0 ==> !ticked && final(self).counter() == old(self).counter(),
            old(self).period() != 0 ==> final(self).counter() == (old(self).counter() + 1) % (
            old(self).period() as int) && ticked == (final(self).counter() == 0),
    {
        if self.cycles_to_tick != 0 {
            proof {
                let c = self.cycle_counter as int;
                let p = self.cycles_to_tick as int;
                if c + 1 < p {
                    vstd::arithmetic::div_mod::lemma_small_mod((c + 1) as nat, p as nat);
                } else {
                    vstd::arithmetic::div_mod::lemma_mod_self_0(p);
                }
            }
            self.cycle_counter = self.cycle_counter + 1;
            if self.cycle_counter == self.cycles_to_tick {
                self.cycle_counter = 0;
            }
            return self.cycle_counter == 0;
        }
        false
    }

    /// Sets a new period (in t-cycles) and restarts the count.
    pub fn update_cycles_to_tick(&mut self, cycles_to_tick: u16)
        ensures
            final(self).wf(),
            final(self).period() == cycles_to_tick >> 2,
            final(self).counter() == 0,
    {
        self.cycles_to_tick = cycles_to_tick >> 2;
        self.cycle_counter = 0;
    }
}

/// Counting from 0, a timer ticks on its `period`-th cycle and on no cycle before it.
pub proof fn lemma_timer_period(counter: int, period: int)
    requires
        0 < period,
        0 <= counter < period,
    ensures
        ((counter + 1) % period == 0) == (counter + 1 == period),
        counter + 1 < period ==> (counter + 1) % period == counter + 1,
{
    if counter + 1 < period {
        vstd::arithmetic::div_mod::lemma_small_mod((counter + 1) as nat, period as nat);
    } else {
        vstd::arithmetic::div_mod::lemma_mod_self_0(period);
    }
}

} // verus!
