//! Machine-cycle accounting: the divider counter behind DIV, the
//! programmable timer TIMA/TMA/TAC, and the monotonic timestamp the pixel
//! pipeline is driven by. `tick_clock_spec` and `tick_mem_spec` state the
//! exact effect of debiting machine cycles.

use vstd::prelude::*;

use crate::alu::wrap8;
use crate::cpu::{INTERRUPT_FLAG_ADDRESS, TIMER_FLAG};
use crate::memory::{MemV, Memory, memv_wf};
use crate::utils::{Address, Byte, set_flag};

verus! {

pub const DIV_ADDRESS: Address = 0xFF04;

pub const TIMA_ADDRESS: Address = 0xFF05;

pub const TMA_ADDRESS: Address = 0xFF06;

pub const TAC_ADDRESS: Address = 0xFF07;

pub const TAC_ENABLE_FLAG: Byte = 0b100;

pub const TAC_CLOCK_SELECT: Byte = 0b11;

pub struct Clock {
    pub div_counter: Byte,
    pub timer_counter: u32,
    pub timestamp: u128,
}

/// The TIMA period in T-states selected by TAC bits 0-1: the four timer
/// frequencies 4096, 262144, 65536 and 16384 Hz against the 4194304 Hz base.
pub open spec fn sel_period(tac: u8) -> u32 {
    if tac % 4 == 0 {
        1024
    } else if tac % 4 == 1 {
        16
    } else if tac % 4 == 2 {
        64
    } else {
        256
    }
}

/// Memory effect of consuming the accumulated T-states: one TIMA increment
/// per completed period; an increment that wraps to zero sets the TIMER
/// interrupt bit and reloads TIMA from TMA.
pub open spec fn tima_loop_mem(mem: Seq<u8>, tc: u32, period: u32) -> Seq<u8>
    decreases tc,
{
    if period == 0 || tc < period {
        mem
    } else {
        let t = wrap8(mem[0xFF05] + 1);
        let mem1 = mem.update(0xFF05, t);
        let mem2 = if t == 0 {
            mem1.update(0xFF0F, mem1[0xFF0F] | 0x04).update(0xFF05, mem1[0xFF06])
        } else {
            mem1
        };
        tima_loop_mem(mem2, (tc - period) as u32, period)
    }
}

/// The T-states left over after consuming whole periods.
pub open spec fn tima_loop_tc(tc: u32, period: u32) -> u32
    decreases tc,
{
    if period == 0 || tc < period {
        tc
    } else {
        tima_loop_tc((tc - period) as u32, period)
    }
}

/// The clock state after `tick(mcycles)` against memory `m`.
pub open spec fn tick_clock_spec(k: Clock, m: MemV, mcycles: u8) -> Clock {
    let memd = if k.div_counter + mcycles > 255 {
        m.mem.update(0xFF04, wrap8(m.mem[0xFF04] + 1))
    } else {
        m.mem
    };
    let tac = memd[0xFF07];
    Clock {
        div_counter: wrap8(k.div_counter + mcycles),
        timestamp: (k.timestamp + mcycles) as u128,
        timer_counter: if tac & 0x04 != 0 {
            tima_loop_tc((k.timer_counter + 4 * mcycles) as u32, sel_period(tac))
        } else {
            k.timer_counter
        },
    }
}

/// The memory state after `tick(mcycles)`: the divider register possibly
/// incremented, then the timer writes.
pub open spec fn tick_mem_spec(k: Clock, m: MemV, mcycles: u8) -> MemV {
    let memd = if k.div_counter + mcycles > 255 {
        m.mem.update(0xFF04, wrap8(m.mem[0xFF04] + 1))
    } else {
        m.mem
    };
    let tac = memd[0xFF07];
    MemV {
        mem: if tac & 0x04 != 0 {
            tima_loop_mem(memd, (k.timer_counter + 4 * mcycles) as u32, sel_period(tac))
        } else {
            memd
        },
        ..m
    }
}

impl Clock {
    /// The leftover T-state counter always sits below the largest period.
    pub open spec fn wf(&self) -> bool {
        self.timer_counter < 1024
    }

    pub fn new() -> (r: Self)
        ensures
            r == (Clock { div_counter: 0, timer_counter: 0, timestamp: 0 }),
            r.wf(),
    {
        Clock { div_counter: 0, timer_counter: 0, timestamp: 0 }
    }

    /// Debit `mcycles` machine cycles: advance the divider, the timestamp,
    /// and the programmable timer, raising the TIMER interrupt on each TIMA
    /// overflow. A single call may span several TIMA increments.
    pub fn tick(&mut self, mcycles: u8, memory: &mut Memory)
        requires
            old(self).wf(),
            old(memory).wf(),
            old(self).timestamp + mcycles <= u128::MAX,
        ensures
            *final(self) == tick_clock_spec(*old(self), old(memory)@, mcycles),
            final(memory)@ == tick_mem_spec(*old(self), old(memory)@, mcycles),
            final(self).wf(),
            final(memory).wf(),
    {
        let s: u16 = self.div_counter as u16 + mcycles as u16;
        self.div_counter = (s % 256) as u8;
        if s > 255 {
            memory.bump_div();
        }
        self.timestamp = self.timestamp + mcycles as u128;

        let tac = memory.read_byte(TAC_ADDRESS);
        let ghost memd = memory@;
        if tac & 0x04 != 0 {
            self.timer_counter = self.timer_counter + 4 * (mcycles as u32);
            let period: u32 = if tac % 4 == 0 {
                1024
            } else if tac % 4 == 1 {
                16
            } else if tac % 4 == 2 {
                64
            } else {
                256
            };
            let ghost tc0 = self.timer_counter;
            while self.timer_counter >= period
                invariant
                    memv_wf(memory@),
                    self.div_counter == wrap8(old(self).div_counter + mcycles),
                    self.timestamp == (old(self).timestamp + mcycles) as u128,
                    period == sel_period(tac),
                    16 <= period,
                    memory@.mem.len() == 0x10000,
                    memory@.mem[0xFF07] == tac,
                    memory@ == (MemV { mem: memory@.mem, ..memd }),
                    tima_loop_mem(memd.mem, tc0, period) == tima_loop_mem(
                        memory@.mem,
                        self.timer_counter,
                        period,
                    ),
                    tima_loop_tc(tc0, period) == tima_loop_tc(self.timer_counter, period),
                decreases self.timer_counter,
            {
                let ghost mem_in = memory@.mem;
                let ghost tc_in = self.timer_counter;
                memory.wrapping_add(TIMA_ADDRESS, 1);
                if memory.read_byte(TIMA_ADDRESS) == 0 {
                    let mut int_flag = memory.read_byte(INTERRUPT_FLAG_ADDRESS);
                    set_flag(&mut int_flag, TIMER_FLAG);
                    memory.write_byte(INTERRUPT_FLAG_ADDRESS, int_flag);

                    let tma = memory.read_byte(TMA_ADDRESS);
                    memory.write_byte(TIMA_ADDRESS, tma);
                }
                self.timer_counter = self.timer_counter - period;
                proof {
                    let t = wrap8(mem_in[0xFF05] + 1);
                    let mem1 = mem_in.update(0xFF05, t);
                    let mem2 = if t == 0 {
                        mem1.update(0xFF0F, mem1[0xFF0F] | 0x04).update(0xFF05, mem1[0xFF06])
                    } else {
                        mem1
                    };
                    assert(memory@.mem =~= mem2);
                    assert(tima_loop_mem(mem_in, tc_in, period) == tima_loop_mem(
                        mem2,
                        (tc_in - period) as u32,
                        period,
                    ));
                    assert(memory@ =~= MemV { mem: memory@.mem, ..memd });
                }
            }
            proof {
                assert(tima_loop_mem(memory@.mem, self.timer_counter, period) == memory@.mem);
                assert(tima_loop_tc(self.timer_counter, period) == self.timer_counter);
                assert(memory@ =~= tick_mem_spec(*old(self), old(memory)@, mcycles));
            }
        } else {
            proof {
                assert(memory@ =~= tick_mem_spec(*old(self), old(memory)@, mcycles));
            }
        }
    }

    /// The cumulative machine-cycle count.
    pub fn get_timestamp(&self) -> (r: u128)
        ensures
            r == self.timestamp,
    {
        self.timestamp
    }
}

impl Default for Clock {
    fn default() -> (r: Self)
        ensures
            r == (Clock { div_counter: 0, timer_counter: 0, timestamp: 0 }),
    {
        Clock { div_counter: 0, timer_counter: 0, timestamp: 0 }
    }
}

} // verus!
