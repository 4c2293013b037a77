//! The emulator aggregate: CPU, bus, clock, joypad and pixel pipeline,
//! advanced one instruction per `step` in the documented order, plus the
//! pause/step/breakpoint debugger hooks. The host loop around it performs
//! the I/O: presenting frames, feeding button events, and printing serial
//! bytes.

use vstd::prelude::*;

use crate::clock::{Clock, tick_clock_spec, tick_mem_spec};
use crate::cpu::{CPU, Instruction, SizedInstruction, ime_step_spec, spec_decode, step_spec};
use crate::graphics::{Ppu, render_rel};
use crate::joypad::{JOYPAD_REGISTER_ADDRESS, Joypad, joyp_update_spec};
use crate::memory::{CartridgeState, MBC1State, MBC3State, MemV, Memory, RomState, write8_spec};
use crate::utils::{Address, Byte};

verus! {

/// A place the debugger stops at: a decoded instruction shape or an
/// address.
#[derive(Debug, Clone, Copy, PartialEq, Eq, Structural)]
pub enum Breakpoint {
    Inst(Instruction),
    Addr(Address),
}

/// Whether execution stands on one of the breakpoints: the current
/// address, or the instruction decoded there.
pub open spec fn bp_hit(bps: Seq<Breakpoint>, cpu: CPU, mem: Seq<u8>) -> bool {
    exists|i: int|
        0 <= i < bps.len() && ((#[trigger] bps[i]) == Breakpoint::Addr(cpu.pc) || (match spec_decode(
            mem[cpu.pc as int],
            mem[crate::alu::wrap16(cpu.pc + 1) as int],
            mem[crate::alu::wrap16(cpu.pc + 2) as int],
        ) {
            Some(si) => bps[i] == Breakpoint::Inst(si.instruction),
            None => false,
        }))
}

/// Pause/step state and the breakpoint list.
pub struct Debugger {
    pub pause: bool,
    pub step: bool,
    pub breakpoints: Vec<Breakpoint>,
}

impl Debugger {
    pub fn new() -> (r: Self)
        ensures
            !r.pause,
            !r.step,
            r.breakpoints@.len() == 0,
    {
        Self { pause: false, step: false, breakpoints: Vec::new() }
    }

    /// Toggle the paused state.
    pub fn toggle_pause(&mut self)
        ensures
            final(self).pause == !old(self).pause,
            final(self).step == old(self).step,
            final(self).breakpoints == old(self).breakpoints,
    {
        self.pause = !self.pause;
    }

    /// Run exactly one step, then pause.
    pub fn toggle_step(&mut self)
        ensures
            final(self).step,
            !final(self).pause,
            final(self).breakpoints == old(self).breakpoints,
    {
        self.step = true;
        self.pause = false;
    }

    pub fn add_breakpoint(&mut self, breakpoint: Breakpoint)
        ensures
            final(self).breakpoints@ == old(self).breakpoints@.push(breakpoint),
            final(self).pause == old(self).pause,
            final(self).step == old(self).step,
    {
        self.breakpoints.push(breakpoint);
    }

    /// Whether execution stands on a breakpoint: the current address, or
    /// the instruction decoded there.
    pub fn check_breakpoints(&self, cpu: &CPU, memory: &Memory) -> (r: bool)
        requires
            memory.wf(),
        ensures
            r == bp_hit(self.breakpoints@, *cpu, memory@.mem),
    {
        let decoded = SizedInstruction::decode(memory, cpu.pc);
        let n = self.breakpoints.len();
        let mut i: usize = 0;
        while i < n
            invariant
                memory.wf(),
                n == self.breakpoints@.len(),
                i <= n,
                decoded == spec_decode(
                    memory@.mem[cpu.pc as int],
                    memory@.mem[crate::alu::wrap16(cpu.pc + 1) as int],
                    memory@.mem[crate::alu::wrap16(cpu.pc + 2) as int],
                ),
                forall|j: int|
                    0 <= j < i ==> !((#[trigger] self.breakpoints@[j]) == Breakpoint::Addr(cpu.pc)
                        || (match spec_decode(
                        memory@.mem[cpu.pc as int],
                        memory@.mem[crate::alu::wrap16(cpu.pc + 1) as int],
                        memory@.mem[crate::alu::wrap16(cpu.pc + 2) as int],
                    ) {
                        Some(si) => self.breakpoints@[j] == Breakpoint::Inst(si.instruction),
                        None => false,
                    })),
            decreases n - i,
        {
            let bp = self.breakpoints[i];
            if bp == Breakpoint::Addr(cpu.pc) {
                return true;
            }
            match (bp, &decoded) {
                (Breakpoint::Inst(ins), Some(si)) => {
                    if ins == si.instruction {
                        return true;
                    }
                },
                _ => {},
            }
            i = i + 1;
        }
        false
    }

    /// Whether the machine should stay paused this step; stepping runs one
    /// step then re-pauses, and a hit breakpoint pauses.
    pub fn check_pause(&mut self, cpu: &CPU, memory: &Memory) -> (r: bool)
        requires
            memory.wf(),
        ensures
            final(self).breakpoints == old(self).breakpoints,
            old(self).pause ==> r && final(self).pause,
            old(self).step && !old(self).pause ==> !r && final(self).pause && !final(self).step,
            !old(self).pause && !old(self).step ==> r == bp_hit(
                old(self).breakpoints@,
                *cpu,
                memory@.mem,
            ) && final(self).pause == r && !final(self).step,
    {
        if self.pause {
            true
        } else if self.step {
            self.pause = true;
            self.step = false;
            false
        } else if self.check_breakpoints(cpu, memory) {
            self.pause = true;
            true
        } else {
            false
        }
    }
}

/// What one machine step hands the host: a serial byte to emit, and
/// whether a finished frame is ready to present.
#[derive(Debug, Clone, Copy, PartialEq, Eq, Structural)]
pub struct StepOut {
    pub serial: Option<Byte>,
    pub frame: bool,
}

/// The whole machine.
pub struct GameBoy {
    pub cpu: CPU,
    pub memory: Memory,
    pub clock: Clock,
    pub joypad: Joypad,
    pub ppu: Ppu,
    pub dbg: Debugger,
}

impl GameBoy {
    /// Every component invariant, plus: the pixel pipeline has observed
    /// the clock's current timestamp.
    pub open spec fn wf(&self) -> bool {
        &&& self.cpu.wf()
        &&& self.memory.wf()
        &&& self.clock.wf()
        &&& self.ppu.wf()
        &&& self.ppu.last_seen == self.clock.timestamp
    }

    pub fn new() -> (r: Self)
        ensures
            r.wf(),
            r.clock.timestamp == 0,
            !r.cpu.halt,
            r.cpu.pc == 0,
            r.memory@.rom.len() == 0,
            r.memory@.cart is Empty,
    {
        GameBoy {
            cpu: CPU::new(),
            memory: Memory::new(),
            clock: Clock::new(),
            joypad: Joypad::new(),
            ppu: Ppu::new(),
            dbg: Debugger::new(),
        }
    }

    /// Load a cartridge image; the header must name a known mapper and the
    /// size must match its bank count.
    pub fn load_rom(&mut self, rom_data: Vec<Byte>)
        requires
            old(self).wf(),
            old(self).memory@.rom.len() == 0,
            old(self).memory@.cart is Empty,
            rom_data@.len() > 0x150,
            rom_data@[0x147] == 0x00 || rom_data@[0x147] == 0x01 || rom_data@[0x147] == 0x13,
            rom_data@.len() == 0x4000 * vstd::arithmetic::power2::pow2((rom_data@[0x148] + 1) as nat),
        ensures
            final(self).wf(),
            final(self).memory@.cart == (if rom_data@[0x147] == 0x00 {
                CartridgeState::RomOnly(RomState {})
            } else if rom_data@[0x147] == 0x01 {
                CartridgeState::MBC1(MBC1State { ram_enabled: false, rom_number: 1, ram_number: 0 })
            } else {
                CartridgeState::MBC3(MBC3State { ram_enabled: false, rom_number: 1, ram_number: 0 })
            }),
            final(self).memory@.rom.len() == rom_data@.len() / 0x4000,
            forall|i: int, j: int|
                0 <= i < final(self).memory@.rom.len() && 0 <= j < 0x4000 ==> final(
                self).memory@.rom[i][j] == rom_data@[i * 0x4000 + j],
            forall|k: int| 0x100 <= k < 0x8000 ==> final(self).memory@.mem[k] == rom_data@[k],
            forall|k: int|
                (0 <= k < 0x100 || 0x8000 <= k < 0x10000) ==> final(self).memory@.mem[k] == old(
                self).memory@.mem[k],
            final(self).memory@.boot == old(self).memory@.boot,
            final(self).cpu == old(self).cpu,
            final(self).clock == old(self).clock,
            final(self).ppu == old(self).ppu,
            final(self).joypad == old(self).joypad,
            final(self).dbg == old(self).dbg,
    {
        self.memory.load_cartidge(rom_data);
    }

    /// Load the 256-byte boot ROM; it is visible at 0x0000 until the
    /// boot-unmap register is written.
    pub fn load_boot(&mut self, boot_data: Vec<Byte>)
        requires
            old(self).wf(),
            boot_data@.len() == 0x100,
        ensures
            final(self).wf(),
            forall|i: int| 0 <= i < 0x100 ==> final(self).memory@.mem[i] == boot_data@[i],
            forall|i: int| 0x100 <= i < 0x10000 ==> final(self).memory@.mem[i] == old(self).memory@.mem[i],
            final(self).memory@.boot == boot_data@,
            final(self).memory@.rom == old(self).memory@.rom,
            final(self).memory@.cart == old(self).memory@.cart,
            final(self).cpu == old(self).cpu,
            final(self).clock == old(self).clock,
            final(self).ppu == old(self).ppu,
            final(self).joypad == old(self).joypad,
            final(self).dbg == old(self).dbg,
    {
        self.memory.load_boot(boot_data);
    }

    /// What one machine step does, given the intermediate states after the
    /// instruction phase (`ca`, `ma`, `ka`) and the interrupt phase (`cb`,
    /// `mb`, `kb`): the joypad register is reflected first; one instruction
    /// executes by the step relation (or a halted CPU idles one cycle);
    /// interrupts are serviced; the interrupt-enable delay advances; the
    /// serial port is drained (a nonzero SC emits SB and clears SC); and
    /// the pixel pipeline is polled at the new timestamp, yielding the
    /// frame flag.
    pub open spec fn step_phases(
        g0: GameBoy,
        ca: CPU,
        ma: MemV,
        ka: Clock,
        cb: CPU,
        mb: MemV,
        kb: Clock,
        g1: GameBoy,
        out: StepOut,
    ) -> bool {
        let mj = write8_spec(
            g0.memory@,
            JOYPAD_REGISTER_ADDRESS,
            joyp_update_spec(g0.joypad, g0.memory@.mem[0xFF00]),
        );
        let mc = if mb.mem[0xFF02] != 0 {
            write8_spec(mb, 0xFF02, 0)
        } else {
            mb
        };
        &&& (if g0.cpu.halt {
            ca == g0.cpu && ma == tick_mem_spec(g0.clock, mj, 1) && ka == tick_clock_spec(
                g0.clock,
                mj,
                1,
            )
        } else {
            step_spec(g0.cpu, mj, g0.clock, ca, ma, ka)
        })
        &&& CPU::intr_spec(ca, ma, ka, cb, mb, kb)
        &&& g1.cpu == (CPU { ime: ime_step_spec(cb.ime), ..cb })
        &&& out.serial == (if mb.mem[0xFF02] != 0 {
            Some(mb.mem[0xFF02 - 1])
        } else {
            Option::<Byte>::None
        })
        &&& g1.clock == kb
        &&& render_rel(g0.ppu, mc, kb.timestamp, g1.ppu, g1.memory@, out.frame)
        &&& g1.joypad == g0.joypad
    }

    /// One successful step: some intermediate instruction-phase and
    /// interrupt-phase states tie the pre-state to the post-state through
    /// `step_phases`.
    pub open spec fn step_ok(g0: GameBoy, g1: GameBoy, out: StepOut) -> bool {
        exists|ca: CPU, ma: MemV, ka: Clock, cb: CPU, mb: MemV, kb: Clock|
            #![auto]
            Self::step_phases(g0, ca, ma, ka, cb, mb, kb, g1, out)
    }

    /// Advance the machine one step in the documented order: reflect the
    /// joypad, execute one instruction (or idle one cycle when halted),
    /// service interrupts, advance the interrupt-enable delay, drain the
    /// serial port, and poll the pixel pipeline. An opcode outside the
    /// instruction table stops the machine with that byte, leaving only
    /// the joypad reflection behind.
    #[verifier::rlimit(100)]
    #[verifier::spinoff_prover]
    pub fn step(&mut self) -> (r: Result<StepOut, Byte>)
        requires
            old(self).wf(),
            old(self).clock.timestamp + 130 <= u128::MAX,
        ensures
            final(self).joypad == old(self).joypad,
            final(self).dbg == old(self).dbg,
            r is Ok ==> final(self).wf(),
            r is Ok ==> Self::step_ok(*old(self), *final(self), r->Ok_0),
            r is Err ==> ({
                let mj = write8_spec(
                    old(self).memory@,
                    JOYPAD_REGISTER_ADDRESS,
                    joyp_update_spec(old(self).joypad, old(self).memory@.mem[0xFF00]),
                );
                &&& !old(self).cpu.halt
                &&& final(self).cpu == old(self).cpu
                &&& final(self).clock == old(self).clock
                &&& final(self).ppu == old(self).ppu
                &&& final(self).memory@ == mj
                &&& spec_decode(
                    mj.mem[old(self).cpu.pc as int],
                    mj.mem[crate::alu::wrap16(old(self).cpu.pc + 1) as int],
                    mj.mem[crate::alu::wrap16(old(self).cpu.pc + 2) as int],
                ) is None
                &&& r->Err_0 == mj.mem[old(self).cpu.pc as int]
            }),
    {
        self.joypad.update(&mut self.memory);

        if self.cpu.halt {
            self.clock.tick(1, &mut self.memory);
        } else {
            let decoded = SizedInstruction::decode(&self.memory, self.cpu.pc);
            if decoded.is_none() {
                return Err(self.memory.read_byte(self.cpu.pc));
            }
            self.cpu.execute(&mut self.memory, &mut self.clock);
        }
        let ghost ca = self.cpu;
        let ghost ma = self.memory@;
        let ghost ka = self.clock;

        self.cpu.handle_interrupts(&mut self.memory, &mut self.clock);
        let ghost cb = self.cpu;
        let ghost mb = self.memory@;
        let ghost kb = self.clock;

        self.cpu.ime_step();

        let serial: Option<Byte> = if self.memory.read_byte(0xFF02) != 0 {
            let b = self.memory.read_byte(0xFF01);
            self.memory.write_byte(0xFF02, 0);
            Some(b)
        } else {
            None
        };

        let now = self.clock.get_timestamp();
        let frame = self.ppu.render(&mut self.memory, now);
        let out = StepOut { serial, frame };
        proof {
            assert(Self::step_phases(*old(self), ca, ma, ka, cb, mb, kb, *self, out));
            assert(Self::step_ok(*old(self), *self, out));
        }
        Ok(out)
    }
}

} // verus!
