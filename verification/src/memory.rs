//! The memory bus: a 64 KiB visible address space backed by a boot ROM,
//! banked cartridge ROM, and a cartridge-state variant. Writes are mediated
//! by the cartridge mapper (bank switching), OAM DMA, the boot-ROM unmap
//! register, and the divider-reset rule; `write8_spec` states the exact
//! effect of every write and the executable code is proved against it.

use vstd::prelude::*;

use crate::utils::{Address, Byte, Word, bytes2word};

verus! {

pub const MEMORY_SIZE: usize = 0x10000;

pub const BOOTROM_SIZE: usize = 0x100;

pub const ROM_BANK_SIZE: usize = 0x4000;

pub const DMA_ADDRESS: Address = 0xFF46;

pub const DIV_REG_ADDRESS: Address = 0xFF04;

pub const MBC_TYPE_ADDRESS: Address = 0x0147;

pub const ROM_SIZE_ADDRESS: Address = 0x0148;

pub const RAM_SIZE_ADDRESS: Address = 0x0149;

pub const UNLOAD_BOOT_ADDRESS: Address = 0xFF50;

#[derive(Debug, Clone, Copy, PartialEq, Eq, Structural)]
pub enum CartridgeType {
    Empty,
    RomOnly,
    MBC1,
    MBC3,
}

#[derive(Debug, Clone, Copy, PartialEq, Eq, Structural)]
pub struct RomState {}

#[derive(Debug, Clone, Copy, PartialEq, Eq, Structural)]
pub struct MBC1State {
    pub ram_enabled: bool,
    pub rom_number: usize,
    pub ram_number: usize,
}

impl MBC1State {
    pub fn new() -> (r: Self)
        ensures
            r == (MBC1State { ram_enabled: false, rom_number: 1, ram_number: 0 }),
    {
        Self { rom_number: 1, ram_enabled: false, ram_number: 0 }
    }
}

#[derive(Debug, Clone, Copy, PartialEq, Eq, Structural)]
pub struct MBC3State {
    pub ram_enabled: bool,
    pub rom_number: usize,
    pub ram_number: usize,
}

impl MBC3State {
    pub fn new() -> (r: Self)
        ensures
            r == (MBC3State { ram_enabled: false, rom_number: 1, ram_number: 0 }),
    {
        Self { rom_number: 1, ram_enabled: false, ram_number: 0 }
    }
}

#[derive(Debug, Clone, Copy, PartialEq, Eq, Structural)]
pub enum CartridgeState {
    Empty,
    RomOnly(RomState),
    MBC1(MBC1State),
    MBC3(MBC3State),
}

/// Mathematical model of the bus: the flat visible space, the boot ROM, the
/// ROM and RAM banks, and the cartridge mapper state.
#[verifier::ext_equal]
pub struct MemV {
    pub mem: Seq<u8>,
    pub boot: Seq<u8>,
    pub rom: Seq<Seq<u8>>,
    pub ram: Seq<Seq<u8>>,
    pub cart: CartridgeState,
}

pub struct Memory {
    pub memory: Vec<Byte>,
    pub boot_rom: Vec<Byte>,
    pub rom: Vec<Vec<Byte>>,
    pub ram: Vec<Vec<Byte>>,
    pub cartridge: CartridgeState,
}

impl View for Memory {
    type V = MemV;

    open spec fn view(&self) -> MemV {
        MemV {
            mem: self.memory@,
            boot: self.boot_rom@,
            rom: Seq::new(self.rom@.len() as nat, |i: int| self.rom@[i]@),
            ram: Seq::new(self.ram@.len() as nat, |i: int| self.ram@[i]@),
            cart: self.cartridge,
        }
    }
}

pub open spec fn memv_wf(m: MemV) -> bool {
    &&& m.mem.len() == 0x10000
    &&& m.boot.len() == 0x100
    &&& (forall|i: int| 0 <= i < m.rom.len() ==> (#[trigger] m.rom[i]).len() == 0x4000)
    &&& (match m.cart {
        CartridgeState::Empty => true,
        CartridgeState::RomOnly(_) => m.rom.len() >= 2,
        CartridgeState::MBC1(_) => m.rom.len() >= 2,
        CartridgeState::MBC3(_) => m.rom.len() >= 2,
    })
}

/// `mem` with `data` laid over it starting at `at`.
pub open spec fn overlay(mem: Seq<u8>, at: int, data: Seq<u8>) -> Seq<u8> {
    Seq::new(
        mem.len(),
        |i: int|
            if at <= i < at + data.len() {
                data[i - at]
            } else {
                mem[i]
            },
    )
}

/// The plain store step of a write: the byte lands in the flat space,
/// except that any write to the divider register resets it to zero.
pub open spec fn store8_spec(m: MemV, a: u16, v: u8) -> MemV {
    if a == 0xFF04 {
        MemV { mem: m.mem.update(0xFF04, 0), ..m }
    } else {
        MemV { mem: m.mem.update(a as int, v), ..m }
    }
}

/// Effect of a mapper-control write (address below 0x8000 on MBC1/MBC3):
/// RAM enable, ROM bank select (bank 0 aliasing to 1, reduced modulo the
/// bank count, and made visible at 0x4000-0x7FFF), RAM bank select, and the
/// ignored mode range.
pub open spec fn mbc_banking_spec(m: MemV, a: u16, v: u8) -> MemV {
    let mask: int = if m.cart is MBC3 {
        128
    } else {
        32
    };
    if a < 0x2000 {
        let enabled = v % 16 == 0x0A;
        match m.cart {
            CartridgeState::MBC1(s) => MemV {
                cart: CartridgeState::MBC1(MBC1State { ram_enabled: enabled, ..s }),
                ..m
            },
            CartridgeState::MBC3(s) => MemV {
                cart: CartridgeState::MBC3(MBC3State { ram_enabled: enabled, ..s }),
                ..m
            },
            _ => m,
        }
    } else if a < 0x4000 {
        let low = (v as int) % mask;
        let b0: int = if low == 0 {
            1
        } else {
            low
        };
        let b = b0 % (m.rom.len() as int);
        let mem1 = overlay(m.mem, 0x4000, m.rom[b]);
        match m.cart {
            CartridgeState::MBC1(s) => MemV {
                mem: mem1,
                cart: CartridgeState::MBC1(MBC1State { rom_number: b as usize, ..s }),
                ..m
            },
            CartridgeState::MBC3(s) => MemV {
                mem: mem1,
                cart: CartridgeState::MBC3(MBC3State { rom_number: b as usize, ..s }),
                ..m
            },
            _ => m,
        }
    } else if a < 0x6000 {
        let bank = (v % 4) as usize;
        match m.cart {
            CartridgeState::MBC1(s) => MemV {
                cart: CartridgeState::MBC1(MBC1State { ram_number: bank, ..s }),
                ..m
            },
            CartridgeState::MBC3(s) => MemV {
                cart: CartridgeState::MBC3(MBC3State { ram_number: bank, ..s }),
                ..m
            },
            _ => m,
        }
    } else {
        m
    }
}

/// The full effect of `write8(a, v)`: first the boot-unmap or OAM-DMA side
/// effect, then the store or mapper-control step chosen by the cartridge.
pub open spec fn write8_spec(m: MemV, a: u16, v: u8) -> MemV {
    let m1 = if a == 0xFF50 {
        if m.rom.len() > 0 {
            MemV { mem: overlay(m.mem, 0, m.rom[0].subrange(0, 0x100)), ..m }
        } else {
            m
        }
    } else if a == 0xFF46 {
        MemV { mem: overlay(m.mem, 0xFE00, m.mem.subrange(v as int * 256, v as int * 256 + 160)), ..m }
    } else {
        m
    };
    match m1.cart {
        CartridgeState::Empty => store8_spec(m1, a, v),
        CartridgeState::RomOnly(_) => if a >= 0x8000 {
            store8_spec(m1, a, v)
        } else {
            m1
        },
        CartridgeState::MBC1(_) => if a >= 0x8000 {
            store8_spec(m1, a, v)
        } else {
            mbc_banking_spec(m1, a, v)
        },
        CartridgeState::MBC3(_) => if a >= 0x8000 {
            store8_spec(m1, a, v)
        } else {
            mbc_banking_spec(m1, a, v)
        },
    }
}

impl Memory {
    pub open spec fn wf(&self) -> bool {
        memv_wf(self@)
    }

    pub fn new() -> (r: Self)
        ensures
            r.wf(),
            r@.mem == Seq::new(0x10000nat, |i: int| 0u8),
            r@.boot == Seq::new(0x100nat, |i: int| 0u8),
            r@.rom.len() == 0,
            r@.ram.len() == 0,
            r@.cart == CartridgeState::Empty,
    {
        let mut memory: Vec<Byte> = Vec::new();
        let mut i: usize = 0;
        while i < MEMORY_SIZE
            invariant
                i <= MEMORY_SIZE,
                memory@.len() == i,
                forall|j: int| 0 <= j < i ==> memory@[j] == 0u8,
            decreases MEMORY_SIZE - i,
        {
            memory.push(0);
            i = i + 1;
        }
        let mut boot_rom: Vec<Byte> = Vec::new();
        let mut i: usize = 0;
        while i < BOOTROM_SIZE
            invariant
                i <= BOOTROM_SIZE,
                boot_rom@.len() == i,
                forall|j: int| 0 <= j < i ==> boot_rom@[j] == 0u8,
            decreases BOOTROM_SIZE - i,
        {
            boot_rom.push(0);
            i = i + 1;
        }
        let r = Memory {
            memory,
            boot_rom,
            rom: Vec::new(),
            ram: Vec::new(),
            cartridge: CartridgeState::Empty,
        };
        proof {
            assert(r@.mem =~= Seq::new(0x10000nat, |i: int| 0u8));
            assert(r@.boot =~= Seq::new(0x100nat, |i: int| 0u8));
        }
        r
    }

    pub fn read_byte(&self, address: Address) -> (r: Byte)
        requires
            self.wf(),
        ensures
            r == self@.mem[address as int],
    {
        self.memory[address as usize]
    }

    /// Little-endian 16-bit read; the second byte comes from the next
    /// address, wrapping at the top of the space.
    pub fn read_word(&self, address: Address) -> (r: Word)
        requires
            self.wf(),
        ensures
            r == self@.mem[crate::alu::wrap16(address + 1) as int] * 256 + self@.mem[address as int],
    {
        let lo = self.memory[address as usize];
        let next: Address = if address == 0xFFFF {
            0
        } else {
            address + 1
        };
        let hi = self.memory[next as usize];
        bytes2word(lo, hi)
    }

    fn store8(&mut self, address: Address, byte: Byte)
        requires
            old(self).wf(),
        ensures
            final(self)@ == store8_spec(old(self)@, address, byte),
            final(self).wf(),
    {
        if address == DIV_REG_ADDRESS {
            self.memory.set(DIV_REG_ADDRESS as usize, 0);
        } else {
            self.memory.set(address as usize, byte);
        }
        proof {
            assert(self@ =~= store8_spec(old(self)@, address, byte));
        }
    }

    /// Copy the first 256 bytes of ROM bank 0 over the boot-ROM window.
    fn unload_boot(&mut self)
        requires
            old(self).wf(),
        ensures
            final(self)@ == (if old(self)@.rom.len() > 0 {
                MemV {
                    mem: overlay(old(self)@.mem, 0, old(self)@.rom[0].subrange(0, 0x100)),
                    ..old(self)@
                }
            } else {
                old(self)@
            }),
            final(self).wf(),
    {
        if self.rom.len() > 0 {
            let mut i: usize = 0;
            while i < BOOTROM_SIZE
                invariant
                    old(self).wf(),
                    old(self)@.rom.len() > 0,
                    i <= BOOTROM_SIZE,
                    self.boot_rom == old(self).boot_rom,
                    self.rom == old(self).rom,
                    self.ram == old(self).ram,
                    self.cartridge == old(self).cartridge,
                    self.memory@.len() == 0x10000,
                    forall|j: int| 0 <= j < i ==> self.memory@[j] == old(self)@.rom[0][j],
                    forall|j: int| i <= j < 0x10000 ==> self.memory@[j] == old(self)@.mem[j],
                decreases BOOTROM_SIZE - i,
            {
                proof {
                    assert(old(self)@.rom[0].len() == 0x4000);
                    assert(self.rom@[0]@ == old(self)@.rom[0]);
                }
                let b = self.rom[0][i];
                assert(b == old(self)@.rom[0][i as int]);
                self.memory.set(i, b);
                i = i + 1;
            }
            proof {
                assert(self@.rom =~= old(self)@.rom);
                assert(self@.ram =~= old(self)@.ram);
                assert(self@.mem =~= overlay(old(self)@.mem, 0, old(self)@.rom[0].subrange(0, 0x100)));
                assert(self@ =~= MemV {
                    mem: overlay(old(self)@.mem, 0, old(self)@.rom[0].subrange(0, 0x100)),
                    ..old(self)@
                });
            }
        } else {
            proof {
                assert(self@ =~= old(self)@);
            }
        }
    }

    /// OAM DMA: copy 160 bytes from `byte << 8` into 0xFE00-0xFE9F.
    fn dma(&mut self, byte: Byte)
        requires
            old(self).wf(),
        ensures
            final(self)@ == (MemV {
                mem: overlay(
                    old(self)@.mem,
                    0xFE00,
                    old(self)@.mem.subrange(byte as int * 256, byte as int * 256 + 160),
                ),
                ..old(self)@
            }),
            final(self).wf(),
    {
        let src: usize = (byte as usize) * 256;
        let mut i: usize = 0;
        while i < 160
            invariant
                old(self).wf(),
                src == byte as int * 256,
                i <= 160,
                self.boot_rom == old(self).boot_rom,
                self.rom == old(self).rom,
                self.ram == old(self).ram,
                self.cartridge == old(self).cartridge,
                self.memory@.len() == 0x10000,
                forall|j: int| src <= j < src + 160 ==> self.memory@[j] == old(self)@.mem[j],
                forall|j: int| 0xFE00 <= j < 0xFE00 + i ==> self.memory@[j] == old(self)@.mem[src + (j - 0xFE00)],
                forall|j: int|
                    0 <= j < 0x10000 && !(0xFE00 <= j < 0xFE00 + i) ==> self.memory@[j] == old(self)@.mem[j],
            decreases 160 - i,
        {
            let b = self.memory[src + i];
            assert(b == old(self)@.mem[src + i as int]);
            self.memory.set(0xFE00 + i, b);
            i = i + 1;
        }
        proof {
            assert(self@.rom =~= old(self)@.rom);
            assert(self@.ram =~= old(self)@.ram);
            assert(self@.mem =~= overlay(
                old(self)@.mem,
                0xFE00,
                old(self)@.mem.subrange(byte as int * 256, byte as int * 256 + 160),
            ));
            assert(self@ =~= MemV {
                mem: overlay(
                    old(self)@.mem,
                    0xFE00,
                    old(self)@.mem.subrange(byte as int * 256, byte as int * 256 + 160),
                ),
                ..old(self)@
            });
        }
    }

    /// Make ROM bank `b` visible in the 0x4000-0x7FFF window.
    fn switch_bank(&mut self, b: usize)
        requires
            old(self).wf(),
            b < old(self)@.rom.len(),
        ensures
            final(self)@ == (MemV { mem: overlay(old(self)@.mem, 0x4000, old(self)@.rom[b as int]), ..old(self)@ }),
            final(self).wf(),
    {
        let mut i: usize = 0;
        while i < ROM_BANK_SIZE
            invariant
                old(self).wf(),
                b < old(self)@.rom.len(),
                i <= ROM_BANK_SIZE,
                self.boot_rom == old(self).boot_rom,
                self.rom == old(self).rom,
                self.ram == old(self).ram,
                self.cartridge == old(self).cartridge,
                self.memory@.len() == 0x10000,
                forall|j: int| 0x4000 <= j < 0x4000 + i ==> self.memory@[j] == old(self)@.rom[b as int][j - 0x4000],
                forall|j: int|
                    0 <= j < 0x10000 && !(0x4000 <= j < 0x4000 + i) ==> self.memory@[j] == old(self)@.mem[j],
            decreases ROM_BANK_SIZE - i,
        {
            proof {
                assert(old(self)@.rom[b as int].len() == 0x4000);
                assert(self.rom@[b as int]@ == old(self)@.rom[b as int]);
            }
            let v = self.rom[b][i];
            assert(v == old(self)@.rom[b as int][i as int]);
            self.memory.set(0x4000 + i, v);
            i = i + 1;
        }
        proof {
            assert(self@.rom =~= old(self)@.rom);
            assert(self@.ram =~= old(self)@.ram);
            assert(self@.mem =~= overlay(old(self)@.mem, 0x4000, old(self)@.rom[b as int]));
            assert(self@ =~= MemV { mem: overlay(old(self)@.mem, 0x4000, old(self)@.rom[b as int]), ..old(self)@ });
        }
    }

    /// Mapper-control write on MBC1/MBC3.
    fn mbc_control(&mut self, address: Address, v: Byte)
        requires
            old(self).wf(),
            address < 0x8000,
            old(self)@.cart is MBC1 || old(self)@.cart is MBC3,
        ensures
            final(self)@ == mbc_banking_spec(old(self)@, address, v),
            final(self).wf(),
    {
        let mask: u16 = if matches!(self.cartridge, CartridgeState::MBC3(_)) {
            128
        } else {
            32
        };
        if address < 0x2000 {
            let enabled = v % 16 == 0x0A;
            match self.cartridge {
                CartridgeState::MBC1(s) => {
                    self.cartridge = CartridgeState::MBC1(
                        MBC1State { ram_enabled: enabled, rom_number: s.rom_number, ram_number: s.ram_number },
                    );
                },
                CartridgeState::MBC3(s) => {
                    self.cartridge = CartridgeState::MBC3(
                        MBC3State { ram_enabled: enabled, rom_number: s.rom_number, ram_number: s.ram_number },
                    );
                },
                _ => {},
            }
            proof {
                assert(self@ =~= mbc_banking_spec(old(self)@, address, v));
            }
        } else if address < 0x4000 {
            let low: usize = (v as usize) % (mask as usize);
            let b0: usize = if low == 0 {
                1
            } else {
                low
            };
            let b: usize = b0 % self.rom.len();
            self.switch_bank(b);
            match self.cartridge {
                CartridgeState::MBC1(s) => {
                    self.cartridge = CartridgeState::MBC1(
                        MBC1State { ram_enabled: s.ram_enabled, rom_number: b, ram_number: s.ram_number },
                    );
                },
                CartridgeState::MBC3(s) => {
                    self.cartridge = CartridgeState::MBC3(
                        MBC3State { ram_enabled: s.ram_enabled, rom_number: b, ram_number: s.ram_number },
                    );
                },
                _ => {},
            }
            proof {
                assert(self@ =~= mbc_banking_spec(old(self)@, address, v));
            }
        } else if address < 0x6000 {
            let bank = (v % 4) as usize;
            match self.cartridge {
                CartridgeState::MBC1(s) => {
                    self.cartridge = CartridgeState::MBC1(
                        MBC1State { ram_enabled: s.ram_enabled, rom_number: s.rom_number, ram_number: bank },
                    );
                },
                CartridgeState::MBC3(s) => {
                    self.cartridge = CartridgeState::MBC3(
                        MBC3State { ram_enabled: s.ram_enabled, rom_number: s.rom_number, ram_number: bank },
                    );
                },
                _ => {},
            }
            proof {
                assert(self@ =~= mbc_banking_spec(old(self)@, address, v));
            }
        } else {
            proof {
                assert(self@ =~= mbc_banking_spec(old(self)@, address, v));
            }
        }
    }

    /// Write a byte through the memory management unit: bank-switch writes,
    /// OAM DMA, boot-ROM unmap and cartridge write rules all included.
    pub fn write_byte(&mut self, address: Address, byte: Byte)
        requires
            old(self).wf(),
        ensures
            final(self)@ == write8_spec(old(self)@, address, byte),
            final(self).wf(),
    {
        if address == UNLOAD_BOOT_ADDRESS {
            self.unload_boot();
        } else if address == DMA_ADDRESS {
            self.dma(byte);
        }
        let ct = self.get_cartridge_type();
        match ct {
            CartridgeType::Empty => {
                self.store8(address, byte);
            },
            CartridgeType::RomOnly => {
                if address >= 0x8000 {
                    self.store8(address, byte);
                }
            },
            CartridgeType::MBC1 => {
                if address >= 0x8000 {
                    self.store8(address, byte);
                } else {
                    self.mbc_control(address, byte);
                }
            },
            CartridgeType::MBC3 => {
                if address >= 0x8000 {
                    self.store8(address, byte);
                } else {
                    self.mbc_control(address, byte);
                }
            },
        }
    }

    pub open spec fn spec_cartridge_type(c: CartridgeState) -> CartridgeType {
        match c {
            CartridgeState::Empty => CartridgeType::Empty,
            CartridgeState::RomOnly(_) => CartridgeType::RomOnly,
            CartridgeState::MBC1(_) => CartridgeType::MBC1,
            CartridgeState::MBC3(_) => CartridgeType::MBC3,
        }
    }

    /// The mapper kind of the loaded cartridge.
    pub fn get_cartridge_type(&self) -> (r: CartridgeType)
        ensures
            r == Self::spec_cartridge_type(self@.cart),
    {
        match self.cartridge {
            CartridgeState::Empty => CartridgeType::Empty,
            CartridgeState::RomOnly(_) => CartridgeType::RomOnly,
            CartridgeState::MBC1(_) => CartridgeType::MBC1,
            CartridgeState::MBC3(_) => CartridgeType::MBC3,
        }
    }

    /// The mapper kind a ROM image names in its header.
    pub fn get_cartridge_type_rom(&self, rom: &Vec<Byte>) -> (r: CartridgeType)
        requires
            rom@.len() > 0x147,
            rom@[0x147] == 0x00 || rom@[0x147] == 0x01 || rom@[0x147] == 0x13,
        ensures
            r == (if rom@[0x147] == 0x00 {
                CartridgeType::RomOnly
            } else if rom@[0x147] == 0x01 {
                CartridgeType::MBC1
            } else {
                CartridgeType::MBC3
            }),
    {
        let rom_type = rom[MBC_TYPE_ADDRESS as usize];
        match rom_type {
            0x00 => CartridgeType::RomOnly,
            0x01 => CartridgeType::MBC1,
            _ => CartridgeType::MBC3,
        }
    }

    /// The ROM size code from the header.
    pub fn get_rom_size_rom(&self, rom: &Vec<Byte>) -> (r: usize)
        requires
            rom@.len() > 0x148,
        ensures
            r == rom@[0x148] as usize,
    {
        rom[ROM_SIZE_ADDRESS as usize] as usize
    }

    /// The RAM size code from the header.
    pub fn get_ram_size_rom(&self, rom: &Vec<Byte>) -> (r: usize)
        requires
            rom@.len() > 0x149,
        ensures
            r == rom@[0x149] as usize,
    {
        rom[RAM_SIZE_ADDRESS as usize] as usize
    }

    /// Increment the divider register directly. This is the clock's own
    /// path to DIV: it bypasses the write rule that resets DIV on every
    /// CPU-visible write.
    pub(crate) fn bump_div(&mut self)
        requires
            old(self).wf(),
        ensures
            final(self)@ == (MemV {
                mem: old(self)@.mem.update(0xFF04, crate::alu::wrap8(old(self)@.mem[0xFF04] + 1)),
                ..old(self)@
            }),
            final(self).wf(),
    {
        let v = self.memory[0xFF04];
        let nv: u8 = if v == 255 {
            0
        } else {
            v + 1
        };
        self.memory.set(0xFF04, nv);
        proof {
            assert(self@ =~= MemV {
                mem: old(self)@.mem.update(0xFF04, crate::alu::wrap8(old(self)@.mem[0xFF04] + 1)),
                ..old(self)@
            });
        }
    }

    /// Read the byte at `address`, add `value` with 8-bit wrap, and write
    /// the sum back through the memory management unit.
    pub fn wrapping_add(&mut self, address: Address, value: Byte)
        requires
            old(self).wf(),
        ensures
            final(self)@ == write8_spec(
                old(self)@,
                address,
                crate::alu::wrap8(old(self)@.mem[address as int] + value),
            ),
            final(self).wf(),
    {
        let mem_val = self.read_byte(address);
        let sum: u16 = mem_val as u16 + value as u16;
        self.write_byte(address, (sum % 256) as u8);
    }

    /// Load a boot ROM image: it becomes visible at 0x0000-0x00FF.
    pub fn load_boot(&mut self, boot_data: Vec<Byte>)
        requires
            old(self).wf(),
            boot_data@.len() == 0x100,
        ensures
            final(self)@ == (MemV {
                mem: overlay(old(self)@.mem, 0, boot_data@),
                boot: boot_data@,
                ..old(self)@
            }),
            final(self).wf(),
    {
        let mut i: usize = 0;
        while i < BOOTROM_SIZE
            invariant
                old(self).wf(),
                boot_data@.len() == 0x100,
                i <= BOOTROM_SIZE,
                self.rom == old(self).rom,
                self.ram == old(self).ram,
                self.cartridge == old(self).cartridge,
                self.memory@.len() == 0x10000,
                self.boot_rom@.len() == 0x100,
                forall|j: int| 0 <= j < i ==> self.memory@[j] == boot_data@[j],
                forall|j: int| i <= j < 0x10000 ==> self.memory@[j] == old(self)@.mem[j],
                forall|j: int| 0 <= j < i ==> self.boot_rom@[j] == boot_data@[j],
                forall|j: int| i <= j < 0x100 ==> self.boot_rom@[j] == old(self)@.boot[j],
            decreases BOOTROM_SIZE - i,
        {
            let b = boot_data[i];
            self.memory.set(i, b);
            self.boot_rom.set(i, b);
            i = i + 1;
        }
        proof {
            assert(self@.rom =~= old(self)@.rom);
            assert(self@.ram =~= old(self)@.ram);
            assert(self@.mem =~= overlay(old(self)@.mem, 0, boot_data@));
            assert(self@.boot =~= boot_data@);
            assert(self@ =~= MemV {
                mem: overlay(old(self)@.mem, 0, boot_data@),
                boot: boot_data@,
                ..old(self)@
            });
        }
    }

    /// Load a cartridge image: the header names the mapper and the bank
    /// count, the image is split into 16 KiB banks, and banks 0 and 1
    /// become visible (bank 0 outside the boot-ROM window).
    pub fn load_cartidge(&mut self, rom_data: Vec<Byte>)
        requires
            old(self).wf(),
            old(self)@.rom.len() == 0,
            old(self)@.cart is Empty,
            rom_data@.len() > 0x150,
            rom_data@[0x147] == 0x00 || rom_data@[0x147] == 0x01 || rom_data@[0x147] == 0x13,
            rom_data@.len() == 0x4000 * vstd::arithmetic::power2::pow2((rom_data@[0x148] + 1) as nat),
        ensures
            final(self).wf(),
            final(self)@.boot == old(self)@.boot,
            final(self)@.ram == old(self)@.ram,
            final(self)@.cart == (if rom_data@[0x147] == 0x00 {
                CartridgeState::RomOnly(RomState {})
            } else if rom_data@[0x147] == 0x01 {
                CartridgeState::MBC1(MBC1State { ram_enabled: false, rom_number: 1, ram_number: 0 })
            } else {
                CartridgeState::MBC3(MBC3State { ram_enabled: false, rom_number: 1, ram_number: 0 })
            }),
            final(self)@.rom.len() == rom_data@.len() / 0x4000,
            forall|i: int, j: int|
                0 <= i < final(self)@.rom.len() && 0 <= j < 0x4000 ==> final(self)@.rom[i][j] == rom_data@[i
                    * 0x4000 + j],
            forall|k: int| 0x100 <= k < 0x8000 ==> final(self)@.mem[k] == rom_data@[k],
            forall|k: int|
                (0 <= k < 0x100 || 0x8000 <= k < 0x10000) ==> final(self)@.mem[k] == old(self)@.mem[k],
    {
        proof {
            vstd::arithmetic::power2::lemma_pow2_strictly_increases(
                0,
                (rom_data@[0x148] + 1) as nat,
            );
        }
        let ctype = self.get_cartridge_type_rom(&rom_data);
        self.cartridge = match ctype {
            CartridgeType::RomOnly => CartridgeState::RomOnly(RomState {}),
            CartridgeType::MBC1 => CartridgeState::MBC1(MBC1State::new()),
            CartridgeType::MBC3 => CartridgeState::MBC3(MBC3State::new()),
            CartridgeType::Empty => CartridgeState::Empty,
        };
        let ghost cart0 = self.cartridge;
        let total: usize = rom_data.len();
        let banks: usize = total / ROM_BANK_SIZE;
        proof {
            let p = vstd::arithmetic::power2::pow2((rom_data@[0x148] + 1) as nat) as int;
            vstd::arithmetic::power2::lemma2_to64();
            assert(total == 0x4000 * p);
            assert((0x4000 * p) / 0x4000 == p) by (nonlinear_arith);
        }
        assert(banks >= 2);
        assert(banks * 0x4000 == rom_data@.len());
        let mut i: usize = 0;
        while i < banks
            invariant
                banks * 0x4000 == rom_data@.len(),
                rom_data@.len() <= usize::MAX,
                i <= banks,
                self.rom@.len() == i,
                forall|b: int, j: int|
                    0 <= b < i && 0 <= j < 0x4000 ==> (#[trigger] self.rom@[b]@[j]) == rom_data@[b * 0x4000
                        + j],
                forall|b: int| 0 <= b < i ==> (#[trigger] self.rom@[b]@).len() == 0x4000,
                self.memory == old(self).memory,
                self.boot_rom == old(self).boot_rom,
                self.ram == old(self).ram,
                self.cartridge == cart0,
            decreases banks - i,
        {
            let mut bank: Vec<Byte> = Vec::new();
            let mut j: usize = 0;
            while j < ROM_BANK_SIZE
                invariant
                    banks * 0x4000 == rom_data@.len(),
                    rom_data@.len() <= usize::MAX,
                    i < banks,
                    j <= ROM_BANK_SIZE,
                    bank@.len() == j,
                    forall|k: int| 0 <= k < j ==> bank@[k] == rom_data@[i * 0x4000 + k],
                decreases ROM_BANK_SIZE - j,
            {
                assert(i * 0x4000 <= (banks - 1) * 0x4000) by (nonlinear_arith)
                    requires
                        i < banks,
                ;
                assert(i * 0x4000 + j < banks * 0x4000);
                bank.push(rom_data[i * ROM_BANK_SIZE + j]);
                j = j + 1;
            }
            self.rom.push(bank);
            i = i + 1;
        }
        let mut k: usize = BOOTROM_SIZE;
        while k < 2 * ROM_BANK_SIZE
            invariant
                old(self).wf(),
                banks * 0x4000 == rom_data@.len(),
                banks >= 2,
                0x100 <= k <= 0x8000,
                rom_data@.len() >= 0x8000,
                self.memory@.len() == 0x10000,
                forall|j: int| 0x100 <= j < k ==> self.memory@[j] == rom_data@[j],
                forall|j: int|
                    (0 <= j < 0x100 || k <= j < 0x10000) ==> self.memory@[j] == old(self)@.mem[j],
                self.boot_rom == old(self).boot_rom,
                self.ram == old(self).ram,
                self.rom@.len() == banks,
                forall|b: int, j: int|
                    0 <= b < banks && 0 <= j < 0x4000 ==> (#[trigger] self.rom@[b]@[j]) == rom_data@[b
                        * 0x4000 + j],
                forall|b: int| 0 <= b < banks ==> (#[trigger] self.rom@[b]@).len() == 0x4000,
                self.cartridge == cart0,
            decreases 2 * ROM_BANK_SIZE - k,
        {
            let b = rom_data[k];
            self.memory.set(k, b);
            k = k + 1;
        }
        proof {
            assert(self@.ram =~= old(self)@.ram);
            assert(forall|b: int| 0 <= b < banks ==> (#[trigger] self@.rom[b]) == self.rom@[b]@);
        }
    }

    /// Overwrite the start of the flat space with the given bytes; a test
    /// convenience that bypasses the mapper.
    pub fn write_test(&mut self, rom: Vec<Byte>)
        requires
            old(self).wf(),
            rom@.len() <= 0x10000,
        ensures
            final(self)@ == (MemV { mem: overlay(old(self)@.mem, 0, rom@), ..old(self)@ }),
            final(self).wf(),
    {
        let n = rom.len();
        let mut i: usize = 0;
        while i < n
            invariant
                old(self).wf(),
                n == rom@.len() <= 0x10000,
                i <= n,
                self.boot_rom == old(self).boot_rom,
                self.rom == old(self).rom,
                self.ram == old(self).ram,
                self.cartridge == old(self).cartridge,
                self.memory@.len() == 0x10000,
                forall|j: int| 0 <= j < i ==> self.memory@[j] == rom@[j],
                forall|j: int| i <= j < 0x10000 ==> self.memory@[j] == old(self)@.mem[j],
            decreases n - i,
        {
            let b = rom[i];
            self.memory.set(i, b);
            i = i + 1;
        }
        proof {
            assert(self@.rom =~= old(self)@.rom);
            assert(self@.ram =~= old(self)@.ram);
            assert(self@.mem =~= overlay(old(self)@.mem, 0, rom@));
            assert(self@ =~= MemV { mem: overlay(old(self)@.mem, 0, rom@), ..old(self)@ });
        }
    }
}

// ---------- laws ----------

/// Writes the cartridge accepts are read back: outside the divider register
/// (which any write resets), a write to a writable region stores the byte.
pub proof fn law_write_then_read(m: MemV, a: u16, v: u8)
    requires
        memv_wf(m),
        a >= 0x8000 || m.cart is Empty,
        a != 0xFF04,
    ensures
        write8_spec(m, a, v).mem[a as int] == v,
{
}

/// After a DMA trigger with value `n`, the OAM region holds the 160 bytes
/// that stood at `n << 8` before the write.
pub proof fn law_dma_copies(m: MemV, n: u8, i: int)
    requires
        memv_wf(m),
        0 <= i < 160,
    ensures
        write8_spec(m, 0xFF46, n).mem[0xFE00 + i] == m.mem[n as int * 256 + i],
{
}

/// After a write to the boot-unmap register, the first 256 bytes of the
/// visible space are the first 256 bytes of cartridge ROM bank 0.
pub proof fn law_boot_unmap(m: MemV, v: u8, i: int)
    requires
        memv_wf(m),
        m.rom.len() > 0,
        0 <= i < 0x100,
    ensures
        write8_spec(m, 0xFF50, v).mem[i] == m.rom[0][i],
{
}

} // verus!
