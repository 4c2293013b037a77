//! The LR35902 CPU: registers and flags, the instruction decoder over the
//! bit-masked opcode map, and the executor with exact per-instruction
//! contracts including machine-cycle accounting and interrupt service.

use vstd::prelude::*;

use crate::alu::{
    add8, adc8, add16hl, addsp16, and8, bit_mask_of, cpl8, daa8, dec8, flag_c, flag_z, inc8,
    mk_f, mk_flags, or8, rlc_core, rl_core, rot_flags, rrc_core, rr_core, s_add, s_adc, s_add16,
    s_addsp, s_and, s_bit_mask, s_bit_test, s_cpl, s_daa, s_dec, s_inc, s_or, s_rl, s_rlc, s_rr,
    s_rrc, s_sbc, s_sla, s_sra, s_srl, s_sub, s_swap, s_xor, sbc8, sla_core, sra_core, srl_core,
    sub8, swap_core, wrap16, wrap8, xor8,
};
use crate::clock::{Clock, tick_clock_spec, tick_mem_spec};
use crate::memory::{MemV, Memory, write8_spec};
use crate::utils::{Address, Byte, SignedByte, Word, bytes2word, single_bit};

verus! {

// ----- flag bits of F -----
pub const ZERO_FLAG: Byte = 0b10000000;

pub const SUBTRACT_FLAG: Byte = 0b01000000;

pub const HALF_CARRY_FLAG: Byte = 0b00100000;

pub const CARRY_FLAG: Byte = 0b00010000;

// ----- interrupt registers and bits -----
pub const INTERRUPT_FLAG_ADDRESS: Address = 0xFF0F;

pub const INTERRUPT_ENABLE_ADDRESS: Address = 0xFFFF;

pub const VBLANK_FLAG: Byte = 0b1;

pub const LCD_FLAG: Byte = 0b10;

pub const TIMER_FLAG: Byte = 0b100;

pub const SERIAL_FLAG: Byte = 0b1000;

pub const JOYPAD_FLAG: Byte = 0b10000;

#[derive(Debug, Clone, Copy, PartialEq, Eq, Hash, Structural)]
pub enum Register {
    A,
    B,
    C,
    D,
    E,
    H,
    L,
    HL,
}

#[derive(Debug, Clone, Copy, PartialEq, Eq, Hash, Structural)]
pub enum Register16 {
    BC,
    DE,
    HL,
    SP,
    AF,
}

/// The 8-bit register selected by a 3-bit field, index 6 meaning "(HL)".
pub open spec fn s_get_r(code: Byte) -> Register {
    let c = code & 0b111;
    if c == 0 {
        Register::B
    } else if c == 1 {
        Register::C
    } else if c == 2 {
        Register::D
    } else if c == 3 {
        Register::E
    } else if c == 4 {
        Register::H
    } else if c == 5 {
        Register::L
    } else if c == 6 {
        Register::HL
    } else {
        Register::A
    }
}

/// The 16-bit register pair selected by a 2-bit field; index 3 is SP or AF.
pub open spec fn s_get_rr16(code: Byte, sp: bool) -> Register16 {
    let c = code & 0b11;
    if c == 0 {
        Register16::BC
    } else if c == 1 {
        Register16::DE
    } else if c == 2 {
        Register16::HL
    } else if sp {
        Register16::SP
    } else {
        Register16::AF
    }
}

impl Register {
    /// Decode a 3-bit register selector (the low bits of `code`).
    pub fn get_r(code: Byte) -> (r: Self)
        ensures
            r == s_get_r(code),
    {
        let c = code & 0b111;
        if c == 0 {
            Self::B
        } else if c == 1 {
            Self::C
        } else if c == 2 {
            Self::D
        } else if c == 3 {
            Self::E
        } else if c == 4 {
            Self::H
        } else if c == 5 {
            Self::L
        } else if c == 6 {
            Self::HL
        } else {
            Self::A
        }
    }

    /// Decode a pair of 3-bit register selectors from bits 5-3 and 2-0.
    pub fn get_rr(code: Byte) -> (r: (Self, Self))
        ensures
            r.0 == s_get_r((code >> 3) & 0b111),
            r.1 == s_get_r(code & 0b111),
    {
        let lr_code = (code >> 3) & 0b111;
        let rr_code = code & 0b111;
        (Self::get_r(lr_code), Self::get_r(rr_code))
    }
}

impl Register16 {
    /// Decode a 2-bit register-pair selector; `sp` chooses SP over AF for
    /// index 3.
    pub fn get_rr(code: Byte, sp: bool) -> (r: Self)
        ensures
            r == s_get_rr16(code, sp),
    {
        let c = code & 0b11;
        if c == 0 {
            Self::BC
        } else if c == 1 {
            Self::DE
        } else if c == 2 {
            Self::HL
        } else if sp {
            Self::SP
        } else {
            Self::AF
        }
    }
}

#[derive(Debug, Clone, Copy, PartialEq, Eq, Hash, Structural)]
pub enum Condition {
    NonZero,
    Zero,
    NotCarry,
    Carry,
}

/// The branch condition selected by a 2-bit field.
pub open spec fn s_cond(code: Byte) -> Condition {
    let c = code & 0b11;
    if c == 0 {
        Condition::NonZero
    } else if c == 1 {
        Condition::Zero
    } else if c == 2 {
        Condition::NotCarry
    } else {
        Condition::Carry
    }
}

impl Condition {
    pub fn get_cond(code: Byte) -> (r: Self)
        ensures
            r == s_cond(code),
    {
        let c = code & 0b11;
        if c == 0 {
            Self::NonZero
        } else if c == 1 {
            Self::Zero
        } else if c == 2 {
            Self::NotCarry
        } else {
            Self::Carry
        }
    }
}

#[derive(Debug, Clone, Copy, PartialEq, Eq, Hash, Structural)]
#[allow(non_camel_case_types)]
pub enum Instruction {
    /// Load register (register)
    LD_R_R(Register, Register),
    /// Load register (immediate)
    LD_R_N(Register, Byte),
    /// Load register (indirect HL)
    LD_R_HL(Register),
    /// Load from register (indirect HL)
    LD_HL_R(Register),
    /// Load from immediate data (indirect HL)
    LD_HL_N(Byte),
    /// Load accumulator BC
    LD_A_BC,
    /// Load accumulator DE
    LD_A_DE,
    /// Load from accumulator BC
    LD_BC_A,
    /// Load from accumulator DE
    LD_DE_A,
    /// Load accumulator
    LD_A_NN(Address),
    /// Load from accumulator
    LD_NN_A(Address),
    /// Load accumulator (indirect 0xFF00+C)
    LDH_A_C,
    /// Load from accumulator (indirect 0xFF00+C)
    LDH_C_A,
    /// Load accumulator (direct 0xFF00+n)
    LDH_A_N(Byte),
    /// Load from accumulator (indirect 0xFF00+n)
    LDH_N_A(Byte),
    /// Load accumulator (indirect HL, decrement)
    LD_A_HL_D,
    /// Load accumulator (indirect HL, increment)
    LD_A_HL_I,
    /// Load from accumulator (indirect HL, decrement)
    LD_HL_A_D,
    /// Load from accumulator (indirect HL, increment)
    LD_HL_A_I,
    /// Load 16-bit register / register pair
    LD_RR_NN(Register16, Word),
    /// Load from stack pointer (direct)
    LD_NN_SP(Word),
    /// Load stack pointer from HL
    LD_SP_HL,
    /// Load HL from adjusted stack pointer
    LD_HL_SP(SignedByte),
    /// Push to stack
    PUSH(Register16),
    /// Pop from stack
    POP(Register16),
    /// Add (register)
    ADD_R(Register),
    /// Add (indirect HL)
    ADD_HL,
    /// Add (immediate)
    ADD_N(Byte),
    /// Subtract (register)
    SUB_R(Register),
    /// Subtract (indirect HL)
    SUB_HL,
    /// Subtract (immediate)
    SUB_N(Byte),
    /// And (register)
    AND_R(Register),
    /// And (indirect HL)
    AND_HL,
    /// And (immediate)
    AND_N(Byte),
    /// Or (register)
    OR_R(Register),
    /// Or (indirect HL)
    OR_HL,
    /// Or (immediate)
    OR_N(Byte),
    /// Add with carry (register)
    ADC_R(Register),
    /// Add with carry (indirect HL)
    ADC_HL,
    /// Add with carry (immediate)
    ADC_N(Byte),
    /// Subtract with carry (register)
    SBC_R(Register),
    /// Subtract with carry (indirect HL)
    SBC_HL,
    /// Subtract with carry (immediate)
    SBC_N(Byte),
    /// Exclusive or (register)
    XOR_R(Register),
    /// Exclusive or (indirect HL)
    XOR_HL,
    /// Exclusive or (immediate)
    XOR_N(Byte),
    /// Compare (register)
    CP_R(Register),
    /// Compare (indirect HL)
    CP_HL,
    /// Compare (immediate)
    CP_N(Byte),
    /// Increment (register)
    INC_R(Register),
    /// Increment (register 16)
    INC_RR(Register16),
    /// Increment (indirect HL)
    INC_HL,
    /// Decrement (register)
    DEC_R(Register),
    /// Decrement (register 16)
    DEC_RR(Register16),
    /// Decrement (indirect HL)
    DEC_HL,
    /// Add (16-bit register)
    ADD_HL_RR(Register16),
    /// Add to stack pointer (relative)
    ADD_SP_E(SignedByte),
    /// Rotate left circular (accumulator)
    RLCA,
    /// Rotate right circular (accumulator)
    RRCA,
    /// Rotate left (accumulator)
    RLA,
    /// Rotate right (accumulator)
    RRA,
    /// Rotate left circular (register)
    RLC(Register),
    /// Rotate left circular (indirect HL)
    RLC_HL,
    /// Rotate right circular (register)
    RRC(Register),
    /// Rotate right circular (indirect HL)
    RRC_HL,
    /// Rotate left (register)
    RL(Register),
    /// Rotate left (indirect HL)
    RL_HL,
    /// Rotate right (register)
    RR(Register),
    /// Rotate right (indirect HL)
    RR_HL,
    /// Shift left arithmetic (register)
    SLA(Register),
    /// Shift left arithmetic (indirect HL)
    SLA_HL,
    /// Shift right arithmetic (register)
    SRA(Register),
    /// Shift right arithmetic (indirect HL)
    SRA_HL,
    /// Swap nibbles (register)
    SWAP(Register),
    /// Swap nibbles (indirect HL)
    SWAP_HL,
    /// Shift right logical (register)
    SRL(Register),
    /// Shift right logical (indirect HL)
    SRL_HL,
    /// Test bit (register)
    BIT(Byte, Register),
    /// Test bit (indirect HL)
    BIT_HL(Byte),
    /// Reset bit (register)
    RES(Byte, Register),
    /// Reset bit (indirect HL)
    RES_HL(Byte),
    /// Set bit (register)
    SET(Byte, Register),
    /// Set bit (indirect HL)
    SET_HL(Byte),
    /// Unconditional jump
    JP_NN(Address),
    /// Jump to hl
    JP_HL,
    /// Conditional jump to nn
    JP_CC_NN(Condition, Address),
    /// Relative jump
    JR(SignedByte),
    /// Conditional relative jump
    JR_CC(Condition, SignedByte),
    /// Call function
    CALL(Address),
    /// Call function conditional
    CALL_CC(Condition, Address),
    /// Return from function
    RET,
    /// Return from function conditional
    RET_CC(Condition),
    /// Return from interrupt handler
    RETI,
    /// Restart / call function (implied)
    RST(Byte),
    /// Complement carry flag
    CCF,
    /// Set carry flag
    SCF,
    /// Decimal adjust accumulator
    DAA,
    /// Complement accumulator
    CPL,
    /// Enable interrupt
    EI,
    /// Disable interrupt
    DI,
    /// No operation
    NOP,
    HALT,
    STOP,
}

#[derive(Debug, Clone, Copy, PartialEq, Eq, Structural)]
pub struct SizedInstruction {
    pub instruction: Instruction,
    pub size: Word,
}

/// An opcode template: a pattern byte and the mask under which an opcode
/// must equal it.
#[derive(Debug, Clone, Copy, PartialEq, Eq, Structural)]
pub struct OpCode(pub Byte, pub Byte);

impl OpCode {
    /// Whether the opcode `code` matches this template under its mask.
    pub fn matches(&self, code: Byte) -> (r: bool)
        ensures
            r == ((code & self.1) == self.0),
    {
        (code & self.1) == self.0
    }
}

/// Decoder for the CB-prefixed page: rotates, shifts, swap and the
/// bit-test/reset/set instructions. Every byte decodes.
pub open spec fn spec_decode_cb(b: Byte) -> Instruction {
    let r = s_get_r(b);
    if b & 0b11000000 == 0 {
        if b & 0b1000 != 0 {
            if b / 16 == 0 {
                if r == Register::HL {
                    Instruction::RRC_HL
                } else {
                    Instruction::RRC(r)
                }
            } else if b / 16 == 1 {
                if r == Register::HL {
                    Instruction::RR_HL
                } else {
                    Instruction::RR(r)
                }
            } else if b / 16 == 2 {
                if r == Register::HL {
                    Instruction::SRA_HL
                } else {
                    Instruction::SRA(r)
                }
            } else {
                if r == Register::HL {
                    Instruction::SRL_HL
                } else {
                    Instruction::SRL(r)
                }
            }
        } else {
            if b / 16 == 0 {
                if r == Register::HL {
                    Instruction::RLC_HL
                } else {
                    Instruction::RLC(r)
                }
            } else if b / 16 == 1 {
                if r == Register::HL {
                    Instruction::RL_HL
                } else {
                    Instruction::RL(r)
                }
            } else if b / 16 == 2 {
                if r == Register::HL {
                    Instruction::SLA_HL
                } else {
                    Instruction::SLA(r)
                }
            } else {
                if r == Register::HL {
                    Instruction::SWAP_HL
                } else {
                    Instruction::SWAP(r)
                }
            }
        }
    } else {
        let bi = (b >> 3) & 0b111;
        if b >> 6 == 1 {
            if r == Register::HL {
                Instruction::BIT_HL(bi)
            } else {
                Instruction::BIT(bi, r)
            }
        } else if b >> 6 == 2 {
            if r == Register::HL {
                Instruction::RES_HL(bi)
            } else {
                Instruction::RES(bi, r)
            }
        } else {
            if r == Register::HL {
                Instruction::SET_HL(bi)
            } else {
                Instruction::SET(bi, r)
            }
        }
    }
}

/// Decoder for the full opcode map: the instruction and its size in bytes,
/// from the opcode byte and the two bytes that follow it. Bytes that are
/// not in the map give `None`.
pub open spec fn spec_decode(b0: Byte, b1: Byte, b2: Byte) -> Option<SizedInstruction> {
    let nn = (b2 * 256 + b1) as Word;
    if b0 == 0 {
        Some(SizedInstruction { instruction: Instruction::NOP, size: 1 })
    } else if b0 & 0b11000000 == 0b01000000 {
        let lr = s_get_r((b0 >> 3) & 0b111);
        let rr = s_get_r(b0 & 0b111);
        let instruction = if lr == Register::HL && rr == Register::HL {
            Instruction::HALT
        } else if lr == Register::HL {
            Instruction::LD_HL_R(rr)
        } else if rr == Register::HL {
            Instruction::LD_R_HL(lr)
        } else {
            Instruction::LD_R_R(lr, rr)
        };
        Some(SizedInstruction { instruction, size: 1 })
    } else if b0 & 0b11000111 == 0b00000110 {
        let r = s_get_r(b0 >> 3);
        let instruction = if r == Register::HL {
            Instruction::LD_HL_N(b1)
        } else {
            Instruction::LD_R_N(r, b1)
        };
        Some(SizedInstruction { instruction, size: 2 })
    } else if b0 & 0b11101111 == 0b11101010 {
        let instruction = if b0 & 0b10000 != 0 {
            Instruction::LD_A_NN(nn)
        } else {
            Instruction::LD_NN_A(nn)
        };
        Some(SizedInstruction { instruction, size: 3 })
    } else if b0 & 0b11101111 == 0b11100010 {
        let instruction = if b0 & 0b10000 != 0 {
            Instruction::LDH_A_C
        } else {
            Instruction::LDH_C_A
        };
        Some(SizedInstruction { instruction, size: 1 })
    } else if b0 & 0b11101111 == 0b11100000 {
        let instruction = if b0 & 0b10000 != 0 {
            Instruction::LDH_A_N(b1)
        } else {
            Instruction::LDH_N_A(b1)
        };
        Some(SizedInstruction { instruction, size: 2 })
    } else if b0 & 0b11000111 == 0b00000010 {
        let instruction = if b0 & 0b1000 != 0 {
            if b0 / 16 == 0 {
                Instruction::LD_A_BC
            } else if b0 / 16 == 1 {
                Instruction::LD_A_DE
            } else if b0 / 16 == 2 {
                Instruction::LD_A_HL_I
            } else {
                Instruction::LD_A_HL_D
            }
        } else {
            if b0 / 16 == 0 {
                Instruction::LD_BC_A
            } else if b0 / 16 == 1 {
                Instruction::LD_DE_A
            } else if b0 / 16 == 2 {
                Instruction::LD_HL_A_I
            } else {
                Instruction::LD_HL_A_D
            }
        };
        Some(SizedInstruction { instruction, size: 1 })
    } else if b0 & 0b11001111 == 0b00000001 {
        Some(
            SizedInstruction {
                instruction: Instruction::LD_RR_NN(s_get_rr16(b0 >> 4, true), nn),
                size: 3,
            },
        )
    } else if b0 == 0b00001000 {
        Some(SizedInstruction { instruction: Instruction::LD_NN_SP(nn), size: 3 })
    } else if b0 & 0b11111110 == 0b11111000 {
        if b0 & 1 == 1 {
            Some(SizedInstruction { instruction: Instruction::LD_SP_HL, size: 1 })
        } else {
            Some(SizedInstruction { instruction: Instruction::LD_HL_SP(b1 as SignedByte), size: 2 })
        }
    } else if b0 & 0b11001011 == 0b11000001 {
        let rr = s_get_rr16(b0 >> 4, false);
        let instruction = if b0 & 0b100 != 0 {
            Instruction::PUSH(rr)
        } else {
            Instruction::POP(rr)
        };
        Some(SizedInstruction { instruction, size: 1 })
    } else if b0 & 0b11001000 == 0b10000000 {
        let r = s_get_r(b0);
        let instruction = if b0 / 16 == 8 {
            if r == Register::HL {
                Instruction::ADD_HL
            } else {
                Instruction::ADD_R(r)
            }
        } else if b0 / 16 == 9 {
            if r == Register::HL {
                Instruction::SUB_HL
            } else {
                Instruction::SUB_R(r)
            }
        } else if b0 / 16 == 0xa {
            if r == Register::HL {
                Instruction::AND_HL
            } else {
                Instruction::AND_R(r)
            }
        } else {
            if r == Register::HL {
                Instruction::OR_HL
            } else {
                Instruction::OR_R(r)
            }
        };
        Some(SizedInstruction { instruction, size: 1 })
    } else if b0 & 0b11001000 == 0b10001000 {
        let r = s_get_r(b0);
        let instruction = if b0 / 16 == 8 {
            if r == Register::HL {
                Instruction::ADC_HL
            } else {
                Instruction::ADC_R(r)
            }
        } else if b0 / 16 == 9 {
            if r == Register::HL {
                Instruction::SBC_HL
            } else {
                Instruction::SBC_R(r)
            }
        } else if b0 / 16 == 0xa {
            if r == Register::HL {
                Instruction::XOR_HL
            } else {
                Instruction::XOR_R(r)
            }
        } else {
            if r == Register::HL {
                Instruction::CP_HL
            } else {
                Instruction::CP_R(r)
            }
        };
        Some(SizedInstruction { instruction, size: 1 })
    } else if b0 & 0b11001111 == 0b11000110 {
        let instruction = if b0 / 16 == 0xc {
            Instruction::ADD_N(b1)
        } else if b0 / 16 == 0xd {
            Instruction::SUB_N(b1)
        } else if b0 / 16 == 0xe {
            Instruction::AND_N(b1)
        } else {
            Instruction::OR_N(b1)
        };
        Some(SizedInstruction { instruction, size: 2 })
    } else if b0 & 0b11001111 == 0b11001110 {
        let instruction = if b0 / 16 == 0xc {
            Instruction::ADC_N(b1)
        } else if b0 / 16 == 0xd {
            Instruction::SBC_N(b1)
        } else if b0 / 16 == 0xe {
            Instruction::XOR_N(b1)
        } else {
            Instruction::CP_N(b1)
        };
        Some(SizedInstruction { instruction, size: 2 })
    } else if b0 & 0b11000110 == 0b00000100 {
        let r = s_get_r(b0 >> 3);
        let instruction = if b0 & 1 == 0 {
            if r == Register::HL {
                Instruction::INC_HL
            } else {
                Instruction::INC_R(r)
            }
        } else {
            if r == Register::HL {
                Instruction::DEC_HL
            } else {
                Instruction::DEC_R(r)
            }
        };
        Some(SizedInstruction { instruction, size: 1 })
    } else if b0 & 0b11110111 == 0b00110111 {
        let instruction = if b0 & 0b1000 != 0 {
            Instruction::CCF
        } else {
            Instruction::SCF
        };
        Some(SizedInstruction { instruction, size: 1 })
    } else if b0 & 0b11000111 == 0b00000011 {
        let rr = s_get_rr16(b0 >> 4, true);
        let instruction = if b0 & 0b1000 != 0 {
            Instruction::DEC_RR(rr)
        } else {
            Instruction::INC_RR(rr)
        };
        Some(SizedInstruction { instruction, size: 1 })
    } else if b0 & 0b11100110 == 0b11000100 {
        let instruction = if b0 & 1 != 0 {
            Instruction::CALL(nn)
        } else {
            Instruction::CALL_CC(s_cond(b0 >> 3), nn)
        };
        Some(SizedInstruction { instruction, size: 3 })
    } else if b0 == 0b11001001 {
        Some(SizedInstruction { instruction: Instruction::RET, size: 1 })
    } else if b0 & 0b11100111 == 0b11000000 {
        Some(SizedInstruction { instruction: Instruction::RET_CC(s_cond(b0 >> 3)), size: 1 })
    } else if b0 == 0b11011001 {
        Some(SizedInstruction { instruction: Instruction::RETI, size: 1 })
    } else if b0 & 0b11000111 == 0b11000111 {
        let n = ((b0 >> 3) & 0b111) as Byte;
        Some(SizedInstruction { instruction: Instruction::RST((n * 8) as Byte), size: 1 })
    } else if b0 == 0b11000011 {
        Some(SizedInstruction { instruction: Instruction::JP_NN(nn), size: 3 })
    } else if b0 == 0b11101001 {
        Some(SizedInstruction { instruction: Instruction::JP_HL, size: 1 })
    } else if b0 & 0b11100111 == 0b11000010 {
        Some(SizedInstruction { instruction: Instruction::JP_CC_NN(s_cond(b0 >> 3), nn), size: 3 })
    } else if b0 == 0b00011000 {
        Some(SizedInstruction { instruction: Instruction::JR(b1 as SignedByte), size: 2 })
    } else if b0 & 0b11100111 == 0b00100000 {
        Some(
            SizedInstruction {
                instruction: Instruction::JR_CC(s_cond(b0 >> 3), b1 as SignedByte),
                size: 2,
            },
        )
    } else if b0 == 0x27 {
        Some(SizedInstruction { instruction: Instruction::DAA, size: 1 })
    } else if b0 & 0b11001111 == 0b00001001 {
        Some(
            SizedInstruction { instruction: Instruction::ADD_HL_RR(s_get_rr16(b0 >> 4, true)), size: 1 },
        )
    } else if b0 == 0b11101000 {
        Some(SizedInstruction { instruction: Instruction::ADD_SP_E(b1 as SignedByte), size: 2 })
    } else if b0 & 0b11101111 == 0b00101111 {
        let instruction = if b0 & 0b10000 != 0 {
            Instruction::CCF
        } else {
            Instruction::CPL
        };
        Some(SizedInstruction { instruction, size: 1 })
    } else if b0 & 0b11100111 == 0b00000111 {
        let instruction = if b0 & 0b1000 != 0 {
            if b0 & 0b10000 != 0 {
                Instruction::RRA
            } else {
                Instruction::RRCA
            }
        } else {
            if b0 & 0b10000 != 0 {
                Instruction::RLA
            } else {
                Instruction::RLCA
            }
        };
        Some(SizedInstruction { instruction, size: 1 })
    } else if b0 == 0xCB {
        Some(SizedInstruction { instruction: spec_decode_cb(b1), size: 2 })
    } else if b0 & 0b11110111 == 0b11110011 {
        let instruction = if b0 & 0b1000 != 0 {
            Instruction::EI
        } else {
            Instruction::DI
        };
        Some(SizedInstruction { instruction, size: 1 })
    } else {
        None
    }
}

impl SizedInstruction {
    /// Decode the CB-prefixed instruction selected by byte `b`; its size is
    /// 1 byte beyond the prefix.
    pub fn decode_cb(b: Byte) -> (r: Self)
        ensures
            r == (SizedInstruction { instruction: spec_decode_cb(b), size: 1 }),
    {
        let r = Register::get_r(b);
        let instruction = if (b & 0b11000000) == 0 {
            if b & 0b1000 != 0 {
                if b / 16 == 0 {
                    if r == Register::HL {
                        Instruction::RRC_HL
                    } else {
                        Instruction::RRC(r)
                    }
                } else if b / 16 == 1 {
                    if r == Register::HL {
                        Instruction::RR_HL
                    } else {
                        Instruction::RR(r)
                    }
                } else if b / 16 == 2 {
                    if r == Register::HL {
                        Instruction::SRA_HL
                    } else {
                        Instruction::SRA(r)
                    }
                } else {
                    if r == Register::HL {
                        Instruction::SRL_HL
                    } else {
                        Instruction::SRL(r)
                    }
                }
            } else {
                if b / 16 == 0 {
                    if r == Register::HL {
                        Instruction::RLC_HL
                    } else {
                        Instruction::RLC(r)
                    }
                } else if b / 16 == 1 {
                    if r == Register::HL {
                        Instruction::RL_HL
                    } else {
                        Instruction::RL(r)
                    }
                } else if b / 16 == 2 {
                    if r == Register::HL {
                        Instruction::SLA_HL
                    } else {
                        Instruction::SLA(r)
                    }
                } else {
                    if r == Register::HL {
                        Instruction::SWAP_HL
                    } else {
                        Instruction::SWAP(r)
                    }
                }
            }
        } else {
            let bi = (b >> 3) & 0b111;
            if b >> 6 == 1 {
                if r == Register::HL {
                    Instruction::BIT_HL(bi)
                } else {
                    Instruction::BIT(bi, r)
                }
            } else if b >> 6 == 2 {
                if r == Register::HL {
                    Instruction::RES_HL(bi)
                } else {
                    Instruction::RES(bi, r)
                }
            } else {
                if r == Register::HL {
                    Instruction::SET_HL(bi)
                } else {
                    Instruction::SET(bi, r)
                }
            }
        };
        SizedInstruction { instruction, size: 1 }
    }

    /// Decode the instruction at `address`: bit-masked pattern matching on
    /// the opcode byte, reading operand bytes behind it (addresses wrap at
    /// the top of the space). Bytes outside the opcode map give `None`.
    pub fn decode(memory: &Memory, address: Address) -> (r: Option<Self>)
        requires
            memory.wf(),
        ensures
            r == spec_decode(
                memory@.mem[address as int],
                memory@.mem[wrap16(address + 1) as int],
                memory@.mem[wrap16(address + 2) as int],
            ),
    {
        let opcode = memory.read_byte(address);
        let a1: Address = if address == 0xFFFF {
            0
        } else {
            address + 1
        };
        let b1 = memory.read_byte(a1);
        let a2: Address = if a1 == 0xFFFF {
            0
        } else {
            a1 + 1
        };
        let b2 = memory.read_byte(a2);
        assert(a2 == wrap16(address + 2));
        Self::decode_bytes(opcode, b1, b2)
    }

    /// Pure decoder over the three bytes starting at the program counter.
    fn decode_bytes(b0: Byte, b1: Byte, b2: Byte) -> (r: Option<Self>)
        ensures
            r == spec_decode(b0, b1, b2),
    {
        let nn: Word = bytes2word(b1, b2);
        let (instruction, size): (Instruction, Word) = if b0 == 0 {
            (Instruction::NOP, 1)
        } else if (b0 & 0b11000000) == 0b01000000 {
            let (lr, rr) = Register::get_rr(b0);
            let instruction = match (lr, rr) {
                (Register::HL, Register::HL) => Instruction::HALT,
                (Register::HL, r) => Instruction::LD_HL_R(r),
                (l, Register::HL) => Instruction::LD_R_HL(l),
                (l, r) => Instruction::LD_R_R(l, r),
            };
            (instruction, 1)
        } else if (b0 & 0b11000111) == 0b00000110 {
            let r = Register::get_r(b0 >> 3);
            let instruction = match r {
                Register::HL => Instruction::LD_HL_N(b1),
                reg => Instruction::LD_R_N(reg, b1),
            };
            (instruction, 2)
        } else if (b0 & 0b11101111) == 0b11101010 {
            let instruction = if b0 & 0b10000 != 0 {
                Instruction::LD_A_NN(nn)
            } else {
                Instruction::LD_NN_A(nn)
            };
            (instruction, 3)
        } else if (b0 & 0b11101111) == 0b11100010 {
            let instruction = if b0 & 0b10000 != 0 {
                Instruction::LDH_A_C
            } else {
                Instruction::LDH_C_A
            };
            (instruction, 1)
        } else if (b0 & 0b11101111) == 0b11100000 {
            let instruction = if b0 & 0b10000 != 0 {
                Instruction::LDH_A_N(b1)
            } else {
                Instruction::LDH_N_A(b1)
            };
            (instruction, 2)
        } else if (b0 & 0b11000111) == 0b00000010 {
            let instruction = if b0 & 0b1000 != 0 {
                if b0 / 16 == 0 {
                    Instruction::LD_A_BC
                } else if b0 / 16 == 1 {
                    Instruction::LD_A_DE
                } else if b0 / 16 == 2 {
                    Instruction::LD_A_HL_I
                } else {
                    Instruction::LD_A_HL_D
                }
            } else {
                if b0 / 16 == 0 {
                    Instruction::LD_BC_A
                } else if b0 / 16 == 1 {
                    Instruction::LD_DE_A
                } else if b0 / 16 == 2 {
                    Instruction::LD_HL_A_I
                } else {
                    Instruction::LD_HL_A_D
                }
            };
            (instruction, 1)
        } else if (b0 & 0b11001111) == 0b00000001 {
            let rr = Register16::get_rr(b0 >> 4, true);
            (Instruction::LD_RR_NN(rr, nn), 3)
        } else if b0 == 0b00001000 {
            (Instruction::LD_NN_SP(nn), 3)
        } else if (b0 & 0b11111110) == 0b11111000 {
            if b0 & 1 == 1 {
                (Instruction::LD_SP_HL, 1)
            } else {
                (Instruction::LD_HL_SP(#[verifier::truncate] (b1 as SignedByte)), 2)
            }
        } else if (b0 & 0b11001011) == 0b11000001 {
            let rr = Register16::get_rr(b0 >> 4, false);
            if b0 & 0b100 != 0 {
                (Instruction::PUSH(rr), 1)
            } else {
                (Instruction::POP(rr), 1)
            }
        } else if (b0 & 0b11001000) == 0b10000000 {
            let r = Register::get_r(b0);
            let instruction = if b0 / 16 == 8 {
                match r {
                    Register::HL => Instruction::ADD_HL,
                    reg => Instruction::ADD_R(reg),
                }
            } else if b0 / 16 == 9 {
                match r {
                    Register::HL => Instruction::SUB_HL,
                    reg => Instruction::SUB_R(reg),
                }
            } else if b0 / 16 == 0xa {
                match r {
                    Register::HL => Instruction::AND_HL,
                    reg => Instruction::AND_R(reg),
                }
            } else {
                match r {
                    Register::HL => Instruction::OR_HL,
                    reg => Instruction::OR_R(reg),
                }
            };
            (instruction, 1)
        } else if (b0 & 0b11001000) == 0b10001000 {
            let r = Register::get_r(b0);
            let instruction = if b0 / 16 == 8 {
                match r {
                    Register::HL => Instruction::ADC_HL,
                    reg => Instruction::ADC_R(reg),
                }
            } else if b0 / 16 == 9 {
                match r {
                    Register::HL => Instruction::SBC_HL,
                    reg => Instruction::SBC_R(reg),
                }
            } else if b0 / 16 == 0xa {
                match r {
                    Register::HL => Instruction::XOR_HL,
                    reg => Instruction::XOR_R(reg),
                }
            } else {
                match r {
                    Register::HL => Instruction::CP_HL,
                    reg => Instruction::CP_R(reg),
                }
            };
            (instruction, 1)
        } else if (b0 & 0b11001111) == 0b11000110 {
            let instruction = if b0 / 16 == 0xc {
                Instruction::ADD_N(b1)
            } else if b0 / 16 == 0xd {
                Instruction::SUB_N(b1)
            } else if b0 / 16 == 0xe {
                Instruction::AND_N(b1)
            } else {
                Instruction::OR_N(b1)
            };
            (instruction, 2)
        } else if (b0 & 0b11001111) == 0b11001110 {
            let instruction = if b0 / 16 == 0xc {
                Instruction::ADC_N(b1)
            } else if b0 / 16 == 0xd {
                Instruction::SBC_N(b1)
            } else if b0 / 16 == 0xe {
                Instruction::XOR_N(b1)
            } else {
                Instruction::CP_N(b1)
            };
            (instruction, 2)
        } else if (b0 & 0b11000110) == 0b00000100 {
            let r = Register::get_r(b0 >> 3);
            let instruction = if b0 & 1 == 0 {
                match r {
                    Register::HL => Instruction::INC_HL,
                    reg => Instruction::INC_R(reg),
                }
            } else {
                match r {
                    Register::HL => Instruction::DEC_HL,
                    reg => Instruction::DEC_R(reg),
                }
            };
            (instruction, 1)
        } else if (b0 & 0b11110111) == 0b00110111 {
            let instruction = if b0 & 0b1000 != 0 {
                Instruction::CCF
            } else {
                Instruction::SCF
            };
            (instruction, 1)
        } else if (b0 & 0b11000111) == 0b00000011 {
            let rr = Register16::get_rr(b0 >> 4, true);
            let instruction = if b0 & 0b1000 != 0 {
                Instruction::DEC_RR(rr)
            } else {
                Instruction::INC_RR(rr)
            };
            (instruction, 1)
        } else if (b0 & 0b11100110) == 0b11000100 {
            let instruction = if b0 & 1 != 0 {
                Instruction::CALL(nn)
            } else {
                let cc = Condition::get_cond(b0 >> 3);
                Instruction::CALL_CC(cc, nn)
            };
            (instruction, 3)
        } else if b0 == 0b11001001 {
            (Instruction::RET, 1)
        } else if (b0 & 0b11100111) == 0b11000000 {
            let cc = Condition::get_cond(b0 >> 3);
            (Instruction::RET_CC(cc), 1)
        } else if b0 == 0b11011001 {
            (Instruction::RETI, 1)
        } else if (b0 & 0b11000111) == 0b11000111 {
            let n = (b0 >> 3) & 0b111;
            assert(n <= 7) by (bit_vector)
                requires
                    n == (b0 >> 3) & 0b111,
            ;
            (Instruction::RST(n * 8), 1)
        } else if b0 == 0b11000011 {
            (Instruction::JP_NN(nn), 3)
        } else if b0 == 0b11101001 {
            (Instruction::JP_HL, 1)
        } else if (b0 & 0b11100111) == 0b11000010 {
            let cc = Condition::get_cond(b0 >> 3);
            (Instruction::JP_CC_NN(cc, nn), 3)
        } else if b0 == 0b00011000 {
            (Instruction::JR(#[verifier::truncate] (b1 as SignedByte)), 2)
        } else if (b0 & 0b11100111) == 0b00100000 {
            let cc = Condition::get_cond(b0 >> 3);
            (Instruction::JR_CC(cc, #[verifier::truncate] (b1 as SignedByte)), 2)
        } else if b0 == 0x27 {
            (Instruction::DAA, 1)
        } else if (b0 & 0b11001111) == 0b00001001 {
            let rr = Register16::get_rr(b0 >> 4, true);
            (Instruction::ADD_HL_RR(rr), 1)
        } else if b0 == 0b11101000 {
            (Instruction::ADD_SP_E(#[verifier::truncate] (b1 as SignedByte)), 2)
        } else if (b0 & 0b11101111) == 0b00101111 {
            let instruction = if b0 & 0b10000 != 0 {
                Instruction::CCF
            } else {
                Instruction::CPL
            };
            (instruction, 1)
        } else if (b0 & 0b11100111) == 0b00000111 {
            let instruction = if b0 & 0b1000 != 0 {
                if b0 & 0b10000 != 0 {
                    Instruction::RRA
                } else {
                    Instruction::RRCA
                }
            } else {
                if b0 & 0b10000 != 0 {
                    Instruction::RLA
                } else {
                    Instruction::RLCA
                }
            };
            (instruction, 1)
        } else if b0 == 0xCB {
            let mut cb = Self::decode_cb(b1);
            cb.size = cb.size + 1;
            return Some(cb);
        } else if (b0 & 0b11110111) == 0b11110011 {
            let instruction = if b0 & 0b1000 != 0 {
                Instruction::EI
            } else {
                Instruction::DI
            };
            (instruction, 1)
        } else {
            return None;
        };
        Some(SizedInstruction { instruction, size })
    }
}

pub struct CPU {
    pub a: Byte,
    pub b: Byte,
    pub c: Byte,
    pub d: Byte,
    pub e: Byte,
    pub h: Byte,
    pub l: Byte,
    /// flag byte
    pub f: Byte,
    /// stack pointer
    pub sp: Word,
    /// program counter
    pub pc: Word,
    /// interrupt master enable: pending-delay countdown and the flag itself
    pub ime: (Option<usize>, bool),
    /// halt flag
    pub halt: bool,
}

/// The value of an 8-bit register; the "(HL)" selector has no register value.
pub open spec fn reg_val(c: CPU, r: Register) -> Byte {
    match r {
        Register::A => c.a,
        Register::B => c.b,
        Register::C => c.c,
        Register::D => c.d,
        Register::E => c.e,
        Register::H => c.h,
        Register::L => c.l,
        Register::HL => 0,
    }
}

/// The CPU with one 8-bit register replaced.
pub open spec fn with_reg(c: CPU, r: Register, v: Byte) -> CPU {
    match r {
        Register::A => CPU { a: v, ..c },
        Register::B => CPU { b: v, ..c },
        Register::C => CPU { c: v, ..c },
        Register::D => CPU { d: v, ..c },
        Register::E => CPU { e: v, ..c },
        Register::H => CPU { h: v, ..c },
        Register::L => CPU { l: v, ..c },
        Register::HL => c,
    }
}

/// The value of a 16-bit register pair; the high register holds the high
/// byte, and AF reads F as stored.
pub open spec fn reg16_val(c: CPU, rr: Register16) -> Word {
    match rr {
        Register16::SP => c.sp,
        Register16::BC => (c.b * 256 + c.c) as Word,
        Register16::DE => (c.d * 256 + c.e) as Word,
        Register16::AF => (c.a * 256 + c.f) as Word,
        Register16::HL => (c.h * 256 + c.l) as Word,
    }
}

/// The CPU with one 16-bit register pair replaced; a load into AF keeps
/// only the high nibble of the flag byte.
pub open spec fn with_reg16(c: CPU, rr: Register16, w: Word) -> CPU {
    let hi = (w / 256) as Byte;
    let lo = (w % 256) as Byte;
    match rr {
        Register16::SP => CPU { sp: w, ..c },
        Register16::BC => CPU { b: hi, c: lo, ..c },
        Register16::DE => CPU { d: hi, e: lo, ..c },
        Register16::AF => CPU { a: hi, f: lo & 0xF0, ..c },
        Register16::HL => CPU { h: hi, l: lo, ..c },
    }
}

/// Whether a branch condition holds of the flag byte.
pub open spec fn cond_holds(c: CPU, cc: Condition) -> bool {
    match cc {
        Condition::NonZero => !flag_z(c.f),
        Condition::Zero => flag_z(c.f),
        Condition::NotCarry => !flag_c(c.f),
        Condition::Carry => flag_c(c.f),
    }
}

/// The program counter advanced by the instruction size, wrapping.
pub open spec fn pc_n(c: CPU, sz: Word) -> Word {
    wrap16(c.pc + sz)
}

/// Memory after a 16-bit push: high byte at sp-1, low byte at sp-2, both
/// through the memory management unit.
pub open spec fn push16(m: MemV, sp: Word, v: Word) -> MemV {
    write8_spec(write8_spec(m, wrap16(sp - 1), (v / 256) as Byte), wrap16(sp - 2), (v % 256) as Byte)
}

/// Wrapping 16-bit add.
pub fn wadd16(a: Word, b: Word) -> (r: Word)
    ensures
        r == wrap16(a + b),
{
    ((a as u32 + b as u32) % 65536) as Word
}

/// Wrapping 16-bit subtract.
pub fn wsub16(a: Word, d: Word) -> (r: Word)
    ensures
        r == wrap16(a - d),
{
    ((a as u32 + 65536 - d as u32) % 65536) as Word
}

/// One instruction retirement's effect on the interrupt-enable delay: a
/// pending countdown drops by one and enables the master flag at zero.
pub open spec fn ime_step_spec(ime: (Option<usize>, bool)) -> (Option<usize>, bool) {
    match ime.0 {
        Some(d) => if d == 1 {
            (None::<usize>, true)
        } else {
            (Some((d - 1) as usize), ime.1)
        },
        None => ime,
    }
}

impl CPU {
    /// The interrupt-enable countdown, when armed, is always 1 or 2.
    pub open spec fn wf(&self) -> bool {
        match self.ime.0 {
            Some(d) => 1 <= d <= 2,
            None => true,
        }
    }

    pub fn new() -> (r: Self)
        ensures
            r == (CPU {
                a: 0,
                b: 0,
                c: 0,
                d: 0,
                e: 0,
                h: 0,
                l: 0,
                f: 0,
                sp: 0,
                pc: 0,
                ime: (None::<usize>, false),
                halt: false,
            }),
            r.wf(),
    {
        CPU {
            a: 0x00,
            f: 0x00,
            b: 0x00,
            c: 0x00,
            d: 0x00,
            e: 0x00,
            h: 0x00,
            l: 0x00,
            sp: 0x00,
            pc: 0x00,
            ime: (None, false),
            halt: false,
        }
    }

    /// The register state the boot ROM leaves behind, for starting at
    /// 0x0100 without one.
    pub fn new_skip_boot() -> (r: Self)
        ensures
            r == (CPU {
                a: 0x01,
                b: 0x00,
                c: 0x13,
                d: 0x00,
                e: 0xd8,
                h: 0x01,
                l: 0x4d,
                f: 0xb0,
                sp: 0xfffe,
                pc: 0x100,
                ime: (None::<usize>, false),
                halt: false,
            }),
            r.wf(),
    {
        CPU {
            a: 0x01,
            f: 0xb0,
            b: 0x00,
            c: 0x13,
            d: 0x00,
            e: 0xd8,
            h: 0x01,
            l: 0x4d,
            sp: 0xfffe,
            pc: 0x100,
            ime: (None, false),
            halt: false,
        }
    }

    fn get_register(&self, reg: Register) -> (r: Byte)
        ensures
            r == reg_val(*self, reg),
    {
        match reg {
            Register::A => self.a,
            Register::B => self.b,
            Register::C => self.c,
            Register::D => self.d,
            Register::E => self.e,
            Register::H => self.h,
            Register::L => self.l,
            Register::HL => 0,
        }
    }

    fn set_register(&mut self, reg: Register, byte: Byte)
        ensures
            *final(self) == with_reg(*old(self), reg, byte),
    {
        match reg {
            Register::A => self.a = byte,
            Register::B => self.b = byte,
            Register::C => self.c = byte,
            Register::D => self.d = byte,
            Register::E => self.e = byte,
            Register::H => self.h = byte,
            Register::L => self.l = byte,
            Register::HL => {},
        }
    }

    fn get_register16(&self, reg: Register16) -> (r: Word)
        ensures
            r == reg16_val(*self, reg),
    {
        match reg {
            Register16::SP => self.sp,
            Register16::BC => bytes2word(self.c, self.b),
            Register16::DE => bytes2word(self.e, self.d),
            Register16::AF => bytes2word(self.f, self.a),
            Register16::HL => bytes2word(self.l, self.h),
        }
    }

    fn set_register16(&mut self, reg: Register16, word: Word)
        ensures
            *final(self) == with_reg16(*old(self), reg, word),
    {
        let hi = (word / 256) as Byte;
        let lo = (word % 256) as Byte;
        match reg {
            Register16::SP => {
                self.sp = word;
            },
            Register16::BC => {
                self.b = hi;
                self.c = lo;
            },
            Register16::DE => {
                self.d = hi;
                self.e = lo;
            },
            Register16::AF => {
                self.a = hi;
                self.f = lo & 0xF0;
            },
            Register16::HL => {
                self.h = hi;
                self.l = lo;
            },
        }
    }

    /// The HL register pair.
    pub fn get_hl(&self) -> (r: Word)
        ensures
            r == reg16_val(*self, Register16::HL),
    {
        self.get_register16(Register16::HL)
    }

    fn set_hl(&mut self, word: Word)
        ensures
            *final(self) == with_reg16(*old(self), Register16::HL, word),
    {
        self.set_register16(Register16::HL, word);
    }

    /// Whether the given single-bit flag is set in F.
    pub fn get_flag(&self, flag: Byte) -> (r: bool)
        requires
            single_bit(flag),
        ensures
            r == ((self.f & flag) != 0),
    {
        (self.f & flag) > 0
    }

    fn get_condition(&self, cc: Condition) -> (r: bool)
        ensures
            r == cond_holds(*self, cc),
    {
        match cc {
            Condition::NonZero => !self.get_flag(ZERO_FLAG),
            Condition::Zero => self.get_flag(ZERO_FLAG),
            Condition::NotCarry => !self.get_flag(CARRY_FLAG),
            Condition::Carry => self.get_flag(CARRY_FLAG),
        }
    }

    /// Push a 16-bit value: high byte to [sp-1], low byte to [sp-2].
    fn push_word(&mut self, memory: &mut Memory, v: Word)
        requires
            old(memory).wf(),
        ensures
            *final(self) == (CPU { sp: wrap16(old(self).sp - 2), ..*old(self) }),
            final(memory)@ == push16(old(memory)@, old(self).sp, v),
            final(memory).wf(),
    {
        let sp1 = wsub16(self.sp, 1);
        memory.write_byte(sp1, (v / 256) as Byte);
        let sp2 = wsub16(self.sp, 2);
        memory.write_byte(sp2, (v % 256) as Byte);
        self.sp = sp2;
    }

    /// Push the program counter onto the stack.
    fn push_pc_stack(&mut self, memory: &mut Memory)
        requires
            old(memory).wf(),
        ensures
            *final(self) == (CPU { sp: wrap16(old(self).sp - 2), ..*old(self) }),
            final(memory)@ == push16(old(memory)@, old(self).sp, old(self).pc),
            final(memory).wf(),
    {
        let v = self.pc;
        self.push_word(memory, v);
    }

    /// Pop the program counter from the stack.
    fn pop_pc_stack(&mut self, memory: &Memory)
        requires
            memory.wf(),
        ensures
            *final(self) == (CPU {
                sp: wrap16(old(self).sp + 2),
                pc: (memory@.mem[wrap16(old(self).sp + 1) as int] * 256
                    + memory@.mem[old(self).sp as int]) as Word,
                ..*old(self)
            }),
    {
        let lsb = memory.read_byte(self.sp);
        let sp1 = wadd16(self.sp, 1);
        let msb = memory.read_byte(sp1);
        self.sp = wadd16(self.sp, 2);
        self.pc = bytes2word(lsb, msb);
    }

    /// The interrupt-master-enable flag.
    fn get_ime(&self) -> (r: bool)
        ensures
            r == self.ime.1,
    {
        self.ime.1
    }

    /// Arm the delayed interrupt enable: takes effect after the following
    /// instruction.
    fn ime_enable(&mut self)
        ensures
            *final(self) == (CPU {
                ime: (
                    if old(self).ime.0 is None {
                        Some(2usize)
                    } else {
                        old(self).ime.0
                    },
                    old(self).ime.1,
                ),
                ..*old(self)
            }),
    {
        if self.ime.0.is_none() {
            self.ime.0 = Some(2);
        }
    }

    /// Enable interrupts immediately (RETI).
    fn ime_enable_no_delay(&mut self)
        ensures
            *final(self) == (CPU { ime: (old(self).ime.0, true), ..*old(self) }),
    {
        self.ime.1 = true;
    }

    /// Disable interrupts immediately and cancel any pending enable.
    fn ime_disable(&mut self)
        ensures
            *final(self) == (CPU { ime: (None::<usize>, false), ..*old(self) }),
    {
        self.ime = (None, false);
    }

    /// Advance the interrupt-enable countdown by one instruction
    /// retirement; at zero the master flag turns on.
    pub fn ime_step(&mut self)
        requires
            old(self).wf(),
        ensures
            *final(self) == (CPU { ime: ime_step_spec(old(self).ime), ..*old(self) }),
            final(self).wf(),
    {
        if let Some(delay) = self.ime.0 {
            let nd = delay - 1;
            if nd == 0 {
                self.ime = (None, true);
            } else {
                self.ime.0 = Some(nd);
            }
        }
    }
}

/// One instruction's complete effect: the expected CPU state, the memory
/// after the instruction's own writes, and one clock debit of `n` machine
/// cycles closing the step.
#[verifier::opaque]
pub open spec fn fin(k0: Clock, mw: MemV, n: u8, cexp: CPU, c1: CPU, m1: MemV, k1: Clock) -> bool {
    c1 == cexp && m1 == tick_mem_spec(k0, mw, n) && k1 == tick_clock_spec(k0, mw, n)
}

/// The exact relation between the machine state before and after executing
/// the instruction decoded at the program counter: registers, flags, memory
/// effects, and the documented machine-cycle debit of every instruction,
/// including the taken and not-taken counts of every branch.
#[verifier::opaque]
pub open spec fn step_spec(c0: CPU, m0: MemV, k0: Clock, c1: CPU, m1: MemV, k1: Clock) -> bool {
    match spec_decode(
        m0.mem[c0.pc as int],
        m0.mem[wrap16(c0.pc + 1) as int],
        m0.mem[wrap16(c0.pc + 2) as int],
    ) {
        None => false,
        Some(si) => {
            let sz = si.size;
            let hl = reg16_val(c0, Register16::HL);
            match si.instruction {
                Instruction::NOP => fin(k0, m0, 1, CPU { pc: pc_n(c0, sz), ..c0 }, c1, m1, k1),
                Instruction::ADD_R(r) => {
                    let x = s_add(c0.a, reg_val(c0, r));
                    fin(k0, m0, 1, CPU { a: x.0, f: x.1, pc: pc_n(c0, sz), ..c0 }, c1, m1, k1)
                },
                Instruction::ADD_N(n) => {
                    let x = s_add(c0.a, n);
                    fin(k0, m0, 2, CPU { a: x.0, f: x.1, pc: pc_n(c0, sz), ..c0 }, c1, m1, k1)
                },
                Instruction::ADD_HL => {
                    let x = s_add(c0.a, m0.mem[hl as int]);
                    fin(k0, m0, 2, CPU { a: x.0, f: x.1, pc: pc_n(c0, sz), ..c0 }, c1, m1, k1)
                },
                Instruction::SUB_R(r) => {
                    let x = s_sub(c0.a, reg_val(c0, r));
                    fin(k0, m0, 1, CPU { a: x.0, f: x.1, pc: pc_n(c0, sz), ..c0 }, c1, m1, k1)
                },
                Instruction::SUB_N(n) => {
                    let x = s_sub(c0.a, n);
                    fin(k0, m0, 2, CPU { a: x.0, f: x.1, pc: pc_n(c0, sz), ..c0 }, c1, m1, k1)
                },
                Instruction::SUB_HL => {
                    let x = s_sub(c0.a, m0.mem[hl as int]);
                    fin(k0, m0, 2, CPU { a: x.0, f: x.1, pc: pc_n(c0, sz), ..c0 }, c1, m1, k1)
                },
                Instruction::AND_R(r) => {
                    let x = s_and(c0.a, reg_val(c0, r));
                    fin(k0, m0, 1, CPU { a: x.0, f: x.1, pc: pc_n(c0, sz), ..c0 }, c1, m1, k1)
                },
                Instruction::AND_N(n) => {
                    let x = s_and(c0.a, n);
                    fin(k0, m0, 2, CPU { a: x.0, f: x.1, pc: pc_n(c0, sz), ..c0 }, c1, m1, k1)
                },
                Instruction::AND_HL => {
                    let x = s_and(c0.a, m0.mem[hl as int]);
                    fin(k0, m0, 2, CPU { a: x.0, f: x.1, pc: pc_n(c0, sz), ..c0 }, c1, m1, k1)
                },
                Instruction::OR_R(r) => {
                    let x = s_or(c0.a, reg_val(c0, r));
                    fin(k0, m0, 1, CPU { a: x.0, f: x.1, pc: pc_n(c0, sz), ..c0 }, c1, m1, k1)
                },
                Instruction::OR_N(n) => {
                    let x = s_or(c0.a, n);
                    fin(k0, m0, 2, CPU { a: x.0, f: x.1, pc: pc_n(c0, sz), ..c0 }, c1, m1, k1)
                },
                Instruction::OR_HL => {
                    let x = s_or(c0.a, m0.mem[hl as int]);
                    fin(k0, m0, 2, CPU { a: x.0, f: x.1, pc: pc_n(c0, sz), ..c0 }, c1, m1, k1)
                },
                Instruction::XOR_R(r) => {
                    let x = s_xor(c0.a, reg_val(c0, r));
                    fin(k0, m0, 1, CPU { a: x.0, f: x.1, pc: pc_n(c0, sz), ..c0 }, c1, m1, k1)
                },
                Instruction::XOR_N(n) => {
                    let x = s_xor(c0.a, n);
                    fin(k0, m0, 2, CPU { a: x.0, f: x.1, pc: pc_n(c0, sz), ..c0 }, c1, m1, k1)
                },
                Instruction::XOR_HL => {
                    let x = s_xor(c0.a, m0.mem[hl as int]);
                    fin(k0, m0, 2, CPU { a: x.0, f: x.1, pc: pc_n(c0, sz), ..c0 }, c1, m1, k1)
                },
                Instruction::CP_R(r) => {
                    let x = s_sub(c0.a, reg_val(c0, r));
                    fin(k0, m0, 1, CPU { f: x.1, pc: pc_n(c0, sz), ..c0 }, c1, m1, k1)
                },
                Instruction::CP_N(n) => {
                    let x = s_sub(c0.a, n);
                    fin(k0, m0, 2, CPU { f: x.1, pc: pc_n(c0, sz), ..c0 }, c1, m1, k1)
                },
                Instruction::CP_HL => {
                    let x = s_sub(c0.a, m0.mem[hl as int]);
                    fin(k0, m0, 2, CPU { f: x.1, pc: pc_n(c0, sz), ..c0 }, c1, m1, k1)
                },
                Instruction::ADC_R(r) => {
                    let x = s_adc(c0.a, reg_val(c0, r), flag_c(c0.f));
                    fin(k0, m0, 1, CPU { a: x.0, f: x.1, pc: pc_n(c0, sz), ..c0 }, c1, m1, k1)
                },
                Instruction::ADC_N(n) => {
                    let x = s_adc(c0.a, n, flag_c(c0.f));
                    fin(k0, m0, 2, CPU { a: x.0, f: x.1, pc: pc_n(c0, sz), ..c0 }, c1, m1, k1)
                },
                Instruction::ADC_HL => {
                    let x = s_adc(c0.a, m0.mem[hl as int], flag_c(c0.f));
                    fin(k0, m0, 2, CPU { a: x.0, f: x.1, pc: pc_n(c0, sz), ..c0 }, c1, m1, k1)
                },
                Instruction::SBC_R(r) => {
                    let x = s_sbc(c0.a, reg_val(c0, r), flag_c(c0.f));
                    fin(k0, m0, 1, CPU { a: x.0, f: x.1, pc: pc_n(c0, sz), ..c0 }, c1, m1, k1)
                },
                Instruction::SBC_N(n) => {
                    let x = s_sbc(c0.a, n, flag_c(c0.f));
                    fin(k0, m0, 2, CPU { a: x.0, f: x.1, pc: pc_n(c0, sz), ..c0 }, c1, m1, k1)
                },
                Instruction::SBC_HL => {
                    let x = s_sbc(c0.a, m0.mem[hl as int], flag_c(c0.f));
                    fin(k0, m0, 2, CPU { a: x.0, f: x.1, pc: pc_n(c0, sz), ..c0 }, c1, m1, k1)
                },
                Instruction::LD_R_R(r1, r2) => fin(
                    k0,
                    m0,
                    1,
                    CPU { pc: pc_n(c0, sz), ..with_reg(c0, r1, reg_val(c0, r2)) },
                    c1,
                    m1,
                    k1,
                ),
                Instruction::LD_R_N(r, n) => fin(
                    k0,
                    m0,
                    2,
                    CPU { pc: pc_n(c0, sz), ..with_reg(c0, r, n) },
                    c1,
                    m1,
                    k1,
                ),
                Instruction::LD_R_HL(r) => fin(
                    k0,
                    m0,
                    2,
                    CPU { pc: pc_n(c0, sz), ..with_reg(c0, r, m0.mem[hl as int]) },
                    c1,
                    m1,
                    k1,
                ),
                Instruction::LD_RR_NN(rr, nn) => fin(
                    k0,
                    m0,
                    3,
                    CPU { pc: pc_n(c0, sz), ..with_reg16(c0, rr, nn) },
                    c1,
                    m1,
                    k1,
                ),
                Instruction::LD_A_HL_I => fin(
                    k0,
                    m0,
                    2,
                    CPU {
                        a: m0.mem[hl as int],
                        pc: pc_n(c0, sz),
                        ..with_reg16(c0, Register16::HL, wrap16(hl + 1))
                    },
                    c1,
                    m1,
                    k1,
                ),
                Instruction::LD_A_HL_D => fin(
                    k0,
                    m0,
                    2,
                    CPU {
                        a: m0.mem[hl as int],
                        pc: pc_n(c0, sz),
                        ..with_reg16(c0, Register16::HL, wrap16(hl - 1))
                    },
                    c1,
                    m1,
                    k1,
                ),
                Instruction::LDH_A_C => fin(
                    k0,
                    m0,
                    2,
                    CPU { a: m0.mem[0xFF00 + c0.c], pc: pc_n(c0, sz), ..c0 },
                    c1,
                    m1,
                    k1,
                ),
                Instruction::LDH_C_A => fin(
                    k0,
                    write8_spec(m0, (0xFF00 + c0.c) as Word, c0.a),
                    2,
                    CPU { pc: pc_n(c0, sz), ..c0 },
                    c1,
                    m1,
                    k1,
                ),
                Instruction::LD_HL_R(r) => fin(
                    k0,
                    write8_spec(m0, hl, reg_val(c0, r)),
                    2,
                    CPU { pc: pc_n(c0, sz), ..c0 },
                    c1,
                    m1,
                    k1,
                ),
                Instruction::LD_HL_SP(e) => {
                    let x = s_addsp(c0.sp, e);
                    fin(
                        k0,
                        m0,
                        3,
                        CPU { f: x.1, pc: pc_n(c0, sz), ..with_reg16(c0, Register16::HL, x.0) },
                        c1,
                        m1,
                        k1,
                    )
                },
                Instruction::LD_HL_A_D => fin(
                    k0,
                    write8_spec(m0, hl, c0.a),
                    2,
                    CPU { pc: pc_n(c0, sz), ..with_reg16(c0, Register16::HL, wrap16(hl - 1)) },
                    c1,
                    m1,
                    k1,
                ),
                Instruction::LD_HL_A_I => fin(
                    k0,
                    write8_spec(m0, hl, c0.a),
                    2,
                    CPU { pc: pc_n(c0, sz), ..with_reg16(c0, Register16::HL, wrap16(hl + 1)) },
                    c1,
                    m1,
                    k1,
                ),
                Instruction::LD_A_BC => fin(
                    k0,
                    m0,
                    2,
                    CPU { a: m0.mem[reg16_val(c0, Register16::BC) as int], pc: pc_n(c0, sz), ..c0 },
                    c1,
                    m1,
                    k1,
                ),
                Instruction::LD_A_DE => fin(
                    k0,
                    m0,
                    2,
                    CPU { a: m0.mem[reg16_val(c0, Register16::DE) as int], pc: pc_n(c0, sz), ..c0 },
                    c1,
                    m1,
                    k1,
                ),
                Instruction::LD_BC_A => fin(
                    k0,
                    write8_spec(m0, reg16_val(c0, Register16::BC), c0.a),
                    2,
                    CPU { pc: pc_n(c0, sz), ..c0 },
                    c1,
                    m1,
                    k1,
                ),
                Instruction::LD_DE_A => fin(
                    k0,
                    write8_spec(m0, reg16_val(c0, Register16::DE), c0.a),
                    2,
                    CPU { pc: pc_n(c0, sz), ..c0 },
                    c1,
                    m1,
                    k1,
                ),
                Instruction::LD_A_NN(nn) => fin(
                    k0,
                    m0,
                    4,
                    CPU { a: m0.mem[nn as int], pc: pc_n(c0, sz), ..c0 },
                    c1,
                    m1,
                    k1,
                ),
                Instruction::LD_NN_A(nn) => fin(
                    k0,
                    write8_spec(m0, nn, c0.a),
                    4,
                    CPU { pc: pc_n(c0, sz), ..c0 },
                    c1,
                    m1,
                    k1,
                ),
                Instruction::LDH_N_A(n) => fin(
                    k0,
                    write8_spec(m0, (0xFF00 + n) as Word, c0.a),
                    3,
                    CPU { pc: pc_n(c0, sz), ..c0 },
                    c1,
                    m1,
                    k1,
                ),
                Instruction::LDH_A_N(n) => fin(
                    k0,
                    m0,
                    3,
                    CPU { a: m0.mem[0xFF00 + n], pc: pc_n(c0, sz), ..c0 },
                    c1,
                    m1,
                    k1,
                ),
                Instruction::LD_HL_N(n) => fin(
                    k0,
                    write8_spec(m0, hl, n),
                    3,
                    CPU { pc: pc_n(c0, sz), ..c0 },
                    c1,
                    m1,
                    k1,
                ),
                Instruction::LD_NN_SP(nn) => fin(
                    k0,
                    write8_spec(
                        write8_spec(m0, nn, (c0.sp % 256) as Byte),
                        wrap16(nn + 1),
                        (c0.sp / 256) as Byte,
                    ),
                    5,
                    CPU { pc: pc_n(c0, sz), ..c0 },
                    c1,
                    m1,
                    k1,
                ),
                Instruction::LD_SP_HL => fin(
                    k0,
                    m0,
                    2,
                    CPU { sp: hl, pc: pc_n(c0, sz), ..c0 },
                    c1,
                    m1,
                    k1,
                ),
                Instruction::INC_R(r) => {
                    let x = s_inc(reg_val(c0, r), c0.f);
                    fin(
                        k0,
                        m0,
                        1,
                        CPU { f: x.1, pc: pc_n(c0, sz), ..with_reg(c0, r, x.0) },
                        c1,
                        m1,
                        k1,
                    )
                },
                Instruction::INC_HL => {
                    let x = s_inc(m0.mem[hl as int], c0.f);
                    fin(
                        k0,
                        write8_spec(m0, hl, x.0),
                        3,
                        CPU { f: x.1, pc: pc_n(c0, sz), ..c0 },
                        c1,
                        m1,
                        k1,
                    )
                },
                Instruction::DEC_R(r) => {
                    let x = s_dec(reg_val(c0, r), c0.f);
                    fin(
                        k0,
                        m0,
                        1,
                        CPU { f: x.1, pc: pc_n(c0, sz), ..with_reg(c0, r, x.0) },
                        c1,
                        m1,
                        k1,
                    )
                },
                Instruction::DEC_HL => {
                    let x = s_dec(m0.mem[hl as int], c0.f);
                    fin(
                        k0,
                        write8_spec(m0, hl, x.0),
                        3,
                        CPU { f: x.1, pc: pc_n(c0, sz), ..c0 },
                        c1,
                        m1,
                        k1,
                    )
                },
                Instruction::INC_RR(rr) => fin(
                    k0,
                    m0,
                    2,
                    CPU { pc: pc_n(c0, sz), ..with_reg16(c0, rr, wrap16(reg16_val(c0, rr) + 1)) },
                    c1,
                    m1,
                    k1,
                ),
                Instruction::DEC_RR(rr) => fin(
                    k0,
                    m0,
                    2,
                    CPU { pc: pc_n(c0, sz), ..with_reg16(c0, rr, wrap16(reg16_val(c0, rr) - 1)) },
                    c1,
                    m1,
                    k1,
                ),
                Instruction::ADD_HL_RR(rr) => {
                    let x = s_add16(hl, reg16_val(c0, rr), c0.f);
                    fin(
                        k0,
                        m0,
                        2,
                        CPU { f: x.1, pc: pc_n(c0, sz), ..with_reg16(c0, Register16::HL, x.0) },
                        c1,
                        m1,
                        k1,
                    )
                },
                Instruction::SET(b, r) => fin(
                    k0,
                    m0,
                    2,
                    CPU { pc: pc_n(c0, sz), ..with_reg(c0, r, reg_val(c0, r) | s_bit_mask(b)) },
                    c1,
                    m1,
                    k1,
                ),
                Instruction::SET_HL(b) => fin(
                    k0,
                    write8_spec(m0, hl, m0.mem[hl as int] | s_bit_mask(b)),
                    4,
                    CPU { pc: pc_n(c0, sz), ..c0 },
                    c1,
                    m1,
                    k1,
                ),
                Instruction::RES(b, r) => fin(
                    k0,
                    m0,
                    2,
                    CPU { pc: pc_n(c0, sz), ..with_reg(c0, r, reg_val(c0, r) & !s_bit_mask(b)) },
                    c1,
                    m1,
                    k1,
                ),
                Instruction::RES_HL(b) => fin(
                    k0,
                    write8_spec(m0, hl, m0.mem[hl as int] & !s_bit_mask(b)),
                    4,
                    CPU { pc: pc_n(c0, sz), ..c0 },
                    c1,
                    m1,
                    k1,
                ),
                Instruction::BIT(b, r) => fin(
                    k0,
                    m0,
                    2,
                    CPU { f: s_bit_test(b, reg_val(c0, r), c0.f), pc: pc_n(c0, sz), ..c0 },
                    c1,
                    m1,
                    k1,
                ),
                Instruction::BIT_HL(b) => fin(
                    k0,
                    m0,
                    3,
                    CPU { f: s_bit_test(b, m0.mem[hl as int], c0.f), pc: pc_n(c0, sz), ..c0 },
                    c1,
                    m1,
                    k1,
                ),
                Instruction::CPL => {
                    let x = s_cpl(c0.a, c0.f);
                    fin(k0, m0, 1, CPU { a: x.0, f: x.1, pc: pc_n(c0, sz), ..c0 }, c1, m1, k1)
                },
                Instruction::SCF => fin(
                    k0,
                    m0,
                    1,
                    CPU { f: mk_f(flag_z(c0.f), false, false, true), pc: pc_n(c0, sz), ..c0 },
                    c1,
                    m1,
                    k1,
                ),
                Instruction::CCF => fin(
                    k0,
                    m0,
                    1,
                    CPU { f: mk_f(flag_z(c0.f), false, false, !flag_c(c0.f)), pc: pc_n(c0, sz), ..c0 },
                    c1,
                    m1,
                    k1,
                ),
                Instruction::DAA => {
                    let x = s_daa(c0.a, c0.f);
                    fin(k0, m0, 1, CPU { a: x.0, f: x.1, pc: pc_n(c0, sz), ..c0 }, c1, m1, k1)
                },
                Instruction::JP_NN(nn) => fin(k0, m0, 4, CPU { pc: nn, ..c0 }, c1, m1, k1),
                Instruction::JP_CC_NN(cc, nn) => if cond_holds(c0, cc) {
                    fin(k0, m0, 4, CPU { pc: nn, ..c0 }, c1, m1, k1)
                } else {
                    fin(k0, m0, 3, CPU { pc: pc_n(c0, 3), ..c0 }, c1, m1, k1)
                },
                Instruction::JP_HL => fin(k0, m0, 1, CPU { pc: hl, ..c0 }, c1, m1, k1),
                Instruction::JR(e) => fin(
                    k0,
                    m0,
                    3,
                    CPU { pc: wrap16(wrap16(c0.pc + 2) + (e as Word)), ..c0 },
                    c1,
                    m1,
                    k1,
                ),
                Instruction::JR_CC(cc, e) => if cond_holds(c0, cc) {
                    fin(
                        k0,
                        m0,
                        3,
                        CPU { pc: wrap16(wrap16(c0.pc + 2) + (e as Word)), ..c0 },
                        c1,
                        m1,
                        k1,
                    )
                } else {
                    fin(k0, m0, 2, CPU { pc: pc_n(c0, 2), ..c0 }, c1, m1, k1)
                },
                Instruction::ADD_SP_E(e) => {
                    let x = s_addsp(c0.sp, e);
                    fin(k0, m0, 4, CPU { sp: x.0, f: x.1, pc: pc_n(c0, sz), ..c0 }, c1, m1, k1)
                },
                Instruction::PUSH(rr) => fin(
                    k0,
                    push16(m0, c0.sp, reg16_val(c0, rr)),
                    4,
                    CPU { sp: wrap16(c0.sp - 2), pc: pc_n(c0, 1), ..c0 },
                    c1,
                    m1,
                    k1,
                ),
                Instruction::POP(rr) => {
                    let w = (m0.mem[wrap16(c0.sp + 1) as int] * 256 + m0.mem[c0.sp as int]) as Word;
                    fin(
                        k0,
                        m0,
                        3,
                        CPU { sp: wrap16(c0.sp + 2), pc: pc_n(c0, 1), ..with_reg16(c0, rr, w) },
                        c1,
                        m1,
                        k1,
                    )
                },
                Instruction::CALL(nn) => fin(
                    k0,
                    push16(m0, c0.sp, pc_n(c0, 3)),
                    6,
                    CPU { sp: wrap16(c0.sp - 2), pc: nn, ..c0 },
                    c1,
                    m1,
                    k1,
                ),
                Instruction::CALL_CC(cc, nn) => if cond_holds(c0, cc) {
                    fin(
                        k0,
                        push16(m0, c0.sp, pc_n(c0, 3)),
                        6,
                        CPU { sp: wrap16(c0.sp - 2), pc: nn, ..c0 },
                        c1,
                        m1,
                        k1,
                    )
                } else {
                    fin(k0, m0, 3, CPU { pc: pc_n(c0, 3), ..c0 }, c1, m1, k1)
                },
                Instruction::RET => {
                    let w = (m0.mem[wrap16(c0.sp + 1) as int] * 256 + m0.mem[c0.sp as int]) as Word;
                    fin(k0, m0, 4, CPU { sp: wrap16(c0.sp + 2), pc: w, ..c0 }, c1, m1, k1)
                },
                Instruction::RET_CC(cc) => if cond_holds(c0, cc) {
                    let w = (m0.mem[wrap16(c0.sp + 1) as int] * 256 + m0.mem[c0.sp as int]) as Word;
                    fin(k0, m0, 5, CPU { sp: wrap16(c0.sp + 2), pc: w, ..c0 }, c1, m1, k1)
                } else {
                    fin(k0, m0, 2, CPU { pc: pc_n(c0, 1), ..c0 }, c1, m1, k1)
                },
                Instruction::RETI => {
                    let w = (m0.mem[wrap16(c0.sp + 1) as int] * 256 + m0.mem[c0.sp as int]) as Word;
                    fin(
                        k0,
                        m0,
                        4,
                        CPU { sp: wrap16(c0.sp + 2), pc: w, ime: (c0.ime.0, true), ..c0 },
                        c1,
                        m1,
                        k1,
                    )
                },
                Instruction::RST(v) => fin(
                    k0,
                    push16(m0, c0.sp, pc_n(c0, 1)),
                    4,
                    CPU { sp: wrap16(c0.sp - 2), pc: v as Word, ..c0 },
                    c1,
                    m1,
                    k1,
                ),
                Instruction::RL(r) => {
                    let x = s_rl(reg_val(c0, r), flag_c(c0.f));
                    fin(
                        k0,
                        m0,
                        2,
                        CPU { f: rot_flags(x.0, x.1), pc: pc_n(c0, sz), ..with_reg(c0, r, x.0) },
                        c1,
                        m1,
                        k1,
                    )
                },
                Instruction::RL_HL => {
                    let x = s_rl(m0.mem[hl as int], flag_c(c0.f));
                    fin(
                        k0,
                        write8_spec(m0, hl, x.0),
                        4,
                        CPU { f: rot_flags(x.0, x.1), pc: pc_n(c0, sz), ..c0 },
                        c1,
                        m1,
                        k1,
                    )
                },
                Instruction::RLC(r) => {
                    let x = s_rlc(reg_val(c0, r));
                    fin(
                        k0,
                        m0,
                        2,
                        CPU { f: rot_flags(x.0, x.1), pc: pc_n(c0, sz), ..with_reg(c0, r, x.0) },
                        c1,
                        m1,
                        k1,
                    )
                },
                Instruction::RLC_HL => {
                    let x = s_rlc(m0.mem[hl as int]);
                    fin(
                        k0,
                        write8_spec(m0, hl, x.0),
                        4,
                        CPU { f: rot_flags(x.0, x.1), pc: pc_n(c0, sz), ..c0 },
                        c1,
                        m1,
                        k1,
                    )
                },
                Instruction::RLA => {
                    let x = s_rl(c0.a, flag_c(c0.f));
                    fin(
                        k0,
                        m0,
                        1,
                        CPU { a: x.0, f: mk_f(false, false, false, x.1), pc: pc_n(c0, sz), ..c0 },
                        c1,
                        m1,
                        k1,
                    )
                },
                Instruction::RLCA => {
                    let x = s_rlc(c0.a);
                    fin(
                        k0,
                        m0,
                        1,
                        CPU { a: x.0, f: mk_f(false, false, false, x.1), pc: pc_n(c0, sz), ..c0 },
                        c1,
                        m1,
                        k1,
                    )
                },
                Instruction::RR(r) => {
                    let x = s_rr(reg_val(c0, r), flag_c(c0.f));
                    fin(
                        k0,
                        m0,
                        2,
                        CPU { f: rot_flags(x.0, x.1), pc: pc_n(c0, sz), ..with_reg(c0, r, x.0) },
                        c1,
                        m1,
                        k1,
                    )
                },
                Instruction::RR_HL => {
                    let x = s_rr(m0.mem[hl as int], flag_c(c0.f));
                    fin(
                        k0,
                        write8_spec(m0, hl, x.0),
                        4,
                        CPU { f: rot_flags(x.0, x.1), pc: pc_n(c0, sz), ..c0 },
                        c1,
                        m1,
                        k1,
                    )
                },
                Instruction::RRC(r) => {
                    let x = s_rrc(reg_val(c0, r));
                    fin(
                        k0,
                        m0,
                        2,
                        CPU { f: rot_flags(x.0, x.1), pc: pc_n(c0, sz), ..with_reg(c0, r, x.0) },
                        c1,
                        m1,
                        k1,
                    )
                },
                Instruction::RRC_HL => {
                    let x = s_rrc(m0.mem[hl as int]);
                    fin(
                        k0,
                        write8_spec(m0, hl, x.0),
                        4,
                        CPU { f: rot_flags(x.0, x.1), pc: pc_n(c0, sz), ..c0 },
                        c1,
                        m1,
                        k1,
                    )
                },
                Instruction::RRA => {
                    let x = s_rr(c0.a, flag_c(c0.f));
                    fin(
                        k0,
                        m0,
                        1,
                        CPU { a: x.0, f: mk_f(false, false, false, x.1), pc: pc_n(c0, sz), ..c0 },
                        c1,
                        m1,
                        k1,
                    )
                },
                Instruction::RRCA => {
                    let x = s_rrc(c0.a);
                    fin(
                        k0,
                        m0,
                        1,
                        CPU { a: x.0, f: mk_f(false, false, false, x.1), pc: pc_n(c0, sz), ..c0 },
                        c1,
                        m1,
                        k1,
                    )
                },
                Instruction::SLA(r) => {
                    let x = s_sla(reg_val(c0, r));
                    fin(
                        k0,
                        m0,
                        2,
                        CPU { f: rot_flags(x.0, x.1), pc: pc_n(c0, sz), ..with_reg(c0, r, x.0) },
                        c1,
                        m1,
                        k1,
                    )
                },
                Instruction::SLA_HL => {
                    let x = s_sla(m0.mem[hl as int]);
                    fin(
                        k0,
                        write8_spec(m0, hl, x.0),
                        4,
                        CPU { f: rot_flags(x.0, x.1), pc: pc_n(c0, sz), ..c0 },
                        c1,
                        m1,
                        k1,
                    )
                },
                Instruction::SRA(r) => {
                    let x = s_sra(reg_val(c0, r));
                    fin(
                        k0,
                        m0,
                        2,
                        CPU { f: rot_flags(x.0, x.1), pc: pc_n(c0, sz), ..with_reg(c0, r, x.0) },
                        c1,
                        m1,
                        k1,
                    )
                },
                Instruction::SRA_HL => {
                    let x = s_sra(m0.mem[hl as int]);
                    fin(
                        k0,
                        write8_spec(m0, hl, x.0),
                        4,
                        CPU { f: rot_flags(x.0, x.1), pc: pc_n(c0, sz), ..c0 },
                        c1,
                        m1,
                        k1,
                    )
                },
                Instruction::SRL(r) => {
                    let x = s_srl(reg_val(c0, r));
                    fin(
                        k0,
                        m0,
                        2,
                        CPU { f: rot_flags(x.0, x.1), pc: pc_n(c0, sz), ..with_reg(c0, r, x.0) },
                        c1,
                        m1,
                        k1,
                    )
                },
                Instruction::SRL_HL => {
                    let x = s_srl(m0.mem[hl as int]);
                    fin(
                        k0,
                        write8_spec(m0, hl, x.0),
                        4,
                        CPU { f: rot_flags(x.0, x.1), pc: pc_n(c0, sz), ..c0 },
                        c1,
                        m1,
                        k1,
                    )
                },
                Instruction::SWAP(r) => {
                    let v = s_swap(reg_val(c0, r));
                    fin(
                        k0,
                        m0,
                        2,
                        CPU { f: rot_flags(v, false), pc: pc_n(c0, sz), ..with_reg(c0, r, v) },
                        c1,
                        m1,
                        k1,
                    )
                },
                Instruction::SWAP_HL => {
                    let v = s_swap(m0.mem[hl as int]);
                    fin(
                        k0,
                        write8_spec(m0, hl, v),
                        4,
                        CPU { f: rot_flags(v, false), pc: pc_n(c0, sz), ..c0 },
                        c1,
                        m1,
                        k1,
                    )
                },
                Instruction::EI => fin(
                    k0,
                    m0,
                    1,
                    CPU {
                        ime: (
                            if c0.ime.0 is None {
                                Some(2usize)
                            } else {
                                c0.ime.0
                            },
                            c0.ime.1,
                        ),
                        pc: pc_n(c0, sz),
                        ..c0
                    },
                    c1,
                    m1,
                    k1,
                ),
                Instruction::DI => fin(
                    k0,
                    m0,
                    1,
                    CPU { ime: (None::<usize>, false), pc: pc_n(c0, sz), ..c0 },
                    c1,
                    m1,
                    k1,
                ),
                Instruction::HALT => fin(
                    k0,
                    m0,
                    1,
                    CPU { halt: true, pc: pc_n(c0, 1), ..c0 },
                    c1,
                    m1,
                    k1,
                ),
                Instruction::STOP => false,
            }
        },
    }
}

/// The decoder never produces STOP: no byte of the opcode map maps to it.
proof fn lemma_decode_no_stop(b0: Byte, b1: Byte, b2: Byte)
    ensures
        match spec_decode(b0, b1, b2) {
            Some(si) => !(si.instruction is STOP),
            None => true,
        },
{
}

/// The documented size in bytes of each instruction: one opcode byte, plus
/// its immediate operand bytes; CB-page instructions take the prefix byte
/// and the selector byte.
pub open spec fn instr_len(i: Instruction) -> Word {
    match i {
        Instruction::LD_R_N(_, _) => 2,
        Instruction::LD_HL_N(_) => 2,
        Instruction::LDH_A_N(_) => 2,
        Instruction::LDH_N_A(_) => 2,
        Instruction::LD_HL_SP(_) => 2,
        Instruction::ADD_N(_) => 2,
        Instruction::SUB_N(_) => 2,
        Instruction::AND_N(_) => 2,
        Instruction::OR_N(_) => 2,
        Instruction::ADC_N(_) => 2,
        Instruction::SBC_N(_) => 2,
        Instruction::XOR_N(_) => 2,
        Instruction::CP_N(_) => 2,
        Instruction::ADD_SP_E(_) => 2,
        Instruction::JR(_) => 2,
        Instruction::JR_CC(_, _) => 2,
        Instruction::LD_A_NN(_) => 3,
        Instruction::LD_NN_A(_) => 3,
        Instruction::LD_RR_NN(_, _) => 3,
        Instruction::LD_NN_SP(_) => 3,
        Instruction::JP_NN(_) => 3,
        Instruction::JP_CC_NN(_, _) => 3,
        Instruction::CALL(_) => 3,
        Instruction::CALL_CC(_, _) => 3,
        Instruction::RLC(_) => 2,
        Instruction::RLC_HL => 2,
        Instruction::RRC(_) => 2,
        Instruction::RRC_HL => 2,
        Instruction::RL(_) => 2,
        Instruction::RL_HL => 2,
        Instruction::RR(_) => 2,
        Instruction::RR_HL => 2,
        Instruction::SLA(_) => 2,
        Instruction::SLA_HL => 2,
        Instruction::SRA(_) => 2,
        Instruction::SRA_HL => 2,
        Instruction::SWAP(_) => 2,
        Instruction::SWAP_HL => 2,
        Instruction::SRL(_) => 2,
        Instruction::SRL_HL => 2,
        Instruction::BIT(_, _) => 2,
        Instruction::BIT_HL(_) => 2,
        Instruction::RES(_, _) => 2,
        Instruction::RES_HL(_) => 2,
        Instruction::SET(_, _) => 2,
        Instruction::SET_HL(_) => 2,
        _ => 1,
    }
}

/// Every decoded instruction carries exactly its documented size, so a
/// decoder-driven fetch advances the program counter by that size.
#[verifier::rlimit(100)]
#[verifier::spinoff_prover]
pub proof fn law_decode_size(b0: Byte, b1: Byte, b2: Byte)
    ensures
        match spec_decode(b0, b1, b2) {
            Some(si) => si.size == instr_len(si.instruction),
            None => true,
        },
{
}

/// A step's closing relation adds exactly its machine-cycle debit to the
/// clock timestamp.
pub proof fn lemma_fin_timestamp()
    ensures
        forall|k0: Clock, mw: MemV, n: u8, cexp: CPU, c1: CPU, m1: MemV, k1: Clock|
            #[trigger] fin(k0, mw, n, cexp, c1, m1, k1) ==> k1.timestamp == (k0.timestamp
                + n) as u128,
{
    reveal(fin);
    assert forall|k0: Clock, mw: MemV, n: u8, cexp: CPU, c1: CPU, m1: MemV, k1: Clock|
        #[trigger] fin(k0, mw, n, cexp, c1, m1, k1) implies k1.timestamp == (k0.timestamp
        + n) as u128 by {}
}

/// Every taken conditional jump debits the clock its taken-branch cycle
/// count, and every not-taken one its not-taken count, per the reference
/// per-opcode table.
#[verifier::rlimit(100)]
#[verifier::spinoff_prover]
pub proof fn law_branch_cycles(c0: CPU, m0: MemV, k0: Clock, c1: CPU, m1: MemV, k1: Clock)
    requires
        step_spec(c0, m0, k0, c1, m1, k1),
        k0.timestamp + 6 <= u128::MAX,
    ensures
        match spec_decode(
            m0.mem[c0.pc as int],
            m0.mem[wrap16(c0.pc + 1) as int],
            m0.mem[wrap16(c0.pc + 2) as int],
        ) {
            Some(si) => match si.instruction {
                Instruction::JP_CC_NN(cc, _) => k1.timestamp == k0.timestamp + (if cond_holds(c0, cc) {
                    4int
                } else {
                    3int
                }),
                Instruction::JR_CC(cc, _) => k1.timestamp == k0.timestamp + (if cond_holds(c0, cc) {
                    3int
                } else {
                    2int
                }),
                _ => true,
            },
            None => true,
        },
{
    reveal(step_spec);
    lemma_fin_timestamp();
}

/// Every taken conditional call or return debits its taken count, every
/// not-taken one its not-taken count, and CALL, RET and RETI their fixed
/// counts, per the reference per-opcode table.
#[verifier::rlimit(100)]
#[verifier::spinoff_prover]
pub proof fn law_call_ret_cycles(c0: CPU, m0: MemV, k0: Clock, c1: CPU, m1: MemV, k1: Clock)
    requires
        step_spec(c0, m0, k0, c1, m1, k1),
        k0.timestamp + 6 <= u128::MAX,
    ensures
        match spec_decode(
            m0.mem[c0.pc as int],
            m0.mem[wrap16(c0.pc + 1) as int],
            m0.mem[wrap16(c0.pc + 2) as int],
        ) {
            Some(si) => match si.instruction {
                Instruction::CALL_CC(cc, _) => k1.timestamp == k0.timestamp + (if cond_holds(c0, cc) {
                    6int
                } else {
                    3int
                }),
                Instruction::RET_CC(cc) => k1.timestamp == k0.timestamp + (if cond_holds(c0, cc) {
                    5int
                } else {
                    2int
                }),
                Instruction::CALL(_) => k1.timestamp == k0.timestamp + 6,
                Instruction::RET => k1.timestamp == k0.timestamp + 4,
                Instruction::RETI => k1.timestamp == k0.timestamp + 4,
                _ => true,
            },
            None => true,
        },
{
    reveal(step_spec);
    lemma_fin_timestamp();
}

/// Every unconditional jump and restart debits its fixed cycle count, per
/// the reference per-opcode table.
#[verifier::rlimit(100)]
#[verifier::spinoff_prover]
pub proof fn law_jump_cycles(c0: CPU, m0: MemV, k0: Clock, c1: CPU, m1: MemV, k1: Clock)
    requires
        step_spec(c0, m0, k0, c1, m1, k1),
        k0.timestamp + 6 <= u128::MAX,
    ensures
        match spec_decode(
            m0.mem[c0.pc as int],
            m0.mem[wrap16(c0.pc + 1) as int],
            m0.mem[wrap16(c0.pc + 2) as int],
        ) {
            Some(si) => match si.instruction {
                Instruction::JP_NN(_) => k1.timestamp == k0.timestamp + 4,
                Instruction::JP_HL => k1.timestamp == k0.timestamp + 1,
                Instruction::JR(_) => k1.timestamp == k0.timestamp + 3,
                Instruction::RST(_) => k1.timestamp == k0.timestamp + 4,
                _ => true,
            },
            None => true,
        },
{
    reveal(step_spec);
    lemma_fin_timestamp();
}

impl CPU {
    #[verifier::rlimit(100)]
    #[verifier::spinoff_prover]
    fn ex_alu_r(&mut self, memory: &mut Memory, clock: &mut Clock, si: SizedInstruction)
        requires
            old(self).wf(),
            old(memory).wf(),
            old(clock).wf(),
            old(clock).timestamp + 6 <= u128::MAX,
            spec_decode(
                old(memory)@.mem[old(self).pc as int],
                old(memory)@.mem[wrap16(old(self).pc + 1) as int],
                old(memory)@.mem[wrap16(old(self).pc + 2) as int],
            ) == Some(si),
            ({
                ||| si.instruction is ADD_R
                ||| si.instruction is SUB_R
                ||| si.instruction is AND_R
                ||| si.instruction is OR_R
                ||| si.instruction is XOR_R
                ||| si.instruction is CP_R
                ||| si.instruction is ADC_R
                ||| si.instruction is SBC_R
            }),
        ensures
            step_spec(*old(self), old(memory)@, *old(clock), *final(self), final(memory)@, *final(clock)),
            final(self).wf(),
            final(memory).wf(),
            final(clock).wf(),
            old(clock).timestamp <= final(clock).timestamp <= old(clock).timestamp + 6,
    {
        proof {
            reveal(step_spec);
            reveal(fin);
        }
        let size = si.size;
        let cycles: u8;
        match si.instruction {
            Instruction::ADD_R(r) => {
                let v = self.get_register(r);
                let x = add8(self.a, v);
                self.a = x.0;
                self.f = x.1;
                self.pc = wadd16(self.pc, size);
                cycles = 1;
            },
            Instruction::SUB_R(r) => {
                let v = self.get_register(r);
                let x = sub8(self.a, v);
                self.a = x.0;
                self.f = x.1;
                self.pc = wadd16(self.pc, size);
                cycles = 1;
            },
            Instruction::AND_R(r) => {
                let v = self.get_register(r);
                let x = and8(self.a, v);
                self.a = x.0;
                self.f = x.1;
                self.pc = wadd16(self.pc, size);
                cycles = 1;
            },
            Instruction::OR_R(r) => {
                let v = self.get_register(r);
                let x = or8(self.a, v);
                self.a = x.0;
                self.f = x.1;
                self.pc = wadd16(self.pc, size);
                cycles = 1;
            },
            Instruction::XOR_R(r) => {
                let v = self.get_register(r);
                let x = xor8(self.a, v);
                self.a = x.0;
                self.f = x.1;
                self.pc = wadd16(self.pc, size);
                cycles = 1;
            },
            Instruction::CP_R(r) => {
                let v = self.get_register(r);
                let x = sub8(self.a, v);
                self.f = x.1;
                self.pc = wadd16(self.pc, size);
                cycles = 1;
            },
            Instruction::ADC_R(r) => {
                let v = self.get_register(r);
                let cf = self.get_flag(CARRY_FLAG);
                let x = adc8(self.a, v, cf);
                self.a = x.0;
                self.f = x.1;
                self.pc = wadd16(self.pc, size);
                cycles = 1;
            },
            Instruction::SBC_R(r) => {
                let v = self.get_register(r);
                let cf = self.get_flag(CARRY_FLAG);
                let x = sbc8(self.a, v, cf);
                self.a = x.0;
                self.f = x.1;
                self.pc = wadd16(self.pc, size);
                cycles = 1;
            },
            _ => {
                proof {
                    assert(false);
                }
                cycles = 0;
            },
        }
        clock.tick(cycles, memory);
    }

    #[verifier::rlimit(100)]
    #[verifier::spinoff_prover]
    fn ex_alu_n(&mut self, memory: &mut Memory, clock: &mut Clock, si: SizedInstruction)
        requires
            old(self).wf(),
            old(memory).wf(),
            old(clock).wf(),
            old(clock).timestamp + 6 <= u128::MAX,
            spec_decode(
                old(memory)@.mem[old(self).pc as int],
                old(memory)@.mem[wrap16(old(self).pc + 1) as int],
                old(memory)@.mem[wrap16(old(self).pc + 2) as int],
            ) == Some(si),
            ({
                ||| si.instruction is ADD_N
                ||| si.instruction is SUB_N
                ||| si.instruction is AND_N
                ||| si.instruction is OR_N
                ||| si.instruction is XOR_N
                ||| si.instruction is CP_N
                ||| si.instruction is ADC_N
                ||| si.instruction is SBC_N
            }),
        ensures
            step_spec(*old(self), old(memory)@, *old(clock), *final(self), final(memory)@, *final(clock)),
            final(self).wf(),
            final(memory).wf(),
            final(clock).wf(),
            old(clock).timestamp <= final(clock).timestamp <= old(clock).timestamp + 6,
    {
        proof {
            reveal(step_spec);
            reveal(fin);
        }
        let size = si.size;
        let cycles: u8;
        match si.instruction {
            Instruction::ADD_N(imm) => {
                let x = add8(self.a, imm);
                self.a = x.0;
                self.f = x.1;
                self.pc = wadd16(self.pc, size);
                cycles = 2;
            },
            Instruction::SUB_N(imm) => {
                let x = sub8(self.a, imm);
                self.a = x.0;
                self.f = x.1;
                self.pc = wadd16(self.pc, size);
                cycles = 2;
            },
            Instruction::AND_N(imm) => {
                let x = and8(self.a, imm);
                self.a = x.0;
                self.f = x.1;
                self.pc = wadd16(self.pc, size);
                cycles = 2;
            },
            Instruction::OR_N(imm) => {
                let x = or8(self.a, imm);
                self.a = x.0;
                self.f = x.1;
                self.pc = wadd16(self.pc, size);
                cycles = 2;
            },
            Instruction::XOR_N(imm) => {
                let x = xor8(self.a, imm);
                self.a = x.0;
                self.f = x.1;
                self.pc = wadd16(self.pc, size);
                cycles = 2;
            },
            Instruction::CP_N(imm) => {
                let x = sub8(self.a, imm);
                self.f = x.1;
                self.pc = wadd16(self.pc, size);
                cycles = 2;
            },
            Instruction::ADC_N(imm) => {
                let cf = self.get_flag(CARRY_FLAG);
                let x = adc8(self.a, imm, cf);
                self.a = x.0;
                self.f = x.1;
                self.pc = wadd16(self.pc, size);
                cycles = 2;
            },
            Instruction::SBC_N(imm) => {
                let cf = self.get_flag(CARRY_FLAG);
                let x = sbc8(self.a, imm, cf);
                self.a = x.0;
                self.f = x.1;
                self.pc = wadd16(self.pc, size);
                cycles = 2;
            },
            _ => {
                proof {
                    assert(false);
                }
                cycles = 0;
            },
        }
        clock.tick(cycles, memory);
    }

    #[verifier::rlimit(100)]
    #[verifier::spinoff_prover]
    fn ex_alu_hl(&mut self, memory: &mut Memory, clock: &mut Clock, si: SizedInstruction)
        requires
            old(self).wf(),
            old(memory).wf(),
            old(clock).wf(),
            old(clock).timestamp + 6 <= u128::MAX,
            spec_decode(
                old(memory)@.mem[old(self).pc as int],
                old(memory)@.mem[wrap16(old(self).pc + 1) as int],
                old(memory)@.mem[wrap16(old(self).pc + 2) as int],
            ) == Some(si),
            ({
                ||| si.instruction is ADD_HL
                ||| si.instruction is SUB_HL
                ||| si.instruction is AND_HL
                ||| si.instruction is OR_HL
                ||| si.instruction is XOR_HL
                ||| si.instruction is CP_HL
                ||| si.instruction is ADC_HL
                ||| si.instruction is SBC_HL
            }),
        ensures
            step_spec(*old(self), old(memory)@, *old(clock), *final(self), final(memory)@, *final(clock)),
            final(self).wf(),
            final(memory).wf(),
            final(clock).wf(),
            old(clock).timestamp <= final(clock).timestamp <= old(clock).timestamp + 6,
    {
        proof {
            reveal(step_spec);
            reveal(fin);
        }
        let size = si.size;
        let cycles: u8;
        match si.instruction {
            Instruction::ADD_HL => {
                let addr = self.get_hl();
                let v = memory.read_byte(addr);
                let x = add8(self.a, v);
                self.a = x.0;
                self.f = x.1;
                self.pc = wadd16(self.pc, size);
                cycles = 2;
            },
            Instruction::SUB_HL => {
                let addr = self.get_hl();
                let v = memory.read_byte(addr);
                let x = sub8(self.a, v);
                self.a = x.0;
                self.f = x.1;
                self.pc = wadd16(self.pc, size);
                cycles = 2;
            },
            Instruction::AND_HL => {
                let addr = self.get_hl();
                let v = memory.read_byte(addr);
                let x = and8(self.a, v);
                self.a = x.0;
                self.f = x.1;
                self.pc = wadd16(self.pc, size);
                cycles = 2;
            },
            Instruction::OR_HL => {
                let addr = self.get_hl();
                let v = memory.read_byte(addr);
                let x = or8(self.a, v);
                self.a = x.0;
                self.f = x.1;
                self.pc = wadd16(self.pc, size);
                cycles = 2;
            },
            Instruction::XOR_HL => {
                let addr = self.get_hl();
                let v = memory.read_byte(addr);
                let x = xor8(self.a, v);
                self.a = x.0;
                self.f = x.1;
                self.pc = wadd16(self.pc, size);
                cycles = 2;
            },
            Instruction::CP_HL => {
                let addr = self.get_hl();
                let v = memory.read_byte(addr);
                let x = sub8(self.a, v);
                self.f = x.1;
                self.pc = wadd16(self.pc, size);
                cycles = 2;
            },
            Instruction::ADC_HL => {
                let addr = self.get_hl();
                let v = memory.read_byte(addr);
                let cf = self.get_flag(CARRY_FLAG);
                let x = adc8(self.a, v, cf);
                self.a = x.0;
                self.f = x.1;
                self.pc = wadd16(self.pc, size);
                cycles = 2;
            },
            Instruction::SBC_HL => {
                let addr = self.get_hl();
                let v = memory.read_byte(addr);
                let cf = self.get_flag(CARRY_FLAG);
                let x = sbc8(self.a, v, cf);
                self.a = x.0;
                self.f = x.1;
                self.pc = wadd16(self.pc, size);
                cycles = 2;
            },
            _ => {
                proof {
                    assert(false);
                }
                cycles = 0;
            },
        }
        clock.tick(cycles, memory);
    }

    #[verifier::rlimit(100)]
    #[verifier::spinoff_prover]
    fn ex_ld8_reg(&mut self, memory: &mut Memory, clock: &mut Clock, si: SizedInstruction)
        requires
            old(self).wf(),
            old(memory).wf(),
            old(clock).wf(),
            old(clock).timestamp + 6 <= u128::MAX,
            spec_decode(
                old(memory)@.mem[old(self).pc as int],
                old(memory)@.mem[wrap16(old(self).pc + 1) as int],
                old(memory)@.mem[wrap16(old(self).pc + 2) as int],
            ) == Some(si),
            ({
                ||| si.instruction is LD_R_R
                ||| si.instruction is LD_R_N
                ||| si.instruction is LD_R_HL
                ||| si.instruction is LD_HL_R
                ||| si.instruction is LD_HL_N
                ||| si.instruction is LD_A_HL_I
                ||| si.instruction is LD_A_HL_D
                ||| si.instruction is LD_HL_A_I
                ||| si.instruction is LD_HL_A_D
            }),
        ensures
            step_spec(*old(self), old(memory)@, *old(clock), *final(self), final(memory)@, *final(clock)),
            final(self).wf(),
            final(memory).wf(),
            final(clock).wf(),
            old(clock).timestamp <= final(clock).timestamp <= old(clock).timestamp + 6,
    {
        proof {
            reveal(step_spec);
            reveal(fin);
        }
        let size = si.size;
        let cycles: u8;
        match si.instruction {
            Instruction::LD_R_R(r1, r2) => {
                let data = self.get_register(r2);
                self.set_register(r1, data);
                self.pc = wadd16(self.pc, size);
                cycles = 1;
            },
            Instruction::LD_R_N(r, imm) => {
                self.set_register(r, imm);
                self.pc = wadd16(self.pc, size);
                cycles = 2;
            },
            Instruction::LD_R_HL(r) => {
                let addr = self.get_hl();
                let data = memory.read_byte(addr);
                self.set_register(r, data);
                self.pc = wadd16(self.pc, size);
                cycles = 2;
            },
            Instruction::LD_HL_R(r) => {
                let addr = self.get_hl();
                let data = self.get_register(r);
                memory.write_byte(addr, data);
                self.pc = wadd16(self.pc, size);
                cycles = 2;
            },
            Instruction::LD_HL_N(imm) => {
                let addr = self.get_hl();
                memory.write_byte(addr, imm);
                self.pc = wadd16(self.pc, size);
                cycles = 3;
            },
            Instruction::LD_A_HL_I => {
                let addr = self.get_hl();
                self.a = memory.read_byte(addr);
                let nhl = wadd16(addr, 1);
                self.set_hl(nhl);
                self.pc = wadd16(self.pc, size);
                cycles = 2;
            },
            Instruction::LD_A_HL_D => {
                let addr = self.get_hl();
                self.a = memory.read_byte(addr);
                let nhl = wsub16(addr, 1);
                self.set_hl(nhl);
                self.pc = wadd16(self.pc, size);
                cycles = 2;
            },
            Instruction::LD_HL_A_I => {
                let addr = self.get_hl();
                memory.write_byte(addr, self.a);
                let nhl = wadd16(addr, 1);
                self.set_hl(nhl);
                self.pc = wadd16(self.pc, size);
                cycles = 2;
            },
            Instruction::LD_HL_A_D => {
                let addr = self.get_hl();
                memory.write_byte(addr, self.a);
                let nhl = wsub16(addr, 1);
                self.set_hl(nhl);
                self.pc = wadd16(self.pc, size);
                cycles = 2;
            },
            _ => {
                proof {
                    assert(false);
                }
                cycles = 0;
            },
        }
        clock.tick(cycles, memory);
    }

    #[verifier::rlimit(100)]
    #[verifier::spinoff_prover]
    fn ex_ld8_abs(&mut self, memory: &mut Memory, clock: &mut Clock, si: SizedInstruction)
        requires
            old(self).wf(),
            old(memory).wf(),
            old(clock).wf(),
            old(clock).timestamp + 6 <= u128::MAX,
            spec_decode(
                old(memory)@.mem[old(self).pc as int],
                old(memory)@.mem[wrap16(old(self).pc + 1) as int],
                old(memory)@.mem[wrap16(old(self).pc + 2) as int],
            ) == Some(si),
            ({
                ||| si.instruction is LD_A_BC
                ||| si.instruction is LD_A_DE
                ||| si.instruction is LD_BC_A
                ||| si.instruction is LD_DE_A
                ||| si.instruction is LD_A_NN
                ||| si.instruction is LD_NN_A
                ||| si.instruction is LDH_A_C
                ||| si.instruction is LDH_C_A
                ||| si.instruction is LDH_A_N
                ||| si.instruction is LDH_N_A
            }),
        ensures
            step_spec(*old(self), old(memory)@, *old(clock), *final(self), final(memory)@, *final(clock)),
            final(self).wf(),
            final(memory).wf(),
            final(clock).wf(),
            old(clock).timestamp <= final(clock).timestamp <= old(clock).timestamp + 6,
    {
        proof {
            reveal(step_spec);
            reveal(fin);
        }
        let size = si.size;
        let cycles: u8;
        match si.instruction {
            Instruction::LD_A_BC => {
                let addr = self.get_register16(Register16::BC);
                self.a = memory.read_byte(addr);
                self.pc = wadd16(self.pc, size);
                cycles = 2;
            },
            Instruction::LD_A_DE => {
                let addr = self.get_register16(Register16::DE);
                self.a = memory.read_byte(addr);
                self.pc = wadd16(self.pc, size);
                cycles = 2;
            },
            Instruction::LD_BC_A => {
                let addr = self.get_register16(Register16::BC);
                memory.write_byte(addr, self.a);
                self.pc = wadd16(self.pc, size);
                cycles = 2;
            },
            Instruction::LD_DE_A => {
                let addr = self.get_register16(Register16::DE);
                memory.write_byte(addr, self.a);
                self.pc = wadd16(self.pc, size);
                cycles = 2;
            },
            Instruction::LD_A_NN(nn) => {
                self.a = memory.read_byte(nn);
                self.pc = wadd16(self.pc, size);
                cycles = 4;
            },
            Instruction::LD_NN_A(nn) => {
                memory.write_byte(nn, self.a);
                self.pc = wadd16(self.pc, size);
                cycles = 4;
            },
            Instruction::LDH_A_C => {
                let addr = bytes2word(self.c, 0xFF);
                self.a = memory.read_byte(addr);
                self.pc = wadd16(self.pc, size);
                cycles = 2;
            },
            Instruction::LDH_C_A => {
                let addr = bytes2word(self.c, 0xFF);
                memory.write_byte(addr, self.a);
                self.pc = wadd16(self.pc, size);
                cycles = 2;
            },
            Instruction::LDH_A_N(imm) => {
                let addr = bytes2word(imm, 0xFF);
                self.a = memory.read_byte(addr);
                self.pc = wadd16(self.pc, size);
                cycles = 3;
            },
            Instruction::LDH_N_A(imm) => {
                let addr = bytes2word(imm, 0xFF);
                memory.write_byte(addr, self.a);
                self.pc = wadd16(self.pc, size);
                cycles = 3;
            },
            _ => {
                proof {
                    assert(false);
                }
                cycles = 0;
            },
        }
        clock.tick(cycles, memory);
    }

    #[verifier::rlimit(100)]
    #[verifier::spinoff_prover]
    fn ex_ld16(&mut self, memory: &mut Memory, clock: &mut Clock, si: SizedInstruction)
        requires
            old(self).wf(),
            old(memory).wf(),
            old(clock).wf(),
            old(clock).timestamp + 6 <= u128::MAX,
            spec_decode(
                old(memory)@.mem[old(self).pc as int],
                old(memory)@.mem[wrap16(old(self).pc + 1) as int],
                old(memory)@.mem[wrap16(old(self).pc + 2) as int],
            ) == Some(si),
            ({
                ||| si.instruction is LD_RR_NN
                ||| si.instruction is LD_NN_SP
                ||| si.instruction is LD_SP_HL
                ||| si.instruction is LD_HL_SP
                ||| si.instruction is PUSH
                ||| si.instruction is POP
                ||| si.instruction is ADD_SP_E
            }),
        ensures
            step_spec(*old(self), old(memory)@, *old(clock), *final(self), final(memory)@, *final(clock)),
            final(self).wf(),
            final(memory).wf(),
            final(clock).wf(),
            old(clock).timestamp <= final(clock).timestamp <= old(clock).timestamp + 6,
    {
        proof {
            reveal(step_spec);
            reveal(fin);
        }
        let size = si.size;
        let cycles: u8;
        match si.instruction {
            Instruction::LD_RR_NN(rr, nn) => {
                self.set_register16(rr, nn);
                self.pc = wadd16(self.pc, size);
                cycles = 3;
            },
            Instruction::LD_NN_SP(nn) => {
                memory.write_byte(nn, (self.sp % 256) as Byte);
                let nn1 = wadd16(nn, 1);
                memory.write_byte(nn1, (self.sp / 256) as Byte);
                self.pc = wadd16(self.pc, size);
                cycles = 5;
            },
            Instruction::LD_SP_HL => {
                self.sp = self.get_hl();
                self.pc = wadd16(self.pc, size);
                cycles = 2;
            },
            Instruction::LD_HL_SP(e) => {
                let x = addsp16(self.sp, e);
                self.set_hl(x.0);
                self.f = x.1;
                self.pc = wadd16(self.pc, size);
                cycles = 3;
            },
            Instruction::PUSH(rr) => {
                let data = self.get_register16(rr);
                self.push_word(memory, data);
                self.pc = wadd16(self.pc, 1);
                cycles = 4;
            },
            Instruction::POP(rr) => {
                let lo = memory.read_byte(self.sp);
                let sp1 = wadd16(self.sp, 1);
                let hi = memory.read_byte(sp1);
                let w = bytes2word(lo, hi);
                self.set_register16(rr, w);
                self.sp = wadd16(self.sp, 2);
                self.pc = wadd16(self.pc, 1);
                cycles = 3;
            },
            Instruction::ADD_SP_E(e) => {
                let x = addsp16(self.sp, e);
                self.sp = x.0;
                self.f = x.1;
                self.pc = wadd16(self.pc, size);
                cycles = 4;
            },
            _ => {
                proof {
                    assert(false);
                }
                cycles = 0;
            },
        }
        clock.tick(cycles, memory);
    }

    #[verifier::rlimit(100)]
    #[verifier::spinoff_prover]
    fn ex_incdec(&mut self, memory: &mut Memory, clock: &mut Clock, si: SizedInstruction)
        requires
            old(self).wf(),
            old(memory).wf(),
            old(clock).wf(),
            old(clock).timestamp + 6 <= u128::MAX,
            spec_decode(
                old(memory)@.mem[old(self).pc as int],
                old(memory)@.mem[wrap16(old(self).pc + 1) as int],
                old(memory)@.mem[wrap16(old(self).pc + 2) as int],
            ) == Some(si),
            ({
                ||| si.instruction is INC_R
                ||| si.instruction is INC_HL
                ||| si.instruction is DEC_R
                ||| si.instruction is DEC_HL
                ||| si.instruction is INC_RR
                ||| si.instruction is DEC_RR
                ||| si.instruction is ADD_HL_RR
            }),
        ensures
            step_spec(*old(self), old(memory)@, *old(clock), *final(self), final(memory)@, *final(clock)),
            final(self).wf(),
            final(memory).wf(),
            final(clock).wf(),
            old(clock).timestamp <= final(clock).timestamp <= old(clock).timestamp + 6,
    {
        proof {
            reveal(step_spec);
            reveal(fin);
        }
        let size = si.size;
        let cycles: u8;
        match si.instruction {
            Instruction::INC_R(r) => {
                let v = self.get_register(r);
                let x = inc8(v, self.f);
                self.set_register(r, x.0);
                self.f = x.1;
                self.pc = wadd16(self.pc, size);
                cycles = 1;
            },
            Instruction::INC_HL => {
                let addr = self.get_hl();
                let v = memory.read_byte(addr);
                let x = inc8(v, self.f);
                memory.write_byte(addr, x.0);
                self.f = x.1;
                self.pc = wadd16(self.pc, size);
                cycles = 3;
            },
            Instruction::DEC_R(r) => {
                let v = self.get_register(r);
                let x = dec8(v, self.f);
                self.set_register(r, x.0);
                self.f = x.1;
                self.pc = wadd16(self.pc, size);
                cycles = 1;
            },
            Instruction::DEC_HL => {
                let addr = self.get_hl();
                let v = memory.read_byte(addr);
                let x = dec8(v, self.f);
                memory.write_byte(addr, x.0);
                self.f = x.1;
                self.pc = wadd16(self.pc, size);
                cycles = 3;
            },
            Instruction::INC_RR(rr) => {
                let v = self.get_register16(rr);
                self.set_register16(rr, wadd16(v, 1));
                self.pc = wadd16(self.pc, size);
                cycles = 2;
            },
            Instruction::DEC_RR(rr) => {
                let v = self.get_register16(rr);
                self.set_register16(rr, wsub16(v, 1));
                self.pc = wadd16(self.pc, size);
                cycles = 2;
            },
            Instruction::ADD_HL_RR(rr) => {
                let hl = self.get_hl();
                let v = self.get_register16(rr);
                let x = add16hl(hl, v, self.f);
                self.set_hl(x.0);
                self.f = x.1;
                self.pc = wadd16(self.pc, size);
                cycles = 2;
            },
            _ => {
                proof {
                    assert(false);
                }
                cycles = 0;
            },
        }
        clock.tick(cycles, memory);
    }

    #[verifier::rlimit(100)]
    #[verifier::spinoff_prover]
    fn ex_rot_a(&mut self, memory: &mut Memory, clock: &mut Clock, si: SizedInstruction)
        requires
            old(self).wf(),
            old(memory).wf(),
            old(clock).wf(),
            old(clock).timestamp + 6 <= u128::MAX,
            spec_decode(
                old(memory)@.mem[old(self).pc as int],
                old(memory)@.mem[wrap16(old(self).pc + 1) as int],
                old(memory)@.mem[wrap16(old(self).pc + 2) as int],
            ) == Some(si),
            ({
                ||| si.instruction is RLA
                ||| si.instruction is RLCA
                ||| si.instruction is RRA
                ||| si.instruction is RRCA
            }),
        ensures
            step_spec(*old(self), old(memory)@, *old(clock), *final(self), final(memory)@, *final(clock)),
            final(self).wf(),
            final(memory).wf(),
            final(clock).wf(),
            old(clock).timestamp <= final(clock).timestamp <= old(clock).timestamp + 6,
    {
        proof {
            reveal(step_spec);
            reveal(fin);
        }
        let size = si.size;
        let cycles: u8;
        match si.instruction {
            Instruction::RLA => {
                let cf = self.get_flag(CARRY_FLAG);
                let x = rl_core(self.a, cf);
                self.a = x.0;
                self.f = mk_flags(false, false, false, x.1);
                self.pc = wadd16(self.pc, size);
                cycles = 1;
            },
            Instruction::RLCA => {
                let x = rlc_core(self.a);
                self.a = x.0;
                self.f = mk_flags(false, false, false, x.1);
                self.pc = wadd16(self.pc, size);
                cycles = 1;
            },
            Instruction::RRA => {
                let cf = self.get_flag(CARRY_FLAG);
                let x = rr_core(self.a, cf);
                self.a = x.0;
                self.f = mk_flags(false, false, false, x.1);
                self.pc = wadd16(self.pc, size);
                cycles = 1;
            },
            Instruction::RRCA => {
                let x = rrc_core(self.a);
                self.a = x.0;
                self.f = mk_flags(false, false, false, x.1);
                self.pc = wadd16(self.pc, size);
                cycles = 1;
            },
            _ => {
                proof {
                    assert(false);
                }
                cycles = 0;
            },
        }
        clock.tick(cycles, memory);
    }

    #[verifier::rlimit(100)]
    #[verifier::spinoff_prover]
    fn ex_shift_r(&mut self, memory: &mut Memory, clock: &mut Clock, si: SizedInstruction)
        requires
            old(self).wf(),
            old(memory).wf(),
            old(clock).wf(),
            old(clock).timestamp + 6 <= u128::MAX,
            spec_decode(
                old(memory)@.mem[old(self).pc as int],
                old(memory)@.mem[wrap16(old(self).pc + 1) as int],
                old(memory)@.mem[wrap16(old(self).pc + 2) as int],
            ) == Some(si),
            ({
                ||| si.instruction is SLA
                ||| si.instruction is SRA
                ||| si.instruction is SRL
                ||| si.instruction is SWAP
            }),
        ensures
            step_spec(*old(self), old(memory)@, *old(clock), *final(self), final(memory)@, *final(clock)),
            final(self).wf(),
            final(memory).wf(),
            final(clock).wf(),
            old(clock).timestamp <= final(clock).timestamp <= old(clock).timestamp + 6,
    {
        proof {
            reveal(step_spec);
            reveal(fin);
        }
        let size = si.size;
        let cycles: u8;
        match si.instruction {
            Instruction::SLA(r) => {
                let v = self.get_register(r);
                let x = sla_core(v);
                self.set_register(r, x.0);
                self.f = mk_flags(x.0 == 0, false, false, x.1);
                self.pc = wadd16(self.pc, size);
                cycles = 2;
            },
            Instruction::SRA(r) => {
                let v = self.get_register(r);
                let x = sra_core(v);
                self.set_register(r, x.0);
                self.f = mk_flags(x.0 == 0, false, false, x.1);
                self.pc = wadd16(self.pc, size);
                cycles = 2;
            },
            Instruction::SRL(r) => {
                let v = self.get_register(r);
                let x = srl_core(v);
                self.set_register(r, x.0);
                self.f = mk_flags(x.0 == 0, false, false, x.1);
                self.pc = wadd16(self.pc, size);
                cycles = 2;
            },
            Instruction::SWAP(r) => {
                let v = self.get_register(r);
                let res = swap_core(v);
                self.set_register(r, res);
                self.f = mk_flags(res == 0, false, false, false);
                self.pc = wadd16(self.pc, size);
                cycles = 2;
            },
            _ => {
                proof {
                    assert(false);
                }
                cycles = 0;
            },
        }
        clock.tick(cycles, memory);
    }

    #[verifier::rlimit(100)]
    #[verifier::spinoff_prover]
    fn ex_rot_r(&mut self, memory: &mut Memory, clock: &mut Clock, si: SizedInstruction)
        requires
            old(self).wf(),
            old(memory).wf(),
            old(clock).wf(),
            old(clock).timestamp + 6 <= u128::MAX,
            spec_decode(
                old(memory)@.mem[old(self).pc as int],
                old(memory)@.mem[wrap16(old(self).pc + 1) as int],
                old(memory)@.mem[wrap16(old(self).pc + 2) as int],
            ) == Some(si),
            ({
                ||| si.instruction is RLC
                ||| si.instruction is RL
                ||| si.instruction is RRC
                ||| si.instruction is RR
            }),
        ensures
            step_spec(*old(self), old(memory)@, *old(clock), *final(self), final(memory)@, *final(clock)),
            final(self).wf(),
            final(memory).wf(),
            final(clock).wf(),
            old(clock).timestamp <= final(clock).timestamp <= old(clock).timestamp + 6,
    {
        proof {
            reveal(step_spec);
            reveal(fin);
        }
        let size = si.size;
        let cycles: u8;
        match si.instruction {
            Instruction::RLC(r) => {
                let v = self.get_register(r);
                let x = rlc_core(v);
                self.set_register(r, x.0);
                self.f = mk_flags(x.0 == 0, false, false, x.1);
                self.pc = wadd16(self.pc, size);
                cycles = 2;
            },
            Instruction::RL(r) => {
                let v = self.get_register(r);
                let cf = self.get_flag(CARRY_FLAG);
                let x = rl_core(v, cf);
                self.set_register(r, x.0);
                self.f = mk_flags(x.0 == 0, false, false, x.1);
                self.pc = wadd16(self.pc, size);
                cycles = 2;
            },
            Instruction::RRC(r) => {
                let v = self.get_register(r);
                let x = rrc_core(v);
                self.set_register(r, x.0);
                self.f = mk_flags(x.0 == 0, false, false, x.1);
                self.pc = wadd16(self.pc, size);
                cycles = 2;
            },
            Instruction::RR(r) => {
                let v = self.get_register(r);
                let cf = self.get_flag(CARRY_FLAG);
                let x = rr_core(v, cf);
                self.set_register(r, x.0);
                self.f = mk_flags(x.0 == 0, false, false, x.1);
                self.pc = wadd16(self.pc, size);
                cycles = 2;
            },
            _ => {
                proof {
                    assert(false);
                }
                cycles = 0;
            },
        }
        clock.tick(cycles, memory);
    }

    #[verifier::rlimit(100)]
    #[verifier::spinoff_prover]
    fn ex_rot_hl(&mut self, memory: &mut Memory, clock: &mut Clock, si: SizedInstruction)
        requires
            old(self).wf(),
            old(memory).wf(),
            old(clock).wf(),
            old(clock).timestamp + 6 <= u128::MAX,
            spec_decode(
                old(memory)@.mem[old(self).pc as int],
                old(memory)@.mem[wrap16(old(self).pc + 1) as int],
                old(memory)@.mem[wrap16(old(self).pc + 2) as int],
            ) == Some(si),
            ({
                ||| si.instruction is RLC_HL
                ||| si.instruction is RL_HL
                ||| si.instruction is RRC_HL
                ||| si.instruction is RR_HL
                ||| si.instruction is SLA_HL
                ||| si.instruction is SRA_HL
                ||| si.instruction is SRL_HL
                ||| si.instruction is SWAP_HL
            }),
        ensures
            step_spec(*old(self), old(memory)@, *old(clock), *final(self), final(memory)@, *final(clock)),
            final(self).wf(),
            final(memory).wf(),
            final(clock).wf(),
            old(clock).timestamp <= final(clock).timestamp <= old(clock).timestamp + 6,
    {
        proof {
            reveal(step_spec);
            reveal(fin);
        }
        let size = si.size;
        let cycles: u8;
        match si.instruction {
            Instruction::RLC_HL => {
                let addr = self.get_hl();
                let v = memory.read_byte(addr);
                let x = rlc_core(v);
                memory.write_byte(addr, x.0);
                self.f = mk_flags(x.0 == 0, false, false, x.1);
                self.pc = wadd16(self.pc, size);
                cycles = 4;
            },
            Instruction::RL_HL => {
                let addr = self.get_hl();
                let v = memory.read_byte(addr);
                let cf = self.get_flag(CARRY_FLAG);
                let x = rl_core(v, cf);
                memory.write_byte(addr, x.0);
                self.f = mk_flags(x.0 == 0, false, false, x.1);
                self.pc = wadd16(self.pc, size);
                cycles = 4;
            },
            Instruction::RRC_HL => {
                let addr = self.get_hl();
                let v = memory.read_byte(addr);
                let x = rrc_core(v);
                memory.write_byte(addr, x.0);
                self.f = mk_flags(x.0 == 0, false, false, x.1);
                self.pc = wadd16(self.pc, size);
                cycles = 4;
            },
            Instruction::RR_HL => {
                let addr = self.get_hl();
                let v = memory.read_byte(addr);
                let cf = self.get_flag(CARRY_FLAG);
                let x = rr_core(v, cf);
                memory.write_byte(addr, x.0);
                self.f = mk_flags(x.0 == 0, false, false, x.1);
                self.pc = wadd16(self.pc, size);
                cycles = 4;
            },
            Instruction::SLA_HL => {
                let addr = self.get_hl();
                let v = memory.read_byte(addr);
                let x = sla_core(v);
                memory.write_byte(addr, x.0);
                self.f = mk_flags(x.0 == 0, false, false, x.1);
                self.pc = wadd16(self.pc, size);
                cycles = 4;
            },
            Instruction::SRA_HL => {
                let addr = self.get_hl();
                let v = memory.read_byte(addr);
                let x = sra_core(v);
                memory.write_byte(addr, x.0);
                self.f = mk_flags(x.0 == 0, false, false, x.1);
                self.pc = wadd16(self.pc, size);
                cycles = 4;
            },
            Instruction::SRL_HL => {
                let addr = self.get_hl();
                let v = memory.read_byte(addr);
                let x = srl_core(v);
                memory.write_byte(addr, x.0);
                self.f = mk_flags(x.0 == 0, false, false, x.1);
                self.pc = wadd16(self.pc, size);
                cycles = 4;
            },
            Instruction::SWAP_HL => {
                let addr = self.get_hl();
                let v = memory.read_byte(addr);
                let res = swap_core(v);
                memory.write_byte(addr, res);
                self.f = mk_flags(res == 0, false, false, false);
                self.pc = wadd16(self.pc, size);
                cycles = 4;
            },
            _ => {
                proof {
                    assert(false);
                }
                cycles = 0;
            },
        }
        clock.tick(cycles, memory);
    }

    #[verifier::rlimit(100)]
    #[verifier::spinoff_prover]
    fn ex_bits(&mut self, memory: &mut Memory, clock: &mut Clock, si: SizedInstruction)
        requires
            old(self).wf(),
            old(memory).wf(),
            old(clock).wf(),
            old(clock).timestamp + 6 <= u128::MAX,
            spec_decode(
                old(memory)@.mem[old(self).pc as int],
                old(memory)@.mem[wrap16(old(self).pc + 1) as int],
                old(memory)@.mem[wrap16(old(self).pc + 2) as int],
            ) == Some(si),
            ({
                ||| si.instruction is BIT
                ||| si.instruction is BIT_HL
                ||| si.instruction is RES
                ||| si.instruction is RES_HL
                ||| si.instruction is SET
                ||| si.instruction is SET_HL
            }),
        ensures
            step_spec(*old(self), old(memory)@, *old(clock), *final(self), final(memory)@, *final(clock)),
            final(self).wf(),
            final(memory).wf(),
            final(clock).wf(),
            old(clock).timestamp <= final(clock).timestamp <= old(clock).timestamp + 6,
    {
        proof {
            reveal(step_spec);
            reveal(fin);
        }
        let size = si.size;
        let cycles: u8;
        match si.instruction {
            Instruction::BIT(b, r) => {
                let m = bit_mask_of(b);
                let v = self.get_register(r);
                let cf = self.get_flag(CARRY_FLAG);
                self.f = mk_flags((v & m) == 0, false, true, cf);
                self.pc = wadd16(self.pc, size);
                cycles = 2;
            },
            Instruction::BIT_HL(b) => {
                let m = bit_mask_of(b);
                let addr = self.get_hl();
                let v = memory.read_byte(addr);
                let cf = self.get_flag(CARRY_FLAG);
                self.f = mk_flags((v & m) == 0, false, true, cf);
                self.pc = wadd16(self.pc, size);
                cycles = 3;
            },
            Instruction::RES(b, r) => {
                let m = bit_mask_of(b);
                let v = self.get_register(r) & !m;
                self.set_register(r, v);
                self.pc = wadd16(self.pc, size);
                cycles = 2;
            },
            Instruction::RES_HL(b) => {
                let m = bit_mask_of(b);
                let addr = self.get_hl();
                let v = memory.read_byte(addr) & !m;
                memory.write_byte(addr, v);
                self.pc = wadd16(self.pc, size);
                cycles = 4;
            },
            Instruction::SET(b, r) => {
                let m = bit_mask_of(b);
                let v = self.get_register(r) | m;
                self.set_register(r, v);
                self.pc = wadd16(self.pc, size);
                cycles = 2;
            },
            Instruction::SET_HL(b) => {
                let m = bit_mask_of(b);
                let addr = self.get_hl();
                let v = memory.read_byte(addr) | m;
                memory.write_byte(addr, v);
                self.pc = wadd16(self.pc, size);
                cycles = 4;
            },
            _ => {
                proof {
                    assert(false);
                }
                cycles = 0;
            },
        }
        clock.tick(cycles, memory);
    }

    #[verifier::rlimit(100)]
    #[verifier::spinoff_prover]
    fn ex_jump(&mut self, memory: &mut Memory, clock: &mut Clock, si: SizedInstruction)
        requires
            old(self).wf(),
            old(memory).wf(),
            old(clock).wf(),
            old(clock).timestamp + 6 <= u128::MAX,
            spec_decode(
                old(memory)@.mem[old(self).pc as int],
                old(memory)@.mem[wrap16(old(self).pc + 1) as int],
                old(memory)@.mem[wrap16(old(self).pc + 2) as int],
            ) == Some(si),
            ({
                ||| si.instruction is JP_NN
                ||| si.instruction is JP_CC_NN
                ||| si.instruction is JP_HL
                ||| si.instruction is JR
                ||| si.instruction is JR_CC
                ||| si.instruction is CALL
                ||| si.instruction is CALL_CC
                ||| si.instruction is RET
                ||| si.instruction is RET_CC
                ||| si.instruction is RETI
                ||| si.instruction is RST
            }),
        ensures
            step_spec(*old(self), old(memory)@, *old(clock), *final(self), final(memory)@, *final(clock)),
            final(self).wf(),
            final(memory).wf(),
            final(clock).wf(),
            old(clock).timestamp <= final(clock).timestamp <= old(clock).timestamp + 6,
    {
        proof {
            reveal(step_spec);
            reveal(fin);
        }
        let size = si.size;
        let cycles: u8;
        match si.instruction {
            Instruction::JP_NN(nn) => {
                self.pc = nn;
                cycles = 4;
            },
            Instruction::JP_CC_NN(cc, nn) => {
                if self.get_condition(cc) {
                    self.pc = nn;
                    cycles = 4;
                } else {
                    self.pc = wadd16(self.pc, 3);
                    cycles = 3;
                }
            },
            Instruction::JP_HL => {
                self.pc = self.get_hl();
                cycles = 1;
            },
            Instruction::JR(e) => {
                let pc2 = wadd16(self.pc, 2);
                let eu: Word = #[verifier::truncate] (e as Word);
                self.pc = wadd16(pc2, eu);
                cycles = 3;
            },
            Instruction::JR_CC(cc, e) => {
                if self.get_condition(cc) {
                    let pc2 = wadd16(self.pc, 2);
                    let eu: Word = #[verifier::truncate] (e as Word);
                    self.pc = wadd16(pc2, eu);
                    cycles = 3;
                } else {
                    self.pc = wadd16(self.pc, 2);
                    cycles = 2;
                }
            },
            Instruction::CALL(nn) => {
                let ret = wadd16(self.pc, 3);
                self.pc = ret;
                self.push_pc_stack(memory);
                self.pc = nn;
                cycles = 6;
            },
            Instruction::CALL_CC(cc, nn) => {
                if self.get_condition(cc) {
                    let ret = wadd16(self.pc, 3);
                    self.pc = ret;
                    self.push_pc_stack(memory);
                    self.pc = nn;
                    cycles = 6;
                } else {
                    self.pc = wadd16(self.pc, 3);
                    cycles = 3;
                }
            },
            Instruction::RET => {
                self.pop_pc_stack(memory);
                cycles = 4;
            },
            Instruction::RET_CC(cc) => {
                if self.get_condition(cc) {
                    self.pop_pc_stack(memory);
                    cycles = 5;
                } else {
                    self.pc = wadd16(self.pc, 1);
                    cycles = 2;
                }
            },
            Instruction::RETI => {
                self.pop_pc_stack(memory);
                self.ime_enable_no_delay();
                cycles = 4;
            },
            Instruction::RST(v) => {
                self.pc = wadd16(self.pc, 1);
                self.push_pc_stack(memory);
                self.pc = v as Word;
                cycles = 4;
            },
            _ => {
                proof {
                    assert(false);
                }
                cycles = 0;
            },
        }
        clock.tick(cycles, memory);
    }

    #[verifier::rlimit(100)]
    #[verifier::spinoff_prover]
    fn ex_misc(&mut self, memory: &mut Memory, clock: &mut Clock, si: SizedInstruction)
        requires
            old(self).wf(),
            old(memory).wf(),
            old(clock).wf(),
            old(clock).timestamp + 6 <= u128::MAX,
            spec_decode(
                old(memory)@.mem[old(self).pc as int],
                old(memory)@.mem[wrap16(old(self).pc + 1) as int],
                old(memory)@.mem[wrap16(old(self).pc + 2) as int],
            ) == Some(si),
            ({
                ||| si.instruction is NOP
                ||| si.instruction is DAA
                ||| si.instruction is CPL
                ||| si.instruction is SCF
                ||| si.instruction is CCF
                ||| si.instruction is EI
                ||| si.instruction is DI
                ||| si.instruction is HALT
            }),
        ensures
            step_spec(*old(self), old(memory)@, *old(clock), *final(self), final(memory)@, *final(clock)),
            final(self).wf(),
            final(memory).wf(),
            final(clock).wf(),
            old(clock).timestamp <= final(clock).timestamp <= old(clock).timestamp + 6,
    {
        proof {
            reveal(step_spec);
            reveal(fin);
        }
        let size = si.size;
        let cycles: u8;
        match si.instruction {
            Instruction::NOP => {
                self.pc = wadd16(self.pc, size);
                cycles = 1;
            },
            Instruction::DAA => {
                let x = daa8(self.a, self.f);
                self.a = x.0;
                self.f = x.1;
                self.pc = wadd16(self.pc, size);
                cycles = 1;
            },
            Instruction::CPL => {
                let x = cpl8(self.a, self.f);
                self.a = x.0;
                self.f = x.1;
                self.pc = wadd16(self.pc, size);
                cycles = 1;
            },
            Instruction::SCF => {
                let z = self.get_flag(ZERO_FLAG);
                self.f = mk_flags(z, false, false, true);
                self.pc = wadd16(self.pc, size);
                cycles = 1;
            },
            Instruction::CCF => {
                let z = self.get_flag(ZERO_FLAG);
                let cf = self.get_flag(CARRY_FLAG);
                self.f = mk_flags(z, false, false, !cf);
                self.pc = wadd16(self.pc, size);
                cycles = 1;
            },
            Instruction::EI => {
                self.ime_enable();
                self.pc = wadd16(self.pc, size);
                cycles = 1;
            },
            Instruction::DI => {
                self.ime_disable();
                self.pc = wadd16(self.pc, size);
                cycles = 1;
            },
            Instruction::HALT => {
                self.halt = true;
                self.pc = wadd16(self.pc, 1);
                cycles = 1;
            },
            _ => {
                proof {
                    assert(false);
                }
                cycles = 0;
            },
        }
        clock.tick(cycles, memory);
    }

    /// Decode the instruction at the program counter, execute its effect on
    /// registers, flags and memory, and debit the clock its machine cycles;
    /// `step_spec` pins the complete outcome.
    pub fn execute(&mut self, memory: &mut Memory, clock: &mut Clock)
        requires
            old(self).wf(),
            old(memory).wf(),
            old(clock).wf(),
            old(clock).timestamp + 6 <= u128::MAX,
            spec_decode(
                old(memory)@.mem[old(self).pc as int],
                old(memory)@.mem[wrap16(old(self).pc + 1) as int],
                old(memory)@.mem[wrap16(old(self).pc + 2) as int],
            ).is_some(),
        ensures
            step_spec(*old(self), old(memory)@, *old(clock), *final(self), final(memory)@, *final(clock)),
            final(self).wf(),
            final(memory).wf(),
            final(clock).wf(),
            old(clock).timestamp <= final(clock).timestamp <= old(clock).timestamp + 6,
    {
        let si = SizedInstruction::decode(memory, self.pc).unwrap();
        match si.instruction {
            Instruction::ADD_R(_) | Instruction::SUB_R(_) | Instruction::AND_R(_) | Instruction::OR_R(_) | Instruction::XOR_R(_) | Instruction::CP_R(_) | Instruction::ADC_R(_) | Instruction::SBC_R(_) => self.ex_alu_r(memory, clock, si),
            Instruction::ADD_N(_) | Instruction::SUB_N(_) | Instruction::AND_N(_) | Instruction::OR_N(_) | Instruction::XOR_N(_) | Instruction::CP_N(_) | Instruction::ADC_N(_) | Instruction::SBC_N(_) => self.ex_alu_n(memory, clock, si),
            Instruction::ADD_HL | Instruction::SUB_HL | Instruction::AND_HL | Instruction::OR_HL | Instruction::XOR_HL | Instruction::CP_HL | Instruction::ADC_HL | Instruction::SBC_HL => self.ex_alu_hl(memory, clock, si),
            Instruction::LD_R_R(_, _) | Instruction::LD_R_N(_, _) | Instruction::LD_R_HL(_) | Instruction::LD_HL_R(_) | Instruction::LD_HL_N(_) | Instruction::LD_A_HL_I | Instruction::LD_A_HL_D | Instruction::LD_HL_A_I | Instruction::LD_HL_A_D => self.ex_ld8_reg(memory, clock, si),
            Instruction::LD_A_BC | Instruction::LD_A_DE | Instruction::LD_BC_A | Instruction::LD_DE_A | Instruction::LD_A_NN(_) | Instruction::LD_NN_A(_) | Instruction::LDH_A_C | Instruction::LDH_C_A | Instruction::LDH_A_N(_) | Instruction::LDH_N_A(_) => self.ex_ld8_abs(memory, clock, si),
            Instruction::LD_RR_NN(_, _) | Instruction::LD_NN_SP(_) | Instruction::LD_SP_HL | Instruction::LD_HL_SP(_) | Instruction::PUSH(_) | Instruction::POP(_) | Instruction::ADD_SP_E(_) => self.ex_ld16(memory, clock, si),
            Instruction::INC_R(_) | Instruction::INC_HL | Instruction::DEC_R(_) | Instruction::DEC_HL | Instruction::INC_RR(_) | Instruction::DEC_RR(_) | Instruction::ADD_HL_RR(_) => self.ex_incdec(memory, clock, si),
            Instruction::RLC(_) | Instruction::RL(_) | Instruction::RRC(_) | Instruction::RR(_) => self.ex_rot_r(memory, clock, si),
            Instruction::SLA(_) | Instruction::SRA(_) | Instruction::SRL(_) | Instruction::SWAP(_) => self.ex_shift_r(memory, clock, si),
            Instruction::RLA | Instruction::RLCA | Instruction::RRA | Instruction::RRCA => self.ex_rot_a(memory, clock, si),
            Instruction::RLC_HL | Instruction::RL_HL | Instruction::RRC_HL | Instruction::RR_HL | Instruction::SLA_HL | Instruction::SRA_HL | Instruction::SRL_HL | Instruction::SWAP_HL => self.ex_rot_hl(memory, clock, si),
            Instruction::BIT(_, _) | Instruction::BIT_HL(_) | Instruction::RES(_, _) | Instruction::RES_HL(_) | Instruction::SET(_, _) | Instruction::SET_HL(_) => self.ex_bits(memory, clock, si),
            Instruction::JP_NN(_) | Instruction::JP_CC_NN(_, _) | Instruction::JP_HL | Instruction::JR(_) | Instruction::JR_CC(_, _) | Instruction::CALL(_) | Instruction::CALL_CC(_, _) | Instruction::RET | Instruction::RET_CC(_) | Instruction::RETI | Instruction::RST(_) => self.ex_jump(memory, clock, si),
            Instruction::NOP | Instruction::DAA | Instruction::CPL | Instruction::SCF | Instruction::CCF | Instruction::EI | Instruction::DI | Instruction::HALT => self.ex_misc(memory, clock, si),
            Instruction::STOP => {
                proof {
                    lemma_decode_no_stop(
                        old(memory)@.mem[old(self).pc as int],
                        old(memory)@.mem[wrap16(old(self).pc + 1) as int],
                        old(memory)@.mem[wrap16(old(self).pc + 2) as int],
                    );
                }
            },
        }
    }


    /// Exact relation for interrupt service between instructions: a pending
    /// enabled interrupt wakes a halted CPU; with the master flag on, the
    /// highest-priority pending bit is cleared, the program counter is
    /// pushed and loaded with that source's vector, and the dispatch debits
    /// five machine cycles.
    #[verifier::opaque]
    pub open spec fn intr_spec(c0: CPU, m0: MemV, k0: Clock, c1: CPU, m1: MemV, k1: Clock) -> bool {
        let ie = m0.mem[0xFFFF];
        let iff = m0.mem[0xFF0F];
        let pending = ie & iff;
        let halted = if pending != 0 || c0.ime.1 {
            false
        } else {
            c0.halt
        };
        if !c0.ime.1 || (pending & 0x1F) == 0 {
            c1 == (CPU { halt: halted, ..c0 }) && m1 == m0 && k1 == k0
        } else {
            let bit: u8 = if pending & 1 != 0 {
                1
            } else if pending & 2 != 0 {
                2
            } else if pending & 4 != 0 {
                4
            } else if pending & 8 != 0 {
                8
            } else {
                16
            };
            let vector: Word = if bit == 1 {
                0x40
            } else if bit == 2 {
                0x48
            } else if bit == 4 {
                0x50
            } else if bit == 8 {
                0x58
            } else {
                0x60
            };
            let mw = write8_spec(push16(m0, c0.sp, c0.pc), 0xFF0F, iff & !bit);
            &&& c1 == (CPU {
                ime: (None::<usize>, false),
                sp: wrap16(c0.sp - 2),
                pc: vector,
                halt: false,
                ..c0
            })
            &&& m1 == tick_mem_spec(k0, mw, 5)
            &&& k1 == tick_clock_spec(k0, mw, 5)
        }
    }

    /// Service pending interrupts between instructions, as `intr_spec`
    /// states: wake from HALT on any pending interrupt, and with IME on
    /// dispatch the highest-priority one through its vector for a
    /// five-cycle debit.
    pub fn handle_interrupts(&mut self, memory: &mut Memory, clock: &mut Clock)
        requires
            old(memory).wf(),
            old(clock).wf(),
            old(clock).timestamp + 5 <= u128::MAX,
        ensures
            Self::intr_spec(
                *old(self),
                old(memory)@,
                *old(clock),
                *final(self),
                final(memory)@,
                *final(clock),
            ),
            final(memory).wf(),
            final(clock).wf(),
            old(clock).timestamp <= final(clock).timestamp <= old(clock).timestamp + 5,
            final(self).ime.0 == old(self).ime.0 || final(self).ime.0 is None,
    {
        proof {
            reveal(CPU::intr_spec);
        }
        let interrupt_enable = memory.read_byte(INTERRUPT_ENABLE_ADDRESS);
        let interrupt_flag = memory.read_byte(INTERRUPT_FLAG_ADDRESS);
        let pending = interrupt_enable & interrupt_flag;

        if pending != 0 || self.get_ime() {
            self.halt = false;
        }
        if !self.get_ime() {
            return ;
        }
        if pending & 0x1F != 0 {
            self.ime_disable();
            self.push_pc_stack(memory);
            let bit: Byte;
            let vector: Word;
            if pending & VBLANK_FLAG != 0 {
                bit = VBLANK_FLAG;
                vector = 0x40;
            } else if pending & LCD_FLAG != 0 {
                bit = LCD_FLAG;
                vector = 0x48;
            } else if pending & TIMER_FLAG != 0 {
                bit = TIMER_FLAG;
                vector = 0x50;
            } else if pending & SERIAL_FLAG != 0 {
                bit = SERIAL_FLAG;
                vector = 0x58;
            } else {
                bit = JOYPAD_FLAG;
                vector = 0x60;
            }
            self.pc = vector;
            memory.write_byte(INTERRUPT_FLAG_ADDRESS, interrupt_flag & !bit);
            clock.tick(5, memory);
        }
    }
}

} // verus!
