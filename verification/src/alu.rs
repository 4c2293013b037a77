//! Arithmetic/logic core of the CPU: the flag byte encoding, every 8-bit and
//! 16-bit operation of the instruction set as a pure function with an exact
//! contract, and proofs of the flag laws those operations obey.

use vstd::prelude::*;

verus! {

// The four flag bits live in the high nibble of F: Zero (bit 7),
// Subtract (bit 6), Half-carry (bit 5), Carry (bit 4).

pub open spec fn flag_z(f: u8) -> bool {
    f & 0x80 != 0
}

pub open spec fn flag_n(f: u8) -> bool {
    f & 0x40 != 0
}

pub open spec fn flag_h(f: u8) -> bool {
    f & 0x20 != 0
}

pub open spec fn flag_c(f: u8) -> bool {
    f & 0x10 != 0
}

/// The flag byte holding exactly the given four flags; low nibble zero.
pub open spec fn mk_f(z: bool, n: bool, h: bool, c: bool) -> u8 {
    ((if z {
        0x80int
    } else {
        0int
    }) + (if n {
        0x40int
    } else {
        0int
    }) + (if h {
        0x20int
    } else {
        0int
    }) + (if c {
        0x10int
    } else {
        0int
    })) as u8
}

proof fn lemma_bits_u8(zb: u8, nb: u8, hb: u8, cb: u8)
    by (bit_vector)
    requires
        zb <= 1,
        nb <= 1,
        hb <= 1,
        cb <= 1,
    ensures
        ((zb * 128 + nb * 64 + hb * 32 + cb * 16) as u8 & 0x80 != 0) == (zb == 1),
        ((zb * 128 + nb * 64 + hb * 32 + cb * 16) as u8 & 0x40 != 0) == (nb == 1),
        ((zb * 128 + nb * 64 + hb * 32 + cb * 16) as u8 & 0x20 != 0) == (hb == 1),
        ((zb * 128 + nb * 64 + hb * 32 + cb * 16) as u8 & 0x10 != 0) == (cb == 1),
        (zb * 128 + nb * 64 + hb * 32 + cb * 16) as u8 % 16 == 0,
{
}

/// The four flag accessors read back exactly what `mk_f` packed.
pub proof fn lemma_mk_f(z: bool, n: bool, h: bool, c: bool)
    ensures
        flag_z(mk_f(z, n, h, c)) == z,
        flag_n(mk_f(z, n, h, c)) == n,
        flag_h(mk_f(z, n, h, c)) == h,
        flag_c(mk_f(z, n, h, c)) == c,
        mk_f(z, n, h, c) % 16 == 0,
{
    let zb: u8 = if z {
        1
    } else {
        0
    };
    let nb: u8 = if n {
        1
    } else {
        0
    };
    let hb: u8 = if h {
        1
    } else {
        0
    };
    let cb: u8 = if c {
        1
    } else {
        0
    };
    lemma_bits_u8(zb, nb, hb, cb);
    assert(mk_f(z, n, h, c) == (zb * 128 + nb * 64 + hb * 32 + cb * 16) as u8);
}

pub open spec fn wrap8(x: int) -> u8 {
    (x % 256) as u8
}

pub open spec fn wrap16(x: int) -> u16 {
    (x % 65536) as u16
}

/// Result and flags of `ADD A,v`: sum modulo 256; Z iff the result is 0, N
/// clear, H iff the low nibbles carry, C iff the full bytes carry.
pub open spec fn s_add(a: u8, b: u8) -> (u8, u8) {
    (wrap8(a + b), mk_f(wrap8(a + b) == 0, false, a % 16 + b % 16 > 15, a + b > 255))
}

/// Result and flags of `ADC A,v` with incoming carry `c`.
pub open spec fn s_adc(a: u8, b: u8, c: bool) -> (u8, u8) {
    let ci: int = if c {
        1
    } else {
        0
    };
    (
        wrap8(a + b + ci),
        mk_f(wrap8(a + b + ci) == 0, false, a % 16 + b % 16 + ci > 15, a + b + ci > 255),
    )
}

/// Result and flags of `SUB A,v`: difference modulo 256; Z iff equal, N set,
/// H iff the low nibble borrows, C iff the full byte borrows.
pub open spec fn s_sub(a: u8, b: u8) -> (u8, u8) {
    (wrap8(a - b), mk_f(a == b, true, a % 16 < b % 16, a < b))
}

/// Result and flags of `SBC A,v` with incoming carry `c`.
pub open spec fn s_sbc(a: u8, b: u8, c: bool) -> (u8, u8) {
    let ci: int = if c {
        1
    } else {
        0
    };
    (wrap8(a - b - ci), mk_f(wrap8(a - b - ci) == 0, true, a % 16 < b % 16 + ci, a < b + ci))
}

/// Result and flags of `AND A,v`: H set, N and C clear.
pub open spec fn s_and(a: u8, b: u8) -> (u8, u8) {
    ((a & b), mk_f((a & b) == 0, false, true, false))
}

/// Result and flags of `OR A,v`: N, H, C clear.
pub open spec fn s_or(a: u8, b: u8) -> (u8, u8) {
    ((a | b), mk_f((a | b) == 0, false, false, false))
}

/// Result and flags of `XOR A,v`: N, H, C clear.
pub open spec fn s_xor(a: u8, b: u8) -> (u8, u8) {
    ((a ^ b), mk_f((a ^ b) == 0, false, false, false))
}

/// Result and flags of `INC v`: C is left alone.
pub open spec fn s_inc(v: u8, f: u8) -> (u8, u8) {
    (wrap8(v + 1), mk_f(v == 255, false, v % 16 == 15, flag_c(f)))
}

/// Result and flags of `DEC v`: C is left alone.
pub open spec fn s_dec(v: u8, f: u8) -> (u8, u8) {
    (wrap8(v - 1), mk_f(v == 1, true, v % 16 == 0, flag_c(f)))
}

/// Result and flags of `ADD HL,rr`: Z is left alone, H is the carry out of
/// bit 11, C the carry out of bit 15.
pub open spec fn s_add16(hl: u16, rr: u16, f: u8) -> (u16, u8) {
    (wrap16(hl + rr), mk_f(flag_z(f), false, hl % 4096 + rr % 4096 > 4095, hl + rr > 65535))
}

/// Result and flags of `ADD SP,e` and `LD HL,SP+e`: Z and N clear; H and C
/// come from the unsigned low nibble and low byte of SP and the byte-cast
/// offset.
pub open spec fn s_addsp(sp: u16, e: i8) -> (u16, u8) {
    let eu = e as u16;
    (wrap16(sp + eu), mk_f(false, false, sp % 16 + eu % 16 > 15, sp % 256 + eu % 256 > 255))
}

/// Result and flags of `DAA`: BCD adjustment of A after an ADD or SUB.
pub open spec fn s_daa(a: u8, f: u8) -> (u8, u8) {
    if !flag_n(f) {
        let c1 = flag_c(f) || a > 0x99;
        let a1 = if c1 {
            wrap8(a + 0x60)
        } else {
            a
        };
        let h1 = flag_h(f) || a % 16 > 9;
        let a2 = if h1 {
            wrap8(a1 + 0x06)
        } else {
            a1
        };
        (a2, mk_f(a2 == 0, false, false, c1))
    } else {
        let a1 = if flag_c(f) {
            wrap8(a - 0x60)
        } else {
            a
        };
        let a2 = if flag_h(f) {
            wrap8(a1 - 0x06)
        } else {
            a1
        };
        (a2, mk_f(a2 == 0, true, false, flag_c(f)))
    }
}

/// Result and flags of `CPL`: complement of A; N and H set, Z and C kept.
pub open spec fn s_cpl(a: u8, f: u8) -> (u8, u8) {
    ((255 - a) as u8, mk_f(flag_z(f), true, true, flag_c(f)))
}

/// Rotate left circular: bit 7 moves out into the carry and back into bit 0.
pub open spec fn s_rlc(v: u8) -> (u8, bool) {
    (wrap8(v * 2 + v / 128), v / 128 == 1)
}

/// Rotate left through carry: carry out is the old bit 7.
pub open spec fn s_rl(v: u8, c: bool) -> (u8, bool) {
    (
        wrap8(
            v * 2 + if c {
                1int
            } else {
                0int
            },
        ),
        v / 128 == 1,
    )
}

/// Rotate right circular: bit 0 moves out into the carry and back into bit 7.
pub open spec fn s_rrc(v: u8) -> (u8, bool) {
    ((v / 2 + (v % 2) * 128) as u8, v % 2 == 1)
}

/// Rotate right through carry: carry out is the old bit 0.
pub open spec fn s_rr(v: u8, c: bool) -> (u8, bool) {
    (
        (v / 2 + if c {
            128int
        } else {
            0int
        }) as u8,
        v % 2 == 1,
    )
}

/// Shift left arithmetic: bit 0 becomes 0, carry out is the old bit 7.
pub open spec fn s_sla(v: u8) -> (u8, bool) {
    (wrap8(v * 2), v / 128 == 1)
}

/// Shift right arithmetic: bit 7 is kept, carry out is the old bit 0.
pub open spec fn s_sra(v: u8) -> (u8, bool) {
    ((v / 2 + (v / 128) * 128) as u8, v % 2 == 1)
}

/// Shift right logical: bit 7 becomes 0, carry out is the old bit 0.
pub open spec fn s_srl(v: u8) -> (u8, bool) {
    (v / 2, v % 2 == 1)
}

/// Swap the two nibbles.
pub open spec fn s_swap(v: u8) -> u8 {
    (v / 16 + (v % 16) * 16) as u8
}

/// The flag byte every rotate, shift and swap instruction produces: Z from
/// the result, N and H clear, C the bit shifted out (false for SWAP).
pub open spec fn rot_flags(r: u8, c: bool) -> u8 {
    mk_f(r == 0, false, false, c)
}

/// The single-bit mask for bit index `b` (0 to 7).
pub open spec fn s_bit_mask(b: u8) -> u8 {
    if b == 0 {
        0x01
    } else if b == 1 {
        0x02
    } else if b == 2 {
        0x04
    } else if b == 3 {
        0x08
    } else if b == 4 {
        0x10
    } else if b == 5 {
        0x20
    } else if b == 6 {
        0x40
    } else {
        0x80
    }
}

/// Flags of `BIT b,v`: Z iff bit `b` of `v` is clear, N clear, H set, C kept.
pub open spec fn s_bit_test(b: u8, v: u8, f: u8) -> u8 {
    mk_f(v & s_bit_mask(b) == 0, false, true, flag_c(f))
}

// ---------- executable counterparts ----------

/// Pack four flags into a flag byte.
pub fn mk_flags(z: bool, n: bool, h: bool, c: bool) -> (r: u8)
    ensures
        r == mk_f(z, n, h, c),
{
    (if z {
        0x80u8
    } else {
        0u8
    }) + (if n {
        0x40u8
    } else {
        0u8
    }) + (if h {
        0x20u8
    } else {
        0u8
    }) + (if c {
        0x10u8
    } else {
        0u8
    })
}

pub fn add8(a: u8, b: u8) -> (r: (u8, u8))
    ensures
        r == s_add(a, b),
{
    let s: u16 = a as u16 + b as u16;
    let res: u8 = (s % 256) as u8;
    (res, mk_flags(res == 0, false, a % 16 + b % 16 > 15, s > 255))
}

pub fn adc8(a: u8, b: u8, c: bool) -> (r: (u8, u8))
    ensures
        r == s_adc(a, b, c),
{
    let ci: u16 = if c {
        1
    } else {
        0
    };
    let s: u16 = a as u16 + b as u16 + ci;
    let res: u8 = (s % 256) as u8;
    (res, mk_flags(res == 0, false, a as u16 % 16 + b as u16 % 16 + ci > 15, s > 255))
}

pub fn sub8(a: u8, b: u8) -> (r: (u8, u8))
    ensures
        r == s_sub(a, b),
{
    let s: u16 = (a as u16 + 256 - b as u16) % 256;
    let res: u8 = s as u8;
    (res, mk_flags(a == b, true, a % 16 < b % 16, a < b))
}

pub fn sbc8(a: u8, b: u8, c: bool) -> (r: (u8, u8))
    ensures
        r == s_sbc(a, b, c),
{
    let ci: u16 = if c {
        1
    } else {
        0
    };
    let s: u16 = (a as u16 + 512 - b as u16 - ci) % 256;
    let res: u8 = s as u8;
    let lo_a: u16 = (a % 16) as u16;
    let lo_b: u16 = (b % 16) as u16;
    (res, mk_flags(res == 0, true, lo_a < lo_b + ci, (a as u16) < b as u16 + ci))
}

pub fn and8(a: u8, b: u8) -> (r: (u8, u8))
    ensures
        r == s_and(a, b),
{
    let res = a & b;
    (res, mk_flags(res == 0, false, true, false))
}

pub fn or8(a: u8, b: u8) -> (r: (u8, u8))
    ensures
        r == s_or(a, b),
{
    let res = a | b;
    (res, mk_flags(res == 0, false, false, false))
}

pub fn xor8(a: u8, b: u8) -> (r: (u8, u8))
    ensures
        r == s_xor(a, b),
{
    let res = a ^ b;
    (res, mk_flags(res == 0, false, false, false))
}

pub fn inc8(v: u8, f: u8) -> (r: (u8, u8))
    ensures
        r == s_inc(v, f),
{
    let res: u8 = if v == 255 {
        0
    } else {
        v + 1
    };
    (res, mk_flags(v == 255, false, v % 16 == 15, (f & 0x10) != 0))
}

pub fn dec8(v: u8, f: u8) -> (r: (u8, u8))
    ensures
        r == s_dec(v, f),
{
    let res: u8 = if v == 0 {
        255
    } else {
        v - 1
    };
    (res, mk_flags(v == 1, true, v % 16 == 0, (f & 0x10) != 0))
}

pub fn add16hl(hl: u16, rr: u16, f: u8) -> (r: (u16, u8))
    ensures
        r == s_add16(hl, rr, f),
{
    let s: u32 = hl as u32 + rr as u32;
    let res: u16 = (s % 65536) as u16;
    (res, mk_flags((f & 0x80) != 0, false, hl % 4096 + rr % 4096 > 4095, s > 65535))
}

pub fn addsp16(sp: u16, e: i8) -> (r: (u16, u8))
    ensures
        r == s_addsp(sp, e),
{
    let eu: u16 = e as u16;
    let s: u32 = sp as u32 + eu as u32;
    let res: u16 = (s % 65536) as u16;
    (res, mk_flags(false, false, sp % 16 + eu % 16 > 15, sp % 256 + eu % 256 > 255))
}

pub fn daa8(a: u8, f: u8) -> (r: (u8, u8))
    ensures
        r == s_daa(a, f),
{
    if (f & 0x40) == 0 {
        let c1 = (f & 0x10) != 0 || a > 0x99;
        let a1: u8 = if c1 {
            ((a as u16 + 0x60) % 256) as u8
        } else {
            a
        };
        let h1 = (f & 0x20) != 0 || a % 16 > 9;
        let a2: u8 = if h1 {
            ((a1 as u16 + 0x06) % 256) as u8
        } else {
            a1
        };
        (a2, mk_flags(a2 == 0, false, false, c1))
    } else {
        let a1: u8 = if (f & 0x10) != 0 {
            ((a as u16 + 256 - 0x60) % 256) as u8
        } else {
            a
        };
        let a2: u8 = if (f & 0x20) != 0 {
            ((a1 as u16 + 256 - 0x06) % 256) as u8
        } else {
            a1
        };
        (a2, mk_flags(a2 == 0, true, false, (f & 0x10) != 0))
    }
}

pub fn cpl8(a: u8, f: u8) -> (r: (u8, u8))
    ensures
        r == s_cpl(a, f),
{
    (255 - a, mk_flags((f & 0x80) != 0, true, true, (f & 0x10) != 0))
}

pub fn rlc_core(v: u8) -> (r: (u8, bool))
    ensures
        r == s_rlc(v),
{
    (((v as u16 * 2 + v as u16 / 128) % 256) as u8, v / 128 == 1)
}

pub fn rl_core(v: u8, c: bool) -> (r: (u8, bool))
    ensures
        r == s_rl(v, c),
{
    let ci: u16 = if c {
        1
    } else {
        0
    };
    (((v as u16 * 2 + ci) % 256) as u8, v / 128 == 1)
}

pub fn rrc_core(v: u8) -> (r: (u8, bool))
    ensures
        r == s_rrc(v),
{
    (v / 2 + (v % 2) * 128, v % 2 == 1)
}

pub fn rr_core(v: u8, c: bool) -> (r: (u8, bool))
    ensures
        r == s_rr(v, c),
{
    let ci: u8 = if c {
        128
    } else {
        0
    };
    (v / 2 + ci, v % 2 == 1)
}

pub fn sla_core(v: u8) -> (r: (u8, bool))
    ensures
        r == s_sla(v),
{
    (((v as u16 * 2) % 256) as u8, v / 128 == 1)
}

pub fn sra_core(v: u8) -> (r: (u8, bool))
    ensures
        r == s_sra(v),
{
    (v / 2 + (v / 128) * 128, v % 2 == 1)
}

pub fn srl_core(v: u8) -> (r: (u8, bool))
    ensures
        r == s_srl(v),
{
    (v / 2, v % 2 == 1)
}

pub fn swap_core(v: u8) -> (r: u8)
    ensures
        r == s_swap(v),
{
    v / 16 + (v % 16) * 16
}

pub fn bit_mask_of(b: u8) -> (r: u8)
    ensures
        r == s_bit_mask(b),
{
    if b == 0 {
        0x01
    } else if b == 1 {
        0x02
    } else if b == 2 {
        0x04
    } else if b == 3 {
        0x08
    } else if b == 4 {
        0x10
    } else if b == 5 {
        0x20
    } else if b == 6 {
        0x40
    } else {
        0x80
    }
}

// ---------- laws ----------

/// After an 8-bit ADD the flags satisfy: Z iff the result is 0; N cleared;
/// H iff the low nibbles of the operands carry; C iff the sum overflows
/// eight bits.
pub proof fn law_add_flags(a: u8, b: u8)
    ensures
        flag_z(s_add(a, b).1) == (s_add(a, b).0 == 0),
        !flag_n(s_add(a, b).1),
        flag_h(s_add(a, b).1) == (a % 16 + b % 16 > 15),
        flag_c(s_add(a, b).1) == (a + b > 255),
{
    lemma_mk_f(wrap8(a + b) == 0, false, a % 16 + b % 16 > 15, a + b > 255);
}

/// After an 8-bit SUB the flags satisfy: Z iff the result is 0; N set;
/// H iff the low nibble of A is below the low nibble of the operand; C iff
/// the subtraction underflows.
pub proof fn law_sub_flags(a: u8, b: u8)
    ensures
        flag_z(s_sub(a, b).1) == (s_sub(a, b).0 == 0),
        flag_n(s_sub(a, b).1),
        flag_h(s_sub(a, b).1) == (a % 16 < b % 16),
        flag_c(s_sub(a, b).1) == (a < b),
{
    lemma_mk_f(a == b, true, a % 16 < b % 16, a < b);
    assert(wrap8(a - b) == 0 <==> a == b);
}

/// CPL is involutive on A, and sets N and H whatever the prior flags were.
pub proof fn law_cpl(a: u8, f: u8)
    ensures
        s_cpl(s_cpl(a, f).0, s_cpl(a, f).1).0 == a,
        flag_n(s_cpl(a, f).1),
        flag_h(s_cpl(a, f).1),
{
    lemma_mk_f(flag_z(f), true, true, flag_c(f));
}

/// SWAP is involutive, Z reflects the result, and N, H, C are cleared.
pub proof fn law_swap(v: u8)
    ensures
        s_swap(s_swap(v)) == v,
        flag_z(rot_flags(s_swap(v), false)) == (s_swap(v) == 0),
        !flag_n(rot_flags(s_swap(v), false)),
        !flag_h(rot_flags(s_swap(v), false)),
        !flag_c(rot_flags(s_swap(v), false)),
{
    lemma_mk_f(s_swap(v) == 0, false, false, false);
    assert(s_swap(s_swap(v)) == v) by (nonlinear_arith);
}

/// For every rotate and shift, the carry flag equals the bit shifted out
/// (bit 7 for the left forms, bit 0 for the right forms), Z reflects the
/// result, and N and H are cleared.
pub proof fn law_shift_carry(v: u8, c: bool)
    ensures
        s_rlc(v).1 == (v / 128 == 1),
        s_rl(v, c).1 == (v / 128 == 1),
        s_sla(v).1 == (v / 128 == 1),
        s_rrc(v).1 == (v % 2 == 1),
        s_rr(v, c).1 == (v % 2 == 1),
        s_sra(v).1 == (v % 2 == 1),
        s_srl(v).1 == (v % 2 == 1),
        forall|r: u8, co: bool|
            flag_z(#[trigger] rot_flags(r, co)) == (r == 0) && !flag_n(rot_flags(r, co)) && !flag_h(
                rot_flags(r, co),
            ) && flag_c(rot_flags(r, co)) == co,
{
    assert forall|r: u8, co: bool|
        flag_z(#[trigger] rot_flags(r, co)) == (r == 0) && !flag_n(rot_flags(r, co)) && !flag_h(
            rot_flags(r, co),
        ) && flag_c(rot_flags(r, co)) == co by {
        lemma_mk_f(r == 0, false, false, co);
    }
}

/// For `BIT b,v`: N is cleared, H is set, Z is the complement of bit `b` of
/// `v`, and C is unchanged.
pub proof fn law_bit_test(b: u8, v: u8, f: u8)
    ensures
        !flag_n(s_bit_test(b, v, f)),
        flag_h(s_bit_test(b, v, f)),
        flag_z(s_bit_test(b, v, f)) == (v & s_bit_mask(b) == 0),
        flag_c(s_bit_test(b, v, f)) == flag_c(f),
{
    lemma_mk_f(v & s_bit_mask(b) == 0, false, true, flag_c(f));
}

/// A flag state after DAA on which a second DAA is the identity: carry
/// clear, and A a value the adjustment left within BCD range.
pub open spec fn daa_settled(a: u8, f: u8) -> bool {
    !flag_c(f) && a <= 0x99 && a % 16 <= 9
}

/// DAA is idempotent after an ADD whose BCD adjustment settles: when the
/// first DAA produces a settled state, a second DAA changes nothing. (After
/// an ADD whose decimal value carries out of two digits the carry flag stays
/// set and a second DAA adjusts again, so the restriction is needed.)
pub proof fn law_daa_idempotent(a: u8, f: u8)
    requires
        !flag_n(f),
        daa_settled(s_daa(a, f).0, s_daa(a, f).1),
    ensures
        s_daa(s_daa(a, f).0, s_daa(a, f).1) == s_daa(a, f),
{
    let (a1, f1) = s_daa(a, f);
    lemma_mk_f(a1 == 0, false, false, flag_c(f) || a > 0x99);
    lemma_mk_f(a1 == 0, false, false, false);
}

} // verus!
