//! The 6502 interpreter: register file, flag logic, the stack, the opcode
//! decoder and the two-phase instruction engine. `load_instruction` decodes
//! the byte at the program counter and prices it in cycles;
//! `execute_instruction` applies the instruction's effects, once, on the
//! final cycle of its window.
//!
//! Every operation's contract is an equation over the `*_model` spec
//! functions, which together form a functional model of the processor step.

#![allow(non_snake_case)]

use vstd::prelude::*;
use vstd::wrapping::{u16_specs, u8_specs};

use crate::bus::{
    cross_abs_model, cross_idy_model, cross_rel_model, dec_model, inc_model, rd_bus, rd_double,
    rd_single, rd_val, rel_i16, wr_bus, Bus, BusM,
};
use crate::errors::EmuError;
use crate::ppu::{regs_write_model, Ppu, PpuM};
use crate::util::{
    combine16, combine_low_high, get_u8_bit, lemma_bit_basics, set_u8_bit, spec_set_u8_bit,
};

verus! {

#[derive(Clone, Copy, Debug, PartialEq, Eq, Structural)]
pub enum Instructions {
    ADC, AND, ASL, BCC, BCS, BEQ, BIT, BMI, BNE, BPL, BRK, BVC, BVS, CLC,
    CLD, CLI, CLV, CMP, CPX, CPY, DEC, DEX, DEY, EOR, INC, INX, INY, JMP,
    JSR, LDA, LDX, LDY, LSR, NOP, ORA, PHA, PHP, PLA, PLP, ROL, ROR, RTI,
    RTS, SBC, SEC, SED, SEI, STA, STX, STY, TAX, TAY, TSX, TXA, TXS, TYA,
}

#[derive(Clone, Copy, Debug, PartialEq, Eq, Structural)]
pub enum Addressing {
    IMP, ACC, IMM, ZPG, ZPX, ZPY, REL, ABS, ABX, ABY, IND, IDX, IDY,
}

pub struct Cpu {
    // registers
    pub a: u8,
    pub x: u8,
    pub y: u8,
    pub pc: u16,
    // flags
    pub c: bool,
    pub z: bool,
    pub i: bool,
    pub d: bool,
    pub b: bool,
    pub o: bool,
    pub n: bool,
    // misc
    pub instr: Instructions,
    pub addr: Addressing,
    pub stack_pointer: u8,
}

pub open spec fn bool_u8(v: bool) -> u8 {
    if v {
        1
    } else {
        0
    }
}

/// The processor status byte: bit 5 always reads as 1 and the break bit is
/// written as 0 (the push paths that owe a 1 there set it themselves).
pub open spec fn flags_byte(c: Cpu) -> u8 {
    bool_u8(c.n) << 7 | bool_u8(c.o) << 6 | 1u8 << 5 | 0u8 << 4 | bool_u8(c.d) << 3 | bool_u8(c.i)
        << 2 | bool_u8(c.z) << 1 | bool_u8(c.c)
}

/// The flag file decoded from a pulled status byte; the break flag is
/// forced clear and the unused bit is not stored.
pub open spec fn byte_to_flags(c: Cpu, f: u8) -> Cpu {
    Cpu {
        n: f >> 7 & 0x01 == 1,
        o: f >> 6 & 0x01 == 1,
        b: false,
        d: f >> 3 & 0x01 == 1,
        i: f >> 2 & 0x01 == 1,
        z: f >> 1 & 0x01 == 1,
        c: f >> 0 & 0x01 == 1,
        ..c
    }
}

/// The absolute address of the stack slot the stack pointer names.
pub open spec fn sp_addr(sp: u8) -> u16 {
    1u16 << 8 | sp as u16
}

/// One byte pushed: stored at the slot, then the pointer post-decrements.
pub open spec fn push1(c: Cpu, b: BusM, val: u8) -> (Cpu, BusM) {
    (
        Cpu { stack_pointer: u8_specs::wrapping_sub(c.stack_pointer, 1), ..c },
        wr_bus(b, sp_addr(c.stack_pointer), val),
    )
}

/// One byte pulled: the pointer pre-increments, then the slot is read.
pub open spec fn pull1(c: Cpu, b: BusM) -> (Cpu, u8, BusM) {
    let sp = u8_specs::wrapping_add(c.stack_pointer, 1);
    (Cpu { stack_pointer: sp, ..c }, rd_val(b, sp_addr(sp)), rd_bus(b, sp_addr(sp)))
}

/// The program counter pushed, high byte first.
pub open spec fn push_pc(c: Cpu, b: BusM) -> (Cpu, BusM) {
    let s1 = push1(c, b, (c.pc >> 8) as u8);
    push1(s1.0, s1.1, (c.pc & 0xFF) as u8)
}

/// The program counter pulled, low byte first.
pub open spec fn pull_pc(c: Cpu, b: BusM) -> (Cpu, BusM) {
    let s1 = pull1(c, b);
    let s2 = pull1(s1.0, s1.2);
    (Cpu { pc: combine16(s1.1, s2.1), ..s2.0 }, s2.2)
}

/// The status byte pushed with the break bit set, as PHP and BRK push it.
pub open spec fn php_model(c: Cpu, b: BusM) -> (Cpu, BusM) {
    push1(c, b, spec_set_u8_bit(flags_byte(c), 4, 1))
}

/// A status byte pulled into the flag file.
pub open spec fn plp_model(c: Cpu, b: BusM) -> (Cpu, BusM) {
    let s = pull1(c, b);
    (byte_to_flags(s.0, s.1), s.2)
}

/// The program counter loaded through a little-endian vector at `addr`.
pub open spec fn jmp_vec_model(c: Cpu, b: BusM, addr: u16) -> (Cpu, BusM) {
    let low = rd_val(b, addr);
    let b1 = rd_bus(b, addr);
    let high = rd_val(b1, (addr + 1) as u16);
    let b2 = rd_bus(b1, (addr + 1) as u16);
    (Cpu { pc: combine16(low, high), ..c }, b2)
}

/// A reset: the program counter comes from the vector at 0xFFFC, the stack
/// pointer is forced to 0xFD and the flag file to interrupt-disable only.
/// Nothing is pushed. The scheduler charges the seven cycles.
pub open spec fn reset_model(c: Cpu, b: BusM) -> (Cpu, BusM) {
    let s = jmp_vec_model(c, b, 0xFFFC);
    (
        Cpu {
            stack_pointer: 0xFD,
            c: false,
            z: false,
            i: true,
            d: false,
            b: false,
            o: false,
            n: false,
            ..s.0
        },
        s.1,
    )
}

/// A non-maskable interrupt: the program counter and the status byte (break
/// bit clear) are pushed, interrupts are disabled, and the counter comes
/// from the vector at 0xFFFA.
pub open spec fn nmi_model(c: Cpu, b: BusM) -> (Cpu, BusM) {
    let s1 = push_pc(c, b);
    let s2 = push1(s1.0, s1.1, flags_byte(s1.0));
    jmp_vec_model(Cpu { i: true, ..s2.0 }, s2.1, 0xFFFA)
}

pub open spec fn adc_val(a: u8, m: u8, cin: u8) -> u8 {
    ((a + m + cin) % 256) as u8
}

pub open spec fn adc_carry(a: u8, m: u8, cin: u8) -> bool {
    a + m + cin >= 256
}

/// The signed-overflow flag of an addition: set when both addends agree in
/// sign and the sum does not.
pub open spec fn overflow_flag(a: u8, m: u8, r: u8) -> bool {
    ((a ^ r) & (m ^ r) & 0x80) != 0
}

/// Add with carry: the accumulator, flags N, Z, C and V updated.
pub open spec fn cpu_adc(c: Cpu, m: u8, cin: u8) -> Cpu {
    let r = adc_val(c.a, m, cin);
    Cpu {
        a: r,
        z: r == 0,
        n: r >= 128,
        c: adc_carry(c.a, m, cin),
        o: overflow_flag(c.a, m, r),
        ..c
    }
}

impl Cpu {
    pub fn new() -> (r: Cpu)
        ensures
            r == (Cpu {
                a: 0,
                x: 0,
                y: 0,
                pc: 0x34,
                c: false,
                z: false,
                i: true,
                d: false,
                b: false,
                o: false,
                n: false,
                instr: Instructions::NOP,
                addr: Addressing::IMM,
                stack_pointer: 0xFD,
            }),
    {
        Cpu {
            // registers
            a: 0,
            x: 0,
            y: 0,
            pc: 0x34,
            // flags
            c: false,
            z: false,
            i: true,
            d: false,
            b: false,
            o: false,
            n: false,
            // misc
            instr: Instructions::NOP,
            addr: Addressing::IMM,
            stack_pointer: 0xFD,
        }
    }

    // --------------- INTERRUPTS --------------------

    pub fn Reset(&mut self, bus: &mut Bus)
        requires
            old(bus)@.wf(),
        ensures
            final(bus)@.wf(),
            *final(self) == reset_model(*old(self), old(bus)@).0,
            final(bus)@ == reset_model(*old(self), old(bus)@).1,
            final(self).pc == combine16(
                rd_val(old(bus)@, 0xFFFC),
                rd_val(rd_bus(old(bus)@, 0xFFFC), 0xFFFD),
            ),
            final(self).stack_pointer == 0xFD,
            final(self).i,
            flags_byte(*final(self)) == 0x24,
    {
        self.JMP(bus, 0xFFFC);
        self.stack_pointer = 0xFD;
        self.c = false;
        self.z = false;
        self.i = true;
        self.d = false;
        self.b = false;
        self.o = false;
        self.n = false;
        proof {
            assert(flags_byte(*self) == (0u8 << 7 | 0u8 << 6 | 1u8 << 5 | 0u8 << 4 | 0u8 << 3
                | 1u8 << 2 | 0u8 << 1 | 0u8));
            assert((0u8 << 7 | 0u8 << 6 | 1u8 << 5 | 0u8 << 4 | 0u8 << 3 | 1u8 << 2 | 0u8 << 1
                | 0u8) == 0x24) by (bit_vector);
        }
    }

    pub fn NMI(&mut self, bus: &mut Bus)
        requires
            old(bus)@.wf(),
        ensures
            final(bus)@.wf(),
            *final(self) == nmi_model(*old(self), old(bus)@).0,
            final(bus)@ == nmi_model(*old(self), old(bus)@).1,
    {
        self.stack_push_pc(bus);
        let flags = self.flags_to_byte();
        self.stack_push(flags, bus);
        self.i = true;
        self.JMP(bus, 0xFFFA);
    }

    pub fn BRK(&mut self, bus: &mut Bus)
        requires
            old(bus)@.wf(),
        ensures
            final(bus)@.wf(),
            *final(self) == jmp_vec_model(*old(self), old(bus)@, 0xFFFE).0,
            final(bus)@ == jmp_vec_model(*old(self), old(bus)@, 0xFFFE).1,
    {
        self.JMP(bus, 0xFFFE);
    }

    pub fn JMP(&mut self, bus: &mut Bus, addr: u16)
        requires
            old(bus)@.wf(),
            addr < 0xFFFF,
        ensures
            final(bus)@.wf(),
            *final(self) == jmp_vec_model(*old(self), old(bus)@, addr).0,
            final(bus)@ == jmp_vec_model(*old(self), old(bus)@, addr).1,
    {
        let low = bus.cpu_read_16(addr);
        let high = bus.cpu_read_16(addr + 1);
        self.pc = combine_low_high(low, high);
    }

    pub fn PHP(&mut self, bus: &mut Bus)
        requires
            old(bus)@.wf(),
        ensures
            final(bus)@.wf(),
            *final(self) == php_model(*old(self), old(bus)@).0,
            final(bus)@ == php_model(*old(self), old(bus)@).1,
    {
        let flags = self.flags_to_byte();
        let all_flags = set_u8_bit(flags, 4, 1);
        self.stack_push(all_flags, bus);
    }

    pub fn PLP(&mut self, bus: &mut Bus)
        requires
            old(bus)@.wf(),
        ensures
            final(bus)@.wf(),
            *final(self) == plp_model(*old(self), old(bus)@).0,
            final(bus)@ == plp_model(*old(self), old(bus)@).1,
    {
        let all_flags = self.stack_pull(bus);
        self.n = get_u8_bit(all_flags, 7) == 1;
        self.o = get_u8_bit(all_flags, 6) == 1;
        self.b = false;
        self.d = get_u8_bit(all_flags, 3) == 1;
        self.i = get_u8_bit(all_flags, 2) == 1;
        self.z = get_u8_bit(all_flags, 1) == 1;
        self.c = get_u8_bit(all_flags, 0) == 1;
    }

    pub fn ADC(&mut self, b: u8, c: u8)
        requires
            c <= 1,
        ensures
            *final(self) == cpu_adc(*old(self), b, c),
    {
        let sum: u16 = self.a as u16 + b as u16 + c as u16;
        let result = (sum % 256) as u8;
        self.flag_zero_from_val(result);
        self.flag_negative_from_val(result);
        self.flag_carry(sum >= 256);
        self.flag_overflow_from_vals(b, result);
        self.a = result;
    }

    // --------------- REGISTERS --------------------

    pub fn stack_push_pc(&mut self, bus: &mut Bus)
        requires
            old(bus)@.wf(),
        ensures
            final(bus)@.wf(),
            *final(self) == push_pc(*old(self), old(bus)@).0,
            final(bus)@ == push_pc(*old(self), old(bus)@).1,
    {
        proof {
            lemma_bit_basics();
        }
        let low = (self.pc & 0xFF) as u8;
        let high = (self.pc >> 8) as u8;
        self.stack_push(high, bus);
        self.stack_push(low, bus);
    }

    pub fn stack_pull_pc(&mut self, bus: &mut Bus)
        requires
            old(bus)@.wf(),
        ensures
            final(bus)@.wf(),
            *final(self) == pull_pc(*old(self), old(bus)@).0,
            final(bus)@ == pull_pc(*old(self), old(bus)@).1,
    {
        let low = self.stack_pull(bus);
        let high = self.stack_pull(bus);
        self.pc = combine_low_high(low, high);
    }

    pub fn stack_push(&mut self, val: u8, bus: &mut Bus)
        requires
            old(bus)@.wf(),
        ensures
            final(bus)@.wf(),
            *final(self) == push1(*old(self), old(bus)@, val).0,
            final(bus)@ == push1(*old(self), old(bus)@, val).1,
    {
        let addr = self.stack_pointer_to_addr();
        bus.cpu_write_16(addr, val);
        self.stack_pointer = self.stack_pointer.wrapping_sub(1);
    }

    pub fn stack_pull(&mut self, bus: &mut Bus) -> (r: u8)
        requires
            old(bus)@.wf(),
        ensures
            final(bus)@.wf(),
            *final(self) == pull1(*old(self), old(bus)@).0,
            r == pull1(*old(self), old(bus)@).1,
            final(bus)@ == pull1(*old(self), old(bus)@).2,
    {
        self.stack_pointer = self.stack_pointer.wrapping_add(1);
        let addr = self.stack_pointer_to_addr();
        bus.cpu_read_16(addr)
    }

    pub fn stack_pointer_to_addr(&mut self) -> (r: u16)
        ensures
            *final(self) == *old(self),
            r == sp_addr(old(self).stack_pointer),
    {
        1u16 << 8 | (self.stack_pointer as u16)
    }

    pub fn INX(&mut self) -> (r: u8)
        ensures
            *final(self) == (Cpu { x: u8_specs::wrapping_add(old(self).x, 1), ..*old(self) }),
            r == final(self).x,
    {
        self.x = self.x.wrapping_add(1);
        self.x
    }

    pub fn INY(&mut self) -> (r: u8)
        ensures
            *final(self) == (Cpu { y: u8_specs::wrapping_add(old(self).y, 1), ..*old(self) }),
            r == final(self).y,
    {
        self.y = self.y.wrapping_add(1);
        self.y
    }

    pub fn DEX(&mut self) -> (r: u8)
        ensures
            *final(self) == (Cpu { x: u8_specs::wrapping_sub(old(self).x, 1), ..*old(self) }),
            r == final(self).x,
    {
        self.x = self.x.wrapping_sub(1);
        self.x
    }

    pub fn DEY(&mut self) -> (r: u8)
        ensures
            *final(self) == (Cpu { y: u8_specs::wrapping_sub(old(self).y, 1), ..*old(self) }),
            r == final(self).y,
    {
        self.y = self.y.wrapping_sub(1);
        self.y
    }

    // --------------- FLAGS --------------------

    pub fn flags_to_byte(&mut self) -> (r: u8)
        ensures
            *final(self) == *old(self),
            r == flags_byte(*old(self)),
    {
        (if self.n {
            1u8
        } else {
            0u8
        }) << 7 | (if self.o {
            1u8
        } else {
            0u8
        }) << 6 | 1u8 << 5 | 0u8 << 4 | (if self.d {
            1u8
        } else {
            0u8
        }) << 3 | (if self.i {
            1u8
        } else {
            0u8
        }) << 2 | (if self.z {
            1u8
        } else {
            0u8
        }) << 1 | (if self.c {
            1u8
        } else {
            0u8
        })
    }

    pub fn flag_interrupt(&mut self, interrupt: bool)
        ensures
            *final(self) == (Cpu { i: interrupt, ..*old(self) }),
    {
        self.i = interrupt;
    }

    pub fn flag_decimal(&mut self, decimal: bool)
        ensures
            *final(self) == (Cpu { d: decimal, ..*old(self) }),
    {
        self.d = decimal;
    }

    pub fn flag_carry(&mut self, carry: bool)
        ensures
            *final(self) == (Cpu { c: carry, ..*old(self) }),
    {
        self.c = carry;
    }

    pub fn flag_overflow(&mut self, overflow: bool)
        ensures
            *final(self) == (Cpu { o: overflow, ..*old(self) }),
    {
        self.o = overflow;
    }

    pub fn flag_break(&mut self, break_bool: bool)
        ensures
            *final(self) == (Cpu { b: break_bool, ..*old(self) }),
    {
        self.b = break_bool;
    }

    pub fn flag_negative(&mut self, negative: bool)
        ensures
            *final(self) == (Cpu { n: negative, ..*old(self) }),
    {
        self.n = negative;
    }

    pub fn flag_zero(&mut self, zero: bool)
        ensures
            *final(self) == (Cpu { z: zero, ..*old(self) }),
    {
        self.z = zero;
    }

    pub fn flag_negative_from_val(&mut self, val: u8)
        ensures
            *final(self) == (Cpu { n: val >= 128, ..*old(self) }),
    {
        if val >= 128 {
            self.n = true;
        } else {
            self.n = false;
        }
    }

    pub fn flag_zero_from_val(&mut self, val: u8)
        ensures
            *final(self) == (Cpu { z: val == 0, ..*old(self) }),
    {
        if val == 0 {
            self.z = true;
        } else {
            self.z = false;
        }
    }

    /// Sets V for an addition whose operand was `m` and whose result is `r`.
    pub fn flag_overflow_from_vals(&mut self, m: u8, r: u8)
        ensures
            *final(self) == (Cpu { o: overflow_flag(old(self).a, m, r), ..*old(self) }),
    {
        let masked = (self.a ^ r) & (m ^ r) & 0x80;
        if masked != 0 {
            self.o = true;
        } else {
            self.o = false;
        }
    }
}


// --------------- DECODE --------------------

/// How an instruction's cycle price departs from its base count.
#[derive(Clone, Copy, Debug, PartialEq, Eq, Structural)]
pub enum Pen {
    /// The base count is the whole price.
    Fixed,
    /// One more cycle when the absolute address plus X crosses a page.
    CrossX,
    /// One more cycle when the absolute address plus Y crosses a page.
    CrossY,
    /// One more cycle when the indirect pointer plus Y crosses a page.
    CrossIdy,
    /// One more cycle when taken, another when the taken branch crosses a
    /// page.
    Branch,
}

/// One row of the opcode table.
pub struct Decoded {
    pub instr: Instructions,
    pub mode: Addressing,
    pub base: u8,
    pub pen: Pen,
}

/// The opcode table: each of the 151 official opcode bytes maps to its
/// operation, addressing mode, base cycle count and penalty rule.
pub open spec fn decode(op: u8) -> Option<Decoded> {
    match op {
        0x00 => Option::Some(Decoded { instr: Instructions::BRK, mode: Addressing::IMP, base: 7, pen: Pen::Fixed }),
        0x01 => Option::Some(Decoded { instr: Instructions::ORA, mode: Addressing::IDX, base: 6, pen: Pen::Fixed }),
        0x05 => Option::Some(Decoded { instr: Instructions::ORA, mode: Addressing::ZPG, base: 3, pen: Pen::Fixed }),
        0x06 => Option::Some(Decoded { instr: Instructions::ASL, mode: Addressing::ZPG, base: 5, pen: Pen::Fixed }),
        0x08 => Option::Some(Decoded { instr: Instructions::PHP, mode: Addressing::IMP, base: 3, pen: Pen::Fixed }),
        0x09 => Option::Some(Decoded { instr: Instructions::ORA, mode: Addressing::IMM, base: 2, pen: Pen::Fixed }),
        0x0A => Option::Some(Decoded { instr: Instructions::ASL, mode: Addressing::ACC, base: 2, pen: Pen::Fixed }),
        0x0D => Option::Some(Decoded { instr: Instructions::ORA, mode: Addressing::ABS, base: 4, pen: Pen::Fixed }),
        0x0E => Option::Some(Decoded { instr: Instructions::ASL, mode: Addressing::ABS, base: 6, pen: Pen::Fixed }),
        0x10 => Option::Some(Decoded { instr: Instructions::BPL, mode: Addressing::REL, base: 2, pen: Pen::Branch }),
        0x11 => Option::Some(Decoded { instr: Instructions::ORA, mode: Addressing::IDY, base: 5, pen: Pen::CrossIdy }),
        0x15 => Option::Some(Decoded { instr: Instructions::ORA, mode: Addressing::ZPX, base: 4, pen: Pen::Fixed }),
        0x16 => Option::Some(Decoded { instr: Instructions::ASL, mode: Addressing::ZPX, base: 6, pen: Pen::Fixed }),
        0x18 => Option::Some(Decoded { instr: Instructions::CLC, mode: Addressing::IMP, base: 2, pen: Pen::Fixed }),
        0x19 => Option::Some(Decoded { instr: Instructions::ORA, mode: Addressing::ABY, base: 4, pen: Pen::CrossY }),
        0x1D => Option::Some(Decoded { instr: Instructions::ORA, mode: Addressing::ABX, base: 4, pen: Pen::CrossX }),
        0x1E => Option::Some(Decoded { instr: Instructions::ASL, mode: Addressing::ABX, base: 7, pen: Pen::Fixed }),
        0x20 => Option::Some(Decoded { instr: Instructions::JSR, mode: Addressing::ABS, base: 6, pen: Pen::Fixed }),
        0x21 => Option::Some(Decoded { instr: Instructions::AND, mode: Addressing::IDX, base: 6, pen: Pen::Fixed }),
        0x24 => Option::Some(Decoded { instr: Instructions::BIT, mode: Addressing::ZPG, base: 3, pen: Pen::Fixed }),
        0x25 => Option::Some(Decoded { instr: Instructions::AND, mode: Addressing::ZPG, base: 3, pen: Pen::Fixed }),
        0x26 => Option::Some(Decoded { instr: Instructions::ROL, mode: Addressing::ZPG, base: 5, pen: Pen::Fixed }),
        0x28 => Option::Some(Decoded { instr: Instructions::PLP, mode: Addressing::IMP, base: 4, pen: Pen::Fixed }),
        0x29 => Option::Some(Decoded { instr: Instructions::AND, mode: Addressing::IMM, base: 2, pen: Pen::Fixed }),
        0x2A => Option::Some(Decoded { instr: Instructions::ROL, mode: Addressing::ACC, base: 2, pen: Pen::Fixed }),
        0x2C => Option::Some(Decoded { instr: Instructions::BIT, mode: Addressing::ABS, base: 4, pen: Pen::Fixed }),
        0x2D => Option::Some(Decoded { instr: Instructions::AND, mode: Addressing::ABS, base: 4, pen: Pen::Fixed }),
        0x2E => Option::Some(Decoded { instr: Instructions::ROL, mode: Addressing::ABS, base: 6, pen: Pen::Fixed }),
        0x30 => Option::Some(Decoded { instr: Instructions::BMI, mode: Addressing::REL, base: 2, pen: Pen::Branch }),
        0x31 => Option::Some(Decoded { instr: Instructions::AND, mode: Addressing::IDY, base: 5, pen: Pen::CrossIdy }),
        0x35 => Option::Some(Decoded { instr: Instructions::AND, mode: Addressing::ZPX, base: 4, pen: Pen::Fixed }),
        0x36 => Option::Some(Decoded { instr: Instructions::ROL, mode: Addressing::ZPX, base: 6, pen: Pen::Fixed }),
        0x38 => Option::Some(Decoded { instr: Instructions::SEC, mode: Addressing::IMP, base: 2, pen: Pen::Fixed }),
        0x39 => Option::Some(Decoded { instr: Instructions::AND, mode: Addressing::ABY, base: 4, pen: Pen::CrossY }),
        0x3D => Option::Some(Decoded { instr: Instructions::AND, mode: Addressing::ABX, base: 4, pen: Pen::CrossX }),
        0x3E => Option::Some(Decoded { instr: Instructions::ROL, mode: Addressing::ABX, base: 7, pen: Pen::Fixed }),
        0x40 => Option::Some(Decoded { instr: Instructions::RTI, mode: Addressing::IMP, base: 6, pen: Pen::Fixed }),
        0x41 => Option::Some(Decoded { instr: Instructions::EOR, mode: Addressing::IDX, base: 6, pen: Pen::Fixed }),
        0x45 => Option::Some(Decoded { instr: Instructions::EOR, mode: Addressing::ZPG, base: 3, pen: Pen::Fixed }),
        0x46 => Option::Some(Decoded { instr: Instructions::LSR, mode: Addressing::ZPG, base: 5, pen: Pen::Fixed }),
        0x48 => Option::Some(Decoded { instr: Instructions::PHA, mode: Addressing::IMP, base: 3, pen: Pen::Fixed }),
        0x49 => Option::Some(Decoded { instr: Instructions::EOR, mode: Addressing::IMM, base: 2, pen: Pen::Fixed }),
        0x4A => Option::Some(Decoded { instr: Instructions::LSR, mode: Addressing::ACC, base: 2, pen: Pen::Fixed }),
        0x4C => Option::Some(Decoded { instr: Instructions::JMP, mode: Addressing::ABS, base: 3, pen: Pen::Fixed }),
        0x4D => Option::Some(Decoded { instr: Instructions::EOR, mode: Addressing::ABS, base: 4, pen: Pen::Fixed }),
        0x4E => Option::Some(Decoded { instr: Instructions::LSR, mode: Addressing::ABS, base: 6, pen: Pen::Fixed }),
        0x50 => Option::Some(Decoded { instr: Instructions::BVC, mode: Addressing::REL, base: 2, pen: Pen::Branch }),
        0x51 => Option::Some(Decoded { instr: Instructions::EOR, mode: Addressing::IDY, base: 5, pen: Pen::CrossIdy }),
        0x55 => Option::Some(Decoded { instr: Instructions::EOR, mode: Addressing::ZPX, base: 4, pen: Pen::Fixed }),
        0x56 => Option::Some(Decoded { instr: Instructions::LSR, mode: Addressing::ZPX, base: 6, pen: Pen::Fixed }),
        0x58 => Option::Some(Decoded { instr: Instructions::CLI, mode: Addressing::IMP, base: 2, pen: Pen::Fixed }),
        0x59 => Option::Some(Decoded { instr: Instructions::EOR, mode: Addressing::ABY, base: 4, pen: Pen::CrossY }),
        0x5D => Option::Some(Decoded { instr: Instructions::EOR, mode: Addressing::ABX, base: 4, pen: Pen::CrossX }),
        0x5E => Option::Some(Decoded { instr: Instructions::LSR, mode: Addressing::ABX, base: 7, pen: Pen::Fixed }),
        0x60 => Option::Some(Decoded { instr: Instructions::RTS, mode: Addressing::IMP, base: 6, pen: Pen::Fixed }),
        0x61 => Option::Some(Decoded { instr: Instructions::ADC, mode: Addressing::IDX, base: 6, pen: Pen::Fixed }),
        0x65 => Option::Some(Decoded { instr: Instructions::ADC, mode: Addressing::ZPG, base: 3, pen: Pen::Fixed }),
        0x66 => Option::Some(Decoded { instr: Instructions::ROR, mode: Addressing::ZPG, base: 5, pen: Pen::Fixed }),
        0x68 => Option::Some(Decoded { instr: Instructions::PLA, mode: Addressing::IMP, base: 4, pen: Pen::Fixed }),
        0x69 => Option::Some(Decoded { instr: Instructions::ADC, mode: Addressing::IMM, base: 2, pen: Pen::Fixed }),
        0x6A => Option::Some(Decoded { instr: Instructions::ROR, mode: Addressing::ACC, base: 2, pen: Pen::Fixed }),
        0x6C => Option::Some(Decoded { instr: Instructions::JMP, mode: Addressing::IND, base: 5, pen: Pen::Fixed }),
        0x6D => Option::Some(Decoded { instr: Instructions::ADC, mode: Addressing::ABS, base: 4, pen: Pen::Fixed }),
        0x6E => Option::Some(Decoded { instr: Instructions::ROR, mode: Addressing::ABS, base: 6, pen: Pen::Fixed }),
        0x70 => Option::Some(Decoded { instr: Instructions::BVS, mode: Addressing::REL, base: 2, pen: Pen::Branch }),
        0x71 => Option::Some(Decoded { instr: Instructions::ADC, mode: Addressing::IDY, base: 5, pen: Pen::CrossIdy }),
        0x75 => Option::Some(Decoded { instr: Instructions::ADC, mode: Addressing::ZPX, base: 4, pen: Pen::Fixed }),
        0x76 => Option::Some(Decoded { instr: Instructions::ROR, mode: Addressing::ZPX, base: 6, pen: Pen::Fixed }),
        0x78 => Option::Some(Decoded { instr: Instructions::SEI, mode: Addressing::IMP, base: 2, pen: Pen::Fixed }),
        0x79 => Option::Some(Decoded { instr: Instructions::ADC, mode: Addressing::ABY, base: 4, pen: Pen::CrossY }),
        0x7D => Option::Some(Decoded { instr: Instructions::ADC, mode: Addressing::ABX, base: 4, pen: Pen::CrossX }),
        0x7E => Option::Some(Decoded { instr: Instructions::ROR, mode: Addressing::ABX, base: 7, pen: Pen::Fixed }),
        0x81 => Option::Some(Decoded { instr: Instructions::STA, mode: Addressing::IDX, base: 6, pen: Pen::Fixed }),
        0x84 => Option::Some(Decoded { instr: Instructions::STY, mode: Addressing::ZPG, base: 3, pen: Pen::Fixed }),
        0x85 => Option::Some(Decoded { instr: Instructions::STA, mode: Addressing::ZPG, base: 3, pen: Pen::Fixed }),
        0x86 => Option::Some(Decoded { instr: Instructions::STX, mode: Addressing::ZPG, base: 3, pen: Pen::Fixed }),
        0x88 => Option::Some(Decoded { instr: Instructions::DEY, mode: Addressing::IMP, base: 2, pen: Pen::Fixed }),
        0x8A => Option::Some(Decoded { instr: Instructions::TXA, mode: Addressing::IMP, base: 2, pen: Pen::Fixed }),
        0x8C => Option::Some(Decoded { instr: Instructions::STY, mode: Addressing::ABS, base: 4, pen: Pen::Fixed }),
        0x8D => Option::Some(Decoded { instr: Instructions::STA, mode: Addressing::ABS, base: 4, pen: Pen::Fixed }),
        0x8E => Option::Some(Decoded { instr: Instructions::STX, mode: Addressing::ABS, base: 4, pen: Pen::Fixed }),
        0x90 => Option::Some(Decoded { instr: Instructions::BCC, mode: Addressing::REL, base: 2, pen: Pen::Branch }),
        0x91 => Option::Some(Decoded { instr: Instructions::STA, mode: Addressing::IDY, base: 6, pen: Pen::Fixed }),
        0x94 => Option::Some(Decoded { instr: Instructions::STY, mode: Addressing::ZPX, base: 4, pen: Pen::Fixed }),
        0x95 => Option::Some(Decoded { instr: Instructions::STA, mode: Addressing::ZPX, base: 4, pen: Pen::Fixed }),
        0x96 => Option::Some(Decoded { instr: Instructions::STX, mode: Addressing::ZPY, base: 4, pen: Pen::Fixed }),
        0x98 => Option::Some(Decoded { instr: Instructions::TYA, mode: Addressing::IMP, base: 2, pen: Pen::Fixed }),
        0x99 => Option::Some(Decoded { instr: Instructions::STA, mode: Addressing::ABY, base: 5, pen: Pen::Fixed }),
        0x9A => Option::Some(Decoded { instr: Instructions::TXS, mode: Addressing::IMP, base: 2, pen: Pen::Fixed }),
        0x9D => Option::Some(Decoded { instr: Instructions::STA, mode: Addressing::ABX, base: 5, pen: Pen::Fixed }),
        0xA0 => Option::Some(Decoded { instr: Instructions::LDY, mode: Addressing::IMM, base: 2, pen: Pen::Fixed }),
        0xA1 => Option::Some(Decoded { instr: Instructions::LDA, mode: Addressing::IDX, base: 6, pen: Pen::Fixed }),
        0xA2 => Option::Some(Decoded { instr: Instructions::LDX, mode: Addressing::IMM, base: 2, pen: Pen::Fixed }),
        0xA4 => Option::Some(Decoded { instr: Instructions::LDY, mode: Addressing::ZPG, base: 3, pen: Pen::Fixed }),
        0xA5 => Option::Some(Decoded { instr: Instructions::LDA, mode: Addressing::ZPG, base: 3, pen: Pen::Fixed }),
        0xA6 => Option::Some(Decoded { instr: Instructions::LDX, mode: Addressing::ZPG, base: 3, pen: Pen::Fixed }),
        0xA8 => Option::Some(Decoded { instr: Instructions::TAY, mode: Addressing::IMP, base: 2, pen: Pen::Fixed }),
        0xA9 => Option::Some(Decoded { instr: Instructions::LDA, mode: Addressing::IMM, base: 2, pen: Pen::Fixed }),
        0xAA => Option::Some(Decoded { instr: Instructions::TAX, mode: Addressing::IMP, base: 2, pen: Pen::Fixed }),
        0xAC => Option::Some(Decoded { instr: Instructions::LDY, mode: Addressing::ABS, base: 4, pen: Pen::Fixed }),
        0xAD => Option::Some(Decoded { instr: Instructions::LDA, mode: Addressing::ABS, base: 4, pen: Pen::Fixed }),
        0xAE => Option::Some(Decoded { instr: Instructions::LDX, mode: Addressing::ABS, base: 4, pen: Pen::Fixed }),
        0xB0 => Option::Some(Decoded { instr: Instructions::BCS, mode: Addressing::REL, base: 2, pen: Pen::Branch }),
        0xB1 => Option::Some(Decoded { instr: Instructions::LDA, mode: Addressing::IDY, base: 5, pen: Pen::CrossIdy }),
        0xB4 => Option::Some(Decoded { instr: Instructions::LDY, mode: Addressing::ZPX, base: 4, pen: Pen::Fixed }),
        0xB5 => Option::Some(Decoded { instr: Instructions::LDA, mode: Addressing::ZPX, base: 4, pen: Pen::Fixed }),
        0xB6 => Option::Some(Decoded { instr: Instructions::LDX, mode: Addressing::ZPY, base: 4, pen: Pen::Fixed }),
        0xB8 => Option::Some(Decoded { instr: Instructions::CLV, mode: Addressing::IMP, base: 2, pen: Pen::Fixed }),
        0xB9 => Option::Some(Decoded { instr: Instructions::LDA, mode: Addressing::ABY, base: 4, pen: Pen::CrossY }),
        0xBA => Option::Some(Decoded { instr: Instructions::TSX, mode: Addressing::IMP, base: 2, pen: Pen::Fixed }),
        0xBC => Option::Some(Decoded { instr: Instructions::LDY, mode: Addressing::ABX, base: 4, pen: Pen::CrossX }),
        0xBD => Option::Some(Decoded { instr: Instructions::LDA, mode: Addressing::ABX, base: 4, pen: Pen::CrossX }),
        0xBE => Option::Some(Decoded { instr: Instructions::LDX, mode: Addressing::ABY, base: 4, pen: Pen::CrossY }),
        0xC0 => Option::Some(Decoded { instr: Instructions::CPY, mode: Addressing::IMM, base: 2, pen: Pen::Fixed }),
        0xC1 => Option::Some(Decoded { instr: Instructions::CMP, mode: Addressing::IDX, base: 6, pen: Pen::Fixed }),
        0xC4 => Option::Some(Decoded { instr: Instructions::CPY, mode: Addressing::ZPG, base: 3, pen: Pen::Fixed }),
        0xC5 => Option::Some(Decoded { instr: Instructions::CMP, mode: Addressing::ZPG, base: 3, pen: Pen::Fixed }),
        0xC6 => Option::Some(Decoded { instr: Instructions::DEC, mode: Addressing::ZPG, base: 5, pen: Pen::Fixed }),
        0xC8 => Option::Some(Decoded { instr: Instructions::INY, mode: Addressing::IMP, base: 2, pen: Pen::Fixed }),
        0xC9 => Option::Some(Decoded { instr: Instructions::CMP, mode: Addressing::IMM, base: 2, pen: Pen::Fixed }),
        0xCA => Option::Some(Decoded { instr: Instructions::DEX, mode: Addressing::IMP, base: 2, pen: Pen::Fixed }),
        0xCC => Option::Some(Decoded { instr: Instructions::CPY, mode: Addressing::ABS, base: 4, pen: Pen::Fixed }),
        0xCD => Option::Some(Decoded { instr: Instructions::CMP, mode: Addressing::ABS, base: 4, pen: Pen::Fixed }),
        0xCE => Option::Some(Decoded { instr: Instructions::DEC, mode: Addressing::ABS, base: 6, pen: Pen::Fixed }),
        0xD0 => Option::Some(Decoded { instr: Instructions::BNE, mode: Addressing::REL, base: 2, pen: Pen::Branch }),
        0xD1 => Option::Some(Decoded { instr: Instructions::CMP, mode: Addressing::IDY, base: 5, pen: Pen::CrossIdy }),
        0xD5 => Option::Some(Decoded { instr: Instructions::CMP, mode: Addressing::ZPX, base: 4, pen: Pen::Fixed }),
        0xD6 => Option::Some(Decoded { instr: Instructions::DEC, mode: Addressing::ZPX, base: 6, pen: Pen::Fixed }),
        0xD8 => Option::Some(Decoded { instr: Instructions::CLD, mode: Addressing::IMP, base: 2, pen: Pen::Fixed }),
        0xD9 => Option::Some(Decoded { instr: Instructions::CMP, mode: Addressing::ABY, base: 4, pen: Pen::CrossY }),
        0xDD => Option::Some(Decoded { instr: Instructions::CMP, mode: Addressing::ABX, base: 4, pen: Pen::CrossX }),
        0xDE => Option::Some(Decoded { instr: Instructions::DEC, mode: Addressing::ABX, base: 7, pen: Pen::Fixed }),
        0xE0 => Option::Some(Decoded { instr: Instructions::CPX, mode: Addressing::IMM, base: 2, pen: Pen::Fixed }),
        0xE1 => Option::Some(Decoded { instr: Instructions::SBC, mode: Addressing::IDX, base: 6, pen: Pen::Fixed }),
        0xE4 => Option::Some(Decoded { instr: Instructions::CPX, mode: Addressing::ZPG, base: 3, pen: Pen::Fixed }),
        0xE5 => Option::Some(Decoded { instr: Instructions::SBC, mode: Addressing::ZPG, base: 3, pen: Pen::Fixed }),
        0xE6 => Option::Some(Decoded { instr: Instructions::INC, mode: Addressing::ZPG, base: 5, pen: Pen::Fixed }),
        0xE8 => Option::Some(Decoded { instr: Instructions::INX, mode: Addressing::IMP, base: 2, pen: Pen::Fixed }),
        0xE9 => Option::Some(Decoded { instr: Instructions::SBC, mode: Addressing::IMM, base: 2, pen: Pen::Fixed }),
        0xEA => Option::Some(Decoded { instr: Instructions::NOP, mode: Addressing::IMP, base: 2, pen: Pen::Fixed }),
        0xEC => Option::Some(Decoded { instr: Instructions::CPX, mode: Addressing::ABS, base: 4, pen: Pen::Fixed }),
        0xED => Option::Some(Decoded { instr: Instructions::SBC, mode: Addressing::ABS, base: 4, pen: Pen::Fixed }),
        0xEE => Option::Some(Decoded { instr: Instructions::INC, mode: Addressing::ABS, base: 6, pen: Pen::Fixed }),
        0xF0 => Option::Some(Decoded { instr: Instructions::BEQ, mode: Addressing::REL, base: 2, pen: Pen::Branch }),
        0xF1 => Option::Some(Decoded { instr: Instructions::SBC, mode: Addressing::IDY, base: 5, pen: Pen::CrossIdy }),
        0xF5 => Option::Some(Decoded { instr: Instructions::SBC, mode: Addressing::ZPX, base: 4, pen: Pen::Fixed }),
        0xF6 => Option::Some(Decoded { instr: Instructions::INC, mode: Addressing::ZPX, base: 6, pen: Pen::Fixed }),
        0xF8 => Option::Some(Decoded { instr: Instructions::SED, mode: Addressing::IMP, base: 2, pen: Pen::Fixed }),
        0xF9 => Option::Some(Decoded { instr: Instructions::SBC, mode: Addressing::ABY, base: 4, pen: Pen::CrossY }),
        0xFD => Option::Some(Decoded { instr: Instructions::SBC, mode: Addressing::ABX, base: 4, pen: Pen::CrossX }),
        0xFE => Option::Some(Decoded { instr: Instructions::INC, mode: Addressing::ABX, base: 7, pen: Pen::Fixed }),
        _ => Option::None,
    }
}

/// Whether a branch instruction's condition holds of the current flags.
pub open spec fn branch_cond(i: Instructions, c: Cpu) -> bool {
    match i {
        Instructions::BCC => !c.c,
        Instructions::BCS => c.c,
        Instructions::BEQ => c.z,
        Instructions::BMI => c.n,
        Instructions::BNE => !c.z,
        Instructions::BPL => !c.n,
        Instructions::BVC => !c.o,
        Instructions::BVS => c.o,
        _ => false,
    }
}

/// The extra cycles a decoded instruction is billed beyond its base count,
/// with the bus state after the look-ahead reads that price it.
pub open spec fn penalty_model(c: Cpu, b: BusM, d: Decoded) -> (u8, BusM) {
    match d.pen {
        Pen::Fixed => (0u8, b),
        Pen::CrossX => cross_abs_model(b, c.pc, c.x),
        Pen::CrossY => cross_abs_model(b, c.pc, c.y),
        Pen::CrossIdy => cross_idy_model(b, c.pc, c.y),
        Pen::Branch => if !branch_cond(d.instr, c) {
            (0u8, b)
        } else {
            let r = cross_rel_model(b, c.pc);
            ((1 + r.0) as u8, r.1)
        },
    }
}

/// The outcome of the decode phase.
pub struct Loaded {
    /// Whether the fetched byte is an official opcode.
    pub known: bool,
    /// The fetched byte itself.
    pub opcode: u8,
    pub cpu: Cpu,
    pub cycles: u8,
    pub bus: BusM,
}

/// The decode phase: the byte at the program counter is fetched and looked
/// up; the pending instruction registers and the full cycle price follow
/// from the table row. The program counter does not move here.
#[verifier::opaque]
pub open spec fn load_model(c: Cpu, b: BusM) -> Loaded {
    let op = rd_val(b, c.pc);
    let b1 = rd_bus(b, c.pc);
    match decode(op) {
        Option::None => Loaded { known: false, opcode: op, cpu: c, cycles: 0, bus: b1 },
        Option::Some(d) => {
            let c1 = Cpu { instr: d.instr, addr: d.mode, ..c };
            let p = penalty_model(c1, b1, d);
            Loaded { known: true, opcode: op, cpu: c1, cycles: (d.base + p.0) as u8, bus: p.1 }
        },
    }
}

// --------------- ADDRESS RESOLUTION --------------------

/// The outcome of addressing-mode resolution: the advanced program counter,
/// the target address, and the bus after the operand reads.
pub struct Resolved {
    pub pc: u16,
    pub target: u16,
    pub bus: BusM,
}

/// Addressing-mode resolution, exactly as the hardware chains its reads:
/// zero-page indexing wraps inside the zero page, the indirect modes fetch
/// their pointer's high byte from (zp + 1) mod 256, and indirect jumps
/// reproduce the page-wrap quirk in the pointer's high byte fetch.
pub open spec fn resolve(c: Cpu, b: BusM) -> Resolved {
    match c.addr {
        Addressing::IMP | Addressing::ACC => Resolved {
            pc: u16_specs::wrapping_add(c.pc, 1),
            target: 0,
            bus: b,
        },
        Addressing::IMM | Addressing::REL => {
            let pc2 = u16_specs::wrapping_add(c.pc, 2);
            Resolved { pc: pc2, target: u16_specs::wrapping_sub(pc2, 1), bus: b }
        },
        Addressing::ZPG => {
            let pc2 = u16_specs::wrapping_add(c.pc, 2);
            let r = rd_single(b, pc2);
            Resolved { pc: pc2, target: r.0 as u16, bus: r.1 }
        },
        Addressing::ZPX => {
            let pc2 = u16_specs::wrapping_add(c.pc, 2);
            let r = rd_single(b, pc2);
            Resolved { pc: pc2, target: u8_specs::wrapping_add(r.0, c.x) as u16, bus: r.1 }
        },
        Addressing::ZPY => {
            let pc2 = u16_specs::wrapping_add(c.pc, 2);
            let r = rd_single(b, pc2);
            Resolved { pc: pc2, target: u8_specs::wrapping_add(r.0, c.y) as u16, bus: r.1 }
        },
        Addressing::ABS => {
            let pc3 = u16_specs::wrapping_add(c.pc, 3);
            let r = rd_double(b, pc3);
            Resolved { pc: pc3, target: r.0, bus: r.1 }
        },
        Addressing::ABX => {
            let pc3 = u16_specs::wrapping_add(c.pc, 3);
            let r = rd_double(b, pc3);
            Resolved { pc: pc3, target: u16_specs::wrapping_add(r.0, c.x as u16), bus: r.1 }
        },
        Addressing::ABY => {
            let pc3 = u16_specs::wrapping_add(c.pc, 3);
            let r = rd_double(b, pc3);
            Resolved { pc: pc3, target: u16_specs::wrapping_add(r.0, c.y as u16), bus: r.1 }
        },
        Addressing::IDX => {
            let pc2 = u16_specs::wrapping_add(c.pc, 2);
            let r = rd_single(b, pc2);
            let zp = u8_specs::wrapping_add(r.0, c.x);
            let low = rd_val(r.1, zp as u16);
            let b2 = rd_bus(r.1, zp as u16);
            let hz = u8_specs::wrapping_add(zp, 1);
            let high = rd_val(b2, hz as u16);
            let b3 = rd_bus(b2, hz as u16);
            Resolved { pc: pc2, target: combine16(low, high), bus: b3 }
        },
        Addressing::IDY => {
            let pc2 = u16_specs::wrapping_add(c.pc, 2);
            let r = rd_single(b, pc2);
            let zp = r.0;
            let low = rd_val(r.1, zp as u16);
            let b2 = rd_bus(r.1, zp as u16);
            let hz = u8_specs::wrapping_add(zp, 1);
            let high = rd_val(b2, hz as u16);
            let b3 = rd_bus(b2, hz as u16);
            Resolved {
                pc: pc2,
                target: u16_specs::wrapping_add(combine16(low, high), c.y as u16),
                bus: b3,
            }
        },
        Addressing::IND => {
            let pc3 = u16_specs::wrapping_add(c.pc, 3);
            let r = rd_double(b, pc3);
            let low = rd_val(r.1, r.0);
            let b2 = rd_bus(r.1, r.0);
            let high_addr = (u8_specs::wrapping_add((r.0 & 0xFF) as u8, 1) as u16) | (r.0
                & 0xFF00);
            let high = rd_val(b2, high_addr);
            let b3 = rd_bus(b2, high_addr);
            Resolved { pc: pc3, target: combine16(low, high), bus: b3 }
        },
    }
}

// --------------- EXECUTION --------------------

/// The outcome of the execute phase. `ok` is false exactly when a store
/// reached the picture unit's DATA port while the VRAM latch was out of
/// range; the states still describe everything that happened up to that
/// point.
pub struct Stepped {
    pub ok: bool,
    pub cpu: Cpu,
    pub bus: BusM,
    pub ppu: PpuM,
}

pub open spec fn ok3(c: Cpu, b: BusM, p: PpuM) -> Stepped {
    Stepped { ok: true, cpu: c, bus: b, ppu: p }
}

/// A shift or rotate: left ops shift the carry out of bit 7, right ops out
/// of bit 0; rotates shift the old carry in at the far end. The result goes
/// back to the accumulator or through the register-aware store path.
pub open spec fn shift_model(c: Cpu, b: BusM, p: PpuM, target: u16, tv: u8) -> Stepped {
    let val0 = if c.addr == Addressing::ACC {
        c.a
    } else {
        tv
    };
    let left = c.instr == Instructions::ASL || c.instr == Instructions::ROL;
    let bit_test: u8 = if left {
        0x80
    } else {
        0x01
    };
    let new_carry = val0 & bit_test == bit_test;
    let carry_in: u8 = if c.instr == Instructions::ROL {
        bool_u8(c.c)
    } else if c.instr == Instructions::ROR {
        bool_u8(c.c) << 7
    } else {
        0
    };
    let val = (if left {
        val0 << 1
    } else {
        val0 >> 1
    }) | carry_in;
    let c1 = Cpu { z: val == 0, n: val >= 128, c: new_carry, ..c };
    if c.addr == Addressing::ACC {
        ok3(Cpu { a: val, ..c1 }, b, p)
    } else {
        let w = regs_write_model(b, p, target, val);
        Stepped { ok: w.2, cpu: c1, bus: w.0, ppu: w.1 }
    }
}

/// The effects of the pending instruction, applied to the state after
/// address resolution and the operand read.
pub open spec fn instr_model(c: Cpu, b: BusM, p: PpuM, target: u16, tv: u8) -> Stepped {
    match c.instr {
        Instructions::ADC => ok3(cpu_adc(c, tv, bool_u8(c.c)), b, p),
        Instructions::SBC => ok3(cpu_adc(c, !tv, bool_u8(c.c)), b, p),
        Instructions::AND => {
            let r = c.a & tv;
            ok3(Cpu { a: r, z: r == 0, n: r >= 128, ..c }, b, p)
        },
        Instructions::ORA => {
            let r = c.a | tv;
            ok3(Cpu { a: r, z: r == 0, n: r >= 128, ..c }, b, p)
        },
        Instructions::EOR => {
            let r = c.a ^ tv;
            ok3(Cpu { a: r, z: r == 0, n: r >= 128, ..c }, b, p)
        },
        Instructions::ASL | Instructions::LSR | Instructions::ROL | Instructions::ROR
            => shift_model(c, b, p, target, tv),
        Instructions::BCC | Instructions::BCS | Instructions::BEQ | Instructions::BMI
            | Instructions::BNE | Instructions::BPL | Instructions::BVC | Instructions::BVS => {
            if branch_cond(c.instr, c) {
                ok3(Cpu { pc: u16_specs::wrapping_add_signed(c.pc, rel_i16(tv)), ..c }, b, p)
            } else {
                ok3(c, b, p)
            }
        },
        Instructions::BIT => {
            let r = tv & c.a;
            ok3(Cpu { z: r == 0, n: tv >= 128, o: tv >> 6 & 0x01 == 1, ..c }, b, p)
        },
        Instructions::BRK => {
            let s1 = push_pc(c, b);
            let s2 = php_model(s1.0, s1.1);
            let s3 = jmp_vec_model(Cpu { i: true, ..s2.0 }, s2.1, 0xFFFE);
            ok3(s3.0, s3.1, p)
        },
        Instructions::CLC => ok3(Cpu { c: false, ..c }, b, p),
        Instructions::CLD => ok3(Cpu { d: false, ..c }, b, p),
        Instructions::CLI => ok3(Cpu { i: false, ..c }, b, p),
        Instructions::CLV => ok3(Cpu { o: false, ..c }, b, p),
        Instructions::SEC => ok3(Cpu { c: true, ..c }, b, p),
        Instructions::SED => ok3(Cpu { d: true, ..c }, b, p),
        Instructions::SEI => ok3(Cpu { i: true, ..c }, b, p),
        Instructions::CMP | Instructions::CPX | Instructions::CPY => {
            let reg = if c.instr == Instructions::CMP {
                c.a
            } else if c.instr == Instructions::CPX {
                c.x
            } else {
                c.y
            };
            ok3(
                Cpu {
                    n: u8_specs::wrapping_sub(reg, tv) >= 128,
                    z: reg == tv,
                    c: reg >= tv,
                    ..c
                },
                b,
                p,
            )
        },
        Instructions::DEC => {
            let r = dec_model(b, target);
            ok3(Cpu { n: r.0 >= 128, z: r.0 == 0, ..c }, r.1, p)
        },
        Instructions::INC => {
            let r = inc_model(b, target);
            ok3(Cpu { n: r.0 >= 128, z: r.0 == 0, ..c }, r.1, p)
        },
        Instructions::DEX => {
            let r = u8_specs::wrapping_sub(c.x, 1);
            ok3(Cpu { x: r, n: r >= 128, z: r == 0, ..c }, b, p)
        },
        Instructions::DEY => {
            let r = u8_specs::wrapping_sub(c.y, 1);
            ok3(Cpu { y: r, n: r >= 128, z: r == 0, ..c }, b, p)
        },
        Instructions::INX => {
            let r = u8_specs::wrapping_add(c.x, 1);
            ok3(Cpu { x: r, n: r >= 128, z: r == 0, ..c }, b, p)
        },
        Instructions::INY => {
            let r = u8_specs::wrapping_add(c.y, 1);
            ok3(Cpu { y: r, n: r >= 128, z: r == 0, ..c }, b, p)
        },
        Instructions::JMP => ok3(Cpu { pc: target, ..c }, b, p),
        Instructions::JSR => {
            let s1 = push_pc(Cpu { pc: u16_specs::wrapping_sub(c.pc, 1), ..c }, b);
            ok3(Cpu { pc: target, ..s1.0 }, s1.1, p)
        },
        Instructions::RTS => {
            let s1 = pull_pc(c, b);
            ok3(Cpu { pc: u16_specs::wrapping_add(s1.0.pc, 1), ..s1.0 }, s1.1, p)
        },
        Instructions::LDA => ok3(Cpu { a: tv, z: tv == 0, n: tv >= 128, ..c }, b, p),
        Instructions::LDX => ok3(Cpu { x: tv, z: tv == 0, n: tv >= 128, ..c }, b, p),
        Instructions::LDY => ok3(Cpu { y: tv, z: tv == 0, n: tv >= 128, ..c }, b, p),
        Instructions::NOP => ok3(c, b, p),
        Instructions::PHA => {
            let s1 = push1(c, b, c.a);
            ok3(s1.0, s1.1, p)
        },
        Instructions::PLA => {
            let s1 = pull1(c, b);
            ok3(Cpu { a: s1.1, z: s1.1 == 0, n: s1.1 >= 128, ..s1.0 }, s1.2, p)
        },
        Instructions::PHP => {
            let s1 = php_model(c, b);
            ok3(s1.0, s1.1, p)
        },
        Instructions::PLP => {
            let s1 = plp_model(c, b);
            ok3(s1.0, s1.1, p)
        },
        Instructions::RTI => {
            let s1 = plp_model(c, b);
            let s2 = pull_pc(s1.0, s1.1);
            ok3(s2.0, s2.1, p)
        },
        Instructions::STA => {
            let w = regs_write_model(b, p, target, c.a);
            Stepped { ok: w.2, cpu: c, bus: w.0, ppu: w.1 }
        },
        Instructions::STX => {
            let w = regs_write_model(b, p, target, c.x);
            Stepped { ok: w.2, cpu: c, bus: w.0, ppu: w.1 }
        },
        Instructions::STY => {
            let w = regs_write_model(b, p, target, c.y);
            Stepped { ok: w.2, cpu: c, bus: w.0, ppu: w.1 }
        },
        Instructions::TAX => ok3(Cpu { x: c.a, z: c.a == 0, n: c.a >= 128, ..c }, b, p),
        Instructions::TSX => {
            let r = c.stack_pointer;
            ok3(Cpu { x: r, z: r == 0, n: r >= 128, ..c }, b, p)
        },
        Instructions::TXA => ok3(Cpu { a: c.x, z: c.x == 0, n: c.x >= 128, ..c }, b, p),
        Instructions::TYA => ok3(Cpu { a: c.y, z: c.y == 0, n: c.y >= 128, ..c }, b, p),
        Instructions::TAY => ok3(Cpu { y: c.a, z: c.a == 0, n: c.a >= 128, ..c }, b, p),
        Instructions::TXS => ok3(Cpu { stack_pointer: c.x, ..c }, b, p),
    }
}

/// The whole execute phase: resolve the address, read the operand, apply
/// the instruction.
#[verifier::opaque]
pub open spec fn exec_model(c: Cpu, b: BusM, p: PpuM) -> Stepped {
    let rsv = resolve(c, b);
    let c1 = Cpu { pc: rsv.pc, ..c };
    let tv = rd_val(rsv.bus, rsv.target);
    let b1 = rd_bus(rsv.bus, rsv.target);
    instr_model(c1, b1, p, rsv.target, tv)
}

impl Cpu {
    /// Looks the fetched byte up in the opcode table, latching the pending
    /// instruction registers; hands back the base cycle count and the
    /// penalty rule of the table row.
    #[verifier::rlimit(100)]
    #[verifier::spinoff_prover]
    fn decode_exec(&mut self, opcode: u8) -> (r: Option<(u8, Pen)>)
        ensures
            decode(opcode) matches Option::None ==> r matches Option::None && *final(self)
                == *old(self),
            decode(opcode) matches Option::Some(d) ==> r == Option::Some((d.base, d.pen))
                && *final(self) == (Cpu { instr: d.instr, addr: d.mode, ..*old(self) }),
            r matches Option::Some(bp) ==> 2 <= bp.0 <= 7 && (bp.1 == Pen::Branch ==> bp.0
                == 2),
    {
        match opcode {
            0x00 => { self.instr = Instructions::BRK; self.addr = Addressing::IMP; Some((7, Pen::Fixed)) },
            0x01 => { self.instr = Instructions::ORA; self.addr = Addressing::IDX; Some((6, Pen::Fixed)) },
            0x05 => { self.instr = Instructions::ORA; self.addr = Addressing::ZPG; Some((3, Pen::Fixed)) },
            0x06 => { self.instr = Instructions::ASL; self.addr = Addressing::ZPG; Some((5, Pen::Fixed)) },
            0x08 => { self.instr = Instructions::PHP; self.addr = Addressing::IMP; Some((3, Pen::Fixed)) },
            0x09 => { self.instr = Instructions::ORA; self.addr = Addressing::IMM; Some((2, Pen::Fixed)) },
            0x0A => { self.instr = Instructions::ASL; self.addr = Addressing::ACC; Some((2, Pen::Fixed)) },
            0x0D => { self.instr = Instructions::ORA; self.addr = Addressing::ABS; Some((4, Pen::Fixed)) },
            0x0E => { self.instr = Instructions::ASL; self.addr = Addressing::ABS; Some((6, Pen::Fixed)) },
            0x10 => { self.instr = Instructions::BPL; self.addr = Addressing::REL; Some((2, Pen::Branch)) },
            0x11 => { self.instr = Instructions::ORA; self.addr = Addressing::IDY; Some((5, Pen::CrossIdy)) },
            0x15 => { self.instr = Instructions::ORA; self.addr = Addressing::ZPX; Some((4, Pen::Fixed)) },
            0x16 => { self.instr = Instructions::ASL; self.addr = Addressing::ZPX; Some((6, Pen::Fixed)) },
            0x18 => { self.instr = Instructions::CLC; self.addr = Addressing::IMP; Some((2, Pen::Fixed)) },
            0x19 => { self.instr = Instructions::ORA; self.addr = Addressing::ABY; Some((4, Pen::CrossY)) },
            0x1D => { self.instr = Instructions::ORA; self.addr = Addressing::ABX; Some((4, Pen::CrossX)) },
            0x1E => { self.instr = Instructions::ASL; self.addr = Addressing::ABX; Some((7, Pen::Fixed)) },
            0x20 => { self.instr = Instructions::JSR; self.addr = Addressing::ABS; Some((6, Pen::Fixed)) },
            0x21 => { self.instr = Instructions::AND; self.addr = Addressing::IDX; Some((6, Pen::Fixed)) },
            0x24 => { self.instr = Instructions::BIT; self.addr = Addressing::ZPG; Some((3, Pen::Fixed)) },
            0x25 => { self.instr = Instructions::AND; self.addr = Addressing::ZPG; Some((3, Pen::Fixed)) },
            0x26 => { self.instr = Instructions::ROL; self.addr = Addressing::ZPG; Some((5, Pen::Fixed)) },
            0x28 => { self.instr = Instructions::PLP; self.addr = Addressing::IMP; Some((4, Pen::Fixed)) },
            0x29 => { self.instr = Instructions::AND; self.addr = Addressing::IMM; Some((2, Pen::Fixed)) },
            0x2A => { self.instr = Instructions::ROL; self.addr = Addressing::ACC; Some((2, Pen::Fixed)) },
            0x2C => { self.instr = Instructions::BIT; self.addr = Addressing::ABS; Some((4, Pen::Fixed)) },
            0x2D => { self.instr = Instructions::AND; self.addr = Addressing::ABS; Some((4, Pen::Fixed)) },
            0x2E => { self.instr = Instructions::ROL; self.addr = Addressing::ABS; Some((6, Pen::Fixed)) },
            0x30 => { self.instr = Instructions::BMI; self.addr = Addressing::REL; Some((2, Pen::Branch)) },
            0x31 => { self.instr = Instructions::AND; self.addr = Addressing::IDY; Some((5, Pen::CrossIdy)) },
            0x35 => { self.instr = Instructions::AND; self.addr = Addressing::ZPX; Some((4, Pen::Fixed)) },
            0x36 => { self.instr = Instructions::ROL; self.addr = Addressing::ZPX; Some((6, Pen::Fixed)) },
            0x38 => { self.instr = Instructions::SEC; self.addr = Addressing::IMP; Some((2, Pen::Fixed)) },
            0x39 => { self.instr = Instructions::AND; self.addr = Addressing::ABY; Some((4, Pen::CrossY)) },
            0x3D => { self.instr = Instructions::AND; self.addr = Addressing::ABX; Some((4, Pen::CrossX)) },
            0x3E => { self.instr = Instructions::ROL; self.addr = Addressing::ABX; Some((7, Pen::Fixed)) },
            0x40 => { self.instr = Instructions::RTI; self.addr = Addressing::IMP; Some((6, Pen::Fixed)) },
            0x41 => { self.instr = Instructions::EOR; self.addr = Addressing::IDX; Some((6, Pen::Fixed)) },
            0x45 => { self.instr = Instructions::EOR; self.addr = Addressing::ZPG; Some((3, Pen::Fixed)) },
            0x46 => { self.instr = Instructions::LSR; self.addr = Addressing::ZPG; Some((5, Pen::Fixed)) },
            0x48 => { self.instr = Instructions::PHA; self.addr = Addressing::IMP; Some((3, Pen::Fixed)) },
            0x49 => { self.instr = Instructions::EOR; self.addr = Addressing::IMM; Some((2, Pen::Fixed)) },
            0x4A => { self.instr = Instructions::LSR; self.addr = Addressing::ACC; Some((2, Pen::Fixed)) },
            0x4C => { self.instr = Instructions::JMP; self.addr = Addressing::ABS; Some((3, Pen::Fixed)) },
            0x4D => { self.instr = Instructions::EOR; self.addr = Addressing::ABS; Some((4, Pen::Fixed)) },
            0x4E => { self.instr = Instructions::LSR; self.addr = Addressing::ABS; Some((6, Pen::Fixed)) },
            0x50 => { self.instr = Instructions::BVC; self.addr = Addressing::REL; Some((2, Pen::Branch)) },
            0x51 => { self.instr = Instructions::EOR; self.addr = Addressing::IDY; Some((5, Pen::CrossIdy)) },
            0x55 => { self.instr = Instructions::EOR; self.addr = Addressing::ZPX; Some((4, Pen::Fixed)) },
            0x56 => { self.instr = Instructions::LSR; self.addr = Addressing::ZPX; Some((6, Pen::Fixed)) },
            0x58 => { self.instr = Instructions::CLI; self.addr = Addressing::IMP; Some((2, Pen::Fixed)) },
            0x59 => { self.instr = Instructions::EOR; self.addr = Addressing::ABY; Some((4, Pen::CrossY)) },
            0x5D => { self.instr = Instructions::EOR; self.addr = Addressing::ABX; Some((4, Pen::CrossX)) },
            0x5E => { self.instr = Instructions::LSR; self.addr = Addressing::ABX; Some((7, Pen::Fixed)) },
            0x60 => { self.instr = Instructions::RTS; self.addr = Addressing::IMP; Some((6, Pen::Fixed)) },
            0x61 => { self.instr = Instructions::ADC; self.addr = Addressing::IDX; Some((6, Pen::Fixed)) },
            0x65 => { self.instr = Instructions::ADC; self.addr = Addressing::ZPG; Some((3, Pen::Fixed)) },
            0x66 => { self.instr = Instructions::ROR; self.addr = Addressing::ZPG; Some((5, Pen::Fixed)) },
            0x68 => { self.instr = Instructions::PLA; self.addr = Addressing::IMP; Some((4, Pen::Fixed)) },
            0x69 => { self.instr = Instructions::ADC; self.addr = Addressing::IMM; Some((2, Pen::Fixed)) },
            0x6A => { self.instr = Instructions::ROR; self.addr = Addressing::ACC; Some((2, Pen::Fixed)) },
            0x6C => { self.instr = Instructions::JMP; self.addr = Addressing::IND; Some((5, Pen::Fixed)) },
            0x6D => { self.instr = Instructions::ADC; self.addr = Addressing::ABS; Some((4, Pen::Fixed)) },
            0x6E => { self.instr = Instructions::ROR; self.addr = Addressing::ABS; Some((6, Pen::Fixed)) },
            0x70 => { self.instr = Instructions::BVS; self.addr = Addressing::REL; Some((2, Pen::Branch)) },
            0x71 => { self.instr = Instructions::ADC; self.addr = Addressing::IDY; Some((5, Pen::CrossIdy)) },
            0x75 => { self.instr = Instructions::ADC; self.addr = Addressing::ZPX; Some((4, Pen::Fixed)) },
            0x76 => { self.instr = Instructions::ROR; self.addr = Addressing::ZPX; Some((6, Pen::Fixed)) },
            0x78 => { self.instr = Instructions::SEI; self.addr = Addressing::IMP; Some((2, Pen::Fixed)) },
            0x79 => { self.instr = Instructions::ADC; self.addr = Addressing::ABY; Some((4, Pen::CrossY)) },
            0x7D => { self.instr = Instructions::ADC; self.addr = Addressing::ABX; Some((4, Pen::CrossX)) },
            0x7E => { self.instr = Instructions::ROR; self.addr = Addressing::ABX; Some((7, Pen::Fixed)) },
            0x81 => { self.instr = Instructions::STA; self.addr = Addressing::IDX; Some((6, Pen::Fixed)) },
            0x84 => { self.instr = Instructions::STY; self.addr = Addressing::ZPG; Some((3, Pen::Fixed)) },
            0x85 => { self.instr = Instructions::STA; self.addr = Addressing::ZPG; Some((3, Pen::Fixed)) },
            0x86 => { self.instr = Instructions::STX; self.addr = Addressing::ZPG; Some((3, Pen::Fixed)) },
            0x88 => { self.instr = Instructions::DEY; self.addr = Addressing::IMP; Some((2, Pen::Fixed)) },
            0x8A => { self.instr = Instructions::TXA; self.addr = Addressing::IMP; Some((2, Pen::Fixed)) },
            0x8C => { self.instr = Instructions::STY; self.addr = Addressing::ABS; Some((4, Pen::Fixed)) },
            0x8D => { self.instr = Instructions::STA; self.addr = Addressing::ABS; Some((4, Pen::Fixed)) },
            0x8E => { self.instr = Instructions::STX; self.addr = Addressing::ABS; Some((4, Pen::Fixed)) },
            0x90 => { self.instr = Instructions::BCC; self.addr = Addressing::REL; Some((2, Pen::Branch)) },
            0x91 => { self.instr = Instructions::STA; self.addr = Addressing::IDY; Some((6, Pen::Fixed)) },
            0x94 => { self.instr = Instructions::STY; self.addr = Addressing::ZPX; Some((4, Pen::Fixed)) },
            0x95 => { self.instr = Instructions::STA; self.addr = Addressing::ZPX; Some((4, Pen::Fixed)) },
            0x96 => { self.instr = Instructions::STX; self.addr = Addressing::ZPY; Some((4, Pen::Fixed)) },
            0x98 => { self.instr = Instructions::TYA; self.addr = Addressing::IMP; Some((2, Pen::Fixed)) },
            0x99 => { self.instr = Instructions::STA; self.addr = Addressing::ABY; Some((5, Pen::Fixed)) },
            0x9A => { self.instr = Instructions::TXS; self.addr = Addressing::IMP; Some((2, Pen::Fixed)) },
            0x9D => { self.instr = Instructions::STA; self.addr = Addressing::ABX; Some((5, Pen::Fixed)) },
            0xA0 => { self.instr = Instructions::LDY; self.addr = Addressing::IMM; Some((2, Pen::Fixed)) },
            0xA1 => { self.instr = Instructions::LDA; self.addr = Addressing::IDX; Some((6, Pen::Fixed)) },
            0xA2 => { self.instr = Instructions::LDX; self.addr = Addressing::IMM; Some((2, Pen::Fixed)) },
            0xA4 => { self.instr = Instructions::LDY; self.addr = Addressing::ZPG; Some((3, Pen::Fixed)) },
            0xA5 => { self.instr = Instructions::LDA; self.addr = Addressing::ZPG; Some((3, Pen::Fixed)) },
            0xA6 => { self.instr = Instructions::LDX; self.addr = Addressing::ZPG; Some((3, Pen::Fixed)) },
            0xA8 => { self.instr = Instructions::TAY; self.addr = Addressing::IMP; Some((2, Pen::Fixed)) },
            0xA9 => { self.instr = Instructions::LDA; self.addr = Addressing::IMM; Some((2, Pen::Fixed)) },
            0xAA => { self.instr = Instructions::TAX; self.addr = Addressing::IMP; Some((2, Pen::Fixed)) },
            0xAC => { self.instr = Instructions::LDY; self.addr = Addressing::ABS; Some((4, Pen::Fixed)) },
            0xAD => { self.instr = Instructions::LDA; self.addr = Addressing::ABS; Some((4, Pen::Fixed)) },
            0xAE => { self.instr = Instructions::LDX; self.addr = Addressing::ABS; Some((4, Pen::Fixed)) },
            0xB0 => { self.instr = Instructions::BCS; self.addr = Addressing::REL; Some((2, Pen::Branch)) },
            0xB1 => { self.instr = Instructions::LDA; self.addr = Addressing::IDY; Some((5, Pen::CrossIdy)) },
            0xB4 => { self.instr = Instructions::LDY; self.addr = Addressing::ZPX; Some((4, Pen::Fixed)) },
            0xB5 => { self.instr = Instructions::LDA; self.addr = Addressing::ZPX; Some((4, Pen::Fixed)) },
            0xB6 => { self.instr = Instructions::LDX; self.addr = Addressing::ZPY; Some((4, Pen::Fixed)) },
            0xB8 => { self.instr = Instructions::CLV; self.addr = Addressing::IMP; Some((2, Pen::Fixed)) },
            0xB9 => { self.instr = Instructions::LDA; self.addr = Addressing::ABY; Some((4, Pen::CrossY)) },
            0xBA => { self.instr = Instructions::TSX; self.addr = Addressing::IMP; Some((2, Pen::Fixed)) },
            0xBC => { self.instr = Instructions::LDY; self.addr = Addressing::ABX; Some((4, Pen::CrossX)) },
            0xBD => { self.instr = Instructions::LDA; self.addr = Addressing::ABX; Some((4, Pen::CrossX)) },
            0xBE => { self.instr = Instructions::LDX; self.addr = Addressing::ABY; Some((4, Pen::CrossY)) },
            0xC0 => { self.instr = Instructions::CPY; self.addr = Addressing::IMM; Some((2, Pen::Fixed)) },
            0xC1 => { self.instr = Instructions::CMP; self.addr = Addressing::IDX; Some((6, Pen::Fixed)) },
            0xC4 => { self.instr = Instructions::CPY; self.addr = Addressing::ZPG; Some((3, Pen::Fixed)) },
            0xC5 => { self.instr = Instructions::CMP; self.addr = Addressing::ZPG; Some((3, Pen::Fixed)) },
            0xC6 => { self.instr = Instructions::DEC; self.addr = Addressing::ZPG; Some((5, Pen::Fixed)) },
            0xC8 => { self.instr = Instructions::INY; self.addr = Addressing::IMP; Some((2, Pen::Fixed)) },
            0xC9 => { self.instr = Instructions::CMP; self.addr = Addressing::IMM; Some((2, Pen::Fixed)) },
            0xCA => { self.instr = Instructions::DEX; self.addr = Addressing::IMP; Some((2, Pen::Fixed)) },
            0xCC => { self.instr = Instructions::CPY; self.addr = Addressing::ABS; Some((4, Pen::Fixed)) },
            0xCD => { self.instr = Instructions::CMP; self.addr = Addressing::ABS; Some((4, Pen::Fixed)) },
            0xCE => { self.instr = Instructions::DEC; self.addr = Addressing::ABS; Some((6, Pen::Fixed)) },
            0xD0 => { self.instr = Instructions::BNE; self.addr = Addressing::REL; Some((2, Pen::Branch)) },
            0xD1 => { self.instr = Instructions::CMP; self.addr = Addressing::IDY; Some((5, Pen::CrossIdy)) },
            0xD5 => { self.instr = Instructions::CMP; self.addr = Addressing::ZPX; Some((4, Pen::Fixed)) },
            0xD6 => { self.instr = Instructions::DEC; self.addr = Addressing::ZPX; Some((6, Pen::Fixed)) },
            0xD8 => { self.instr = Instructions::CLD; self.addr = Addressing::IMP; Some((2, Pen::Fixed)) },
            0xD9 => { self.instr = Instructions::CMP; self.addr = Addressing::ABY; Some((4, Pen::CrossY)) },
            0xDD => { self.instr = Instructions::CMP; self.addr = Addressing::ABX; Some((4, Pen::CrossX)) },
            0xDE => { self.instr = Instructions::DEC; self.addr = Addressing::ABX; Some((7, Pen::Fixed)) },
            0xE0 => { self.instr = Instructions::CPX; self.addr = Addressing::IMM; Some((2, Pen::Fixed)) },
            0xE1 => { self.instr = Instructions::SBC; self.addr = Addressing::IDX; Some((6, Pen::Fixed)) },
            0xE4 => { self.instr = Instructions::CPX; self.addr = Addressing::ZPG; Some((3, Pen::Fixed)) },
            0xE5 => { self.instr = Instructions::SBC; self.addr = Addressing::ZPG; Some((3, Pen::Fixed)) },
            0xE6 => { self.instr = Instructions::INC; self.addr = Addressing::ZPG; Some((5, Pen::Fixed)) },
            0xE8 => { self.instr = Instructions::INX; self.addr = Addressing::IMP; Some((2, Pen::Fixed)) },
            0xE9 => { self.instr = Instructions::SBC; self.addr = Addressing::IMM; Some((2, Pen::Fixed)) },
            0xEA => { self.instr = Instructions::NOP; self.addr = Addressing::IMP; Some((2, Pen::Fixed)) },
            0xEC => { self.instr = Instructions::CPX; self.addr = Addressing::ABS; Some((4, Pen::Fixed)) },
            0xED => { self.instr = Instructions::SBC; self.addr = Addressing::ABS; Some((4, Pen::Fixed)) },
            0xEE => { self.instr = Instructions::INC; self.addr = Addressing::ABS; Some((6, Pen::Fixed)) },
            0xF0 => { self.instr = Instructions::BEQ; self.addr = Addressing::REL; Some((2, Pen::Branch)) },
            0xF1 => { self.instr = Instructions::SBC; self.addr = Addressing::IDY; Some((5, Pen::CrossIdy)) },
            0xF5 => { self.instr = Instructions::SBC; self.addr = Addressing::ZPX; Some((4, Pen::Fixed)) },
            0xF6 => { self.instr = Instructions::INC; self.addr = Addressing::ZPX; Some((6, Pen::Fixed)) },
            0xF8 => { self.instr = Instructions::SED; self.addr = Addressing::IMP; Some((2, Pen::Fixed)) },
            0xF9 => { self.instr = Instructions::SBC; self.addr = Addressing::ABY; Some((4, Pen::CrossY)) },
            0xFD => { self.instr = Instructions::SBC; self.addr = Addressing::ABX; Some((4, Pen::CrossX)) },
            0xFE => { self.instr = Instructions::INC; self.addr = Addressing::ABX; Some((7, Pen::Fixed)) },
            _ => None,
        }
    }

    /// The decode phase: fetches and decodes the byte at the program
    /// counter and returns the instruction's full cycle price, page-cross
    /// and branch-taken penalties included. An unofficial opcode is fatal.
    #[verifier::rlimit(50)]
    pub fn load_instruction(&mut self, bus: &mut Bus) -> (r: Result<u8, EmuError>)
        requires
            old(bus)@.wf(),
        ensures
            final(bus)@.wf(),
            ({
                let l = load_model(*old(self), old(bus)@);
                &&& *final(self) == l.cpu
                &&& final(bus)@ == l.bus
                &&& (r matches Ok(cy) ==> l.known && cy == l.cycles)
                &&& (r matches Err(e) ==> !l.known && e == EmuError::UnknownOpcode(l.opcode))
            }),
            r matches Ok(cy) ==> 2 <= cy <= 9,
    {
        proof {
            reveal(load_model);
        }
        let cycles: u8;
        let opcode = bus.cpu_read_16(self.pc);
        let base: u8;
        let pen: Pen;
        match self.decode_exec(opcode) {
            Some(bp) => {
                base = bp.0;
                pen = bp.1;
            },
            None => {
                return Err(EmuError::UnknownOpcode(opcode));
            },
        }
        match pen {
            Pen::Fixed => {
                cycles = base;
            },
            Pen::CrossX => {
                cycles = base + bus.cross_abs(self.pc, self.x);
            },
            Pen::CrossY => {
                cycles = base + bus.cross_abs(self.pc, self.y);
            },
            Pen::CrossIdy => {
                cycles = base + bus.cross_idy(self.pc, self.y);
            },
            Pen::Branch => {
                let taken = match self.instr {
                    Instructions::BCC => !self.c,
                    Instructions::BCS => self.c,
                    Instructions::BEQ => self.z,
                    Instructions::BMI => self.n,
                    Instructions::BNE => !self.z,
                    Instructions::BPL => !self.n,
                    Instructions::BVC => !self.o,
                    Instructions::BVS => self.o,
                    _ => false,
                };
                cycles = if !taken {
                    2
                } else {
                    3 + bus.cross_rel(self.pc)
                };
            },
        }
        Ok(cycles)
    }

    /// Resolves the pending addressing mode: advances the program counter
    /// by the instruction's length and computes the target address, with
    /// the hardware's wraparound quirks.
    #[verifier::rlimit(100)]
    #[verifier::spinoff_prover]
    fn resolve_exec(&mut self, bus: &mut Bus) -> (target: u16)
        requires
            old(bus)@.wf(),
        ensures
            final(bus)@.wf(),
            *final(self) == (Cpu { pc: resolve(*old(self), old(bus)@).pc, ..*old(self) }),
            target == resolve(*old(self), old(bus)@).target,
            final(bus)@ == resolve(*old(self), old(bus)@).bus,
    {
        let target_addr: u16;
        match self.addr {
            Addressing::IMP | Addressing::ACC => {
                self.pc = self.pc.wrapping_add(1);
                target_addr = 0;
            },
            Addressing::IMM | Addressing::REL => {
                self.pc = self.pc.wrapping_add(2);
                target_addr = self.pc.wrapping_sub(1);
            },
            Addressing::ZPG => {
                self.pc = self.pc.wrapping_add(2);
                target_addr = bus.read_single(self.pc) as u16;
            },
            Addressing::ZPX => {
                self.pc = self.pc.wrapping_add(2);
                target_addr = bus.read_single(self.pc).wrapping_add(self.x) as u16;
            },
            Addressing::ZPY => {
                self.pc = self.pc.wrapping_add(2);
                target_addr = bus.read_single(self.pc).wrapping_add(self.y) as u16;
            },
            Addressing::ABS => {
                self.pc = self.pc.wrapping_add(3);
                target_addr = bus.read_double(self.pc);
            },
            Addressing::ABX => {
                self.pc = self.pc.wrapping_add(3);
                target_addr = bus.read_double(self.pc).wrapping_add(self.x as u16);
            },
            Addressing::ABY => {
                self.pc = self.pc.wrapping_add(3);
                target_addr = bus.read_double(self.pc).wrapping_add(self.y as u16);
            },
            Addressing::IDX => {
                self.pc = self.pc.wrapping_add(2);
                let inline_addr = bus.read_single(self.pc).wrapping_add(self.x);
                let low = bus.cpu_read_8(inline_addr);
                let high = bus.cpu_read_8(inline_addr.wrapping_add(1));
                target_addr = combine_low_high(low, high);
            },
            Addressing::IDY => {
                self.pc = self.pc.wrapping_add(2);
                let inline_addr = bus.read_single(self.pc);
                let low = bus.cpu_read_8(inline_addr);
                let high = bus.cpu_read_8(inline_addr.wrapping_add(1));
                target_addr = combine_low_high(low, high).wrapping_add(self.y as u16);
            },
            Addressing::IND => {
                proof {
                    lemma_bit_basics();
                }
                self.pc = self.pc.wrapping_add(3);
                let inline_addr = bus.read_double(self.pc);
                let low = bus.cpu_read_16(inline_addr);
                // Increment the pointer's low byte only: the hardware's
                // page-wrap quirk.
                let high_addr = (((inline_addr & 0xFF) as u8).wrapping_add(1) as u16) | (
                inline_addr & 0xFF00);
                let high = bus.cpu_read_16(high_addr);
                target_addr = combine_low_high(low, high);
            },
        }
        target_addr
    }

    /// The register-file instructions: arithmetic, logic, compares, loads,
    /// transfers, flag writes and branches. None of them touches the bus.
    #[verifier::rlimit(100)]
    #[verifier::spinoff_prover]
    fn apply_reg_instr(&mut self, target_addr: u16, target_val: u8)
        requires
            matches!(
                old(self).instr,
                Instructions::ADC | Instructions::SBC | Instructions::AND | Instructions::ORA
                    | Instructions::EOR | Instructions::BCC | Instructions::BCS
                    | Instructions::BEQ | Instructions::BMI | Instructions::BNE
                    | Instructions::BPL | Instructions::BVC | Instructions::BVS
                    | Instructions::BIT | Instructions::CLC | Instructions::CLD
                    | Instructions::CLI | Instructions::CLV | Instructions::SEC
                    | Instructions::SED | Instructions::SEI | Instructions::CMP
                    | Instructions::CPX | Instructions::CPY | Instructions::DEX
                    | Instructions::DEY | Instructions::INX | Instructions::INY
                    | Instructions::LDA | Instructions::LDX | Instructions::LDY
                    | Instructions::NOP | Instructions::TAX | Instructions::TAY
                    | Instructions::TSX | Instructions::TXA | Instructions::TYA
                    | Instructions::TXS
            ),
        ensures
            forall|bm: BusM, pm: PpuM|
                {
                    let s = #[trigger] instr_model(*old(self), bm, pm, target_addr, target_val);
                    s.ok && *final(self) == s.cpu && s.bus == bm && s.ppu == pm
                },
    {
        match self.instr {
            Instructions::ADC => {
                let cin: u8 = if self.c {
                    1
                } else {
                    0
                };
                self.ADC(target_val, cin);
            },
            Instructions::SBC => {
                let cin: u8 = if self.c {
                    1
                } else {
                    0
                };
                self.ADC(!target_val, cin);
            },
            Instructions::AND => {
                self.a = crate::util::u8_and(self.a, target_val);
                let r = self.a;
                self.flag_zero_from_val(r);
                self.flag_negative_from_val(r);
            },
            Instructions::ORA => {
                self.a = crate::util::u8_or(self.a, target_val);
                let r = self.a;
                self.flag_zero_from_val(r);
                self.flag_negative_from_val(r);
            },
            Instructions::EOR => {
                self.a = crate::util::u8_xor(self.a, target_val);
                let r = self.a;
                self.flag_zero_from_val(r);
                self.flag_negative_from_val(r);
            },
            Instructions::BCC | Instructions::BCS | Instructions::BEQ | Instructions::BMI
                | Instructions::BNE | Instructions::BPL | Instructions::BVC
                | Instructions::BVS => {
                let can_branch = match self.instr {
                    Instructions::BCC => !self.c,
                    Instructions::BCS => self.c,
                    Instructions::BEQ => self.z,
                    Instructions::BMI => self.n,
                    Instructions::BNE => !self.z,
                    Instructions::BPL => !self.n,
                    Instructions::BVC => !self.o,
                    _ => self.o,
                };
                if can_branch {
                    let offset: i16 = if target_val >= 128 {
                        target_val as i16 - 256
                    } else {
                        target_val as i16
                    };
                    self.pc = self.pc.wrapping_add_signed(offset);
                }
            },
            Instructions::BIT => {
                let res = crate::util::u8_and(target_val, self.a);
                self.flag_zero_from_val(res);
                self.flag_negative_from_val(target_val);
                let bit6 = get_u8_bit(target_val, 6);
                self.flag_overflow(bit6 == 1);
            },
            Instructions::CLC => self.flag_carry(false),
            Instructions::CLD => self.flag_decimal(false),
            Instructions::CLI => self.flag_interrupt(false),
            Instructions::CLV => self.flag_overflow(false),
            Instructions::SEC => self.flag_carry(true),
            Instructions::SED => self.flag_decimal(true),
            Instructions::SEI => self.flag_interrupt(true),
            Instructions::CMP | Instructions::CPX | Instructions::CPY => {
                let reg = if self.instr == Instructions::CMP {
                    self.a
                } else if self.instr == Instructions::CPX {
                    self.x
                } else {
                    self.y
                };
                self.flag_negative_from_val(reg.wrapping_sub(target_val));
                self.flag_zero(reg == target_val);
                self.flag_carry(reg >= target_val);
            },
            Instructions::LDA | Instructions::LDX | Instructions::LDY => {
                if self.instr == Instructions::LDA {
                    self.a = target_val;
                } else if self.instr == Instructions::LDX {
                    self.x = target_val;
                } else {
                    self.y = target_val;
                }
                self.flag_zero_from_val(target_val);
                self.flag_negative_from_val(target_val);
            },
            Instructions::NOP => (),
            Instructions::TAX | Instructions::TSX => {
                self.x = if self.instr == Instructions::TAX {
                    self.a
                } else {
                    self.stack_pointer
                };
                let r = self.x;
                self.flag_zero_from_val(r);
                self.flag_negative_from_val(r);
            },
            Instructions::TXA | Instructions::TYA => {
                self.a = if self.instr == Instructions::TXA {
                    self.x
                } else {
                    self.y
                };
                let r = self.a;
                self.flag_zero_from_val(r);
                self.flag_negative_from_val(r);
            },
            Instructions::TAY => {
                self.y = self.a;
                let r = self.y;
                self.flag_zero_from_val(r);
                self.flag_negative_from_val(r);
            },
            Instructions::TXS => {
                self.stack_pointer = self.x;
            },
            Instructions::DEX | Instructions::DEY | Instructions::INX | Instructions::INY => {
                let res = if self.instr == Instructions::DEX {
                    self.DEX()
                } else if self.instr == Instructions::DEY {
                    self.DEY()
                } else if self.instr == Instructions::INX {
                    self.INX()
                } else {
                    self.INY()
                };
                self.flag_negative_from_val(res);
                self.flag_zero_from_val(res);
            },
            _ => (),
        }
    }

    /// The stack, jump and memory inc/dec instructions: they read and write
    /// plain bus addresses, never the picture unit's registers.
    #[verifier::rlimit(100)]
    #[verifier::spinoff_prover]
    fn apply_stack_instr(&mut self, bus: &mut Bus, target_addr: u16, target_val: u8)
        requires
            old(bus)@.wf(),
            matches!(
                old(self).instr,
                Instructions::BRK | Instructions::JMP | Instructions::JSR | Instructions::RTS
                    | Instructions::PHA | Instructions::PLA | Instructions::PHP
                    | Instructions::PLP | Instructions::RTI | Instructions::DEC
                    | Instructions::INC
            ),
        ensures
            final(bus)@.wf(),
            forall|pm: PpuM|
                {
                    let s = #[trigger] instr_model(
                        *old(self),
                        old(bus)@,
                        pm,
                        target_addr,
                        target_val,
                    );
                    s.ok && *final(self) == s.cpu && final(bus)@ == s.bus && s.ppu == pm
                },
    {
        match self.instr {
            Instructions::BRK => {
                self.stack_push_pc(bus);
                self.PHP(bus);
                self.flag_interrupt(true);
                self.BRK(bus);
            },
            Instructions::DEC | Instructions::INC => {
                let res = if self.instr == Instructions::DEC {
                    bus.DEC(target_addr)
                } else {
                    bus.INC(target_addr)
                };
                self.flag_negative_from_val(res);
                self.flag_zero_from_val(res);
            },
            Instructions::JMP | Instructions::JSR => {
                if self.instr == Instructions::JSR {
                    self.pc = self.pc.wrapping_sub(1);
                    self.stack_push_pc(bus);
                }
                self.pc = target_addr;
            },
            Instructions::RTS => {
                self.stack_pull_pc(bus);
                self.pc = self.pc.wrapping_add(1);
            },
            Instructions::PHA => {
                let a = self.a;
                self.stack_push(a, bus);
            },
            Instructions::PLA => {
                self.a = self.stack_pull(bus);
                let r = self.a;
                self.flag_zero_from_val(r);
                self.flag_negative_from_val(r);
            },
            Instructions::PHP => {
                self.PHP(bus);
            },
            Instructions::PLP => {
                self.PLP(bus);
            },
            Instructions::RTI => {
                self.PLP(bus);
                self.stack_pull_pc(bus);
            },
            _ => (),
        }
    }

    /// The shift/rotate and store instructions: their writes go through the
    /// register-aware store path and can reach the picture unit.
    #[verifier::rlimit(100)]
    #[verifier::spinoff_prover]
    fn apply_mem_instr(&mut self, bus: &mut Bus, ppu: &mut Ppu, target_addr: u16, target_val: u8)
        -> (r: Result<(), EmuError>)
        requires
            old(bus)@.wf(),
            old(ppu)@.wf(),
            matches!(
                old(self).instr,
                Instructions::ASL | Instructions::LSR | Instructions::ROL | Instructions::ROR
                    | Instructions::STA | Instructions::STX | Instructions::STY
            ),
        ensures
            final(bus)@.wf(),
            final(ppu)@.wf(),
            ({
                let s = instr_model(*old(self), old(bus)@, old(ppu)@, target_addr, target_val);
                &&& *final(self) == s.cpu
                &&& final(bus)@ == s.bus
                &&& final(ppu)@ == s.ppu
                &&& (r matches Ok(u) ==> s.ok)
                &&& (r matches Err(e) ==> !s.ok && e == EmuError::VramAddrOutOfRange)
            }),
    {
        match self.instr {
            Instructions::ASL | Instructions::LSR | Instructions::ROL | Instructions::ROR => {
                let left = self.instr == Instructions::ASL || self.instr == Instructions::ROL;
                let mut val: u8 = if self.addr == Addressing::ACC {
                    self.a
                } else {
                    target_val
                };
                let bit_test: u8 = if left {
                    0x80
                } else {
                    0x01
                };
                let new_carry = val & bit_test == bit_test;
                let carry: u8 = if self.instr == Instructions::ROL {
                    if self.c {
                        1
                    } else {
                        0
                    }
                } else if self.instr == Instructions::ROR {
                    (if self.c {
                        1u8
                    } else {
                        0u8
                    }) << 7
                } else {
                    0
                };
                val = (if left {
                    crate::util::u8_shl(val)
                } else {
                    crate::util::u8_shr(val)
                }) | carry;
                self.flag_zero_from_val(val);
                self.flag_negative_from_val(val);
                self.flag_carry(new_carry);
                if self.addr == Addressing::ACC {
                    self.a = val;
                } else {
                    match bus.cpu_write_16_ppu_regs(target_addr, val, ppu) {
                        Ok(u) => u,
                        Err(e) => {
                            return Err(e);
                        },
                    }
                }
            },
            Instructions::STA => {
                let v = self.a;
                match bus.cpu_write_16_ppu_regs(target_addr, v, ppu) {
                    Ok(u) => u,
                    Err(e) => {
                        return Err(e);
                    },
                }
            },
            Instructions::STX => {
                let v = self.x;
                match bus.cpu_write_16_ppu_regs(target_addr, v, ppu) {
                    Ok(u) => u,
                    Err(e) => {
                        return Err(e);
                    },
                }
            },
            Instructions::STY => {
                let v = self.y;
                match bus.cpu_write_16_ppu_regs(target_addr, v, ppu) {
                    Ok(u) => u,
                    Err(e) => {
                        return Err(e);
                    },
                }
            },
            _ => (),
        }
        Ok(())
    }

    /// Applies the pending instruction to the resolved target: reads the
    /// operand, performs the operation, updates the flags.
    fn apply_instr(&mut self, bus: &mut Bus, ppu: &mut Ppu, target_addr: u16) -> (r: Result<
        (),
        EmuError,
    >)
        requires
            old(bus)@.wf(),
            old(ppu)@.wf(),
        ensures
            final(bus)@.wf(),
            final(ppu)@.wf(),
            ({
                let tv = rd_val(old(bus)@, target_addr);
                let b1 = rd_bus(old(bus)@, target_addr);
                let s = instr_model(*old(self), b1, old(ppu)@, target_addr, tv);
                &&& *final(self) == s.cpu
                &&& final(bus)@ == s.bus
                &&& final(ppu)@ == s.ppu
                &&& (r matches Ok(u) ==> s.ok)
                &&& (r matches Err(e) ==> !s.ok && e == EmuError::VramAddrOutOfRange)
            }),
    {
        let target_val = bus.cpu_read_16(target_addr);
        match self.instr {
            Instructions::ASL | Instructions::LSR | Instructions::ROL | Instructions::ROR
                | Instructions::STA | Instructions::STX | Instructions::STY => {
                return self.apply_mem_instr(bus, ppu, target_addr, target_val);
            },
            Instructions::BRK | Instructions::JMP | Instructions::JSR | Instructions::RTS
                | Instructions::PHA | Instructions::PLA | Instructions::PHP | Instructions::PLP
                | Instructions::RTI | Instructions::DEC | Instructions::INC => {
                self.apply_stack_instr(bus, target_addr, target_val);
            },
            _ => {
                self.apply_reg_instr(target_addr, target_val);
            },
        }
        Ok(())
    }

    /// The execute phase: resolves the pending instruction's addressing
    /// mode, reads its operand, applies its effects and advances the
    /// program counter. Fails only when a store lands on the picture unit's
    /// DATA port while the VRAM latch is out of range.
    pub fn execute_instruction(&mut self, bus: &mut Bus, ppu: &mut Ppu) -> (r: Result<
        (),
        EmuError,
    >)
        requires
            old(bus)@.wf(),
            old(ppu)@.wf(),
        ensures
            final(bus)@.wf(),
            final(ppu)@.wf(),
            ({
                let s = exec_model(*old(self), old(bus)@, old(ppu)@);
                &&& *final(self) == s.cpu
                &&& final(bus)@ == s.bus
                &&& final(ppu)@ == s.ppu
                &&& (r matches Ok(u) ==> s.ok)
                &&& (r matches Err(e) ==> !s.ok && e == EmuError::VramAddrOutOfRange)
            }),
    {
        proof {
            reveal(exec_model);
        }
        let target_addr = self.resolve_exec(bus);
        self.apply_instr(bus, ppu, target_addr)
    }
}

} // verus!
