//! The laws the emulator core obeys, stated over the machine models and
//! proved once and for all: flag-byte invariants, scan ordering, VBlank
//! discipline, register-window mirroring, arithmetic and stack round
//! trips, addressing-mode boundary behaviour, branch pricing, and the
//! scheduler's effects-on-final-tick discipline.

use vstd::prelude::*;
use vstd::wrapping::{u16_specs, u8_specs};

use crate::bus::{
    cross_rel_model, mirror_reg, rd_bus, rd_double, rd_single, rd_val, wr_bus, BusM,
};
use crate::cpu::{
    adc_carry, bool_u8, branch_cond, cpu_adc, decode, flags_byte, load_model, php_model, pull1,
    push1, push_pc, resolve, sp_addr, Addressing, Cpu, Decoded, Pen,
};
use crate::nes::{step_engine, step_model, NesM};
use crate::ppu::{
    advance_model, eval_sprites_model, events_model, prune_sprites_model, render_dot_model,
    scan_sprites_model, sprite_pass_model, sprite_step, status_byte, tick_model,
    write_addr_model, write_data_model, PpuM, Status, regs_write_model,
};
use crate::util::{combine16, spec_set_u8_bit, INPUT, STATUS};

verus! {

// --------------- STATUS BYTE AND PUSH SOURCE --------------------

/// The status byte's unused bit 5 always reads as 1 and its break
/// position is written as 0; the byte PHP and BRK push carries the break
/// bit set, while the byte an interrupt pushes carries it clear.
pub proof fn lemma_break_reflects_push_source(c: Cpu, b: BusM)
    ensures
        flags_byte(c) >> 5 & 0x01 == 1,
        flags_byte(c) >> 4 & 0x01 == 0,
        spec_set_u8_bit(flags_byte(c), 4, 1) >> 4 & 0x01 == 1,
        spec_set_u8_bit(flags_byte(c), 4, 1) >> 5 & 0x01 == 1,
        php_model(c, b).1 == wr_bus(
            b,
            sp_addr(c.stack_pointer),
            spec_set_u8_bit(flags_byte(c), 4, 1),
        ),
        flags_byte(push_pc(c, b).0) == flags_byte(c),
{
    let n = bool_u8(c.n);
    let o = bool_u8(c.o);
    let d = bool_u8(c.d);
    let i = bool_u8(c.i);
    let z = bool_u8(c.z);
    let cc = bool_u8(c.c);
    let fb = flags_byte(c);
    assert(fb == (n << 7 | o << 6 | 1u8 << 5 | 0u8 << 4 | d << 3 | i << 2 | z << 1 | cc));
    assert((fb >> 5 & 0x01 == 1) && (fb >> 4 & 0x01 == 0) && ((fb | (1u8 << 4)) >> 4 & 0x01 == 1)
        && ((fb | (1u8 << 4)) >> 5 & 0x01 == 1)) by (bit_vector)
        requires
            fb == (n << 7 | o << 6 | 1u8 << 5 | 0u8 << 4 | d << 3 | i << 2 | z << 1 | cc),
            n <= 1 && o <= 1 && d <= 1 && i <= 1 && z <= 1 && cc <= 1,
    ;
    assert(spec_set_u8_bit(fb, 4, 1) == (fb | (1u8 << 4)));
}

// --------------- REGISTER-WINDOW MIRROR --------------------

/// Every CPU store into the picture unit's register window first
/// normalizes its address by the mod-8 mirror, and the raw byte lands at
/// the mirrored register.
pub proof fn lemma_reg_write_mirrors(b: BusM, p: PpuM, addr: u16, val: u8)
    requires
        0x2000 <= addr && addr < 0x4000,
    ensures
        mirror_reg(addr) == 0x2000 + ((addr - 0x2000) % 8),
        0x2000 <= mirror_reg(addr) <= 0x2007,
        regs_write_model(b, p, addr, val).0.cpu_mem == wr_bus(b, mirror_reg(addr), val).cpu_mem,
{
    if addr < 0x2008 {
        assert((addr - 0x2000) % 8 == addr - 0x2000) by (nonlinear_arith)
            requires
                0 <= addr - 0x2000 < 8,
        ;
    } else {
        assert(0 <= (addr - 0x2000) % 8 < 8) by (nonlinear_arith);
    }
}

// --------------- ADC / SBC ROUND TRIP --------------------

/// Adding an operand with carry and then subtracting the same operand
/// restores the accumulator, up to carry handling: the net change is the
/// incoming carry plus the carry the addition produced, minus one.
pub proof fn lemma_adc_sbc_round_trip(c: Cpu, m: u8)
    ensures
        ({
            let c1 = cpu_adc(c, m, bool_u8(c.c));
            let c2 = cpu_adc(c1, !m, bool_u8(c1.c));
            &&& c2.a as int == (c.a + bool_u8(c.c) + bool_u8(c1.c) + 255) % 256
            &&& (bool_u8(c.c) + bool_u8(c1.c) == 1 ==> c2.a == c.a)
        }),
{
    let a = c.a;
    let ci = bool_u8(c.c);
    let c1 = cpu_adc(c, m, ci);
    let a1 = c1.a;
    let co = bool_u8(c1.c);
    assert(a1 as int == (a + m + ci) % 256);
    assert(c1.c == adc_carry(a, m, ci));
    assert(((a1 + !m + co) % 256) == (a + ci + co + 255) % 256 && (ci + co == 1 ==> ((a1 + !m
        + co) % 256) == a)) by (bit_vector)
        requires
            a1 as int == (a + m + ci) % 256,
            ci <= 1,
            co <= 1,
    ;
    let c2 = cpu_adc(c1, !m, co);
    assert(c2.a as int == (a1 + !m + co) % 256);
}

// --------------- PHA / PLA ROUND TRIP --------------------

/// The stack slot addresses live in page one, away from every
/// side-effecting port.
pub proof fn lemma_sp_addr(sp: u8)
    by (bit_vector)
    ensures
        0x100 <= sp_addr(sp) < 0x200,
{
}

/// A push followed by a pull hands back the pushed byte and leaves the
/// stack pointer where it started.
pub proof fn lemma_pha_pla_round_trip(c: Cpu, b: BusM)
    requires
        b.wf(),
    ensures
        ({
            let s1 = push1(c, b, c.a);
            let s2 = pull1(s1.0, s1.1);
            &&& s2.1 == c.a
            &&& s2.0.stack_pointer == c.stack_pointer
            &&& s2.0.a == c.a
        }),
{
    let s1 = push1(c, b, c.a);
    let s2 = pull1(s1.0, s1.1);
    lemma_sp_addr(c.stack_pointer);
    lemma_sp_addr(s2.0.stack_pointer);
    assert(sp_addr(c.stack_pointer) != INPUT);
    assert(u8_specs::wrapping_add(u8_specs::wrapping_sub(c.stack_pointer, 1), 1)
        == c.stack_pointer);
}

// --------------- ADDR LATCH / DATA ROUND TRIP --------------------

/// Two ADDR writes latch high byte then low byte, and a DATA write then
/// lands the byte at exactly that address, where a picture-space read
/// finds it again.
pub proof fn lemma_addr_data_round_trip(p: PpuM, b: BusM, hi: u8, lo: u8, v: u8)
    requires
        b.wf(),
        !p.w,
        (hi as u16) < 0x40,
    ensures
        ({
            let p2 = write_addr_model(write_addr_model(p, hi), lo);
            let d = write_data_model(p2, b, v);
            &&& p2.addr == ((hi as u16) << 8 | lo as u16)
            &&& d.2
            &&& d.1.ppu_mem[p2.addr as int] == v
        }),
{
    let p1 = write_addr_model(p, hi);
    let p2 = write_addr_model(p1, lo);
    let a0 = p.addr;
    assert(((a0 & 0x00FF | (hi as u16) << 8) & 0xFF00 | lo as u16) == ((hi as u16) << 8
        | lo as u16)) by (bit_vector);
    assert(((hi as u16) << 8 | lo as u16) < 0x4000) by (bit_vector)
        requires
            (hi as u16) < 0x40,
    ;
}

// --------------- ADDRESSING-MODE BOUNDARIES --------------------

/// Zero-page indexed addressing wraps inside the zero page: the index is
/// added modulo 256 and no carry ever reaches the high byte.
pub proof fn lemma_zero_page_index_wraps(c: Cpu, b: BusM)
    requires
        c.addr == Addressing::ZPX || c.addr == Addressing::ZPY,
    ensures
        resolve(c, b).target <= 0xFF,
        resolve(c, b).target as int == (rd_single(b, u16_specs::wrapping_add(c.pc, 2)).0 + (
        if c.addr == Addressing::ZPX {
            c.x
        } else {
            c.y
        })) % 256,
{
    let v = rd_single(b, u16_specs::wrapping_add(c.pc, 2)).0;
    let ix = if c.addr == Addressing::ZPX {
        c.x
    } else {
        c.y
    };
    assert(u8_specs::wrapping_add(v, ix) as int == (v + ix) % 256) by (nonlinear_arith)
        requires
            u8_specs::wrapping_add(v, ix) == if v + ix > 255 {
                (v + ix - 256) as u8
            } else {
                (v + ix) as u8
            },
            0 <= v <= 255 && 0 <= ix <= 255,
    ;
}

/// The indirect modes fetch their pointer's high byte from (zp + 1) mod
/// 256: the pointer never leaves the zero page.
pub proof fn lemma_indirect_pointer_wraps(c: Cpu, b: BusM)
    requires
        c.addr == Addressing::IDX || c.addr == Addressing::IDY,
    ensures
        ({
            let r = rd_single(b, u16_specs::wrapping_add(c.pc, 2));
            let zp = if c.addr == Addressing::IDX {
                u8_specs::wrapping_add(r.0, c.x)
            } else {
                r.0
            };
            let low = rd_val(r.1, zp as u16);
            let b2 = rd_bus(r.1, zp as u16);
            let high = rd_val(b2, ((zp + 1) % 256) as u16);
            if c.addr == Addressing::IDX {
                resolve(c, b).target == combine16(low, high)
            } else {
                resolve(c, b).target == u16_specs::wrapping_add(combine16(low, high), c.y as u16)
            }
        }),
{
    let r = rd_single(b, u16_specs::wrapping_add(c.pc, 2));
    let zp = if c.addr == Addressing::IDX {
        u8_specs::wrapping_add(r.0, c.x)
    } else {
        r.0
    };
    assert(u8_specs::wrapping_add(zp, 1) as int == (zp + 1) % 256) by (nonlinear_arith)
        requires
            u8_specs::wrapping_add(zp, 1) == if zp + 1 > 255 {
                (zp + 1 - 256) as u8
            } else {
                (zp + 1) as u8
            },
            0 <= zp <= 255,
    ;
}

/// An indirect jump whose pointer sits at the end of a page exhibits the
/// hardware's page-wrap quirk: the high byte comes from offset 0 of the
/// same page, not from the next page.
pub proof fn lemma_jmp_indirect_page_wrap(c: Cpu, b: BusM)
    requires
        c.addr == Addressing::IND,
        rd_double(b, u16_specs::wrapping_add(c.pc, 3)).0 & 0xFF == 0xFF,
    ensures
        ({
            let r = rd_double(b, u16_specs::wrapping_add(c.pc, 3));
            let low = rd_val(r.1, r.0);
            let b2 = rd_bus(r.1, r.0);
            resolve(c, b).target == combine16(low, rd_val(b2, r.0 & 0xFF00))
        }),
{
    let r = rd_double(b, u16_specs::wrapping_add(c.pc, 3));
    let ptr = r.0;
    assert((ptr & 0xFF) as u8 == 0xFF && (u8_specs::wrapping_add(0xFF, 1) as u16 | (ptr & 0xFF00))
        == (ptr & 0xFF00)) by (bit_vector)
        requires
            ptr & 0xFF == 0xFF,
    ;
}

// --------------- BRANCH PRICING --------------------

/// Every branch row of the opcode table carries base price 2.
#[verifier::rlimit(100)]
#[verifier::spinoff_prover]
pub proof fn lemma_branch_base(op: u8)
    ensures
        (match decode(op) {
            Option::Some(d) => d.pen == Pen::Branch ==> d.base == 2,
            Option::None => true,
        }),
{
}

/// A branch costs 2 cycles when not taken, 3 when taken within the page,
/// and 4 when taken across a page.
pub proof fn lemma_branch_cycles(c: Cpu, b: BusM, d: Decoded)
    requires
        decode(rd_val(b, c.pc)) == Option::Some(d),
        d.pen == Pen::Branch,
    ensures
        ({
            let l = load_model(c, b);
            let c1 = Cpu { instr: d.instr, addr: d.mode, ..c };
            let pen = cross_rel_model(rd_bus(b, c.pc), c.pc).0;
            &&& (!branch_cond(d.instr, c1) ==> l.cycles == 2)
            &&& (branch_cond(d.instr, c1) ==> l.cycles == 3 + pen)
            &&& 2 <= l.cycles <= 4
        }),
{
    reveal(load_model);
    lemma_branch_base(rd_val(b, c.pc));
}

// --------------- PPU PRESERVATION --------------------

/// Pruning the sprite latch changes nothing but the latch count.
pub proof fn lemma_prune_keeps(p: PpuM)
    ensures
        prune_sprites_model(p) == (PpuM {
            sprite_index: prune_sprites_model(p).sprite_index,
            ..p
        }),
    decreases p.sprite_index,
{
    if p.sprite_index > 0 && p.line >= 8 && p.oam[p.sprites[p.sprite_index - 1] * 4 as int] < (
    p.line - 8) as u8 {
        lemma_prune_keeps(PpuM { sprite_index: (p.sprite_index - 1) as usize, ..p });
    }
}

/// The OAM scan touches only the sprite latch and the overflow flag; in
/// particular the dot counters, the VBlank and hit flags and the control
/// shadow stay put.
pub proof fn lemma_scan_keeps(p: PpuM, b: BusM, n: int)
    ensures
        ({
            let s = scan_sprites_model(p, b, n);
            &&& s.0.line == p.line
            &&& s.0.cycle == p.cycle
            &&& s.0.status.vblank == p.status.vblank
            &&& s.0.status.hit == p.status.hit
            &&& s.0.control == p.control
        }),
    decreases 64 - n,
{
    if 0 <= n < 64 {
        if p.line + 1 == p.oam[n * 4] {
            if p.sprite_index == 8 {
                let p2 = PpuM { status: Status { overflow: true, ..p.status }, ..p };
                lemma_scan_keeps(p2, wr_bus(b, STATUS, status_byte(p2.status)), n + 1);
            } else {
                lemma_scan_keeps(
                    PpuM {
                        sprites: p.sprites.update(p.sprite_index as int, n as u8),
                        sprite_index: (p.sprite_index + 1) as usize,
                        ..p
                    },
                    b,
                    n + 1,
                );
            }
        } else {
            lemma_scan_keeps(p, b, n + 1);
        }
    }
}

/// The sprite overlay of one dot touches only the frame plane, the hit
/// flag and the STATUS byte: the dot counters, the VBlank flag and the
/// control shadow stay put.
pub proof fn lemma_sprite_pass_keeps(p: PpuM, b: BusM, bg: bool, j: int)
    requires
        p.line < 240,
    ensures
        ({
            let s = sprite_pass_model(p, b, bg, j);
            &&& s.0.line == p.line
            &&& s.0.cycle == p.cycle
            &&& s.0.status.vblank == p.status.vblank
            &&& s.0.control == p.control
            &&& s.0.sprite_index == p.sprite_index
        }),
    decreases p.sprite_index - j,
{
    if 0 <= j < p.sprite_index {
        let s = sprite_step(p, b, bg, j);
        assert(s.0.line == p.line && s.0.cycle == p.cycle && s.0.status.vblank == p.status.vblank
            && s.0.control == p.control && s.0.sprite_index == p.sprite_index);
        lemma_sprite_pass_keeps(s.0, s.1, bg, j + 1);
    }
}

/// A drawn pixel touches the frame plane alone.
pub proof fn lemma_draw_keeps(p: PpuM, b: BusM)
    ensures
        forall|pb0: u8, pb1: u8, n: u8, pal: u16, off: bool|
            {
                let d = #[trigger] crate::ppu::draw_tile_model(p, b, pb0, pb1, n, pal, off);
                &&& d.0.line == p.line
                &&& d.0.cycle == p.cycle
                &&& d.0.status == p.status
                &&& d.0.control == p.control
                &&& d.0.sprite_index == p.sprite_index
            },
{
}

/// Rendering one visible dot leaves the dot counters, the VBlank flag and
/// the control shadow untouched.
pub proof fn lemma_render_keeps(p: PpuM, b: BusM)
    requires
        p.line < 240,
    ensures
        ({
            let s = render_dot_model(p, b);
            &&& s.0.line == p.line
            &&& s.0.cycle == p.cycle
            &&& s.0.status.vblank == p.status.vblank
            &&& s.0.control == p.control
        }),
{
    lemma_draw_keeps(p, b);
    let d = crate::ppu::bg_draw_model(p, b);
    lemma_sprite_pass_keeps(d.0, b, d.1, 0);
}

// --------------- VBLANK DISCIPLINE --------------------

/// The VBlank flag rises exactly at dot (241, 1), falls exactly at dot
/// (261, 1), and never changes at any other dot.
pub proof fn lemma_vblank_transitions(p: PpuM, b: BusM, c: Cpu)
    requires
        p.wf(),
    ensures
        ({
            let q = tick_model(p, b, c).0;
            &&& (p.line == 241 && p.cycle == 1 ==> q.status.vblank)
            &&& (p.line == 261 && p.cycle == 1 ==> !q.status.vblank)
            &&& (!(p.line == 241 && p.cycle == 1) && !(p.line == 261 && p.cycle == 1)
                ==> q.status.vblank == p.status.vblank)
        }),
{
    reveal(tick_model);
    if p.line < 240 {
        if p.cycle == 257 {
            lemma_prune_keeps(p);
            lemma_scan_keeps(prune_sprites_model(p), b, 0);
        }
        if 1 <= p.cycle && p.cycle <= 256 {
            lemma_render_keeps(p, b);
        }
    }
}

/// The sprite-0-hit flag is monotone through the sprite overlay: once
/// raised, no later sprite of the same dot lowers it.
pub proof fn lemma_sprite_pass_hit_monotone(p: PpuM, b: BusM, bg: bool, j: int)
    requires
        p.line < 240,
    ensures
        p.status.hit ==> sprite_pass_model(p, b, bg, j).0.status.hit,
    decreases p.sprite_index - j,
{
    if 0 <= j < p.sprite_index {
        let s = sprite_step(p, b, bg, j);
        assert(s.0.line == p.line && s.0.sprite_index == p.sprite_index && (p.status.hit
            ==> s.0.status.hit));
        lemma_sprite_pass_hit_monotone(s.0, s.1, bg, j + 1);
    }
}

/// The sprite-0-hit flag falls exactly at dot (261, 1); everywhere else
/// it can only rise, and it rises only during a visible rendering dot --
/// where `sprite_short_model` raises it, on an opaque sprite-0 pixel over
/// an opaque background pixel.
pub proof fn lemma_sprite_hit_discipline(p: PpuM, b: BusM, c: Cpu)
    requires
        p.wf(),
    ensures
        ({
            let q = tick_model(p, b, c).0;
            &&& (p.line == 261 && p.cycle == 1 ==> !q.status.hit)
            &&& (!(p.line == 261 && p.cycle == 1) ==> (p.status.hit ==> q.status.hit))
            &&& (!(p.line < 240 && 1 <= p.cycle && p.cycle <= 256) && !(p.line == 261 && p.cycle
                == 1) ==> q.status.hit == p.status.hit)
        }),
{
    reveal(tick_model);
    if p.line < 240 {
        if p.cycle == 257 {
            lemma_prune_keeps(p);
            lemma_scan_keeps(prune_sprites_model(p), b, 0);
        }
        if 1 <= p.cycle && p.cycle <= 256 {
            lemma_render_keeps(p, b);
            lemma_draw_keeps(p, b);
            let d = crate::ppu::bg_draw_model(p, b);
            lemma_sprite_pass_hit_monotone(d.0, b, d.1, 0);
        }
    }
}

// --------------- SCAN ORDER --------------------

/// The picture unit's position in its frame, dots counted line by line.
pub open spec fn dot_index(p: PpuM) -> int {
    p.line * 341 + p.cycle
}

/// The dot counter's advance steps the frame position by exactly one,
/// modulo one whole frame: every (line, dot) pair is reached exactly once
/// per frame, in increasing order.
pub proof fn lemma_advance_scan(p: PpuM)
    requires
        p.cycle <= 340,
        p.line <= 261,
    ensures
        dot_index(advance_model(p)) == (dot_index(p) + 1) % 89342,
{
    assert(0 <= p.line * 341 <= 261 * 341) by (nonlinear_arith)
        requires
            0 <= p.line <= 261,
    ;
    if p.cycle < 340 {
        assert((dot_index(p) + 1) % 89342 == dot_index(p) + 1) by (nonlinear_arith)
            requires
                0 <= dot_index(p) + 1 < 89342,
        ;
    } else if p.line < 261 {
        assert((p.line + 1) * 341 == p.line * 341 + 341) by (nonlinear_arith);
        assert((dot_index(p) + 1) % 89342 == dot_index(p) + 1) by (nonlinear_arith)
            requires
                0 <= dot_index(p) + 1 < 89342,
        ;
    } else {
        assert(p.line * 341 + 340 + 1 == 89342) by (nonlinear_arith)
            requires
                p.line == 261,
        ;
        assert(89342int % 89342 == 0) by (nonlinear_arith);
    }
}

/// One picture dot advances the frame position by exactly one, modulo one
/// whole frame, whatever else it does.
pub proof fn lemma_tick_scan_order(p: PpuM, b: BusM, c: Cpu)
    requires
        p.wf(),
    ensures
        dot_index(tick_model(p, b, c).0) == (dot_index(p) + 1) % 89342,
{
    reveal(tick_model);
    if p.line < 240 {
        if p.cycle == 257 {
            lemma_prune_keeps(p);
            lemma_scan_keeps(prune_sprites_model(p), b, 0);
        }
        if 1 <= p.cycle && p.cycle <= 256 {
            lemma_render_keeps(p, b);
        }
    }
    let s2 = if p.line < 240 && p.cycle == 257 {
        eval_sprites_model(p, b)
    } else if p.line < 240 && 1 <= p.cycle && p.cycle <= 256 {
        render_dot_model(p, b)
    } else {
        (p, b)
    };
    let e = events_model(s2.0, s2.1, c);
    lemma_advance_scan(
        if s2.0.line == 241 && s2.0.cycle == 1 {
            PpuM { status: Status { vblank: true, ..s2.0.status }, ..s2.0 }
        } else if s2.0.line == 261 && s2.0.cycle == 1 {
            PpuM {
                status: Status {
                    vblank: false,
                    hit: false,
                    overflow: false,
                    bus: s2.0.status.bus,
                },
                ..s2.0
            }
        } else {
            s2.0
        },
    );
}

// --------------- EFFECTS ON THE FINAL TICK --------------------

/// A dot that injects no interrupt charge leaves the CPU untouched.
pub proof fn lemma_tick_no_nmi(p: PpuM, b: BusM, c: Cpu)
    ensures
        tick_model(p, b, c).3 == 0 ==> tick_model(p, b, c).2 == c,
{
    reveal(tick_model);
}

/// Every opcode row's base price lies between 2 and 7 cycles.
#[verifier::rlimit(100)]
#[verifier::spinoff_prover]
pub proof fn lemma_decode_base_bounds(op: u8)
    ensures
        (match decode(op) {
            Option::Some(d) => 2 <= d.base <= 7,
            Option::None => true,
        }),
{
}

/// A known instruction's full price lies between 2 and 9 cycles.
pub proof fn lemma_load_cycle_bounds(c: Cpu, b: BusM)
    requires
        load_model(c, b).known,
    ensures
        2 <= load_model(c, b).cycles <= 9,
{
    reveal(load_model);
    lemma_decode_base_bounds(rd_val(b, c.pc));
}

/// The cycles the picture unit injects during one machine cycle's three
/// dots.
pub open spec fn step_injection(m: NesM) -> int {
    let m1 = step_engine(m).0;
    let t1 = tick_model(m1.ppu, m1.bus, m1.cpu);
    let t2 = tick_model(t1.0, t1.1, t1.2);
    let t3 = tick_model(t2.0, t2.1, t2.2);
    t1.3 + t2.3 + t3.3
}

/// Away from an instruction boundary, an injection-free machine cycle
/// pays exactly one cycle off the countdown and leaves the CPU untouched.
pub proof fn lemma_step_countdown(m: NesM)
    requires
        2 <= m.cycles_left,
        m.cycles_left < 0xFFFF_FFFF,
        step_injection(m) == 0,
    ensures
        step_model(m).1,
        step_model(m).0.cycles_left == m.cycles_left - 1,
        step_model(m).0.cpu == m.cpu,
{
    let m1 = step_engine(m).0;
    let t1 = tick_model(m1.ppu, m1.bus, m1.cpu);
    let t2 = tick_model(t1.0, t1.1, t1.2);
    lemma_tick_no_nmi(m1.ppu, m1.bus, m1.cpu);
    lemma_tick_no_nmi(t1.0, t1.1, t1.2);
    lemma_tick_no_nmi(t2.0, t2.1, t2.2);
}

/// A load at countdown zero arms the countdown with the instruction's
/// whole price, and the loading cycle already pays one off.
pub proof fn lemma_step_load(m: NesM)
    requires
        m.cycles_left == 0,
        load_model(m.cpu, m.bus).known,
        m.cycles + 9 <= u64::MAX,
        step_injection(m) == 0,
    ensures
        step_model(m).1,
        step_model(m).0.cycles_left == load_model(m.cpu, m.bus).cycles - 1,
        step_model(m).0.cpu == load_model(m.cpu, m.bus).cpu,
{
    lemma_load_cycle_bounds(m.cpu, m.bus);
    let m1 = step_engine(m).0;
    let t1 = tick_model(m1.ppu, m1.bus, m1.cpu);
    let t2 = tick_model(t1.0, t1.1, t1.2);
    lemma_tick_no_nmi(m1.ppu, m1.bus, m1.cpu);
    lemma_tick_no_nmi(t1.0, t1.1, t1.2);
    lemma_tick_no_nmi(t2.0, t2.1, t2.2);
}

/// The machine after `i` cycles.
pub open spec fn trace(m: NesM, i: nat) -> NesM
    decreases i,
{
    if i == 0 {
        m
    } else {
        step_model(trace(m, (i - 1) as nat)).0
    }
}

/// The price the decode phase returns is exactly the number of machine
/// cycles before the instruction's effects land: a load at countdown zero
/// arms the countdown with the full price, and -- while the picture unit
/// injects no interrupt charge -- each following cycle pays one off and
/// leaves the CPU untouched, so the countdown stands at one exactly on
/// the window's last cycle, the one whose engine phase executes.
pub proof fn lemma_effects_on_final_tick(m: NesM, i: nat)
    requires
        m.cycles_left == 0,
        load_model(m.cpu, m.bus).known,
        m.cycles + 9 <= u64::MAX,
        1 <= i <= load_model(m.cpu, m.bus).cycles - 1,
        forall|j: nat| j < i ==> step_injection(#[trigger] trace(m, j)) == 0,
    ensures
        trace(m, i).cycles_left == load_model(m.cpu, m.bus).cycles - i,
        trace(m, i).cpu == load_model(m.cpu, m.bus).cpu,
        i == load_model(m.cpu, m.bus).cycles - 1 ==> trace(m, i).cycles_left == 1,
    decreases i,
{
    lemma_load_cycle_bounds(m.cpu, m.bus);
    if i == 1 {
        assert(trace(m, 0nat) == m);
        assert(step_injection(trace(m, 0nat)) == 0);
        lemma_step_load(m);
        assert(trace(m, 1nat) == step_model(trace(m, 0nat)).0);
    } else {
        lemma_effects_on_final_tick(m, (i - 1) as nat);
        let prev = trace(m, (i - 1) as nat);
        assert(step_injection(trace(m, (i - 1) as nat)) == 0);
        lemma_step_countdown(prev);
        assert(trace(m, i) == step_model(prev).0);
    }
}

} // verus!
