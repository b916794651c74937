//! The picture-generation unit: register shadows, object attribute memory,
//! the frame buffer, and the per-dot state machine (`tick`). The unit is
//! stepped three times per CPU cycle.
//!
//! The abstract state is [`PpuM`]; contracts over the register interface are
//! equations over `*_model` spec functions, so that the bus and the CPU can
//! compose them.

use vstd::prelude::*;
use vstd::wrapping::u8_specs;

use crate::bus::{mirror_reg, ppu_wr, rd_bus, rd_val, wr_bus, Bus, BusM};
use crate::cpu::{nmi_model, Cpu};
use crate::errors::EmuError;
use crate::util::{
    get_u8_bit, get_u8_bits, lemma_bit_basics, low_mask, set_u8_bit, spec_get_u8_bits,
    spec_set_u8_bit, ADDR, CONTROL, DATA, MASK, OAM_DMA, STATUS,
};

verus! {

pub const PALETTE_ADDRESS: u16 = 0x3F00;

pub struct Status {
    pub vblank: bool,
    pub hit: bool,
    pub overflow: bool,
    pub bus: u8,
}

pub struct Control {
    pub nametable_address: u16,
    pub vram_increment: u8,
    pub sprite_address: u8,
    pub background_address: u8,
    pub sprite_size: u8,
    pub master_slave: bool,
    pub nmi: bool,
}

pub struct Mask {
    pub greyscale: bool,
    pub background_left_8: bool,
    pub sprite_left_8: bool,
    pub background: bool,
    pub sprite: bool,
    pub red: bool,
    pub green: bool,
    pub blue: bool,
}

pub struct Ppu {
    pub oam: Vec<u8>,
    pub cycle: u16,
    pub line: u16,
    pub status: Status,
    pub control: Control,
    pub mask: Mask,
    pub addr: u16,
    pub oam_addr: u16,
    pub sprites: Vec<u8>,
    pub sprite_index: usize,
    pub v: u8,
    pub t: u8,
    pub x: u8,
    pub w: bool,
    pub frame: Vec<u8>,
}

/// Mathematical model of the picture unit's state.
#[verifier::ext_equal]
pub struct PpuM {
    pub oam: Seq<u8>,
    pub cycle: u16,
    pub line: u16,
    pub status: Status,
    pub control: Control,
    pub mask: Mask,
    pub addr: u16,
    pub oam_addr: u16,
    pub sprites: Seq<u8>,
    pub sprite_index: usize,
    pub v: u8,
    pub t: u8,
    pub x: u8,
    pub w: bool,
    pub frame: Seq<u8>,
}

impl View for Ppu {
    type V = PpuM;

    open spec fn view(&self) -> PpuM {
        PpuM {
            oam: self.oam@,
            cycle: self.cycle,
            line: self.line,
            status: self.status,
            control: self.control,
            mask: self.mask,
            addr: self.addr,
            oam_addr: self.oam_addr,
            sprites: self.sprites@,
            sprite_index: self.sprite_index,
            v: self.v,
            t: self.t,
            x: self.x,
            w: self.w,
            frame: self.frame@,
        }
    }
}

/// The control register's decoded fields keep the shapes the decoder gives
/// them; every address computation in the renderer leans on this.
pub open spec fn control_wf(c: Control) -> bool {
    &&& (c.vram_increment == 1 || c.vram_increment == 32)
    &&& (c.nametable_address == 0x2000 || c.nametable_address == 0x2400 || c.nametable_address
        == 0x2800 || c.nametable_address == 0x2C00)
    &&& c.sprite_address <= 1
    &&& c.background_address <= 1
    &&& c.sprite_size <= 1
}

impl PpuM {
    pub open spec fn wf(self) -> bool {
        &&& self.oam.len() == 256
        &&& self.sprites.len() == 8
        &&& self.frame.len() == 240 * 256
        &&& self.sprite_index <= 8
        &&& forall|i: int| 0 <= i < 8 ==> self.sprites[i] < 64
        &&& self.cycle <= 340
        &&& self.line <= 261
        &&& control_wf(self.control)
    }
}

/// The nametable base selected by the low two control bits.
pub open spec fn spec_nametable(bits: u8) -> u16 {
    if bits == 0 {
        0x2000
    } else if bits == 1 {
        0x2400
    } else if bits == 2 {
        0x2800
    } else {
        0x2C00
    }
}

pub fn parse_nametable(nametable_bits: u8) -> (r: u16)
    requires
        nametable_bits <= 3,
    ensures
        r == spec_nametable(nametable_bits),
{
    match nametable_bits {
        0 => 0x2000,
        1 => 0x2400,
        2 => 0x2800,
        _ => 0x2C00,
    }
}

/// The mask register decoded from its stored byte.
pub open spec fn mask_from_byte(byte: u8) -> Mask {
    Mask {
        greyscale: byte >> 0 & 0x01 == 1,
        background_left_8: byte >> 1 & 0x01 == 1,
        sprite_left_8: byte >> 2 & 0x01 == 1,
        background: byte >> 3 & 0x01 == 1,
        sprite: byte >> 4 & 0x01 == 1,
        red: byte >> 5 & 0x01 == 1,
        green: byte >> 6 & 0x01 == 1,
        blue: byte >> 7 & 0x01 == 1,
    }
}

/// The control register decoded from its stored byte.
pub open spec fn control_from_byte(byte: u8) -> Control {
    Control {
        nmi: byte >> 7 & 0x01 == 1,
        master_slave: byte >> 6 & 0x01 == 1,
        sprite_size: byte >> 5 & 0x01,
        background_address: byte >> 4 & 0x01,
        sprite_address: byte >> 3 & 0x01,
        vram_increment: if byte >> 2 & 0x01 == 0 {
            1
        } else {
            32
        },
        nametable_address: spec_nametable(spec_get_u8_bits(byte, 1, 0)),
    }
}

/// The byte the status shadow presents on the bus.
pub open spec fn status_byte(s: Status) -> u8 {
    (if s.vblank {
        1u8
    } else {
        0u8
    }) << 7 | (if s.hit {
        1u8
    } else {
        0u8
    }) << 6 | (if s.overflow {
        1u8
    } else {
        0u8
    }) << 5 | (s.bus & 0b0001_1111)
}

impl Mask {
    pub fn new() -> (r: Mask)
        ensures
            r == (Mask {
                greyscale: false,
                background_left_8: false,
                sprite_left_8: false,
                background: false,
                sprite: false,
                red: false,
                green: false,
                blue: false,
            }),
    {
        Mask {
            greyscale: false,
            background_left_8: false,
            sprite_left_8: false,
            background: false,
            sprite: false,
            red: false,
            green: false,
            blue: false,
        }
    }

    /// Re-decodes the mask shadow from the byte stored at its register.
    /// Relies on the stored byte alone; the bus is left as it was.
    pub fn read(&mut self, bus: &mut Bus)
        requires
            old(bus)@.wf(),
        ensures
            final(bus)@.wf(),
            final(bus)@ == old(bus)@,
            *final(self) == mask_from_byte(rd_val(old(bus)@, MASK)),
    {
        let byte = bus.cpu_read_16(MASK);
        self.greyscale = get_u8_bit(byte, 0) == 1;
        self.background_left_8 = get_u8_bit(byte, 1) == 1;
        self.sprite_left_8 = get_u8_bit(byte, 2) == 1;
        self.background = get_u8_bit(byte, 3) == 1;
        self.sprite = get_u8_bit(byte, 4) == 1;
        self.red = get_u8_bit(byte, 5) == 1;
        self.green = get_u8_bit(byte, 6) == 1;
        self.blue = get_u8_bit(byte, 7) == 1;
    }
}

impl Control {
    pub fn new() -> (r: Control)
        ensures
            r == (Control {
                nametable_address: 0x2000,
                vram_increment: 1,
                sprite_address: 0,
                background_address: 0,
                sprite_size: 0,
                master_slave: false,
                nmi: false,
            }),
            control_wf(r),
    {
        Control {
            nametable_address: parse_nametable(0),
            vram_increment: 1,
            sprite_address: 0,
            background_address: 0,
            sprite_size: 0,
            master_slave: false,
            nmi: false,
        }
    }

    /// Re-decodes the control shadow from the byte stored at its register.
    pub fn read(&mut self, bus: &mut Bus)
        requires
            old(bus)@.wf(),
        ensures
            final(bus)@.wf(),
            final(bus)@ == old(bus)@,
            *final(self) == control_from_byte(rd_val(old(bus)@, CONTROL)),
            control_wf(*final(self)),
    {
        let byte = bus.cpu_read_16(CONTROL);
        self.nmi = get_u8_bit(byte, 7) == 1;
        self.master_slave = get_u8_bit(byte, 6) == 1;
        self.sprite_size = get_u8_bit(byte, 5);
        self.background_address = get_u8_bit(byte, 4);
        self.sprite_address = get_u8_bit(byte, 3);
        let vram_increment = get_u8_bit(byte, 2);
        self.vram_increment = if vram_increment == 0 {
            1
        } else {
            32
        };
        let bits = get_u8_bits(byte, 1, 0);
        proof {
            lemma_bit_basics();
            reveal_with_fuel(low_mask, 2);
            assert(low_mask(1) == 3);
            assert(bits <= 3);
        }
        self.nametable_address = parse_nametable(bits);
    }
}

impl Status {
    pub fn new() -> (r: Status)
        ensures
            r == (Status { vblank: false, hit: false, overflow: false, bus: 0 }),
    {
        Status { vblank: false, hit: false, overflow: false, bus: 0 }
    }

    /// Publishes the status shadow into the byte the CPU reads.
    pub fn write(&mut self, bus: &mut Bus)
        requires
            old(bus)@.wf(),
        ensures
            *final(self) == *old(self),
            final(bus)@.wf(),
            final(bus)@ == wr_bus(old(bus)@, STATUS, status_byte(*old(self))),
    {
        let byte = (if self.vblank {
            1u8
        } else {
            0u8
        }) << 7 | (if self.hit {
            1u8
        } else {
            0u8
        }) << 6 | (if self.overflow {
            1u8
        } else {
            0u8
        }) << 5 | (self.bus & 0b0001_1111);
        bus.cpu_write_16(STATUS, byte);
    }
}

/// The picture unit after a byte is pushed through the DATA port: the byte
/// lands at the latched address, which then advances by the configured
/// increment. Fails (leaving the unit unchanged) when the latch points
/// outside the 16 KiB picture address space.
pub open spec fn write_data_model(p: PpuM, b: BusM, data: u8) -> (PpuM, BusM, bool) {
    if p.addr >= 0x4000 {
        (p, b, false)
    } else {
        (
            PpuM { addr: (p.addr + p.control.vram_increment) as u16, ..p },
            ppu_wr(b, p.addr, data),
            true,
        )
    }
}

/// The picture unit after a byte is written to the ADDR port: the toggle
/// selects the high or the low half of the latch.
pub open spec fn write_addr_model(p: PpuM, a: u8) -> PpuM {
    if !p.w {
        PpuM { addr: (p.addr & 0x00FF) | ((a as u16) << 8), w: true, ..p }
    } else {
        PpuM { addr: (p.addr & 0xFF00) | (a as u16), w: false, ..p }
    }
}

/// Object attribute memory after a DMA: 256 bytes copied linearly from CPU
/// page `v`.
pub open spec fn oam_dma_model(p: PpuM, b: BusM, v: u8) -> PpuM {
    PpuM { oam: Seq::new(256, |k: int| b.cpu_mem[(v as int) * 256 + k]), ..p }
}

impl Ppu {
    pub fn new() -> (r: Ppu)
        ensures
            r@.wf(),
            r@.oam == Seq::new(256, |i: int| 0u8),
            r@.cycle == 0,
            r@.line == 0,
            r@.status == (Status { vblank: false, hit: false, overflow: false, bus: 0 }),
            r@.control == (Control {
                nametable_address: 0x2000,
                vram_increment: 1,
                sprite_address: 0,
                background_address: 0,
                sprite_size: 0,
                master_slave: false,
                nmi: false,
            }),
            r@.mask == (Mask {
                greyscale: false,
                background_left_8: false,
                sprite_left_8: false,
                background: false,
                sprite: false,
                red: false,
                green: false,
                blue: false,
            }),
            r@.addr == 0,
            r@.oam_addr == 0,
            r@.sprites == Seq::new(8, |i: int| 0u8),
            r@.sprite_index == 0,
            r@.v == 0,
            r@.t == 0,
            r@.x == 0,
            r@.w == false,
            r@.frame == Seq::new((240 * 256) as nat, |i: int| 0u8),
    {
        let r = Ppu {
            oam: vec![0u8; 256],
            cycle: 0,
            line: 0,
            status: Status::new(),
            control: Control::new(),
            mask: Mask::new(),
            addr: 0,
            oam_addr: 0,
            sprites: vec![0u8; 8],
            sprite_index: 0,
            v: 0,
            t: 0,
            x: 0,
            w: false,
            frame: vec![0u8; 240 * 256],
        };
        proof {
            assert(r@.oam =~= Seq::new(256, |i: int| 0u8));
            assert(r@.sprites =~= Seq::new(8, |i: int| 0u8));
            assert(r@.frame =~= Seq::new((240 * 256) as nat, |i: int| 0u8));
        }
        r
    }

    /// Pushes `data` through the DATA port. Fails fatally when the latched
    /// address lies outside the picture address space, as a real out-of-range
    /// bus access would.
    pub fn write_data(&mut self, data: u8, bus: &mut Bus) -> (r: Result<(), EmuError>)
        requires
            old(self)@.wf(),
            old(bus)@.wf(),
        ensures
            final(self)@.wf(),
            final(bus)@.wf(),
            r matches Ok(_) <==> old(self)@.addr < 0x4000,
            r matches Err(e) ==> e == EmuError::VramAddrOutOfRange,
            final(self)@ == write_data_model(old(self)@, old(bus)@, data).0,
            final(bus)@ == write_data_model(old(self)@, old(bus)@, data).1,
    {
        if self.addr >= 0x4000 {
            return Err(EmuError::VramAddrOutOfRange);
        }
        bus.ppu_write_16(self.addr, data);
        self.addr = self.addr + self.control.vram_increment as u16;
        Ok(())
    }

    /// Latches one half of the VRAM address, high byte first.
    pub fn write_addr(&mut self, addr: u8)
        ensures
            final(self)@ == write_addr_model(old(self)@, addr),
    {
        if !self.w {
            self.addr = self.addr & 0x00FF;
            self.addr = self.addr | ((addr as u16) << 8);
        } else {
            self.addr = self.addr & 0xFF00;
            self.addr = self.addr | (addr as u16);
        }
        self.w = !self.w;
    }

    /// OAM DMA: copies the 256 bytes of CPU page `addr` into object
    /// attribute memory.
    pub fn write_oam(&mut self, addr: u8, bus: &mut Bus)
        requires
            old(self)@.wf(),
            old(bus)@.wf(),
        ensures
            *final(bus) == *old(bus),
            final(self)@.wf(),
            final(self)@ == oam_dma_model(old(self)@, old(bus)@, addr),
    {
        let base: usize = (addr as usize) * 0x100;
        let mut n: usize = 0;
        while n < 256
            invariant
                n <= 256,
                base == (addr as int) * 256,
                base + 256 <= 0x10000,
                old(self)@.wf(),
                self@.wf(),
                *bus == *old(bus),
                old(bus)@.wf(),
                self@ == (PpuM { oam: self@.oam, ..old(self)@ }),
                forall|k: int| 0 <= k < n ==> self@.oam[k] == old(bus)@.cpu_mem[base + k],
                forall|k: int| n <= k < 256 ==> self@.oam[k] == old(self)@.oam[k],
            decreases 256 - n,
        {
            let v = bus.cpu_memory[base + n];
            self.oam[n] = v;
            n = n + 1;
        }
        proof {
            assert(self@ =~= oam_dma_model(old(self)@, old(bus)@, addr));
        }
    }

    /// The two pattern-table bytes of row `line` of tile `tile` in table
    /// half `table_half`.
    pub fn get_pattern_address(&mut self, bus: &mut Bus, tile: u8, line: u16, table_half: u8) -> (r:
        (u8, u8))
        requires
            old(bus)@.wf(),
            line <= 7,
            table_half <= 1,
        ensures
            *final(self) == *old(self),
            *final(bus) == *old(bus),
            r.0 == old(bus)@.ppu_mem[pattern_addr(tile, line, table_half) as int],
            r.1 == old(bus)@.ppu_mem[(pattern_addr(tile, line, table_half) | 1u16 << 3) as int],
    {
        let pattern_address_0 = line | (tile as u16) << 4 | (table_half as u16) << 12;
        let pattern_address_1 = pattern_address_0 | 1u16 << 3;
        proof {
            lemma_pattern_addr_bound(tile, line, table_half);
        }
        let pattern_byte_0 = bus.ppu_read_16(pattern_address_0);
        let pattern_byte_1 = bus.ppu_read_16(pattern_address_1);
        (pattern_byte_0, pattern_byte_1)
    }

    /// Draws pixel `n` of a pattern row at the current dot, if opaque, and
    /// says whether it was.
    #[verifier::rlimit(100)]
    #[verifier::spinoff_prover]
    pub fn draw_tile(
        &mut self,
        bus: &mut Bus,
        pattern_byte_0: u8,
        pattern_byte_1: u8,
        n: u8,
        palette_color: u16,
        use_offset: bool,
    ) -> (r: bool)
        requires
            old(self)@.wf(),
            old(bus)@.wf(),
            n <= 7,
            palette_color + 3 < 0x4000,
        ensures
            final(self)@.wf(),
            *final(bus) == *old(bus),
            ({
                let d = draw_tile_model(
                    old(self)@,
                    old(bus)@,
                    pattern_byte_0,
                    pattern_byte_1,
                    n,
                    palette_color,
                    use_offset,
                );
                final(self)@ == d.0 && r == d.1
            }),
    {
        let bit_0 = get_u8_bit(pattern_byte_0, 7 - n);
        let bit_1 = get_u8_bit(pattern_byte_1, 7 - n);
        let sum = bit_1 << 1 | bit_0;
        proof {
            assert(bit_1 <= 1 && bit_0 <= 1 ==> (bit_1 << 1 | bit_0) <= 3) by (bit_vector);
        }
        if sum > 0 {
            let color = bus.ppu_read_16(palette_color + sum as u16);
            let px = self.cycle + (if use_offset {
                n as u16
            } else {
                0
            });
            if px >= 1 && px <= 256 && self.line < 240 {
                let idx: usize = (self.line as usize) * 256 + (px as usize) - 1;
                self.frame[idx] = color;
            }
            proof {
                assert(self@ =~= draw_tile_model(
                    old(self)@,
                    old(bus)@,
                    pattern_byte_0,
                    pattern_byte_1,
                    n,
                    palette_color,
                    use_offset,
                ).0);
            }
            return true;
        }
        false
    }

    /// Sprite evaluation for the next line, at dot 257 of a visible line:
    /// stale sprites leave the latch, OAM is scanned for rows starting on
    /// the next line, a ninth match raises the overflow flag.
    #[verifier::rlimit(100)]
    #[verifier::spinoff_prover]
    fn eval_sprites(&mut self, bus: &mut Bus)
        requires
            old(self)@.wf(),
            old(bus)@.wf(),
            old(self)@.line < 240,
        ensures
            final(self)@.wf(),
            final(bus)@.wf(),
            ({
                let e = eval_sprites_model(old(self)@, old(bus)@);
                final(self)@ == e.0 && final(bus)@ == e.1
            }),
            final(self)@.line == old(self)@.line,
            final(self)@.cycle == old(self)@.cycle,
    {
        while self.sprite_index > 0 && self.line >= 8 && self.oam[(self.sprites[self.sprite_index
            - 1] * 4) as usize] < (self.line - 8) as u8
            invariant
                self@.wf(),
                self@.line < 240,
                *bus == *old(bus),
                self@ == (PpuM { sprite_index: self@.sprite_index, ..old(self)@ }),
                prune_sprites_model(self@) == prune_sprites_model(old(self)@),
            decreases self.sprite_index,
        {
            self.sprite_index = self.sprite_index - 1;
        }
        proof {
            assert(prune_sprites_model(self@) == self@);
        }
        let ghost p0 = self@;
        let ghost b0 = bus@;
        let mut n: usize = 0;
        while n < 64
            invariant
                n <= 64,
                self@.wf(),
                self@.line < 240,
                old(bus)@.wf(),
                bus@.wf(),
                p0 == prune_sprites_model(old(self)@),
                b0 == old(bus)@,
                self@.line == old(self)@.line,
                self@.cycle == old(self)@.cycle,
                scan_sprites_model(p0, b0, 0) == scan_sprites_model(self@, bus@, n as int),
            decreases 64 - n,
        {
            let ghost pn = self@;
            let ghost bn = bus@;
            if self.line + 1 == self.oam[n * 4] as u16 {
                if self.sprite_index == 8 {
                    self.status.overflow = true;
                    self.status.write(bus);
                } else {
                    self.sprites[self.sprite_index] = n as u8;
                    self.sprite_index = self.sprite_index + 1;
                }
            }
            proof {
                assert(scan_sprites_model(pn, bn, n as int) == scan_sprites_model(
                    self@,
                    bus@,
                    n as int + 1,
                ));
            }
            n = n + 1;
        }
    }

    /// One visible dot rendered: background fetch and draw, then the
    /// latched sprites overlaid, with the sprite-0-hit flag raised on an
    /// opaque overlap.
    #[verifier::rlimit(100)]
    #[verifier::spinoff_prover]
    fn render_dot(&mut self, bus: &mut Bus)
        requires
            old(self)@.wf(),
            old(bus)@.wf(),
            old(self)@.line < 240,
            1 <= old(self)@.cycle && old(self)@.cycle <= 256,
        ensures
            final(self)@.wf(),
            final(bus)@.wf(),
            ({
                let d = render_dot_model(old(self)@, old(bus)@);
                final(self)@ == d.0 && final(bus)@ == d.1
            }),
    {
        let n = self.cycle % 8;
        // --------------------- NAMETABLE -----------------------
        let nametable_address = self.control.nametable_address + ((self.line / 8) * 32 + (
        self.cycle / 8));
        let nametable_byte = bus.ppu_read_16(nametable_address);

        let pattern = self.get_pattern_address(
            bus,
            nametable_byte,
            self.line % 8,
            self.control.background_address,
        );
        let pattern_byte_0 = pattern.0;
        let pattern_byte_1 = pattern.1;

        // --------------------- ATTRIBUTE TABLE -----------------------
        let attribute = bus.ppu_read_16(
            (self.control.nametable_address + 0x3C0) + (self.line / 32) * 8 + self.cycle / 32,
        );

        let top_left = attribute & 0b00000011;
        let top_right = attribute >> 2 & 0b00000011;
        let bottom_left = attribute >> 4 & 0b00000011;
        let bottom_right = attribute >> 6 & 0b00000011;

        let rel_x = self.cycle % 32;
        let rel_y = self.line % 32;
        proof {
            lemma_bit_basics();
        }
        let palette_offset: u8 = if rel_x <= 15 {
            if rel_y <= 15 {
                top_left * 4
            } else {
                bottom_left * 4
            }
        } else {
            if rel_y <= 15 {
                top_right * 4
            } else {
                bottom_right * 4
            }
        };

        let palette_color = PALETTE_ADDRESS + palette_offset as u16;

        // --------------------- DRAW BACKGROUND -----------------------
        let background_draw = self.draw_tile(
            bus,
            pattern_byte_0,
            pattern_byte_1,
            n as u8,
            palette_color,
            false,
        );

        // --------------------- DRAW SPRITES ON CURRENT LINE -----------------------
        let ghost p_bg = self@;
        let ghost b_bg = bus@;
        let count = self.sprite_index;
        let mut j: usize = 0;
        while j < count
            invariant
                j <= count,
                self@.wf(),
                bus@.wf(),
                count == p_bg.sprite_index,
                self@.sprite_index == count,
                self@.cycle == p_bg.cycle,
                self@.cycle <= 256,
                1 <= self@.cycle,
                self@.line == p_bg.line,
                self@.line < 240,
                sprite_pass_model(p_bg, b_bg, background_draw, 0) == sprite_pass_model(
                    self@,
                    bus@,
                    background_draw,
                    j as int,
                ),
            decreases count - j,
        {
            let ghost pj = self@;
            let ghost bj = bus@;
            self.sprite_slot(bus, j, background_draw);
            proof {
                assert(sprite_pass_model(pj, bj, background_draw, j as int) == sprite_pass_model(
                    self@,
                    bus@,
                    background_draw,
                    j as int + 1,
                ));
            }
            j = j + 1;
        }
    }

    /// An 8 x 16 sprite's two stacked tiles drawn at the current dot.
    #[verifier::rlimit(100)]
    #[verifier::spinoff_prover]
    fn sprite_tall(&mut self, bus: &mut Bus, tile: u8, sline: u8, xo: u8, pal: u16)
        requires
            old(self)@.wf(),
            old(bus)@.wf(),
            sline <= 7,
            xo <= 7,
            pal + 3 < 0x4000,
            old(self)@.line < 240,
        ensures
            final(self)@.wf(),
            *final(bus) == *old(bus),
            final(self)@ == sprite_tall_model(old(self)@, old(bus)@, tile, sline as u16, xo, pal),
            final(self)@.cycle == old(self)@.cycle,
            final(self)@.line == old(self)@.line,
            final(self)@.sprite_index == old(self)@.sprite_index,
    {
        let even = (tile >> 1) << 1;
        let half = get_u8_bit(tile, 0);
        let pat1 = self.get_pattern_address(bus, even, sline as u16, half);
        self.draw_tile(bus, pat1.0, pat1.1, xo, pal, false);
        self.line = self.line + 7;
        let pat2 = self.get_pattern_address(bus, even.wrapping_add(1), sline as u16, half);
        self.draw_tile(bus, pat2.0, pat2.1, xo, pal, false);
        self.line = self.line + 7;
        self.line = self.line - 14;
    }

    /// An 8 x 8 sprite's tile drawn at the current dot, with the sprite-0
    /// hit check.
    #[verifier::rlimit(100)]
    #[verifier::spinoff_prover]
    fn sprite_short(
        &mut self,
        bus: &mut Bus,
        bg_drew: bool,
        is_zero: bool,
        tile: u8,
        sline: u8,
        xo: u8,
        pal: u16,
    )
        requires
            old(self)@.wf(),
            old(bus)@.wf(),
            sline <= 7,
            xo <= 7,
            pal + 3 < 0x4000,
            old(self)@.line < 240,
        ensures
            final(self)@.wf(),
            final(bus)@.wf(),
            ({
                let m = sprite_short_model(
                    old(self)@,
                    old(bus)@,
                    bg_drew,
                    is_zero,
                    tile,
                    sline as u16,
                    xo,
                    pal,
                );
                final(self)@ == m.0 && final(bus)@ == m.1
            }),
            final(self)@.cycle == old(self)@.cycle,
            final(self)@.line == old(self)@.line,
            final(self)@.sprite_index == old(self)@.sprite_index,
    {
        let pat = self.get_pattern_address(bus, tile, sline as u16, self.control.sprite_address);
        let drew = self.draw_tile(bus, pat.0, pat.1, xo, pal, false);
        if drew && is_zero && bg_drew {
            self.status.hit = true;
            self.status.write(bus);
        }
    }

    /// One latched sprite considered at the current dot, drawn when the dot
    /// falls inside its window.
    #[verifier::rlimit(100)]
    #[verifier::spinoff_prover]
    fn sprite_slot(&mut self, bus: &mut Bus, j: usize, background_draw: bool)
        requires
            old(self)@.wf(),
            old(bus)@.wf(),
            j < old(self)@.sprite_index,
            1 <= old(self)@.cycle && old(self)@.cycle <= 256,
            old(self)@.line < 240,
        ensures
            final(self)@.wf(),
            final(bus)@.wf(),
            ({
                let s = sprite_step(old(self)@, old(bus)@, background_draw, j as int);
                &&& final(self)@ == s.0
                &&& final(bus)@ == s.1
                &&& final(self)@.cycle == old(self)@.cycle
                &&& final(self)@.line == old(self)@.line
                &&& final(self)@.sprite_index == old(self)@.sprite_index
            }),
    {
        proof {
            lemma_bit_basics();
        }
        let sn = self.sprites[j] as usize;
        let x = self.oam[sn * 4 + 3];
        let y = self.oam[sn * 4];
        let cyc8 = (self.cycle % 256) as u8;
        let lin8 = (self.line % 256) as u8;
        if cyc8 >= x && cyc8 <= x.wrapping_add(7) && lin8 <= y.wrapping_add(7) && lin8 >= y {
            let tile = self.oam[sn * 4 + 1];
            let attr = self.oam[sn * 4 + 2];
            let mut line = lin8 - y;

            let flip_hor = get_u8_bit(attr, 6) == 1;
            let flip_ver = get_u8_bit(attr, 7) == 1;
            if flip_ver {
                line = 7u8.wrapping_sub(line);
            }

            let palette_color = PALETTE_ADDRESS + (attr & 0b00000011) as u16;
            let mut x_offset = cyc8 - x;
            if flip_hor {
                x_offset = 7u8.wrapping_sub(x_offset);
            }
            proof {
                assert(line <= 7);
                assert(x_offset <= 7);
            }

            if self.control.sprite_size == 1 {
                self.sprite_tall(bus, tile, line, x_offset, palette_color);
            } else {
                self.sprite_short(
                    bus,
                    background_draw,
                    sn == 0,
                    tile,
                    line,
                    x_offset,
                    palette_color,
                );
            }
        }
    }

    /// Advances the dot counter one step.
    #[verifier::rlimit(100)]
    #[verifier::spinoff_prover]
    fn advance_exec(&mut self)
        requires
            old(self)@.wf(),
        ensures
            final(self)@.wf(),
            final(self)@ == advance_model(old(self)@),
    {
        self.cycle = self.cycle + 1;

        if self.cycle > 340 {
            self.cycle = 0;
            self.line = self.line + 1;
        }
        if self.line > 261 {
            self.line = 0;
            self.sprite_index = 0;
        }
        proof {
            assert(self@ =~= advance_model(old(self)@));
        }
    }

    #[verifier::rlimit(100)]
    #[verifier::spinoff_prover]
    fn tick_events(&mut self, bus: &mut Bus, cpu: &mut Cpu) -> (r: u8)
        requires
            old(self)@.wf(),
            old(bus)@.wf(),
        ensures
            final(self)@.wf(),
            final(bus)@.wf(),
            ({
                let e = events_model(old(self)@, old(bus)@, *old(cpu));
                &&& final(self)@ == e.0
                &&& final(bus)@ == e.1
                &&& *final(cpu) == e.2
                &&& r == e.3
            }),
    {
        let mut cycles: u8 = 0;
        if self.line == 241 && self.cycle == 1 {
            self.status.vblank = true;
            self.status.write(bus);
            if self.control.nmi {
                cpu.NMI(bus);
                cycles = 7;
            }
        } else if self.line == 261 && self.cycle == 1 {
            self.status.vblank = false;
            self.status.hit = false;
            self.status.overflow = false;
            self.status.write(bus);
        }
        self.advance_exec();
        cycles
    }

    /// One dot of the picture unit, clocked three times per CPU cycle:
    /// renders during visible lines, evaluates sprites at dot 257, raises
    /// VBlank at (241, 1) -- interrupting the CPU when enabled, which the
    /// returned cycle count charges -- clears the status flags at (261, 1),
    /// and advances the dot counter.
    #[verifier::rlimit(100)]
    #[verifier::spinoff_prover]
    pub fn tick(&mut self, bus: &mut Bus, cpu: &mut Cpu) -> (r: u8)
        requires
            old(self)@.wf(),
            old(bus)@.wf(),
        ensures
            final(self)@.wf(),
            final(bus)@.wf(),
            ({
                let t = tick_model(old(self)@, old(bus)@, *old(cpu));
                &&& final(self)@ == t.0
                &&& final(bus)@ == t.1
                &&& *final(cpu) == t.2
                &&& r == t.3
            }),
            r <= 7,
    {
        proof {
            reveal(tick_model);
        }
        if self.line < 240 {
            // --------------------- GET SPRITES FOR NEXT LINE -----------------------
            if self.cycle == 257 {
                self.eval_sprites(bus);
            }
            if self.cycle >= 1 && self.cycle <= 256 {
                self.render_dot(bus);
            }
        }
        self.tick_events(bus, cpu)
    }
}

/// The bus and picture unit after the CPU stores `val` at `addr` inside the
/// register window: the raw byte lands at the mirrored address, then the
/// named register's side effect runs.
pub open spec fn regs_write_model(b: BusM, p: PpuM, addr: u16, val: u8) -> (BusM, PpuM, bool) {
    let ma = mirror_reg(addr);
    let b1 = wr_bus(b, ma, val);
    if ma == DATA {
        let r = write_data_model(p, b1, val);
        (r.1, r.0, r.2)
    } else if ma == ADDR {
        (b1, write_addr_model(p, val), true)
    } else if ma == OAM_DMA {
        (b1, oam_dma_model(p, b1, val), true)
    } else if ma == CONTROL {
        (b1, PpuM { control: control_from_byte(rd_val(b1, CONTROL)), ..p }, true)
    } else if ma == MASK {
        (b1, PpuM { mask: mask_from_byte(rd_val(b1, MASK)), ..p }, true)
    } else {
        (b1, p, true)
    }
}

/// The value and states after the CPU loads from `addr` inside the register
/// window: a STATUS read hands back the full byte, then clears its bit 7
/// and drops the address write-toggle.
pub open spec fn regs_read_model(b: BusM, p: PpuM, addr: u16) -> (u8, BusM, PpuM) {
    let ma = mirror_reg(addr);
    let v = rd_val(b, ma);
    let b1 = rd_bus(b, ma);
    if ma == STATUS {
        (
            v,
            BusM {
                cpu_mem: b1.cpu_mem.update(
                    STATUS as int,
                    spec_set_u8_bit(b1.cpu_mem[STATUS as int], 7, 0),
                ),
                ..b1
            },
            PpuM { w: false, ..p },
        )
    } else {
        (v, b1, p)
    }
}


/// The 2-bit color index pixel `n` of a pattern row carries: bit (7 - n) of
/// each plane, the high plane weighted double.
pub open spec fn pixel_2bit(pb0: u8, pb1: u8, n: u8) -> u8 {
    let sh = if n <= 7 {
        (7 - n) as u8
    } else {
        0u8
    };
    (pb1 >> sh & 0x01) << 1 | (pb0 >> sh & 0x01)
}

/// A pixel written into the frame plane, clipped to the visible 256 x 240
/// window; the dot counter starts at 1, so column `x` lands at index x - 1.
pub open spec fn frame_put(p: PpuM, x: u16, y: u16, color: u8) -> PpuM {
    if 1 <= x && x <= 256 && y < 240 {
        PpuM { frame: p.frame.update(y * 256 + x - 1, color), ..p }
    } else {
        p
    }
}

/// One tile pixel drawn at the current dot: an opaque color index (the
/// palette byte it selects) lands in the frame plane, a transparent one
/// leaves it alone. The second component tells whether the pixel was
/// opaque.
pub open spec fn draw_tile_model(
    p: PpuM,
    b: BusM,
    pb0: u8,
    pb1: u8,
    n: u8,
    palette_color: u16,
    use_offset: bool,
) -> (PpuM, bool) {
    let sum = pixel_2bit(pb0, pb1, n);
    if sum > 0 {
        let color = b.ppu_mem[palette_color + sum];
        let px = (p.cycle + if use_offset {
            n as u16
        } else {
            0u16
        }) as u16;
        (frame_put(p, px, p.line, color), true)
    } else {
        (p, false)
    }
}

/// One latched sprite considered at the current dot: if the dot falls in
/// its 8-pixel window it draws, honouring horizontal and vertical flip and
/// the 8 x 16 size bit, and a sprite-0 pixel over an opaque background
/// pixel raises the hit flag.
pub open spec fn sprite_step(p: PpuM, b: BusM, bg_drew: bool, j: int) -> (PpuM, BusM) {
    let sn = p.sprites[j] as int;
    let x = p.oam[4 * sn + 3];
    let y = p.oam[4 * sn];
    let cyc8 = (p.cycle % 256) as u8;
    let lin8 = (p.line % 256) as u8;
    if cyc8 >= x && cyc8 <= u8_specs::wrapping_add(x, 7) && lin8 <= u8_specs::wrapping_add(y, 7)
        && lin8 >= y {
        let tile = p.oam[4 * sn + 1];
        let attr = p.oam[4 * sn + 2];
        let sline0 = (lin8 - y) as u8;
        let flip_hor = attr >> 6 & 0x01 == 1;
        let flip_ver = attr >> 7 & 0x01 == 1;
        let sline = (if flip_ver {
            u8_specs::wrapping_sub(7, sline0)
        } else {
            sline0
        }) as u16;
        let pal = (0x3F00 + (attr & 0x03)) as u16;
        let xo0 = (cyc8 - x) as u8;
        let xo = if flip_hor {
            u8_specs::wrapping_sub(7, xo0)
        } else {
            xo0
        };
        if p.control.sprite_size == 1 {
            (sprite_tall_model(p, b, tile, sline, xo, pal), b)
        } else {
            sprite_short_model(p, b, bg_drew, sn == 0, tile, sline, xo, pal)
        }
    } else {
        (p, b)
    }
}

/// An 8 x 16 sprite's two stacked tiles drawn at the current dot; the row
/// counter is borrowed for the lower tile's position and restored.
pub open spec fn sprite_tall_model(p: PpuM, b: BusM, tile: u8, sline: u16, xo: u8, pal: u16) -> PpuM {
    let even = (tile >> 1) << 1;
    let half = tile >> 0 & 0x01;
    let pa1 = pattern_addr(even, sline, half);
    let d1 = draw_tile_model(p, b, b.ppu_mem[pa1 as int], b.ppu_mem[(pa1 | 1u16 << 3) as int], xo, pal, false);
    let p1 = PpuM { line: (d1.0.line + 7) as u16, ..d1.0 };
    let pa2 = pattern_addr(u8_specs::wrapping_add(even, 1), sline, half);
    let d2 = draw_tile_model(p1, b, b.ppu_mem[pa2 as int], b.ppu_mem[(pa2 | 1u16 << 3) as int], xo, pal, false);
    let p2 = PpuM { line: (d2.0.line + 7) as u16, ..d2.0 };
    PpuM { line: (p2.line - 14) as u16, ..p2 }
}

/// An 8 x 8 sprite's tile drawn at the current dot; an opaque sprite-0
/// pixel over an opaque background pixel raises the hit flag.
pub open spec fn sprite_short_model(
    p: PpuM,
    b: BusM,
    bg_drew: bool,
    is_zero: bool,
    tile: u8,
    sline: u16,
    xo: u8,
    pal: u16,
) -> (PpuM, BusM) {
    let pa = pattern_addr(tile, sline, p.control.sprite_address);
    let d = draw_tile_model(p, b, b.ppu_mem[pa as int], b.ppu_mem[(pa | 1u16 << 3) as int], xo, pal, false);
    if d.1 && is_zero && bg_drew {
        let p2 = PpuM { status: Status { hit: true, ..d.0.status }, ..d.0 };
        (p2, wr_bus(b, STATUS, status_byte(p2.status)))
    } else {
        (d.0, b)
    }
}

/// The latched sprites from `j` on, each applied in order.
pub open spec fn sprite_pass_model(p: PpuM, b: BusM, bg_drew: bool, j: int) -> (PpuM, BusM)
    decreases p.sprite_index - j,
{
    if j < 0 || j >= p.sprite_index {
        (p, b)
    } else {
        let s = sprite_step(p, b, bg_drew, j);
        sprite_pass_model(s.0, s.1, bg_drew, j + 1)
    }
}

/// The background fetch pipeline at one visible dot: the nametable byte of
/// the tile under the dot, its attribute quadrant, and the two pattern
/// planes; then the background pixel is drawn and the latched sprites are
/// overlaid.
pub open spec fn bg_draw_model(p: PpuM, b: BusM) -> (PpuM, bool) {
    let n = (p.cycle % 8) as u8;
    let nta = (p.control.nametable_address + (p.line / 8) * 32 + p.cycle / 8) as u16;
    let nt = b.ppu_mem[nta as int];
    let pa = pattern_addr(nt, (p.line % 8) as u16, p.control.background_address);
    let pb0 = b.ppu_mem[pa as int];
    let pb1 = b.ppu_mem[(pa | 1u16 << 3) as int];
    let attr = b.ppu_mem[(p.control.nametable_address + 0x3C0 + (p.line / 32) * 8 + p.cycle
        / 32) as int];
    let quadrant = if p.cycle % 32 <= 15 {
        if p.line % 32 <= 15 {
            attr & 0x03
        } else {
            attr >> 4 & 0x03
        }
    } else {
        if p.line % 32 <= 15 {
            attr >> 2 & 0x03
        } else {
            attr >> 6 & 0x03
        }
    };
    let pal = (0x3F00 + quadrant * 4) as u16;
    draw_tile_model(p, b, pb0, pb1, n, pal, false)
}

pub open spec fn render_dot_model(p: PpuM, b: BusM) -> (PpuM, BusM) {
    let d = bg_draw_model(p, b);
    sprite_pass_model(d.0, b, d.1, 0)
}

/// The stale tail of the sprite latch dropped: sprites whose row window
/// ended more than a line ago leave from the back.
pub open spec fn prune_sprites_model(p: PpuM) -> PpuM
    decreases p.sprite_index,
{
    if p.sprite_index > 0 && p.line >= 8 && p.oam[p.sprites[p.sprite_index - 1] * 4 as int] < (
    p.line - 8) as u8 {
        prune_sprites_model(PpuM { sprite_index: (p.sprite_index - 1) as usize, ..p })
    } else {
        p
    }
}

/// The scan for next line's sprites from OAM entry `n` on: each whose Y
/// byte names the next line is latched, and a ninth raises the overflow
/// flag instead.
pub open spec fn scan_sprites_model(p: PpuM, b: BusM, n: int) -> (PpuM, BusM)
    decreases 64 - n,
{
    if n < 0 || n >= 64 {
        (p, b)
    } else if p.line + 1 == p.oam[n * 4] {
        if p.sprite_index == 8 {
            let p2 = PpuM { status: Status { overflow: true, ..p.status }, ..p };
            scan_sprites_model(p2, wr_bus(b, STATUS, status_byte(p2.status)), n + 1)
        } else {
            scan_sprites_model(
                PpuM {
                    sprites: p.sprites.update(p.sprite_index as int, n as u8),
                    sprite_index: (p.sprite_index + 1) as usize,
                    ..p
                },
                b,
                n + 1,
            )
        }
    } else {
        scan_sprites_model(p, b, n + 1)
    }
}

/// Sprite evaluation at dot 257: prune the stale tail, then scan OAM for
/// the next line.
pub open spec fn eval_sprites_model(p: PpuM, b: BusM) -> (PpuM, BusM) {
    scan_sprites_model(prune_sprites_model(p), b, 0)
}

/// The dot counter advanced one step: 341 dots to a line, 262 lines to a
/// frame, and the sprite latch cleared at the frame wrap.
pub open spec fn advance_model(p: PpuM) -> PpuM {
    let cy = (p.cycle + 1) as u16;
    if cy > 340 {
        if p.line + 1 > 261 {
            PpuM { cycle: 0, line: 0, sprite_index: 0, ..p }
        } else {
            PpuM { cycle: 0, line: (p.line + 1) as u16, ..p }
        }
    } else {
        PpuM { cycle: cy, ..p }
    }
}

/// The frame-timing events at the current dot, and the dot counter's
/// advance: VBlank raised at (241, 1), with an interrupt to the CPU when
/// enabled, worth 7 cycles; VBlank, sprite-0-hit and overflow cleared at
/// (261, 1).
pub open spec fn events_model(p2: PpuM, b2: BusM, c: Cpu) -> (PpuM, BusM, Cpu, u8) {
    let s3 = if p2.line == 241 && p2.cycle == 1 {
        let pv = PpuM { status: Status { vblank: true, ..p2.status }, ..p2 };
        let bv = wr_bus(b2, STATUS, status_byte(pv.status));
        if pv.control.nmi {
            let nm = nmi_model(c, bv);
            (pv, nm.1, nm.0, 7u8)
        } else {
            (pv, bv, c, 0u8)
        }
    } else if p2.line == 261 && p2.cycle == 1 {
        let pv = PpuM {
            status: Status { vblank: false, hit: false, overflow: false, bus: p2.status.bus },
            ..p2
        };
        (pv, wr_bus(b2, STATUS, status_byte(pv.status)), c, 0u8)
    } else {
        (p2, b2, c, 0u8)
    };
    (advance_model(s3.0), s3.1, s3.2, s3.3)
}

/// One dot of the picture unit: sprite evaluation at dot 257 of a visible
/// line, rendering during its dots 1..=256, then the frame-timing events
/// and the dot counter's advance.
#[verifier::opaque]
pub open spec fn tick_model(p: PpuM, b: BusM, c: Cpu) -> (PpuM, BusM, Cpu, u8) {
    let s1 = if p.line < 240 && p.cycle == 257 {
        eval_sprites_model(p, b)
    } else {
        (p, b)
    };
    let s2 = if p.line < 240 && 1 <= p.cycle && p.cycle <= 256 {
        render_dot_model(s1.0, s1.1)
    } else {
        s1
    };
    events_model(s2.0, s2.1, c)
}

/// Address of row `line` of tile `tile` in pattern-table half `half`.
pub open spec fn pattern_addr(tile: u8, line: u16, half: u8) -> u16 {
    line | (tile as u16) << 4 | (half as u16) << 12
}

/// Pattern addresses stay inside the pattern tables.
pub proof fn lemma_pattern_addr_bound(tile: u8, line: u16, half: u8)
    by (bit_vector)
    requires
        line <= 7,
        half <= 1,
    ensures
        pattern_addr(tile, line, half) <= 0x1FFF,
        (pattern_addr(tile, line, half) | 1u16 << 3) <= 0x1FFF,
{
}

} // verus!
