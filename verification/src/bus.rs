//! The shared memory bus: the 64 KiB CPU address space, the 16 KiB picture
//! address space, and the controller port. Every access the CPU or the
//! picture unit makes goes through here.
//!
//! The abstract state of the bus is [`BusM`]; every operation's contract is
//! phrased as an equation over that model, via the `rd_*` / `wr_*` spec
//! functions, so that callers can chain accesses symbolically.

use vstd::prelude::*;

use crate::errors::EmuError;
use crate::ppu::{regs_read_model, regs_write_model, Ppu};
use crate::util::{
    combine16, combine_low_high, get_u16_bit, lemma_combine16, set_u8_bit, ADDR, CONTROL, DATA,
    INPUT, MASK, OAM_ADDR, OAM_DATA, OAM_DMA, STATUS,
};
use vstd::wrapping::{u16_specs, u8_specs};

verus! {

pub const CPU_MEMORY_SIZE: usize = 0x10000;
pub const PPU_MEMORY_SIZE: usize = 0x4000;

pub struct Bus {
    pub cpu_memory: Vec<u8>,
    pub ppu_memory: Vec<u8>,
    pub input: u8,
    pub polling: bool,
}

/// Mathematical model of the bus state.
#[verifier::ext_equal]
pub struct BusM {
    pub cpu_mem: Seq<u8>,
    pub ppu_mem: Seq<u8>,
    pub input: u8,
    pub polling: bool,
}

impl View for Bus {
    type V = BusM;

    open spec fn view(&self) -> BusM {
        BusM {
            cpu_mem: self.cpu_memory@,
            ppu_mem: self.ppu_memory@,
            input: self.input,
            polling: self.polling,
        }
    }
}

impl BusM {
    pub open spec fn wf(self) -> bool {
        &&& self.cpu_mem.len() == CPU_MEMORY_SIZE
        &&& self.ppu_mem.len() == PPU_MEMORY_SIZE
    }
}

/// The value a CPU read of `addr` returns: the controller port exposes only
/// bit 0 of its shift register, every other address its stored byte.
pub open spec fn rd_val(b: BusM, addr: u16) -> u8 {
    if addr == INPUT {
        b.cpu_mem[addr as int] & 1
    } else {
        b.cpu_mem[addr as int]
    }
}

/// The bus state after a CPU read of `addr`: a read of the controller port
/// right-shifts the shift register while the port is not being polled.
pub open spec fn rd_bus(b: BusM, addr: u16) -> BusM {
    if addr == INPUT && !b.polling {
        BusM { cpu_mem: b.cpu_mem.update(INPUT as int, b.cpu_mem[INPUT as int] >> 1), ..b }
    } else {
        b
    }
}

/// The bus state after a CPU write of `val` to `addr`. Writing 1 to the
/// controller port arms polling and latches the host input byte; writing 0
/// releases it; any other value there is ignored.
pub open spec fn wr_bus(b: BusM, addr: u16, val: u8) -> BusM {
    if addr == INPUT {
        if val == 1 {
            BusM { polling: true, cpu_mem: b.cpu_mem.update(INPUT as int, b.input), ..b }
        } else if val == 0 {
            BusM { polling: false, ..b }
        } else {
            b
        }
    } else {
        BusM { cpu_mem: b.cpu_mem.update(addr as int, val), ..b }
    }
}

/// The bus state after a picture-unit write of `val` to `addr`.
pub open spec fn ppu_wr(b: BusM, addr: u16, val: u8) -> BusM {
    BusM { ppu_mem: b.ppu_mem.update(addr as int, val), ..b }
}

/// The mod-8 mirror of the picture-unit register window: any address in
/// 0x2008..=0x3FFF reduces to 0x2000 + (addr - 0x2000) mod 8.
pub open spec fn mirror_reg(addr: u16) -> u16 {
    if 0x2008 <= addr && addr < 0x4000 {
        (0x2000 + ((addr - 0x2000) % 8)) as u16
    } else {
        addr
    }
}

/// The sign-extended displacement a relative-mode operand byte denotes.
pub open spec fn rel_i16(m: u8) -> i16 {
    if m >= 128 {
        (m - 256) as i16
    } else {
        m as i16
    }
}

/// The taken-branch page-cross penalty: one extra cycle when the branch
/// destination's bit 8 differs from that of the address after the branch
/// instruction, plus the bus after fetching the displacement.
pub open spec fn cross_rel_model(b: BusM, pc: u16) -> (u8, BusM) {
    let a1 = u16_specs::wrapping_add(pc, 1);
    let m = rd_val(b, a1);
    let b1 = rd_bus(b, a1);
    let base = u16_specs::wrapping_add(pc, 2);
    let dest = u16_specs::wrapping_add_signed(base, rel_i16(m));
    ((if (base >> 8 & 0x0001) != (dest >> 8 & 0x0001) {
        1u8
    } else {
        0u8
    }), b1)
}

/// The indirect-indexed page-cross penalty: one extra cycle exactly when
/// the low pointer byte plus the index carries into bit 8. The pointer's
/// high byte is fetched from (zp + 1) mod 256, as the addressing mode
/// itself fetches it.
pub open spec fn cross_idy_model(b: BusM, pc: u16, offset: u8) -> (u8, BusM) {
    let a1 = u16_specs::wrapping_add(pc, 1);
    let zp = rd_val(b, a1);
    let b1 = rd_bus(b, a1);
    let low = rd_val(b1, zp as u16);
    let b2 = rd_bus(b1, zp as u16);
    let b3 = rd_bus(b2, u8_specs::wrapping_add(zp, 1) as u16);
    ((if low + offset >= 256 {
        1u8
    } else {
        0u8
    }), b3)
}

/// The absolute-indexed page-cross penalty: one extra cycle when the low
/// operand byte plus the index carries into bit 8.
pub open spec fn cross_abs_model(b: BusM, pc: u16, offset: u8) -> (u8, BusM) {
    let a1 = u16_specs::wrapping_add(pc, 1);
    let a2 = u16_specs::wrapping_add(pc, 2);
    let low = rd_val(b, a1);
    let b1 = rd_bus(b, a1);
    let b2 = rd_bus(b1, a2);
    ((if low + offset >= 256 {
        1u8
    } else {
        0u8
    }), b2)
}

/// A memory decrement: the stored byte, minus one with wraparound, written
/// back.
pub open spec fn dec_model(b: BusM, addr: u16) -> (u8, BusM) {
    let v = u8_specs::wrapping_sub(rd_val(b, addr), 1);
    (v, wr_bus(rd_bus(b, addr), addr, v))
}

/// A memory increment: the stored byte, plus one with wraparound, written
/// back.
pub open spec fn inc_model(b: BusM, addr: u16) -> (u8, BusM) {
    let v = u8_specs::wrapping_add(rd_val(b, addr), 1);
    (v, wr_bus(rd_bus(b, addr), addr, v))
}

/// Reading one byte relative to the program counter.
pub open spec fn rd_single(b: BusM, addr: u16) -> (u8, BusM) {
    let a = crate::util::w16(addr - 1);
    (rd_val(b, a), rd_bus(b, a))
}

/// Reading a little-endian word relative to the program counter.
pub open spec fn rd_double(b: BusM, addr: u16) -> (u16, BusM) {
    let a0 = crate::util::w16(addr - 2);
    let a1 = crate::util::w16(addr - 1);
    let low = rd_val(b, a0);
    let b1 = rd_bus(b, a0);
    (combine16(low, rd_val(b1, a1)), rd_bus(b1, a1))
}

impl Bus {
    pub fn new() -> (r: Bus)
        ensures
            r@.wf(),
            r@.cpu_mem == Seq::new(CPU_MEMORY_SIZE as nat, |i: int| 0u8),
            r@.ppu_mem == Seq::new(PPU_MEMORY_SIZE as nat, |i: int| 0u8),
            r@.input == 0,
            r@.polling == false,
    {
        let r = Bus {
            cpu_memory: vec![0u8; CPU_MEMORY_SIZE],
            ppu_memory: vec![0u8; PPU_MEMORY_SIZE],
            input: 0,
            polling: false,
        };
        proof {
            assert(r@.cpu_mem =~= Seq::new(CPU_MEMORY_SIZE as nat, |i: int| 0u8));
            assert(r@.ppu_mem =~= Seq::new(PPU_MEMORY_SIZE as nat, |i: int| 0u8));
        }
        r
    }

    /// Copies a cartridge image into the address spaces. Mapper 0 only: the
    /// 16 KiB program bank lands at both 0x8000 and 0xC000, the 8 KiB
    /// character bank at the bottom of the picture space.
    pub fn load_cartridge(&mut self, rom: &Vec<u8>) -> (r: Result<(), EmuError>)
        requires
            old(self)@.wf(),
        ensures
            final(self)@.wf(),
            rom@.len() < 0x6010 ==> r == Result::<(), EmuError>::Err(
                EmuError::MalformedCartridge,
            ) && final(self)@ == old(self)@,
            rom@.len() >= 0x6010 && !(rom@[6] & 0x80 == 0 && rom@[7] & 0x80 == 0) ==> r
                == Result::<(), EmuError>::Err(EmuError::UnsupportedMapper)
                && final(self)@ == old(self)@,
            rom@.len() >= 0x6010 && rom@[6] & 0x80 == 0 && rom@[7] & 0x80 == 0 ==> {
                &&& r == Result::<(), EmuError>::Ok(())
                &&& final(self)@.input == old(self)@.input
                &&& final(self)@.polling == old(self)@.polling
                &&& final(self)@.cpu_mem.len() == old(self)@.cpu_mem.len()
                &&& final(self)@.ppu_mem.len() == old(self)@.ppu_mem.len()
                &&& forall|a: int|
                    0x8000 <= a < 0xC000 ==> #[trigger] final(self)@.cpu_mem[a] == rom@[a - 0x8000
                        + 0x10]
                &&& forall|a: int|
                    0xC000 <= a < 0x10000 ==> #[trigger] final(self)@.cpu_mem[a] == rom@[a - 0xC000
                        + 0x10]
                &&& forall|a: int|
                    0 <= a < 0x8000 ==> #[trigger] final(self)@.cpu_mem[a] == old(self)@.cpu_mem[a]
                &&& forall|a: int|
                    0 <= a < 0x2000 ==> #[trigger] final(self)@.ppu_mem[a] == rom@[a + 0x4010]
                &&& forall|a: int|
                    0x2000 <= a < 0x4000 ==> #[trigger] final(self)@.ppu_mem[a] == old(
                        self,
                    )@.ppu_mem[a]
            },
    {
        if rom.len() < 0x6010 {
            return Err(EmuError::MalformedCartridge);
        }
        let six = rom[6];
        let seven = rom[7];
        let mapper = combine_low_high(six & 0b10000000, seven & 0b10000000);
        proof {
            lemma_combine16(six & 0b10000000, seven & 0b10000000);
        }
        if mapper != 0 {
            return Err(EmuError::UnsupportedMapper);
        }
        let mut i: usize = 0x10;
        while i < 0x4010
            invariant
                0x10 <= i <= 0x4010,
                rom@.len() >= 0x6010,
                self@.wf(),
                self@.input == old(self)@.input,
                self@.polling == old(self)@.polling,
                self@.ppu_mem == old(self)@.ppu_mem,
                forall|a: int|
                    0x8000 <= a < 0x8000 + (i - 0x10) ==> #[trigger] self@.cpu_mem[a] == rom@[a
                        - 0x8000 + 0x10],
                forall|a: int|
                    0xC000 <= a < 0xC000 + (i - 0x10) ==> #[trigger] self@.cpu_mem[a] == rom@[a
                        - 0xC000 + 0x10],
                forall|a: int|
                    0 <= a < 0x8000 ==> #[trigger] self@.cpu_mem[a] == old(self)@.cpu_mem[a],
                forall|a: int|
                    0x8000 + (i - 0x10) <= a < 0xC000 ==> #[trigger] self@.cpu_mem[a] == old(
                        self,
                    )@.cpu_mem[a],
                forall|a: int|
                    0xC000 + (i - 0x10) <= a < 0x10000 ==> #[trigger] self@.cpu_mem[a] == old(
                        self,
                    )@.cpu_mem[a],
            decreases 0x4010 - i,
        {
            let v = rom[i];
            self.cpu_memory[0x8000 + i - 0x10] = v;
            self.cpu_memory[0xC000 + i - 0x10] = v;
            i = i + 1;
        }
        let mut i: usize = 0x4010;
        while i < 0x6010
            invariant
                0x4010 <= i <= 0x6010,
                rom@.len() >= 0x6010,
                self@.wf(),
                self@.input == old(self)@.input,
                self@.polling == old(self)@.polling,
                self@.cpu_mem.len() == old(self)@.cpu_mem.len(),
                forall|a: int|
                    0x8000 <= a < 0xC000 ==> #[trigger] self@.cpu_mem[a] == rom@[a - 0x8000 + 0x10],
                forall|a: int|
                    0xC000 <= a < 0x10000 ==> #[trigger] self@.cpu_mem[a] == rom@[a - 0xC000
                        + 0x10],
                forall|a: int|
                    0 <= a < 0x8000 ==> #[trigger] self@.cpu_mem[a] == old(self)@.cpu_mem[a],
                forall|a: int|
                    0 <= a < i - 0x4010 ==> #[trigger] self@.ppu_mem[a] == rom@[a + 0x4010],
                forall|a: int|
                    i - 0x4010 <= a < 0x4000 ==> #[trigger] self@.ppu_mem[a] == old(
                        self,
                    )@.ppu_mem[a],
            decreases 0x6010 - i,
        {
            let v = rom[i];
            self.ppu_memory[i - 0x4010] = v;
            i = i + 1;
        }
        Ok(())
    }

    /// Bounds guard for the picture address space; the bound is established
    /// statically by every caller.
    pub fn ppu_check_addr_in_range(&mut self, addr: usize)
        requires
            addr < PPU_MEMORY_SIZE,
        ensures
            *final(self) == *old(self),
    {
    }

    /// Bounds guard for the CPU address space; the bound is established
    /// statically by every caller.
    pub fn cpu_check_addr_in_range(&mut self, addr: usize)
        requires
            addr < CPU_MEMORY_SIZE,
        ensures
            *final(self) == *old(self),
    {
    }

    pub fn ppu_write_16(&mut self, addr: u16, val: u8)
        requires
            old(self)@.wf(),
            addr < PPU_MEMORY_SIZE,
        ensures
            final(self)@.wf(),
            final(self)@ == ppu_wr(old(self)@, addr, val),
    {
        let u_addr = addr as usize;
        self.ppu_check_addr_in_range(u_addr);
        self.ppu_memory[u_addr] = val;
        proof {
            assert(self@ =~= ppu_wr(old(self)@, addr, val));
        }
    }

    pub fn cpu_write_16(&mut self, addr: u16, val: u8)
        requires
            old(self)@.wf(),
        ensures
            final(self)@.wf(),
            final(self)@ == wr_bus(old(self)@, addr, val),
    {
        let u_addr = addr as usize;
        self.cpu_check_addr_in_range(u_addr);
        if addr == INPUT {
            if val == 1 {
                self.polling = true;
                self.cpu_memory[INPUT as usize] = self.input;
            } else if val == 0 {
                self.polling = false;
            }
            proof {
                assert(self@ =~= wr_bus(old(self)@, addr, val));
            }
            return ;
        }
        self.cpu_memory[u_addr] = val;
        proof {
            assert(self@ =~= wr_bus(old(self)@, addr, val));
        }
    }

    /// Reduces a CPU address inside the mirrored register window to the
    /// canonical register address.
    pub fn cpu_ppu_reg_addr_map(&mut self, addr: u16) -> (r: u16)
        ensures
            *final(self) == *old(self),
            r == mirror_reg(addr),
    {
        let mut mut_addr = addr;
        if mut_addr < 0x4000 && mut_addr > 0x2007 {
            mut_addr = 0x2000 + ((mut_addr - 0x2000) % 8);
        }
        mut_addr
    }

    pub fn cpu_read_16(&mut self, addr: u16) -> (r: u8)
        requires
            old(self)@.wf(),
        ensures
            final(self)@.wf(),
            r == rd_val(old(self)@, addr),
            final(self)@ == rd_bus(old(self)@, addr),
    {
        let u_addr = addr as usize;
        self.cpu_check_addr_in_range(u_addr);
        let mut ret = self.cpu_memory[u_addr];
        if addr == INPUT {
            ret = ret & 0x01;
            if !self.polling {
                let shifted = self.cpu_memory[u_addr] >> 1;
                self.cpu_memory[u_addr] = shifted;
            }
        }
        proof {
            assert(self@ =~= rd_bus(old(self)@, addr));
        }
        ret
    }

    // Read address in memory from a low and a high byte in low endian
    pub fn cpu_read_low_high(&mut self, low: u8, high: u8) -> (r: u8)
        requires
            old(self)@.wf(),
        ensures
            final(self)@.wf(),
            r == rd_val(old(self)@, combine16(low, high)),
            final(self)@ == rd_bus(old(self)@, combine16(low, high)),
    {
        let a = combine_low_high(low, high);
        self.cpu_read_16(a)
    }

    // Read zero page address
    pub fn cpu_read_8(&mut self, addr: u8) -> (r: u8)
        requires
            old(self)@.wf(),
        ensures
            final(self)@.wf(),
            r == rd_val(old(self)@, addr as u16),
            final(self)@ == rd_bus(old(self)@, addr as u16),
    {
        self.cpu_read_16(addr as u16)
    }

    // Read absolute address
    pub fn ppu_read_16(&mut self, addr: u16) -> (r: u8)
        requires
            old(self)@.wf(),
            addr < PPU_MEMORY_SIZE,
        ensures
            *final(self) == *old(self),
            r == old(self)@.ppu_mem[addr as int],
    {
        let u_addr = addr as usize;
        self.ppu_check_addr_in_range(u_addr);
        self.ppu_memory[u_addr]
    }

    /// Stores a byte the way the CPU's store instructions do: through the
    /// register mirror, with the picture unit's side effect for the register
    /// hit. Fails only when a DATA-port store finds the VRAM latch out of
    /// range.
    #[verifier::rlimit(80)]
    pub fn cpu_write_16_ppu_regs(&mut self, addr: u16, val: u8, ppu: &mut Ppu) -> (r: Result<
        (),
        EmuError,
    >)
        requires
            old(self)@.wf(),
            old(ppu)@.wf(),
        ensures
            final(self)@.wf(),
            final(ppu)@.wf(),
            final(self)@ == regs_write_model(old(self)@, old(ppu)@, addr, val).0,
            final(ppu)@ == regs_write_model(old(self)@, old(ppu)@, addr, val).1,
            r matches Ok(_) <==> regs_write_model(old(self)@, old(ppu)@, addr, val).2,
            r matches Err(e) ==> e == EmuError::VramAddrOutOfRange,
    {
        let mut_addr = self.cpu_ppu_reg_addr_map(addr);
        self.cpu_write_16(mut_addr, val);
        if mut_addr == DATA {
            match ppu.write_data(val, self) {
                Ok(u) => u,
                Err(e) => {
                    proof {
                        assert(self@ =~= regs_write_model(old(self)@, old(ppu)@, addr, val).0);
                        assert(ppu@ =~= regs_write_model(old(self)@, old(ppu)@, addr, val).1);
                    }
                    return Err(e);
                },
            }
        } else if mut_addr == ADDR {
            ppu.write_addr(val);
        } else if mut_addr == OAM_DATA {  // Only using OAM DMA for now
        } else if mut_addr == OAM_ADDR {
        } else if mut_addr == OAM_DMA {
            ppu.write_oam(val, self);
        } else if mut_addr == CONTROL {
            ppu.control.read(self);
        } else if mut_addr == MASK {
            ppu.mask.read(self);
        }
        proof {
            assert(self@ =~= regs_write_model(old(self)@, old(ppu)@, addr, val).0);
            assert(ppu@ =~= regs_write_model(old(self)@, old(ppu)@, addr, val).1);
        }
        Ok(())
    }

    /// Loads a byte the way the CPU's read path does: through the register
    /// mirror, with the STATUS read side effect (bit 7 cleared afterwards,
    /// write toggle dropped). The hardware race of a read landing on the
    /// very dot VBlank sets is not modelled.
    #[verifier::rlimit(80)]
    pub fn cpu_read_16_ppu_regs(&mut self, addr: u16, ppu: &mut Ppu) -> (r: u8)
        requires
            old(self)@.wf(),
            old(ppu)@.wf(),
        ensures
            final(self)@.wf(),
            final(ppu)@.wf(),
            r == regs_read_model(old(self)@, old(ppu)@, addr).0,
            final(self)@ == regs_read_model(old(self)@, old(ppu)@, addr).1,
            final(ppu)@ == regs_read_model(old(self)@, old(ppu)@, addr).2,
    {
        let mut_addr = self.cpu_ppu_reg_addr_map(addr);
        let temp = self.cpu_read_16(mut_addr);
        if mut_addr == STATUS {
            let cur = self.cpu_memory[STATUS as usize];
            let cleared = set_u8_bit(cur, 7, 0);
            self.cpu_memory[STATUS as usize] = cleared;
            ppu.w = false;
        }
        proof {
            assert(self@ =~= regs_read_model(old(self)@, old(ppu)@, addr).1);
            assert(ppu@ =~= regs_read_model(old(self)@, old(ppu)@, addr).2);
        }
        temp
    }

    // Read one byte in relation to the PC
    pub fn read_single(&mut self, addr: u16) -> (r: u8)
        requires
            old(self)@.wf(),
        ensures
            final(self)@.wf(),
            r == rd_single(old(self)@, addr).0,
            final(self)@ == rd_single(old(self)@, addr).1,
    {
        self.cpu_read_16(addr.wrapping_sub(1))
    }

    // Read two bytes in relation to the PC
    pub fn read_double(&mut self, addr: u16) -> (r: u16)
        requires
            old(self)@.wf(),
        ensures
            final(self)@.wf(),
            r == rd_double(old(self)@, addr).0,
            final(self)@ == rd_double(old(self)@, addr).1,
    {
        let low = self.cpu_read_16(addr.wrapping_sub(2));
        let high = self.cpu_read_16(addr.wrapping_sub(1));
        combine_low_high(low, high)
    }

    // Does addressing mode Rel cross the page?
    pub fn cross_rel(&mut self, pc: u16) -> (r: u8)
        requires
            old(self)@.wf(),
        ensures
            final(self)@.wf(),
            r == cross_rel_model(old(self)@, pc).0,
            final(self)@ == cross_rel_model(old(self)@, pc).1,
    {
        let m = self.cpu_read_16(pc.wrapping_add(1));
        let offset: i16 = if m >= 128 {
            m as i16 - 256
        } else {
            m as i16
        };
        let base = pc.wrapping_add(2);
        let new = base.wrapping_add_signed(offset);
        proof {
            crate::util::lemma_bit_basics();
        }
        if get_u16_bit(base, 8) != get_u16_bit(new, 8) {
            1
        } else {
            0
        }
    }

    // Does addressing mode Indexed Y cross the page?
    pub fn cross_idy(&mut self, pc: u16, offset: u8) -> (r: u8)
        requires
            old(self)@.wf(),
        ensures
            final(self)@.wf(),
            r == cross_idy_model(old(self)@, pc, offset).0,
            final(self)@ == cross_idy_model(old(self)@, pc, offset).1,
    {
        let addr = self.cpu_read_16(pc.wrapping_add(1));
        let low = self.cpu_read_8(addr);
        let _high = self.cpu_read_8(addr.wrapping_add(1));
        if (low as u16) + (offset as u16) >= 0x100 {
            1
        } else {
            0
        }
    }

    // Does addressing mode Indexed X cross the page?
    pub fn cross_abs(&mut self, pc: u16, offset: u8) -> (r: u8)
        requires
            old(self)@.wf(),
        ensures
            final(self)@.wf(),
            r == cross_abs_model(old(self)@, pc, offset).0,
            final(self)@ == cross_abs_model(old(self)@, pc, offset).1,
    {
        let low = self.cpu_read_16(pc.wrapping_add(1));
        let _high = self.cpu_read_16(pc.wrapping_add(2));
        if (low as u16) + (offset as u16) >= 0x100 {
            1
        } else {
            0
        }
    }

    #[allow(non_snake_case)]
    pub fn DEC(&mut self, addr: u16) -> (r: u8)
        requires
            old(self)@.wf(),
        ensures
            final(self)@.wf(),
            r == dec_model(old(self)@, addr).0,
            final(self)@ == dec_model(old(self)@, addr).1,
    {
        let val = self.cpu_read_16(addr).wrapping_sub(1);
        self.cpu_write_16(addr, val);
        val
    }

    #[allow(non_snake_case)]
    pub fn INC(&mut self, addr: u16) -> (r: u8)
        requires
            old(self)@.wf(),
        ensures
            final(self)@.wf(),
            r == inc_model(old(self)@, addr).0,
            final(self)@ == inc_model(old(self)@, addr).1,
    {
        let val = self.cpu_read_16(addr).wrapping_add(1);
        self.cpu_write_16(addr, val);
        val
    }
}

} // verus!
