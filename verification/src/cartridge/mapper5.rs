//! MMC5: four program modes, four character modes with extended bank
//! numbers, 1 KiB of on-board RAM that can stand in for a nametable, a fill
//! nametable, an 8x8 multiplier and a scanline interrupt.
//!
//! Program reads take a CPU address, of which only the low 15 bits matter.
//! Register writes take the CPU address itself, `$5000..=$5FFF`.

use vstd::prelude::*;
use crate::bits::bit;
use crate::cartridge::rom_at;
use crate::cartridge::rom_read;

verus! {

pub struct Mapper5 {
    pub(crate) prg_rom: Vec<u8>,
    pub(crate) chr_rom: Vec<u8>,
    pub(crate) exram: [u8; 0x400],
    pub(crate) exram_mode: u8,
    pub(crate) prg_mode: u8,
    pub(crate) prg_banks: [u8; 5],
    pub(crate) prg_ram_protect: [u8; 2],
    pub(crate) chr_mode: u8,
    pub(crate) chr_banks: [u16; 12],
    pub(crate) upper_chr_bank_bits: u8,
    pub(crate) nametable_mapping: [u8; 4],
    pub(crate) fill_mode_tile: u8,
    pub(crate) fill_mode_attr: u8,
    pub(crate) vsplit_enabled: bool,
    pub(crate) vsplit_side: bool,
    pub(crate) vsplit_tile: u8,
    pub(crate) vsplit_scroll: u8,
    pub(crate) vsplit_bank: u8,
    pub(crate) in_split_area: bool,
    pub(crate) irq_scanline: u8,
    pub(crate) irq_enabled: bool,
    pub(crate) irq_pending: bool,
    pub(crate) irq_in_frame: bool,
    pub(crate) scanline_counter: u8,
    pub(crate) ppu_is_rendering: bool,
    pub(crate) last_ppu_read: u16,
    pub(crate) consecutive_nametable_reads: u8,
    pub(crate) multiplicand_a: u8,
    pub(crate) multiplicand_b: u8,
}

/// The mathematical content of a [`Mapper5`].
pub struct Mapper5View {
    pub prg_rom: Seq<u8>,
    pub chr_rom: Seq<u8>,
    pub exram: Seq<u8>,
    pub exram_mode: u8,
    pub prg_mode: u8,
    pub prg_banks: Seq<u8>,
    pub prg_ram_protect: Seq<u8>,
    pub chr_mode: u8,
    pub chr_banks: Seq<u16>,
    pub upper_chr_bank_bits: u8,
    pub nametable_mapping: Seq<u8>,
    pub fill_mode_tile: u8,
    pub fill_mode_attr: u8,
    pub vsplit_enabled: bool,
    pub vsplit_side: bool,
    pub vsplit_tile: u8,
    pub vsplit_scroll: u8,
    pub vsplit_bank: u8,
    pub in_split_area: bool,
    pub irq_scanline: u8,
    pub irq_enabled: bool,
    pub irq_pending: bool,
    pub irq_in_frame: bool,
    pub scanline_counter: u8,
    pub ppu_is_rendering: bool,
    pub last_ppu_read: u16,
    pub consecutive_nametable_reads: u8,
    pub multiplicand_a: u8,
    pub multiplicand_b: u8,
}

impl View for Mapper5 {
    type V = Mapper5View;

    open(crate) spec fn view(&self) -> Mapper5View {
        Mapper5View {
            prg_rom: self.prg_rom@,
            chr_rom: self.chr_rom@,
            exram: self.exram@,
            exram_mode: self.exram_mode,
            prg_mode: self.prg_mode,
            prg_banks: self.prg_banks@,
            prg_ram_protect: self.prg_ram_protect@,
            chr_mode: self.chr_mode,
            chr_banks: self.chr_banks@,
            upper_chr_bank_bits: self.upper_chr_bank_bits,
            nametable_mapping: self.nametable_mapping@,
            fill_mode_tile: self.fill_mode_tile,
            fill_mode_attr: self.fill_mode_attr,
            vsplit_enabled: self.vsplit_enabled,
            vsplit_side: self.vsplit_side,
            vsplit_tile: self.vsplit_tile,
            vsplit_scroll: self.vsplit_scroll,
            vsplit_bank: self.vsplit_bank,
            in_split_area: self.in_split_area,
            irq_scanline: self.irq_scanline,
            irq_enabled: self.irq_enabled,
            irq_pending: self.irq_pending,
            irq_in_frame: self.irq_in_frame,
            scanline_counter: self.scanline_counter,
            ppu_is_rendering: self.ppu_is_rendering,
            last_ppu_read: self.last_ppu_read,
            consecutive_nametable_reads: self.consecutive_nametable_reads,
            multiplicand_a: self.multiplicand_a,
            multiplicand_b: self.multiplicand_b,
        }
    }
}

/// Number of the last 8 KiB bank of a ROM, as the bank register holds it.
pub open spec fn last_bank_number(len: int) -> u8 {
    if len >= 0x2000 {
        ((len / 0x2000 - 1) % 256) as u8
    } else {
        0
    }
}

/// Offset into the program ROM for offset `off` of the 32 KiB window.
/// Mode 0 switches 32 KiB by the last register; mode 1 two halves of 16 KiB;
/// mode 2 one half of 16 KiB and two banks of 8 KiB; mode 3 four banks of
/// 8 KiB. Registers that select more than 8 KiB drop their low bits.
pub open spec fn mmc5_prg_linear(mode: u8, banks: Seq<u8>, off: int) -> int {
    if mode == 0 {
        (banks[4] / 4) * 0x8000 + off
    } else if mode == 1 {
        if off < 0x4000 {
            (banks[2] / 2) * 0x4000 + off
        } else {
            (banks[4] / 2) * 0x4000 + (off - 0x4000)
        }
    } else if mode == 2 {
        if off < 0x4000 {
            (banks[2] / 2) * 0x4000 + off
        } else if off < 0x6000 {
            banks[3] as int * 0x2000 + (off - 0x4000)
        } else {
            banks[4] as int * 0x2000 + (off - 0x6000)
        }
    } else {
        banks[off / 0x2000 + 1] as int * 0x2000 + off % 0x2000
    }
}

/// Size of one character bank in each mode: 8, 4, 2 or 1 KiB.
pub open spec fn mmc5_chr_bank_size(mode: u8) -> int {
    if mode == 1 {
        0x1000
    } else if mode == 2 {
        0x800
    } else if mode == 3 {
        0x400
    } else {
        0x2000
    }
}

/// Which bank register serves offset `off` of the pattern space.
pub open spec fn mmc5_chr_register(mode: u8, off: int) -> int {
    if mode == 1 {
        (off / 0x1000) * 4
    } else if mode == 2 {
        (off / 0x800) * 2
    } else if mode == 3 {
        off / 0x400
    } else {
        0
    }
}

impl Mapper5View {
    /// The state a board starts in: mode 3, every program register on bank
    /// `$FF` but the last, which holds the last bank of the ROM.
    pub open spec fn power_on(prg_rom: Seq<u8>, chr_rom: Seq<u8>) -> Mapper5View {
        Mapper5View {
            prg_rom,
            chr_rom,
            exram: Seq::new(0x400, |i: int| 0u8),
            exram_mode: 0,
            prg_mode: 3,
            prg_banks: seq![0xFFu8, 0xFFu8, 0xFFu8, 0xFFu8, last_bank_number(prg_rom.len() as int)],
            prg_ram_protect: seq![0u8, 0u8],
            chr_mode: 0,
            chr_banks: Seq::new(12, |i: int| 0u16),
            upper_chr_bank_bits: 0,
            nametable_mapping: seq![0u8, 0u8, 0u8, 0u8],
            fill_mode_tile: 0,
            fill_mode_attr: 0,
            vsplit_enabled: false,
            vsplit_side: false,
            vsplit_tile: 0,
            vsplit_scroll: 0,
            vsplit_bank: 0,
            in_split_area: false,
            irq_scanline: 0,
            irq_enabled: false,
            irq_pending: false,
            irq_in_frame: false,
            scanline_counter: 0,
            ppu_is_rendering: false,
            last_ppu_read: 0,
            consecutive_nametable_reads: 0,
            multiplicand_a: 0,
            multiplicand_b: 0,
        }
    }

    /// What a CPU read from the program window returns. A mode outside 0 to 3
    /// reads as zero.
    pub open spec fn read_prg(self, addr: u16) -> u8 {
        if self.prg_mode <= 3 {
            rom_at(self.prg_rom, mmc5_prg_linear(self.prg_mode, self.prg_banks, (addr % 0x8000) as int))
        } else {
            0
        }
    }

    /// The board after a CPU write to one of its registers. Addresses that
    /// hold no register leave it unchanged, as do the sound registers at
    /// `$5000..=$5015`.
    pub open spec fn write_prg(self, addr: u16, value: u8) -> Mapper5View {
        if addr == 0x5100 {
            Mapper5View { prg_mode: value % 4, ..self }
        } else if addr == 0x5101 {
            Mapper5View { chr_mode: value % 4, ..self }
        } else if addr == 0x5102 {
            Mapper5View { prg_ram_protect: self.prg_ram_protect.update(0, value % 4), ..self }
        } else if addr == 0x5103 {
            Mapper5View { prg_ram_protect: self.prg_ram_protect.update(1, value % 4), ..self }
        } else if addr == 0x5104 {
            Mapper5View { exram_mode: value % 4, ..self }
        } else if addr == 0x5105 {
            Mapper5View {
                nametable_mapping: seq![
                    value % 4,
                    (value / 4) % 4,
                    (value / 16) % 4,
                    value / 64,
                ],
                ..self
            }
        } else if addr == 0x5106 {
            Mapper5View { fill_mode_tile: value, ..self }
        } else if addr == 0x5107 {
            Mapper5View { fill_mode_attr: value % 4, ..self }
        } else if 0x5113 <= addr <= 0x5117 {
            Mapper5View { prg_banks: self.prg_banks.update(addr - 0x5113, value), ..self }
        } else if 0x5120 <= addr <= 0x512B {
            Mapper5View {
                chr_banks: self.chr_banks.update(
                    addr - 0x5120,
                    (self.upper_chr_bank_bits * 0x100 + value) as u16,
                ),
                ..self
            }
        } else if addr == 0x5130 {
            Mapper5View { upper_chr_bank_bits: value % 4, ..self }
        } else if addr == 0x5200 {
            Mapper5View {
                vsplit_enabled: value >= 128,
                vsplit_side: bit(value as int, 64),
                vsplit_tile: value % 32,
                ..self
            }
        } else if addr == 0x5201 {
            Mapper5View { vsplit_scroll: value, ..self }
        } else if addr == 0x5202 {
            Mapper5View { vsplit_bank: value, ..self }
        } else if addr == 0x5203 {
            Mapper5View { irq_scanline: value, ..self }
        } else if addr == 0x5204 {
            Mapper5View { irq_enabled: value >= 128, ..self }
        } else if addr == 0x5205 {
            Mapper5View { multiplicand_a: value, ..self }
        } else if addr == 0x5206 {
            Mapper5View { multiplicand_b: value, ..self }
        } else if 0x5C00 <= addr <= 0x5FFF {
            if self.exram_mode < 3 {
                Mapper5View { exram: self.exram.update(addr - 0x5C00, value), ..self }
            } else {
                self
            }
        } else {
            self
        }
    }

    /// What a pattern fetch returns. Only the low 13 address bits take part.
    pub open spec fn read_chr(self, addr: u16) -> u8 {
        let off = (addr % 0x2000) as int;
        let size = mmc5_chr_bank_size(self.chr_mode);
        rom_at(
            self.chr_rom,
            self.chr_banks[mmc5_chr_register(self.chr_mode, off)] as int * size + off % size,
        )
    }

    /// What the board supplies for a nametable fetch. Address bits 10-11
    /// pick the table. A table mapped to console memory yields zero here, the
    /// picture unit serving it; a table mapped to on-board RAM reads it in
    /// modes 0 and 1; a fill table yields the fill tile, or the fill
    /// attribute in its last 64 bytes.
    pub open spec fn read_nametable(self, addr: u16) -> u8 {
        let source = self.nametable_mapping[((addr / 0x400) % 4) as int];
        if source == 2 {
            if self.exram_mode == 0 || self.exram_mode == 1 {
                self.exram[(addr % 0x400) as int]
            } else {
                0
            }
        } else if source == 3 {
            if addr % 0x400 < 0x3C0 {
                self.fill_mode_tile
            } else {
                self.fill_mode_attr
            }
        } else {
            0
        }
    }

    /// The product of the two multiplier registers.
    pub open spec fn multiplication_result(self) -> int {
        self.multiplicand_a as int * self.multiplicand_b as int
    }

    /// The board after a scanline while rendering: the interrupt becomes
    /// pending when the counter meets the target while enabled, and the
    /// counter advances, wrapping at 256. Outside rendering nothing moves.
    pub open spec fn clock_scanline(self) -> Mapper5View {
        if self.ppu_is_rendering {
            Mapper5View {
                irq_pending: self.irq_pending || (self.scanline_counter == self.irq_scanline
                    && self.irq_enabled),
                scanline_counter: ((self.scanline_counter + 1) % 256) as u8,
                ..self
            }
        } else {
            self
        }
    }

    /// The board after being told whether the picture unit renders. Leaving
    /// rendering clears the scanline counter and the in-frame flag.
    pub open spec fn notify_ppu_state(self, rendering: bool) -> Mapper5View {
        if rendering {
            Mapper5View { ppu_is_rendering: true, ..self }
        } else {
            Mapper5View {
                ppu_is_rendering: false,
                scanline_counter: 0,
                irq_in_frame: false,
                ..self
            }
        }
    }
}

impl Mapper5 {
    pub fn new(prg_rom: Vec<u8>, chr_rom: Vec<u8>) -> (r: Self)
        ensures
            r@ == Mapper5View::power_on(prg_rom@, chr_rom@),
    {
        let len = prg_rom.len();
        let last_bank: u8 = if len >= 0x2000 {
            ((len / 0x2000 - 1) % 256) as u8
        } else {
            0
        };
        let r = Mapper5 {
            prg_rom,
            chr_rom,
            exram: [0u8; 0x400],
            exram_mode: 0,
            prg_mode: 3,
            prg_banks: [0xFF, 0xFF, 0xFF, 0xFF, last_bank],
            prg_ram_protect: [0u8; 2],
            chr_mode: 0,
            chr_banks: [0u16; 12],
            upper_chr_bank_bits: 0,
            nametable_mapping: [0u8; 4],
            fill_mode_tile: 0,
            fill_mode_attr: 0,
            vsplit_enabled: false,
            vsplit_side: false,
            vsplit_tile: 0,
            vsplit_scroll: 0,
            vsplit_bank: 0,
            in_split_area: false,
            irq_scanline: 0,
            irq_enabled: false,
            irq_pending: false,
            irq_in_frame: false,
            scanline_counter: 0,
            ppu_is_rendering: false,
            last_ppu_read: 0,
            consecutive_nametable_reads: 0,
            multiplicand_a: 0,
            multiplicand_b: 0,
        };
        proof {
            let want = Mapper5View::power_on(prg_rom@, chr_rom@);
            assert(r@.exram =~= want.exram);
            assert(r@.prg_banks =~= want.prg_banks);
            assert(r@.prg_ram_protect =~= want.prg_ram_protect);
            assert(r@.chr_banks =~= want.chr_banks);
            assert(r@.nametable_mapping =~= want.nametable_mapping);
        }
        r
    }

    /// Reads the program window. See [`Mapper5View::read_prg`].
    pub fn read_prg(&self, addr: u16) -> (r: u8)
        ensures
            r == self@.read_prg(addr),
    {
        let off: usize = (addr % 0x8000) as usize;
        let linear: usize = match self.prg_mode {
            0 => (self.prg_banks[4] / 4) as usize * 0x8000 + off,
            1 => {
                if off < 0x4000 {
                    (self.prg_banks[2] / 2) as usize * 0x4000 + off
                } else {
                    (self.prg_banks[4] / 2) as usize * 0x4000 + (off - 0x4000)
                }
            },
            2 => {
                if off < 0x4000 {
                    (self.prg_banks[2] / 2) as usize * 0x4000 + off
                } else if off < 0x6000 {
                    self.prg_banks[3] as usize * 0x2000 + (off - 0x4000)
                } else {
                    self.prg_banks[4] as usize * 0x2000 + (off - 0x6000)
                }
            },
            3 => self.prg_banks[off / 0x2000 + 1] as usize * 0x2000 + off % 0x2000,
            _ => {
                return 0;
            },
        };
        rom_read(&self.prg_rom, linear)
    }

    /// Writes a register. See [`Mapper5View::write_prg`].
    pub fn write_prg(&mut self, addr: u16, value: u8)
        ensures
            final(self)@ == old(self)@.write_prg(addr, value),
    {
        if addr == 0x5100 {
            self.prg_mode = value % 4;
        } else if addr == 0x5101 {
            self.chr_mode = value % 4;
        } else if addr == 0x5102 {
            self.prg_ram_protect[0] = value % 4;
        } else if addr == 0x5103 {
            self.prg_ram_protect[1] = value % 4;
        } else if addr == 0x5104 {
            self.exram_mode = value % 4;
        } else if addr == 0x5105 {
            self.nametable_mapping[0] = value % 4;
            self.nametable_mapping[1] = (value / 4) % 4;
            self.nametable_mapping[2] = (value / 16) % 4;
            self.nametable_mapping[3] = value / 64;
            assert(self@.nametable_mapping =~= old(self)@.write_prg(addr, value).nametable_mapping);
        } else if addr == 0x5106 {
            self.fill_mode_tile = value;
        } else if addr == 0x5107 {
            self.fill_mode_attr = value % 4;
        } else if 0x5113 <= addr && addr <= 0x5117 {
            self.prg_banks[(addr - 0x5113) as usize] = value;
        } else if 0x5120 <= addr && addr <= 0x512B {
            self.chr_banks[(addr - 0x5120) as usize] = self.upper_chr_bank_bits as u16 * 0x100
                + value as u16;
        } else if addr == 0x5130 {
            self.upper_chr_bank_bits = value % 4;
        } else if addr == 0x5200 {
            self.vsplit_enabled = value >= 128;
            self.vsplit_side = (value / 64) % 2 == 1;
            self.vsplit_tile = value % 32;
        } else if addr == 0x5201 {
            self.vsplit_scroll = value;
        } else if addr == 0x5202 {
            self.vsplit_bank = value;
        } else if addr == 0x5203 {
            self.irq_scanline = value;
        } else if addr == 0x5204 {
            self.irq_enabled = value >= 128;
        } else if addr == 0x5205 {
            self.multiplicand_a = value;
        } else if addr == 0x5206 {
            self.multiplicand_b = value;
        } else if 0x5C00 <= addr && addr <= 0x5FFF {
            if self.exram_mode < 3 {
                self.exram[(addr - 0x5C00) as usize] = value;
            }
        }
    }

    /// Reads a pattern byte. See [`Mapper5View::read_chr`].
    pub fn read_chr(&self, addr: u16) -> (r: u8)
        ensures
            r == self@.read_chr(addr),
    {
        let off: usize = (addr % 0x2000) as usize;
        let register: usize = match self.chr_mode {
            1 => (off / 0x1000) * 4,
            2 => (off / 0x800) * 2,
            3 => off / 0x400,
            _ => 0,
        };
        let size: usize = match self.chr_mode {
            1 => 0x1000,
            2 => 0x800,
            3 => 0x400,
            _ => 0x2000,
        };
        let bank: usize = self.chr_banks[register] as usize;
        assert(bank * size <= 0xFFFF * 0x2000) by (nonlinear_arith)
            requires
                bank <= 0xFFFF,
                size <= 0x2000,
        ;
        rom_read(&self.chr_rom, bank * size + off % size)
    }

    /// Supplies a nametable byte. See [`Mapper5View::read_nametable`].
    pub fn read_nametable(&self, addr: u16) -> (r: u8)
        ensures
            r == self@.read_nametable(addr),
    {
        let table: usize = ((addr / 0x400) % 4) as usize;
        match self.nametable_mapping[table] {
            2 => {
                if self.exram_mode == 0 || self.exram_mode == 1 {
                    self.exram[(addr % 0x400) as usize]
                } else {
                    0
                }
            },
            3 => {
                if addr % 0x400 < 0x3C0 {
                    self.fill_mode_tile
                } else {
                    self.fill_mode_attr
                }
            },
            _ => 0,
        }
    }

    /// The product of the two multiplier registers.
    pub fn get_multiplication_result(&self) -> (r: u16)
        ensures
            r == self@.multiplication_result(),
    {
        assert(self.multiplicand_a as int * self.multiplicand_b as int <= 255 * 255)
            by (nonlinear_arith)
            requires
                self.multiplicand_a <= 255,
                self.multiplicand_b <= 255,
        ;
        (self.multiplicand_a as u16) * (self.multiplicand_b as u16)
    }

    /// Counts one scanline. See [`Mapper5View::clock_scanline`].
    pub fn clock_scanline(&mut self)
        ensures
            final(self)@ == old(self)@.clock_scanline(),
    {
        if self.ppu_is_rendering {
            if self.scanline_counter == self.irq_scanline {
                if self.irq_enabled {
                    self.irq_pending = true;
                }
            }
            self.scanline_counter = self.scanline_counter.wrapping_add(1);
        }
    }

    /// Records whether the picture unit renders. See
    /// [`Mapper5View::notify_ppu_state`].
    pub fn notify_ppu_state(&mut self, rendering: bool)
        ensures
            final(self)@ == old(self)@.notify_ppu_state(rendering),
    {
        self.ppu_is_rendering = rendering;
        if !rendering {
            self.scanline_counter = 0;
            self.irq_in_frame = false;
        }
    }

    /// Whether the board carries character ROM.
    pub fn has_chr_rom(&self) -> (r: bool)
        ensures
            r == (self@.chr_rom.len() > 0),
    {
        self.chr_rom.len() > 0
    }

    /// Whether the scanline interrupt is pending.
    pub fn get_irq_pending(&self) -> (r: bool)
        ensures
            r == self@.irq_pending,
    {
        self.irq_pending
    }

    /// Acknowledges the scanline interrupt; nothing else changes.
    pub fn clear_irq(&mut self)
        ensures
            final(self)@ == (Mapper5View { irq_pending: false, ..old(self)@ }),
    {
        self.irq_pending = false;
    }
}

} // verus!
