//! MMC3: eight bank registers behind a select port, two program modes, two
//! character modes and a scanline counter that raises an interrupt.
//!
//! The board takes CPU addresses: work RAM sits at `$6000..=$7FFF`, the
//! four 8 KiB program slots and the register pairs at `$8000`, `$A000`,
//! `$C000` and `$E000`.

use vstd::prelude::*;
use crate::bits::bit;
use crate::cartridge::last_bank_base;
use crate::cartridge::rom_at;
use crate::cartridge::rom_read_at;
use crate::cartridge::wrapped_sum;

verus! {

pub struct Mapper4 {
    pub(crate) prg_rom: Vec<u8>,
    pub(crate) chr_rom: Vec<u8>,
    pub(crate) chr_is_ram: bool,
    pub(crate) prg_ram: [u8; 0x2000],
    pub(crate) bank_select: u8,
    pub(crate) bank_data: [u8; 8],
    pub(crate) prg_ram_protect: bool,
    pub(crate) mirroring: u8,
    pub(crate) irq_enabled: bool,
    pub(crate) irq_counter: u8,
    pub(crate) irq_latch: u8,
    pub(crate) irq_reload: bool,
    pub irq_pending: bool,
}

/// The mathematical content of a [`Mapper4`].
pub struct Mapper4View {
    pub prg_rom: Seq<u8>,
    pub chr_rom: Seq<u8>,
    pub chr_is_ram: bool,
    pub prg_ram: Seq<u8>,
    pub bank_select: u8,
    pub bank_data: Seq<u8>,
    pub prg_ram_protect: bool,
    pub mirroring: u8,
    pub irq_enabled: bool,
    pub irq_counter: u8,
    pub irq_latch: u8,
    pub irq_reload: bool,
    pub irq_pending: bool,
}

impl View for Mapper4 {
    type V = Mapper4View;

    open(crate) spec fn view(&self) -> Mapper4View {
        Mapper4View {
            prg_rom: self.prg_rom@,
            chr_rom: self.chr_rom@,
            chr_is_ram: self.chr_is_ram,
            prg_ram: self.prg_ram@,
            bank_select: self.bank_select,
            bank_data: self.bank_data@,
            prg_ram_protect: self.prg_ram_protect,
            mirroring: self.mirroring,
            irq_enabled: self.irq_enabled,
            irq_counter: self.irq_counter,
            irq_latch: self.irq_latch,
            irq_reload: self.irq_reload,
            irq_pending: self.irq_pending,
        }
    }
}

/// Start of bank `number` of `size` bytes, wrapped into a ROM of `len` bytes.
pub open spec fn bank_base(number: int, size: int, len: int) -> int {
    if len == 0 {
        0
    } else {
        (number * size) % len
    }
}

/// Where program slot `slot` (0 to 3) begins. R6 and R7 are switchable, the
/// last slot shows the last 8 KiB, and bit 6 of the select port swaps R6 with
/// the second-to-last 8 KiB between slots 0 and 2.
pub open spec fn mmc3_prg_base(select: u8, data: Seq<u8>, len: int, slot: int) -> int {
    let swapped = bit(select as int, 64);
    let r6 = bank_base(data[6] as int, 0x2000, len);
    let r7 = bank_base(data[7] as int, 0x2000, len);
    let fixed = last_bank_base(len, 0x4000);
    if slot == 0 {
        if swapped { fixed } else { r6 }
    } else if slot == 1 {
        r7
    } else if slot == 2 {
        if swapped { r6 } else { fixed }
    } else {
        last_bank_base(len, 0x2000)
    }
}

/// The 1 KiB bank number shown in character slot `slot` (0 to 7) when the
/// two 2 KiB pairs come first: R0 and R1 each give an even bank and its odd
/// neighbour, R2 to R5 give one bank each.
pub open spec fn mmc3_chr_number(data: Seq<u8>, slot: int) -> int {
    if slot == 0 {
        data[0] - data[0] % 2
    } else if slot == 1 {
        data[0] - data[0] % 2 + 1
    } else if slot == 2 {
        data[1] - data[1] % 2
    } else if slot == 3 {
        data[1] - data[1] % 2 + 1
    } else {
        data[slot - 2] as int
    }
}

/// Where character slot `slot` begins. Bit 7 of the select port swaps the
/// two halves of the pattern space.
pub open spec fn mmc3_chr_base(select: u8, data: Seq<u8>, len: int, slot: int) -> int {
    let swapped = select >= 128;
    let source = if swapped { (slot + 4) % 8 } else { slot };
    bank_base(mmc3_chr_number(data, source), 0x400, len)
}

impl Mapper4View {
    /// Offset into the program ROM that a CPU address in `$8000..=$FFFF`
    /// reaches: the start of its slot plus the offset within the slot.
    pub open spec fn prg_linear(self, addr: u16) -> int {
        mmc3_prg_base(
            self.bank_select,
            self.bank_data,
            self.prg_rom.len() as int,
            (addr - 0x8000) / 0x2000,
        ) + addr % 0x2000
    }

    /// Offset into the character memory that a pattern address reaches.
    /// Only the low 13 address bits take part.
    pub open spec fn chr_linear(self, addr: u16) -> int {
        let off = (addr % 0x2000) as int;
        mmc3_chr_base(self.bank_select, self.bank_data, self.chr_rom.len() as int, off / 0x400) + off
            % 0x400
    }

    /// What a CPU read returns. Work RAM at `$6000..=$7FFF` answers only
    /// while enabled; the four program slots at `$8000..=$FFFF` read the ROM,
    /// the last of them always showing the last 8 KiB; anything below
    /// `$6000` reads as zero.
    pub open spec fn read_prg(self, addr: u16) -> u8 {
        if addr < 0x6000 {
            0
        } else if addr < 0x8000 {
            if self.prg_ram_protect {
                self.prg_ram[addr - 0x6000]
            } else {
                0
            }
        } else {
            rom_at(self.prg_rom, self.prg_linear(addr))
        }
    }

    /// The board after a CPU write. Work RAM at `$6000..=$7FFF` takes the
    /// byte while enabled. Each 8 KiB range above holds a register pair,
    /// the even address selecting the first:
    /// `$8000` bank select / bank data, `$A000` mirroring / work RAM enable,
    /// `$C000` interrupt latch / interrupt reload, `$E000` interrupt
    /// disable / interrupt enable. Writes below `$6000` are ignored.
    pub open spec fn write_prg(self, addr: u16, value: u8) -> Mapper4View {
        let even = addr % 2 == 0;
        if addr < 0x6000 {
            self
        } else if addr < 0x8000 {
            if self.prg_ram_protect {
                Mapper4View { prg_ram: self.prg_ram.update(addr - 0x6000, value), ..self }
            } else {
                self
            }
        } else if addr < 0xA000 {
            if even {
                Mapper4View { bank_select: value, ..self }
            } else {
                Mapper4View {
                    bank_data: self.bank_data.update((self.bank_select % 8) as int, value),
                    ..self
                }
            }
        } else if addr < 0xC000 {
            if even {
                Mapper4View { mirroring: value % 2, ..self }
            } else {
                Mapper4View { prg_ram_protect: value >= 128, ..self }
            }
        } else if addr < 0xE000 {
            if even {
                Mapper4View { irq_latch: value, ..self }
            } else {
                Mapper4View { irq_reload: true, irq_counter: 0, ..self }
            }
        } else {
            if even {
                Mapper4View { irq_enabled: false, irq_pending: false, ..self }
            } else {
                Mapper4View { irq_enabled: true, ..self }
            }
        }
    }

    /// What a pattern fetch returns. Only the low 13 address bits take part.
    pub open spec fn read_chr(self, addr: u16) -> u8 {
        rom_at(self.chr_rom, self.chr_linear(addr))
    }

    /// The board after a pattern write: character RAM takes the byte,
    /// character ROM ignores it.
    pub open spec fn write_chr(self, addr: u16, value: u8) -> Mapper4View {
        if self.chr_is_ram && self.chr_rom.len() > 0 {
            Mapper4View {
                chr_rom: self.chr_rom.update(
                    self.chr_linear(addr) % self.chr_rom.len() as int,
                    value,
                ),
                ..self
            }
        } else {
            self
        }
    }

    /// The counter after one scanline: reloaded from the latch when it was
    /// zero or a reload was requested, else one less.
    pub open spec fn next_counter(self) -> u8 {
        if self.irq_counter == 0 || self.irq_reload {
            self.irq_latch
        } else {
            (self.irq_counter - 1) as u8
        }
    }

    /// The board after the picture unit signals a scanline. The interrupt
    /// becomes pending when the counter arrives at zero while enabled.
    pub open spec fn clock_scanline(self) -> Mapper4View {
        Mapper4View {
            irq_counter: self.next_counter(),
            irq_reload: false,
            irq_pending: self.irq_pending || (self.next_counter() == 0 && self.irq_enabled),
            ..self
        }
    }

    /// The state a board starts in: the first two program banks in the
    /// first two slots (R6 is 0, R7 is 1), every other register clear. An
    /// empty character ROM stands for 8 KiB of character RAM.
    pub open spec fn power_on(prg_rom: Seq<u8>, chr_rom: Seq<u8>) -> Mapper4View {
        Mapper4View {
            prg_rom,
            chr_rom: if chr_rom.len() == 0 { Seq::new(0x2000, |i: int| 0u8) } else { chr_rom },
            chr_is_ram: chr_rom.len() == 0,
            prg_ram: Seq::new(0x2000, |i: int| 0u8),
            bank_select: 0,
            bank_data: seq![0u8, 0u8, 0u8, 0u8, 0u8, 0u8, 0u8, 1u8],
            prg_ram_protect: false,
            mirroring: 0,
            irq_enabled: false,
            irq_counter: 0,
            irq_latch: 0,
            irq_reload: false,
            irq_pending: false,
        }
    }
}

/// Start of the last `size` bytes of a ROM.
fn last_base(len: usize, size: usize) -> (r: usize)
    ensures
        r == last_bank_base(len as int, size as int),
{
    if len >= size {
        len - size
    } else {
        0
    }
}

/// Start of a bank, wrapped into the ROM.
fn wrapped_base(number: u8, size: usize, len: usize) -> (r: usize)
    requires
        size <= 0x2000,
    ensures
        r == bank_base(number as int, size as int, len as int),
{
    if len == 0 {
        0
    } else {
        assert(number as int * size as int <= 255 * 0x2000) by (nonlinear_arith)
            requires
                number <= 255,
                size <= 0x2000,
        ;
        (number as usize * size) % len
    }
}

impl Mapper4 {
    pub fn new(prg_rom: Vec<u8>, chr_rom: Vec<u8>) -> (r: Self)
        ensures
            r@ == Mapper4View::power_on(prg_rom@, chr_rom@),
    {
        let chr_is_ram = chr_rom.len() == 0;
        let chr = if chr_is_ram { vec![0u8; 0x2000] } else { chr_rom };
        let r = Mapper4 {
            prg_rom,
            chr_rom: chr,
            chr_is_ram,
            prg_ram: [0u8; 0x2000],
            bank_select: 0,
            bank_data: [0, 0, 0, 0, 0, 0, 0, 1],
            prg_ram_protect: false,
            mirroring: 0,
            irq_enabled: false,
            irq_counter: 0,
            irq_latch: 0,
            irq_reload: false,
            irq_pending: false,
        };
        proof {
            let want = Mapper4View::power_on(prg_rom@, chr_rom@);
            assert(r@.chr_rom =~= want.chr_rom);
            assert(r@.prg_ram =~= want.prg_ram);
            assert(r@.bank_data =~= want.bank_data);
        }
        r
    }

    /// Where a program slot begins. See [`mmc3_prg_base`].
    fn prg_base(&self, slot: usize) -> (r: usize)
        requires
            slot < 4,
        ensures
            r == mmc3_prg_base(
                self@.bank_select,
                self@.bank_data,
                self@.prg_rom.len() as int,
                slot as int,
            ),
    {
        let swapped = (self.bank_select / 64) % 2 == 1;
        let len = self.prg_rom.len();
        if slot == 1 {
            wrapped_base(self.bank_data[7], 0x2000, len)
        } else if slot == 3 {
            last_base(len, 0x2000)
        } else if (slot == 0) == swapped {
            last_base(len, 0x4000)
        } else {
            wrapped_base(self.bank_data[6], 0x2000, len)
        }
    }

    /// Where a character slot begins. See [`mmc3_chr_base`].
    fn chr_base(&self, slot: usize) -> (r: usize)
        requires
            slot < 8,
        ensures
            r == mmc3_chr_base(
                self@.bank_select,
                self@.bank_data,
                self@.chr_rom.len() as int,
                slot as int,
            ),
    {
        let source: usize = if self.bank_select >= 128 { (slot + 4) % 8 } else { slot };
        let len = self.chr_rom.len();
        let number: u8 = if source < 4 {
            let pair: u8 = self.bank_data[source / 2];
            pair - pair % 2 + (source % 2) as u8
        } else {
            self.bank_data[source - 2]
        };
        wrapped_base(number, 0x400, len)
    }

    /// Reads through the board. See [`Mapper4View::read_prg`].
    pub fn read_prg(&self, addr: u16) -> (r: u8)
        ensures
            r == self@.read_prg(addr),
    {
        if addr < 0x6000 {
            0
        } else if addr < 0x8000 {
            if self.prg_ram_protect {
                self.prg_ram[(addr - 0x6000) as usize]
            } else {
                0
            }
        } else {
            let base = self.prg_base(((addr - 0x8000) / 0x2000) as usize);
            rom_read_at(&self.prg_rom, base, (addr % 0x2000) as usize)
        }
    }

    /// Writes a register or work RAM. See [`Mapper4View::write_prg`].
    pub fn write_prg(&mut self, addr: u16, value: u8)
        ensures
            final(self)@ == old(self)@.write_prg(addr, value),
    {
        let even = addr % 2 == 0;
        if addr < 0x6000 {
        } else if addr < 0x8000 {
            if self.prg_ram_protect {
                self.prg_ram[(addr - 0x6000) as usize] = value;
            }
        } else if addr < 0xA000 {
            if even {
                self.bank_select = value;
            } else {
                let bank: u8 = self.bank_select % 8;
                self.bank_data[bank as usize] = value;
            }
        } else if addr < 0xC000 {
            if even {
                self.mirroring = value % 2;
            } else {
                self.prg_ram_protect = value >= 128;
            }
        } else if addr < 0xE000 {
            if even {
                self.irq_latch = value;
            } else {
                self.irq_reload = true;
                self.irq_counter = 0;
            }
        } else {
            if even {
                self.irq_enabled = false;
                self.irq_pending = false;
            } else {
                self.irq_enabled = true;
            }
        }
    }

    /// Reads a pattern byte. See [`Mapper4View::read_chr`].
    pub fn read_chr(&self, addr: u16) -> (r: u8)
        ensures
            r == self@.read_chr(addr),
    {
        let off: usize = (addr % 0x2000) as usize;
        let base = self.chr_base(off / 0x400);
        rom_read_at(&self.chr_rom, base, off % 0x400)
    }

    /// Writes a pattern byte. See [`Mapper4View::write_chr`].
    pub fn write_chr(&mut self, addr: u16, value: u8)
        ensures
            final(self)@ == old(self)@.write_chr(addr, value),
    {
        let off: usize = (addr % 0x2000) as usize;
        let len = self.chr_rom.len();
        if self.chr_is_ram && len > 0 {
            let base = self.chr_base(off / 0x400);
            let i = wrapped_sum(base, off % 0x400, len);
            self.chr_rom[i] = value;
        }
    }

    /// Counts one scanline. See [`Mapper4View::clock_scanline`].
    pub fn clock_scanline(&mut self)
        ensures
            final(self)@ == old(self)@.clock_scanline(),
    {
        if self.irq_counter == 0 || self.irq_reload {
            self.irq_counter = self.irq_latch;
            self.irq_reload = false;
        } else {
            self.irq_counter -= 1;
        }
        if self.irq_counter == 0 && self.irq_enabled {
            self.irq_pending = true;
        }
    }

    /// Whether the pattern memory is RAM.
    pub fn has_chr_ram(&self) -> (r: bool)
        ensures
            r == self@.chr_is_ram,
    {
        self.chr_is_ram
    }

    /// The mirroring bit last written: 0 vertical, 1 horizontal.
    pub fn get_mirroring(&self) -> (r: u8)
        ensures
            r == self@.mirroring,
    {
        self.mirroring
    }
}

// ---------------------------------------------------------------------------
// Laws
// ---------------------------------------------------------------------------

/// Whether a ROM is made of whole 8 KiB banks, at least two of them.
pub open spec fn whole_banks(len: int) -> bool {
    len % 0x2000 == 0 && len >= 0x4000
}

/// A bank number wrapped into a ROM of whole banks starts a whole bank
/// that lies inside the ROM.
proof fn lemma_bank_inside(number: int, len: int)
    requires
        0 <= number,
        whole_banks(len),
    ensures
        0 <= bank_base(number, 0x2000, len) <= len - 0x2000,
        bank_base(number, 0x2000, len) % 0x2000 == 0,
{
    let banks = len / 0x2000;
    assert(len == banks * 0x2000);
    let wrapped = number % banks;
    assert((number * 0x2000) % (banks * 0x2000) == wrapped * 0x2000) by {
        vstd::arithmetic::div_mod::lemma_truncate_middle(number, 0x2000, banks);
    }
    assert(0 <= wrapped <= banks - 1);
}

/// The last 8 KiB of the ROM are fixed at `$E000`: whatever the bank
/// registers hold and in either program mode, a read from
/// `$E000..=$FFFF` returns the byte at the same offset of the last bank, so
/// the vectors can always be read.
pub proof fn lemma_mmc3_last_bank_fixed(m: Mapper4View, addr: u16)
    requires
        whole_banks(m.prg_rom.len() as int),
        addr >= 0xE000,
    ensures
        m.read_prg(addr) == m.prg_rom[m.prg_rom.len() - 0x2000 + addr % 0x2000],
{
    let len = m.prg_rom.len() as int;
    let linear = len - 0x2000 + addr % 0x2000;
    assert(m.prg_linear(addr) == linear);
    vstd::arithmetic::div_mod::lemma_small_mod(linear as nat, len as nat);
}

/// Switching a program bank. After bank select has been pointed at R6 in
/// program mode 0 and `n` has been written to bank data, the slot at
/// `$8000` shows bank `n`, wrapped into the ROM; the slots at `$C000` and
/// `$E000` still show the last two banks; and the memories are as they
/// were.
pub proof fn lemma_mmc3_bank_switch(m: Mapper4View, n: u8, j: int)
    requires
        whole_banks(m.prg_rom.len() as int),
        m.bank_data.len() == 8,
        0 <= j < 0x2000,
    ensures
        ({
            let after = m.write_prg(0x8000, 0x06).write_prg(0x8001, n);
            let len = m.prg_rom.len() as int;
            &&& after.read_prg((0x8000 + j) as u16) == m.prg_rom[(n * 0x2000) % len + j]
            &&& after.read_prg((0xC000 + j) as u16) == m.prg_rom[len - 0x4000 + j]
            &&& after.read_prg((0xE000 + j) as u16) == m.prg_rom[len - 0x2000 + j]
            &&& after.prg_rom == m.prg_rom
            &&& after.chr_rom == m.chr_rom
        }),
{
    let len = m.prg_rom.len() as int;
    let after = m.write_prg(0x8000, 0x06).write_prg(0x8001, n);
    assert(after.bank_select == 6);
    assert(after.bank_data[6] == n);
    assert(!bit(6, 64));
    lemma_bank_inside(n as int, len);
    let base = bank_base(n as int, 0x2000, len);
    assert(after.prg_linear((0x8000 + j) as u16) == base + j);
    vstd::arithmetic::div_mod::lemma_small_mod((base + j) as nat, len as nat);
    assert(after.prg_linear((0xC000 + j) as u16) == len - 0x4000 + j);
    vstd::arithmetic::div_mod::lemma_small_mod((len - 0x4000 + j) as nat, len as nat);
    assert(after.prg_linear((0xE000 + j) as u16) == len - 0x2000 + j);
    vstd::arithmetic::div_mod::lemma_small_mod((len - 0x2000 + j) as nat, len as nat);
}

} // verus!
