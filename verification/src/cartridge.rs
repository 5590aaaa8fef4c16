//! Cartridge images: the iNES container, the program and character memories
//! and the bank registers of the mappers that sit on the board.

use vstd::prelude::*;
use vstd::slice::slice_subrange;
use vstd::slice::slice_to_vec;
use crate::bits::bit;
use crate::bits::lemma_bits_u16;
use crate::bits::lemma_bits_u8;
use crate::bits::lemma_mask_bound_u16;
use crate::bits::lemma_mask_bound_u8;
use crate::cartridge::mapper4::Mapper4;
use crate::cartridge::mapper4::Mapper4View;
use crate::cartridge::mapper5::Mapper5;
use crate::cartridge::mapper5::Mapper5View;

pub mod mapper4;
pub mod mapper5;

verus! {

/// How the four logical nametables fold onto the console's video memory.
#[allow(non_camel_case_types)]
#[derive(Debug, Clone, Copy, PartialEq, Eq, Structural)]
pub enum Mirroring {
    Horizontal,
    Vertical,
    FourScreen,
    _SingleScreenLower,
    _SingleScreenUpper,
}

/// Why an image was rejected by the loader.
#[derive(Debug, Clone, Copy, PartialEq, Eq, Structural)]
pub enum RomError {
    /// Fewer than the sixteen header bytes.
    TooSmall,
    /// The first four bytes are not `NES<EOF>`.
    InvalidHeader,
    /// The header announces more program and character data than follows.
    Truncated,
    /// The header names a mapper that no board here implements.
    UnsupportedMapper,
}

impl RomError {
    /// A short description for diagnostics.
    pub fn message(&self) -> (r: &'static str)
        ensures
            r@ == match *self {
                RomError::TooSmall => "ROM file too small"@,
                RomError::InvalidHeader => "Invalid NES header"@,
                RomError::Truncated => "ROM file truncated"@,
                RomError::UnsupportedMapper => "Unsupported mapper"@,
            },
    {
        match self {
            RomError::TooSmall => "ROM file too small",
            RomError::InvalidHeader => "Invalid NES header",
            RomError::Truncated => "ROM file truncated",
            RomError::UnsupportedMapper => "Unsupported mapper",
        }
    }
}

/// The chips on the board that keep state of their own. Boards without
/// such a chip, and those whose registers live in the cartridge itself, are
/// plain.
pub enum Board {
    Plain,
    Mmc3(Mapper4),
    Mmc5(Mapper5),
}

/// The mathematical content of a [`Board`].
pub enum BoardView {
    Plain,
    Mmc3(Mapper4View),
    Mmc5(Mapper5View),
}

impl View for Board {
    type V = BoardView;

    open(crate) spec fn view(&self) -> BoardView {
        match self {
            Board::Plain => BoardView::Plain,
            Board::Mmc3(m) => BoardView::Mmc3(m@),
            Board::Mmc5(m) => BoardView::Mmc5(m@),
        }
    }
}

pub struct Cartridge {
    pub prg_rom: Vec<u8>,
    pub chr_rom: Vec<u8>,
    pub mapper: u8,
    pub _mirroring: Mirroring,
    pub _battery_backed: bool,
    pub prg_ram: Vec<u8>,
    /// Whether the character memory is RAM on the board (the image carries none).
    pub chr_is_ram: bool,
    // MMC1 serial port and registers
    pub(crate) mmc1_shift_register: u8,
    pub(crate) mmc1_shift_count: u8,
    pub(crate) mmc1_control: u8,
    pub(crate) mmc1_chr_bank_0: u8,
    pub(crate) mmc1_chr_bank_1: u8,
    pub(crate) mmc1_prg_bank: u8,
    // Irem H3001 registers
    pub(crate) m65_prg_banks: [u8; 3],
    pub(crate) m65_chr_banks: [u8; 8],
    // MMC3 or MMC5, when the mapper number asks for one
    pub(crate) board: Board,
}

/// The mathematical content of a [`Cartridge`].
pub struct CartridgeView {
    pub prg_rom: Seq<u8>,
    pub chr_rom: Seq<u8>,
    pub mapper: u8,
    pub mirroring: Mirroring,
    pub battery_backed: bool,
    pub prg_ram: Seq<u8>,
    pub chr_is_ram: bool,
    pub mmc1_shift_register: u8,
    pub mmc1_shift_count: u8,
    pub mmc1_control: u8,
    pub mmc1_chr_bank_0: u8,
    pub mmc1_chr_bank_1: u8,
    pub mmc1_prg_bank: u8,
    pub m65_prg_banks: Seq<u8>,
    pub m65_chr_banks: Seq<u8>,
    pub board: BoardView,
}

impl View for Cartridge {
    type V = CartridgeView;

    open(crate) spec fn view(&self) -> CartridgeView {
        CartridgeView {
            prg_rom: self.prg_rom@,
            chr_rom: self.chr_rom@,
            mapper: self.mapper,
            mirroring: self._mirroring,
            battery_backed: self._battery_backed,
            prg_ram: self.prg_ram@,
            chr_is_ram: self.chr_is_ram,
            mmc1_shift_register: self.mmc1_shift_register,
            mmc1_shift_count: self.mmc1_shift_count,
            mmc1_control: self.mmc1_control,
            mmc1_chr_bank_0: self.mmc1_chr_bank_0,
            mmc1_chr_bank_1: self.mmc1_chr_bank_1,
            mmc1_prg_bank: self.mmc1_prg_bank,
            m65_prg_banks: self.m65_prg_banks@,
            m65_chr_banks: self.m65_chr_banks@,
            board: self.board@,
        }
    }
}

// ---------------------------------------------------------------------------
// The iNES container
// ---------------------------------------------------------------------------

/// The four bytes every image starts with.
pub open spec fn ines_magic() -> Seq<u8> {
    seq![0x4Eu8, 0x45u8, 0x53u8, 0x1Au8]
}

/// Offset of the program data: after the header and the optional 512-byte trainer.
pub open spec fn ines_prg_start(data: Seq<u8>) -> int {
    16 + if bit(data[6] as int, 4) { 512int } else { 0int }
}

/// Program size: byte 4 counts 16 KiB units.
pub open spec fn ines_prg_len(data: Seq<u8>) -> int {
    data[4] as int * 0x4000
}

/// Character size: byte 5 counts 8 KiB units.
pub open spec fn ines_chr_len(data: Seq<u8>) -> int {
    data[5] as int * 0x2000
}

pub open spec fn ines_chr_start(data: Seq<u8>) -> int {
    ines_prg_start(data) + ines_prg_len(data)
}

/// Number of bytes the header promises.
pub open spec fn ines_total_len(data: Seq<u8>) -> int {
    ines_chr_start(data) + ines_chr_len(data)
}

/// Bit 3 of flags 6 selects four-screen, else bit 0 selects vertical.
pub open spec fn ines_mirroring(flags6: u8) -> Mirroring {
    if bit(flags6 as int, 8) {
        Mirroring::FourScreen
    } else if bit(flags6 as int, 1) {
        Mirroring::Vertical
    } else {
        Mirroring::Horizontal
    }
}

/// High nibble from flags 7, low nibble from the top of flags 6.
pub open spec fn ines_mapper(flags6: u8, flags7: u8) -> u8 {
    ((flags7 / 16) * 16 + flags6 / 16) as u8
}

/// Work RAM size: byte 8 counts 8 KiB units, zero standing for one.
pub open spec fn ines_prg_ram_len(units: u8) -> int {
    if units == 0 { 0x2000 } else { units as int * 0x2000 }
}

/// The mapper numbers that have a board here: NROM, MMC1, MMC3, MMC5 and
/// the Irem H3001.
pub open spec fn mapper_supported(mapper: u8) -> bool {
    mapper == 0 || mapper == 1 || mapper == 4 || mapper == 5 || mapper == 65
}

/// The reason an image is rejected, if any. The checks apply in this order.
pub open spec fn ines_rejection(data: Seq<u8>) -> Option<RomError> {
    if data.len() < 16 {
        Some(RomError::TooSmall)
    } else if data.subrange(0, 4) != ines_magic() {
        Some(RomError::InvalidHeader)
    } else if data.len() < ines_total_len(data) {
        Some(RomError::Truncated)
    } else if !mapper_supported(ines_mapper(data[6], data[7])) {
        Some(RomError::UnsupportedMapper)
    } else {
        None
    }
}

/// The program data of an image.
pub open spec fn ines_prg(data: Seq<u8>) -> Seq<u8> {
    data.subrange(ines_prg_start(data), ines_chr_start(data))
}

/// The character data of an image; empty when the board carries RAM.
pub open spec fn ines_chr(data: Seq<u8>) -> Seq<u8> {
    data.subrange(ines_chr_start(data), ines_total_len(data))
}

/// The chip that a mapper number puts on the board, at power-on: an MMC3
/// for mapper 4, an MMC5 for mapper 5, each with the image's memories.
pub open spec fn ines_board(data: Seq<u8>) -> BoardView {
    let mapper = ines_mapper(data[6], data[7]);
    if mapper == 4 {
        BoardView::Mmc3(Mapper4View::power_on(ines_prg(data), ines_chr(data)))
    } else if mapper == 5 {
        BoardView::Mmc5(Mapper5View::power_on(ines_prg(data), ines_chr(data)))
    } else {
        BoardView::Plain
    }
}

/// The cartridge an accepted image describes, with its registers at power-on.
pub open spec fn ines_cartridge(data: Seq<u8>) -> CartridgeView {
    CartridgeView {
        prg_rom: ines_prg(data),
        chr_rom: if data[5] == 0 {
            Seq::new(0x2000, |i: int| 0u8)
        } else {
            ines_chr(data)
        },
        mapper: ines_mapper(data[6], data[7]),
        mirroring: ines_mirroring(data[6]),
        battery_backed: bit(data[6] as int, 2),
        prg_ram: Seq::new(ines_prg_ram_len(data[8]) as nat, |i: int| 0u8),
        chr_is_ram: data[5] == 0,
        mmc1_shift_register: 0,
        mmc1_shift_count: 0,
        mmc1_control: 0x0C,
        mmc1_chr_bank_0: 0,
        mmc1_chr_bank_1: 0,
        mmc1_prg_bank: 0,
        m65_prg_banks: seq![0u8, 1u8, 2u8],
        m65_chr_banks: seq![0u8, 1u8, 2u8, 3u8, 4u8, 5u8, 6u8, 7u8],
        board: ines_board(data),
    }
}

// ---------------------------------------------------------------------------
// Address decoding
// ---------------------------------------------------------------------------

/// The byte a ROM shows at a linear offset. Offsets wrap modulo the ROM size,
/// so a bank number past the end selects a bank that exists; an empty ROM
/// reads as zero.
pub open spec fn rom_at(rom: Seq<u8>, linear: int) -> u8 {
    if rom.len() == 0 {
        0
    } else {
        rom[linear % rom.len() as int]
    }
}

/// Where the last `size` bytes of a ROM of `len` bytes begin.
pub open spec fn last_bank_base(len: int, size: int) -> int {
    if len >= size {
        len - size
    } else {
        0
    }
}

/// Which of the four physical 1 KiB pages a logical nametable lands on.
pub open spec fn nametable_page(m: Mirroring, table: int) -> int {
    match m {
        Mirroring::Vertical => table % 2,
        Mirroring::Horizontal => table / 2,
        Mirroring::FourScreen => table,
        Mirroring::_SingleScreenLower => 0,
        Mirroring::_SingleScreenUpper => 1,
    }
}

/// Folds a nametable address onto `$2000..$3000`: the page comes from
/// [`nametable_page`], the offset within the page is kept.
pub open spec fn mirrored_vram_addr(m: Mirroring, addr: u16) -> int {
    0x2000 + nametable_page(m, (addr as int / 0x400) % 4) * 0x400 + addr as int % 0x400
}

/// MMC1 program banking. `off` is the offset into the 32 KiB window.
/// Control bits 2-3 select the mode: 0 and 1 switch 32 KiB at once, ignoring
/// the low bit of the bank number; 2 fixes the first bank at the bottom and
/// switches the top half; 3 switches the bottom half and fixes the last bank
/// at the top.
pub open spec fn mmc1_prg_linear(control: u8, bank: u8, len: int, off: int) -> int {
    let mode = (control / 4) % 4;
    if mode <= 1 {
        (bank - bank % 2) * 0x4000 + off
    } else if mode == 2 {
        if off < 0x4000 {
            off
        } else {
            bank as int * 0x4000 + (off - 0x4000)
        }
    } else {
        if off < 0x4000 {
            bank as int * 0x4000 + off
        } else {
            last_bank_base(len, 0x4000) + (off - 0x4000)
        }
    }
}

/// MMC1 character banking. Control bit 4 clear: one 8 KiB bank, the low bit
/// of the first register ignored. Set: two independent 4 KiB banks.
pub open spec fn mmc1_chr_linear(control: u8, bank0: u8, bank1: u8, off: int) -> int {
    if !bit(control as int, 16) {
        (bank0 - bank0 % 2) * 0x1000 + off
    } else if off < 0x1000 {
        bank0 as int * 0x1000 + off
    } else {
        bank1 as int * 0x1000 + (off - 0x1000)
    }
}

/// Irem H3001 program banking: three switchable 8 KiB banks, then the last
/// 8 KiB of the ROM.
pub open spec fn m65_prg_linear(banks: Seq<u8>, len: int, off: int) -> int {
    if off < 0x6000 {
        banks[off / 0x2000] as int * 0x2000 + off % 0x2000
    } else {
        last_bank_base(len, 0x2000) + (off - 0x6000)
    }
}

/// Boards without bank registers of their own show the last 32 KiB of the
/// ROM; a 16 KiB ROM repeats, and the last 16 KiB of a ROM between the two
/// sizes repeats past its end.
pub open spec fn plain_prg_linear(len: int, off: int) -> int {
    if len <= 0x4000 {
        off
    } else if len <= 0x8000 {
        if off < len {
            off
        } else {
            off % 0x4000 + len - 0x4000
        }
    } else {
        off + len - 0x8000
    }
}

/// The CPU address of the program window that an address stands for: an
/// address in `$8000..=$FFFF` is itself, and an offset into the window is
/// the address at that offset.
pub open spec fn window_address(addr: u16) -> u16 {
    (0x8000 + addr % 0x8000) as u16
}

/// The CPU address of work RAM that an address stands for: an address in
/// `$6000..=$7FFF` is itself.
pub open spec fn work_ram_address(addr: u16) -> u16 {
    (0x6000 + addr % 0x2000) as u16
}

/// An MMC1 control value with its program mode forced to 3: the two mode
/// bits, of weight 4 and 8, both set.
pub open spec fn mmc1_mode_three(control: u8) -> u8 {
    (control - ((control / 4) % 4) * 4 + 12) as u8
}

/// The value the MMC1 serial port holds after one more bit has been shifted in.
pub open spec fn mmc1_shift_in(register: u8, value: u8) -> u8 {
    ((register % 32) / 2 + (value % 2) * 16) as u8
}

impl CartridgeView {
    /// Offset into the program ROM that a CPU address reaches. Only the low
    /// 15 address bits take part, so `$8000..=$FFFF` and `0..=$7FFF` name the
    /// same window.
    pub open spec fn prg_linear(self, addr: u16) -> int {
        let off = (addr % 0x8000) as int;
        let len = self.prg_rom.len() as int;
        if self.mapper == 0 {
            off
        } else if self.mapper == 1 {
            mmc1_prg_linear(self.mmc1_control, self.mmc1_prg_bank, len, off)
        } else if self.mapper == 65 {
            m65_prg_linear(self.m65_prg_banks, len, off)
        } else {
            plain_prg_linear(len, off)
        }
    }

    /// The chip that answers for the cartridge: the MMC3 when the mapper
    /// number is 4, the MMC5 when it is 5, else none.
    pub open spec fn active_board(self) -> BoardView {
        if self.mapper == 4 && self.board is Mmc3 {
            self.board
        } else if self.mapper == 5 && self.board is Mmc5 {
            self.board
        } else {
            BoardView::Plain
        }
    }

    /// What a CPU read from the program window returns.
    pub open spec fn read_prg(self, addr: u16) -> u8 {
        match self.active_board() {
            BoardView::Mmc3(m) => m.read_prg(window_address(addr)),
            BoardView::Mmc5(m) => m.read_prg(addr),
            BoardView::Plain => rom_at(self.prg_rom, self.prg_linear(addr)),
        }
    }

    /// The register file after the fifth bit has arrived. Address bits 13-14
    /// select control, first character bank, second character bank or program
    /// bank; the serial port empties.
    pub open spec fn mmc1_commit(self, addr: u16, bits: u8) -> CartridgeView {
        let sel = (addr / 0x2000) % 4;
        CartridgeView {
            mmc1_shift_register: 0,
            mmc1_shift_count: 0,
            mmc1_control: if sel == 0 { bits } else { self.mmc1_control },
            mmc1_chr_bank_0: if sel == 1 { bits } else { self.mmc1_chr_bank_0 },
            mmc1_chr_bank_1: if sel == 2 { bits } else { self.mmc1_chr_bank_1 },
            mmc1_prg_bank: if sel == 3 { bits } else { self.mmc1_prg_bank },
            ..self
        }
    }

    /// One write to the MMC1 serial port. A value with bit 7 set empties the
    /// port and forces program mode 3. Any other value shifts its bit 0 in
    /// from the top; the fifth bit commits.
    pub open spec fn mmc1_write(self, addr: u16, value: u8) -> CartridgeView {
        if value >= 0x80 {
            CartridgeView {
                mmc1_shift_register: 0,
                mmc1_shift_count: 0,
                mmc1_control: mmc1_mode_three(self.mmc1_control),
                ..self
            }
        } else if self.mmc1_shift_count >= 4 {
            self.mmc1_commit(addr, mmc1_shift_in(self.mmc1_shift_register, value))
        } else {
            CartridgeView {
                mmc1_shift_register: mmc1_shift_in(self.mmc1_shift_register, value),
                mmc1_shift_count: (self.mmc1_shift_count + 1) as u8,
                ..self
            }
        }
    }

    /// One write to the Irem H3001 registers: program banks at offsets
    /// `$0000`, `$2000` and `$4000` of the window, character banks at
    /// `$1000..=$1007`. Other offsets are not decoded.
    pub open spec fn m65_write(self, addr: u16, value: u8) -> CartridgeView {
        let off = addr % 0x8000;
        if off == 0x0000 {
            CartridgeView { m65_prg_banks: self.m65_prg_banks.update(0, value), ..self }
        } else if off == 0x2000 {
            CartridgeView { m65_prg_banks: self.m65_prg_banks.update(1, value), ..self }
        } else if off == 0x4000 {
            CartridgeView { m65_prg_banks: self.m65_prg_banks.update(2, value), ..self }
        } else if 0x1000 <= off <= 0x1007 {
            CartridgeView {
                m65_chr_banks: self.m65_chr_banks.update(off - 0x1000, value),
                ..self
            }
        } else {
            self
        }
    }

    /// The cartridge after a CPU write to the program window, where the
    /// registers of MMC1, MMC3 and the Irem board live. The MMC5 keeps its
    /// registers elsewhere, and boards without registers ignore the write.
    pub open spec fn write_prg(self, addr: u16, value: u8) -> CartridgeView {
        match self.active_board() {
            BoardView::Mmc3(m) => CartridgeView {
                board: BoardView::Mmc3(m.write_prg(window_address(addr), value)),
                ..self
            },
            BoardView::Mmc5(m) => self,
            BoardView::Plain => if self.mapper == 1 {
                self.mmc1_write(addr, value)
            } else if self.mapper == 65 {
                self.m65_write(addr, value)
            } else {
                self
            },
        }
    }

    /// What a CPU read between `$4018` and `$5FFF` returns: the two halves
    /// of the MMC5's product at `$5205` and `$5206`, and zero elsewhere.
    pub open spec fn read_expansion(self, addr: u16) -> u8 {
        match self.active_board() {
            BoardView::Mmc5(m) => if addr == 0x5205 {
                (m.multiplication_result() % 256) as u8
            } else if addr == 0x5206 {
                (m.multiplication_result() / 256) as u8
            } else {
                0
            },
            _ => 0,
        }
    }

    /// The cartridge after a CPU write between `$4018` and `$5FFF`, where
    /// the registers of the MMC5 live.
    pub open spec fn write_expansion(self, addr: u16, value: u8) -> CartridgeView {
        match self.active_board() {
            BoardView::Mmc5(m) => CartridgeView {
                board: BoardView::Mmc5(m.write_prg(addr, value)),
                ..self
            },
            _ => self,
        }
    }

    /// The mirroring in force: the MMC3 chooses between vertical and
    /// horizontal by its own register, other boards keep what the image's
    /// header said.
    pub open spec fn current_mirroring(self) -> Mirroring {
        match self.active_board() {
            BoardView::Mmc3(m) => if m.mirroring == 0 {
                Mirroring::Vertical
            } else {
                Mirroring::Horizontal
            },
            _ => self.mirroring,
        }
    }

    /// Whether the board can switch character banks.
    pub open spec fn switches_chr(self) -> bool {
        self.mapper == 1 || !(self.active_board() is Plain)
    }

    /// Whether the pattern tables are ROM, which the board may switch, and
    /// not RAM, which the picture unit writes.
    pub open spec fn patterns_in_rom(self) -> bool {
        match self.active_board() {
            BoardView::Mmc3(m) => !m.chr_is_ram,
            BoardView::Mmc5(m) => m.chr_rom.len() > 0,
            BoardView::Plain => !self.chr_is_ram,
        }
    }

    /// Whether the board asks for an interrupt.
    pub open spec fn irq_pending(self) -> bool {
        match self.active_board() {
            BoardView::Mmc3(m) => m.irq_pending,
            BoardView::Mmc5(m) => m.irq_pending,
            BoardView::Plain => false,
        }
    }

    /// The cartridge after the picture unit signals a rendered scanline.
    /// The MMC3 counts it; the MMC5 takes note that rendering is on and
    /// counts it too.
    pub open spec fn clock_scanline(self) -> CartridgeView {
        match self.active_board() {
            BoardView::Mmc3(m) => CartridgeView { board: BoardView::Mmc3(m.clock_scanline()), ..self },
            BoardView::Mmc5(m) => CartridgeView {
                board: BoardView::Mmc5(m.notify_ppu_state(true).clock_scanline()),
                ..self
            },
            BoardView::Plain => self,
        }
    }

    /// The cartridge after the picture unit enters vertical blank: the MMC5
    /// takes note that rendering is over.
    pub open spec fn end_of_frame(self) -> CartridgeView {
        match self.active_board() {
            BoardView::Mmc5(m) => CartridgeView {
                board: BoardView::Mmc5(m.notify_ppu_state(false)),
                ..self
            },
            _ => self,
        }
    }

    /// Offset into the character memory that a pattern address reaches.
    /// Only the low 13 address bits take part.
    pub open spec fn chr_linear(self, addr: u16) -> int {
        let off = (addr % 0x2000) as int;
        if self.mapper == 1 {
            mmc1_chr_linear(self.mmc1_control, self.mmc1_chr_bank_0, self.mmc1_chr_bank_1, off)
        } else {
            off
        }
    }

    /// What a pattern fetch returns.
    pub open spec fn read_chr(self, addr: u16) -> u8 {
        match self.active_board() {
            BoardView::Mmc3(m) => m.read_chr(addr),
            BoardView::Mmc5(m) => m.read_chr(addr),
            BoardView::Plain => rom_at(self.chr_rom, self.chr_linear(addr)),
        }
    }

    /// The cartridge after a pattern write: character RAM takes the byte,
    /// character ROM ignores it.
    pub open spec fn write_chr(self, addr: u16, value: u8) -> CartridgeView {
        match self.active_board() {
            BoardView::Mmc3(m) => CartridgeView {
                board: BoardView::Mmc3(m.write_chr(addr, value)),
                ..self
            },
            BoardView::Mmc5(m) => self,
            BoardView::Plain => if self.chr_is_ram && self.chr_rom.len() > 0 {
                CartridgeView {
                    chr_rom: self.chr_rom.update(
                        self.chr_linear(addr) % self.chr_rom.len() as int,
                        value,
                    ),
                    ..self
                }
            } else {
                self
            },
        }
    }

    /// What a CPU read of work RAM at `$6000..=$7FFF` returns. Only the low
    /// 13 address bits take part; a board without work RAM reads as zero,
    /// and the MMC3 answers with its own RAM while that is enabled.
    pub open spec fn read_prg_ram(self, addr: u16) -> u8 {
        match self.active_board() {
            BoardView::Mmc3(m) => m.read_prg(work_ram_address(addr)),
            _ => rom_at(self.prg_ram, (addr % 0x2000) as int),
        }
    }

    /// The cartridge after a CPU write to work RAM.
    pub open spec fn write_prg_ram(self, addr: u16, value: u8) -> CartridgeView {
        match self.active_board() {
            BoardView::Mmc3(m) => CartridgeView {
                board: BoardView::Mmc3(m.write_prg(work_ram_address(addr), value)),
                ..self
            },
            _ => if self.prg_ram.len() > 0 {
                CartridgeView {
                    prg_ram: self.prg_ram.update(
                        (addr % 0x2000) as int % self.prg_ram.len() as int,
                        value,
                    ),
                    ..self
                }
            } else {
                self
            },
        }
    }
}

/// Reads a ROM at a linear offset, wrapping past its end.
pub fn rom_read(rom: &Vec<u8>, linear: usize) -> (r: u8)
    ensures
        r == rom_at(rom@, linear as int),
{
    if rom.len() == 0 {
        0
    } else {
        rom[linear % rom.len()]
    }
}

/// `(base + step) % len`, computed without overflow.
pub fn wrapped_sum(base: usize, step: usize, len: usize) -> (r: usize)
    requires
        len > 0,
    ensures
        r == (base + step) % (len as int),
        r < len,
{
    let a: usize = base % len;
    let b: usize = step % len;
    proof {
        vstd::arithmetic::div_mod::lemma_add_mod_noop(base as int, step as int, len as int);
        if a >= len - b {
            vstd::arithmetic::div_mod::lemma_mod_sub_multiples_vanish((a + b) as int, len as int);
            vstd::arithmetic::div_mod::lemma_small_mod((a + b - len) as nat, len as nat);
        } else {
            vstd::arithmetic::div_mod::lemma_small_mod((a + b) as nat, len as nat);
        }
    }
    if a >= len - b {
        a - (len - b)
    } else {
        a + b
    }
}

/// Reads a ROM at `base + step`, wrapping past its end.
pub fn rom_read_at(rom: &Vec<u8>, base: usize, step: usize) -> (r: u8)
    ensures
        r == rom_at(rom@, base + step),
{
    let len = rom.len();
    if len == 0 {
        0
    } else {
        let i = wrapped_sum(base, step, len);
        rom[i]
    }
}

/// Folds a nametable address onto `$2000..$3000` for the given mirroring.
pub fn mirror_vram_addr(m: Mirroring, addr: u16) -> (r: u16)
    ensures
        r == mirrored_vram_addr(m, addr),
        0x2000 <= r < 0x3000,
{
    let table: u16 = (addr / 0x400) % 4;
    let offset: u16 = addr % 0x400;
    let page: u16 = match m {
        Mirroring::Vertical => table % 2,
        Mirroring::Horizontal => table / 2,
        Mirroring::FourScreen => table,
        Mirroring::_SingleScreenLower => 0,
        Mirroring::_SingleScreenUpper => 1,
    };
    0x2000 + page * 0x400 + offset
}

impl Cartridge {
    /// Reads an iNES image. Fails exactly when [`ines_rejection`] names a reason:
    /// a file shorter than the header, a wrong magic, a payload shorter than
    /// the header announces, or a mapper number without a board. Otherwise it
    /// yields the cartridge that [`ines_cartridge`] describes.
    pub fn load_from_bytes(data: &[u8]) -> (r: Result<Cartridge, RomError>)
        ensures
            match r {
                Ok(c) => ines_rejection(data@) is None && c@ == ines_cartridge(data@),
                Err(e) => ines_rejection(data@) == Some(e),
            },
    {
        if data.len() < 16 {
            return Err(RomError::TooSmall);
        }
        if data[0] != 0x4E || data[1] != 0x45 || data[2] != 0x53 || data[3] != 0x1A {
            proof {
                let m = data@.subrange(0, 4);
                assert(m[0] == data@[0] && m[1] == data@[1] && m[2] == data@[2] && m[3] == data@[3]);
            }
            return Err(RomError::InvalidHeader);
        }
        assert(data@.subrange(0, 4) =~= ines_magic());
        proof {
            lemma_bits_u8(data[6]);
            lemma_nibbles(data[6], data[7]);
        }
        let prg_rom_size: usize = data[4] as usize * 0x4000;
        let chr_rom_size: usize = data[5] as usize * 0x2000;
        let flags_6: u8 = data[6];
        let flags_7: u8 = data[7];
        let mirroring = if (flags_6 & 0x08) != 0 {
            Mirroring::FourScreen
        } else if (flags_6 & 0x01) != 0 {
            Mirroring::Vertical
        } else {
            Mirroring::Horizontal
        };
        let battery_backed = (flags_6 & 0x02) != 0;
        let trainer_present = (flags_6 & 0x04) != 0;
        let mapper: u8 = (flags_7 & 0xF0) | ((flags_6 & 0xF0) >> 4);
        let prg_ram_size: usize = if data[8] == 0 {
            0x2000
        } else {
            data[8] as usize * 0x2000
        };
        let trainer_size: usize = if trainer_present { 512 } else { 0 };
        let prg_rom_start: usize = 16 + trainer_size;
        let chr_rom_start: usize = prg_rom_start + prg_rom_size;
        if data.len() < chr_rom_start + chr_rom_size {
            return Err(RomError::Truncated);
        }
        if !(mapper == 0 || mapper == 1 || mapper == 4 || mapper == 5 || mapper == 65) {
            return Err(RomError::UnsupportedMapper);
        }
        let prg_rom = slice_to_vec(slice_subrange(data, prg_rom_start, chr_rom_start));
        let chr_rom = if chr_rom_size > 0 {
            slice_to_vec(slice_subrange(data, chr_rom_start, chr_rom_start + chr_rom_size))
        } else {
            vec![0u8; 0x2000]
        };
        let prg_ram = vec![0u8; prg_ram_size];
        let board = if mapper == 4 {
            Board::Mmc3(
                Mapper4::new(
                    slice_to_vec(slice_subrange(data, prg_rom_start, chr_rom_start)),
                    slice_to_vec(slice_subrange(data, chr_rom_start, chr_rom_start + chr_rom_size)),
                ),
            )
        } else if mapper == 5 {
            Board::Mmc5(
                Mapper5::new(
                    slice_to_vec(slice_subrange(data, prg_rom_start, chr_rom_start)),
                    slice_to_vec(slice_subrange(data, chr_rom_start, chr_rom_start + chr_rom_size)),
                ),
            )
        } else {
            Board::Plain
        };
        let c = Cartridge {
            prg_rom,
            chr_rom,
            mapper,
            _mirroring: mirroring,
            _battery_backed: battery_backed,
            prg_ram,
            chr_is_ram: chr_rom_size == 0,
            mmc1_shift_register: 0,
            mmc1_shift_count: 0,
            mmc1_control: 0x0C,
            mmc1_chr_bank_0: 0,
            mmc1_chr_bank_1: 0,
            mmc1_prg_bank: 0,
            m65_prg_banks: [0, 1, 2],
            m65_chr_banks: [0, 1, 2, 3, 4, 5, 6, 7],
            board,
        };
        proof {
            let want = ines_cartridge(data@);
            assert(c@.chr_rom =~= want.chr_rom);
            assert(c@.prg_ram =~= want.prg_ram);
            assert(c@.m65_prg_banks =~= want.m65_prg_banks);
            assert(c@.m65_chr_banks =~= want.m65_chr_banks);
        }
        Ok(c)
    }

    /// Reads the program window. See [`CartridgeView::read_prg`].
    pub fn read_prg(&self, addr: u16) -> (r: u8)
        ensures
            r == self@.read_prg(addr),
    {
        proof {
            lemma_mask_bound_u16(addr, 0x7FFF);
            lemma_bits_u16(addr);
            lemma_bits_u8(self.mmc1_control);
            lemma_bits_u8(self.mmc1_control >> 2);
            lemma_bits_u8(self.mmc1_prg_bank);
        }
        if self.mapper == 4 {
            match &self.board {
                Board::Mmc3(m) => {
                    return m.read_prg(0x8000 + addr % 0x8000);
                },
                _ => {},
            }
        }
        if self.mapper == 5 {
            match &self.board {
                Board::Mmc5(m) => {
                    return m.read_prg(addr);
                },
                _ => {},
            }
        }
        let off: usize = (addr & 0x7FFF) as usize;
        let len: usize = self.prg_rom.len();
        if len == 0 {
            return 0;
        }
        let linear: usize = match self.mapper {
            0 => off,
            1 => {
                let prg_mode: u8 = (self.mmc1_control >> 2) & 0x03;
                let bank: usize = self.mmc1_prg_bank as usize;
                proof {
                    lemma_mask_bound_u8(self.mmc1_prg_bank, 0xFE);
                }
                if prg_mode <= 1 {
                    (self.mmc1_prg_bank & 0xFE) as usize * 0x4000 + off
                } else if prg_mode == 2 {
                    if off < 0x4000 {
                        off
                    } else {
                        bank * 0x4000 + (off - 0x4000)
                    }
                } else {
                    if off < 0x4000 {
                        bank * 0x4000 + off
                    } else if len >= 0x4000 {
                        len - 0x4000 + (off - 0x4000)
                    } else {
                        off - 0x4000
                    }
                }
            },
            65 => {
                if off < 0x6000 {
                    self.m65_prg_banks[off / 0x2000] as usize * 0x2000 + off % 0x2000
                } else if len >= 0x2000 {
                    len - 0x2000 + (off - 0x6000)
                } else {
                    off - 0x6000
                }
            },
            _ => {
                if len <= 0x4000 {
                    off
                } else if len <= 0x8000 {
                    if off < len {
                        off
                    } else {
                        off % 0x4000 + len - 0x4000
                    }
                } else {
                    off + (len - 0x8000)
                }
            },
        };
        rom_read(&self.prg_rom, linear)
    }

    /// Writes to the program window, which reaches the mapper's registers.
    /// See [`CartridgeView::write_prg`].
    pub fn write_prg(&mut self, addr: u16, value: u8)
        ensures
            final(self)@ == old(self)@.write_prg(addr, value),
    {
        proof {
            lemma_mask_bound_u16(addr, 0x7FFF);
            lemma_bits_u16(addr);
            lemma_bits_u8(value);
            lemma_bits_u8(self.mmc1_shift_register);
            lemma_mmc1_arithmetic(self.mmc1_control, self.mmc1_shift_register, value);
        }
        if self.mapper == 4 {
            match &mut self.board {
                Board::Mmc3(m) => {
                    m.write_prg(0x8000 + addr % 0x8000, value);
                    return ;
                },
                _ => {},
            }
        }
        if self.mapper == 5 {
            match &self.board {
                Board::Mmc5(_) => {
                    return ;
                },
                _ => {},
            }
        }
        match self.mapper {
            1 => {
                if value & 0x80 != 0 {
                    self.mmc1_shift_register = 0;
                    self.mmc1_shift_count = 0;
                    self.mmc1_control |= 0x0C;
                } else {
                    let shifted: u8 = ((self.mmc1_shift_register & 0x1F) >> 1) | ((value & 1) << 4);
                    if self.mmc1_shift_count >= 4 {
                        match (addr / 0x2000) % 4 {
                            0 => {
                                self.mmc1_control = shifted;
                            },
                            1 => {
                                self.mmc1_chr_bank_0 = shifted;
                            },
                            2 => {
                                self.mmc1_chr_bank_1 = shifted;
                            },
                            _ => {
                                self.mmc1_prg_bank = shifted;
                            },
                        }
                        self.mmc1_shift_register = 0;
                        self.mmc1_shift_count = 0;
                    } else {
                        self.mmc1_shift_register = shifted;
                        self.mmc1_shift_count = self.mmc1_shift_count + 1;
                    }
                }
            },
            65 => {
                let off: u16 = addr & 0x7FFF;
                if off == 0x0000 {
                    self.m65_prg_banks[0] = value;
                } else if off == 0x2000 {
                    self.m65_prg_banks[1] = value;
                } else if off == 0x4000 {
                    self.m65_prg_banks[2] = value;
                } else if 0x1000 <= off && off <= 0x1007 {
                    self.m65_chr_banks[(off - 0x1000) as usize] = value;
                }
            },
            _ => {},
        }
    }

    /// Offset into the character memory for a pattern address.
    fn chr_offset(&self, addr: u16) -> (r: usize)
        ensures
            r == self@.chr_linear(addr),
    {
        proof {
            lemma_mask_bound_u16(addr, 0x1FFF);
            lemma_mask_bound_u8(self.mmc1_chr_bank_0, 0xFE);
            lemma_bits_u16(addr);
            lemma_bits_u8(self.mmc1_control);
            lemma_bits_u8(self.mmc1_chr_bank_0);
        }
        let off: usize = (addr & 0x1FFF) as usize;
        if self.mapper == 1 {
            if self.mmc1_control & 0x10 == 0 {
                (self.mmc1_chr_bank_0 & 0xFE) as usize * 0x1000 + off
            } else if off < 0x1000 {
                self.mmc1_chr_bank_0 as usize * 0x1000 + off
            } else {
                self.mmc1_chr_bank_1 as usize * 0x1000 + (off - 0x1000)
            }
        } else {
            off
        }
    }

    /// Reads the pattern window. See [`CartridgeView::read_chr`].
    pub fn _read_chr(&self, addr: u16) -> (r: u8)
        ensures
            r == self@.read_chr(addr),
    {
        if self.mapper == 4 {
            match &self.board {
                Board::Mmc3(m) => {
                    return m.read_chr(addr);
                },
                _ => {},
            }
        }
        if self.mapper == 5 {
            match &self.board {
                Board::Mmc5(m) => {
                    return m.read_chr(addr);
                },
                _ => {},
            }
        }
        let linear = self.chr_offset(addr);
        rom_read(&self.chr_rom, linear)
    }

    /// Writes to the pattern window. See [`CartridgeView::write_chr`].
    pub fn _write_chr(&mut self, addr: u16, value: u8)
        ensures
            final(self)@ == old(self)@.write_chr(addr, value),
    {
        if self.mapper == 4 {
            match &mut self.board {
                Board::Mmc3(m) => {
                    m.write_chr(addr, value);
                    return ;
                },
                _ => {},
            }
        }
        if self.mapper == 5 {
            match &self.board {
                Board::Mmc5(_) => {
                    return ;
                },
                _ => {},
            }
        }
        if self.chr_is_ram && self.chr_rom.len() > 0 {
            let linear = self.chr_offset(addr);
            let len = self.chr_rom.len();
            self.chr_rom[linear % len] = value;
        }
    }

    /// Reads the expansion range. See [`CartridgeView::read_expansion`].
    pub fn read_expansion(&self, addr: u16) -> (r: u8)
        ensures
            r == self@.read_expansion(addr),
    {
        if self.mapper == 5 {
            match &self.board {
                Board::Mmc5(m) => {
                    let product = m.get_multiplication_result();
                    return if addr == 0x5205 {
                        (product % 256) as u8
                    } else if addr == 0x5206 {
                        (product / 256) as u8
                    } else {
                        0
                    };
                },
                _ => {},
            }
        }
        0
    }

    /// Writes the expansion range. See [`CartridgeView::write_expansion`].
    pub fn write_expansion(&mut self, addr: u16, value: u8)
        ensures
            final(self)@ == old(self)@.write_expansion(addr, value),
    {
        if self.mapper == 5 {
            match &mut self.board {
                Board::Mmc5(m) => {
                    m.write_prg(addr, value);
                },
                _ => {},
            }
        }
    }

    /// The mirroring in force. See [`CartridgeView::current_mirroring`].
    pub fn mirroring(&self) -> (r: Mirroring)
        ensures
            r == self@.current_mirroring(),
    {
        if self.mapper == 4 {
            match &self.board {
                Board::Mmc3(m) => {
                    return if m.get_mirroring() == 0 {
                        Mirroring::Vertical
                    } else {
                        Mirroring::Horizontal
                    };
                },
                _ => {},
            }
        }
        self._mirroring
    }

    /// Whether the board can switch character banks.
    pub fn switches_chr(&self) -> (r: bool)
        ensures
            r == self@.switches_chr(),
    {
        if self.mapper == 1 {
            return true;
        }
        if self.mapper == 4 {
            match &self.board {
                Board::Mmc3(_) => {
                    return true;
                },
                _ => {},
            }
        }
        if self.mapper == 5 {
            match &self.board {
                Board::Mmc5(_) => {
                    return true;
                },
                _ => {},
            }
        }
        false
    }

    /// Whether the pattern tables are ROM.
    pub fn patterns_in_rom(&self) -> (r: bool)
        ensures
            r == self@.patterns_in_rom(),
    {
        if self.mapper == 4 {
            match &self.board {
                Board::Mmc3(m) => {
                    return !m.has_chr_ram();
                },
                _ => {},
            }
        }
        if self.mapper == 5 {
            match &self.board {
                Board::Mmc5(m) => {
                    return m.has_chr_rom();
                },
                _ => {},
            }
        }
        !self.chr_is_ram
    }

    /// Whether the board asks for an interrupt.
    pub fn irq_pending(&self) -> (r: bool)
        ensures
            r == self@.irq_pending(),
    {
        if self.mapper == 4 {
            match &self.board {
                Board::Mmc3(m) => {
                    return m.irq_pending;
                },
                _ => {},
            }
        }
        if self.mapper == 5 {
            match &self.board {
                Board::Mmc5(m) => {
                    return m.get_irq_pending();
                },
                _ => {},
            }
        }
        false
    }

    /// Signals a rendered scanline. See [`CartridgeView::clock_scanline`].
    pub fn clock_scanline(&mut self)
        ensures
            final(self)@ == old(self)@.clock_scanline(),
    {
        if self.mapper == 4 {
            match &mut self.board {
                Board::Mmc3(m) => {
                    m.clock_scanline();
                },
                _ => {},
            }
        } else if self.mapper == 5 {
            match &mut self.board {
                Board::Mmc5(m) => {
                    m.notify_ppu_state(true);
                    m.clock_scanline();
                },
                _ => {},
            }
        }
    }

    /// Signals the start of vertical blank. See
    /// [`CartridgeView::end_of_frame`].
    pub fn end_of_frame(&mut self)
        ensures
            final(self)@ == old(self)@.end_of_frame(),
    {
        if self.mapper == 5 {
            match &mut self.board {
                Board::Mmc5(m) => {
                    m.notify_ppu_state(false);
                },
                _ => {},
            }
        }
    }

    /// Folds a nametable address by this cartridge's mirroring.
    pub fn _mirror_vram_addr(&self, addr: u16) -> (r: u16)
        ensures
            r == mirrored_vram_addr(self@.mirroring, addr),
            0x2000 <= r < 0x3000,
    {
        mirror_vram_addr(self._mirroring, addr)
    }

    /// Reads work RAM. See [`CartridgeView::read_prg_ram`].
    pub fn read_prg_ram(&self, addr: u16) -> (r: u8)
        ensures
            r == self@.read_prg_ram(addr),
    {
        proof {
            lemma_bits_u16(addr);
        }
        if self.mapper == 4 {
            match &self.board {
                Board::Mmc3(m) => {
                    return m.read_prg(0x6000 + addr % 0x2000);
                },
                _ => {},
            }
        }
        rom_read(&self.prg_ram, (addr & 0x1FFF) as usize)
    }

    /// Writes work RAM. See [`CartridgeView::write_prg_ram`].
    pub fn write_prg_ram(&mut self, addr: u16, value: u8)
        ensures
            final(self)@ == old(self)@.write_prg_ram(addr, value),
    {
        proof {
            lemma_bits_u16(addr);
        }
        if self.mapper == 4 {
            match &mut self.board {
                Board::Mmc3(m) => {
                    m.write_prg(0x6000 + addr % 0x2000, value);
                    return ;
                },
                _ => {},
            }
        }
        let len = self.prg_ram.len();
        if len > 0 {
            self.prg_ram[(addr & 0x1FFF) as usize % len] = value;
        }
    }
}

// ---------------------------------------------------------------------------
// Laws
// ---------------------------------------------------------------------------

proof fn lemma_nibbles(flags6: u8, flags7: u8)
    by (bit_vector)
    ensures
        (flags7 & 0xF0) | ((flags6 & 0xF0) >> 4) == (flags7 / 16) * 16 + flags6 / 16,
{
}

proof fn lemma_mmc1_arithmetic(control: u8, register: u8, value: u8)
    by (bit_vector)
    ensures
        control | 0x0C == control - ((control / 4) % 4) * 4 + 12,
        ((register & 0x1F) >> 1) | ((value & 1) << 4) == (register % 32) / 2 + (value % 2) * 16,
{
}

/// The five data bits of a serial transfer, first bit lowest.
pub open spec fn mmc1_bits(v0: u8, v1: u8, v2: u8, v3: u8, v4: u8) -> u8 {
    (v0 % 2 + (v1 % 2) * 2 + (v2 % 2) * 4 + (v3 % 2) * 8 + (v4 % 2) * 16) as u8
}

proof fn lemma_mmc1_shift_five(r: u8, v0: u8, v1: u8, v2: u8, v3: u8, v4: u8)
    by (bit_vector)
    ensures
        (((((((((r % 32) / 2 + (v0 % 2) * 16) as u8 % 32) / 2 + (v1 % 2) * 16) as u8 % 32) / 2 + (v2 % 2)
            * 16) as u8 % 32) / 2 + (v3 % 2) * 16) as u8 % 32) / 2 + (v4 % 2) * 16 == v0 % 2 + (v1
            % 2) * 2 + (v2 % 2) * 4 + (v3 % 2) * 8 + (v4 % 2) * 16,
{
}

/// Five serial writes are one commit: starting from an empty port, five
/// writes without bit 7 leave the MMC1 exactly as if the five gathered bits
/// had been stored at once in the register that the last address selects.
/// Neither the addresses of the first four writes nor what the port held
/// before take part.
pub proof fn lemma_mmc1_five_writes_commit(
    c: CartridgeView,
    a0: u16,
    a1: u16,
    a2: u16,
    a3: u16,
    a4: u16,
    v0: u8,
    v1: u8,
    v2: u8,
    v3: u8,
    v4: u8,
)
    requires
        c.mapper == 1,
        c.mmc1_shift_count == 0,
        v0 < 0x80,
        v1 < 0x80,
        v2 < 0x80,
        v3 < 0x80,
        v4 < 0x80,
    ensures
        c.write_prg(a0, v0).write_prg(a1, v1).write_prg(a2, v2).write_prg(a3, v3).write_prg(a4, v4)
            == c.mmc1_commit(a4, mmc1_bits(v0, v1, v2, v3, v4)),
{
    lemma_mmc1_shift_five(c.mmc1_shift_register, v0, v1, v2, v3, v4);
}

/// A write with bit 7 set empties the serial port whatever it held, so the
/// next five writes form a complete transfer.
pub proof fn lemma_mmc1_reset_empties_port(c: CartridgeView, addr: u16, value: u8)
    requires
        c.mapper == 1,
        value >= 0x80,
    ensures
        c.write_prg(addr, value).mmc1_shift_count == 0,
        c.write_prg(addr, value).mmc1_shift_register == 0,
        (c.write_prg(addr, value).mmc1_control / 4) % 4 == 3,
        c.write_prg(addr, value).mmc1_control % 4 == c.mmc1_control % 4,
        c.write_prg(addr, value).mmc1_control / 16 == c.mmc1_control / 16,
{
}

/// Flags 6 of the header that describes a cartridge.
pub open spec fn ines_flags6(c: CartridgeView) -> u8 {
    ((c.mapper % 16) * 16 + (if c.battery_backed { 2int } else { 0int }) + (match c.mirroring {
        Mirroring::FourScreen => 8int,
        Mirroring::Vertical => 1int,
        _ => 0int,
    })) as u8
}

/// The sixteen header bytes that describe a cartridge.
pub open spec fn ines_header(c: CartridgeView) -> Seq<u8> {
    seq![
        0x4Eu8,
        0x45u8,
        0x53u8,
        0x1Au8,
        (c.prg_rom.len() / 0x4000) as u8,
        if c.chr_is_ram { 0u8 } else { (c.chr_rom.len() / 0x2000) as u8 },
        ines_flags6(c),
        ((c.mapper / 16) * 16) as u8,
        (c.prg_ram.len() / 0x2000) as u8,
        0u8,
        0u8,
        0u8,
        0u8,
        0u8,
        0u8,
        0u8,
    ]
}

/// The image of a cartridge: header, program data, then character data
/// unless the board carries character RAM.
pub open spec fn ines_image(c: CartridgeView) -> Seq<u8> {
    ines_header(c) + c.prg_rom + (if c.chr_is_ram { Seq::<u8>::empty() } else { c.chr_rom })
}

/// The cartridges a header can describe: a mapper that has a board, whole
/// banks, counts that fit a byte, and one of the three mirrorings that
/// flags 6 can name.
pub open spec fn ines_encodable(c: CartridgeView) -> bool {
    &&& mapper_supported(c.mapper)
    &&& c.prg_rom.len() % 0x4000 == 0
    &&& c.prg_rom.len() / 0x4000 <= 255
    &&& c.chr_rom.len() % 0x2000 == 0
    &&& 1 <= c.chr_rom.len() / 0x2000 <= 255
    &&& c.chr_is_ram ==> c.chr_rom.len() == 0x2000
    &&& c.prg_ram.len() % 0x2000 == 0
    &&& 1 <= c.prg_ram.len() / 0x2000 <= 255
    &&& (c.mirroring == Mirroring::Horizontal || c.mirroring == Mirroring::Vertical || c.mirroring
        == Mirroring::FourScreen)
}

/// Writing a cartridge out and loading the image again gives the same
/// interpretation: the image is accepted, and program data, character data,
/// mapper number, mirroring, battery flag and work RAM size all come back.
pub proof fn lemma_ines_round_trip(c: CartridgeView)
    requires
        ines_encodable(c),
    ensures
        ines_rejection(ines_image(c)) is None,
        ines_cartridge(ines_image(c)).prg_rom == c.prg_rom,
        ines_cartridge(ines_image(c)).chr_is_ram == c.chr_is_ram,
        !c.chr_is_ram ==> ines_cartridge(ines_image(c)).chr_rom == c.chr_rom,
        ines_cartridge(ines_image(c)).chr_rom.len() == c.chr_rom.len(),
        ines_cartridge(ines_image(c)).mapper == c.mapper,
        ines_cartridge(ines_image(c)).mirroring == c.mirroring,
        ines_cartridge(ines_image(c)).battery_backed == c.battery_backed,
        ines_cartridge(ines_image(c)).prg_ram.len() == c.prg_ram.len(),
{
    let data = ines_image(c);
    let header = ines_header(c);
    assert(header.len() == 16);
    assert forall|i: int| 0 <= i < 16 implies data[i] == header[i] by {}
    assert(data.subrange(0, 4) =~= ines_magic());
    assert(data[6] == ines_flags6(c));
    assert(!bit(data[6] as int, 4));
    assert(ines_prg_start(data) == 16);
    assert(ines_prg_len(data) == c.prg_rom.len());
    assert(ines_cartridge(data).prg_rom =~= c.prg_rom);
    if !c.chr_is_ram {
        assert(ines_chr_len(data) == c.chr_rom.len());
        assert(ines_cartridge(data).chr_rom =~= c.chr_rom);
    }
}

} // verus!
