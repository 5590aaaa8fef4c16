//! The picture unit: its register file, video memory, scroll registers,
//! sprite evaluation and the dot-by-dot pixel pipeline.

use vstd::prelude::*;
use crate::bits::bit;
use crate::bits::lemma_bits_u8;
use crate::bits::lemma_mask_bound_u8;
use crate::bits::lemma_set_clear_u8;
use crate::bits::with_bit;
use crate::bits::without_bit;
use crate::cartridge::mirror_vram_addr;
use crate::cartridge::mirrored_vram_addr;
use crate::cartridge::nametable_page;
use crate::cartridge::Mirroring;

verus! {

pub const SCREEN_WIDTH: usize = 256;

pub const SCREEN_HEIGHT: usize = 240;

/// Bytes in a frame: three per pixel, rows from the top, pixels from the left.
pub const FRAME_BYTES: usize = 184320;

/// Dots in a scanline.
pub const DOTS_PER_LINE: u16 = 341;

/// Scanlines in a frame.
pub const LINES_PER_FRAME: u16 = 262;

// Control register bits
pub const CTRL_NAMETABLE: u8 = 0x03;

pub const CTRL_VRAM_INCREMENT: u8 = 0x04;

pub const CTRL_SPRITE_PATTERN: u8 = 0x08;

pub const CTRL_BG_PATTERN: u8 = 0x10;

pub const CTRL_SPRITE_SIZE: u8 = 0x20;

pub const CTRL_NMI_ENABLE: u8 = 0x80;

// Mask register bits
pub const MASK_SHOW_BG_LEFT: u8 = 0x02;

pub const MASK_SHOW_SPRITES_LEFT: u8 = 0x04;

pub const MASK_SHOW_BG: u8 = 0x08;

pub const MASK_SHOW_SPRITES: u8 = 0x10;

// Status register bits
pub const STATUS_SPRITE_OVERFLOW: u8 = 0x20;

pub const STATUS_SPRITE_ZERO_HIT: u8 = 0x40;

pub const STATUS_VBLANK: u8 = 0x80;

/// The 64 colours of the console as red, green, blue, one triple after the other.
pub const NES_PALETTE: [u8; 192] = [
    0x7C, 0x7C, 0x7C, 0x00, 0x00, 0xFC, 0x00, 0x00, 0xBC, 0x44, 0x28, 0xBC,
    0x8F, 0x00, 0x77, 0xAB, 0x00, 0x13, 0xA7, 0x00, 0x00, 0x7F, 0x0B, 0x00,
    0x43, 0x2F, 0x00, 0x00, 0x47, 0x00, 0x00, 0x51, 0x00, 0x00, 0x3F, 0x17,
    0x1B, 0x3F, 0x5F, 0x00, 0x00, 0x00, 0x05, 0x05, 0x05, 0x05, 0x05, 0x05,
    0xBC, 0xBC, 0xBC, 0x00, 0x73, 0xEF, 0x23, 0x3B, 0xEF, 0x83, 0x00, 0xF3,
    0xBF, 0x00, 0xBF, 0xE7, 0x00, 0x5B, 0xDB, 0x2B, 0x00, 0xCB, 0x4F, 0x0F,
    0x8B, 0x73, 0x00, 0x00, 0x97, 0x00, 0x00, 0xAB, 0x00, 0x00, 0x93, 0x3B,
    0x00, 0x83, 0x8B, 0x11, 0x11, 0x11, 0x09, 0x09, 0x09, 0x09, 0x09, 0x09,
    0xFF, 0xFF, 0xFF, 0x3F, 0xBF, 0xFF, 0x5F, 0x97, 0xFF, 0xA7, 0x8B, 0xFD,
    0xF7, 0x7B, 0xFF, 0xFF, 0x77, 0xB7, 0xFF, 0x77, 0x63, 0xFF, 0x9B, 0x3B,
    0xF3, 0xBF, 0x3F, 0x83, 0xD3, 0x13, 0x4F, 0xDF, 0x4B, 0x58, 0xF8, 0x98,
    0x00, 0xEB, 0xDB, 0x66, 0x66, 0x66, 0x0D, 0x0D, 0x0D, 0x0D, 0x0D, 0x0D,
    0xFF, 0xFF, 0xFF, 0xAB, 0xE7, 0xFF, 0xC7, 0xD7, 0xFF, 0xD7, 0xCB, 0xFF,
    0xFF, 0xC7, 0xFF, 0xFF, 0xC7, 0xDB, 0xFF, 0xBF, 0xB3, 0xFF, 0xDB, 0xAB,
    0xFF, 0xE7, 0xA3, 0xE3, 0xFF, 0xA3, 0xAB, 0xF3, 0xBF, 0xB3, 0xFF, 0xCF,
    0x9F, 0xFF, 0xF3, 0xDD, 0xDD, 0xDD, 0x11, 0x11, 0x11, 0x11, 0x11, 0x11,
];

/// One entry of sprite memory.
#[derive(Debug, Clone, Copy)]
pub struct _Sprite {
    pub y: u8,
    pub tile_id: u8,
    pub attributes: u8,
    pub x: u8,
}

impl _Sprite {
    /// A sprite parked below the screen.
    pub fn _new() -> (r: Self)
        ensures
            r.y == 0xFF,
            r.tile_id == 0,
            r.attributes == 0,
            r.x == 0,
    {
        _Sprite { y: 0xFF, tile_id: 0, attributes: 0, x: 0 }
    }
}

pub struct Ppu {
    pub ctrl: u8,
    pub mask: u8,
    pub status: u8,
    pub oam_addr: u8,
    pub oam_data: [u8; 256],
    pub ppu_data_buffer: u8,
    /// Pattern tables at `$0000..$2000`, nametables at `$2000..$3000`.
    pub vram: [u8; 0x4000],
    pub palette: [u8; 32],
    pub scanline: u16,
    pub cycle: u16,
    pub frame: u64,
    pub frame_buffer: [u8; 184320],
    pub nmi_interrupt: bool,
    pub mirroring: Mirroring,
    // Scroll registers
    pub v: u16,
    pub t: u16,
    pub x: u8,
    pub w: bool,
    // Sprites chosen for the next scanline
    pub secondary_oam: [u8; 32],
    pub sprite_count: u8,
    pub sprite_zero_in_secondary: bool,
    pub sprite_pattern_low: [u8; 8],
    pub sprite_pattern_high: [u8; 8],
    pub sprite_positions: [u8; 8],
    pub sprite_priorities: [u8; 8],
    pub sprite_indexes: [u8; 8],
}

/// The mathematical content of a [`Ppu`].
pub struct PpuView {
    pub ctrl: u8,
    pub mask: u8,
    pub status: u8,
    pub oam_addr: u8,
    pub oam_data: Seq<u8>,
    pub ppu_data_buffer: u8,
    pub vram: Seq<u8>,
    pub palette: Seq<u8>,
    pub scanline: u16,
    pub cycle: u16,
    pub frame: u64,
    pub frame_buffer: Seq<u8>,
    pub nmi_interrupt: bool,
    pub mirroring: Mirroring,
    pub v: u16,
    pub t: u16,
    pub x: u8,
    pub w: bool,
    pub secondary_oam: Seq<u8>,
    pub sprite_count: u8,
    pub sprite_zero_in_secondary: bool,
    pub sprite_pattern_low: Seq<u8>,
    pub sprite_pattern_high: Seq<u8>,
    pub sprite_positions: Seq<u8>,
    pub sprite_priorities: Seq<u8>,
    pub sprite_indexes: Seq<u8>,
}

impl View for Ppu {
    type V = PpuView;

    open spec fn view(&self) -> PpuView {
        PpuView {
            ctrl: self.ctrl,
            mask: self.mask,
            status: self.status,
            oam_addr: self.oam_addr,
            oam_data: self.oam_data@,
            ppu_data_buffer: self.ppu_data_buffer,
            vram: self.vram@,
            palette: self.palette@,
            scanline: self.scanline,
            cycle: self.cycle,
            frame: self.frame,
            frame_buffer: self.frame_buffer@,
            nmi_interrupt: self.nmi_interrupt,
            mirroring: self.mirroring,
            v: self.v,
            t: self.t,
            x: self.x,
            w: self.w,
            secondary_oam: self.secondary_oam@,
            sprite_count: self.sprite_count,
            sprite_zero_in_secondary: self.sprite_zero_in_secondary,
            sprite_pattern_low: self.sprite_pattern_low@,
            sprite_pattern_high: self.sprite_pattern_high@,
            sprite_positions: self.sprite_positions@,
            sprite_priorities: self.sprite_priorities@,
            sprite_indexes: self.sprite_indexes@,
        }
    }
}

// ---------------------------------------------------------------------------
// Scroll registers: 0yyy NNYY YYYX XXXX
// ---------------------------------------------------------------------------

/// Coarse X: the tile column, 0 to 31.
pub open spec fn coarse_x(v: u16) -> u16 {
    v % 32
}

/// Coarse Y: the tile row, 0 to 31.
pub open spec fn coarse_y(v: u16) -> u16 {
    (v / 32) % 32
}

/// Nametable select: bit 0 horizontal, bit 1 vertical.
pub open spec fn nametable_select(v: u16) -> u16 {
    (v / 0x400) % 4
}

/// Fine Y: the pixel row within the tile, 0 to 7.
pub open spec fn fine_y(v: u16) -> u16 {
    (v / 0x1000) % 8
}

/// The scroll register that holds the four fields.
pub open spec fn scroll_word(fy: u16, nt: u16, cy: u16, cx: u16) -> u16 {
    ((fy % 8) * 0x1000 + (nt % 4) * 0x400 + (cy % 32) * 32 + cx % 32) as u16
}

/// A nametable select with its horizontal bit flipped.
pub open spec fn flipped_horizontally(nt: u16) -> u16 {
    if nt % 2 == 0 {
        (nt + 1) as u16
    } else {
        (nt - 1) as u16
    }
}

/// A nametable select with its vertical bit flipped.
pub open spec fn flipped_vertically(nt: u16) -> u16 {
    if (nt / 2) % 2 == 0 {
        (nt + 2) as u16
    } else {
        (nt - 2) as u16
    }
}

/// A nametable select with the vertical bit of one and the horizontal bit
/// of another.
pub open spec fn mixed_select(vertical: u16, horizontal: u16) -> u16 {
    (((vertical / 2) % 2) * 2 + horizontal % 2) as u16
}

/// One tile to the right: coarse X goes up, and past column 31 wraps to 0
/// and switches the horizontal nametable.
pub open spec fn incremented_x(v: u16) -> u16 {
    if coarse_x(v) == 31 {
        scroll_word(fine_y(v), flipped_horizontally(nametable_select(v)), coarse_y(v), 0)
    } else {
        scroll_word(fine_y(v), nametable_select(v), coarse_y(v), (coarse_x(v) + 1) as u16)
    }
}

/// One pixel row down: fine Y goes up; past 7 it wraps and coarse Y goes
/// up, which past row 29 wraps to 0 and switches the vertical nametable,
/// and past row 31 wraps to 0 without switching.
pub open spec fn incremented_y(v: u16) -> u16 {
    if fine_y(v) != 7 {
        scroll_word((fine_y(v) + 1) as u16, nametable_select(v), coarse_y(v), coarse_x(v))
    } else if coarse_y(v) == 29 {
        scroll_word(0, flipped_vertically(nametable_select(v)), 0, coarse_x(v))
    } else if coarse_y(v) == 31 {
        scroll_word(0, nametable_select(v), 0, coarse_x(v))
    } else {
        scroll_word(0, nametable_select(v), (coarse_y(v) + 1) as u16, coarse_x(v))
    }
}

/// `v` with coarse X and the horizontal nametable bit taken from `t`.
pub open spec fn copied_x(v: u16, t: u16) -> u16 {
    scroll_word(
        fine_y(v),
        mixed_select(nametable_select(v), nametable_select(t)),
        coarse_y(v),
        coarse_x(t),
    )
}

/// `v` with fine Y, coarse Y and the vertical nametable bit taken from `t`.
pub open spec fn copied_y(v: u16, t: u16) -> u16 {
    scroll_word(
        fine_y(t),
        mixed_select(nametable_select(t), nametable_select(v)),
        coarse_y(t),
        coarse_x(v),
    )
}

/// The address register after a data access: 1 further, or 32 when control
/// bit 2 is set, kept to 15 bits.
pub open spec fn advanced_address(v: u16, ctrl: u8) -> u16 {
    ((v + if bit(ctrl as int, CTRL_VRAM_INCREMENT as int) { 32int } else { 1int }) % 0x8000) as u16
}

/// Where in the palette an address lands: the low five bits, with the first
/// entry of each sprite palette folded onto the background palette's.
pub open spec fn palette_index(addr: u16) -> int {
    let i = (addr % 32) as int;
    if i >= 16 && i % 4 == 0 {
        i - 16
    } else {
        i
    }
}

fn get_coarse_x(v: u16) -> (r: u16)
    ensures
        r == coarse_x(v),
        r <= 31,
{
    v % 32
}

fn get_coarse_y(v: u16) -> (r: u16)
    ensures
        r == coarse_y(v),
        r <= 31,
{
    (v / 32) % 32
}

fn get_nametable_select(v: u16) -> (r: u16)
    ensures
        r == nametable_select(v),
        r <= 3,
{
    (v / 0x400) % 4
}

fn get_fine_y(v: u16) -> (r: u16)
    ensures
        r == fine_y(v),
        r <= 7,
{
    (v / 0x1000) % 8
}

fn make_scroll_word(fy: u16, nt: u16, cy: u16, cx: u16) -> (r: u16)
    ensures
        r == scroll_word(fy, nt, cy, cx),
{
    (fy % 8) * 0x1000 + (nt % 4) * 0x400 + (cy % 32) * 32 + cx % 32
}

impl PpuView {
    /// The unit at power-on: registers clear, memories zero, every palette
    /// entry black (`$0F`) but the backdrop, which is light blue (`$22`),
    /// and the sprite slots empty.
    pub open spec fn power_on() -> PpuView {
        PpuView {
            ctrl: 0,
            mask: 0,
            status: 0,
            oam_addr: 0,
            oam_data: Seq::new(256, |i: int| 0u8),
            ppu_data_buffer: 0,
            vram: Seq::new(0x4000, |i: int| 0u8),
            palette: Seq::new(32, |i: int| if i == 0 { 0x22u8 } else { 0x0Fu8 }),
            scanline: 0,
            cycle: 0,
            frame: 0,
            frame_buffer: Seq::new(FRAME_BYTES as nat, |i: int| 0u8),
            nmi_interrupt: false,
            mirroring: Mirroring::Horizontal,
            v: 0,
            t: 0,
            x: 0,
            w: false,
            secondary_oam: Seq::new(32, |i: int| 0xFFu8),
            sprite_count: 0,
            sprite_zero_in_secondary: false,
            sprite_pattern_low: Seq::new(8, |i: int| 0u8),
            sprite_pattern_high: Seq::new(8, |i: int| 0u8),
            sprite_positions: Seq::new(8, |i: int| 0u8),
            sprite_priorities: Seq::new(8, |i: int| 0u8),
            sprite_indexes: Seq::new(8, |i: int| 0u8),
        }
    }

    /// The unit after the reset line: registers, counters and scroll state
    /// clear; memories, palette, frame and picture stay.
    pub open spec fn reset(self) -> PpuView {
        PpuView {
            ctrl: 0,
            mask: 0,
            status: 0,
            oam_addr: 0,
            ppu_data_buffer: 0,
            scanline: 0,
            cycle: 0,
            v: 0,
            t: 0,
            x: 0,
            w: false,
            nmi_interrupt: false,
            ..self
        }
    }

    /// The memories have their sizes and the counters are in range: the dot
    /// below 341, the scanline below 262, the scroll registers within 15
    /// and 3 bits, and at most eight sprites chosen.
    pub open spec fn wf(self) -> bool {
        &&& self.oam_data.len() == 256
        &&& self.vram.len() == 0x4000
        &&& self.palette.len() == 32
        &&& self.frame_buffer.len() == FRAME_BYTES
        &&& self.secondary_oam.len() == 32
        &&& self.sprite_pattern_low.len() == 8
        &&& self.sprite_pattern_high.len() == 8
        &&& self.sprite_positions.len() == 8
        &&& self.sprite_priorities.len() == 8
        &&& self.sprite_indexes.len() == 8
        &&& self.cycle < DOTS_PER_LINE
        &&& self.scanline < LINES_PER_FRAME
        &&& self.v <= 0x7FFF
        &&& self.t <= 0x7FFF
        &&& self.x <= 7
        &&& self.sprite_count <= 8
    }

    /// Where in `vram` an address below `$3F00` lands. Pattern addresses map
    /// to themselves, nametable addresses fold by the mirroring, and
    /// `$3000..$3F00` repeats the nametables.
    pub open spec fn vram_index(self, addr: u16) -> int {
        let a = addr % 0x4000;
        if a < 0x2000 {
            a as int
        } else {
            mirrored_vram_addr(self.mirroring, a)
        }
    }

    /// The byte at a video address. Only the low 14 bits take part;
    /// `$3F00..$4000` is the palette.
    pub open spec fn read_vram(self, addr: u16) -> u8 {
        let a = addr % 0x4000;
        if a < 0x3F00 {
            self.vram[self.vram_index(addr)]
        } else {
            self.palette[palette_index(a)]
        }
    }

    /// The unit after a byte is stored at a video address.
    pub open spec fn write_vram(self, addr: u16, value: u8) -> PpuView {
        let a = addr % 0x4000;
        if a < 0x3F00 {
            PpuView { vram: self.vram.update(self.vram_index(addr), value), ..self }
        } else {
            PpuView { palette: self.palette.update(palette_index(a), value), ..self }
        }
    }

    /// The unit after a status read: vertical blank and the write toggle clear.
    pub open spec fn read_status(self) -> PpuView {
        PpuView { status: without_bit(self.status, STATUS_VBLANK as int), w: false, ..self }
    }

    /// What a data read returns. Below the palette it is the buffered byte
    /// of the read before; in the palette it is the entry itself.
    pub open spec fn read_ppu_data_value(self) -> u8 {
        if self.v % 0x4000 < 0x3F00 {
            self.ppu_data_buffer
        } else {
            self.read_vram(self.v)
        }
    }

    /// The unit after a data read: the buffer takes the byte at `v`, or for
    /// a palette address the nametable byte `$1000` below it, and `v` moves on.
    pub open spec fn read_ppu_data(self) -> PpuView {
        let a = self.v % 0x4000;
        PpuView {
            ppu_data_buffer: if a < 0x3F00 {
                self.read_vram(a)
            } else {
                self.read_vram((a - 0x1000) as u16)
            },
            v: advanced_address(self.v, self.ctrl),
            ..self
        }
    }

    /// The unit after a control write: the nametable bits go to `t`, and
    /// enabling the interrupt during vertical blank raises it at once.
    pub open spec fn write_ctrl(self, value: u8) -> PpuView {
        PpuView {
            ctrl: value,
            nmi_interrupt: self.nmi_interrupt || (self.ctrl < 128 && value >= 128 && self.status
                >= 128),
            t: scroll_word(fine_y(self.t), (value % 4) as u16, coarse_y(self.t), coarse_x(self.t)),
            ..self
        }
    }

    /// The unit after a sprite data write: the byte goes to sprite memory
    /// at the sprite address, which moves on, wrapping at 256.
    pub open spec fn write_oam_data(self, value: u8) -> PpuView {
        PpuView {
            oam_data: self.oam_data.update(self.oam_addr as int, value),
            oam_addr: ((self.oam_addr + 1) % 256) as u8,
            ..self
        }
    }

    /// The unit after a scroll write. The first write of a pair sets fine X
    /// and coarse X of `t`, the second fine Y and coarse Y; each flips the
    /// write toggle.
    pub open spec fn write_scroll(self, value: u8) -> PpuView {
        if !self.w {
            PpuView {
                x: value % 8,
                t: scroll_word(fine_y(self.t), nametable_select(self.t), coarse_y(self.t), (value / 8) as u16),
                w: true,
                ..self
            }
        } else {
            PpuView {
                t: scroll_word((value % 8) as u16, nametable_select(self.t), (value / 8) as u16, coarse_x(self.t)),
                w: false,
                ..self
            }
        }
    }

    /// The unit after an address write. The first write of a pair sets bits
    /// 8-13 of `t` and clears bit 14, the second sets the low byte and
    /// copies `t` to `v`; each flips the write toggle.
    pub open spec fn write_ppu_addr(self, value: u8) -> PpuView {
        if !self.w {
            PpuView { t: (self.t % 0x100 + (value % 64) * 0x100) as u16, w: true, ..self }
        } else {
            PpuView {
                t: (((self.t / 0x100) % 128) * 0x100 + value) as u16,
                v: (((self.t / 0x100) % 128) * 0x100 + value) as u16,
                w: false,
                ..self
            }
        }
    }

    /// The unit after a data write: the byte goes to video memory at `v`,
    /// which moves on.
    pub open spec fn write_ppu_data(self, value: u8) -> PpuView {
        PpuView { v: advanced_address(self.v, self.ctrl), ..self.write_vram(self.v, value) }
    }

    /// What a read of register 0 to 7 returns: 2 status, 4 sprite data,
    /// 7 data; the others are write-only and read as zero.
    pub open spec fn read_value_from(self, register: u16) -> u8 {
        if register == 2 {
            self.status
        } else if register == 4 {
            self.oam_data[self.oam_addr as int]
        } else if register == 7 {
            self.read_ppu_data_value()
        } else {
            0
        }
    }

    /// The unit after a read of register 0 to 7.
    pub open spec fn read_from(self, register: u16) -> PpuView {
        if register == 2 {
            self.read_status()
        } else if register == 7 {
            self.read_ppu_data()
        } else {
            self
        }
    }

    /// The unit after a write to register 0 to 7: 0 control, 1 mask,
    /// 2 status (which only clears the write toggle), 3 sprite address,
    /// 4 sprite data, 5 scroll, 6 address, 7 data.
    pub open spec fn write_to(self, register: u16, value: u8) -> PpuView {
        if register == 0 {
            self.write_ctrl(value)
        } else if register == 1 {
            PpuView { mask: value, ..self }
        } else if register == 2 {
            PpuView { w: false, ..self }
        } else if register == 3 {
            PpuView { oam_addr: value, ..self }
        } else if register == 4 {
            self.write_oam_data(value)
        } else if register == 5 {
            self.write_scroll(value)
        } else if register == 6 {
            self.write_ppu_addr(value)
        } else {
            self.write_ppu_data(value)
        }
    }

    /// What a register read returns. The register is chosen by the low
    /// three address bits.
    pub open spec fn read_register_value(self, address: u16) -> u8 {
        self.read_value_from(address % 8)
    }

    /// The unit after a register read. The register is chosen by the low
    /// three address bits.
    pub open spec fn read_register(self, address: u16) -> PpuView {
        self.read_from(address % 8)
    }

    /// The unit after a register write. The register is chosen by the low
    /// three address bits.
    pub open spec fn write_register(self, address: u16, value: u8) -> PpuView {
        self.write_to(address % 8, value)
    }

    /// The unit after a whole page has been copied into sprite memory.
    pub open spec fn oam_dma(self, data: Seq<u8>) -> PpuView {
        PpuView { oam_data: data, ..self }
    }
}

// ---------------------------------------------------------------------------
// Sprites and pixels
// ---------------------------------------------------------------------------

/// A byte with its bits in the opposite order.
pub open spec fn reversed_byte(b: u8) -> u8 {
    (mirrored_bit(b, 1) + mirrored_bit(b, 2) + mirrored_bit(b, 4) + mirrored_bit(b, 8)
        + mirrored_bit(b, 16) + mirrored_bit(b, 32) + mirrored_bit(b, 64) + mirrored_bit(
        b,
        128,
    )) as u8
}

/// What a bit of a byte contributes to the reversed byte: the weight
/// opposite to its own, if it is set.
pub open spec fn mirrored_bit(b: u8, weight: int) -> int {
    if bit(b as int, weight) {
        128int / weight
    } else {
        0int
    }
}

/// The weight of the bit that holds a column of a tile row: 128 for the
/// leftmost column down to 1 for the rightmost.
pub open spec fn column_weight(column: int) -> int {
    if column == 0 {
        128
    } else if column == 1 {
        64
    } else if column == 2 {
        32
    } else if column == 3 {
        16
    } else if column == 4 {
        8
    } else if column == 5 {
        4
    } else if column == 6 {
        2
    } else {
        1
    }
}

/// The two bits that an attribute byte holds for a quadrant of its block:
/// 0 top left, 1 top right, 2 bottom left, 3 bottom right.
pub open spec fn attribute_field(attribute: u8, quadrant: int) -> u8 {
    if quadrant == 0 {
        attribute % 4
    } else if quadrant == 1 {
        (attribute / 4) % 4
    } else if quadrant == 2 {
        (attribute / 16) % 4
    } else {
        attribute / 64
    }
}

/// The two-bit pattern value at a column of a tile row, column 0 leftmost.
pub open spec fn pattern_value(low: u8, high: u8, column: int) -> u8 {
    let weight = column_weight(column);
    ((if bit(high as int, weight) { 2int } else { 0int }) + (if bit(low as int, weight) {
        1int
    } else {
        0int
    })) as u8
}

/// Sprite height in lines: 16 when control bit 5 is set, else 8.
pub open spec fn sprite_height(ctrl: u8) -> int {
    if bit(ctrl as int, CTRL_SPRITE_SIZE as int) {
        16
    } else {
        8
    }
}

/// Whether sprite `i` covers the line that follows `line`: its Y byte is at
/// most `height - 1` lines above `line`.
pub open spec fn sprite_in_range(oam: Seq<u8>, i: int, line: int, height: int) -> bool {
    0 <= line - oam[4 * i] < height
}

/// Those among the first `n` sprites that cover the line after `line`, in
/// the order of sprite memory.
pub open spec fn sprites_in_range(oam: Seq<u8>, line: int, height: int, n: int) -> Seq<int>
    decreases n,
{
    if n <= 0 {
        Seq::<int>::empty()
    } else {
        let before = sprites_in_range(oam, line, height, n - 1);
        if sprite_in_range(oam, n - 1, line, height) {
            before.push(n - 1)
        } else {
            before
        }
    }
}

/// The row of a sprite that falls on the line after `line`.
pub open spec fn sprite_row(line: int, y: int, height: int) -> int {
    if line >= y {
        (line - y) % height
    } else {
        0
    }
}

/// Address of the low pattern byte for a row of a sprite. A set bit 7 of
/// the attributes flips the sprite upside down. An 8x8 sprite takes its
/// pattern table from control bit 3. An 8x16 sprite takes it from bit 0
/// of the tile number, clears that bit, and finds its lower half in the
/// tile that follows.
pub open spec fn sprite_pattern_addr(ctrl: u8, tile: u8, attributes: u8, row: int) -> int {
    let height = sprite_height(ctrl);
    let r = if attributes >= 128 { height - 1 - row } else { row };
    if height == 8 {
        (if bit(ctrl as int, CTRL_SPRITE_PATTERN as int) { 0x1000int } else { 0int }) + tile as int
            * 16 + r
    } else {
        (tile % 2) * 0x1000 + (tile - tile % 2) * 16 + if r >= 8 { r + 8 } else { r }
    }
}

/// A palette entry as a colour: bits 0-5 index the colour table.
pub open spec fn colour_of(entry: u8, channel: int) -> u8 {
    NES_PALETTE@[3 * (entry % 64) as int + channel]
}

/// The reversed byte as the shifts and masks compute it.
spec fn reverse_formula(b: u8) -> u8 {
    ((b & 0x01) << 7) | ((b & 0x02) << 5) | ((b & 0x04) << 3) | ((b & 0x08) << 1) | ((b & 0x10) >> 1)
        | ((b & 0x20) >> 3) | ((b & 0x40) >> 5) | ((b & 0x80) >> 7)
}

proof fn lemma_reverse_formula(b: u8)
    by (bit_vector)
    ensures
        reverse_formula(reverse_formula(b)) == b,
        ((reverse_formula(b) / 128) % 2 == 1) == ((b / 1) % 2 == 1),
        ((reverse_formula(b) / 64) % 2 == 1) == ((b / 2) % 2 == 1),
        ((reverse_formula(b) / 32) % 2 == 1) == ((b / 4) % 2 == 1),
        ((reverse_formula(b) / 16) % 2 == 1) == ((b / 8) % 2 == 1),
        ((reverse_formula(b) / 8) % 2 == 1) == ((b / 16) % 2 == 1),
        ((reverse_formula(b) / 4) % 2 == 1) == ((b / 32) % 2 == 1),
        ((reverse_formula(b) / 2) % 2 == 1) == ((b / 64) % 2 == 1),
        ((reverse_formula(b) / 1) % 2 == 1) == ((b / 128) % 2 == 1),
        reverse_formula(b) == (if (b / 1) % 2 == 1 { 128u8 } else { 0u8 }) + (if (b / 2) % 2 == 1 {
            64u8
        } else {
            0u8
        }) + (if (b / 4) % 2 == 1 { 32u8 } else { 0u8 }) + (if (b / 8) % 2 == 1 {
            16u8
        } else {
            0u8
        }) + (if (b / 16) % 2 == 1 { 8u8 } else { 0u8 }) + (if (b / 32) % 2 == 1 {
            4u8
        } else {
            0u8
        }) + (if (b / 64) % 2 == 1 { 2u8 } else { 0u8 }) + (if (b / 128) % 2 == 1 {
            1u8
        } else {
            0u8
        }),
{
}

proof fn lemma_reversed_is_formula(b: u8)
    ensures
        reversed_byte(b) == reverse_formula(b),
{
    lemma_reverse_formula(b);
    assert(mirrored_bit(b, 1) == (if (b as int / 1) % 2 == 1 { 128int } else { 0int }));
    assert(mirrored_bit(b, 2) == (if (b as int / 2) % 2 == 1 { 64int } else { 0int }));
    assert(mirrored_bit(b, 4) == (if (b as int / 4) % 2 == 1 { 32int } else { 0int }));
    assert(mirrored_bit(b, 8) == (if (b as int / 8) % 2 == 1 { 16int } else { 0int }));
    assert(mirrored_bit(b, 16) == (if (b as int / 16) % 2 == 1 { 8int } else { 0int }));
    assert(mirrored_bit(b, 32) == (if (b as int / 32) % 2 == 1 { 4int } else { 0int }));
    assert(mirrored_bit(b, 64) == (if (b as int / 64) % 2 == 1 { 2int } else { 0int }));
    assert(mirrored_bit(b, 128) == (if (b as int / 128) % 2 == 1 { 1int } else { 0int }));
}

/// Bit reversal swaps every bit with the one of the opposite weight, and
/// doing it twice gives the byte back.
pub proof fn lemma_reversed_byte(b: u8)
    ensures
        reversed_byte(reversed_byte(b)) == b,
        bit(reversed_byte(b) as int, 128) == bit(b as int, 1),
        bit(reversed_byte(b) as int, 64) == bit(b as int, 2),
        bit(reversed_byte(b) as int, 32) == bit(b as int, 4),
        bit(reversed_byte(b) as int, 16) == bit(b as int, 8),
        bit(reversed_byte(b) as int, 8) == bit(b as int, 16),
        bit(reversed_byte(b) as int, 4) == bit(b as int, 32),
        bit(reversed_byte(b) as int, 2) == bit(b as int, 64),
        bit(reversed_byte(b) as int, 1) == bit(b as int, 128),
{
    lemma_reversed_is_formula(b);
    lemma_reversed_is_formula(reverse_formula(b));
    lemma_reverse_formula(b);
}

impl PpuView {
    /// Whether background or sprites are switched on.
    pub open spec fn rendering(self) -> bool {
        bit(self.mask as int, MASK_SHOW_BG as int) || bit(self.mask as int, MASK_SHOW_SPRITES as int)
    }

    /// The unit after sprite evaluation on the current scanline. The first
    /// eight sprites that cover the next line are copied to the secondary
    /// memory, whose unused slots read `$FF`; a ninth raises the overflow
    /// flag; and the unit remembers whether sprite 0 is among those copied.
    pub open spec fn evaluate_sprites(self) -> PpuView {
        let found = sprites_in_range(
            self.oam_data,
            self.scanline as int,
            sprite_height(self.ctrl),
            64,
        );
        let count = if found.len() < 8 { found.len() as int } else { 8 };
        PpuView {
            secondary_oam: Seq::new(
                32,
                |k: int|
                    if k / 4 < count {
                        self.oam_data[4 * found[k / 4] + k % 4]
                    } else {
                        0xFFu8
                    },
            ),
            sprite_count: count as u8,
            sprite_zero_in_secondary: count > 0 && found[0] == 0,
            sprite_indexes: Seq::new(
                8,
                |k: int| if k < count { found[k] as u8 } else { self.sprite_indexes[k] },
            ),
            status: if found.len() > 8 {
                with_bit(self.status, STATUS_SPRITE_OVERFLOW as int)
            } else {
                self.status
            },
            ..self
        }
    }

    /// Number of sprite slots in use, never more than eight.
    pub open spec fn slots(self) -> int {
        if self.sprite_count < 8 {
            self.sprite_count as int
        } else {
            8
        }
    }

    /// Address of the low pattern byte for slot `k` on the next line.
    pub open spec fn slot_pattern_addr(self, k: int) -> int {
        sprite_pattern_addr(
            self.ctrl,
            self.secondary_oam[4 * k + 1],
            self.secondary_oam[4 * k + 2],
            sprite_row(
                self.scanline as int,
                self.secondary_oam[4 * k] as int,
                sprite_height(self.ctrl),
            ),
        )
    }

    /// A pattern byte of slot `k`, eight bytes further for the high plane,
    /// mirrored when bit 6 of the attributes asks for a horizontal flip.
    pub open spec fn slot_pattern(self, k: int, high: bool) -> u8 {
        let addr = self.slot_pattern_addr(k) + if high { 8int } else { 0int };
        let byte = self.vram[addr % 0x2000];
        if bit(self.secondary_oam[4 * k + 2] as int, 64) {
            reversed_byte(byte)
        } else {
            byte
        }
    }

    /// The unit after the pattern fetches for the chosen sprites: each slot
    /// in use gets its two pattern bytes, its X position and its priority
    /// bit; the other slots keep what they held.
    pub open spec fn fetch_sprites(self) -> PpuView {
        let n = self.slots();
        PpuView {
            sprite_pattern_low: Seq::new(
                8,
                |k: int| if k < n { self.slot_pattern(k, false) } else { self.sprite_pattern_low[k] },
            ),
            sprite_pattern_high: Seq::new(
                8,
                |k: int| if k < n { self.slot_pattern(k, true) } else { self.sprite_pattern_high[k] },
            ),
            sprite_positions: Seq::new(
                8,
                |k: int| if k < n { self.secondary_oam[4 * k + 3] } else { self.sprite_positions[k] },
            ),
            sprite_priorities: Seq::new(
                8,
                |k: int|
                    if k < n {
                        if bit(self.secondary_oam[4 * k + 2] as int, 32) { 32u8 } else { 0u8 }
                    } else {
                        self.sprite_priorities[k]
                    },
            ),
            ..self
        }
    }

    /// Whether slot `k` shows a non-transparent pixel at column `x`.
    pub open spec fn slot_covers(self, k: int, x: int) -> bool {
        &&& 0 <= x - self.sprite_positions[k] < 8
        &&& pattern_value(
            self.sprite_pattern_low[k],
            self.sprite_pattern_high[k],
            x - self.sprite_positions[k],
        ) != 0
    }

    /// Among the first `n` slots, the one whose pixel shows at column `x`:
    /// the leftmost of those that cover it, the earlier slot on a tie.
    pub open spec fn slot_at(self, x: int, n: int) -> Option<int>
        decreases n,
    {
        if n <= 0 {
            None
        } else {
            let before = self.slot_at(x, n - 1);
            if self.slot_covers(n - 1, x) && (before is None || self.sprite_positions[n - 1]
                < self.sprite_positions[before.unwrap()]) {
                Some(n - 1)
            } else {
                before
            }
        }
    }

    /// The sprite pixel at column `x`: its palette index `$10 | palette << 2
    /// | pattern`, whether it lies behind the background, and whether it
    /// belongs to sprite 0. Without a sprite the index is 0.
    pub open spec fn sprite_pixel(self, x: int) -> (u8, bool, bool) {
        match self.slot_at(x, self.slots()) {
            None => (0u8, false, false),
            Some(k) => (
                (16 + (self.secondary_oam[4 * k + 2] % 4) * 4 + pattern_value(
                    self.sprite_pattern_low[k],
                    self.sprite_pattern_high[k],
                    x - self.sprite_positions[k],
                )) as u8,
                bit(self.secondary_oam[4 * k + 2] as int, 32),
                k == 0 && self.sprite_zero_in_secondary,
            ),
        }
    }

    /// Address of the nametable byte for the tile that `v` points at.
    pub open spec fn tile_addr(self) -> u16 {
        (0x2000 + self.v % 0x1000) as u16
    }

    /// Address of the attribute byte for the tile that `v` points at.
    pub open spec fn attribute_addr(self) -> u16 {
        (0x23C0 + nametable_select(self.v) * 0x400 + (coarse_y(self.v) / 4) * 8 + coarse_x(self.v)
            / 4) as u16
    }

    /// Address of the low pattern byte for the tile row that `v` points at.
    pub open spec fn bg_pattern_addr(self) -> int {
        (if bit(self.ctrl as int, CTRL_BG_PATTERN as int) { 0x1000int } else { 0int }) + self.read_vram(
            self.tile_addr(),
        ) as int * 16 + fine_y(self.v) as int
    }

    /// The background's two-bit pattern value at column `x`.
    pub open spec fn bg_pattern(self, x: int) -> u8 {
        pattern_value(
            self.vram[self.bg_pattern_addr() % 0x2000],
            self.vram[(self.bg_pattern_addr() + 8) % 0x2000],
            (x + self.x as int) % 8,
        )
    }

    /// The two-bit palette number that the attribute byte gives the tile.
    pub open spec fn bg_palette(self) -> u8 {
        attribute_field(
            self.read_vram(self.attribute_addr()),
            ((coarse_y(self.v) / 2) % 2) * 2 + (coarse_x(self.v) / 2) % 2,
        )
    }

    /// The background pixel at column `x`: 0 when the pattern is
    /// transparent, else `palette << 2 | pattern`.
    pub open spec fn background_pixel(self, x: int) -> u8 {
        if self.bg_pattern(x) == 0 {
            0
        } else {
            (self.bg_palette() * 4 + self.bg_pattern(x)) as u8
        }
    }

    /// The background pixel as shown: transparent when the background is
    /// off, or clipped in the left eight columns.
    pub open spec fn shown_background(self, x: int) -> u8 {
        if bit(self.mask as int, MASK_SHOW_BG as int) && (x >= 8 || bit(
            self.mask as int,
            MASK_SHOW_BG_LEFT as int,
        )) {
            self.background_pixel(x)
        } else {
            0
        }
    }

    /// The sprite pixel as shown: none when sprites are off, or clipped in
    /// the left eight columns.
    pub open spec fn shown_sprite(self, x: int) -> (u8, bool, bool) {
        if bit(self.mask as int, MASK_SHOW_SPRITES as int) && (x >= 8 || bit(
            self.mask as int,
            MASK_SHOW_SPRITES_LEFT as int,
        )) {
            self.sprite_pixel(x)
        } else {
            (0u8, false, false)
        }
    }

    /// The palette index shown at column `x`. Where both layers are
    /// transparent it is the backdrop, index 0; where one is, the other
    /// shows; where neither is, the sprite's priority bit decides.
    pub open spec fn pixel_index(self, x: int) -> u8 {
        let bg = self.shown_background(x);
        let sprite = self.shown_sprite(x);
        if sprite.0 == 0 {
            bg
        } else if bg == 0 {
            sprite.0
        } else if sprite.1 {
            bg
        } else {
            sprite.0
        }
    }

    /// Whether the pixel at column `x` is a sprite 0 hit: a pixel of sprite
    /// 0 over a non-transparent background pixel, left of column 255.
    pub open spec fn sprite_zero_hits(self, x: int) -> bool {
        self.shown_background(x) != 0 && self.shown_sprite(x).0 != 0 && self.shown_sprite(x).2 && x
            < 255
    }

    /// The unit after the pixel of the current dot has been produced: for
    /// dots 1 to 256 of a visible scanline the colour of [`Self::pixel_index`]
    /// goes to the picture at column `dot - 1`, and a sprite 0 hit is
    /// recorded. On other dots nothing changes.
    pub open spec fn render_pixel(self) -> PpuView {
        let x = self.cycle as int - 1;
        let y = self.scanline as int;
        if 0 <= x < 256 && y < 240 {
            let entry = self.palette[(self.pixel_index(x) % 32) as int];
            let at = (y * 256 + x) * 3;
            PpuView {
                frame_buffer: self.frame_buffer.update(at, colour_of(entry, 0)).update(
                    at + 1,
                    colour_of(entry, 1),
                ).update(at + 2, colour_of(entry, 2)),
                status: if self.sprite_zero_hits(x) {
                    with_bit(self.status, STATUS_SPRITE_ZERO_HIT as int)
                } else {
                    self.status
                },
                ..self
            }
        } else {
            self
        }
    }

    /// `v` after the scroll updates of a dot on a rendering line: one tile
    /// right on every eighth dot from 8 to 256 and on dots 328 and 336; one
    /// row down on dot 256; the horizontal position from `t` on dot 257;
    /// and on the pre-render line the vertical position from `t` on dots
    /// 280 to 304.
    pub open spec fn scrolled(self, dot: u16, prerender: bool) -> u16 {
        let v1 = if (8 <= dot <= 256 && dot % 8 == 0) || dot == 328 || dot == 336 {
            incremented_x(self.v)
        } else {
            self.v
        };
        let v2 = if dot == 256 { incremented_y(v1) } else { v1 };
        let v3 = if dot == 257 { copied_x(v2, self.t) } else { v2 };
        if prerender && 280 <= dot <= 304 {
            copied_y(v3, self.t)
        } else {
            v3
        }
    }

    /// The dot that the next tick works on: one past the current one, where
    /// 341 stands for the idle dot that ends the line.
    pub open spec fn next_dot(self) -> u16 {
        if self.cycle >= 340 {
            341
        } else {
            (self.cycle + 1) as u16
        }
    }

    /// The work of a dot on a visible scanline.
    pub open spec fn visible_dot(self) -> PpuView {
        let dot = self.cycle;
        let a = if dot == 257 && bit(self.mask as int, MASK_SHOW_SPRITES as int) {
            self.evaluate_sprites().fetch_sprites()
        } else {
            self
        };
        let b = a.render_pixel();
        if b.rendering() {
            PpuView { v: b.scrolled(dot, false), ..b }
        } else {
            b
        }
    }

    /// The work of a dot on the pre-render scanline: dot 1 clears vertical
    /// blank, sprite 0 hit and sprite overflow, and dot 257 empties the
    /// sprite slots, since no sprite is chosen for scanline 0.
    pub open spec fn prerender_dot(self) -> PpuView {
        let dot = self.cycle;
        let a = if dot == 1 {
            PpuView { status: self.status % 32, ..self }
        } else if dot == 257 {
            PpuView { sprite_count: 0, sprite_zero_in_secondary: false, ..self }
        } else {
            self
        };
        if a.rendering() {
            PpuView { v: a.scrolled(dot, true), ..a }
        } else {
            a
        }
    }

    /// The start of vertical blank: the flag rises, and with it the
    /// interrupt if control bit 7 is set.
    pub open spec fn vblank_dot(self) -> PpuView {
        PpuView {
            status: with_bit(self.status, STATUS_VBLANK as int),
            nmi_interrupt: self.nmi_interrupt || self.ctrl >= 128,
            ..self
        }
    }

    /// The unit one tick on. The dot counter advances and the work of the
    /// new dot is done: pixels and scrolling on scanlines 0 to 239, the
    /// start of vertical blank on dot 1 of scanline 241, the pre-render
    /// work on scanline 261. Dot 341 ends the line: the dot counter returns
    /// to 0 and the scanline advances, and after scanline 261 the scanline
    /// returns to 0 and the frame count goes up, wrapping at 2^64.
    pub open spec fn step(self) -> PpuView {
        let dot = self.next_dot();
        let p = PpuView { cycle: dot, ..self };
        let q = if p.scanline < 240 {
            p.visible_dot()
        } else if p.scanline == 241 && dot == 1 {
            p.vblank_dot()
        } else if p.scanline == 261 {
            p.prerender_dot()
        } else {
            p
        };
        if dot >= 341 {
            if q.scanline >= 261 {
                PpuView {
                    cycle: 0,
                    scanline: 0,
                    frame: if q.frame == u64::MAX { 0 } else { (q.frame + 1) as u64 },
                    ..q
                }
            } else {
                PpuView { cycle: 0, scanline: (q.scanline + 1) as u16, ..q }
            }
        } else {
            q
        }
    }

    /// The unit `n` ticks on.
    pub open spec fn step_n(self, n: nat) -> PpuView
        decreases n,
    {
        if n == 0 {
            self
        } else {
            self.step().step_n((n - 1) as nat)
        }
    }
}

impl Ppu {
    pub fn new() -> (r: Self)
        ensures
            r@ == PpuView::power_on(),
            r@.wf(),
    {
        let mut palette = [0x0Fu8; 32];
        palette[0] = 0x22;
        let r = Ppu {
            ctrl: 0,
            mask: 0,
            status: 0,
            oam_addr: 0,
            oam_data: [0u8; 256],
            ppu_data_buffer: 0,
            vram: [0u8; 0x4000],
            palette,
            scanline: 0,
            cycle: 0,
            frame: 0,
            frame_buffer: [0u8; 184320],
            nmi_interrupt: false,
            mirroring: Mirroring::Horizontal,
            v: 0,
            t: 0,
            x: 0,
            w: false,
            secondary_oam: [0xFFu8; 32],
            sprite_count: 0,
            sprite_zero_in_secondary: false,
            sprite_pattern_low: [0u8; 8],
            sprite_pattern_high: [0u8; 8],
            sprite_positions: [0u8; 8],
            sprite_priorities: [0u8; 8],
            sprite_indexes: [0u8; 8],
        };
        proof {
            let want = PpuView::power_on();
            assert(r@.oam_data =~= want.oam_data);
            assert(r@.vram =~= want.vram);
            assert(r@.palette =~= want.palette);
            assert(r@.frame_buffer =~= want.frame_buffer);
            assert(r@.secondary_oam =~= want.secondary_oam);
            assert(r@.sprite_pattern_low =~= want.sprite_pattern_low);
            assert(r@.sprite_pattern_high =~= want.sprite_pattern_high);
            assert(r@.sprite_positions =~= want.sprite_positions);
            assert(r@.sprite_priorities =~= want.sprite_priorities);
            assert(r@.sprite_indexes =~= want.sprite_indexes);
        }
        r
    }

    /// Pulls the reset line. See [`PpuView::reset`].
    pub fn reset(&mut self)
        ensures
            final(self)@ == old(self)@.reset(),
            old(self)@.wf() ==> final(self)@.wf(),
    {
        proof {
            if self@.wf() {
                lemma_registers_keep_wf(self@, 0, 0);
            }
        }
        self.ctrl = 0;
        self.mask = 0;
        self.status = 0;
        self.oam_addr = 0;
        self.ppu_data_buffer = 0;
        self.scanline = 0;
        self.cycle = 0;
        self.v = 0;
        self.t = 0;
        self.x = 0;
        self.w = false;
        self.nmi_interrupt = false;
    }

    /// Reads a register. See [`PpuView::read_register_value`] for the value
    /// and [`PpuView::read_register`] for the effect.
    pub fn read_register(&mut self, address: u16) -> (r: u8)
        ensures
            r == old(self)@.read_register_value(address),
            final(self)@ == old(self)@.read_register(address),
            old(self)@.wf() ==> final(self)@.wf(),
    {
        proof {
            if self@.wf() {
                lemma_registers_keep_wf(self@, address, 0);
            }
        }
        let register: u16 = address % 8;
        if register == 2 {
            self.read_status()
        } else if register == 4 {
            self.read_oam_data()
        } else if register == 7 {
            self.read_ppu_data()
        } else {
            0
        }
    }

    /// Writes a register. See [`PpuView::write_register`].
    pub fn write_register(&mut self, address: u16, value: u8)
        ensures
            final(self)@ == old(self)@.write_register(address, value),
            old(self)@.wf() ==> final(self)@.wf(),
    {
        proof {
            if self@.wf() {
                lemma_registers_keep_wf(self@, address, value);
            }
        }
        let register: u16 = address % 8;
        if register == 0 {
            self.write_ctrl(value);
        } else if register == 1 {
            self.write_mask(value);
        } else if register == 2 {
            self.w = false;
        } else if register == 3 {
            self.write_oam_addr(value);
        } else if register == 4 {
            self.write_oam_data(value);
        } else if register == 5 {
            self.write_scroll(value);
        } else if register == 6 {
            self.write_ppu_addr(value);
        } else {
            self.write_ppu_data(value);
        }
    }

    /// Reads the status register, which clears vertical blank and the
    /// write toggle.
    pub fn read_status(&mut self) -> (r: u8)
        ensures
            r == old(self)@.status,
            final(self)@ == old(self)@.read_status(),
    {
        proof {
            lemma_set_clear_u8(self.status, STATUS_VBLANK);
        }
        let result = self.status;
        self.status = self.status & !STATUS_VBLANK;
        self.w = false;
        result
    }

    /// Reads sprite memory at the sprite address.
    pub fn read_oam_data(&self) -> (r: u8)
        ensures
            r == self@.oam_data[self@.oam_addr as int],
    {
        self.oam_data[self.oam_addr as usize]
    }

    /// Reads the data register. See [`PpuView::read_ppu_data`].
    pub fn read_ppu_data(&mut self) -> (r: u8)
        ensures
            r == old(self)@.read_ppu_data_value(),
            final(self)@ == old(self)@.read_ppu_data(),
    {
        let addr: u16 = self.v % 0x4000;
        let result = if addr < 0x3F00 {
            let buffered = self.ppu_data_buffer;
            self.ppu_data_buffer = self.read_vram(addr);
            buffered
        } else {
            self.ppu_data_buffer = self.read_vram(addr - 0x1000);
            self.read_vram(self.v)
        };
        self.advance_address();
        result
    }

    /// Moves the address register on after a data access.
    fn advance_address(&mut self)
        ensures
            final(self)@ == (PpuView { v: advanced_address(old(self)@.v, old(self)@.ctrl), ..old(self)@ }),
    {
        proof {
            lemma_bits_u8(self.ctrl);
        }
        let step: u32 = if self.ctrl & CTRL_VRAM_INCREMENT != 0 { 32 } else { 1 };
        self.v = ((self.v as u32 + step) % 0x8000) as u16;
    }

    /// Writes the control register. See [`PpuView::write_ctrl`].
    pub fn write_ctrl(&mut self, value: u8)
        ensures
            final(self)@ == old(self)@.write_ctrl(value),
    {
        proof {
            lemma_bits_u8(self.ctrl);
            lemma_bits_u8(self.status);
            lemma_bits_u8(value);
        }
        let was_enabled = self.ctrl & CTRL_NMI_ENABLE != 0;
        self.ctrl = value;
        if !was_enabled && value & CTRL_NMI_ENABLE != 0 && self.status & STATUS_VBLANK != 0 {
            self.nmi_interrupt = true;
        }
        self.t = make_scroll_word(
            get_fine_y(self.t),
            (value & CTRL_NAMETABLE) as u16,
            get_coarse_y(self.t),
            get_coarse_x(self.t),
        );
    }

    /// Writes the mask register.
    pub fn write_mask(&mut self, value: u8)
        ensures
            final(self)@ == (PpuView { mask: value, ..old(self)@ }),
    {
        self.mask = value;
    }

    /// Writes the sprite address register.
    pub fn write_oam_addr(&mut self, value: u8)
        ensures
            final(self)@ == (PpuView { oam_addr: value, ..old(self)@ }),
    {
        self.oam_addr = value;
    }

    /// Writes sprite memory. See [`PpuView::write_oam_data`].
    pub fn write_oam_data(&mut self, value: u8)
        ensures
            final(self)@ == old(self)@.write_oam_data(value),
    {
        self.oam_data[self.oam_addr as usize] = value;
        self.oam_addr = self.oam_addr.wrapping_add(1);
    }

    /// Writes the scroll register. See [`PpuView::write_scroll`].
    pub fn write_scroll(&mut self, value: u8)
        ensures
            final(self)@ == old(self)@.write_scroll(value),
    {
        proof {
            lemma_bits_u8(value);
        }
        if !self.w {
            self.x = value & 0x07;
            self.t = make_scroll_word(
                get_fine_y(self.t),
                get_nametable_select(self.t),
                get_coarse_y(self.t),
                (value >> 3) as u16,
            );
        } else {
            self.t = make_scroll_word(
                (value & 0x07) as u16,
                get_nametable_select(self.t),
                (value >> 3) as u16,
                get_coarse_x(self.t),
            );
        }
        self.w = !self.w;
    }

    /// Writes the address register. See [`PpuView::write_ppu_addr`].
    pub fn write_ppu_addr(&mut self, value: u8)
        ensures
            final(self)@ == old(self)@.write_ppu_addr(value),
    {
        if !self.w {
            self.t = self.t % 0x100 + (value as u16 % 64) * 0x100;
        } else {
            self.t = ((self.t / 0x100) % 128) * 0x100 + value as u16;
            self.v = self.t;
        }
        self.w = !self.w;
    }

    /// Writes the data register. See [`PpuView::write_ppu_data`].
    pub fn write_ppu_data(&mut self, value: u8)
        ensures
            final(self)@ == old(self)@.write_ppu_data(value),
    {
        self.write_vram(self.v, value);
        self.advance_address();
    }

    /// Replaces sprite memory with a page of 256 bytes.
    pub fn _oam_dma(&mut self, data: &[u8; 256])
        ensures
            final(self)@ == old(self)@.oam_dma(data@),
    {
        self.oam_data = *data;
    }

    /// Index into `vram` for an address below the palette.
    fn vram_slot(&self, addr: u16) -> (r: usize)
        ensures
            r == self@.vram_index(addr),
            r < 0x3000,
    {
        let a: u16 = addr % 0x4000;
        if a < 0x2000 {
            a as usize
        } else {
            mirror_vram_addr(self.mirroring, a) as usize
        }
    }

    /// Index into the palette for a palette address.
    fn palette_slot(addr: u16) -> (r: usize)
        ensures
            r == palette_index(addr),
            r < 32,
    {
        let i: usize = (addr % 32) as usize;
        if i >= 16 && i % 4 == 0 {
            i - 16
        } else {
            i
        }
    }

    /// Reads video memory. See [`PpuView::read_vram`].
    pub fn read_vram(&self, addr: u16) -> (r: u8)
        ensures
            r == self@.read_vram(addr),
    {
        let a: u16 = addr % 0x4000;
        if a < 0x3F00 {
            self.vram[self.vram_slot(addr)]
        } else {
            self.palette[Self::palette_slot(a)]
        }
    }

    /// Writes video memory. See [`PpuView::write_vram`].
    pub fn write_vram(&mut self, addr: u16, value: u8)
        ensures
            final(self)@ == old(self)@.write_vram(addr, value),
    {
        let a: u16 = addr % 0x4000;
        if a < 0x3F00 {
            let i = self.vram_slot(addr);
            self.vram[i] = value;
        } else {
            self.palette[Self::palette_slot(a)] = value;
        }
    }

    /// The picture: 256 by 240 pixels of red, green, blue.
    pub fn get_frame_buffer(&self) -> (r: &[u8])
        ensures
            r@ == self@.frame_buffer,
    {
        self.frame_buffer.as_slice()
    }

    /// Moves one tile right. See [`incremented_x`].
    pub fn increment_x(&mut self)
        ensures
            final(self)@ == (PpuView { v: incremented_x(old(self)@.v), ..old(self)@ }),
    {
        let cx = get_coarse_x(self.v);
        let cy = get_coarse_y(self.v);
        let nt = get_nametable_select(self.v);
        let fy = get_fine_y(self.v);
        if cx == 31 {
            self.v = make_scroll_word(fy, if nt % 2 == 0 { nt + 1 } else { nt - 1 }, cy, 0);
        } else {
            self.v = make_scroll_word(fy, nt, cy, cx + 1);
        }
    }

    /// Moves one pixel row down. See [`incremented_y`].
    pub fn increment_y(&mut self)
        ensures
            final(self)@ == (PpuView { v: incremented_y(old(self)@.v), ..old(self)@ }),
    {
        let cx = get_coarse_x(self.v);
        let cy = get_coarse_y(self.v);
        let nt = get_nametable_select(self.v);
        let fy = get_fine_y(self.v);
        if fy != 7 {
            self.v = make_scroll_word(fy + 1, nt, cy, cx);
        } else if cy == 29 {
            self.v = make_scroll_word(0, if (nt / 2) % 2 == 0 { nt + 2 } else { nt - 2 }, 0, cx);
        } else if cy == 31 {
            self.v = make_scroll_word(0, nt, 0, cx);
        } else {
            self.v = make_scroll_word(0, nt, cy + 1, cx);
        }
    }

    /// Takes the horizontal position from `t`. See [`copied_x`].
    pub fn copy_x(&mut self)
        ensures
            final(self)@ == (PpuView { v: copied_x(old(self)@.v, old(self)@.t), ..old(self)@ }),
    {
        self.v = make_scroll_word(
            get_fine_y(self.v),
            ((get_nametable_select(self.v) / 2) % 2) * 2 + get_nametable_select(self.t) % 2,
            get_coarse_y(self.v),
            get_coarse_x(self.t),
        );
    }

    /// Takes the vertical position from `t`. See [`copied_y`].
    pub fn copy_y(&mut self)
        ensures
            final(self)@ == (PpuView { v: copied_y(old(self)@.v, old(self)@.t), ..old(self)@ }),
    {
        self.v = make_scroll_word(
            get_fine_y(self.t),
            ((get_nametable_select(self.t) / 2) % 2) * 2 + get_nametable_select(self.v) % 2,
            get_coarse_y(self.t),
            get_coarse_x(self.v),
        );
    }

    /// Applies the scroll updates of a dot. See [`PpuView::scrolled`].
    fn scroll(&mut self, dot: u16, prerender: bool)
        ensures
            final(self)@ == (PpuView { v: old(self)@.scrolled(dot, prerender), ..old(self)@ }),
    {
        if (8 <= dot && dot <= 256 && dot % 8 == 0) || dot == 328 || dot == 336 {
            self.increment_x();
        }
        if dot == 256 {
            self.increment_y();
        }
        if dot == 257 {
            self.copy_x();
        }
        if prerender && 280 <= dot && dot <= 304 {
            self.copy_y();
        }
    }

    /// Chooses the sprites for the next line. See
    /// [`PpuView::evaluate_sprites`].
    pub fn evaluate_sprites(&mut self)
        ensures
            final(self)@ == old(self)@.evaluate_sprites(),
    {
        proof {
            lemma_bits_u8(self.ctrl);
            lemma_set_clear_u8(self.status, STATUS_SPRITE_OVERFLOW);
        }
        let height: u16 = if self.ctrl & CTRL_SPRITE_SIZE != 0 { 16 } else { 8 };
        let line: u16 = self.scanline;
        let mut secondary = [0xFFu8; 32];
        let mut indexes = self.sprite_indexes;
        let mut count: usize = 0;
        let mut overflow = false;
        let mut zero = false;
        let ghost oam = self.oam_data@;
        let ghost held = self.sprite_indexes@;
        let ghost mut found: Seq<int> = Seq::<int>::empty();
        let mut i: usize = 0;
        while i < 64
            invariant
                0 <= i <= 64,
                oam == self.oam_data@,
                found == sprites_in_range(oam, line as int, height as int, i as int),
                forall|k: int| 0 <= k < found.len() ==> 0 <= #[trigger] found[k] < i,
                count == (if found.len() < 8 { found.len() as int } else { 8 }),
                overflow == (found.len() > 8),
                zero == (count > 0 && found[0] == 0),
                forall|k: int|
                    0 <= k < 32 ==> #[trigger] secondary@[k] == (if k / 4 < count {
                        oam[4 * found[k / 4] + k % 4]
                    } else {
                        0xFFu8
                    }),
                forall|k: int|
                    0 <= k < 8 ==> #[trigger] indexes@[k] == (if k < count {
                        found[k] as u8
                    } else {
                        held[k]
                    }),
            decreases 64 - i,
        {
            let y: u16 = self.oam_data[i * 4] as u16;
            if line >= y && line - y < height {
                if count < 8 {
                    secondary[count * 4] = self.oam_data[i * 4];
                    secondary[count * 4 + 1] = self.oam_data[i * 4 + 1];
                    secondary[count * 4 + 2] = self.oam_data[i * 4 + 2];
                    secondary[count * 4 + 3] = self.oam_data[i * 4 + 3];
                    if i == 0 {
                        zero = true;
                    }
                    indexes[count] = i as u8;
                    count += 1;
                } else {
                    overflow = true;
                }
                proof {
                    found = found.push(i as int);
                }
            }
            i += 1;
        }
        self.secondary_oam = secondary;
        self.sprite_indexes = indexes;
        self.sprite_count = count as u8;
        self.sprite_zero_in_secondary = zero;
        if overflow {
            self.status = self.status | STATUS_SPRITE_OVERFLOW;
        }
        proof {
            let want = old(self)@.evaluate_sprites();
            assert(self@.secondary_oam =~= want.secondary_oam);
            assert(self@.sprite_indexes =~= want.sprite_indexes);
        }
    }

    /// Address of the low pattern byte for a slot on the next line.
    fn slot_address(&self, k: usize) -> (r: usize)
        requires
            k < 8,
        ensures
            r == self@.slot_pattern_addr(k as int),
            r < 0x3000,
    {
        let height: u16 = if self.ctrl & CTRL_SPRITE_SIZE != 0 { 16 } else { 8 };
        let y: u16 = self.secondary_oam[k * 4] as u16;
        let tile: u8 = self.secondary_oam[k * 4 + 1];
        let attributes: u8 = self.secondary_oam[k * 4 + 2];
        proof {
            lemma_bits_u8(self.ctrl);
            lemma_bits_u8(attributes);
            lemma_bits_u8(tile);
        }
        let row: u16 = if self.scanline >= y { (self.scanline - y) % height } else { 0 };
        let r: u16 = if attributes & 0x80 != 0 { height - 1 - row } else { row };
        proof {
            lemma_mask_bound_u8(tile, 0x01);
            lemma_mask_bound_u8(tile, 0xFE);
        }
        if height == 8 {
            let base: usize = if self.ctrl & CTRL_SPRITE_PATTERN != 0 { 0x1000 } else { 0 };
            base + tile as usize * 16 + r as usize
        } else {
            let lower: usize = if r >= 8 { r as usize + 8 } else { r as usize };
            (tile & 0x01) as usize * 0x1000 + (tile & 0xFE) as usize * 16 + lower
        }
    }

    /// Fetches the patterns of the chosen sprites. See
    /// [`PpuView::fetch_sprites`].
    pub fn fetch_sprites(&mut self)
        ensures
            final(self)@ == old(self)@.fetch_sprites(),
    {
        let n: usize = if self.sprite_count < 8 { self.sprite_count as usize } else { 8 };
        let mut low = self.sprite_pattern_low;
        let mut high = self.sprite_pattern_high;
        let mut positions = self.sprite_positions;
        let mut priorities = self.sprite_priorities;
        let ghost before = self@;
        let mut k: usize = 0;
        while k < n
            invariant
                0 <= k <= n <= 8,
                n == before.slots(),
                self@ == before,
                forall|j: int|
                    0 <= j < 8 ==> #[trigger] low@[j] == (if j < k {
                        before.slot_pattern(j, false)
                    } else {
                        before.sprite_pattern_low[j]
                    }),
                forall|j: int|
                    0 <= j < 8 ==> #[trigger] high@[j] == (if j < k {
                        before.slot_pattern(j, true)
                    } else {
                        before.sprite_pattern_high[j]
                    }),
                forall|j: int|
                    0 <= j < 8 ==> #[trigger] positions@[j] == (if j < k {
                        before.secondary_oam[4 * j + 3]
                    } else {
                        before.sprite_positions[j]
                    }),
                forall|j: int|
                    0 <= j < 8 ==> #[trigger] priorities@[j] == (if j < k {
                        if bit(before.secondary_oam[4 * j + 2] as int, 32) { 32u8 } else { 0u8 }
                    } else {
                        before.sprite_priorities[j]
                    }),
            decreases n - k,
        {
            let attributes: u8 = self.secondary_oam[k * 4 + 2];
            proof {
                lemma_bits_u8(attributes);
                lemma_priority_bit(attributes);
            }
            let addr = self.slot_address(k);
            let low_byte: u8 = self.vram[addr % 0x2000];
            let high_byte: u8 = self.vram[(addr + 8) % 0x2000];
            if attributes & 0x40 != 0 {
                low[k] = reverse_byte(low_byte);
                high[k] = reverse_byte(high_byte);
            } else {
                low[k] = low_byte;
                high[k] = high_byte;
            }
            positions[k] = self.secondary_oam[k * 4 + 3];
            priorities[k] = attributes & 0x20;
            k += 1;
        }
        self.sprite_pattern_low = low;
        self.sprite_pattern_high = high;
        self.sprite_positions = positions;
        self.sprite_priorities = priorities;
        proof {
            let want = before.fetch_sprites();
            assert(self@.sprite_pattern_low =~= want.sprite_pattern_low);
            assert(self@.sprite_pattern_high =~= want.sprite_pattern_high);
            assert(self@.sprite_positions =~= want.sprite_positions);
            assert(self@.sprite_priorities =~= want.sprite_priorities);
        }
    }

    /// The sprite pixel at a column. See [`PpuView::sprite_pixel`].
    pub fn get_sprite_pixel(&self, x: u8) -> (r: (u8, bool, bool))
        ensures
            r == self@.sprite_pixel(x as int),
    {
        let n: usize = if self.sprite_count < 8 { self.sprite_count as usize } else { 8 };
        let mut best: Option<usize> = None;
        let mut k: usize = 0;
        while k < n
            invariant
                0 <= k <= n <= 8,
                match best {
                    None => self@.slot_at(x as int, k as int) is None,
                    Some(b) => b < k && self@.slot_at(x as int, k as int) == Some(b as int)
                        && self@.slot_covers(b as int, x as int),
                },
            decreases n - k,
        {
            let position: u8 = self.sprite_positions[k];
            if x >= position && x - position < 8 {
                let value = pattern_at(
                    self.sprite_pattern_low[k],
                    self.sprite_pattern_high[k],
                    x - position,
                );
                if value != 0 {
                    let better = match best {
                        None => true,
                        Some(b) => position < self.sprite_positions[b],
                    };
                    if better {
                        best = Some(k);
                    }
                }
            }
            k += 1;
        }
        match best {
            None => (0, false, false),
            Some(b) => {
                let attributes: u8 = self.secondary_oam[b * 4 + 2];
                proof {
                    lemma_bits_u8(attributes);
                }
                let value = pattern_at(
                    self.sprite_pattern_low[b],
                    self.sprite_pattern_high[b],
                    x - self.sprite_positions[b],
                );
                proof {
                    lemma_pixel_index(attributes, value);
                }
                (
                    0x10u8 | ((attributes & 0x03) << 2) | value,
                    attributes & 0x20 != 0,
                    b == 0 && self.sprite_zero_in_secondary,
                )
            },
        }
    }

    /// The background pixel at a column of the current line. See
    /// [`PpuView::background_pixel`].
    pub fn get_background_pixel(&self, x: u16, _y: u16) -> (r: u8)
        ensures
            r == self@.background_pixel(x as int),
    {
        let cx = get_coarse_x(self.v);
        let cy = get_coarse_y(self.v);
        let fy = get_fine_y(self.v);
        proof {
            lemma_bits_u8(self.ctrl);
        }
        let tile: u8 = self.read_vram(0x2000 + self.v % 0x1000);
        let base: usize = if self.ctrl & CTRL_BG_PATTERN != 0 { 0x1000 } else { 0 };
        let addr: usize = base + tile as usize * 16 + fy as usize;
        let low: u8 = self.vram[addr % 0x2000];
        let high: u8 = self.vram[(addr + 8) % 0x2000];
        let column: u8 = ((x as u32 + self.x as u32) % 8) as u8;
        let value = pattern_at(low, high, column);
        if value == 0 {
            return 0;
        }
        let nt = get_nametable_select(self.v);
        let attribute: u8 = self.read_vram(0x23C0 + nt * 0x400 + (cy / 4) * 8 + cx / 4);
        let quadrant: u16 = ((cy / 2) % 2) * 2 + (cx / 2) % 2;
        let palette: u8 = if quadrant == 0 {
            attribute % 4
        } else if quadrant == 1 {
            (attribute / 4) % 4
        } else if quadrant == 2 {
            (attribute / 16) % 4
        } else {
            attribute / 64
        };
        palette * 4 + value
    }

    /// The colour of a palette index. See [`colour_of`].
    pub fn get_color_from_palette(&self, index: u8) -> (r: (u8, u8, u8))
        ensures
            r.0 == colour_of(self@.palette[(index % 32) as int], 0),
            r.1 == colour_of(self@.palette[(index % 32) as int], 1),
            r.2 == colour_of(self@.palette[(index % 32) as int], 2),
    {
        let entry: usize = (self.palette[(index % 32) as usize] % 64) as usize;
        (NES_PALETTE[3 * entry], NES_PALETTE[3 * entry + 1], NES_PALETTE[3 * entry + 2])
    }

    /// Produces the pixel of the current dot. See [`PpuView::render_pixel`].
    pub fn render_pixel(&mut self)
        ensures
            final(self)@ == old(self)@.render_pixel(),
    {
        if self.cycle < 1 || self.cycle > 256 || self.scanline >= 240 {
            return ;
        }
        proof {
            lemma_bits_u8(self.mask);
            lemma_set_clear_u8(self.status, STATUS_SPRITE_ZERO_HIT);
        }
        let x: usize = (self.cycle - 1) as usize;
        let y: usize = self.scanline as usize;
        let bg: u8 = if self.mask & MASK_SHOW_BG != 0 && (x >= 8 || self.mask & MASK_SHOW_BG_LEFT
            != 0) {
            self.get_background_pixel(x as u16, y as u16)
        } else {
            0
        };
        let sprite: (u8, bool, bool) = if self.mask & MASK_SHOW_SPRITES != 0 && (x >= 8
            || self.mask & MASK_SHOW_SPRITES_LEFT != 0) {
            self.get_sprite_pixel(x as u8)
        } else {
            (0, false, false)
        };
        let index: u8 = if sprite.0 == 0 {
            bg
        } else if bg == 0 {
            sprite.0
        } else if sprite.1 {
            bg
        } else {
            sprite.0
        };
        if bg != 0 && sprite.0 != 0 && sprite.2 && x < 255 {
            self.status = self.status | STATUS_SPRITE_ZERO_HIT;
        }
        let colour = self.get_color_from_palette(index);
        let at: usize = (y * 256 + x) * 3;
        self.frame_buffer[at] = colour.0;
        self.frame_buffer[at + 1] = colour.1;
        self.frame_buffer[at + 2] = colour.2;
    }

    /// Advances the unit by one tick. See [`PpuView::step`].
    pub fn step(&mut self)
        ensures
            final(self)@ == old(self)@.step(),
            old(self)@.wf() ==> final(self)@.wf(),
    {
        proof {
            if self@.wf() {
                lemma_step_keeps_wf(self@);
            }
        }
        proof {
            lemma_bits_u8(self.mask);
            lemma_bits_u8(self.ctrl);
            lemma_bits_u8(self.status);
            lemma_set_clear_u8(self.status, STATUS_VBLANK);
        }
        let dot: u16 = if self.cycle >= 340 { 341 } else { self.cycle + 1 };
        self.cycle = dot;
        if self.scanline < 240 {
            if dot == 257 && self.mask & MASK_SHOW_SPRITES != 0 {
                self.evaluate_sprites();
                self.fetch_sprites();
            }
            self.render_pixel();
            if self.mask & MASK_SHOW_BG != 0 || self.mask & MASK_SHOW_SPRITES != 0 {
                self.scroll(dot, false);
            }
        } else if self.scanline == 241 && dot == 1 {
            self.status = self.status | STATUS_VBLANK;
            if self.ctrl & CTRL_NMI_ENABLE != 0 {
                self.nmi_interrupt = true;
            }
        } else if self.scanline == 261 {
            if dot == 1 {
                self.status = self.status & 0x1F;
            } else if dot == 257 {
                self.sprite_count = 0;
                self.sprite_zero_in_secondary = false;
            }
            if self.mask & MASK_SHOW_BG != 0 || self.mask & MASK_SHOW_SPRITES != 0 {
                self.scroll(dot, true);
            }
        }
        if dot >= 341 {
            self.cycle = 0;
            if self.scanline >= 261 {
                self.scanline = 0;
                self.frame = self.frame.wrapping_add(1);
            } else {
                self.scanline = self.scanline + 1;
            }
        }
    }

    /// Advances the unit by `n` ticks. See [`PpuView::step_n`].
    pub fn step_many(&mut self, n: u16)
        ensures
            final(self)@ == old(self)@.step_n(n as nat),
    {
        let ghost start = self@;
        let mut k: u16 = 0;
        while k < n
            invariant
                0 <= k <= n,
                self@ == start.step_n(k as nat),
            decreases n - k,
        {
            proof {
                lemma_steps_compose(start, k as nat, 1);
                assert(self@.step_n(1) == self@.step()) by {
                    assert(self@.step().step_n(0) == self@.step());
                }
            }
            self.step();
            k += 1;
        }
    }
}

proof fn lemma_priority_bit(attributes: u8)
    by (bit_vector)
    ensures
        attributes & 0x20 == (if (attributes / 32) % 2 == 1 { 32u8 } else { 0u8 }),
{
}

proof fn lemma_pixel_index(attributes: u8, value: u8)
    by (bit_vector)
    requires
        value < 4,
    ensures
        0x10u8 | ((attributes & 0x03) << 2) | value == 16 + (attributes % 4) * 4 + value,
{
}

proof fn lemma_pattern_bits(low: u8, high: u8, shift: u8)
    by (bit_vector)
    requires
        shift < 8,
    ensures
        (((high >> shift) & 1) << 1) | ((low >> shift) & 1) == (if (high / (1u8 << shift)) % 2 == 1 {
            2u8
        } else {
            0u8
        }) + (if (low / (1u8 << shift)) % 2 == 1 { 1u8 } else { 0u8 }),
        shift == 0 ==> 1u8 << shift == 1,
        shift == 1 ==> 1u8 << shift == 2,
        shift == 2 ==> 1u8 << shift == 4,
        shift == 3 ==> 1u8 << shift == 8,
        shift == 4 ==> 1u8 << shift == 16,
        shift == 5 ==> 1u8 << shift == 32,
        shift == 6 ==> 1u8 << shift == 64,
        shift == 7 ==> 1u8 << shift == 128,
{
}

/// The two-bit pattern value at a column of a tile row.
fn pattern_at(low: u8, high: u8, column: u8) -> (r: u8)
    requires
        column < 8,
    ensures
        r == pattern_value(low, high, column as int),
{
    let shift: u8 = 7 - column;
    proof {
        lemma_pattern_bits(low, high, shift);
    }
    (((high >> shift) & 1) << 1) | ((low >> shift) & 1)
}

/// Reverses the order of the bits of a byte.
pub fn reverse_byte(byte: u8) -> (r: u8)
    ensures
        r == reversed_byte(byte),
{
    proof {
        lemma_reversed_is_formula(byte);
    }
    ((byte & 0x01) << 7) | ((byte & 0x02) << 5) | ((byte & 0x04) << 3) | ((byte & 0x08) << 1) | ((byte
        & 0x10) >> 1) | ((byte & 0x20) >> 3) | ((byte & 0x40) >> 5) | ((byte & 0x80) >> 7)
}

// ---------------------------------------------------------------------------
// Laws
// ---------------------------------------------------------------------------

/// Dots in a frame.
pub open spec fn dots_per_frame() -> int {
    DOTS_PER_LINE as int * LINES_PER_FRAME as int
}

impl PpuView {
    /// The counters are in range: the dot below 341, the scanline below 262.
    pub open spec fn in_frame(self) -> bool {
        self.cycle < DOTS_PER_LINE && self.scanline < LINES_PER_FRAME
    }

    /// How many dots of the current frame lie behind.
    pub open spec fn position(self) -> int {
        self.scanline as int * DOTS_PER_LINE as int + self.cycle as int
    }

    /// The frame count one further, wrapping at 2^64.
    pub open spec fn next_frame(self) -> u64 {
        if self.frame == u64::MAX {
            0
        } else {
            (self.frame + 1) as u64
        }
    }
}

/// One tick moves the position one dot on within the frame, or from the
/// last dot of a frame to the first dot of the next; the counters stay in
/// range either way.
pub proof fn lemma_step_position(p: PpuView)
    requires
        p.in_frame(),
    ensures
        p.step().in_frame(),
        p.position() + 1 < dots_per_frame() ==> p.step().position() == p.position() + 1
            && p.step().frame == p.frame,
        p.position() + 1 >= dots_per_frame() ==> p.step().position() == 0 && p.step().frame
            == p.next_frame(),
{
}

/// Ticks that stay inside the frame add up: the position advances by their
/// number and the frame count stays.
pub proof fn lemma_steps_within_frame(p: PpuView, n: nat)
    requires
        p.in_frame(),
        p.position() + n < dots_per_frame(),
    ensures
        p.step_n(n).in_frame(),
        p.step_n(n).position() == p.position() + n,
        p.step_n(n).frame == p.frame,
    decreases n,
{
    if n > 0 {
        lemma_step_position(p);
        lemma_steps_within_frame(p.step(), (n - 1) as nat);
    }
}

/// Ticking `a + b` times is ticking `a` times and then `b` times.
pub proof fn lemma_steps_compose(p: PpuView, a: nat, b: nat)
    ensures
        p.step_n(a + b) == p.step_n(a).step_n(b),
    decreases a,
{
    if a > 0 {
        lemma_steps_compose(p.step(), (a - 1) as nat, b);
    }
}

/// A frame is 341 x 262 ticks long: that many ticks lead back to the same
/// dot of the same scanline, in the frame that follows.
pub proof fn lemma_frame_period(p: PpuView)
    requires
        p.in_frame(),
    ensures
        p.step_n(dots_per_frame() as nat).in_frame(),
        p.step_n(dots_per_frame() as nat).cycle == p.cycle,
        p.step_n(dots_per_frame() as nat).scanline == p.scanline,
        p.step_n(dots_per_frame() as nat).frame == p.next_frame(),
{
    let total = dots_per_frame() as nat;
    let rest = (total - p.position() - 1) as nat;
    let back = p.position() as nat;
    // up to the last dot of the frame
    lemma_steps_within_frame(p, rest);
    let last = p.step_n(rest);
    // across the frame boundary
    lemma_step_position(last);
    let first = last.step();
    assert(last.step_n(1) == first) by {
        assert(last.step().step_n(0) == last.step());
    }
    // and on to where it started
    lemma_steps_within_frame(first, back);
    lemma_steps_compose(p, rest, 1);
    lemma_steps_compose(p, rest + 1, back);
    assert(rest + 1 + back == total);
    let end = p.step_n(total);
    assert(end.position() == p.position());
}

/// Fewer ticks than a frame has dots cross at most one frame boundary:
/// the position advances by their number, starting over at the boundary,
/// and the frame count goes up by one exactly if the boundary is crossed.
pub proof fn lemma_steps_cross_frame(p: PpuView, n: nat)
    requires
        p.in_frame(),
        n < dots_per_frame(),
    ensures
        p.step_n(n).in_frame(),
        p.position() + n < dots_per_frame() ==> p.step_n(n).position() == p.position() + n
            && p.step_n(n).frame == p.frame,
        p.position() + n >= dots_per_frame() ==> p.step_n(n).position() == p.position() + n
            - dots_per_frame() && p.step_n(n).frame == p.next_frame(),
{
    if p.position() + n < dots_per_frame() {
        lemma_steps_within_frame(p, n);
    } else {
        let rest = (dots_per_frame() - p.position() - 1) as nat;
        let after = (n - rest - 1) as nat;
        lemma_steps_within_frame(p, rest);
        let last = p.step_n(rest);
        lemma_step_position(last);
        let first = last.step();
        assert(last.step_n(1) == first) by {
            assert(last.step().step_n(0) == last.step());
        }
        lemma_steps_within_frame(first, after);
        lemma_steps_compose(p, rest, 1);
        lemma_steps_compose(p, rest + 1, after);
        assert(rest + 1 + after == n);
    }
}

/// The start of vertical blank. The tick that reaches dot 1 of scanline 241
/// raises the vertical blank flag, and latches the interrupt exactly if
/// control bit 7 is set or it was latched already; the status read that
/// follows reports the flag and clears it.
pub proof fn lemma_vblank_edge(p: PpuView)
    requires
        p.scanline == 241,
        p.cycle == 0,
    ensures
        p.step().scanline == 241 && p.step().cycle == 1,
        p.step().status >= 128,
        p.step().nmi_interrupt == (p.nmi_interrupt || p.ctrl >= 128),
        p.step().read_register_value(0x2002) >= 128,
        p.step().read_register(0x2002).status < 128,
        p.step().read_register(0x2002).read_register_value(0x2002) < 128,
{
}

/// The register file repeats every eight bytes: an access acts by the low
/// three address bits alone, so two addresses that agree in them act alike,
/// and any address stands for `$2000 + address % 8`.
pub proof fn lemma_registers_mirrored(p: PpuView, address: u16, other: u16, value: u8)
    requires
        address % 8 == other % 8,
    ensures
        p.read_register_value(address) == p.read_register_value(other),
        p.read_register(address) == p.read_register(other),
        p.write_register(address, value) == p.write_register(other, value),
        (0x2000 + address % 8) % 8 == address % 8,
{
}

/// Every write to the scroll or the address register flips the write
/// toggle, and a read of the status register clears it.
pub proof fn lemma_write_toggle(p: PpuView, value: u8)
    ensures
        p.write_register(0x2005, value).w == !p.w,
        p.write_register(0x2006, value).w == !p.w,
        p.read_register(0x2002).w == false,
{
}

proof fn lemma_address_pair(t: u16, hi: u8, lo: u8)
    ensures
        (((t % 0x100 + (hi % 64) * 0x100) / 0x100) % 128) * 0x100 + lo == (hi % 64) * 0x100 + lo,
        t % 0x100 + (hi % 64) * 0x100 <= 0x3FFF,
        (hi % 64) * 0x100 + lo <= 0x3FFF,
{
    let low = t as int % 0x100;
    let high = hi as int % 64;
    assert((low + high * 0x100) / 0x100 == high);
}

/// The video address that a pair of address writes selects.
pub open spec fn address_of(hi: u8, lo: u8) -> u16 {
    ((hi % 64) * 0x100 + lo) as u16
}

impl PpuView {
    /// The unit after the usual way of pointing the address register: a
    /// status read, then the high and the low byte of the address.
    pub open spec fn point_at(self, hi: u8, lo: u8) -> PpuView {
        self.read_register(0x2002).write_register(0x2006, hi).write_register(0x2006, lo)
    }
}

/// Pointing the address register sets `v` and `t` to the address, clears
/// the write toggle and the vertical blank flag, and leaves the rest.
proof fn lemma_point_at(p: PpuView, hi: u8, lo: u8)
    ensures
        p.point_at(hi, lo) == (PpuView {
            v: address_of(hi, lo),
            t: address_of(hi, lo),
            w: false,
            status: without_bit(p.status, STATUS_VBLANK as int),
            ..p
        }),
        address_of(hi, lo) <= 0x3FFF,
{
    let start = p.read_register(0x2002);
    lemma_address_pair(start.t, hi, lo);
    let high_set = start.write_register(0x2006, hi);
    assert(high_set == (PpuView {
        t: (start.t % 0x100 + (hi % 64) * 0x100) as u16,
        w: true,
        ..start
    }));
}

/// A nametable address lands in the nametable part of video memory.
proof fn lemma_vram_index_range(p: PpuView, addr: u16)
    requires
        0x2000 <= addr < 0x3F00,
    ensures
        0x2000 <= p.vram_index(addr) < 0x3000,
        addr % 0x4000 == addr,
{
    let table = (addr as int / 0x400) % 4;
    assert(0 <= nametable_page(p.mirroring, table) < 4);
}

/// A data write below the palette stores the byte and moves `v` on.
proof fn lemma_data_write(p: PpuView, value: u8)
    requires
        0x2000 <= p.v < 0x3F00,
    ensures
        p.write_register(0x2007, value) == (PpuView {
            vram: p.vram.update(p.vram_index(p.v), value),
            v: advanced_address(p.v, p.ctrl),
            ..p
        }),
{
    lemma_vram_index_range(p, p.v);
}

/// A data read below the palette fills the buffer from video memory.
proof fn lemma_data_read(p: PpuView)
    requires
        0x2000 <= p.v < 0x3F00,
    ensures
        p.read_register(0x2007).ppu_data_buffer == p.vram[p.vram_index(p.v)],
        p.read_register(0x2007).v == advanced_address(p.v, p.ctrl),
{
    lemma_vram_index_range(p, p.v);
    assert(p.read_vram((p.v % 0x4000) as u16) == p.vram[p.vram_index(p.v)]);
}

/// What is written through the data register can be read back through it.
/// After pointing the address register and a data write, pointing it at
/// the same address and one data read leave the written byte in the read
/// buffer, for every address from `$2000` up to the palette; the data read
/// that follows returns it, as long as the address register has not moved
/// into the palette, where reads bypass the buffer.
pub proof fn lemma_vram_round_trip(p: PpuView, hi: u8, lo: u8, value: u8)
    requires
        p.wf(),
        0x2000 <= address_of(hi, lo) < 0x3F00,
    ensures
        p.point_at(hi, lo).write_register(0x2007, value).read_vram(address_of(hi, lo)) == value,
        p.point_at(hi, lo).write_register(0x2007, value).point_at(hi, lo).read_register(
            0x2007,
        ).ppu_data_buffer == value,
        ({
            let primed = p.point_at(hi, lo).write_register(0x2007, value).point_at(
                hi,
                lo,
            ).read_register(0x2007);
            primed.v % 0x4000 < 0x3F00 ==> primed.read_register_value(0x2007) == value
        }),
{
    let addr = address_of(hi, lo);
    lemma_point_at(p, hi, lo);
    let addressed = p.point_at(hi, lo);
    lemma_vram_index_range(addressed, addr);
    let at = addressed.vram_index(addr);
    lemma_data_write(addressed, value);
    let written = addressed.write_register(0x2007, value);
    lemma_vram_index_range(written, addr);
    assert(written.vram_index(addr) == at);
    assert(written.read_vram(addr) == written.vram[at]);
    lemma_point_at(written, hi, lo);
    let pointed = written.point_at(hi, lo);
    lemma_vram_index_range(pointed, addr);
    assert(pointed.vram_index(addr) == at);
    lemma_data_read(pointed);
}

proof fn lemma_scrolled_bound(p: PpuView, dot: u16, prerender: bool)
    requires
        p.v <= 0x7FFF,
    ensures
        p.scrolled(dot, prerender) <= 0x7FFF,
{
}

/// The invariant of the unit holds after every tick: the memories keep
/// their sizes, the counters stay in range, the scroll registers within
/// their bits, and no more than eight sprites are chosen.
pub proof fn lemma_step_keeps_wf(p: PpuView)
    requires
        p.wf(),
    ensures
        p.step().wf(),
{
    let dot = p.next_dot();
    let q = PpuView { cycle: dot, ..p };
    let e = q.evaluate_sprites().fetch_sprites();
    lemma_scrolled_bound(q.render_pixel(), dot, false);
    lemma_scrolled_bound(e.render_pixel(), dot, false);
    lemma_scrolled_bound(q, dot, true);
    lemma_scrolled_bound(PpuView { status: q.status % 32, ..q }, dot, true);
    lemma_scrolled_bound(
        PpuView { sprite_count: 0, sprite_zero_in_secondary: false, ..q },
        dot,
        true,
    );
}

/// The invariant of the unit holds after every register access, after
/// reset, and at power-on.
pub proof fn lemma_registers_keep_wf(p: PpuView, address: u16, value: u8)
    requires
        p.wf(),
    ensures
        p.read_register(address).wf(),
        p.write_register(address, value).wf(),
        p.reset().wf(),
        PpuView::power_on().wf(),
{
}

/// The sprite pixel goes to the leftmost sprite that covers the column
/// with a non-transparent pixel, and among sprites at the same position
/// to the one in the earlier slot; where no slot covers it there is none.
pub proof fn lemma_leftmost_sprite(p: PpuView, x: int, n: int)
    requires
        0 <= n <= 8,
    ensures
        match p.slot_at(x, n) {
            Some(k) => {
                &&& 0 <= k < n
                &&& p.slot_covers(k, x)
                &&& forall|j: int|
                    0 <= j < n && #[trigger] p.slot_covers(j, x) ==> p.sprite_positions[k]
                        < p.sprite_positions[j] || (p.sprite_positions[k] == p.sprite_positions[j]
                        && k <= j)
            },
            None => forall|j: int| 0 <= j < n ==> !#[trigger] p.slot_covers(j, x),
        },
    decreases n,
{
    if n > 0 {
        lemma_leftmost_sprite(p, x, n - 1);
    }
}

} // verus!
