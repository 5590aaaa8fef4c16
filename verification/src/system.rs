//! The console as a whole: the bus that decodes every CPU access, sprite
//! DMA, the instruction interpreter, interrupt delivery and the clock ratio
//! that ties the picture and audio units to the CPU.

use vstd::prelude::*;
use crate::apu::Apu;
use crate::bits::lemma_bits_u8;
use crate::bits::lemma_set_clear_u8;
use crate::cartridge::Cartridge;
use crate::cartridge::CartridgeView;
use crate::cartridge::Mirroring;
use crate::cpu::add_offset;
use crate::cpu::address_plus;
use crate::cpu::byte_plus;
use crate::cpu::decode;
use crate::cpu::decode_opcode;
use crate::cpu::high_byte;
use crate::cpu::kind_of;
use crate::cpu::lemma_decode_cycles;
use crate::cpu::low_byte;
use crate::cpu::make_word;
use crate::cpu::next_address;
use crate::cpu::offset_address;
use crate::cpu::op_kind;
use crate::cpu::operand_len;
use crate::cpu::operand_length;
use crate::cpu::page_crossed;
use crate::cpu::pages_differ;
use crate::cpu::with_flag;
use crate::cpu::word_of;
use crate::cpu::AddrMode;
use crate::cpu::Cpu;
use crate::cpu::Instruction;
use crate::cpu::Op;
use crate::cpu::OpKind;
use crate::cpu::FLAG_BREAK;
use crate::cpu::FLAG_INTERRUPT;
use crate::cpu::FLAG_UNUSED;
use crate::input::Controller;
use crate::input::ControllerView;
use crate::ppu::Ppu;
use crate::ppu::dots_per_frame;
use crate::ppu::lemma_steps_cross_frame;
use crate::ppu::PpuView;
use crate::ppu::MASK_SHOW_BG;
use crate::ppu::MASK_SHOW_SPRITES;

verus! {

/// CPU cycles that [`System::run_frame`] spends at most.
pub const FRAME_CYCLES: u64 = 29780;

/// Where the CPU finds its handlers.
pub const NMI_VECTOR: u16 = 0xFFFA;

pub const RESET_VECTOR: u16 = 0xFFFC;

pub const IRQ_VECTOR: u16 = 0xFFFE;

pub struct System {
    pub cpu_ram: [u8; 0x800],
    pub cpu: Cpu,
    pub ppu: Ppu,
    pub apu: Apu,
    pub controller1: Controller,
    pub controller2: Controller,
    pub cartridge: Option<Cartridge>,
    /// CPU cycles spent in the frame being run.
    pub cycles: u64,
    /// CPU cycles that sprite DMA still stalls the CPU for.
    pub oam_dma_cycles: u16,
}

/// The mathematical content of a [`System`].
pub struct SystemView {
    pub cpu_ram: Seq<u8>,
    pub cpu: Cpu,
    pub ppu: PpuView,
    pub apu: Apu,
    pub controller1: ControllerView,
    pub controller2: ControllerView,
    pub cartridge: Option<CartridgeView>,
    pub cycles: u64,
    pub oam_dma_cycles: u16,
}

impl View for System {
    type V = SystemView;

    open(crate) spec fn view(&self) -> SystemView {
        SystemView {
            cpu_ram: self.cpu_ram@,
            cpu: self.cpu,
            ppu: self.ppu@,
            apu: self.apu,
            controller1: self.controller1@,
            controller2: self.controller2@,
            cartridge: match self.cartridge {
                Some(c) => Some(c@),
                None => None,
            },
            cycles: self.cycles,
            oam_dma_cycles: self.oam_dma_cycles,
        }
    }
}

/// Where byte `i` of a sprite DMA lands: at the sprite address plus `i`,
/// wrapping at 256.
pub open spec fn dma_slot(oam_addr: u8, i: int) -> int {
    (oam_addr as int + i) % 256
}

/// Where an instruction's operand lives: the address it works on, and the
/// address before an index register was added.
pub struct Operand {
    pub addr: u16,
    pub base: u16,
}

impl SystemView {
    /// The console before a cartridge is inserted.
    pub open spec fn power_on() -> SystemView {
        SystemView {
            cpu_ram: Seq::new(0x800, |i: int| 0u8),
            cpu: Cpu::spec_new(),
            ppu: PpuView::power_on(),
            apu: Apu::spec_new(),
            controller1: ControllerView::rest(),
            controller2: ControllerView::rest(),
            cartridge: None,
            cycles: 0,
            oam_dma_cycles: 0,
        }
    }

    /// The same console with other registers.
    pub open spec fn with_cpu(self, cpu: Cpu) -> SystemView {
        SystemView { cpu, ..self }
    }

    /// The same console with another program counter.
    pub open spec fn with_pc(self, pc: u16) -> SystemView {
        SystemView { cpu: Cpu { pc, ..self.cpu }, ..self }
    }

    // -----------------------------------------------------------------------
    // The bus
    // -----------------------------------------------------------------------

    /// A CPU read: the console after it and the byte it returns.
    ///
    /// | range | target |
    /// |---|---|
    /// | `$0000-$1FFF` | 2 KiB of RAM, repeating |
    /// | `$2000-$3FFF` | picture unit registers, by the low three address bits |
    /// | `$4000-$4015` | audio unit |
    /// | `$4016`, `$4017` | first and second controller |
    /// | `$4018-$5FFF` | cartridge expansion registers |
    /// | `$6000-$7FFF` | cartridge work RAM |
    /// | `$8000-$FFFF` | cartridge program window |
    ///
    /// Without a cartridge its ranges read as zero.
    #[verifier::opaque]
    pub open spec fn read_byte(self, addr: u16) -> (SystemView, u8) {
        if addr < 0x2000 {
            (self, self.cpu_ram[(addr % 0x0800) as int])
        } else if addr < 0x4000 {
            (
                SystemView { ppu: self.ppu.read_register(addr), ..self },
                self.ppu.read_register_value(addr),
            )
        } else if addr <= 0x4015 {
            (
                SystemView { apu: self.apu.spec_read_register(addr), ..self },
                self.apu.spec_read_value(addr),
            )
        } else if addr == 0x4016 {
            (
                SystemView { controller1: self.controller1.read(), ..self },
                self.controller1.read_value(),
            )
        } else if addr == 0x4017 {
            (
                SystemView { controller2: self.controller2.read(), ..self },
                self.controller2.read_value(),
            )
        } else if addr < 0x6000 {
            (
                self,
                match self.cartridge {
                    Some(c) => c.read_expansion(addr),
                    None => 0u8,
                },
            )
        } else if addr < 0x8000 {
            (
                self,
                match self.cartridge {
                    Some(c) => c.read_prg_ram(addr),
                    None => 0u8,
                },
            )
        } else {
            (
                self,
                match self.cartridge {
                    Some(c) => c.read_prg(addr),
                    None => 0u8,
                },
            )
        }
    }

    /// The console after a CPU write. The ranges are those of
    /// [`Self::read_byte`], except that `$4014` starts sprite DMA, `$4016`
    /// strobes both controllers and `$4017` belongs to the audio unit. After
    /// a write to the cartridge's registers the picture unit catches up.
    #[verifier::opaque]
    pub open spec fn write_byte(self, addr: u16, value: u8) -> SystemView {
        if addr < 0x2000 {
            SystemView { cpu_ram: self.cpu_ram.update((addr % 0x0800) as int, value), ..self }
        } else if addr < 0x4000 {
            SystemView { ppu: self.ppu.write_register(addr, value), ..self }
        } else if addr == 0x4014 {
            self.oam_dma(value)
        } else if addr == 0x4016 {
            SystemView {
                controller1: self.controller1.write(value),
                controller2: self.controller2.write(value),
                ..self
            }
        } else if addr <= 0x4017 {
            SystemView { apu: self.apu.spec_write_register(addr, value), ..self }
        } else if addr < 0x6000 {
            match self.cartridge {
                Some(c) => SystemView {
                    cartridge: Some(c.write_expansion(addr, value)),
                    ..self
                }.sync_picture_unit(),
                None => self,
            }
        } else if addr < 0x8000 {
            match self.cartridge {
                Some(c) => SystemView { cartridge: Some(c.write_prg_ram(addr, value)), ..self },
                None => self,
            }
        } else {
            match self.cartridge {
                Some(c) => SystemView {
                    cartridge: Some(c.write_prg(addr, value)),
                    ..self
                }.sync_picture_unit(),
                None => self,
            }
        }
    }

    /// The pattern tables as the cartridge shows them: the 8 KiB that its
    /// character window holds.
    pub open spec fn pattern_window(vram: Seq<u8>, cartridge: CartridgeView) -> Seq<u8> {
        Seq::new(
            vram.len(),
            |i: int| if i < 0x2000 { cartridge.read_chr(i as u16) } else { vram[i] },
        )
    }

    /// The console after the picture unit has caught up with the
    /// cartridge's registers: it takes the mirroring in force, and, where
    /// the board can switch character ROM, the pattern tables that are
    /// switched in.
    pub open spec fn sync_picture_unit(self) -> SystemView {
        match self.cartridge {
            Some(c) => SystemView {
                ppu: PpuView {
                    mirroring: c.current_mirroring(),
                    vram: if c.switches_chr() && c.patterns_in_rom() {
                        Self::pattern_window(self.ppu.vram, c)
                    } else {
                        self.ppu.vram
                    },
                    ..self.ppu
                },
                ..self
            },
            None => self,
        }
    }

    /// The console after the first `n` bytes of a sprite DMA from `page`:
    /// byte `i` is read over the bus from `page * 256 + i` and stored in
    /// sprite memory at the sprite address plus `i`, wrapping at 256.
    pub open spec fn dma_copy(self, page: u8, n: nat) -> SystemView
        decreases n,
    {
        if n == 0 {
            self
        } else {
            let i = (n - 1) as int;
            let (s, data) = self.dma_copy(page, (n - 1) as nat).read_byte(
                (page as int * 256 + i) as u16,
            );
            SystemView {
                ppu: PpuView {
                    oam_data: s.ppu.oam_data.update(dma_slot(s.ppu.oam_addr, i), data),
                    ..s.ppu
                },
                ..s
            }
        }
    }

    /// The console after a write of `page` to `$4014`: all 256 bytes are
    /// copied at once, and the CPU owes 513 cycles of stall, or 514 when the
    /// cycle count is odd.
    pub open spec fn oam_dma(self, page: u8) -> SystemView {
        SystemView {
            oam_dma_cycles: if self.cycles % 2 == 1 { 514u16 } else { 513u16 },
            ..self
        }.dma_copy(page, 256)
    }

    /// A read of two bytes, low byte first; the address wraps at 64 KiB.
    pub open spec fn read_word(self, addr: u16) -> (SystemView, u16) {
        let (s1, lo) = self.read_byte(addr);
        let (s2, hi) = s1.read_byte(next_address(addr));
        (s2, word_of(lo, hi))
    }

    /// A push: the byte goes to page 1 at the stack pointer, which then
    /// moves down.
    pub open spec fn push(self, value: u8) -> SystemView {
        let s = self.write_byte((0x0100 + self.cpu.sp) as u16, value);
        s.with_cpu(Cpu { sp: byte_plus(s.cpu.sp, 255), ..s.cpu })
    }

    /// A pop: the stack pointer moves up, then the byte it points at is read.
    pub open spec fn pop(self) -> (SystemView, u8) {
        let sp = byte_plus(self.cpu.sp, 1);
        self.with_cpu(Cpu { sp, ..self.cpu }).read_byte((0x0100 + sp) as u16)
    }

    /// A push of two bytes, high byte first.
    pub open spec fn push_word(self, value: u16) -> SystemView {
        self.push((value / 256) as u8).push((value % 256) as u8)
    }

    /// A pop of two bytes, low byte first.
    pub open spec fn pop_word(self) -> (SystemView, u16) {
        let (s1, lo) = self.pop();
        let (s2, hi) = s1.pop();
        (s2, word_of(lo, hi))
    }

    // -----------------------------------------------------------------------
    // Operands
    // -----------------------------------------------------------------------

    /// The byte at the program counter, which moves on.
    pub open spec fn fetch(self) -> (SystemView, u8) {
        let (s, value) = self.read_byte(self.cpu.pc);
        (s.with_pc(next_address(s.cpu.pc)), value)
    }

    /// The two bytes at the program counter, low byte first.
    pub open spec fn fetch_word(self) -> (SystemView, u16) {
        let (s1, lo) = self.fetch();
        let (s2, hi) = s1.fetch();
        (s2, word_of(lo, hi))
    }

    /// The pointer stored in the zero page at `ptr`; its high byte comes
    /// from `ptr + 1` within the zero page.
    pub open spec fn zero_page_word(self, ptr: u8) -> (SystemView, u16) {
        let (s1, lo) = self.read_byte(ptr as u16);
        let (s2, hi) = s1.read_byte(byte_plus(ptr, 1) as u16);
        (s2, word_of(lo, hi))
    }

    /// A zero-page operand: the next byte plus an index, wrapping within
    /// the zero page.
    pub open spec fn zero_page_operand(self, index: u8) -> (SystemView, Operand) {
        let (s, zp) = self.fetch();
        (s, Operand { addr: byte_plus(zp, index as int) as u16, base: zp as u16 })
    }

    /// An absolute operand: the next two bytes plus an index, wrapping at
    /// 64 KiB.
    pub open spec fn absolute_operand(self, index: u8) -> (SystemView, Operand) {
        let (s, word) = self.fetch_word();
        (s, Operand { addr: address_plus(word, index as int), base: word })
    }

    /// The operand of the indirect jump: the word that the next two bytes
    /// point at. The pointer's high byte is not carried into: a pointer at
    /// `$xxFF` takes its high byte from `$xx00`.
    pub open spec fn indirect_operand(self) -> (SystemView, Operand) {
        let (s1, ptr) = self.fetch_word();
        let (s2, lo) = s1.read_byte(ptr);
        let (s3, hi) = s2.read_byte(
            if ptr % 256 == 255 {
                (ptr - 255) as u16
            } else {
                next_address(ptr)
            },
        );
        (s3, Operand { addr: word_of(lo, hi), base: ptr })
    }

    /// An indexed indirect operand: the pointer in the zero page at the
    /// next byte plus X.
    pub open spec fn indirect_x_operand(self) -> (SystemView, Operand) {
        let (s1, zp) = self.fetch();
        let (s2, word) = s1.zero_page_word(byte_plus(zp, s1.cpu.x as int));
        (s2, Operand { addr: word, base: word })
    }

    /// An indirect indexed operand: the pointer in the zero page at the
    /// next byte, plus Y.
    pub open spec fn indirect_y_operand(self) -> (SystemView, Operand) {
        let (s1, zp) = self.fetch();
        let (s2, word) = s1.zero_page_word(zp);
        (s2, Operand { addr: address_plus(word, s2.cpu.y as int), base: word })
    }

    /// The operand of an instruction whose opcode has been fetched: the
    /// operand bytes are read, the program counter moves past them, and the
    /// address follows from the mode. An immediate or relative operand is
    /// the byte at the program counter itself.
    #[verifier::opaque]
    pub open spec fn resolve(self, mode: AddrMode) -> (SystemView, Operand) {
        match mode {
            AddrMode::Implied | AddrMode::Accumulator => (self, Operand { addr: 0, base: 0 }),
            AddrMode::Immediate | AddrMode::Relative => (
                self.with_pc(next_address(self.cpu.pc)),
                Operand { addr: self.cpu.pc, base: self.cpu.pc },
            ),
            AddrMode::ZeroPage => self.zero_page_operand(0),
            AddrMode::ZeroPageX => self.zero_page_operand(self.cpu.x),
            AddrMode::ZeroPageY => self.zero_page_operand(self.cpu.y),
            AddrMode::Absolute => self.absolute_operand(0),
            AddrMode::AbsoluteX => self.absolute_operand(self.cpu.x),
            AddrMode::AbsoluteY => self.absolute_operand(self.cpu.y),
            AddrMode::Indirect => self.indirect_operand(),
            AddrMode::IndirectX => self.indirect_x_operand(),
            AddrMode::IndirectY => self.indirect_y_operand(),
        }
    }

    // -----------------------------------------------------------------------
    // Instructions
    // -----------------------------------------------------------------------

    /// An instruction that reads its operand. A read that crosses a page
    /// costs one cycle more where the table says so.
    #[verifier::opaque]
    pub open spec fn execute_load(self, i: Instruction) -> (SystemView, u8) {
        let (s1, operand) = self.resolve(i.mode);
        let (s2, value) = s1.read_byte(operand.addr);
        (
            s2.with_cpu(s2.cpu.spec_load(i.op, value)),
            if i.page_penalty && pages_differ(operand.base, operand.addr) {
                (i.cycles + 1) as u8
            } else {
                i.cycles
            },
        )
    }

    /// An instruction that writes its operand. TAS also loads the stack
    /// pointer with A AND X.
    #[verifier::opaque]
    pub open spec fn execute_store(self, i: Instruction) -> (SystemView, u8) {
        let (s1, operand) = self.resolve(i.mode);
        let s2 = s1.write_byte(operand.addr, s1.cpu.spec_stored(i.op, operand.base));
        (
            if i.op == Op::Tas {
                s2.with_cpu(Cpu { sp: s2.cpu.a & s2.cpu.x, ..s2.cpu })
            } else {
                s2
            },
            i.cycles,
        )
    }

    /// An instruction that changes its operand in place: A itself in
    /// accumulator mode, else a byte that is read and written back.
    #[verifier::opaque]
    pub open spec fn execute_modify(self, i: Instruction) -> (SystemView, u8) {
        if i.mode == AddrMode::Accumulator {
            let result = self.cpu.spec_modified(i.op, self.cpu.a);
            (self.with_cpu(Cpu { a: result, ..self.cpu.spec_modify(i.op, self.cpu.a) }), i.cycles)
        } else {
            let (s1, operand) = self.resolve(i.mode);
            let (s2, value) = s1.read_byte(operand.addr);
            let s3 = s2.write_byte(operand.addr, s2.cpu.spec_modified(i.op, value));
            (s3.with_cpu(s3.cpu.spec_modify(i.op, value)), i.cycles)
        }
    }

    /// A branch. Not taken it costs the table's two cycles; taken it costs
    /// one more, and one more again when the target lies in another page
    /// than the instruction that follows.
    #[verifier::opaque]
    pub open spec fn execute_branch(self, i: Instruction) -> (SystemView, u8) {
        let (s1, operand) = self.resolve(i.mode);
        let (s2, offset) = s1.read_byte(operand.addr);
        if s2.cpu.spec_branch_taken(i.op) {
            let target = offset_address(s2.cpu.pc, offset);
            (
                s2.with_pc(target),
                if pages_differ(s2.cpu.pc, target) {
                    (i.cycles + 2) as u8
                } else {
                    (i.cycles + 1) as u8
                },
            )
        } else {
            (s2, i.cycles)
        }
    }

    /// The status byte as the stack gets it from PHP and BRK: break and
    /// bit 5 set.
    pub open spec fn pushed_status(self) -> u8 {
        with_flag(with_flag(self.cpu.status, FLAG_BREAK, true), FLAG_UNUSED, true)
    }

    /// The status byte as PLP and RTI take it from the stack: break clear,
    /// bit 5 set.
    pub open spec fn pulled_status(value: u8) -> u8 {
        with_flag(with_flag(value, FLAG_BREAK, false), FLAG_UNUSED, true)
    }

    /// A subroutine call: the address of the call's last byte goes to the
    /// stack, and the program counter to the operand.
    pub open spec fn call_subroutine(self, mode: AddrMode) -> SystemView {
        let (s1, operand) = self.resolve(mode);
        let s2 = s1.push_word(address_plus(s1.cpu.pc, 0xFFFF));
        s2.with_pc(operand.addr)
    }

    /// A return from a subroutine, to the byte after the popped address.
    pub open spec fn return_from_subroutine(self) -> SystemView {
        let (s, word) = self.pop_word();
        s.with_pc(next_address(word))
    }

    /// A return from an interrupt: the status, then the program counter.
    pub open spec fn return_from_interrupt(self) -> SystemView {
        let (s1, status) = self.pop();
        let s2 = s1.with_cpu(Cpu { status: Self::pulled_status(status), ..s1.cpu });
        let (s3, word) = s2.pop_word();
        s3.with_pc(word)
    }

    /// A software interrupt: the address two bytes past the opcode and the
    /// status with break set go to the stack, interrupt disable is set and
    /// the program counter is loaded from the IRQ vector.
    pub open spec fn software_interrupt(self) -> SystemView {
        self.push_word(next_address(self.cpu.pc)).enter_break()
    }

    /// The second half of a software interrupt, after the return address
    /// has been pushed.
    pub open spec fn enter_break(self) -> SystemView {
        let s2 = self.push(self.pushed_status());
        let s3 = s2.with_cpu(
            Cpu { status: with_flag(s2.cpu.status, FLAG_INTERRUPT, true), ..s2.cpu },
        );
        let (s4, target) = s3.read_word(IRQ_VECTOR);
        s4.with_pc(target)
    }

    /// A pull into A, which sets zero and negative.
    pub open spec fn pull_accumulator(self) -> SystemView {
        let (s, value) = self.pop();
        s.with_cpu(Cpu { a: value, ..s.cpu }.spec_update_nz(value))
    }

    /// A pull into the status register.
    pub open spec fn pull_status(self) -> SystemView {
        let (s, value) = self.pop();
        s.with_cpu(Cpu { status: Self::pulled_status(value), ..s.cpu })
    }

    /// A jump, a subroutine call or return, an interrupt return, a software
    /// interrupt, or a stack transfer.
    #[verifier::opaque]
    pub open spec fn execute_control(self, i: Instruction) -> (SystemView, u8) {
        match i.op {
            Op::Jmp => {
                let (s, operand) = self.resolve(i.mode);
                (s.with_pc(operand.addr), i.cycles)
            },
            Op::Jsr => (self.call_subroutine(i.mode), i.cycles),
            Op::Rts => (self.return_from_subroutine(), i.cycles),
            Op::Rti => (self.return_from_interrupt(), i.cycles),
            Op::Brk => (self.software_interrupt(), i.cycles),
            Op::Pha => (self.push(self.cpu.a), i.cycles),
            Op::Php => (self.push(self.pushed_status()), i.cycles),
            Op::Pla => (self.pull_accumulator(), i.cycles),
            Op::Plp => (self.pull_status(), i.cycles),
            _ => (self, i.cycles),
        }
    }

    /// The effect of an instruction whose opcode has been fetched, and the
    /// cycles it takes. A skip steps over its operand without reading it; a
    /// jam points the program counter back at its own opcode, so that the
    /// processor stays there.
    #[verifier::opaque]
    pub open spec fn execute(self, i: Instruction) -> (SystemView, u8) {
        match op_kind(i.op) {
            OpKind::Load => self.execute_load(i),
            OpKind::Store => self.execute_store(i),
            OpKind::Modify => self.execute_modify(i),
            OpKind::Register => (self.with_cpu(self.cpu.spec_register(i.op)), i.cycles),
            OpKind::Branch => self.execute_branch(i),
            OpKind::Control => self.execute_control(i),
            OpKind::Skip => (
                self.with_pc(address_plus(self.cpu.pc, operand_len(i.mode) as int)),
                i.cycles,
            ),
            OpKind::Halt => (self.with_pc(address_plus(self.cpu.pc, 0xFFFF)), i.cycles),
        }
    }

    /// What the CPU does next, and the cycles it takes. While sprite DMA
    /// stalls it, it idles for up to four of the cycles owed. Otherwise it
    /// fetches an opcode and carries the instruction out.
    #[verifier::opaque]
    pub open spec fn cpu_step(self) -> (SystemView, u8) {
        if self.oam_dma_cycles > 0 {
            let spent = if self.oam_dma_cycles < 4 { self.oam_dma_cycles } else { 4u16 };
            (
                SystemView { oam_dma_cycles: (self.oam_dma_cycles - spent) as u16, ..self },
                spent as u8,
            )
        } else {
            let (s, opcode) = self.fetch();
            s.execute(decode(opcode))
        }
    }

    // -----------------------------------------------------------------------
    // Interrupts and the clock
    // -----------------------------------------------------------------------

    /// The console after an interrupt is taken: the program counter and the
    /// status, with break clear and bit 5 set, go to the stack, interrupt
    /// disable is set and the program counter is loaded from the vector.
    #[verifier::opaque]
    pub open spec fn interrupt(self, vector: u16) -> SystemView {
        let s1 = self.push_word(self.cpu.pc);
        let s2 = s1.push(Self::pulled_status(s1.cpu.status));
        let s3 = s2.with_cpu(
            Cpu { status: with_flag(s2.cpu.status, FLAG_INTERRUPT, true), ..s2.cpu },
        );
        let (s4, target) = s3.read_word(vector);
        s4.with_pc(target)
    }

    /// Whether a device asks for an interrupt: the audio unit's frame
    /// interrupt, or the cartridge's scanline counter.
    pub open spec fn irq_line(self) -> bool {
        self.apu.spec_frame_interrupt() || match self.cartridge {
            Some(c) => c.irq_pending(),
            None => false,
        }
    }

    /// The console after the interrupt lines have been looked at. A latched
    /// non-maskable interrupt is cleared and taken. Then a device interrupt
    /// is taken if interrupt disable is clear.
    #[verifier::opaque]
    pub open spec fn service_interrupts(self) -> SystemView {
        let s = if self.ppu.nmi_interrupt {
            SystemView { ppu: PpuView { nmi_interrupt: false, ..self.ppu }, ..self }.interrupt(
                NMI_VECTOR,
            )
        } else {
            self
        };
        if s.irq_line() && !s.cpu.flag(FLAG_INTERRUPT) {
            s.interrupt(IRQ_VECTOR)
        } else {
            s
        }
    }

    /// The console after one tick of the picture unit. On dot 260 of a
    /// visible scanline, with rendering on, the cartridge is told of the
    /// scanline; on dot 1 of scanline 241 it is told that the frame is over.
    pub open spec fn picture_tick(self) -> SystemView {
        let ppu = self.ppu.step();
        SystemView {
            ppu,
            cartridge: match self.cartridge {
                Some(c) => Some(
                    if ppu.scanline < 240 && ppu.cycle == 260 && ppu.rendering() {
                        c.clock_scanline()
                    } else if ppu.scanline == 241 && ppu.cycle == 1 {
                        c.end_of_frame()
                    } else {
                        c
                    },
                ),
                None => None,
            },
            ..self
        }
    }

    /// The console after `n` ticks of the picture unit.
    pub open spec fn picture_ticks(self, n: nat) -> SystemView
        decreases n,
    {
        if n == 0 {
            self
        } else {
            self.picture_tick().picture_ticks((n - 1) as nat)
        }
    }

    /// One tick of the console, and the CPU cycles it took. The CPU does
    /// its next step of `c` cycles; the picture unit then runs `3 * c`
    /// ticks and the audio unit `c`; at last the interrupt lines are looked
    /// at.
    #[verifier::opaque]
    pub open spec fn step(self) -> (SystemView, u8) {
        let (s1, c) = self.cpu_step();
        let s2 = s1.picture_ticks(3 * c as nat);
        let s3 = SystemView { apu: s2.apu.spec_step_n(c as nat), ..s2 };
        (s3.service_interrupts(), c)
    }

    /// The console after reset: registers at their reset values, the units
    /// and both controllers reset, and the program counter loaded from the
    /// reset vector. Memory keeps its contents.
    pub open spec fn reset(self) -> SystemView {
        let s = SystemView {
            cpu: Cpu { pc: self.cpu.pc, ..Cpu::spec_new() },
            ppu: self.ppu.reset(),
            apu: Apu::spec_new(),
            controller1: ControllerView::rest(),
            controller2: ControllerView::rest(),
            ..self
        };
        let (s1, target) = s.read_word(RESET_VECTOR);
        s1.with_pc(target)
    }

    /// The console after a cartridge is inserted and reset is pulled. The
    /// picture unit takes the cartridge's mirroring and its character window
    /// as pattern tables, or empty pattern tables where the board carries
    /// character RAM.
    pub open spec fn load_cartridge(self, cartridge: CartridgeView) -> SystemView {
        SystemView {
            ppu: PpuView {
                mirroring: cartridge.current_mirroring(),
                vram: Seq::new(
                    self.ppu.vram.len(),
                    |i: int|
                        if i < 0x2000 {
                            if cartridge.patterns_in_rom() {
                                cartridge.read_chr(i as u16)
                            } else {
                                0u8
                            }
                        } else {
                            self.ppu.vram[i]
                        },
                ),
                ..self.ppu
            },
            cartridge: Some(cartridge),
            ..self
        }.reset()
    }

    /// One step of a frame run: the console after it, the answer of the
    /// run if the run ends here, and the CPU cycles that the step took.
    ///
    /// With the cycle budget of a frame spent, the run ends without a tick:
    /// the count keeps what was spent beyond the budget, and the answer
    /// tells whether the picture unit has left frame `start_frame`.
    /// Otherwise the console does one tick. If that takes the picture unit
    /// out of frame `start_frame`, the run ends with `true` and the cycle
    /// count restarts at zero; else the tick's cycles are added to the
    /// count and the run goes on.
    pub open spec fn frame_step(self, start_frame: u64) -> (SystemView, Option<bool>, u8) {
        if self.cycles >= FRAME_CYCLES {
            (
                SystemView { cycles: (self.cycles - FRAME_CYCLES) as u64, ..self },
                Some(self.ppu.frame != start_frame),
                0u8,
            )
        } else {
            let (s, c) = self.step();
            if s.ppu.frame != start_frame {
                (SystemView { cycles: 0, ..s }, Some(true), c)
            } else {
                (
                    SystemView {
                        cycles: (self.cycles + if c == 0 { 1u8 } else { c }) as u64,
                        ..s
                    },
                    None,
                    c,
                )
            }
        }
    }

    /// Runs steps of a frame run until one of them ends it: the picture
    /// unit starts another frame than `start_frame`, or the cycle budget of
    /// a frame is spent. The answer tells whether a frame was completed.
    pub open spec fn run_frame_from(self, start_frame: u64) -> (SystemView, bool)
        decreases
            (if self.cycles >= FRAME_CYCLES {
                0int
            } else {
                FRAME_CYCLES - self.cycles
            }),
    {
        let (s, answer, c) = self.frame_step(start_frame);
        match answer {
            Some(done) => (s, done),
            None => s.run_frame_from(start_frame),
        }
    }
}

impl System {
    pub fn new() -> (r: Self)
        ensures
            r@ == SystemView::power_on(),
    {
        let r = System {
            cpu_ram: [0u8; 0x800],
            cpu: Cpu::new(),
            ppu: Ppu::new(),
            apu: Apu::new(),
            controller1: Controller::new(),
            controller2: Controller::new(),
            cartridge: None,
            cycles: 0,
            oam_dma_cycles: 0,
        };
        assert(r@.cpu_ram =~= SystemView::power_on().cpu_ram);
        r
    }

    /// Reads a byte over the bus. See [`SystemView::read_byte`].
    pub fn read_byte(&mut self, addr: u16) -> (r: u8)
        ensures
            (final(self)@, r) == old(self)@.read_byte(addr),
    {
        reveal(SystemView::read_byte);
        if addr < 0x2000 {
            self.cpu_ram[(addr % 0x0800) as usize]
        } else if addr < 0x4000 {
            self.ppu.read_register(addr)
        } else if addr <= 0x4015 {
            self.apu.read_register(addr)
        } else if addr == 0x4016 {
            self.controller1.read()
        } else if addr == 0x4017 {
            self.controller2.read()
        } else if addr < 0x6000 {
            match &self.cartridge {
                Some(c) => c.read_expansion(addr),
                None => 0,
            }
        } else if addr < 0x8000 {
            match &self.cartridge {
                Some(c) => c.read_prg_ram(addr),
                None => 0,
            }
        } else {
            match &self.cartridge {
                Some(c) => c.read_prg(addr),
                None => 0,
            }
        }
    }

    /// Writes a byte over the bus. See [`SystemView::write_byte`].
    pub fn write_byte(&mut self, addr: u16, value: u8)
        ensures
            final(self)@ == old(self)@.write_byte(addr, value),
    {
        reveal(SystemView::write_byte);
        if addr < 0x2000 {
            self.cpu_ram[(addr % 0x0800) as usize] = value;
        } else if addr < 0x4000 {
            self.ppu.write_register(addr, value);
        } else if addr == 0x4014 {
            self.oam_dma(value);
        } else if addr == 0x4016 {
            self.controller1.write(value);
            self.controller2.write(value);
        } else if addr <= 0x4017 {
            self.apu.write_register(addr, value);
        } else if addr < 0x6000 {
            match &mut self.cartridge {
                Some(c) => {
                    c.write_expansion(addr, value);
                },
                None => {},
            }
            self.sync_picture_unit();
        } else if addr < 0x8000 {
            match &mut self.cartridge {
                Some(c) => {
                    c.write_prg_ram(addr, value);
                },
                None => {},
            }
        } else {
            match &mut self.cartridge {
                Some(c) => {
                    c.write_prg(addr, value);
                },
                None => {},
            }
            self.sync_picture_unit();
        }
    }

    /// Copies the cartridge's character window into the pattern tables.
    fn load_patterns(&mut self, from_rom: bool)
        requires
            old(self).cartridge is Some,
        ensures
            final(self)@ == (SystemView {
                ppu: PpuView {
                    vram: Seq::new(
                        0x4000,
                        |i: int|
                            if i < 0x2000 {
                                if from_rom {
                                    old(self)@.cartridge.unwrap().read_chr(i as u16)
                                } else {
                                    0u8
                                }
                            } else {
                                old(self)@.ppu.vram[i]
                            },
                    ),
                    ..old(self)@.ppu
                },
                ..old(self)@
            }),
    {
        let ghost before = self@;
        let mut i: u16 = 0;
        while i < 0x2000
            invariant
                0 <= i <= 0x2000,
                self.cartridge is Some,
                self@ == (SystemView {
                    ppu: PpuView { vram: self@.ppu.vram, ..before.ppu },
                    ..before
                }),
                forall|j: int|
                    0 <= j < 0x4000 ==> #[trigger] self@.ppu.vram[j] == (if j < i {
                        if from_rom {
                            before.cartridge.unwrap().read_chr(j as u16)
                        } else {
                            0u8
                        }
                    } else {
                        before.ppu.vram[j]
                    }),
            decreases 0x2000 - i,
        {
            let byte: u8 = if from_rom {
                match &self.cartridge {
                    Some(c) => c._read_chr(i),
                    None => 0,
                }
            } else {
                0
            };
            self.ppu.vram[i as usize] = byte;
            i += 1;
        }
        proof {
            assert(self@.ppu.vram =~= Seq::new(
                0x4000,
                |i: int|
                    if i < 0x2000 {
                        if from_rom {
                            before.cartridge.unwrap().read_chr(i as u16)
                        } else {
                            0u8
                        }
                    } else {
                        before.ppu.vram[i]
                    },
            ));
        }
    }

    /// Lets the picture unit catch up with the cartridge's registers. See
    /// [`SystemView::sync_picture_unit`].
    pub fn sync_picture_unit(&mut self)
        ensures
            final(self)@ == old(self)@.sync_picture_unit(),
    {
        let (mirroring, switch): (Mirroring, bool) = match &self.cartridge {
            Some(c) => (c.mirroring(), c.switches_chr() && c.patterns_in_rom()),
            None => {
                return ;
            },
        };
        self.ppu.mirroring = mirroring;
        if switch {
            self.load_patterns(true);
            proof {
                assert(self@.ppu.vram =~= SystemView::pattern_window(
                    old(self)@.ppu.vram,
                    old(self)@.cartridge.unwrap(),
                ));
            }
        }
    }

    /// Copies a page into sprite memory and stalls the CPU. See
    /// [`SystemView::oam_dma`].
    pub fn oam_dma(&mut self, page: u8)
        ensures
            final(self)@ == old(self)@.oam_dma(page),
    {
        self.oam_dma_cycles = if self.cycles % 2 == 1 { 514 } else { 513 };
        let ghost start = self@;
        let mut i: usize = 0;
        while i < 256
            invariant
                0 <= i <= 256,
                self@ == start.dma_copy(page, i as nat),
            decreases 256 - i,
        {
            let data = self.read_byte((page as u16) * 256 + i as u16);
            let at: usize = (self.ppu.oam_addr as usize + i) % 256;
            assert(at == dma_slot(self.ppu.oam_addr, i as int));
            self.ppu.oam_data[at] = data;
            i += 1;
        }
    }

    /// Reads two bytes, low byte first. See [`SystemView::read_word`].
    pub fn read_word(&mut self, addr: u16) -> (r: u16)
        ensures
            (final(self)@, r) == old(self)@.read_word(addr),
    {
        let lo = self.read_byte(addr);
        let hi = self.read_byte(addr.wrapping_add(1));
        make_word(lo, hi)
    }

    /// Pushes a byte. See [`SystemView::push`].
    pub fn push(&mut self, value: u8)
        ensures
            final(self)@ == old(self)@.push(value),
    {
        self.write_byte(0x0100 + self.cpu.sp as u16, value);
        self.cpu.sp = self.cpu.sp.wrapping_sub(1);
    }

    /// Pops a byte. See [`SystemView::pop`].
    pub fn pop(&mut self) -> (r: u8)
        ensures
            (final(self)@, r) == old(self)@.pop(),
    {
        self.cpu.sp = self.cpu.sp.wrapping_add(1);
        self.read_byte(0x0100 + self.cpu.sp as u16)
    }

    /// Pushes two bytes, high byte first. See [`SystemView::push_word`].
    pub fn push_word(&mut self, value: u16)
        ensures
            final(self)@ == old(self)@.push_word(value),
    {
        self.push(high_byte(value));
        self.push(low_byte(value));
    }

    /// Pops two bytes, low byte first. See [`SystemView::pop_word`].
    pub fn pop_word(&mut self) -> (r: u16)
        ensures
            (final(self)@, r) == old(self)@.pop_word(),
    {
        let lo = self.pop();
        let hi = self.pop();
        make_word(lo, hi)
    }

    /// Reads the byte at the program counter and moves on. See
    /// [`SystemView::fetch`].
    pub fn fetch(&mut self) -> (r: u8)
        ensures
            (final(self)@, r) == old(self)@.fetch(),
    {
        let value = self.read_byte(self.cpu.pc);
        self.cpu.pc = self.cpu.pc.wrapping_add(1);
        value
    }

    /// Reads the two bytes at the program counter. See
    /// [`SystemView::fetch_word`].
    pub fn fetch_word(&mut self) -> (r: u16)
        ensures
            (final(self)@, r) == old(self)@.fetch_word(),
    {
        let lo = self.fetch();
        let hi = self.fetch();
        make_word(lo, hi)
    }

    /// Reads a pointer from the zero page. See
    /// [`SystemView::zero_page_word`].
    pub fn zero_page_word(&mut self, ptr: u8) -> (r: u16)
        ensures
            (final(self)@, r) == old(self)@.zero_page_word(ptr),
    {
        let lo = self.read_byte(ptr as u16);
        let hi = self.read_byte(ptr.wrapping_add(1) as u16);
        make_word(lo, hi)
    }

    /// A zero-page operand. See [`SystemView::zero_page_operand`].
    pub fn zero_page_operand(&mut self, index: u8) -> (r: Operand)
        ensures
            (final(self)@, r) == old(self)@.zero_page_operand(index),
    {
        let zp = self.fetch();
        Operand { addr: zp.wrapping_add(index) as u16, base: zp as u16 }
    }

    /// An absolute operand. See [`SystemView::absolute_operand`].
    pub fn absolute_operand(&mut self, index: u8) -> (r: Operand)
        ensures
            (final(self)@, r) == old(self)@.absolute_operand(index),
    {
        let word = self.fetch_word();
        Operand { addr: word.wrapping_add(index as u16), base: word }
    }

    /// The operand of the indirect jump. See
    /// [`SystemView::indirect_operand`].
    pub fn indirect_operand(&mut self) -> (r: Operand)
        ensures
            (final(self)@, r) == old(self)@.indirect_operand(),
    {
        let ptr = self.fetch_word();
        let lo = self.read_byte(ptr);
        let second: u16 = if ptr % 256 == 255 {
            ptr - 255
        } else {
            ptr.wrapping_add(1)
        };
        let hi = self.read_byte(second);
        Operand { addr: make_word(lo, hi), base: ptr }
    }

    /// An indexed indirect operand. See [`SystemView::indirect_x_operand`].
    pub fn indirect_x_operand(&mut self) -> (r: Operand)
        ensures
            (final(self)@, r) == old(self)@.indirect_x_operand(),
    {
        let zp = self.fetch();
        let word = self.zero_page_word(zp.wrapping_add(self.cpu.x));
        Operand { addr: word, base: word }
    }

    /// An indirect indexed operand. See [`SystemView::indirect_y_operand`].
    pub fn indirect_y_operand(&mut self) -> (r: Operand)
        ensures
            (final(self)@, r) == old(self)@.indirect_y_operand(),
    {
        let zp = self.fetch();
        let word = self.zero_page_word(zp);
        Operand { addr: word.wrapping_add(self.cpu.y as u16), base: word }
    }

    /// Finds the operand of an instruction. See [`SystemView::resolve`].
    pub fn resolve(&mut self, mode: AddrMode) -> (r: Operand)
        ensures
            (final(self)@, r) == old(self)@.resolve(mode),
    {
        reveal(SystemView::resolve);
        match mode {
            AddrMode::Implied | AddrMode::Accumulator => Operand { addr: 0, base: 0 },
            AddrMode::Immediate | AddrMode::Relative => {
                let at = self.cpu.pc;
                self.cpu.pc = self.cpu.pc.wrapping_add(1);
                Operand { addr: at, base: at }
            },
            AddrMode::ZeroPage => self.zero_page_operand(0),
            AddrMode::ZeroPageX => self.zero_page_operand(self.cpu.x),
            AddrMode::ZeroPageY => self.zero_page_operand(self.cpu.y),
            AddrMode::Absolute => self.absolute_operand(0),
            AddrMode::AbsoluteX => self.absolute_operand(self.cpu.x),
            AddrMode::AbsoluteY => self.absolute_operand(self.cpu.y),
            AddrMode::Indirect => self.indirect_operand(),
            AddrMode::IndirectX => self.indirect_x_operand(),
            AddrMode::IndirectY => self.indirect_y_operand(),
        }
    }

    /// Carries out an instruction that reads its operand. See
    /// [`SystemView::execute_load`].
    fn execute_load(&mut self, i: Instruction) -> (cycles: u8)
        requires
            i.cycles <= 8,
        ensures
            (final(self)@, cycles) == old(self)@.execute_load(i),
            i.cycles <= cycles <= i.cycles + 2,
    {
        reveal(SystemView::execute_load);
        let operand = self.resolve(i.mode);
        let value = self.read_byte(operand.addr);
        self.cpu.load(i.op, value);
        if i.page_penalty && page_crossed(operand.base, operand.addr) {
            i.cycles + 1
        } else {
            i.cycles
        }
    }

    /// Carries out an instruction that writes its operand. See
    /// [`SystemView::execute_store`].
    fn execute_store(&mut self, i: Instruction) -> (cycles: u8)
        requires
            i.cycles <= 8,
        ensures
            (final(self)@, cycles) == old(self)@.execute_store(i),
            i.cycles <= cycles <= i.cycles + 2,
    {
        reveal(SystemView::execute_store);
        let operand = self.resolve(i.mode);
        let value = self.cpu.stored(i.op, operand.base);
        self.write_byte(operand.addr, value);
        if i.op == Op::Tas {
            self.cpu.sp = self.cpu.a & self.cpu.x;
        }
        i.cycles
    }

    /// Carries out an instruction that changes its operand in place. See
    /// [`SystemView::execute_modify`].
    fn execute_modify(&mut self, i: Instruction) -> (cycles: u8)
        requires
            i.cycles <= 8,
        ensures
            (final(self)@, cycles) == old(self)@.execute_modify(i),
            i.cycles <= cycles <= i.cycles + 2,
    {
        reveal(SystemView::execute_modify);
        if i.mode == AddrMode::Accumulator {
            let value = self.cpu.a;
            let result = self.cpu.modified(i.op, value);
            self.cpu.modify(i.op, value);
            self.cpu.a = result;
        } else {
            let operand = self.resolve(i.mode);
            let value = self.read_byte(operand.addr);
            let result = self.cpu.modified(i.op, value);
            self.write_byte(operand.addr, result);
            self.cpu.modify(i.op, value);
        }
        i.cycles
    }

    /// Carries out a branch. See [`SystemView::execute_branch`].
    fn execute_branch(&mut self, i: Instruction) -> (cycles: u8)
        requires
            i.cycles <= 8,
        ensures
            (final(self)@, cycles) == old(self)@.execute_branch(i),
            i.cycles <= cycles <= i.cycles + 2,
    {
        reveal(SystemView::execute_branch);
        let operand = self.resolve(i.mode);
        let offset = self.read_byte(operand.addr);
        if self.cpu.branch_taken(i.op) {
            let from = self.cpu.pc;
            let target = add_offset(from, offset);
            self.cpu.pc = target;
            if page_crossed(from, target) {
                i.cycles + 2
            } else {
                i.cycles + 1
            }
        } else {
            i.cycles
        }
    }

    /// A status byte as PHP and BRK push it: break and bit 5 set.
    fn with_break(status: u8) -> (r: u8)
        ensures
            r == with_flag(with_flag(status, FLAG_BREAK, true), FLAG_UNUSED, true),
    {
        proof {
            lemma_set_clear_u8(status, FLAG_BREAK);
            lemma_set_clear_u8(status | FLAG_BREAK, FLAG_UNUSED);
        }
        status | FLAG_BREAK | FLAG_UNUSED
    }

    /// A status byte as an interrupt pushes it: break clear, bit 5 set.
    fn without_break(status: u8) -> (r: u8)
        ensures
            r == SystemView::pulled_status(status),
    {
        proof {
            lemma_set_clear_u8(status, FLAG_BREAK);
            lemma_set_clear_u8(status & !FLAG_BREAK, FLAG_UNUSED);
        }
        (status & !FLAG_BREAK) | FLAG_UNUSED
    }

    /// Calls a subroutine. See [`SystemView::call_subroutine`].
    pub fn call_subroutine(&mut self, mode: AddrMode)
        ensures
            final(self)@ == old(self)@.call_subroutine(mode),
    {
        let operand = self.resolve(mode);
        self.push_word(self.cpu.pc.wrapping_sub(1));
        self.cpu.pc = operand.addr;
    }

    /// Returns from a subroutine. See
    /// [`SystemView::return_from_subroutine`].
    pub fn return_from_subroutine(&mut self)
        ensures
            final(self)@ == old(self)@.return_from_subroutine(),
    {
        let word = self.pop_word();
        self.cpu.pc = word.wrapping_add(1);
    }

    /// Returns from an interrupt. See
    /// [`SystemView::return_from_interrupt`].
    pub fn return_from_interrupt(&mut self)
        ensures
            final(self)@ == old(self)@.return_from_interrupt(),
    {
        let status = self.pop();
        self.cpu.status = status;
        self.cpu.set_flag(FLAG_BREAK, false);
        self.cpu.set_flag(FLAG_UNUSED, true);
        let word = self.pop_word();
        self.cpu.pc = word;
    }

    /// Takes the software interrupt. See
    /// [`SystemView::software_interrupt`].
    pub fn software_interrupt(&mut self)
        ensures
            final(self)@ == old(self)@.software_interrupt(),
    {
        self.push_word(self.cpu.pc.wrapping_add(1));
        self.enter_break();
    }

    /// Pushes the status with break set and jumps through the IRQ vector.
    /// See [`SystemView::enter_break`].
    fn enter_break(&mut self)
        ensures
            final(self)@ == old(self)@.enter_break(),
    {
        self.push(Self::with_break(self.cpu.status));
        self.cpu.set_flag(FLAG_INTERRUPT, true);
        let target = self.read_word(IRQ_VECTOR);
        self.cpu.pc = target;
    }

    /// Pulls A from the stack. See [`SystemView::pull_accumulator`].
    pub fn pull_accumulator(&mut self)
        ensures
            final(self)@ == old(self)@.pull_accumulator(),
    {
        let value = self.pop();
        self.cpu.a = value;
        self.cpu.update_nz(value);
    }

    /// Pulls the status from the stack. See [`SystemView::pull_status`].
    pub fn pull_status(&mut self)
        ensures
            final(self)@ == old(self)@.pull_status(),
    {
        let value = self.pop();
        self.cpu.status = value;
        self.cpu.set_flag(FLAG_BREAK, false);
        self.cpu.set_flag(FLAG_UNUSED, true);
    }

    /// Carries out a jump, a call, a return or a stack transfer. See
    /// [`SystemView::execute_control`].
    fn execute_control(&mut self, i: Instruction) -> (cycles: u8)
        requires
            i.cycles <= 8,
        ensures
            (final(self)@, cycles) == old(self)@.execute_control(i),
            i.cycles <= cycles <= i.cycles + 2,
    {
        reveal(SystemView::execute_control);
        match i.op {
            Op::Jmp => {
                let operand = self.resolve(i.mode);
                self.cpu.pc = operand.addr;
            },
            Op::Jsr => {
                self.call_subroutine(i.mode);
            },
            Op::Rts => {
                self.return_from_subroutine();
            },
            Op::Rti => {
                self.return_from_interrupt();
            },
            Op::Brk => {
                self.software_interrupt();
            },
            Op::Pha => {
                self.push(self.cpu.a);
            },
            Op::Php => {
                self.push(Self::with_break(self.cpu.status));
            },
            Op::Pla => {
                self.pull_accumulator();
            },
            Op::Plp => {
                self.pull_status();
            },
            _ => {},
        }
        i.cycles
    }

    /// Carries out an instruction whose opcode has been fetched. See
    /// [`SystemView::execute`].
    fn execute(&mut self, i: Instruction) -> (cycles: u8)
        requires
            i.cycles <= 8,
        ensures
            (final(self)@, cycles) == old(self)@.execute(i),
            i.cycles <= cycles <= i.cycles + 2,
    {
        reveal(SystemView::execute);
        match kind_of(i.op) {
            OpKind::Load => self.execute_load(i),
            OpKind::Store => self.execute_store(i),
            OpKind::Modify => self.execute_modify(i),
            OpKind::Register => {
                self.cpu.register(i.op);
                i.cycles
            },
            OpKind::Branch => self.execute_branch(i),
            OpKind::Control => self.execute_control(i),
            OpKind::Skip => {
                self.cpu.pc = self.cpu.pc.wrapping_add(operand_length(i.mode));
                i.cycles
            },
            OpKind::Halt => {
                self.cpu.pc = self.cpu.pc.wrapping_sub(1);
                i.cycles
            },
        }
    }

    /// Lets the CPU do its next step. See [`SystemView::cpu_step`].
    pub fn cpu_step(&mut self) -> (cycles: u8)
        ensures
            (final(self)@, cycles) == old(self)@.cpu_step(),
            1 <= cycles <= 10,
    {
        reveal(SystemView::cpu_step);
        if self.oam_dma_cycles > 0 {
            let spent: u16 = if self.oam_dma_cycles < 4 { self.oam_dma_cycles } else { 4 };
            self.oam_dma_cycles = self.oam_dma_cycles - spent;
            return spent as u8;
        }
        let opcode = self.fetch();
        let i = decode_opcode(opcode);
        self.execute(i)
    }

    /// Takes an interrupt through a vector. See [`SystemView::interrupt`].
    pub fn interrupt(&mut self, vector: u16)
        ensures
            final(self)@ == old(self)@.interrupt(vector),
    {
        reveal(SystemView::interrupt);
        self.push_word(self.cpu.pc);
        self.push(Self::without_break(self.cpu.status));
        self.cpu.set_flag(FLAG_INTERRUPT, true);
        let target = self.read_word(vector);
        self.cpu.pc = target;
    }

    /// Takes the non-maskable interrupt.
    pub fn nmi(&mut self)
        ensures
            final(self)@ == old(self)@.interrupt(NMI_VECTOR),
    {
        self.interrupt(NMI_VECTOR);
    }

    /// Looks at the interrupt lines. See
    /// [`SystemView::service_interrupts`].
    pub fn service_interrupts(&mut self)
        ensures
            final(self)@ == old(self)@.service_interrupts(),
    {
        reveal(SystemView::service_interrupts);
        if self.ppu.nmi_interrupt {
            self.ppu.nmi_interrupt = false;
            self.nmi();
        }
        let board_irq = match &self.cartridge {
            Some(c) => c.irq_pending(),
            None => false,
        };
        if (self.apu.frame_interrupt() || board_irq) && !self.cpu.has_flag(FLAG_INTERRUPT) {
            self.interrupt(IRQ_VECTOR);
        }
    }

    /// Advances the picture unit by one tick. See
    /// [`SystemView::picture_tick`].
    pub fn ppu_step(&mut self)
        ensures
            final(self)@ == old(self)@.picture_tick(),
    {
        self.ppu.step();
        proof {
            lemma_bits_u8(self.ppu.mask);
        }
        let scanline = self.ppu.scanline;
        let dot = self.ppu.cycle;
        let rendering = self.ppu.mask & MASK_SHOW_BG != 0 || self.ppu.mask & MASK_SHOW_SPRITES != 0;
        match &mut self.cartridge {
            Some(c) => {
                if scanline < 240 && dot == 260 && rendering {
                    c.clock_scanline();
                } else if scanline == 241 && dot == 1 {
                    c.end_of_frame();
                }
            },
            None => {},
        }
    }

    /// Advances the picture unit by `n` ticks. See
    /// [`SystemView::picture_ticks`].
    pub fn ppu_steps(&mut self, n: u16)
        ensures
            final(self)@ == old(self)@.picture_ticks(n as nat),
    {
        let ghost start = self@;
        let mut k: u16 = 0;
        while k < n
            invariant
                0 <= k <= n,
                self@ == start.picture_ticks(k as nat),
            decreases n - k,
        {
            proof {
                lemma_picture_ticks_compose(start, k as nat, 1);
                assert(self@.picture_ticks(1) == self@.picture_tick()) by {
                    assert(self@.picture_tick().picture_ticks(0) == self@.picture_tick());
                }
            }
            self.ppu_step();
            k += 1;
        }
    }

    /// Runs one tick of the console and returns the CPU cycles it took.
    /// See [`SystemView::step`].
    pub fn step(&mut self) -> (cycles: u8)
        ensures
            (final(self)@, cycles) == old(self)@.step(),
            1 <= cycles <= 10,
    {
        reveal(SystemView::step);
        let cycles = self.cpu_step();
        self.ppu_steps(3 * cycles as u16);
        self.apu.step_many(cycles);
        self.service_interrupts();
        cycles
    }

    /// Pulls the reset line. See [`SystemView::reset`].
    pub fn reset(&mut self)
        ensures
            final(self)@ == old(self)@.reset(),
    {
        self.cpu.a = 0;
        self.cpu.x = 0;
        self.cpu.y = 0;
        self.cpu.sp = 0xFD;
        self.cpu.status = 0x24;
        self.ppu.reset();
        self.apu.reset();
        self.controller1.reset();
        self.controller2.reset();
        let target = self.read_word(RESET_VECTOR);
        self.cpu.pc = target;
    }

    /// Inserts a cartridge and pulls the reset line. See
    /// [`SystemView::load_cartridge`].
    pub fn load_cartridge(&mut self, cartridge: Cartridge)
        ensures
            final(self)@ == old(self)@.load_cartridge(cartridge@),
    {
        self.ppu.mirroring = cartridge.mirroring();
        let from_rom = cartridge.patterns_in_rom();
        self.cartridge = Some(cartridge);
        self.load_patterns(from_rom);
        self.reset();
    }

    /// Does one step of a frame run that began in frame `start_frame`:
    /// returns the answer of the run if the run ends here, and the CPU
    /// cycles that the step took. See [`SystemView::frame_step`].
    pub fn frame_step(&mut self, start_frame: u64) -> (r: (Option<bool>, u8))
        ensures
            (final(self)@, r.0, r.1) == old(self)@.frame_step(start_frame),
    {
        if self.cycles >= FRAME_CYCLES {
            self.cycles = self.cycles - FRAME_CYCLES;
            return (Some(self.ppu.frame != start_frame), 0);
        }
        let before = self.cycles;
        let cycles = self.step();
        if self.ppu.frame != start_frame {
            self.cycles = 0;
            (Some(true), cycles)
        } else {
            self.cycles = before + cycles as u64;
            (None, cycles)
        }
    }

    /// Runs the console until the picture unit completes the frame, or the
    /// cycle budget of a frame is spent, and tells whether a frame was
    /// completed. See [`SystemView::run_frame_from`].
    pub fn run_frame(&mut self) -> (r: bool)
        ensures
            (final(self)@, r) == old(self)@.run_frame_from(old(self)@.ppu.frame),
            r == (final(self)@.ppu.frame != old(self)@.ppu.frame),
    {
        proof {
            lemma_run_frame_answer(self@, self@.ppu.frame);
        }
        let start_frame = self.ppu.frame;
        let ghost goal = self@.run_frame_from(start_frame);
        loop
            invariant
                start_frame == old(self)@.ppu.frame,
                goal == old(self)@.run_frame_from(start_frame),
                self@.run_frame_from(start_frame) == goal,
            decreases
                (if self.cycles >= FRAME_CYCLES {
                    0int
                } else {
                    FRAME_CYCLES - self.cycles + 1
                }),
        {
            let step = self.frame_step(start_frame);
            match step.0 {
                Some(done) => {
                    return done;
                },
                None => {},
            }
        }
    }

    /// The picture of the last frame: 256 by 240 pixels of red, green, blue.
    pub fn get_frame_buffer(&self) -> (r: &[u8])
        ensures
            r@ == self@.ppu.frame_buffer,
    {
        self.ppu.get_frame_buffer()
    }
}

// ---------------------------------------------------------------------------
// Laws
// ---------------------------------------------------------------------------

/// A read below `$2000` returns a byte of RAM and changes nothing.
proof fn lemma_read_ram(s: SystemView, addr: u16)
    requires
        addr < 0x2000,
    ensures
        s.read_byte(addr) == (s, s.cpu_ram[(addr % 0x0800) as int]),
{
    reveal(SystemView::read_byte);
}

/// The 2 KiB of RAM repeat every `$0800` bytes up to `$2000`: a read or a
/// write at an address below `$1800` acts exactly as one `$0800` higher.
pub proof fn lemma_ram_mirrored(s: SystemView, addr: u16, value: u8)
    requires
        addr < 0x1800,
    ensures
        s.read_byte(addr) == s.read_byte((addr + 0x0800) as u16),
        s.write_byte(addr, value) == s.write_byte((addr + 0x0800) as u16, value),
{
    let mirror = (addr + 0x0800) as u16;
    assert(mirror % 0x0800 == addr % 0x0800);
    lemma_read_ram(s, addr);
    lemma_read_ram(s, mirror);
    lemma_write_ram(s, addr, value);
    lemma_write_ram(s, mirror, value);
}

proof fn lemma_write_ram(s: SystemView, addr: u16, value: u8)
    requires
        addr < 0x2000,
    ensures
        s.write_byte(addr, value) == (SystemView {
            cpu_ram: s.cpu_ram.update((addr % 0x0800) as int, value),
            ..s
        }),
{
    reveal(SystemView::write_byte);
}

/// A byte written to RAM is read back from the same address and from
/// every mirror of it.
pub proof fn lemma_ram_write_read(s: SystemView, addr: u16, mirror: u16, value: u8)
    requires
        s.cpu_ram.len() == 0x800,
        addr < 0x2000,
        mirror < 0x2000,
        addr % 0x0800 == mirror % 0x0800,
    ensures
        s.write_byte(addr, value).read_byte(mirror).1 == value,
{
    lemma_write_ram(s, addr, value);
    lemma_read_ram(s.write_byte(addr, value), mirror);
}

/// Between `$2000` and `$4000` only the low three address bits matter: two
/// addresses that agree in them act alike, for reads and for writes.
pub proof fn lemma_ppu_registers_mirrored(s: SystemView, a: u16, b: u16, value: u8)
    requires
        0x2000 <= a < 0x4000,
        0x2000 <= b < 0x4000,
        a % 8 == b % 8,
    ensures
        s.read_byte(a) == s.read_byte(b),
        s.write_byte(a, value) == s.write_byte(b, value),
{
    reveal(SystemView::read_byte);
    reveal(SystemView::write_byte);
}

impl SystemView {
    /// Whether a read at the address leaves the console as it is: RAM, the
    /// unmapped range and the cartridge, but no device register.
    pub open spec fn reads_purely(addr: u16) -> bool {
        addr < 0x2000 || addr >= 0x4018
    }
}

/// Reading RAM or the cartridge changes nothing, and what is read does not
/// depend on the picture unit or on the stall that DMA leaves behind.
proof fn lemma_pure_read(s: SystemView, other: SystemView, addr: u16)
    requires
        SystemView::reads_purely(addr),
        other.cpu_ram == s.cpu_ram,
        other.cartridge == s.cartridge,
    ensures
        s.read_byte(addr).0 == s,
        other.read_byte(addr).1 == s.read_byte(addr).1,
{
    reveal(SystemView::read_byte);
}

proof fn lemma_dma_slots_differ(oam_addr: u8, i: int, j: int)
    requires
        0 <= i < 256,
        0 <= j < 256,
        i != j,
    ensures
        dma_slot(oam_addr, i) != dma_slot(oam_addr, j),
        0 <= dma_slot(oam_addr, i) < 256,
{
}

proof fn lemma_dma_progress(s: SystemView, page: u8, n: nat)
    requires
        s.ppu.oam_data.len() == 256,
        page < 0x20 || page > 0x40,
        n <= 256,
    ensures
        s.dma_copy(page, n) == (SystemView {
            ppu: PpuView { oam_data: s.dma_copy(page, n).ppu.oam_data, ..s.ppu },
            ..s
        }),
        s.dma_copy(page, n).ppu.oam_data.len() == 256,
        forall|j: int|
            0 <= j < n ==> s.dma_copy(page, n).ppu.oam_data[#[trigger] dma_slot(s.ppu.oam_addr, j)]
                == s.read_byte((page as int * 256 + j) as u16).1,
    decreases n,
{
    if n > 0 {
        let m = (n - 1) as nat;
        lemma_dma_progress(s, page, m);
        let before = s.dma_copy(page, m);
        let addr = (page as int * 256 + m) as u16;
        assert(SystemView::reads_purely(addr));
        lemma_pure_read(before, s, addr);
        let data = before.read_byte(addr).1;
        let d = s.dma_copy(page, n);
        assert(d.ppu.oam_data == before.ppu.oam_data.update(dma_slot(s.ppu.oam_addr, m as int), data));
        assert forall|j: int| 0 <= j < n implies d.ppu.oam_data[#[trigger] dma_slot(
            s.ppu.oam_addr,
            j,
        )] == s.read_byte((page as int * 256 + j) as u16).1 by {
            if j < m {
                lemma_dma_slots_differ(s.ppu.oam_addr, j, m as int);
            } else {
                lemma_dma_slots_differ(s.ppu.oam_addr, j, (j + 1) % 256);
            }
        }
    }
}

/// The console in the middle of a sprite DMA from page `$40`, the page of
/// the audio unit and the controllers: each of its registers has been read
/// once if the copy has passed it.
proof fn lemma_dma_progress_io(s: SystemView, n: nat)
    requires
        s.ppu.oam_data.len() == 256,
        n <= 256,
    ensures
        s.dma_copy(0x40, n) == (SystemView {
            ppu: PpuView { oam_data: s.dma_copy(0x40, n).ppu.oam_data, ..s.ppu },
            apu: if n > 0x15 { s.apu.spec_read_register(0x4015) } else { s.apu },
            controller1: if n > 0x16 { s.controller1.read() } else { s.controller1 },
            controller2: if n > 0x17 { s.controller2.read() } else { s.controller2 },
            ..s
        }),
        s.dma_copy(0x40, n).ppu.oam_data.len() == 256,
        forall|j: int|
            0 <= j < n ==> s.dma_copy(0x40, n).ppu.oam_data[#[trigger] dma_slot(s.ppu.oam_addr, j)]
                == s.read_byte((0x4000 + j) as u16).1,
    decreases n,
{
    if n > 0 {
        let m = (n - 1) as nat;
        lemma_dma_progress_io(s, m);
        let before = s.dma_copy(0x40, m);
        let addr = (0x40 * 256 + m) as u16;
        lemma_io_read(before, s, addr);
        let data = before.read_byte(addr).1;
        let d = s.dma_copy(0x40, n);
        assert(d.ppu.oam_data == before.read_byte(addr).0.ppu.oam_data.update(
            dma_slot(s.ppu.oam_addr, m as int),
            data,
        ));
        assert forall|j: int| 0 <= j < n implies d.ppu.oam_data[#[trigger] dma_slot(
            s.ppu.oam_addr,
            j,
        )] == s.read_byte((0x4000 + j) as u16).1 by {
            if j < m {
                lemma_dma_slots_differ(s.ppu.oam_addr, j, m as int);
            } else {
                lemma_dma_slots_differ(s.ppu.oam_addr, j, (j + 1) % 256);
            }
        }
    }
}

/// A read in page `$40` returns what the register at that address holds,
/// touches that register alone, and does not depend on the picture unit.
proof fn lemma_io_read(before: SystemView, s: SystemView, addr: u16)
    requires
        0x4000 <= addr < 0x4100,
        before.cartridge == s.cartridge,
        addr == 0x4015 ==> before.apu == s.apu,
        addr == 0x4016 ==> before.controller1 == s.controller1,
        addr == 0x4017 ==> before.controller2 == s.controller2,
    ensures
        before.read_byte(addr).1 == s.read_byte(addr).1,
        before.read_byte(addr).0 == (SystemView {
            apu: if addr == 0x4015 { before.apu.spec_read_register(0x4015) } else { before.apu },
            controller1: if addr == 0x4016 {
                before.controller1.read()
            } else {
                before.controller1
            },
            controller2: if addr == 0x4017 {
                before.controller2.read()
            } else {
                before.controller2
            },
            ..before
        }),
{
    reveal(SystemView::read_byte);
}

/// Sprite DMA copies a page. After a write of `page` to `$4014`, byte `i`
/// of sprite memory counted from the sprite address, wrapping at 256,
/// holds what the CPU would have read at `page * 256 + i` when the write
/// was made. This holds for every page of RAM and of the cartridge, and
/// for page `$40`, where each register is read once. It does not hold for
/// the pages of the picture unit, `$20` to `$3F`, where the copy reads each
/// register 32 times and the reads change what the next one returns.
pub proof fn lemma_dma_copies_page(s: SystemView, page: u8, i: int)
    requires
        s.ppu.oam_data.len() == 256,
        page < 0x20 || page >= 0x40,
        0 <= i < 256,
    ensures
        s.write_byte(0x4014, page).ppu.oam_data[dma_slot(s.ppu.oam_addr, i)] == s.read_byte(
            (page as int * 256 + i) as u16,
        ).1,
        s.write_byte(0x4014, page).ppu.oam_addr == s.ppu.oam_addr,
        s.write_byte(0x4014, page).oam_dma_cycles == if s.cycles % 2 == 1 { 514u16 } else { 513u16 },
{
    reveal(SystemView::write_byte);
    let stalled = SystemView {
        oam_dma_cycles: if s.cycles % 2 == 1 { 514u16 } else { 513u16 },
        ..s
    };
    let addr = (page as int * 256 + i) as u16;
    let d = stalled.dma_copy(page, 256);
    if page == 0x40 {
        lemma_dma_progress_io(stalled, 256);
        lemma_io_read(stalled, s, addr);
        lemma_io_read(s, stalled, addr);
    } else {
        lemma_dma_progress(stalled, page, 256);
        lemma_pure_read(s, stalled, addr);
    }
    assert(d.ppu.oam_data[dma_slot(stalled.ppu.oam_addr, i)] == stalled.read_byte(addr).1);
}

/// A push changes RAM and the stack pointer and nothing else.
proof fn lemma_push_frame(s: SystemView, value: u8)
    ensures
        s.push(value) == (SystemView {
            cpu_ram: s.push(value).cpu_ram,
            cpu: Cpu { sp: s.push(value).cpu.sp, ..s.cpu },
            ..s
        }),
{
    lemma_write_ram(s, (0x0100 + s.cpu.sp) as u16, value);
}

/// Taking an interrupt touches RAM and the registers only: the picture
/// unit, the audio unit, the controllers and the cartridge stay as they
/// are.
pub proof fn lemma_interrupt_frame(s: SystemView, vector: u16)
    requires
        vector >= 0xFFFA,
        vector % 2 == 0,
    ensures
        s.interrupt(vector).ppu == s.ppu,
        s.interrupt(vector).apu == s.apu,
        s.interrupt(vector).controller1 == s.controller1,
        s.interrupt(vector).controller2 == s.controller2,
        s.interrupt(vector).cartridge == s.cartridge,
        s.interrupt(vector).cycles == s.cycles,
        s.interrupt(vector).cpu.flag(FLAG_INTERRUPT),
{
    reveal(SystemView::interrupt);
    let s0 = s.push((s.cpu.pc / 256) as u8);
    lemma_push_frame(s, (s.cpu.pc / 256) as u8);
    let s1 = s0.push((s.cpu.pc % 256) as u8);
    lemma_push_frame(s0, (s.cpu.pc % 256) as u8);
    let s2 = s1.push(SystemView::pulled_status(s1.cpu.status));
    lemma_push_frame(s1, SystemView::pulled_status(s1.cpu.status));
    let s3 = s2.with_cpu(Cpu { status: with_flag(s2.cpu.status, FLAG_INTERRUPT, true), ..s2.cpu });
    lemma_pure_read(s3, s3, vector);
    lemma_pure_read(s3, s3, next_address(vector));
}

/// What taking an interrupt leaves behind. The stack pointer has moved
/// down three bytes within page 1; the three bytes above it hold, from the
/// top, the high and the low byte of the interrupted program counter and
/// the status with break clear and bit 5 set; interrupt disable is set; and
/// the program counter holds the word that the vector reads as.
pub proof fn lemma_interrupt_effect(s: SystemView, vector: u16)
    requires
        s.cpu_ram.len() == 0x800,
        vector >= 0xFFFA,
        vector % 2 == 0,
    ensures
        s.interrupt(vector).cpu.sp == byte_plus(s.cpu.sp, 253),
        s.interrupt(vector).cpu_ram[0x100 + s.cpu.sp] == (s.cpu.pc / 256) as u8,
        s.interrupt(vector).cpu_ram[0x100 + byte_plus(s.cpu.sp, 255)] == (s.cpu.pc % 256) as u8,
        s.interrupt(vector).cpu_ram[0x100 + byte_plus(s.cpu.sp, 254)] == SystemView::pulled_status(
            s.cpu.status,
        ),
        s.interrupt(vector).cpu.flag(FLAG_INTERRUPT),
        s.interrupt(vector).cpu.pc == s.read_word(vector).1,
        s.interrupt(vector).cpu.a == s.cpu.a,
        s.interrupt(vector).cpu.x == s.cpu.x,
        s.interrupt(vector).cpu.y == s.cpu.y,
{
    reveal(SystemView::interrupt);
    let high = (s.cpu.pc / 256) as u8;
    let low = (s.cpu.pc % 256) as u8;
    lemma_write_ram(s, (0x0100 + s.cpu.sp) as u16, high);
    let s0 = s.push(high);
    lemma_write_ram(s0, (0x0100 + s0.cpu.sp) as u16, low);
    let s1 = s0.push(low);
    let status = SystemView::pulled_status(s1.cpu.status);
    lemma_write_ram(s1, (0x0100 + s1.cpu.sp) as u16, status);
    let s2 = s1.push(status);
    let s3 = s2.with_cpu(Cpu { status: with_flag(s2.cpu.status, FLAG_INTERRUPT, true), ..s2.cpu });
    lemma_read_cartridge(s3, s, vector);
    lemma_read_cartridge(s3, s, next_address(vector));
}

/// A read from the program window changes nothing and depends on the
/// cartridge alone.
proof fn lemma_read_cartridge(s: SystemView, other: SystemView, addr: u16)
    requires
        addr >= 0x8000,
        other.cartridge == s.cartridge,
    ensures
        s.read_byte(addr).0 == s,
        other.read_byte(addr).0 == other,
        other.read_byte(addr).1 == s.read_byte(addr).1,
{
    reveal(SystemView::read_byte);
}

/// Ticking the picture unit `a + b` times is ticking it `a` times and then
/// `b` times.
pub proof fn lemma_picture_ticks_compose(s: SystemView, a: nat, b: nat)
    ensures
        s.picture_ticks(a + b) == s.picture_ticks(a).picture_ticks(b),
    decreases a,
{
    if a > 0 {
        lemma_picture_ticks_compose(s.picture_tick(), (a - 1) as nat, b);
    }
}

/// Ticks of the picture unit reach nothing but the picture unit itself and
/// the cartridge, and the picture unit runs as it would on its own.
pub proof fn lemma_picture_ticks_frame(s: SystemView, n: nat)
    ensures
        s.picture_ticks(n).ppu == s.ppu.step_n(n),
        s.picture_ticks(n) == (SystemView {
            ppu: s.picture_ticks(n).ppu,
            cartridge: s.picture_ticks(n).cartridge,
            ..s
        }),
    decreases n,
{
    if n > 0 {
        lemma_picture_ticks_frame(s.picture_tick(), (n - 1) as nat);
    }
}

/// The clock ratio. In one tick of the console the picture unit advances
/// exactly three ticks for every CPU cycle that the tick reports, and the
/// audio unit one; servicing interrupts afterwards changes nothing in
/// them but the interrupt latch.
pub proof fn lemma_clock_ratio(s: SystemView)
    ensures
        ({
            let (after_cpu, c) = s.cpu_step();
            let (after, cycles) = s.step();
            &&& cycles == c
            &&& after.ppu == (PpuView {
                nmi_interrupt: after.ppu.nmi_interrupt,
                ..after_cpu.ppu.step_n(3 * c as nat)
            })
            &&& after.apu == after_cpu.apu.spec_step_n(c as nat)
        }),
{
    reveal(SystemView::step);
    reveal(SystemView::service_interrupts);
    let (s1, c) = s.cpu_step();
    lemma_picture_ticks_frame(s1, 3 * c as nat);
    let s2 = s1.picture_ticks(3 * c as nat);
    let s3 = SystemView { apu: s2.apu.spec_step_n(c as nat), ..s2 };
    let cleared = SystemView { ppu: PpuView { nmi_interrupt: false, ..s3.ppu }, ..s3 };
    lemma_interrupt_frame(cleared, NMI_VECTOR);
    lemma_interrupt_frame(s3, IRQ_VECTOR);
    lemma_interrupt_frame(cleared.interrupt(NMI_VECTOR), IRQ_VECTOR);
}

/// The answer of a frame run is exact: it is `true` precisely when the
/// picture unit has left the frame it was in. A completed frame starts the
/// cycle count over, and a run that spends its budget keeps no more than
/// what a tick can overshoot it by.
pub proof fn lemma_run_frame_answer(s: SystemView, start_frame: u64)
    ensures
        s.run_frame_from(start_frame).1 == (s.run_frame_from(start_frame).0.ppu.frame
            != start_frame),
        s.cycles < FRAME_CYCLES ==> s.run_frame_from(start_frame).0.cycles < 255,
    decreases
        (if s.cycles >= FRAME_CYCLES {
            0int
        } else {
            FRAME_CYCLES - s.cycles
        }),
{
    let (t, answer, c) = s.frame_step(start_frame);
    if answer is None {
        lemma_run_frame_answer(t, start_frame);
    }
}

// ---------------------------------------------------------------------------
// The CPU cannot move the picture unit's clock
// ---------------------------------------------------------------------------

impl SystemView {
    /// Whether the picture unit stands at the same dot of the same scanline
    /// of the same frame in two states of the console.
    pub open spec fn same_clock(self, other: SystemView) -> bool {
        &&& self.ppu.cycle == other.ppu.cycle
        &&& self.ppu.scanline == other.ppu.scanline
        &&& self.ppu.frame == other.ppu.frame
    }
}

proof fn lemma_read_keeps_clock(s: SystemView, addr: u16)
    ensures
        s.same_clock(s.read_byte(addr).0),
        s.read_byte(addr).0.cpu == s.cpu,
{
    reveal(SystemView::read_byte);
}

proof fn lemma_dma_keeps_clock(s: SystemView, page: u8, n: nat)
    ensures
        s.same_clock(s.dma_copy(page, n)),
        s.dma_copy(page, n).cpu == s.cpu,
    decreases n,
{
    if n > 0 {
        lemma_dma_keeps_clock(s, page, (n - 1) as nat);
        lemma_read_keeps_clock(
            s.dma_copy(page, (n - 1) as nat),
            (page as int * 256 + (n - 1)) as u16,
        );
    }
}

proof fn lemma_write_keeps_clock(s: SystemView, addr: u16, value: u8)
    ensures
        s.same_clock(s.write_byte(addr, value)),
        s.write_byte(addr, value).cpu == s.cpu,
{
    reveal(SystemView::write_byte);
    if addr == 0x4014 {
        let stalled = SystemView {
            oam_dma_cycles: if s.cycles % 2 == 1 { 514u16 } else { 513u16 },
            ..s
        };
        lemma_dma_keeps_clock(stalled, value, 256);
    }
}

proof fn lemma_stack_keeps_clock(s: SystemView, value: u8, word: u16)
    ensures
        s.same_clock(s.push(value)),
        s.same_clock(s.pop().0),
        s.same_clock(s.push_word(word)),
        s.same_clock(s.pop_word().0),
{
    lemma_write_keeps_clock(s, (0x0100 + s.cpu.sp) as u16, value);
    let sp = byte_plus(s.cpu.sp, 1);
    lemma_read_keeps_clock(s.with_cpu(Cpu { sp, ..s.cpu }), (0x0100 + sp) as u16);
    let high = (word / 256) as u8;
    lemma_write_keeps_clock(s, (0x0100 + s.cpu.sp) as u16, high);
    let s1 = s.push(high);
    lemma_write_keeps_clock(s1, (0x0100 + s1.cpu.sp) as u16, (word % 256) as u8);
    let popped = s.pop().0;
    let sp2 = byte_plus(popped.cpu.sp, 1);
    lemma_read_keeps_clock(popped.with_cpu(Cpu { sp: sp2, ..popped.cpu }), (0x0100 + sp2) as u16);
}

proof fn lemma_fetch_keeps_clock(s: SystemView, addr: u16, ptr: u8)
    ensures
        s.same_clock(s.fetch().0),
        s.same_clock(s.fetch_word().0),
        s.same_clock(s.read_word(addr).0),
        s.same_clock(s.zero_page_word(ptr).0),
{
    lemma_read_keeps_clock(s, s.cpu.pc);
    let s1 = s.fetch().0;
    lemma_read_keeps_clock(s1, s1.cpu.pc);
    lemma_read_keeps_clock(s, addr);
    lemma_read_keeps_clock(s.read_byte(addr).0, next_address(addr));
    lemma_read_keeps_clock(s, ptr as u16);
    lemma_read_keeps_clock(s.read_byte(ptr as u16).0, byte_plus(ptr, 1) as u16);
}

proof fn lemma_resolve_keeps_clock(s: SystemView, mode: AddrMode)
    ensures
        s.same_clock(s.resolve(mode).0),
{
    reveal(SystemView::resolve);
    lemma_fetch_keeps_clock(s, 0, 0);
    let s1 = s.fetch().0;
    let zp = s.fetch().1;
    lemma_fetch_keeps_clock(s1, 0, zp);
    lemma_fetch_keeps_clock(s1, 0, byte_plus(zp, s1.cpu.x as int));
    let s2 = s.fetch_word().0;
    let ptr = s.fetch_word().1;
    lemma_read_keeps_clock(s2, ptr);
    let s3 = s2.read_byte(ptr).0;
    lemma_read_keeps_clock(s3, (ptr - 255) as u16);
    lemma_read_keeps_clock(s3, next_address(ptr));
}

proof fn lemma_interrupt_keeps_clock(s: SystemView, vector: u16)
    ensures
        s.same_clock(s.interrupt(vector)),
{
    reveal(SystemView::interrupt);
    lemma_stack_keeps_clock(s, 0, s.cpu.pc);
    let s1 = s.push_word(s.cpu.pc);
    lemma_stack_keeps_clock(s1, SystemView::pulled_status(s1.cpu.status), 0);
    let s2 = s1.push(SystemView::pulled_status(s1.cpu.status));
    let s3 = s2.with_cpu(Cpu { status: with_flag(s2.cpu.status, FLAG_INTERRUPT, true), ..s2.cpu });
    lemma_fetch_keeps_clock(s3, vector, 0);
}

proof fn lemma_control_keeps_clock(s: SystemView, i: Instruction)
    ensures
        s.same_clock(s.execute_control(i).0),
{
    reveal(SystemView::execute_control);
    lemma_resolve_keeps_clock(s, i.mode);
    let r = s.resolve(i.mode).0;
    lemma_stack_keeps_clock(r, 0, address_plus(r.cpu.pc, 0xFFFF));
    lemma_stack_keeps_clock(s, s.cpu.a, next_address(s.cpu.pc));
    lemma_stack_keeps_clock(s, s.pushed_status(), 0);
    // return from interrupt
    let popped = s.pop().0;
    let restored = popped.with_cpu(Cpu { status: SystemView::pulled_status(s.pop().1), ..popped.cpu });
    lemma_stack_keeps_clock(restored, 0, 0);
    // software interrupt
    let b1 = s.push_word(next_address(s.cpu.pc));
    lemma_stack_keeps_clock(b1, b1.pushed_status(), 0);
    let b2 = b1.push(b1.pushed_status());
    let b3 = b2.with_cpu(Cpu { status: with_flag(b2.cpu.status, FLAG_INTERRUPT, true), ..b2.cpu });
    lemma_fetch_keeps_clock(b3, IRQ_VECTOR, 0);
}

proof fn lemma_load_keeps_clock(s: SystemView, i: Instruction)
    ensures
        s.same_clock(s.execute_load(i).0),
{
    reveal(SystemView::execute_load);
    lemma_resolve_keeps_clock(s, i.mode);
    lemma_read_keeps_clock(s.resolve(i.mode).0, s.resolve(i.mode).1.addr);
}

proof fn lemma_store_keeps_clock(s: SystemView, i: Instruction)
    ensures
        s.same_clock(s.execute_store(i).0),
{
    reveal(SystemView::execute_store);
    lemma_resolve_keeps_clock(s, i.mode);
    let r = s.resolve(i.mode).0;
    let operand = s.resolve(i.mode).1;
    lemma_write_keeps_clock(r, operand.addr, r.cpu.spec_stored(i.op, operand.base));
}

proof fn lemma_modify_keeps_clock(s: SystemView, i: Instruction)
    ensures
        s.same_clock(s.execute_modify(i).0),
{
    reveal(SystemView::execute_modify);
    lemma_resolve_keeps_clock(s, i.mode);
    let r = s.resolve(i.mode).0;
    let operand = s.resolve(i.mode).1;
    lemma_read_keeps_clock(r, operand.addr);
    let value = r.read_byte(operand.addr).1;
    let r2 = r.read_byte(operand.addr).0;
    lemma_write_keeps_clock(r2, operand.addr, r2.cpu.spec_modified(i.op, value));
}

proof fn lemma_branch_keeps_clock(s: SystemView, i: Instruction)
    ensures
        s.same_clock(s.execute_branch(i).0),
{
    reveal(SystemView::execute_branch);
    lemma_resolve_keeps_clock(s, i.mode);
    lemma_read_keeps_clock(s.resolve(i.mode).0, s.resolve(i.mode).1.addr);
}

proof fn lemma_execute_keeps_clock(s: SystemView, i: Instruction)
    ensures
        s.same_clock(s.execute(i).0),
{
    reveal(SystemView::execute);
    lemma_load_keeps_clock(s, i);
    lemma_store_keeps_clock(s, i);
    lemma_modify_keeps_clock(s, i);
    lemma_branch_keeps_clock(s, i);
    lemma_control_keeps_clock(s, i);
}

/// Whatever the CPU does in a step, the picture unit stays at the dot it
/// was at: only ticks move its clock.
pub proof fn lemma_cpu_keeps_clock(s: SystemView)
    ensures
        s.same_clock(s.cpu_step().0),
{
    reveal(SystemView::cpu_step);
    lemma_fetch_keeps_clock(s, 0, 0);
    lemma_execute_keeps_clock(s.fetch().0, decode(s.fetch().1));
}

/// A tick of the console moves the picture unit's clock by exactly three
/// dots for every CPU cycle it reports, across at most one frame boundary.
pub proof fn lemma_step_moves_clock(s: SystemView)
    requires
        s.ppu.in_frame(),
    ensures
        s.step().0.ppu.in_frame(),
        1 <= s.step().1 <= 10 ==> {
            let moved = s.ppu.position() + 3 * s.step().1;
            if moved < dots_per_frame() {
                s.step().0.ppu.position() == moved && s.step().0.ppu.frame == s.ppu.frame
            } else {
                s.step().0.ppu.position() == moved - dots_per_frame() && s.step().0.ppu.frame
                    == s.ppu.next_frame()
            }
        },
{
    reveal(SystemView::step);
    reveal(SystemView::service_interrupts);
    lemma_cpu_keeps_clock(s);
    let (s1, c) = s.cpu_step();
    lemma_picture_ticks_frame(s1, 3 * c as nat);
    lemma_steps_cross_frame(s1.ppu, 3 * c as nat);
    let s2 = s1.picture_ticks(3 * c as nat);
    let s3 = SystemView { apu: s2.apu.spec_step_n(c as nat), ..s2 };
    let cleared = SystemView { ppu: PpuView { nmi_interrupt: false, ..s3.ppu }, ..s3 };
    lemma_interrupt_keeps_clock(cleared, NMI_VECTOR);
    lemma_interrupt_keeps_clock(s3, IRQ_VECTOR);
    lemma_interrupt_keeps_clock(cleared.interrupt(NMI_VECTOR), IRQ_VECTOR);
}

/// A frame run that answers `true` has completed exactly one frame: the
/// picture unit is in the frame after the one it started in, within the
/// first ticks of its first scanline. A run that answers `false` is still
/// in the frame it started in.
pub proof fn lemma_run_frame_completes(s: SystemView, start_frame: u64)
    requires
        s.ppu.in_frame(),
        s.ppu.frame == start_frame,
    ensures
        s.run_frame_from(start_frame).0.ppu.in_frame(),
        s.run_frame_from(start_frame).1 ==> s.run_frame_from(start_frame).0.ppu.frame
            == s.ppu.next_frame() && s.run_frame_from(start_frame).0.ppu.position() < 30,
        !s.run_frame_from(start_frame).1 ==> s.run_frame_from(start_frame).0.ppu.frame
            == start_frame,
    decreases
        (if s.cycles >= FRAME_CYCLES {
            0int
        } else {
            FRAME_CYCLES - s.cycles
        }),
{
    if s.cycles < FRAME_CYCLES {
        lemma_step_moves_clock(s);
        lemma_step_cycles(s);
        let (t, answer, c) = s.frame_step(start_frame);
        if answer is None {
            lemma_run_frame_completes(t, start_frame);
        }
    }
}

proof fn lemma_load_cycles(s: SystemView, i: Instruction)
    ensures
        i.cycles <= 8 ==> i.cycles <= s.execute_load(i).1 <= i.cycles + 2,
{
    reveal(SystemView::execute_load);
}

proof fn lemma_store_cycles(s: SystemView, i: Instruction)
    ensures
        s.execute_store(i).1 == i.cycles,
{
    reveal(SystemView::execute_store);
}

proof fn lemma_modify_cycles(s: SystemView, i: Instruction)
    ensures
        s.execute_modify(i).1 == i.cycles,
{
    reveal(SystemView::execute_modify);
}

proof fn lemma_branch_cycles(s: SystemView, i: Instruction)
    ensures
        i.cycles <= 8 ==> i.cycles <= s.execute_branch(i).1 <= i.cycles + 2,
{
    reveal(SystemView::execute_branch);
}

proof fn lemma_control_cycles(s: SystemView, i: Instruction)
    ensures
        s.execute_control(i).1 == i.cycles,
{
    reveal(SystemView::execute_control);
}

/// An instruction takes the cycles of its table row, and up to two more
/// for a page crossing or a branch taken.
pub proof fn lemma_execute_cycles(s: SystemView, i: Instruction)
    ensures
        i.cycles <= 8 ==> i.cycles <= s.execute(i).1 <= i.cycles + 2,
{
    reveal(SystemView::execute);
    lemma_load_cycles(s, i);
    lemma_store_cycles(s, i);
    lemma_modify_cycles(s, i);
    lemma_branch_cycles(s, i);
    lemma_control_cycles(s, i);
}

/// Every step of the CPU takes between one and ten cycles.
pub proof fn lemma_step_cycles(s: SystemView)
    ensures
        1 <= s.cpu_step().1 <= 10,
        s.step().1 == s.cpu_step().1,
{
    reveal(SystemView::step);
    reveal(SystemView::cpu_step);
    let opcode = s.fetch().1;
    lemma_decode_cycles(opcode);
    lemma_execute_cycles(s.fetch().0, decode(opcode));
}

} // verus!
