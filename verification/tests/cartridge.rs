use nes_emu::cartridge::mapper4::Mapper4;
use nes_emu::cartridge::mapper5::Mapper5;
use nes_emu::cartridge::mirror_vram_addr;
use nes_emu::cartridge::Cartridge;
use nes_emu::cartridge::Mirroring;
use nes_emu::cartridge::RomError;

/// An image whose program banks are filled with their own number and whose
/// character banks are filled with `0x80 + number`.
fn image(prg_banks: u8, chr_banks: u8, flags6: u8, flags7: u8, prg_ram: u8) -> Vec<u8> {
    let mut data = vec![0x4E, 0x45, 0x53, 0x1A, prg_banks, chr_banks, flags6, flags7, prg_ram];
    data.resize(16, 0);
    if flags6 & 0x04 != 0 {
        data.resize(16 + 512, 0xEE);
    }
    for bank in 0..prg_banks as usize {
        let start = data.len();
        data.resize(start + 0x4000, bank as u8);
    }
    for bank in 0..chr_banks as usize {
        let start = data.len();
        data.resize(start + 0x2000, 0x80 + bank as u8);
    }
    data
}

fn mmc1(prg_banks: u8) -> Cartridge {
    Cartridge::load_from_bytes(&image(prg_banks, 1, 0x10, 0x00, 0)).unwrap()
}

fn serial_write(cart: &mut Cartridge, addr: u16, bits: u8) {
    for i in 0..5 {
        cart.write_prg(addr, (bits >> i) & 1);
    }
}

#[test]
fn loader_rejects_short_file() {
    assert!(matches!(Cartridge::load_from_bytes(&[]), Err(RomError::TooSmall)));
    let fifteen = vec![0x4E, 0x45, 0x53, 0x1A, 0, 0, 0, 0, 0, 0, 0, 0, 0, 0, 0];
    assert!(matches!(Cartridge::load_from_bytes(&fifteen), Err(RomError::TooSmall)));
    assert_eq!(RomError::TooSmall.message(), "ROM file too small");
}

#[test]
fn loader_rejects_bad_magic() {
    let mut data = image(1, 1, 0, 0, 0);
    data[3] = 0x1B;
    assert!(matches!(Cartridge::load_from_bytes(&data), Err(RomError::InvalidHeader)));
    let mut data = image(1, 1, 0, 0, 0);
    data[0] = 0x4F;
    assert!(matches!(Cartridge::load_from_bytes(&data), Err(RomError::InvalidHeader)));
    assert_eq!(RomError::InvalidHeader.message(), "Invalid NES header");
}

#[test]
fn loader_rejects_truncated_payload() {
    let mut data = image(2, 1, 0, 0, 0);
    data.pop();
    assert!(matches!(Cartridge::load_from_bytes(&data), Err(RomError::Truncated)));
    // the trainer counts towards what the header promises
    let mut data = image(1, 1, 0x04, 0, 0);
    data.truncate(16 + 0x4000 + 0x2000);
    assert!(matches!(Cartridge::load_from_bytes(&data), Err(RomError::Truncated)));
    assert_eq!(RomError::Truncated.message(), "ROM file truncated");
}

#[test]
fn loader_rejects_unsupported_mapper() {
    for mapper in [2u8, 3, 6, 64, 66, 255] {
        let data = image(1, 1, (mapper & 0x0F) << 4, mapper & 0xF0, 0);
        assert!(matches!(Cartridge::load_from_bytes(&data), Err(RomError::UnsupportedMapper)));
    }
    for mapper in [0u8, 1, 4, 5, 65] {
        let data = image(1, 1, (mapper & 0x0F) << 4, mapper & 0xF0, 0);
        assert_eq!(Cartridge::load_from_bytes(&data).unwrap().mapper, mapper);
    }
    // the other checks come first
    let mut data = image(1, 1, 0x20, 0, 0);
    data.pop();
    assert!(matches!(Cartridge::load_from_bytes(&data), Err(RomError::Truncated)));
    data[0] = 0;
    assert!(matches!(Cartridge::load_from_bytes(&data), Err(RomError::InvalidHeader)));
    assert_eq!(RomError::UnsupportedMapper.message(), "Unsupported mapper");
}

#[test]
fn loader_accepts_header_only_image() {
    let data = image(0, 0, 0, 0, 0);
    assert_eq!(data.len(), 16);
    let cart = Cartridge::load_from_bytes(&data).unwrap();
    assert_eq!(cart.prg_rom.len(), 0);
    assert_eq!(cart.chr_rom.len(), 0x2000);
    assert!(cart.chr_is_ram);
    assert_eq!(cart.prg_ram.len(), 0x2000);
    assert_eq!(cart.read_prg(0x8000), 0);
}

#[test]
fn loader_reads_header_fields() {
    let cart = Cartridge::load_from_bytes(&image(2, 1, 0x13, 0x40, 2)).unwrap();
    assert_eq!(cart.prg_rom.len(), 0x8000);
    assert_eq!(cart.chr_rom.len(), 0x2000);
    assert!(!cart.chr_is_ram);
    assert_eq!(cart.mapper, 0x41);
    assert_eq!(cart._mirroring, Mirroring::Vertical);
    assert!(cart._battery_backed);
    assert_eq!(cart.prg_ram.len(), 0x4000);
    assert_eq!(cart.prg_rom[0], 0);
    assert_eq!(cart.prg_rom[0x4000], 1);
    assert_eq!(cart.chr_rom[0], 0x80);
}

#[test]
fn loader_mirroring_flags() {
    let h = Cartridge::load_from_bytes(&image(1, 1, 0x00, 0, 0)).unwrap();
    assert_eq!(h._mirroring, Mirroring::Horizontal);
    let v = Cartridge::load_from_bytes(&image(1, 1, 0x01, 0, 0)).unwrap();
    assert_eq!(v._mirroring, Mirroring::Vertical);
    let four = Cartridge::load_from_bytes(&image(1, 1, 0x09, 0, 0)).unwrap();
    assert_eq!(four._mirroring, Mirroring::FourScreen);
}

#[test]
fn loader_skips_trainer() {
    let cart = Cartridge::load_from_bytes(&image(1, 1, 0x04, 0, 0)).unwrap();
    assert_eq!(cart.prg_rom.len(), 0x4000);
    assert_eq!(cart.prg_rom[0], 0);
    assert_eq!(cart.chr_rom[0], 0x80);
}

#[test]
fn header_round_trip() {
    // every combination of the header fields comes back as it went in
    for &(mapper, mirror_bits, battery) in
        &[(0u8, 0u8, false), (1, 1, true), (4, 8, false), (65, 0, true), (5, 1, false)]
    {
        let flags6 = ((mapper & 0x0F) << 4) | mirror_bits | if battery { 2 } else { 0 };
        let flags7 = mapper & 0xF0;
        let data = image(3, 2, flags6, flags7, 4);
        let cart = Cartridge::load_from_bytes(&data).unwrap();
        assert_eq!(cart.mapper, mapper);
        assert_eq!(cart._battery_backed, battery);
        assert_eq!(cart.prg_rom.len(), 3 * 0x4000);
        assert_eq!(cart.chr_rom.len(), 2 * 0x2000);
        assert_eq!(cart.prg_ram.len(), 4 * 0x2000);
        let expected = match mirror_bits {
            8 => Mirroring::FourScreen,
            1 => Mirroring::Vertical,
            _ => Mirroring::Horizontal,
        };
        assert_eq!(cart._mirroring, expected);
        // writing the fields out again gives the same header
        let again = image(
            (cart.prg_rom.len() / 0x4000) as u8,
            (cart.chr_rom.len() / 0x2000) as u8,
            flags6,
            flags7,
            (cart.prg_ram.len() / 0x2000) as u8,
        );
        assert_eq!(again, data);
    }
}

#[test]
fn nrom_16k_is_mirrored() {
    let mut data = image(1, 1, 0, 0, 0);
    data[16 + 0x1234] = 0xAB;
    let cart = Cartridge::load_from_bytes(&data).unwrap();
    assert_eq!(cart.read_prg(0x9234), 0xAB);
    assert_eq!(cart.read_prg(0xD234), 0xAB);
    // offsets into the window name the same bytes as CPU addresses
    assert_eq!(cart.read_prg(0x1234), 0xAB);
    assert_eq!(cart.read_prg(0x5234), 0xAB);
}

#[test]
fn nrom_32k_is_direct() {
    let cart = Cartridge::load_from_bytes(&image(2, 1, 0, 0, 0)).unwrap();
    assert_eq!(cart.read_prg(0x8000), 0);
    assert_eq!(cart.read_prg(0xBFFF), 0);
    assert_eq!(cart.read_prg(0xC000), 1);
    assert_eq!(cart.read_prg(0xFFFF), 1);
}

#[test]
fn nrom_ignores_register_writes() {
    let mut cart = Cartridge::load_from_bytes(&image(2, 1, 0, 0, 0)).unwrap();
    cart.write_prg(0x8000, 0xFF);
    cart.write_prg(0xE000, 0x01);
    assert_eq!(cart.read_prg(0x8000), 0);
    assert_eq!(cart.read_prg(0xC000), 1);
}

#[test]
fn mmc1_bank_commit() {
    // 10101 written least significant bit first to $E000 selects bank 21
    let mut cart = mmc1(32);
    assert_eq!(cart.read_prg(0x8000), 0);
    for bit in [1u8, 0, 1, 0, 1] {
        cart.write_prg(0xE000, bit);
    }
    assert_eq!(cart.read_prg(0x8000), 21);
    assert_eq!(cart.read_prg(0xBFFF), 21);
    // the last bank stays fixed at $C000
    assert_eq!(cart.read_prg(0xC000), 31);

    // a smaller ROM wraps the bank number
    let mut small = mmc1(8);
    for bit in [1u8, 0, 1, 0, 1] {
        small.write_prg(0xE000, bit);
    }
    assert_eq!(small.read_prg(0x8000), 21 % 8);
    assert_eq!(small.read_prg(0xC000), 7);
}

#[test]
fn mmc1_five_writes_are_one_commit() {
    for bits in 0..32u8 {
        let mut serial = mmc1(16);
        let mut other = mmc1(16);
        // the addresses of the first four writes do not matter
        serial.write_prg(0x8000, bits & 1);
        serial.write_prg(0xA000, (bits >> 1) & 1);
        serial.write_prg(0xC000, (bits >> 2) & 1);
        serial.write_prg(0x8000, (bits >> 3) & 1);
        serial.write_prg(0xE000, (bits >> 4) & 1);
        serial_write(&mut other, 0xE000, bits);
        for addr in [0x8000u16, 0x9ABC, 0xC000, 0xFFFF] {
            assert_eq!(serial.read_prg(addr), other.read_prg(addr));
        }
        assert_eq!(serial.read_prg(0x8000), bits % 16);
    }
}

#[test]
fn mmc1_reset_write_clears_shift_register() {
    let mut cart = mmc1(16);
    // three stray bits, then a reset, then a full transfer
    cart.write_prg(0xE000, 1);
    cart.write_prg(0xE000, 1);
    cart.write_prg(0xE000, 1);
    cart.write_prg(0xE000, 0x80);
    serial_write(&mut cart, 0xE000, 3);
    assert_eq!(cart.read_prg(0x8000), 3);
    assert_eq!(cart.read_prg(0xC000), 15);
}

#[test]
fn mmc1_prg_modes() {
    let mut cart = mmc1(16);
    serial_write(&mut cart, 0xE000, 5);
    // mode 2: first bank fixed at $8000, switchable at $C000
    serial_write(&mut cart, 0x8000, 0x08);
    assert_eq!(cart.read_prg(0x8000), 0);
    assert_eq!(cart.read_prg(0xC000), 5);
    // mode 0: 32 KiB at once, low bit ignored
    serial_write(&mut cart, 0x8000, 0x00);
    assert_eq!(cart.read_prg(0x8000), 4);
    assert_eq!(cart.read_prg(0xC000), 5);
    // mode 3: switchable at $8000, last bank fixed at $C000
    serial_write(&mut cart, 0x8000, 0x0C);
    assert_eq!(cart.read_prg(0x8000), 5);
    assert_eq!(cart.read_prg(0xC000), 15);
}

#[test]
fn mmc1_chr_modes() {
    // 4 character banks of 8 KiB are 8 banks of 4 KiB
    let mut cart = Cartridge::load_from_bytes(&image(2, 4, 0x10, 0x00, 0)).unwrap();
    // 8 KiB mode, register 0 = 5 selects the pair 4/5
    serial_write(&mut cart, 0xA000, 5);
    assert_eq!(cart._read_chr(0x0000), 0x82);
    assert_eq!(cart._read_chr(0x1FFF), 0x82);
    // 4 KiB mode: two independent halves
    serial_write(&mut cart, 0x8000, 0x1C);
    serial_write(&mut cart, 0xC000, 2);
    assert_eq!(cart._read_chr(0x0000), 0x82);
    assert_eq!(cart._read_chr(0x1000), 0x81);
    // character ROM ignores writes
    cart._write_chr(0x0000, 0x11);
    assert_eq!(cart._read_chr(0x0000), 0x82);
}

#[test]
fn chr_ram_is_writable() {
    let mut cart = Cartridge::load_from_bytes(&image(1, 0, 0, 0, 0)).unwrap();
    assert_eq!(cart._read_chr(0x0123), 0);
    cart._write_chr(0x0123, 0x5A);
    assert_eq!(cart._read_chr(0x0123), 0x5A);
    // only the low 13 address bits take part
    assert_eq!(cart._read_chr(0x2123), 0x5A);
}

#[test]
fn chr_rom_is_read_only() {
    let mut cart = Cartridge::load_from_bytes(&image(1, 1, 0, 0, 0)).unwrap();
    cart._write_chr(0x0123, 0x5A);
    assert_eq!(cart._read_chr(0x0123), 0x80);
}

#[test]
fn mapper65_banks() {
    // 4 banks of 16 KiB are 8 banks of 8 KiB
    let mut data = image(4, 1, 0x10, 0x40, 0);
    for bank in 0..8usize {
        for i in 0..0x2000 {
            data[16 + bank * 0x2000 + i] = 0x10 + bank as u8;
        }
    }
    let mut cart = Cartridge::load_from_bytes(&data).unwrap();
    assert_eq!(cart.mapper, 65);
    assert_eq!(cart.read_prg(0x8000), 0x10);
    assert_eq!(cart.read_prg(0xA000), 0x11);
    assert_eq!(cart.read_prg(0xC000), 0x12);
    assert_eq!(cart.read_prg(0xE000), 0x17);
    cart.write_prg(0x8000, 5);
    cart.write_prg(0xA000, 6);
    cart.write_prg(0xC000, 12);
    assert_eq!(cart.read_prg(0x8000), 0x15);
    assert_eq!(cart.read_prg(0xA000), 0x16);
    assert_eq!(cart.read_prg(0xC000), 0x14);
    assert_eq!(cart.read_prg(0xFFFF), 0x17);
}

#[test]
fn other_mappers_show_last_32k() {
    // the loader gives no such cartridge; one put together by hand reads so
    let mut cart = Cartridge::load_from_bytes(&image(4, 1, 0x00, 0, 0)).unwrap();
    cart.mapper = 2;
    assert_eq!(cart.read_prg(0x8000), 2);
    assert_eq!(cart.read_prg(0xC000), 3);
    let mut small = Cartridge::load_from_bytes(&image(1, 1, 0x00, 0, 0)).unwrap();
    small.mapper = 2;
    assert_eq!(small.read_prg(0x8000), 0);
    assert_eq!(small.read_prg(0xC000), 0);
}

#[test]
fn prg_ram_reads_back() {
    let mut cart = Cartridge::load_from_bytes(&image(1, 1, 0x02, 0, 0)).unwrap();
    assert_eq!(cart.read_prg_ram(0x6000), 0);
    cart.write_prg_ram(0x6123, 0x77);
    assert_eq!(cart.read_prg_ram(0x6123), 0x77);
    assert_eq!(cart.read_prg_ram(0x6124), 0);
}

#[test]
fn nametable_mirroring() {
    // vertical: tables 0 and 2 share a page, 1 and 3 the other
    assert_eq!(mirror_vram_addr(Mirroring::Vertical, 0x2005), 0x2005);
    assert_eq!(mirror_vram_addr(Mirroring::Vertical, 0x2405), 0x2405);
    assert_eq!(mirror_vram_addr(Mirroring::Vertical, 0x2805), 0x2005);
    assert_eq!(mirror_vram_addr(Mirroring::Vertical, 0x2C05), 0x2405);
    // horizontal: tables 0 and 1 share a page, 2 and 3 the other
    assert_eq!(mirror_vram_addr(Mirroring::Horizontal, 0x2005), 0x2005);
    assert_eq!(mirror_vram_addr(Mirroring::Horizontal, 0x2405), 0x2005);
    assert_eq!(mirror_vram_addr(Mirroring::Horizontal, 0x2805), 0x2405);
    assert_eq!(mirror_vram_addr(Mirroring::Horizontal, 0x2C05), 0x2405);
    // four screens keep every table apart
    assert_eq!(mirror_vram_addr(Mirroring::FourScreen, 0x2C05), 0x2C05);
    assert_eq!(mirror_vram_addr(Mirroring::_SingleScreenLower, 0x2C05), 0x2005);
    assert_eq!(mirror_vram_addr(Mirroring::_SingleScreenUpper, 0x2005), 0x2405);
    // $3000 repeats $2000
    assert_eq!(mirror_vram_addr(Mirroring::Vertical, 0x3805), 0x2005);
    let cart = Cartridge::load_from_bytes(&image(1, 1, 0x01, 0, 0)).unwrap();
    assert_eq!(cart._mirror_vram_addr(0x2C05), 0x2405);
}

fn banked(len: usize, unit: usize) -> Vec<u8> {
    (0..len).map(|i| (i / unit) as u8).collect()
}

#[test]
fn mmc3_power_on_banks() {
    let m = Mapper4::new(banked(0x20000, 0x2000), banked(0x8000, 0x400));
    assert_eq!(m.read_prg(0x8000), 0);
    assert_eq!(m.read_prg(0xA000), 1);
    assert_eq!(m.read_prg(0xC000), 14);
    assert_eq!(m.read_prg(0xE000), 15);
    assert_eq!(m.read_prg(0xFFFF), 15);
    // nothing below work RAM
    assert_eq!(m.read_prg(0x0000), 0);
    assert_eq!(m.read_prg(0x5FFF), 0);
    assert_eq!(m.get_mirroring(), 0);
    assert!(!m.irq_pending);
}

#[test]
fn mmc3_last_bank_is_fixed() {
    let mut prg = banked(0x20000, 0x2000);
    let len = prg.len();
    // the vectors
    prg[len - 4] = 0x34;
    prg[len - 3] = 0x12;
    let mut m = Mapper4::new(prg, banked(0x8000, 0x400));
    for select in [0x00u8, 0x06, 0x07, 0x46, 0x47, 0xC6] {
        for bank in [0u8, 3, 15, 16, 255] {
            m.write_prg(0x8000, select);
            m.write_prg(0x8001, bank);
            assert_eq!(m.read_prg(0xE000), 15);
            assert_eq!(m.read_prg(0xFFFC), 0x34);
            assert_eq!(m.read_prg(0xFFFD), 0x12);
        }
    }
}

#[test]
fn mmc3_prg_banking() {
    let mut m = Mapper4::new(banked(0x20000, 0x2000), banked(0x8000, 0x400));
    // R6 = 5, R7 = 9
    m.write_prg(0x8000, 6);
    m.write_prg(0x8001, 5);
    m.write_prg(0x8000, 7);
    m.write_prg(0x8001, 9);
    assert_eq!(m.read_prg(0x8000), 5);
    assert_eq!(m.read_prg(0x9FFF), 5);
    assert_eq!(m.read_prg(0xA000), 9);
    assert_eq!(m.read_prg(0xC000), 14);
    assert_eq!(m.read_prg(0xE000), 15);
    // program mode 1 swaps the first and third slot
    m.write_prg(0x8000, 0x46);
    assert_eq!(m.read_prg(0x8000), 14);
    assert_eq!(m.read_prg(0xA000), 9);
    assert_eq!(m.read_prg(0xC000), 5);
    assert_eq!(m.read_prg(0xE000), 15);
    // bank numbers past the end wrap
    m.write_prg(0x8000, 0x07);
    m.write_prg(0x8001, 16 + 3);
    assert_eq!(m.read_prg(0xA000), 3);
    // the registers repeat through their 8 KiB range
    m.write_prg(0x9FFE, 0x06);
    m.write_prg(0x9FFF, 2);
    assert_eq!(m.read_prg(0x8000), 2);
}

#[test]
fn mmc3_chr_banking() {
    let mut m = Mapper4::new(banked(0x8000, 0x2000), banked(0x8000, 0x400));
    for (register, bank) in [(0u8, 8u8), (1, 10), (2, 20), (3, 21), (4, 22), (5, 23)] {
        m.write_prg(0x8000, register);
        m.write_prg(0x8001, bank);
    }
    let expected = [8u8, 9, 10, 11, 20, 21, 22, 23];
    for slot in 0..8u16 {
        assert_eq!(m.read_chr(slot * 0x400), expected[slot as usize]);
    }
    // character mode 1 swaps the halves
    m.write_prg(0x8000, 0x80);
    let swapped = [20u8, 21, 22, 23, 8, 9, 10, 11];
    for slot in 0..8u16 {
        assert_eq!(m.read_chr(slot * 0x400 + 0x3FF), swapped[slot as usize]);
    }
    // character ROM ignores writes
    m.write_chr(0x0000, 0xEE);
    assert_eq!(m.read_chr(0x0000), 20);
}

#[test]
fn mmc3_chr_ram() {
    let mut m = Mapper4::new(banked(0x8000, 0x2000), Vec::new());
    assert_eq!(m.read_chr(0x0010), 0);
    m.write_chr(0x0010, 0x42);
    assert_eq!(m.read_chr(0x0010), 0x42);
}

#[test]
fn mmc3_prg_ram_needs_enable() {
    let mut m = Mapper4::new(banked(0x8000, 0x2000), Vec::new());
    m.write_prg(0x6010, 0x55);
    assert_eq!(m.read_prg(0x6010), 0);
    m.write_prg(0xA001, 0x80);
    m.write_prg(0x6010, 0x55);
    assert_eq!(m.read_prg(0x6010), 0x55);
    assert_eq!(m.read_prg(0x7FFF), 0);
    m.write_prg(0xA000, 1);
    assert_eq!(m.get_mirroring(), 1);
    // writes below work RAM are ignored
    m.write_prg(0x4010, 0x99);
    m.write_prg(0x0000, 0x06);
    assert_eq!(m.read_prg(0x8000), 0);
}

#[test]
fn mmc3_scanline_counter() {
    let mut m = Mapper4::new(banked(0x8000, 0x2000), Vec::new());
    m.write_prg(0xC000, 3); // latch
    m.write_prg(0xC001, 0); // reload
    m.write_prg(0xE001, 0); // enable
    m.clock_scanline(); // counter = 3
    assert!(!m.irq_pending);
    m.clock_scanline(); // 2
    m.clock_scanline(); // 1
    assert!(!m.irq_pending);
    m.clock_scanline(); // 0
    assert!(m.irq_pending);
    // disabling acknowledges
    m.write_prg(0xE000, 0);
    assert!(!m.irq_pending);
    m.clock_scanline(); // reload to 3
    m.clock_scanline();
    m.clock_scanline();
    m.clock_scanline(); // 0, but disabled
    assert!(!m.irq_pending);
}

#[test]
fn mmc5_prg_modes() {
    let mut m = Mapper5::new(banked(0x20000, 0x2000), banked(0x8000, 0x400));
    // power-on: mode 3, last register on the last bank
    assert_eq!(m.read_prg(0xE000), 15);
    m.write_prg(0x5114, 2);
    m.write_prg(0x5115, 4);
    m.write_prg(0x5116, 6);
    m.write_prg(0x5117, 9);
    assert_eq!(m.read_prg(0x8000), 2);
    assert_eq!(m.read_prg(0xA000), 4);
    assert_eq!(m.read_prg(0xC000), 6);
    assert_eq!(m.read_prg(0xE000), 9);
    // mode 2: 16 + 8 + 8
    m.write_prg(0x5100, 2);
    assert_eq!(m.read_prg(0x8000), 4);
    assert_eq!(m.read_prg(0xA000), 5);
    assert_eq!(m.read_prg(0xC000), 6);
    assert_eq!(m.read_prg(0xE000), 9);
    // mode 1: 16 + 16
    m.write_prg(0x5100, 1);
    assert_eq!(m.read_prg(0x8000), 4);
    assert_eq!(m.read_prg(0xC000), 8);
    assert_eq!(m.read_prg(0xE000), 9);
    // mode 0: 32
    m.write_prg(0x5100, 0);
    assert_eq!(m.read_prg(0x8000), 8);
    assert_eq!(m.read_prg(0xE000), 11);
}

#[test]
fn mmc5_chr_modes() {
    let mut m = Mapper5::new(banked(0x8000, 0x2000), banked(0x10000, 0x400));
    // 1 KiB mode
    m.write_prg(0x5101, 3);
    for slot in 0..8u16 {
        m.write_prg(0x5120 + slot, 40 - slot as u8);
    }
    for slot in 0..8u16 {
        assert_eq!(m.read_chr(slot * 0x400), 40 - slot as u8);
    }
    // 8 KiB mode uses the first register
    m.write_prg(0x5101, 0);
    m.write_prg(0x5120, 3);
    assert_eq!(m.read_chr(0x0000), 24);
    assert_eq!(m.read_chr(0x1FFF), 31);
    // the upper bits extend bank numbers written afterwards
    m.write_prg(0x5101, 3);
    m.write_prg(0x5130, 1);
    m.write_prg(0x5120, 2);
    // bank 258 wraps in a ROM of 64 banks
    assert_eq!(m.read_chr(0x0000), (258 % 64) as u8);
}

#[test]
fn mmc5_multiplier() {
    let mut m = Mapper5::new(banked(0x8000, 0x2000), Vec::new());
    assert_eq!(m.get_multiplication_result(), 0);
    m.write_prg(0x5205, 255);
    m.write_prg(0x5206, 255);
    assert_eq!(m.get_multiplication_result(), 65025);
    m.write_prg(0x5205, 12);
    m.write_prg(0x5206, 11);
    assert_eq!(m.get_multiplication_result(), 132);
}

#[test]
fn mmc5_nametables() {
    let mut m = Mapper5::new(banked(0x8000, 0x2000), Vec::new());
    // table 0 console memory, 1 console memory, 2 on-board RAM, 3 fill
    m.write_prg(0x5105, 0b11_10_01_00);
    m.write_prg(0x5106, 0x77);
    m.write_prg(0x5107, 0x02);
    m.write_prg(0x5C05, 0x99);
    assert_eq!(m.read_nametable(0x2005), 0);
    assert_eq!(m.read_nametable(0x2405), 0);
    assert_eq!(m.read_nametable(0x2805), 0x99);
    assert_eq!(m.read_nametable(0x2C05), 0x77);
    assert_eq!(m.read_nametable(0x2FC0), 0x02);
    // on-board RAM is read-only in mode 3 and hidden from fetches in mode 2
    m.write_prg(0x5104, 3);
    m.write_prg(0x5C05, 0x11);
    assert_eq!(m.read_nametable(0x2805), 0);
    m.write_prg(0x5104, 0);
    assert_eq!(m.read_nametable(0x2805), 0x99);
}

#[test]
fn mmc5_scanline_interrupt() {
    let mut m = Mapper5::new(banked(0x8000, 0x2000), Vec::new());
    m.write_prg(0x5203, 2);
    m.write_prg(0x5204, 0x80);
    // nothing counts outside rendering
    m.clock_scanline();
    m.clock_scanline();
    m.clock_scanline();
    assert!(!m.get_irq_pending());
    m.notify_ppu_state(true);
    m.clock_scanline(); // counter 0 -> 1
    m.clock_scanline(); // 1 -> 2
    assert!(!m.get_irq_pending());
    m.clock_scanline(); // meets the target
    assert!(m.get_irq_pending());
    m.clear_irq();
    assert!(!m.get_irq_pending());
    m.notify_ppu_state(false);
    m.notify_ppu_state(true);
    m.clock_scanline();
    assert!(!m.get_irq_pending());
}
