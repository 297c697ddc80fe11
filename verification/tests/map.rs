use psx_core::bios::Bios;
use psx_core::map::{Range, Window};
use psx_core::ram::Ram;

#[test]
fn region_bits_are_masked() {
    assert_eq!(Range::mask_region(0x0000_1234), 0x0000_1234);
    assert_eq!(Range::mask_region(0x8000_1234), 0x0000_1234);
    assert_eq!(Range::mask_region(0xa000_1234), 0x0000_1234);
    assert_eq!(Range::mask_region(0xbfc0_0000), 0x1fc0_0000);
    assert_eq!(Range::mask_region(0x9fc0_0000), 0x1fc0_0000);
    assert_eq!(Range::mask_region(0xfffe_0130), 0xfffe_0130);
    assert_eq!(Range::mask_region(0x7fff_ffff), 0x7fff_ffff);
    assert_eq!(Range::mask_region(0xc000_0000), 0xc000_0000);
}

#[test]
fn contains_gives_the_offset() {
    let bios = Window::Bios.range();
    assert_eq!(bios, Range(0x1fc0_0000, 0x8_0000));
    assert_eq!(bios.contains(0xbfc0_0000), Some(0));
    assert_eq!(bios.contains(0xbfc7_ffff), Some(0x7_ffff));
    assert_eq!(bios.contains(0xbfc8_0000), None);
    assert_eq!(bios.contains(0xbfbf_ffff), None);
    assert_eq!(bios.contains(0x1fc0_0010), Some(0x10));
    assert_eq!(bios.contains(0x9fc0_0010), Some(0x10));
}

#[test]
fn contains_does_not_wrap() {
    let top = Range(0xffff_fff0, 0x100);
    assert_eq!(top.contains(0xffff_fff8), Some(8));
    assert_eq!(top.contains(0xffff_ffff), Some(0xf));
    assert_eq!(top.contains(0x0000_0000), None);
    assert_eq!(Range(5, 0).contains(5), None);
}

#[test]
fn the_windows_lie_where_the_map_says() {
    assert_eq!(Window::Ram.range(), Range(0x0000_0000, 0x20_0000));
    assert_eq!(Window::Expansion1.range(), Range(0x1f00_0000, 176));
    assert_eq!(Window::MemControl.range(), Range(0x1f80_1000, 36));
    assert_eq!(Window::RamSize.range(), Range(0x1f80_1060, 4));
    assert_eq!(Window::IrqControl.range(), Range(0x1f80_1070, 8));
    assert_eq!(Window::Dma.range(), Range(0x1f80_1080, 0x80));
    assert_eq!(Window::Timers.range(), Range(0x1f80_1100, 48));
    assert_eq!(Window::Spu.range(), Range(0x1f80_1c00, 640));
    assert_eq!(Window::Expansion2.range(), Range(0x1f80_2000, 66));
    assert_eq!(Window::Bios.range(), Range(0x1fc0_0000, 0x8_0000));
    assert_eq!(Window::CacheControl.range(), Range(0xfffe_0130, 4));
    assert_eq!(Window::Gpu.range(), Range(0x1f80_1810, 8));
}

#[test]
fn find_is_contains_of_the_window() {
    assert_eq!(Window::Ram.find(0xa01f_fffc), Some(0x1f_fffc));
    assert_eq!(Window::Ram.find(0x0020_0000), None);
    assert_eq!(Window::CacheControl.find(0xfffe_0130), Some(0));
    assert_eq!(Window::Dma.find(0x1f80_10f4), Some(0x74));
}

#[test]
fn ram_starts_filled_and_keeps_what_is_stored() {
    let mut ram = Ram::new();
    assert_eq!(ram.load8(0), 0xca);
    assert_eq!(ram.load8(0x1f_ffff), 0xca);
    assert_eq!(ram.load16(0x10), 0xcaca);
    assert_eq!(ram.load32(0x1f_fffc), 0xcaca_caca);
    ram.store32(0x100, 0x1234_5678);
    assert_eq!(ram.load32(0x100), 0x1234_5678);
    assert_eq!(ram.load8(0x100), 0x78);
    assert_eq!(ram.load8(0x101), 0x56);
    assert_eq!(ram.load8(0x102), 0x34);
    assert_eq!(ram.load8(0x103), 0x12);
    assert_eq!(ram.load16(0x102), 0x1234);
    assert_eq!(ram.load8(0xff), 0xca);
    assert_eq!(ram.load8(0x104), 0xca);
    ram.store16(0x102, 0xabcd);
    assert_eq!(ram.load32(0x100), 0xabcd_5678);
    ram.store8(0x100, 0xef);
    assert_eq!(ram.load32(0x100), 0xabcd_56ef);
    // an offset off a word boundary is read byte by byte all the same
    assert_eq!(ram.load32(0x101), 0xcaab_cd56);
}

#[test]
fn bios_takes_an_image_of_its_size_only() {
    assert!(Bios::new(vec![0u8; 0x8_0000]).is_some());
    assert!(Bios::new(vec![0u8; 0x8_0000 - 1]).is_none());
    assert!(Bios::new(vec![0u8; 0x8_0000 + 1]).is_none());
    assert!(Bios::new(Vec::new()).is_none());
}

#[test]
fn bios_reads_little_endian() {
    let mut image = vec![0u8; 0x8_0000];
    image[0] = 0x13;
    image[1] = 0x00;
    image[2] = 0x01;
    image[3] = 0x3c;
    image[0x7_ffff] = 0x99;
    let bios = Bios::new(image).unwrap();
    assert_eq!(bios.load32(0), 0x3c01_0013);
    assert_eq!(bios.load16(2), 0x3c01);
    assert_eq!(bios.load8(3), 0x3c);
    assert_eq!(bios.load8(0x7_ffff), 0x99);
    assert_eq!(bios.load32(0x7_fffc), 0x9900_0000);
}
