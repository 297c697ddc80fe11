use psx_core::bios::Bios;
use psx_core::bus::Bus;
use psx_core::dma::Port;
use psx_core::error::{Access, Fatal, Width};
use psx_core::ram::Ram;

fn bus_with(image: Vec<u8>) -> Bus {
    Bus::new(Bios::new(image).unwrap(), Ram::new())
}

fn bus() -> Bus {
    bus_with(vec![0u8; 0x8_0000])
}

const DMA: u32 = 0x1f80_1080;

#[test]
fn load8_routes() {
    let mut image = vec![0u8; 0x8_0000];
    image[5] = 0x42;
    let mut b = bus_with(image);
    assert_eq!(b.load8(0x0000_0003), Ok(0xca));
    assert_eq!(b.load8(0xbfc0_0005), Ok(0x42));
    assert_eq!(b.load8(0x1f00_0000), Ok(0xff));
    assert_eq!(b.load8(0x1f00_00af), Ok(0xff));
    assert_eq!(
        b.load8(0x1f00_00b0),
        Err(Fatal::UnhandledAccess { addr: 0x1f00_00b0, width: Width::Byte, op: Access::Load })
    );
    assert_eq!(b.store8(0x8000_0003, 0x77), Ok(()));
    assert_eq!(b.load8(0xa000_0003), Ok(0x77));
}

#[test]
fn load16_routes() {
    let mut b = bus();
    assert_eq!(b.load16(0x1f80_1c00), Ok(0));
    assert_eq!(b.load16(0x1f80_1070), Ok(0));
    assert_eq!(b.load16(0x0000_0100), Ok(0xcaca));
    assert_eq!(b.store16(0x0000_0100, 0x1234), Ok(()));
    assert_eq!(b.load16(0x8000_0100), Ok(0x1234));
    assert_eq!(b.load8(0x0000_0100), Ok(0x34));
    assert_eq!(
        b.load16(0xbfc0_0000),
        Err(Fatal::UnhandledAccess { addr: 0xbfc0_0000, width: Width::Half, op: Access::Load })
    );
}

#[test]
fn load32_routes() {
    let mut image = vec![0u8; 0x8_0000];
    image[0x7_fffc] = 0x78;
    image[0x7_fffd] = 0x56;
    image[0x7_fffe] = 0x34;
    image[0x7_ffff] = 0x12;
    let b = bus_with(image);
    assert_eq!(b.load32(0x0000_0000), Ok(0xcaca_caca));
    assert_eq!(b.load32(0x001f_fffc), Ok(0xcaca_caca));
    assert_eq!(b.load32(0xbfc7_fffc), Ok(0x1234_5678));
    assert_eq!(b.load32(0x1f80_1074), Ok(0));
    assert_eq!(b.load32(0x1f80_1810), Ok(0));
    assert_eq!(b.load32(0x1f80_1814), Ok(0x1c00_0000));
    assert_eq!(b.load32(0x1f80_1100), Ok(0));
    assert_eq!(
        b.load32(0x0020_0000),
        Err(Fatal::UnhandledAccess { addr: 0x0020_0000, width: Width::Word, op: Access::Load })
    );
}

#[test]
fn the_three_segments_show_one_memory() {
    let mut b = bus();
    assert_eq!(b.store32(0x0000_1000, 0x1111_2222), Ok(()));
    assert_eq!(b.load32(0x8000_1000), Ok(0x1111_2222));
    assert_eq!(b.load32(0xa000_1000), Ok(0x1111_2222));
    assert_eq!(b.store32(0xa000_1000, 0x3333_4444), Ok(()));
    assert_eq!(b.load32(0x0000_1000), Ok(0x3333_4444));
    assert_eq!(b.load32(0x1fc0_0000), b.load32(0xbfc0_0000));
    assert_eq!(b.load32(0x9fc0_0000), b.load32(0xbfc0_0000));
    assert_eq!(b.load32(0x9f80_1814), Ok(0x1c00_0000));
}

#[test]
fn store8_and_store16_routes() {
    let mut b = bus();
    assert_eq!(b.store8(0x1f80_2041, 0x12), Ok(()));
    assert_eq!(
        b.store8(0x1f80_1000, 0x12),
        Err(Fatal::UnhandledAccess { addr: 0x1f80_1000, width: Width::Byte, op: Access::Store })
    );
    assert_eq!(b.store16(0x1f80_1c00, 1), Ok(()));
    assert_eq!(b.store16(0x1f80_1100, 1), Ok(()));
    assert_eq!(b.store16(0x1f80_1070, 1), Ok(()));
    assert_eq!(
        b.store16(0xbfc0_0000, 1),
        Err(Fatal::UnhandledAccess { addr: 0xbfc0_0000, width: Width::Half, op: Access::Store })
    );
}

#[test]
fn store32_routes() {
    let mut b = bus();
    assert_eq!(b.store32(0x1f80_1060, 0x0b88), Ok(()));
    assert_eq!(b.store32(0xfffe_0130, 0x0001_e988), Ok(()));
    assert_eq!(b.store32(0x1f80_1074, 0), Ok(()));
    assert_eq!(b.store32(0x1f80_1810, 0), Ok(()));
    assert_eq!(b.store32(0x1f80_1100, 0), Ok(()));
    assert_eq!(b.store32(0x1f80_1008, 0x0013_243f), Ok(()));
    assert_eq!(
        b.store32(0xbfc0_0000, 0),
        Err(Fatal::UnhandledAccess { addr: 0xbfc0_0000, width: Width::Word, op: Access::Store })
    );
    assert_eq!(b.load32(0), Ok(0xcaca_caca));
}

#[test]
fn mem_control_guards_the_expansion_bases() {
    let mut b = bus();
    assert_eq!(
        b.store32(0x1f80_1000, 0xdead_beef),
        Err(Fatal::BadExpansion1Base { val: 0xdead_beef })
    );
    assert_eq!(b.store32(0x1f80_1000, 0x1f00_0000), Ok(()));
    assert_eq!(
        b.store32(0x1f80_1004, 0x1f00_0000),
        Err(Fatal::BadExpansion2Base { val: 0x1f00_0000 })
    );
    assert_eq!(b.store32(0x1f80_1004, 0x1f80_2000), Ok(()));
}

#[test]
fn dma_registers_read() {
    let b = bus();
    assert_eq!(b.load32(DMA + 0x70), Ok(0x0765_4321));
    assert_eq!(b.load32(DMA + 0x74), Ok(0));
    for channel in 0..7 {
        assert_eq!(b.load32(DMA + channel * 0x10 + 8), Ok(0));
        assert_eq!(
            b.load32(DMA + channel * 0x10),
            Err(Fatal::UnhandledDmaReg { offset: channel * 0x10, op: Access::Load })
        );
    }
    assert_eq!(
        b.load32(DMA + 0x78),
        Err(Fatal::UnhandledDmaReg { offset: 0x78, op: Access::Load })
    );
}

#[test]
fn dma_registers_write() {
    let mut b = bus();
    assert_eq!(b.store32(DMA + 0x70, 0x1234_5678), Ok(()));
    assert_eq!(b.load32(DMA + 0x70), Ok(0x1234_5678));
    assert_eq!(b.store32(DMA + 0x74, 0x00ff_803f), Ok(()));
    assert_eq!(b.load32(DMA + 0x74), Ok(0x80ff_803f));
    assert_eq!(b.store32(DMA + 0x20, 0xff00_1000), Ok(()));
    assert_eq!(b.dma().channel(Port::Gpu).base(), 0x1000);
    assert_eq!(b.store32(DMA + 0x24, 0x0002_0008), Ok(()));
    assert_eq!(b.dma().channel(Port::Gpu).block_control(), 0x0002_0008);
    assert_eq!(b.store32(DMA + 0x28, 0x0000_0201), Ok(()));
    assert_eq!(b.load32(DMA + 0x28), Ok(0x0000_0201));
    assert_eq!(b.store32(DMA + 0x28, 0x0000_0600), Err(Fatal::ReservedSync));
    assert_eq!(b.load32(DMA + 0x28), Ok(0x0000_0201));
    assert_eq!(
        b.store32(DMA + 0x2c, 0),
        Err(Fatal::UnhandledDmaReg { offset: 0x2c, op: Access::Store })
    );
    assert_eq!(
        b.store32(DMA + 0x7c, 0),
        Err(Fatal::UnhandledDmaReg { offset: 0x7c, op: Access::Store })
    );
}

#[test]
fn otc_clears_an_ordering_table() {
    let mut b = bus();
    assert_eq!(b.store32(DMA + 0x60, 0x0000_1000), Ok(()));
    assert_eq!(b.store32(DMA + 0x64, 0x0001_0004), Ok(()));
    // manual, towards memory, counting down, enabled and triggered
    assert_eq!(b.store32(DMA + 0x68, 0x1100_0002), Ok(()));
    assert_eq!(b.load32(0x1000), Ok(0x0000_0ffc));
    assert_eq!(b.load32(0x0ffc), Ok(0x0000_0ff8));
    assert_eq!(b.load32(0x0ff8), Ok(0x0000_0ff4));
    assert_eq!(b.load32(0x0ff4), Ok(0x00ff_ffff));
    assert_eq!(b.load32(0x0ff0), Ok(0xcaca_caca));
    assert_eq!(b.load32(0x1004), Ok(0xcaca_caca));
    let channel = *b.dma().channel(Port::Otc);
    assert!(!channel.enable);
    assert!(!channel.trigger);
    assert!(!channel.active());
    assert_eq!(b.load32(DMA + 0x68), Ok(0x0000_0002));
}

#[test]
fn otc_counting_up() {
    let mut b = bus();
    assert_eq!(b.store32(DMA + 0x60, 0x0000_1000), Ok(()));
    assert_eq!(b.store32(DMA + 0x64, 0x0001_0004), Ok(()));
    assert_eq!(b.store32(DMA + 0x68, 0x1100_0000), Ok(()));
    assert_eq!(b.load32(0x1000), Ok(0x0000_0ffc));
    assert_eq!(b.load32(0x1004), Ok(0x0000_1000));
    assert_eq!(b.load32(0x1008), Ok(0x0000_1004));
    assert_eq!(b.load32(0x100c), Ok(0x00ff_ffff));
    assert_eq!(b.load32(0x1010), Ok(0xcaca_caca));
    assert!(!b.dma().channel(Port::Otc).enable);
}

#[test]
fn otc_wraps_around_memory() {
    let mut b = bus();
    assert_eq!(b.store32(DMA + 0x60, 0x0000_0004), Ok(()));
    assert_eq!(b.store32(DMA + 0x64, 0x0001_0003), Ok(()));
    assert_eq!(b.store32(DMA + 0x68, 0x1100_0002), Ok(()));
    assert_eq!(b.load32(0x0004), Ok(0x0000_0000));
    assert_eq!(b.load32(0x0000), Ok(0x001f_fffc));
    assert_eq!(b.load32(0x001f_fffc), Ok(0x00ff_ffff));
}

#[test]
fn a_channel_that_is_not_due_does_not_run() {
    let mut b = bus();
    assert_eq!(b.store32(DMA + 0x60, 0x0000_1000), Ok(()));
    assert_eq!(b.store32(DMA + 0x64, 0x0001_0004), Ok(()));
    // enabled but not triggered, manual
    assert_eq!(b.store32(DMA + 0x68, 0x0100_0002), Ok(()));
    assert_eq!(b.load32(0x1000), Ok(0xcaca_caca));
    assert!(b.dma().channel(Port::Otc).enable);
    // any register write of a due channel runs it: here the base
    assert_eq!(b.store32(DMA + 0x68, 0x1100_0002), Ok(()));
    assert_eq!(b.load32(0x1000), Ok(0x0000_0ffc));
}

#[test]
fn block_transfer_to_the_gpu() {
    let mut b = bus();
    assert_eq!(b.store32(0x2000, 0xaaaa_0001), Ok(()));
    assert_eq!(b.store32(0x2004, 0xaaaa_0002), Ok(()));
    assert_eq!(b.store32(0x2008, 0xaaaa_0003), Ok(()));
    assert_eq!(b.store32(0x200c, 0xaaaa_0004), Ok(()));
    assert_eq!(b.store32(DMA + 0x20, 0x0000_2000), Ok(()));
    // two blocks of two words, on request, from memory
    assert_eq!(b.store32(DMA + 0x24, 0x0002_0002), Ok(()));
    assert_eq!(b.store32(DMA + 0x28, 0x0100_0201), Ok(()));
    assert_eq!(
        b.gpu_words(),
        &vec![0xaaaa_0001, 0xaaaa_0002, 0xaaaa_0003, 0xaaaa_0004]
    );
    assert!(!b.dma().channel(Port::Gpu).enable);
    let taken = b.take_gpu_words();
    assert_eq!(taken.len(), 4);
    assert!(b.gpu_words().is_empty());
}

#[test]
fn block_transfer_on_a_port_without_a_device() {
    let mut b = bus();
    assert_eq!(b.store32(DMA + 0x44, 0x0001_0002), Ok(()));
    assert_eq!(
        b.store32(DMA + 0x48, 0x1100_0001),
        Err(Fatal::UnhandledDest { port: Port::Spu })
    );
    assert_eq!(
        b.store32(DMA + 0x48, 0x1100_0000),
        Err(Fatal::UnhandledSource { port: Port::Spu })
    );
    // the channel keeps what was written, and stays due
    assert!(b.dma().channel(Port::Spu).active());
    // a transfer of no words asks nothing of the port
    let mut b = bus();
    assert_eq!(b.store32(DMA + 0x44, 0x0001_0000), Ok(()));
    assert_eq!(b.store32(DMA + 0x48, 0x1100_0001), Ok(()));
    assert!(!b.dma().channel(Port::Spu).enable);
}

#[test]
fn linked_list_to_the_gpu() {
    let mut b = bus();
    // a packet of two words at 0x100, then one of none at 0x200, then the
    // last, of one word, at 0x300
    assert_eq!(b.store32(0x100, 0x0200_0200), Ok(()));
    assert_eq!(b.store32(0x104, 0x1111_1111), Ok(()));
    assert_eq!(b.store32(0x108, 0x2222_2222), Ok(()));
    assert_eq!(b.store32(0x200, 0x0000_0300), Ok(()));
    assert_eq!(b.store32(0x300, 0x01ff_ffff), Ok(()));
    assert_eq!(b.store32(0x304, 0x3333_3333), Ok(()));
    assert_eq!(b.store32(DMA + 0x20, 0x0000_0100), Ok(()));
    assert_eq!(b.store32(DMA + 0x28, 0x0100_0401), Ok(()));
    assert_eq!(b.gpu_words(), &vec![0x1111_1111, 0x2222_2222, 0x3333_3333]);
    assert!(!b.dma().channel(Port::Gpu).enable);
}

#[test]
fn linked_list_refusals() {
    let mut b = bus();
    assert_eq!(
        b.store32(DMA + 0x68, 0x0100_0401),
        Err(Fatal::LinkedListPort { port: Port::Otc })
    );
    assert_eq!(b.store32(DMA + 0x28, 0x0100_0400), Err(Fatal::LinkedListDirection));
}

#[test]
fn linked_list_in_a_circle() {
    let mut b = bus();
    // a packet of no words that points at itself
    assert_eq!(b.store32(0x100, 0x0000_0100), Ok(()));
    assert_eq!(b.store32(DMA + 0x20, 0x0000_0100), Ok(()));
    assert_eq!(b.store32(DMA + 0x28, 0x0100_0401), Err(Fatal::EndlessList));
    assert!(b.gpu_words().is_empty());
    assert!(b.dma().channel(Port::Gpu).enable);
}
