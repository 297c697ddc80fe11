use psx_core::channel::{Channel, Direction, Step, Sync};
use psx_core::dma::{Dma, Port};
use psx_core::error::Fatal;

#[test]
fn channel_starts_as_after_reset() {
    let c = Channel::new();
    assert!(!c.enable);
    assert!(!c.trigger);
    assert!(!c.chop);
    assert_eq!(c.direction, Direction::ToRam);
    assert_eq!(c.step, Step::Increment);
    assert_eq!(c.sync, Sync::Manual);
    assert_eq!(c.block_count, 16);
    assert_eq!(c.block_size, 0);
    assert_eq!(c.base(), 0);
    assert_eq!(c.control(), 0);
    assert_eq!(c.block_control(), 0x0010_0000);
}

#[test]
fn active_follows_the_truth_table() {
    for enable in [false, true] {
        for trigger in [false, true] {
            for sync in [Sync::Manual, Sync::Request, Sync::LinkedList] {
                let mut c = Channel::new();
                c.enable = enable;
                c.trigger = trigger;
                c.sync = sync;
                let expected = enable && (sync != Sync::Manual || trigger);
                assert_eq!(c.active(), expected);
            }
        }
    }
}

#[test]
fn control_packs_each_field_at_its_place() {
    let mut c = Channel::new();
    assert_eq!(c.set_control(0x0000_0001), Ok(()));
    assert_eq!(c.direction, Direction::FromRam);
    assert_eq!(c.set_control(0x0000_0002), Ok(()));
    assert_eq!(c.direction, Direction::ToRam);
    assert_eq!(c.step, Step::Decrement);
    assert_eq!(c.set_control(0x0000_0100), Ok(()));
    assert!(c.chop);
    assert_eq!(c.set_control(0x0000_0200), Ok(()));
    assert_eq!(c.sync, Sync::Request);
    assert_eq!(c.set_control(0x0000_0400), Ok(()));
    assert_eq!(c.sync, Sync::LinkedList);
    assert_eq!(c.set_control(0x0005_0000), Ok(()));
    assert_eq!(c.chop_dma_sz, 5);
    assert_eq!(c.set_control(0x0030_0000), Ok(()));
    assert_eq!(c.chop_cpu_sz, 3);
    assert_eq!(c.set_control(0x0100_0000), Ok(()));
    assert!(c.enable);
    assert_eq!(c.set_control(0x1000_0000), Ok(()));
    assert!(c.trigger);
    assert!(!c.enable);
    assert_eq!(c.set_control(0x6000_0000), Ok(()));
    assert_eq!(c.dummy, 3);
    assert_eq!(c.control(), 0x6000_0000);
}

#[test]
fn control_round_trips_on_the_bits_it_keeps() {
    let mut c = Channel::new();
    assert_eq!(c.set_control(0xffff_fbff), Ok(()));
    assert_eq!(c.control(), 0xffff_fbff & 0x7177_0703);
    let word = c.control();
    let before = c;
    assert_eq!(c.set_control(word), Ok(()));
    assert_eq!(c, before);
    assert_eq!(c.set_control(0x1100_0201), Ok(()));
    assert_eq!(c.control(), 0x1100_0201);
}

#[test]
fn reserved_sync_is_refused() {
    let mut c = Channel::new();
    assert_eq!(c.set_control(0x0100_0201), Ok(()));
    let before = c;
    assert_eq!(c.set_control(0x0000_0600), Err(Fatal::ReservedSync));
    assert_eq!(c, before);
}

#[test]
fn base_keeps_twenty_four_bits() {
    let mut c = Channel::new();
    c.set_base(0xff12_3456);
    assert_eq!(c.base(), 0x12_3456);
    c.set_base(0x00ff_ffff);
    assert_eq!(c.base(), 0xff_ffff);
}

#[test]
fn block_control_round_trips() {
    let mut c = Channel::new();
    c.set_block_control(0x1234_5678);
    assert_eq!(c.block_size, 0x5678);
    assert_eq!(c.block_count, 0x1234);
    assert_eq!(c.block_control(), 0x1234_5678);
}

#[test]
fn transfer_size_by_mode() {
    let mut c = Channel::new();
    c.set_block_control(0x0003_0010);
    assert_eq!(c.transfer_size(), Some(0x10));
    c.sync = Sync::Request;
    assert_eq!(c.transfer_size(), Some(0x30));
    c.sync = Sync::LinkedList;
    assert_eq!(c.transfer_size(), None);
    c.sync = Sync::Request;
    c.set_block_control(0xffff_ffff);
    assert_eq!(c.transfer_size(), Some(0xfffe_0001));
}

#[test]
fn done_clears_enable_and_trigger() {
    let mut c = Channel::new();
    assert_eq!(c.set_control(0x1100_0000), Ok(()));
    assert!(c.active());
    c.done();
    assert!(!c.enable);
    assert!(!c.trigger);
    assert!(!c.active());
    assert_eq!(c.control(), 0);
}

#[test]
fn dma_starts_as_after_reset() {
    let dma = Dma::new();
    assert_eq!(dma.control(), 0x0765_4321);
    assert_eq!(dma.interrupt(), 0);
    for index in 0..7 {
        let port = Port::from_index(index);
        assert_eq!(port.index(), index as usize);
        assert_eq!(*dma.channel(port), Channel::new());
    }
}

#[test]
fn port_numbers() {
    assert_eq!(Port::from_index(0), Port::MdecIn);
    assert_eq!(Port::from_index(1), Port::MdecOut);
    assert_eq!(Port::from_index(2), Port::Gpu);
    assert_eq!(Port::from_index(3), Port::CdRom);
    assert_eq!(Port::from_index(4), Port::Spu);
    assert_eq!(Port::from_index(5), Port::Pio);
    assert_eq!(Port::from_index(6), Port::Otc);
}

#[test]
fn interrupt_register_layout() {
    let mut dma = Dma::new();
    dma.set_interrupt(0x0000_003f);
    assert_eq!(dma.interrupt(), 0x0000_003f);
    dma.set_interrupt(0x0000_8000);
    // forcing the interrupt raises the line in bit 31
    assert_eq!(dma.interrupt(), 0x8000_8000);
    dma.set_interrupt(0x00ff_0000);
    assert_eq!(dma.interrupt(), 0x00ff_0000);
    // the flags are acknowledged by a write, never set by one
    dma.set_interrupt(0x7f00_0000);
    assert_eq!(dma.interrupt(), 0);
    // bits that no field keeps are dropped
    dma.set_interrupt(0x0000_7fc0);
    assert_eq!(dma.interrupt(), 0);
}

#[test]
fn channel_mut_changes_one_channel() {
    let mut dma = Dma::new();
    dma.channel_mut(Port::Otc).set_base(0x1000);
    assert_eq!(dma.channel(Port::Otc).base(), 0x1000);
    assert_eq!(dma.channel(Port::Gpu).base(), 0);
    dma.set_control(0x1234_5678);
    assert_eq!(dma.control(), 0x1234_5678);
}
