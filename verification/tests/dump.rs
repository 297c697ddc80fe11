use psx_core::bios::Bios;
use psx_core::bus::Bus;
use psx_core::cpu::CPU;
use psx_core::dump::push_hex8;
use psx_core::dma::Port;
use psx_core::error::{Access, Fatal, Snapshot, Width};
use psx_core::ram::Ram;

#[test]
fn hex8_pads_to_eight_digits() {
    for v in [0u32, 1, 0xf, 0x10, 0x1234_5678, 0x9abc_def0, 0xffff_ffff, 0x0000_a00b] {
        let mut s = String::from("x");
        push_hex8(&mut s, v);
        assert_eq!(s, format!("x{:08x}", v));
    }
}

#[test]
fn dump_lists_the_registers() {
    let s = Snapshot {
        pc: 0xbfc0_0004,
        next_pc: 0xbfc0_0008,
        opcode: 0x3c01_0013,
        sr: 0x0040_0000,
        hi: 0x1,
        lo: 0xffff_fffe,
        current_pc: 0xbfc0_0000,
        cause: 0x8000_0030,
        epc: 0xbfbf_fffc,
        branch: true,
        delay_slot: false,
    };
    let expected = format!(
        "{{
    program_counter: {:08x},
    next_program_counter: {:08x},
    opcode: {:08x},
    status_register: {:08x},
    hi: {:08x},
    lo: {:08x},
    current_pc {:08x},
    cause: {:08x},
    epc: {:08x},
    branch: {},
    delay_slot: {}
}}",
        s.pc, s.next_pc, s.opcode, s.sr, s.hi, s.lo, s.current_pc, s.cause, s.epc, s.branch,
        s.delay_slot
    );
    assert_eq!(s.dump(), expected);
    assert!(s.dump().contains("program_counter: bfc00004,"));
    assert!(s.dump().ends_with("branch: true,\n    delay_slot: false\n}"));
}

#[test]
fn dump_of_a_fresh_processor() {
    let cpu = CPU::new(Bus::new(Bios::new(vec![0u8; 0x8_0000]).unwrap(), Ram::new()));
    let text = cpu.snapshot().dump();
    assert!(text.starts_with("{\n    program_counter: bfc00000,\n    next_program_counter: bfc00004,"));
}

#[test]
fn messages_name_what_failed() {
    assert_eq!(
        Fatal::UnhandledAccess { addr: 0x1f80_1000, width: Width::Byte, op: Access::Store }
            .message(),
        "unhandled store8 at address 1f801000"
    );
    assert_eq!(
        Fatal::UnhandledAccess { addr: 0x0020_0000, width: Width::Word, op: Access::Load }
            .message(),
        "unhandled load32 at address 00200000"
    );
    assert_eq!(
        Fatal::UnhandledAccess { addr: 0xbfc0_0000, width: Width::Half, op: Access::Load }
            .message(),
        "unhandled load16 at address bfc00000"
    );
    assert_eq!(
        Fatal::UnhandledDmaReg { offset: 0x2c, op: Access::Store }.message(),
        "unhandled DMA register store at offset 0000002c"
    );
    assert_eq!(Fatal::ReservedSync.message(), "Unknown DMA sync mode 3");
    assert_eq!(
        Fatal::UnhandledDest { port: Port::Spu }.message(),
        "Unhandled DMA destination port 4"
    );
    assert_eq!(
        Fatal::UnhandledSource { port: Port::MdecIn }.message(),
        "Unhandled DMA source port 0"
    );
    assert_eq!(
        Fatal::UnknownTransferSize.message(),
        "Couldn't figure out DMA block transfer size"
    );
    assert_eq!(
        Fatal::LinkedListPort { port: Port::Otc }.message(),
        "Attempted linked list DMA on port 6"
    );
    assert_eq!(
        Fatal::LinkedListDirection.message(),
        "Invalid DMA direction for linked list mode"
    );
    assert_eq!(Fatal::EndlessList.message(), "Linked list DMA runs in a circle");
    assert_eq!(
        Fatal::BadExpansion2Base { val: 0x1f00_0000 }.message(),
        "bad_expansion_2_base_address:_0x1f000000"
    );
    assert_eq!(
        Fatal::InvalidRfe { secondary: 1 }.message(),
        "Invalid cop0 instruction at rfe 00000001"
    );
    assert_eq!(
        Fatal::UnhandledCop0Read { reg: 15 }.message(),
        "Unhandled read from cop0r0000000f"
    );
    assert_eq!(
        Fatal::Cop0WriteRefused { reg: 5 }.message(),
        "Unhandled write to cop0 00000005"
    );
    assert_eq!(
        Fatal::UnhandledCop0Write { reg: 14 }.message(),
        "Unhandled cop0 register: 0000000e"
    );
}

#[test]
fn mem_control_guard_says_which_base_is_bad() {
    let mut bus = Bus::new(Bios::new(vec![0u8; 0x8_0000]).unwrap(), Ram::new());
    match bus.store32(0x1f80_1000, 0xdead_beef) {
        Err(fatal) => assert_eq!(fatal.message(), "bad_expansion_1_base_address:_0xdeadbeef"),
        Ok(()) => panic!("the guard let a bad base through"),
    }
    assert_eq!(bus.store32(0x1f80_1000, 0x1f00_0000), Ok(()));
}

#[test]
fn an_unhandled_instruction_is_reported_with_the_registers() {
    let mut image = vec![0u8; 0x8_0000];
    image[3] = 0xfc;
    let mut cpu = CPU::new(Bus::new(Bios::new(image).unwrap(), Ram::new()));
    let fatal = cpu.run_next_opcode().unwrap_err();
    let text = fatal.message();
    assert!(text.starts_with("Unhandled_opcode::fc000000, CPU state: {\n    program_counter: bfc00004,"));
    assert!(text.contains("\n    opcode: fc000000,\n"));
    assert!(text.contains("\n    current_pc bfc00000,\n"));
    assert_eq!(text, format!("Unhandled_opcode::fc000000, CPU state: {}", cpu.snapshot().dump()));
    let mut image = vec![0u8; 0x8_0000];
    image[3] = 0x40;
    image[2] = 0x40;
    let mut cpu = CPU::new(Bus::new(Bios::new(image).unwrap(), Ram::new()));
    let text = cpu.run_next_opcode().unwrap_err().message();
    assert!(text.starts_with("Unhandled cop0 instruction: 40400000\n CPU state: {"));
}
