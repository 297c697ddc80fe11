use psx_core::opcode;
use psx_core::opcode::OpcodeRange;

#[test]
pub fn primary() {
    let opcode = 0b_111111_01011101110101101001011010;
    let result = opcode::primary().get(opcode);
    println!("{:032b}", result);
    assert_eq!(result, 0b111111);
}

#[test]
pub fn rt() {
    let opcode = 0b10110101010_11111_0101101011101110;
    let result = opcode::rt().get(opcode);
    assert_eq!(result, 0b11111);
}

#[test]
pub fn imm() {
    let opcode = 0b0101101010101010_1111111111111111_;
    let result = opcode::imm().get(opcode);
    assert_eq!(result, 0b11111111_11111111);
}

#[test]
pub fn rs() {
    let opcode = 0b101100_11111_011010101011110101110;
    let result = opcode::rs().get(opcode);
    assert_eq!(result, 0b11111);
}

#[test]
fn opcode_range_takes_only_ranges_of_a_word() {
    assert!(OpcodeRange::new(31, 0).is_some());
    assert!(OpcodeRange::new(7, 7).is_some());
    assert!(OpcodeRange::new(3, 4).is_none());
    assert!(OpcodeRange::new(32, 0).is_none());
}

#[test]
fn opcode_range_gets_any_range() {
    let whole = OpcodeRange::new(31, 0).unwrap();
    assert_eq!(whole.get(0xdead_beef), 0xdead_beef);
    let one = OpcodeRange::new(31, 31).unwrap();
    assert_eq!(one.get(0x8000_0000), 1);
    assert_eq!(one.get(0x7fff_ffff), 0);
    let mid = OpcodeRange::new(15, 8).unwrap();
    assert_eq!(mid.get(0x0012_3456), 0x34);
}
