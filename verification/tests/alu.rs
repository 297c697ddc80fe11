use psx_core::alu::{
    add_checked, add_wrapping, div, divu, extend16, extend8, lt_signed, mult, multu, sra,
    sub_checked, sub_wrapping,
};

#[test]
fn wrapping_arithmetic() {
    assert_eq!(add_wrapping(0xffff_ffff, 1), 0);
    assert_eq!(add_wrapping(0x7fff_ffff, 1), 0x8000_0000);
    assert_eq!(sub_wrapping(0, 1), 0xffff_ffff);
    assert_eq!(sub_wrapping(5, 3), 2);
}

#[test]
fn trapping_arithmetic() {
    assert_eq!(add_checked(0x7fff_ffff, 1), None);
    assert_eq!(add_checked(0x7fff_fffe, 1), Some(0x7fff_ffff));
    assert_eq!(add_checked(0x8000_0000, 0xffff_ffff), None);
    assert_eq!(add_checked(0xffff_ffff, 1), Some(0));
    assert_eq!(add_checked(0xffff_fffe, 0xffff_ffff), Some(0xffff_fffd));
    assert_eq!(sub_checked(0x8000_0000, 1), None);
    assert_eq!(sub_checked(0, 0x8000_0000), None);
    assert_eq!(sub_checked(0, 1), Some(0xffff_ffff));
    assert_eq!(sub_checked(0x7fff_ffff, 0xffff_ffff), None);
}

#[test]
fn signed_comparison_and_shift() {
    assert!(lt_signed(0xffff_ffff, 0));
    assert!(!lt_signed(0, 0xffff_ffff));
    assert!(lt_signed(0x8000_0000, 0x7fff_ffff));
    assert!(!lt_signed(3, 3));
    assert_eq!(sra(0x8000_0000, 4), 0xf800_0000);
    assert_eq!(sra(0x4000_0000, 4), 0x0400_0000);
    assert_eq!(sra(0xffff_ffff, 31), 0xffff_ffff);
    assert_eq!(sra(0x1234_5678, 0), 0x1234_5678);
}

#[test]
fn sign_extension() {
    assert_eq!(extend8(0x7f), 0x7f);
    assert_eq!(extend8(0x80), 0xffff_ff80);
    assert_eq!(extend16(0x7fff), 0x7fff);
    assert_eq!(extend16(0x8000), 0xffff_8000);
}

#[test]
fn multiplication() {
    assert_eq!(mult(0xffff_ffff, 0xffff_ffff), (0, 1));
    assert_eq!(mult(0xffff_ffff, 2), (0xffff_ffff, 0xffff_fffe));
    assert_eq!(mult(0x8000_0000, 0x8000_0000), (0x4000_0000, 0));
    assert_eq!(mult(0x7fff_ffff, 0x7fff_ffff), (0x3fff_ffff, 1));
    assert_eq!(multu(0xffff_ffff, 0xffff_ffff), (0xffff_fffe, 1));
    assert_eq!(multu(0xffff_ffff, 2), (1, 0xffff_fffe));
    assert_eq!(multu(0x1_0000, 0x1_0000), (1, 0));
}

#[test]
fn unsigned_division() {
    assert_eq!(divu(7, 2), (1, 3));
    assert_eq!(divu(0xffff_ffff, 0x10), (0xf, 0x0fff_ffff));
    assert_eq!(divu(7, 0), (7, 0xffff_ffff));
    assert_eq!(divu(0, 0), (0, 0xffff_ffff));
}

#[test]
fn signed_division() {
    assert_eq!(div(7, 2), (1, 3));
    // -7 / 2 = -3 rest -1
    assert_eq!(div(0xffff_fff9, 2), (0xffff_ffff, 0xffff_fffd));
    // 7 / -2 = -3 rest 1
    assert_eq!(div(7, 0xffff_fffe), (1, 0xffff_fffd));
    // -7 / -2 = 3 rest -1
    assert_eq!(div(0xffff_fff9, 0xffff_fffe), (0xffff_ffff, 3));
    assert_eq!(div(0x8000_0000, 1), (0, 0x8000_0000));
    assert_eq!(div(0x8000_0000, 2), (0, 0xc000_0000));
}

#[test]
fn signed_division_edges() {
    assert_eq!(div(7, 0), (7, 1));
    assert_eq!(div(0, 0), (0, 1));
    assert_eq!(div(0xffff_fff9, 0), (0xffff_fff9, 0xffff_ffff));
    assert_eq!(div(0x8000_0000, 0xffff_ffff), (0, 0x8000_0000));
}
