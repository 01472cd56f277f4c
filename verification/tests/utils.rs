use lc3_vm::utils::{imm5, offset6, pcoffset11, pcoffset9, register_at, sign_extend};

#[test]
fn test_sign_extend() {
    assert_eq!(sign_extend(0b0000_0000_0000_0001, 16), 0b0000_0000_0000_0001);
    assert_eq!(sign_extend(0b0000_0000_0000_0001, 4), 0b0000_0000_0000_0001);
}

#[test]
fn test_imm5() {
    assert_eq!(imm5(0b0000_0000_0000_0001), 0b0000_0000_0000_0001);
    assert_eq!(imm5(0b0000_0000_0001_0001), 0b1111_1111_1111_0001);
}

#[test]
fn test_offset6() {
    assert_eq!(offset6(0b0000_0000_0000_0001), 0b0000_0000_0000_0001);
    assert_eq!(offset6(0b0000_0000_0010_0001), 0b1111_1111_1110_0001);
}

#[test]
fn test_pcoffset9() {
    assert_eq!(pcoffset9(0b0000_0000_0000_0001), 0b0000_0000_0000_0001);
    assert_eq!(pcoffset9(0b0000_0001_0000_0001), 0b1111_1111_0000_0001);
}

#[test]
fn test_pcoffset11() {
    assert_eq!(pcoffset11(0b0000_0000_0000_0001), 0b0000_0000_0000_0001);
    assert_eq!(pcoffset11(0b0000_0100_0000_0001), 0b1111_1100_0000_0001);
}

#[test]
fn test_register_at() {
    assert_eq!(register_at(0b0000_1010_0000_0000, 9), 0b0000_0000_0000_0101);
}
