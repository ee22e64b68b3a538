use chonkpu_emu::asr1;
use chonkpu_emu::decode;
use chonkpu_emu::sign_extend4;

#[test]
fn sign_extend4_edges() {
    assert_eq!(sign_extend4(0x0), 0x00);
    assert_eq!(sign_extend4(0x7), 0x07);
    assert_eq!(sign_extend4(0x8), 0xF8);
    assert_eq!(sign_extend4(0xF), 0xFF);
}

#[test]
fn asr1_exact_bytes() {
    // 0x7F + 0x01 wraps to 0x80; halved sign-preservingly that is 0xC0.
    assert_eq!(asr1(0x80), 0xC0);
    assert_eq!(asr1(0x7F), 0x3F);
    assert_eq!(asr1(0xFF), 0xFF);
    assert_eq!(asr1(0x01), 0x00);
    assert_eq!(asr1(0x00), 0x00);
    assert_eq!(asr1(0xC0), 0xE0);
}

#[test]
fn decode_add_immediate() {
    let d = decode(0x0A15);
    assert_eq!(d.op, 0xA);
    assert_eq!(d.r1, 1);
    assert_eq!(d.r2, 15);
    assert_eq!(d.imm, 5);
    assert!(d.read_r1);
    assert!(d.write);
}

#[test]
fn decode_register_form() {
    let d = decode(0x0812);
    assert_eq!(d.op, 0x8);
    assert_eq!(d.r1, 1);
    assert_eq!(d.r2, 2);
    assert_eq!(d.imm, 0);
    assert!(d.read_r1);
    assert!(d.write);
}

#[test]
fn decode_store_has_no_write_back() {
    let d = decode(0x0112);
    assert_eq!(d.op, 0x1);
    assert!(d.read_r1);
    assert!(!d.write);
}

#[test]
fn decode_jump_relative() {
    let d = decode(0x0704);
    assert_eq!(d.op, 0x7);
    assert_eq!(d.r2, 15);
    assert_eq!(d.imm, 4);
    assert!(!d.read_r1);
    assert!(!d.write);
}

#[test]
fn decode_negative_immediate() {
    let d = decode(0x0A18);
    assert_eq!(d.imm, 0xF8);
}

#[test]
fn decode_only_low_opcode_nibble_matters() {
    let a = decode(0xFA15);
    let b = decode(0x0A15);
    assert_eq!(a.op, b.op);
    assert_eq!(a.r1, b.r1);
    assert_eq!(a.r2, b.r2);
    assert_eq!(a.imm, b.imm);
    assert_eq!(a.read_r1, b.read_r1);
    assert_eq!(a.write, b.write);
}

#[test]
fn decode_is_deterministic() {
    let a = decode(0x1234);
    let b = decode(0x1234);
    assert_eq!(a.op, b.op);
    assert_eq!(a.r1, b.r1);
    assert_eq!(a.r2, b.r2);
    assert_eq!(a.imm, b.imm);
    assert_eq!(a.read_r1, b.read_r1);
    assert_eq!(a.write, b.write);
}

#[test]
fn decode_nor_immediate_halve_skips_first_read() {
    // opcode 0xF has low three bits 7: the first operand read is redirected
    // to the hardwired zero register.
    let d = decode(0x0F23);
    assert_eq!(d.op, 0xF);
    assert!(!d.read_r1);
    assert!(d.write);
}
