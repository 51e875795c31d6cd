//! Tests for decoding instructions and rendering them as assembler
//! text.

use spear::extensions::rv32i;

fn text_of(raw: u32) -> String {
    rv32i::parse(raw).expect("word must decode").text()
}

#[test]
fn test_lui_inst() {
    assert_eq!(text_of(0x000007B7), "lui a5, 0");
    assert_eq!(text_of(0x00F0F5B7), "lui a1, 3855");
    assert_eq!(text_of(0x05555637), "lui a2, 21845");
}

#[test]
fn test_auipc_inst() {
    assert_eq!(text_of(0x0000F097), "auipc ra, 15");
    assert_eq!(text_of(0x00019597), "auipc a1, 25");
    assert_eq!(text_of(0x00017517), "auipc a0, 23");
}

#[test]
fn test_jal_inst() {
    assert_eq!(text_of(0x73625F6F), "jal t5, 153398");
    assert_eq!(text_of(0x69706D6F), "jal s10, 28310");
    assert_eq!(text_of(0x00656E6F), "jal t3, 352262");
}

#[test]
fn test_jalr_inst() {
    assert_eq!(text_of(0xA78080E7), "jalr ra, ra, -1416");
    assert_eq!(text_of(0xE4A080E7), "jalr ra, ra, -438");
    assert_eq!(text_of(0x464080E7), "jalr ra, ra, 1124");
}

#[test]
fn test_beq_inst() {
    assert_eq!(text_of(0x09170A63), "beq a4, a7, 148");
    assert_eq!(text_of(0x01178A63), "beq a5, a7, 20");
    assert_eq!(text_of(0xFF0784E3), "beq a5, a6, -24");
}

#[test]
fn test_bne_inst() {
    assert_eq!(text_of(0x08F71063), "bne a4, a5, 128");
    assert_eq!(text_of(0x00F69E63), "bne a3, a5, 28");
}

#[test]
fn test_blt_inst() {
    assert_eq!(text_of(0xFD07CFE3), "blt a5, a6, -34");
    assert_eq!(text_of(0x00F84363), "blt a6, a5, 6");
}

#[test]
fn test_bge_inst() {
    assert_eq!(text_of(0x1747D763), "bge a5, s4, 366");
    assert_eq!(text_of(0x08A6DD63), "bge a3, a0, 154");
}

#[test]
fn test_bltu_inst() {
    assert_eq!(text_of(0x02F56B63), "bltu a0, a5, 54");
    assert_eq!(text_of(0xFAD76FE3), "bltu a4, a3, -66");
}

#[test]
fn test_bgeu_inst() {
    assert_eq!(text_of(0x02F67A63), "bgeu a2, a5, 52");
    assert_eq!(text_of(0x00F6FD63), "bgeu a3, a5, 26");
}

#[test]
fn test_lb_inst() {
    assert_eq!(text_of(0x03048503), "lb a0, s1, 48");
}

#[test]
fn test_addi_inst() {
    assert_eq!(text_of(0x03848493), "addi s1, s1, 56");
}

#[test]
fn test_slli_inst() {
    assert_eq!(text_of(0x00499593), "slli a1, s3, 4");
}

#[test]
fn test_srai_inst() {
    assert_eq!(text_of(0x4386D793), "srai a5, a3, 56");
}

#[test]
fn test_add_inst() {
    assert_eq!(text_of(0x008506B3), "add a3, a0, s0");
}

#[test]
fn test_fence_inst() {
    assert_eq!(text_of(0x0230000F), "fence");
}

#[test]
fn test_ecall_inst() {
    assert_eq!(text_of(0x00000073), "ecall");
}

#[test]
fn test_ebreak_inst() {
    assert_eq!(text_of(0x00100073), "ebreak");
}

#[test]
fn test_csr_inst() {
    let mret = spear::extensions::zicsr::parse(0x30200073).unwrap();
    assert_eq!(mret.text(), "mret");
    let wfi = spear::extensions::zicsr::parse(0x10500073).unwrap();
    assert_eq!(wfi.text(), "wfi");
    // csrrw ra, mscratch, t0
    let csrrw = spear::extensions::zicsr::parse(0x340290F3).unwrap();
    assert_eq!(csrrw.text(), "csrrw ra, t0, 832");
}
