//! Tests for the decoder: known encodings, the decode/encode round
//! trip, sign extension, and wrapping arithmetic.

use spear::cpu::{Architecture, Cpu};
use spear::extensions::rv32i;
use spear::extensions::rv32i::Instruction;
use spear::instruction::{IType, Register};
use spear::memory::Memory;
use spear::Address;

#[test]
fn decode_known_encodings() {
    // lui a5, 0
    match rv32i::parse(0x0000_07B7) {
        Some(Instruction::LUI(ty)) => {
            assert_eq!(ty.rd, Register::new(15));
            assert_eq!(ty.val, 0);
        }
        other => panic!("wrong decode: {:?}", other),
    }
    // auipc ra, 15
    match rv32i::parse(0x0000_F097) {
        Some(Instruction::AUIPC(ty)) => {
            assert_eq!(ty.rd, Register::new(1));
            assert_eq!(ty.val, 15 << 12);
        }
        other => panic!("wrong decode: {:?}", other),
    }
    // jal t5, 153398
    match rv32i::parse(0x7362_5F6F) {
        Some(Instruction::JAL(ty)) => {
            assert_eq!(ty.rd, Register::new(30));
            assert_eq!(ty.sign_imm(), 153398);
        }
        other => panic!("wrong decode: {:?}", other),
    }
    // jalr ra, ra, -1416
    match rv32i::parse(0xA780_80E7) {
        Some(Instruction::JALR(ty)) => {
            assert_eq!(ty.rd, Register::new(1));
            assert_eq!(ty.rs, Register::new(1));
            assert_eq!(ty.sign_imm(), -1416);
        }
        other => panic!("wrong decode: {:?}", other),
    }
    // beq a4, a7, 148
    match rv32i::parse(0x0917_0A63) {
        Some(Instruction::BEQ(ty)) => {
            assert_eq!(ty.rs1, Register::new(14));
            assert_eq!(ty.rs2, Register::new(17));
            assert_eq!(ty.sign_imm(), 148);
        }
        other => panic!("wrong decode: {:?}", other),
    }
    // blt a5, a6, -34
    match rv32i::parse(0xFD07_CFE3) {
        Some(Instruction::BLT(ty)) => {
            assert_eq!(ty.sign_imm(), -34);
        }
        other => panic!("wrong decode: {:?}", other),
    }
    // lb a0, 48(s1)
    match rv32i::parse(0x0304_8503) {
        Some(Instruction::LB(ty)) => {
            assert_eq!(ty.rd, Register::new(10));
            assert_eq!(ty.rs, Register::new(9));
            assert_eq!(ty.sign_imm(), 48);
        }
        other => panic!("wrong decode: {:?}", other),
    }
    // slli a1, s3, 4
    match rv32i::parse(0x0049_9593) {
        Some(Instruction::SLLI(ty)) => {
            assert_eq!(ty.shamt(), 4);
        }
        other => panic!("wrong decode: {:?}", other),
    }
    // srai a5, a3, 24 (funct7 bit folded out of the stored immediate)
    match rv32i::parse(0x4186_D793) {
        Some(Instruction::SRAI(ty)) => {
            assert_eq!(ty.shamt(), 24);
        }
        other => panic!("wrong decode: {:?}", other),
    }
    // add a3, a0, s0
    match rv32i::parse(0x0085_06B3) {
        Some(Instruction::ADD(ty)) => {
            assert_eq!(ty.rd, Register::new(13));
            assert_eq!(ty.rs1, Register::new(10));
            assert_eq!(ty.rs2, Register::new(8));
        }
        other => panic!("wrong decode: {:?}", other),
    }
    // fence
    assert!(matches!(
        rv32i::parse(0x0230_000F),
        Some(Instruction::FENCE(_))
    ));
    // ecall and ebreak
    assert!(matches!(
        rv32i::parse(0x0000_0073),
        Some(Instruction::ECALL(_))
    ));
    assert!(matches!(
        rv32i::parse(0x0010_0073),
        Some(Instruction::EBREAK(_))
    ));
    // an unknown encoding decodes to nothing
    assert!(rv32i::parse(0xFFFF_FFFF).is_none());
    assert!(rv32i::parse(0x0000_0000).is_none());
}

#[test]
fn addi_sp_sp_minus16() {
    // `addi x2, x2, -16` encoded as 0xFF010113
    let inst = rv32i::parse(0xFF01_0113).unwrap();
    assert_eq!(inst.text(), "addi sp, sp, -16");
    match inst {
        Instruction::ADDI(ty) => {
            assert_eq!(ty.rd, Register::new(2));
            assert_eq!(ty.rs, Register::new(2));
            assert_eq!(ty.sign_imm(), -16);
        }
        other => panic!("wrong decode: {:?}", other),
    }

    // executed with x2 = 0x1000 it yields x2 = 0x0FF0
    let mut cpu = Cpu::new(Architecture::rv32i(), Memory::new());
    cpu.arch
        .base
        .write_register(Register::new(2), Address(0x1000));
    assert!(rv32i::exec(inst, &mut cpu).is_ok());
    assert_eq!(
        cpu.arch.base.read_register(Register::new(2)),
        Address(0x0FF0)
    );
}

#[test]
fn addi_s1_s1_56() {
    // `addi s1, s1, 56` encoded as 0x03848493, with s1 = 0
    let inst = rv32i::parse(0x0384_8493).unwrap();
    match inst {
        Instruction::ADDI(ty) => {
            assert_eq!(ty.rd, Register::new(9));
            assert_eq!(ty.rs, Register::new(9));
            assert_eq!(ty.sign_imm(), 56);
        }
        other => panic!("wrong decode: {:?}", other),
    }

    let mut cpu = Cpu::new(Architecture::rv32i(), Memory::new());
    assert!(rv32i::exec(inst, &mut cpu).is_ok());
    assert_eq!(
        cpu.arch.base.read_register(Register::new(9)),
        Address(56)
    );
}

#[test]
fn sign_extension_is_idempotent_on_samples() {
    for val in [0u32, 1, 0x7FF, 0x800, 0xFFF] {
        let ty = IType {
            val,
            rd: Register::new(0),
            rs: Register::new(0),
        };
        let once = ty.sign_imm();
        let again = IType {
            val: (once as u32) & 0xFFF,
            rd: Register::new(0),
            rs: Register::new(0),
        };
        // re-extending the stored width of an extended value changes
        // nothing
        assert_eq!(again.sign_imm(), once);
        assert_eq!(ty.sign_val(), once);
    }
}

#[test]
fn wrapping_addition_is_associative_on_samples() {
    let samples = [0u32, 1, 0x7FFF_FFFF, 0x8000_0000, 0xFFFF_FFFF, 0x1234_5678];
    for &a in &samples {
        for &b in &samples {
            for &c in &samples {
                assert_eq!(
                    a.wrapping_add(b).wrapping_add(c),
                    a.wrapping_add(b.wrapping_add(c))
                );
            }
        }
    }
}
