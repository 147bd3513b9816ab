use rv32_core::instruction::{
    ArgsIType, ArgsRType, ArgsSBType, ArgsUJType, IllegalInstruction, Instruction,
};
use rv32_core::state::CoreState;

fn i_args(rs1: usize, rd: usize, imm: i32) -> ArgsIType {
    ArgsIType { rs1, rd, imm, shamt: (imm & 0x1f) as u8, csr: (imm & 0xfff) as u16 }
}

#[test]
fn decode_addi() {
    assert_eq!(CoreState::decode(0x0050_0093), Ok(Instruction::Addi(i_args(0, 1, 5))));
}

#[test]
fn decode_addi_negative_immediate() {
    // addi x5, x6, -1
    assert_eq!(CoreState::decode(0xFFF3_0293), Ok(Instruction::Addi(i_args(6, 5, -1))));
    // addi x1, x1, -2048
    assert_eq!(CoreState::decode(0x8000_8093), Ok(Instruction::Addi(i_args(1, 1, -2048))));
    // addi x1, x1, 2047
    assert_eq!(CoreState::decode(0x7FF0_8093), Ok(Instruction::Addi(i_args(1, 1, 2047))));
}

#[test]
fn decode_upper_immediates() {
    // lui x1, 0xDEADC
    assert_eq!(
        CoreState::decode(0xDEAD_C0B7),
        Ok(Instruction::Lui(ArgsUJType { rd: 1, imm: 0xDEAD_C000u32 as i32 }))
    );
    // auipc x31, 0x7FFFF
    assert_eq!(
        CoreState::decode(0x7FFF_FF97),
        Ok(Instruction::Auipc(ArgsUJType { rd: 31, imm: 0x7FFF_F000 }))
    );
}

#[test]
fn decode_jal() {
    // jal x1, +8
    assert_eq!(CoreState::decode(0x0080_00EF), Ok(Instruction::Jal(ArgsUJType { rd: 1, imm: 8 })));
    // jal x0, -4
    assert_eq!(CoreState::decode(0xFFDF_F06F), Ok(Instruction::Jal(ArgsUJType { rd: 0, imm: -4 })));
    // jal x0, +0xFFFFE (largest offset)
    assert_eq!(
        CoreState::decode(0x7FFF_F06F),
        Ok(Instruction::Jal(ArgsUJType { rd: 0, imm: 0xF_FFFE }))
    );
    // jal x0, -0x100000 (smallest offset)
    assert_eq!(
        CoreState::decode(0x8000_006F),
        Ok(Instruction::Jal(ArgsUJType { rd: 0, imm: -0x10_0000 }))
    );
    // jal x0, +0x800: only imm[11], which sits at bit 20
    assert_eq!(
        CoreState::decode(0x0010_006F),
        Ok(Instruction::Jal(ArgsUJType { rd: 0, imm: 0x800 }))
    );
    // jal x0, +0x1000: only imm[12], which sits at bit 12
    assert_eq!(
        CoreState::decode(0x0000_106F),
        Ok(Instruction::Jal(ArgsUJType { rd: 0, imm: 0x1000 }))
    );
}

#[test]
fn decode_jalr() {
    // jalr x1, 4(x2)
    assert_eq!(CoreState::decode(0x0041_00E7), Ok(Instruction::Jalr(i_args(2, 1, 4))));
    // funct3 other than 0 is illegal
    assert_eq!(CoreState::decode(0x0041_10E7), Err(IllegalInstruction));
}

#[test]
fn decode_branches() {
    let args = ArgsSBType { rs1: 1, rs2: 2, imm: 8 };
    assert_eq!(CoreState::decode(0x0020_8463), Ok(Instruction::Beq(args)));
    assert_eq!(CoreState::decode(0x0020_9463), Ok(Instruction::Bne(args)));
    assert_eq!(CoreState::decode(0x0020_C463), Ok(Instruction::Blt(args)));
    assert_eq!(CoreState::decode(0x0020_D463), Ok(Instruction::Bge(args)));
    assert_eq!(CoreState::decode(0x0020_E463), Ok(Instruction::Bltu(args)));
    assert_eq!(CoreState::decode(0x0020_F463), Ok(Instruction::Bgeu(args)));
    assert_eq!(CoreState::decode(0x0020_A463), Err(IllegalInstruction));
    assert_eq!(CoreState::decode(0x0020_B463), Err(IllegalInstruction));
}

#[test]
fn decode_branch_immediates() {
    // beq x0, x0, -4
    assert_eq!(
        CoreState::decode(0xFE00_0EE3),
        Ok(Instruction::Beq(ArgsSBType { rs1: 0, rs2: 0, imm: -4 }))
    );
    // beq x0, x0, -4096: only the sign bit
    assert_eq!(
        CoreState::decode(0x8000_0063),
        Ok(Instruction::Beq(ArgsSBType { rs1: 0, rs2: 0, imm: -4096 }))
    );
    // beq x0, x0, +2048: only imm[11], which sits at bit 7
    assert_eq!(
        CoreState::decode(0x0000_00E3),
        Ok(Instruction::Beq(ArgsSBType { rs1: 0, rs2: 0, imm: 2048 }))
    );
    // beq x0, x0, +4094: the largest offset
    assert_eq!(
        CoreState::decode(0x7E00_0FE3),
        Ok(Instruction::Beq(ArgsSBType { rs1: 0, rs2: 0, imm: 4094 }))
    );
}

#[test]
fn decode_loads() {
    // l? x3, -8(x4)
    let args = i_args(4, 3, -8);
    assert_eq!(CoreState::decode(0xFF82_0183), Ok(Instruction::Lb(args)));
    assert_eq!(CoreState::decode(0xFF82_1183), Ok(Instruction::Lh(args)));
    assert_eq!(CoreState::decode(0xFF82_2183), Ok(Instruction::Lw(args)));
    assert_eq!(CoreState::decode(0xFF82_4183), Ok(Instruction::Lbu(args)));
    assert_eq!(CoreState::decode(0xFF82_5183), Ok(Instruction::Lhu(args)));
    assert_eq!(CoreState::decode(0xFF82_3183), Err(IllegalInstruction));
    assert_eq!(CoreState::decode(0xFF82_6183), Err(IllegalInstruction));
    assert_eq!(CoreState::decode(0xFF82_7183), Err(IllegalInstruction));
}

#[test]
fn decode_stores() {
    // s? x5, 12(x6)
    let args = ArgsSBType { rs1: 6, rs2: 5, imm: 12 };
    assert_eq!(CoreState::decode(0x0053_0623), Ok(Instruction::Sb(args)));
    assert_eq!(CoreState::decode(0x0053_1623), Ok(Instruction::Sh(args)));
    assert_eq!(CoreState::decode(0x0053_2623), Ok(Instruction::Sw(args)));
    assert_eq!(CoreState::decode(0x0053_3623), Err(IllegalInstruction));
    // sw x5, -4(x6)
    assert_eq!(
        CoreState::decode(0xFE53_2E23),
        Ok(Instruction::Sw(ArgsSBType { rs1: 6, rs2: 5, imm: -4 }))
    );
    // sw x0, -2048(x0) and sw x0, 2047(x0)
    assert_eq!(
        CoreState::decode(0x8000_2023),
        Ok(Instruction::Sw(ArgsSBType { rs1: 0, rs2: 0, imm: -2048 }))
    );
    assert_eq!(
        CoreState::decode(0x7E00_2FA3),
        Ok(Instruction::Sw(ArgsSBType { rs1: 0, rs2: 0, imm: 2047 }))
    );
}

#[test]
fn decode_immediate_operations() {
    // op x7, x8, 0x555
    let args = i_args(8, 7, 0x555);
    assert_eq!(CoreState::decode(0x5554_0393), Ok(Instruction::Addi(args)));
    assert_eq!(CoreState::decode(0x5554_2393), Ok(Instruction::Slti(args)));
    assert_eq!(CoreState::decode(0x5554_3393), Ok(Instruction::Sltiu(args)));
    assert_eq!(CoreState::decode(0x5554_4393), Ok(Instruction::Xori(args)));
    assert_eq!(CoreState::decode(0x5554_6393), Ok(Instruction::Ori(args)));
    assert_eq!(CoreState::decode(0x5554_7393), Ok(Instruction::Andi(args)));
}

#[test]
fn decode_immediate_shifts() {
    // slli x1, x2, 3
    assert_eq!(CoreState::decode(0x0031_1093), Ok(Instruction::Slli(i_args(2, 1, 3))));
    // srli x1, x2, 31
    assert_eq!(CoreState::decode(0x01F1_5093), Ok(Instruction::Srli(i_args(2, 1, 31))));
    // srai x1, x2, 3
    assert_eq!(
        CoreState::decode(0x4031_5093),
        Ok(Instruction::Srai(ArgsIType { rs1: 2, rd: 1, imm: 0x403, shamt: 3, csr: 0x403 }))
    );
    // funct7 that names no shift
    assert_eq!(CoreState::decode(0x4031_1093), Err(IllegalInstruction));
    assert_eq!(CoreState::decode(0x2031_5093), Err(IllegalInstruction));
    assert_eq!(CoreState::decode(0x0231_1093), Err(IllegalInstruction));
}

#[test]
fn decode_register_operations() {
    // op x3, x1, x2
    let args = ArgsRType { rs1: 1, rs2: 2, rd: 3 };
    assert_eq!(CoreState::decode(0x0020_81B3), Ok(Instruction::Add(args)));
    assert_eq!(CoreState::decode(0x4020_81B3), Ok(Instruction::Sub(args)));
    assert_eq!(CoreState::decode(0x0020_91B3), Ok(Instruction::Sll(args)));
    assert_eq!(CoreState::decode(0x0020_A1B3), Ok(Instruction::Slt(args)));
    assert_eq!(CoreState::decode(0x0020_B1B3), Ok(Instruction::Sltu(args)));
    assert_eq!(CoreState::decode(0x0020_C1B3), Ok(Instruction::Xor(args)));
    assert_eq!(CoreState::decode(0x0020_D1B3), Ok(Instruction::Srl(args)));
    assert_eq!(CoreState::decode(0x4020_D1B3), Ok(Instruction::Sra(args)));
    assert_eq!(CoreState::decode(0x0020_E1B3), Ok(Instruction::Or(args)));
    assert_eq!(CoreState::decode(0x0020_F1B3), Ok(Instruction::And(args)));
}

#[test]
fn decode_register_operations_outside_the_table() {
    // funct7 of the multiply extension
    assert_eq!(CoreState::decode(0x0220_81B3), Err(IllegalInstruction));
    // funct7 0b0100000 with a funct3 other than add/sub and the right shift
    assert_eq!(CoreState::decode(0x4020_91B3), Err(IllegalInstruction));
    assert_eq!(CoreState::decode(0x4020_F1B3), Err(IllegalInstruction));
    assert_eq!(CoreState::decode(0x8020_81B3), Err(IllegalInstruction));
}

#[test]
fn decode_register_indices_at_their_limit() {
    assert_eq!(
        CoreState::decode(0x01FF_8FB3),
        Ok(Instruction::Add(ArgsRType { rs1: 31, rs2: 31, rd: 31 }))
    );
}

#[test]
fn decode_fence() {
    assert_eq!(CoreState::decode(0x0FF0_000F), Ok(Instruction::Fence));
    assert_eq!(CoreState::decode(0x0000_000F), Ok(Instruction::Fence));
}

#[test]
fn decode_privileged_instructions() {
    assert_eq!(CoreState::decode(0x0000_0073), Ok(Instruction::Ecall));
    assert_eq!(CoreState::decode(0x0010_0073), Ok(Instruction::Ebreak));
    assert_eq!(CoreState::decode(0x3020_0073), Ok(Instruction::Mret));
    assert_eq!(CoreState::decode(0x1050_0073), Ok(Instruction::Wfi));
}

#[test]
fn decode_system_words_outside_the_table() {
    // funct3 0 with fields that name none of the four privileged instructions
    assert_eq!(CoreState::decode(0x0020_0073), Err(IllegalInstruction));
    assert_eq!(CoreState::decode(0x0000_00F3), Err(IllegalInstruction));
    assert_eq!(CoreState::decode(0x0000_8073), Err(IllegalInstruction));
    assert_eq!(CoreState::decode(0x1020_0073), Err(IllegalInstruction));
    // the reserved funct3 4
    assert_eq!(CoreState::decode(0x3000_4073), Err(IllegalInstruction));
}

#[test]
fn decode_csr_instructions() {
    // csrr? x5, mtvec, x6: the address 0x305 is also the immediate
    let args = ArgsIType { rs1: 6, rd: 5, imm: 0x305, shamt: 5, csr: 0x305 };
    assert_eq!(CoreState::decode(0x3053_12F3), Ok(Instruction::Csrrw(args)));
    assert_eq!(CoreState::decode(0x3053_22F3), Ok(Instruction::Csrrs(args)));
    assert_eq!(CoreState::decode(0x3053_32F3), Ok(Instruction::Csrrc(args)));
    assert_eq!(CoreState::decode(0x3053_52F3), Ok(Instruction::Csrrwi(args)));
    assert_eq!(CoreState::decode(0x3053_62F3), Ok(Instruction::Csrrsi(args)));
    assert_eq!(CoreState::decode(0x3053_72F3), Ok(Instruction::Csrrci(args)));
}

#[test]
fn decode_csr_address_is_unsigned() {
    // csrrs x1, mhartid (0xF14), x0: the immediate is negative, the address is not
    assert_eq!(
        CoreState::decode(0xF140_20F3),
        Ok(Instruction::Csrrs(ArgsIType { rs1: 0, rd: 1, imm: -236, shamt: 20, csr: 0xF14 }))
    );
}

#[test]
fn decode_unknown_opcodes() {
    assert_eq!(CoreState::decode(0x0000_0000), Err(IllegalInstruction));
    assert_eq!(CoreState::decode(0xFFFF_FFFF), Err(IllegalInstruction));
    // an opcode of the floating-point loads
    assert_eq!(CoreState::decode(0x0000_2007), Err(IllegalInstruction));
    // a compressed instruction's low bits
    assert_eq!(CoreState::decode(0x0000_0001), Err(IllegalInstruction));
}

#[test]
fn decode_never_leaves_the_operand_ranges() {
    let mut word: u32 = 0x1234_5678;
    for _ in 0..20000 {
        word = word.wrapping_mul(1664525).wrapping_add(1013904223);
        match CoreState::decode(word) {
            Ok(Instruction::Lui(a)) | Ok(Instruction::Auipc(a)) => {
                assert!(a.rd < 32 && a.imm % 4096 == 0);
            }
            Ok(Instruction::Jal(a)) => {
                assert!(a.rd < 32 && a.imm % 2 == 0 && a.imm >= -0x10_0000 && a.imm < 0x10_0000);
            }
            Ok(Instruction::Beq(a)) | Ok(Instruction::Bne(a)) | Ok(Instruction::Blt(a))
            | Ok(Instruction::Bge(a)) | Ok(Instruction::Bltu(a)) | Ok(Instruction::Bgeu(a)) => {
                assert!(a.rs1 < 32 && a.rs2 < 32 && a.imm % 2 == 0);
                assert!(a.imm >= -4096 && a.imm < 4096);
            }
            Ok(Instruction::Sb(a)) | Ok(Instruction::Sh(a)) | Ok(Instruction::Sw(a)) => {
                assert!(a.rs1 < 32 && a.rs2 < 32 && a.imm >= -2048 && a.imm < 2048);
            }
            Ok(Instruction::Addi(a)) | Ok(Instruction::Lw(a)) | Ok(Instruction::Csrrw(a)) => {
                assert!(a.rs1 < 32 && a.rd < 32 && a.imm >= -2048 && a.imm < 2048);
                assert!(a.shamt < 32 && a.csr < 4096);
                assert_eq!(a.csr as i32, a.imm & 0xfff);
                assert_eq!(a.shamt as i32, a.imm & 0x1f);
            }
            _ => {}
        }
    }
}
