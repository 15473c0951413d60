use ppc750cl::args::{Argument, SignedHexLiteral};
use ppc750cl::ext::{Extension, Extensions};
use ppc750cl::ins::{Ins, InsIter, ParsedIns};
use ppc750cl::isa::{
    nth_opcode, opcode_row, operand_info, Modifier, Opcode, MOD_AA, MOD_LK, MOD_OE, MOD_RC, NUM_OPCODES,
};

fn none() -> Extensions {
    Extensions::none()
}

#[test]
fn blr_is_return_form() {
    let ins = Ins::new(0x4e800020, none());
    assert_eq!(ins.op, Opcode::Bclr);
    assert!(ins.is_blr());
    assert!(ins.is_branch());
    assert!(ins.is_unconditional_branch());
    assert!(!ins.is_conditional_branch());
    assert!(!ins.is_direct_branch());
    assert_eq!(ins.simplified().to_string(), "blr");
    assert_eq!(ins.basic().to_string(), "bclr 20, lt");
}

#[test]
fn absolute_branch_ignores_address() {
    let ins = Ins::new(0x48000012, none());
    assert_eq!(ins.op, Opcode::B);
    assert_eq!(ins.branch_offset(), Some(0x10));
    assert_eq!(ins.branch_dest(0), Some(0x10));
    assert_eq!(ins.branch_dest(0x8000_1234), Some(0x10));
    assert_eq!(ins.basic().to_string(), "ba 0x10");
}

#[test]
fn relative_branch_back() {
    let ins = Ins::new(0x4bfffffc, none());
    assert_eq!(ins.branch_offset(), Some(-4));
    assert_eq!(ins.branch_dest(0x1000), Some(0xffc));
    assert_eq!(ins.branch_dest(0), None);
    assert_eq!(ins.basic().to_string(), "b -0x4");
}

#[test]
fn conditional_branch() {
    // bc 12, eq, 0x8 (beq)
    let ins = Ins::new(0x41820008, none());
    assert_eq!(ins.op, Opcode::Bc);
    assert_eq!(ins.branch_offset(), Some(8));
    assert_eq!(ins.branch_dest(0x100), Some(0x108));
    assert!(ins.is_conditional_branch());
    assert!(ins.is_direct_branch());
    assert_eq!(ins.basic().to_string(), "bc 12, eq, 0x8");
}

#[test]
fn branch_dest_overflow_is_none() {
    let ins = Ins::new(0x48000010, none());
    assert_eq!(ins.branch_dest(0xffff_fff0), None);
    assert_eq!(ins.branch_dest(0xffff_ffe0), Some(0xffff_fff0));
}

#[test]
fn non_branch_queries() {
    let ins = Ins::new(0x7c642a14, none());
    assert_eq!(ins.branch_offset(), None);
    assert_eq!(ins.branch_dest(0x1000), None);
    assert!(!ins.is_branch());
    assert!(!ins.is_conditional_branch());
}

#[test]
fn signed_hex_rendering() {
    assert_eq!(SignedHexLiteral(-1).to_string(), "-0x1");
    assert_eq!(SignedHexLiteral(0).to_string(), "0x0");
    assert_eq!(SignedHexLiteral(0x1f).to_string(), "0x1f");
    assert_eq!(SignedHexLiteral(i32::MIN).to_string(), "-0x80000000");
    assert_eq!(Argument::Simm(-1).to_string(), "-0x1");
    assert_eq!(Argument::Simm(i16::MIN).to_string(), "-0x8000");
    assert_eq!(Argument::Offset(i16::MIN).to_string(), "-0x8000");
}

#[test]
fn spr_rendering() {
    assert_eq!(Argument::SPR(999).to_string(), "999");
    assert_eq!(Argument::SPR(8).to_string(), "LR");
    assert_eq!(Argument::SPR(1022).to_string(), "THRM3");
}

#[test]
fn argument_rendering() {
    assert_eq!(Argument::GPR(31).to_string(), "r31");
    assert_eq!(Argument::FPR(2).to_string(), "f2");
    assert_eq!(Argument::SR(7).to_string(), "7");
    assert_eq!(Argument::CRField(3).to_string(), "cr3");
    assert_eq!(Argument::CRBit(0).to_string(), "lt");
    assert_eq!(Argument::CRBit(7).to_string(), "cr1un");
    assert_eq!(Argument::GQR(5).to_string(), "qr5");
    assert_eq!(Argument::Uimm(0xffff).to_string(), "0xffff");
    assert_eq!(Argument::OpaqueU(42).to_string(), "42");
    assert_eq!(Argument::VR(10).to_string(), "v10");
    assert_eq!(Argument::Absent.to_string(), "");
}

#[test]
fn basic_and_simplified_forms() {
    let cases: [(u32, &str, &str); 12] = [
        (0x7c0802a6, "mfspr r0, LR", "mflr r0"),
        (0x7c0803a6, "mtspr LR, r0", "mtlr r0"),
        (0x3861fff0, "addi r3, r1, -0x10", "addi r3, r1, -0x10"),
        (0x38600000, "addi r3, r0, 0x0", "li r3, 0x0"),
        (0x80610008, "lwz r3, 0x8(r1)", "lwz r3, 0x8(r1)"),
        (0x9421fff0, "stwu r1, -0x10(r1)", "stwu r1, -0x10(r1)"),
        (0x7c832378, "or r3, r4, r4", "mr r3, r4"),
        (0x60000000, "ori r0, r0, 0x0", "nop"),
        (0x4cc63182, "crxor cr1eq, cr1eq, cr1eq", "crclr cr1eq"),
        (0x7c032000, "cmp cr0, 0, r3, r4", "cmpw r3, r4"),
        (0x7c832000, "cmp cr1, 0, r3, r4", "cmpw cr1, r3, r4"),
        (0x5483103a, "rlwinm r3, r4, 2, 0, 29", "slwi r3, r4, 2"),
    ];
    for (code, basic, simplified) in cases {
        let ins = Ins::new(code, none());
        assert_eq!(ins.basic().to_string(), basic, "{code:#x}");
        assert_eq!(ins.simplified().to_string(), simplified, "{code:#x}");
    }
}

#[test]
fn modifier_suffixes() {
    assert_eq!(Ins::new(0x7c642a15, none()).basic().to_string(), "add. r3, r4, r5");
    assert_eq!(Ins::new(0x7c642e15, none()).basic().to_string(), "addo. r3, r4, r5");
    assert_eq!(Ins::new(0x48000001, none()).basic().to_string(), "bl 0x0");
    assert_eq!(Ins::new(0x4e800021, none()).simplified().to_string(), "blrl");
    assert_eq!(Ins::new(0x7c832379, none()).simplified().to_string(), "mr. r3, r4");
}

#[test]
fn illegal_word() {
    let ins = Ins::new(0, none());
    assert_eq!(ins.op, Opcode::Illegal);
    assert_eq!(ins.basic().to_string(), "<illegal>");
    assert_eq!(ins.simplified().to_string(), "<illegal>");
    assert_eq!(ParsedIns::new().to_string(), "<illegal>");
    assert_eq!(ParsedIns::default().to_string(), "<illegal>");
    assert!(ParsedIns::new().args_iter().is_empty());
}

#[test]
fn extension_gating() {
    let word = 0xe0610008; // psq_l f3, 0x8(r1), 0, qr0
    assert_eq!(Ins::new(word, none()).op, Opcode::Illegal);
    let ins = Ins::new(word, Extensions::gekko_broadway());
    assert_eq!(ins.op, Opcode::PsqL);
    assert_eq!(ins.basic().to_string(), "psq_l f3, 0x8(r1), 0, qr0");
    let ps = 0x1062202a; // ps_add f3, f2, f4
    assert_eq!(Ins::new(ps, none()).op, Opcode::Illegal);
    assert_eq!(Ins::new(ps, Extensions::gekko_broadway()).basic().to_string(), "ps_add f3, f2, f4");
    let ld = 0xe8610008; // ld r3, 0x8(r1)
    assert_eq!(Ins::new(ld, Extensions::gekko_broadway()).op, Opcode::Illegal);
    assert_eq!(Ins::new(ld, Extensions::xenon()).basic().to_string(), "ld r3, 0x8(r1)");
    let v = 0x10622000; // vaddubm v3, v2, v4
    assert_eq!(Ins::new(v, none()).op, Opcode::Illegal);
    assert_eq!(Ins::new(v, Extensions::from_extension(Extension::AltiVec)).op, Opcode::Vaddubm);
}

#[test]
fn defs_and_uses() {
    let add = Ins::new(0x7c642a14, none());
    assert_eq!(add.defs(), [Argument::GPR(3), Argument::Absent, Argument::Absent, Argument::Absent, Argument::Absent]);
    assert_eq!(add.uses()[..2], [Argument::GPR(4), Argument::GPR(5)]);
    assert_eq!(add.uses()[2], Argument::Absent);
    let stwu = Ins::new(0x9421fff0, none());
    assert_eq!(stwu.defs()[..2], [Argument::GPR(1), Argument::Absent]);
    assert_eq!(stwu.uses()[..2], [Argument::GPR(1), Argument::GPR(1)]);
    let mut out = [Argument::Absent; 5];
    Ins::new(0x7c0802a6, none()).parse_uses(&mut out);
    assert_eq!(out[0], Argument::SPR(8));
    Ins::new(0x7c0802a6, none()).parse_defs(&mut out);
    assert_eq!(out[0], Argument::GPR(0));
    assert!(Ins::new(0x60000000, none()).defs()[0] == Argument::GPR(0));
}

#[test]
fn parse_into_existing() {
    let mut p = ParsedIns::new();
    Ins::new(0x38600000, none()).parse_simplified(&mut p);
    assert_eq!(p.to_string(), "li r3, 0x0");
    Ins::new(0x38600000, none()).parse_basic(&mut p);
    assert_eq!(p.to_string(), "addi r3, r0, 0x0");
    assert_eq!(p.args_iter(), vec![Argument::GPR(3), Argument::GPR(0), Argument::Simm(0)]);
}

#[test]
fn stream_of_six_bytes() {
    let data = [0x4e, 0x80, 0x00, 0x20, 0x00, 0x00];
    let mut it = InsIter::new(&data, 0x8000_0000, none());
    let (addr, ins) = it.next().unwrap();
    assert_eq!(addr, 0x8000_0000);
    assert_eq!(ins.code, 0x4e800020);
    assert!(ins.is_blr());
    assert_eq!(it.address(), 0x8000_0004);
    assert_eq!(it.data().len(), 2);
    assert!(it.next().is_none());
    assert_eq!(it.extensions(), none());
}

#[test]
fn stream_of_three_bytes() {
    let data = [0x4e, 0x80, 0x00];
    let mut it = InsIter::new(&data, 0, none());
    assert!(it.next().is_none());
    assert_eq!(it.address(), 0);
}

#[test]
fn stream_of_two_words() {
    let data = [0x38, 0x60, 0x00, 0x00, 0x4e, 0x80, 0x00, 0x20];
    let mut it = InsIter::new(&data, 0x100, none());
    let (a1, i1) = it.next().unwrap();
    let (a2, i2) = it.next().unwrap();
    assert_eq!((a1, i1.op), (0x100, Opcode::Addi));
    assert_eq!((a2, i2.op), (0x104, Opcode::Bclr));
    assert!(it.next().is_none());
}

#[test]
fn opcode_names() {
    assert_eq!(Opcode::PsqL.mnemonic(), "psq_l");
    assert_eq!(Opcode::Illegal.mnemonic(), "<illegal>");
    assert_eq!(Opcode::default(), Opcode::Illegal);
}

#[test]
fn wider_instruction_table() {
    let cases: [(u32, &str, &str); 10] = [
        (0x7c642850, "subf r3, r4, r5", "subf r3, r4, r5"),
        (0x7c8320f8, "nor r3, r4, r4", "not r3, r4"),
        (0x41820008, "bc 12, eq, 0x8", "beq 0x8"),
        (0x4082fff0, "bc 4, eq, -0x10", "bne -0x10"),
        (0x5483e13e, "rlwinm r3, r4, 28, 4, 31", "srwi r3, r4, 4"),
        (0xc0230010, "lfs f1, 0x10(r3)", "lfs f1, 0x10(r3)"),
        (0xfc2200f2, "fmul f1, f2, f3", "fmul f1, f2, f3"),
        (0x7c6ff120, "mtcrf 255, r3", "mtcr r3"),
        (0x7fe00008, "tw 31, r0, r0", "trap"),
        (0x7c6c42e6, "mftb r3, 268", "mftb r3, 268"),
    ];
    for (code, basic, simplified) in cases {
        let ins = Ins::new(code, none());
        assert_eq!(ins.basic().to_string(), basic, "{code:#x}");
        assert_eq!(ins.simplified().to_string(), simplified, "{code:#x}");
    }
    let std = Ins::new(0xf8610008, Extensions::xenon());
    assert_eq!(std.basic().to_string(), "std r3, 0x8(r1)");
    let psq = Ins::new(0xf0212008, Extensions::gekko_broadway());
    assert_eq!(psq.basic().to_string(), "psq_st f1, 0x8(r1), 0, qr2");
    assert_eq!(Ins::new(0x28030010, none()).simplified().to_string(), "cmplwi r3, 0x10");
}

#[test]
fn branch_on_other_condition_fields() {
    assert_eq!(Ins::new(0x41860008, none()).simplified().to_string(), "beq cr1, 0x8");
    assert_eq!(Ins::new(0x409efff0, none()).simplified().to_string(), "bne cr7, -0x10");
    assert_eq!(Ins::new(0x41820008, none()).simplified().to_string(), "beq 0x8");
    // Condition bit 5 is "greater than" of cr1.
    assert_eq!(Ins::new(0x41850008, none()).simplified().to_string(), "bgt cr1, 0x8");
    // BO 13 has no simplified form here.
    assert_eq!(Ins::new(0x41a60008, none()).simplified().to_string(), "bc 13, cr1eq, 0x8");
}

#[test]
fn opcode_fields_tile_the_word() {
    for i in 0..NUM_OPCODES {
        let row = opcode_row(nth_opcode(i));
        let mut covered = row.mask;
        let mut mods = 0u32;
        for (flag, m) in [(MOD_OE, Modifier::Oe), (MOD_RC, Modifier::Rc), (MOD_LK, Modifier::Lk), (MOD_AA, Modifier::Aa)] {
            if row.mods & flag != 0 {
                mods |= m.mask();
            }
        }
        assert_eq!(covered & mods, 0, "{}", row.name);
        covered |= mods;
        for j in 0..row.nargs {
            let (f, _) = operand_info(row.args[j]);
            let bits = ((1u64 << f.width) - 1) as u32;
            let m = bits << f.shift;
            assert_eq!(covered & m, 0, "{} operand {}", row.name, j);
            covered |= m;
        }
        assert_eq!(covered, u32::MAX, "{}", row.name);
        assert_eq!(row.pattern & !row.mask, 0, "{}", row.name);
    }
}
