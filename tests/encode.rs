use ppc750cl::args::Argument;
use ppc750cl::assembler::assemble;
use ppc750cl::ext::Extensions;
use ppc750cl::field::{ArgumentError, Field};
use ppc750cl::ins::Ins;

fn args(list: &[Argument]) -> [Argument; 5] {
    let mut out = [Argument::Absent; 5];
    out[..list.len()].copy_from_slice(list);
    out
}

#[test]
fn unknown_mnemonic() {
    assert_eq!(assemble("frobnicate", &args(&[])), Err(ArgumentError::UnknownMnemonic));
    assert_eq!(assemble("ad", &args(&[])), Err(ArgumentError::UnknownMnemonic));
    assert_eq!(assemble("add.o", &args(&[])), Err(ArgumentError::UnknownMnemonic));
    assert_eq!(assemble("", &args(&[])), Err(ArgumentError::UnknownMnemonic));
}

#[test]
fn one_argument_short() {
    let r = assemble("add", &args(&[Argument::GPR(1), Argument::GPR(2)]));
    assert_eq!(r, Err(ArgumentError::ArgCount { value: 2, expected: 3 }));
    let r = assemble("cmpw", &args(&[Argument::GPR(1)]));
    assert_eq!(r, Err(ArgumentError::ArgCount { value: 1, expected: 3 }));
}

#[test]
fn value_one_past_maximum() {
    let r = assemble("addi", &args(&[Argument::GPR(1), Argument::GPR(2), Argument::BranchDest(0x8000)]));
    assert_eq!(r, Err(ArgumentError::ValueOutOfRange));
    let r = assemble("addi", &args(&[Argument::GPR(1), Argument::GPR(2), Argument::BranchDest(-0x8001)]));
    assert_eq!(r, Err(ArgumentError::ValueOutOfRange));
    let r = assemble("add", &args(&[Argument::GPR(32), Argument::GPR(2), Argument::GPR(3)]));
    assert_eq!(r, Err(ArgumentError::ValueOutOfRange));
    let r = assemble("addi", &args(&[Argument::GPR(1), Argument::GPR(2), Argument::BranchDest(0x7fff)]));
    assert_eq!(r, Ok(0x38227fff));
}

#[test]
fn unaligned_branch_rejected() {
    assert_eq!(assemble("b", &args(&[Argument::BranchDest(6)])), Err(ArgumentError::ValueOutOfRange));
    assert_eq!(assemble("b", &args(&[Argument::BranchDest(-4)])), Ok(0x4bfffffc));
    assert_eq!(assemble("ba", &args(&[Argument::BranchDest(0x10)])), Ok(0x48000012));
}

#[test]
fn encodes_opcodes() {
    let r3 = Argument::GPR(3);
    let r1 = Argument::GPR(1);
    assert_eq!(assemble("addi", &args(&[r3, r1, Argument::Simm(-16)])), Ok(0x3861fff0));
    let add = args(&[r3, Argument::GPR(4), Argument::GPR(5)]);
    assert_eq!(assemble("add", &add), Ok(0x7c642a14));
    assert_eq!(assemble("add.", &add), Ok(0x7c642a15));
    assert_eq!(assemble("addo.", &add), Ok(0x7c642e15));
    assert_eq!(assemble("lwz", &args(&[r3, Argument::Offset(8), r1])), Ok(0x80610008));
    assert_eq!(assemble("sync", &args(&[])), Ok(0x7c0004ac));
}

#[test]
fn encodes_mnemonics() {
    let r3 = Argument::GPR(3);
    let r4 = Argument::GPR(4);
    assert_eq!(assemble("blr", &args(&[])), Ok(0x4e800020));
    assert_eq!(assemble("blrl", &args(&[])), Ok(0x4e800021));
    assert_eq!(assemble("mr", &args(&[r3, r4])), Ok(0x7c832378));
    assert_eq!(assemble("mr.", &args(&[r3, r4])), Ok(0x7c832379));
    assert_eq!(assemble("li", &args(&[r3, Argument::Simm(0)])), Ok(0x38600000));
    assert_eq!(assemble("nop", &args(&[])), Ok(0x60000000));
    assert_eq!(assemble("mflr", &args(&[Argument::GPR(0)])), Ok(0x7c0802a6));
    assert_eq!(assemble("slwi", &args(&[r3, r4, Argument::OpaqueU(2)])), Ok(0x5483103a));
    assert_eq!(assemble("crclr", &args(&[Argument::CRBit(6)])), Ok(0x4cc63182));
}

#[test]
fn dispatch_by_arity() {
    let r3 = Argument::GPR(3);
    let r4 = Argument::GPR(4);
    assert_eq!(assemble("cmpw", &args(&[r3, r4])), Ok(0x7c032000));
    assert_eq!(assemble("cmpw", &args(&[Argument::CRField(1), r3, r4])), Ok(0x7c832000));
    assert_eq!(
        assemble("cmpwi", &args(&[Argument::GPR(1), Argument::GPR(2), Argument::GPR(3), Argument::GPR(4)])),
        Err(ArgumentError::ArgCount { value: 4, expected: 3 })
    );
}

#[test]
fn assemble_then_decode() {
    let words = [0x3861fff0u32, 0x7c642a15, 0x7c0802a6, 0x4bfffffc, 0x5483103a];
    for w in words {
        let ins = Ins::new(w, Extensions::none());
        let p = ins.basic();
        let list: Vec<Argument> = p.args_iter();
        assert_eq!(assemble(&p.mnemonic, &args(&list)), Ok(w), "{w:#x}");
    }
}

#[test]
fn field_round_trip() {
    let spr = Field { shift: 11, width: 10, shift_left: 0, signed: false, split: true };
    assert_eq!(spr.insert(8), Ok(0x4000 << 5));
    assert_eq!(spr.extract(0x4000 << 5), 8);
    let li = Field { shift: 2, width: 24, shift_left: 2, signed: true, split: false };
    for v in [-0x200_0000i64, -4, 0, 4, 0x1ff_fffc] {
        let b = li.insert(v).unwrap();
        assert_eq!(li.extract(b), v);
    }
    assert_eq!(li.insert(0x200_0000), Err(ArgumentError::ValueOutOfRange));
    assert_eq!(li.insert(-0x200_0004), Err(ArgumentError::ValueOutOfRange));
    let uimm = Field { shift: 0, width: 16, shift_left: 0, signed: false, split: false };
    assert_eq!(uimm.insert(0xffff), Ok(0xffff));
    assert_eq!(uimm.insert(0x10000), Err(ArgumentError::ValueOutOfRange));
    assert_eq!(uimm.insert(-1), Err(ArgumentError::ValueOutOfRange));
}

#[test]
fn encodes_wider_table() {
    let r3 = Argument::GPR(3);
    let r4 = Argument::GPR(4);
    assert_eq!(assemble("bne", &args(&[Argument::BranchDest(-16)])), Ok(0x4082fff0));
    assert_eq!(assemble("beql", &args(&[Argument::BranchDest(8)])), Ok(0x41820009));
    assert_eq!(assemble("srwi", &args(&[r3, r4, Argument::OpaqueU(4)])), Ok(0x5483e13e));
    assert_eq!(assemble("srwi", &args(&[r3, r4, Argument::OpaqueU(0)])), Err(ArgumentError::ValueOutOfRange));
    assert_eq!(assemble("not", &args(&[r3, r4])), Ok(0x7c8320f8));
    assert_eq!(assemble("mtcr", &args(&[r3])), Ok(0x7c6ff120));
    assert_eq!(assemble("trap", &args(&[])), Ok(0x7fe00008));
    assert_eq!(assemble("mftb", &args(&[r3, Argument::OpaqueU(268)])), Ok(0x7c6c42e6));
    assert_eq!(assemble("subfo.", &args(&[r3, r4, Argument::GPR(5)])), Ok(0x7c642c51));
    assert_eq!(assemble("std", &args(&[r3, Argument::Offset(8), Argument::GPR(1)])), Ok(0xf8610008));
    assert_eq!(assemble("std", &args(&[r3, Argument::Offset(6), Argument::GPR(1)])), Err(ArgumentError::ValueOutOfRange));
}

#[test]
fn encodes_branch_on_condition_field() {
    let target = Argument::BranchDest(8);
    assert_eq!(assemble("beq", &args(&[Argument::CRField(1), target])), Ok(0x41860008));
    assert_eq!(assemble("beq", &args(&[target])), Ok(0x41820008));
    assert_eq!(assemble("bne", &args(&[Argument::CRField(7), Argument::BranchDest(-16)])), Ok(0x409efff0));
    assert_eq!(
        assemble("beq", &args(&[Argument::CRField(1), target, target])),
        Err(ArgumentError::ArgCount { value: 3, expected: 2 })
    );
    assert_eq!(
        assemble("beq", &args(&[Argument::CRField(8), target])),
        Err(ArgumentError::ValueOutOfRange)
    );
}
