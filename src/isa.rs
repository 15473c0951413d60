//! The instruction set: operand fields, opcodes, simplified mnemonics and the
//! classifier that picks the opcode of a word.
use crate::ext::{has_all, spec_bitmask, Extension, Extensions};
use crate::field::{field_bits, field_value, in_domain, lemma_round_trip, Field};
use vstd::prelude::*;

verus! {

/// How an operand is shown and what kind of value it is.
#[derive(Clone, Copy, Debug, PartialEq, Eq, Structural, Hash)]
pub enum ArgKind {
    Gpr,
    Fpr,
    Sr,
    Spr,
    CrField,
    CrBit,
    Gqr,
    Uimm,
    Simm,
    Offset,
    BranchDest,
    OpaqueU,
    Vr,
}

/// The named operand fields of the instruction set.
#[derive(Clone, Copy, Debug, PartialEq, Eq, Structural, Hash)]
pub enum Operand {
    /// The destination or source general register, bits 6-10.
    Rd,
    /// The general register, bits 11-15.
    Ra,
    /// The general register, bits 16-20.
    Rb,
    /// The floating-point register, bits 6-10.
    FrD,
    /// The floating-point register, bits 11-15.
    FrA,
    /// The floating-point register, bits 16-20.
    FrB,
    /// The vector register, bits 6-10.
    Vd,
    /// The vector register, bits 11-15.
    Va,
    /// The vector register, bits 16-20.
    Vb,
    /// The signed immediate.
    Simm,
    /// The unsigned immediate.
    Uimm,
    /// The signed displacement of a memory reference.
    Offset,
    /// The word-aligned signed displacement of a memory reference.
    Ds,
    /// The word-aligned displacement of an unconditional branch.
    Li,
    /// The word-aligned displacement of a conditional branch.
    Bd,
    /// The branch options.
    Bo,
    /// The condition bit tested by a branch.
    Bi,
    /// The condition register field.
    CrfD,
    /// The comparison size.
    L,
    /// The special-purpose register number.
    Spr,
    /// The segment register.
    Sr,
    /// The condition register bit, bits 6-10.
    CrbD,
    /// The condition register bit, bits 11-15.
    CrbA,
    /// The condition register bit, bits 16-20.
    CrbB,
    /// The shift amount.
    Sh,
    /// The mask begin.
    Mb,
    /// The mask end.
    Me,
    /// The signed displacement of a paired-single memory reference.
    PsOffset,
    /// The paired-single width.
    PsW,
    /// The quantization register.
    PsI,
    /// The floating-point register, bits 21-25.
    FrC,
    /// The time base register number.
    Tbr,
    /// The trap conditions.
    To,
    /// The condition register field mask.
    Crm,
    /// The condition register field tested by a branch, bits 11-13.
    CrfS,
    /// Fills the unused slots of a fixed-size operand list; never read.
    Unused,
}

/// An independently togglable bit of an instruction, shown as a suffix of its
/// name.
#[derive(Clone, Copy, Debug, PartialEq, Eq, Structural, Hash)]
pub enum Modifier {
    /// Overflow enable, suffix `o`.
    Oe,
    /// Record to the condition register, suffix `.`.
    Rc,
    /// Link-register update, suffix `l`.
    Lk,
    /// Absolute address, suffix `a`.
    Aa,
}

/// Flag of `Modifier::Oe` in a set of modifiers.
pub const MOD_OE: u32 = 1;

/// Flag of `Modifier::Rc` in a set of modifiers.
pub const MOD_RC: u32 = 2;

/// Flag of `Modifier::Lk` in a set of modifiers.
pub const MOD_LK: u32 = 4;

/// Flag of `Modifier::Aa` in a set of modifiers.
pub const MOD_AA: u32 = 8;

/// The bit that a modifier sets in an instruction word.
pub open spec fn modifier_mask(m: Modifier) -> u32 {
    match m {
        Modifier::Oe => 0x400,
        Modifier::Rc => 0x1,
        Modifier::Lk => 0x1,
        Modifier::Aa => 0x2,
    }
}

/// The flag of a modifier in a set of modifiers.
pub open spec fn modifier_flag(m: Modifier) -> u32 {
    match m {
        Modifier::Oe => MOD_OE,
        Modifier::Rc => MOD_RC,
        Modifier::Lk => MOD_LK,
        Modifier::Aa => MOD_AA,
    }
}

impl Modifier {
    /// The bit that this modifier sets in an instruction word.
    pub fn mask(self) -> (r: u32)
        ensures
            r == modifier_mask(self),
    {
        match self {
            Modifier::Oe => 0x400,
            Modifier::Rc => 0x1,
            Modifier::Lk => 0x1,
            Modifier::Aa => 0x2,
        }
    }
}

/// The bit range and kind of each operand.
pub open spec fn operand_def(o: Operand) -> (Field, ArgKind) {
    match o {
        Operand::Rd => (Field { shift: 21, width: 5, shift_left: 0, signed: false, split: false }, ArgKind::Gpr),
        Operand::Ra => (Field { shift: 16, width: 5, shift_left: 0, signed: false, split: false }, ArgKind::Gpr),
        Operand::Rb => (Field { shift: 11, width: 5, shift_left: 0, signed: false, split: false }, ArgKind::Gpr),
        Operand::FrD => (Field { shift: 21, width: 5, shift_left: 0, signed: false, split: false }, ArgKind::Fpr),
        Operand::FrA => (Field { shift: 16, width: 5, shift_left: 0, signed: false, split: false }, ArgKind::Fpr),
        Operand::FrB => (Field { shift: 11, width: 5, shift_left: 0, signed: false, split: false }, ArgKind::Fpr),
        Operand::Vd => (Field { shift: 21, width: 5, shift_left: 0, signed: false, split: false }, ArgKind::Vr),
        Operand::Va => (Field { shift: 16, width: 5, shift_left: 0, signed: false, split: false }, ArgKind::Vr),
        Operand::Vb => (Field { shift: 11, width: 5, shift_left: 0, signed: false, split: false }, ArgKind::Vr),
        Operand::Simm => (Field { shift: 0, width: 16, shift_left: 0, signed: true, split: false }, ArgKind::Simm),
        Operand::Uimm => (Field { shift: 0, width: 16, shift_left: 0, signed: false, split: false }, ArgKind::Uimm),
        Operand::Offset => (Field { shift: 0, width: 16, shift_left: 0, signed: true, split: false }, ArgKind::Offset),
        Operand::Ds => (Field { shift: 2, width: 14, shift_left: 2, signed: true, split: false }, ArgKind::Offset),
        Operand::Li => (Field { shift: 2, width: 24, shift_left: 2, signed: true, split: false }, ArgKind::BranchDest),
        Operand::Bd => (Field { shift: 2, width: 14, shift_left: 2, signed: true, split: false }, ArgKind::BranchDest),
        Operand::Bo => (Field { shift: 21, width: 5, shift_left: 0, signed: false, split: false }, ArgKind::OpaqueU),
        Operand::Bi => (Field { shift: 16, width: 5, shift_left: 0, signed: false, split: false }, ArgKind::CrBit),
        Operand::CrfD => (Field { shift: 23, width: 3, shift_left: 0, signed: false, split: false }, ArgKind::CrField),
        Operand::L => (Field { shift: 21, width: 1, shift_left: 0, signed: false, split: false }, ArgKind::OpaqueU),
        Operand::Spr => (Field { shift: 11, width: 10, shift_left: 0, signed: false, split: true }, ArgKind::Spr),
        Operand::Sr => (Field { shift: 16, width: 4, shift_left: 0, signed: false, split: false }, ArgKind::Sr),
        Operand::CrbD => (Field { shift: 21, width: 5, shift_left: 0, signed: false, split: false }, ArgKind::CrBit),
        Operand::CrbA => (Field { shift: 16, width: 5, shift_left: 0, signed: false, split: false }, ArgKind::CrBit),
        Operand::CrbB => (Field { shift: 11, width: 5, shift_left: 0, signed: false, split: false }, ArgKind::CrBit),
        Operand::Sh => (Field { shift: 11, width: 5, shift_left: 0, signed: false, split: false }, ArgKind::OpaqueU),
        Operand::Mb => (Field { shift: 6, width: 5, shift_left: 0, signed: false, split: false }, ArgKind::OpaqueU),
        Operand::Me => (Field { shift: 1, width: 5, shift_left: 0, signed: false, split: false }, ArgKind::OpaqueU),
        Operand::PsOffset => (Field { shift: 0, width: 12, shift_left: 0, signed: true, split: false }, ArgKind::Offset),
        Operand::PsW => (Field { shift: 15, width: 1, shift_left: 0, signed: false, split: false }, ArgKind::OpaqueU),
        Operand::PsI => (Field { shift: 12, width: 3, shift_left: 0, signed: false, split: false }, ArgKind::Gqr),
        Operand::FrC => (Field { shift: 6, width: 5, shift_left: 0, signed: false, split: false }, ArgKind::Fpr),
        Operand::Tbr => (Field { shift: 11, width: 10, shift_left: 0, signed: false, split: true }, ArgKind::OpaqueU),
        Operand::To => (Field { shift: 21, width: 5, shift_left: 0, signed: false, split: false }, ArgKind::OpaqueU),
        Operand::Crm => (Field { shift: 12, width: 8, shift_left: 0, signed: false, split: false }, ArgKind::OpaqueU),
        Operand::CrfS => (Field { shift: 18, width: 3, shift_left: 0, signed: false, split: false }, ArgKind::CrField),
        Operand::Unused => (Field { shift: 0, width: 1, shift_left: 0, signed: false, split: false }, ArgKind::OpaqueU),
    }
}

/// Returns the bit range and kind of `o`.
pub fn operand_info(o: Operand) -> (r: (Field, ArgKind))
    ensures
        r == operand_def(o),
        r.0.wf(),
{
    match o {
        Operand::Rd => (Field { shift: 21, width: 5, shift_left: 0, signed: false, split: false }, ArgKind::Gpr),
        Operand::Ra => (Field { shift: 16, width: 5, shift_left: 0, signed: false, split: false }, ArgKind::Gpr),
        Operand::Rb => (Field { shift: 11, width: 5, shift_left: 0, signed: false, split: false }, ArgKind::Gpr),
        Operand::FrD => (Field { shift: 21, width: 5, shift_left: 0, signed: false, split: false }, ArgKind::Fpr),
        Operand::FrA => (Field { shift: 16, width: 5, shift_left: 0, signed: false, split: false }, ArgKind::Fpr),
        Operand::FrB => (Field { shift: 11, width: 5, shift_left: 0, signed: false, split: false }, ArgKind::Fpr),
        Operand::Vd => (Field { shift: 21, width: 5, shift_left: 0, signed: false, split: false }, ArgKind::Vr),
        Operand::Va => (Field { shift: 16, width: 5, shift_left: 0, signed: false, split: false }, ArgKind::Vr),
        Operand::Vb => (Field { shift: 11, width: 5, shift_left: 0, signed: false, split: false }, ArgKind::Vr),
        Operand::Simm => (Field { shift: 0, width: 16, shift_left: 0, signed: true, split: false }, ArgKind::Simm),
        Operand::Uimm => (Field { shift: 0, width: 16, shift_left: 0, signed: false, split: false }, ArgKind::Uimm),
        Operand::Offset => (Field { shift: 0, width: 16, shift_left: 0, signed: true, split: false }, ArgKind::Offset),
        Operand::Ds => (Field { shift: 2, width: 14, shift_left: 2, signed: true, split: false }, ArgKind::Offset),
        Operand::Li => (Field { shift: 2, width: 24, shift_left: 2, signed: true, split: false }, ArgKind::BranchDest),
        Operand::Bd => (Field { shift: 2, width: 14, shift_left: 2, signed: true, split: false }, ArgKind::BranchDest),
        Operand::Bo => (Field { shift: 21, width: 5, shift_left: 0, signed: false, split: false }, ArgKind::OpaqueU),
        Operand::Bi => (Field { shift: 16, width: 5, shift_left: 0, signed: false, split: false }, ArgKind::CrBit),
        Operand::CrfD => (Field { shift: 23, width: 3, shift_left: 0, signed: false, split: false }, ArgKind::CrField),
        Operand::L => (Field { shift: 21, width: 1, shift_left: 0, signed: false, split: false }, ArgKind::OpaqueU),
        Operand::Spr => (Field { shift: 11, width: 10, shift_left: 0, signed: false, split: true }, ArgKind::Spr),
        Operand::Sr => (Field { shift: 16, width: 4, shift_left: 0, signed: false, split: false }, ArgKind::Sr),
        Operand::CrbD => (Field { shift: 21, width: 5, shift_left: 0, signed: false, split: false }, ArgKind::CrBit),
        Operand::CrbA => (Field { shift: 16, width: 5, shift_left: 0, signed: false, split: false }, ArgKind::CrBit),
        Operand::CrbB => (Field { shift: 11, width: 5, shift_left: 0, signed: false, split: false }, ArgKind::CrBit),
        Operand::Sh => (Field { shift: 11, width: 5, shift_left: 0, signed: false, split: false }, ArgKind::OpaqueU),
        Operand::Mb => (Field { shift: 6, width: 5, shift_left: 0, signed: false, split: false }, ArgKind::OpaqueU),
        Operand::Me => (Field { shift: 1, width: 5, shift_left: 0, signed: false, split: false }, ArgKind::OpaqueU),
        Operand::PsOffset => (Field { shift: 0, width: 12, shift_left: 0, signed: true, split: false }, ArgKind::Offset),
        Operand::PsW => (Field { shift: 15, width: 1, shift_left: 0, signed: false, split: false }, ArgKind::OpaqueU),
        Operand::PsI => (Field { shift: 12, width: 3, shift_left: 0, signed: false, split: false }, ArgKind::Gqr),
        Operand::FrC => (Field { shift: 6, width: 5, shift_left: 0, signed: false, split: false }, ArgKind::Fpr),
        Operand::Tbr => (Field { shift: 11, width: 10, shift_left: 0, signed: false, split: true }, ArgKind::OpaqueU),
        Operand::To => (Field { shift: 21, width: 5, shift_left: 0, signed: false, split: false }, ArgKind::OpaqueU),
        Operand::Crm => (Field { shift: 12, width: 8, shift_left: 0, signed: false, split: false }, ArgKind::OpaqueU),
        Operand::CrfS => (Field { shift: 18, width: 3, shift_left: 0, signed: false, split: false }, ArgKind::CrField),
        Operand::Unused => (Field { shift: 0, width: 1, shift_left: 0, signed: false, split: false }, ArgKind::OpaqueU),
    }
}

/// Every operand's field is well formed.
pub proof fn lemma_operands_wf(o: Operand)
    ensures
        operand_def(o).0.wf(),
{
}

/// For every opcode and every value in the domain of one of its operand
/// fields, inserting the value into a word and reading it back gives the value.
pub proof fn lemma_opcode_round_trip(op: Opcode, j: int, v: int)
    requires
        0 <= j < opcode_def(op).nargs,
        in_domain(operand_def(opcode_def(op).args@[j]).0, v),
    ensures
        field_bits(operand_def(opcode_def(op).args@[j]).0, v) <= u32::MAX,
        field_value(
            operand_def(opcode_def(op).args@[j]).0,
            field_bits(operand_def(opcode_def(op).args@[j]).0, v) as u32,
        ) == v,
{
    let f = operand_def(opcode_def(op).args@[j]).0;
    lemma_operands_wf(opcode_def(op).args@[j]);
    lemma_round_trip(f, v);
}

/// An operation of the instruction set, or `Illegal` for a word that none
/// matches.
#[derive(Clone, Copy, Debug, PartialEq, Eq, Structural, Hash)]
pub enum Opcode {
    Illegal,
    Add,
    Addi,
    Addis,
    B,
    Bc,
    Bcctr,
    Bclr,
    Cmp,
    Cmpi,
    Crxor,
    Fadd,
    Ld,
    Lwz,
    Lwzu,
    Mfspr,
    Mfsr,
    Mtspr,
    Or,
    Ori,
    PsAdd,
    PsqL,
    Rlwinm,
    Stw,
    Stwu,
    Sync,
    Vaddubm,
    Addic,
    AddicDot,
    And,
    Andc,
    AndiDot,
    AndisDot,
    Cmpl,
    Cmpli,
    Cntlzw,
    Dcbf,
    Divw,
    Divwu,
    Eieio,
    Extsb,
    Extsh,
    Fadds,
    Fcmpu,
    Fctiwz,
    Fdiv,
    Fmr,
    Fmul,
    Fmuls,
    Fneg,
    Frsp,
    Fsub,
    Icbi,
    Isync,
    Lbz,
    Lbzu,
    Ldu,
    Lfd,
    Lfs,
    Lha,
    Lhz,
    Lhzu,
    Lmw,
    Lwzx,
    Mfcr,
    Mfmsr,
    Mftb,
    Mtcrf,
    Mtmsr,
    Mtsr,
    Mulli,
    Mullw,
    Neg,
    Nor,
    Oris,
    PsMerge00,
    PsMr,
    PsMul,
    PsSub,
    PsqSt,
    Rfi,
    Rlwimi,
    Rlwnm,
    Sc,
    Slw,
    Sraw,
    Srawi,
    Srw,
    Stb,
    Stbu,
    Std,
    Stfd,
    Stfs,
    Sth,
    Sthu,
    Stmw,
    Stwx,
    Subf,
    Subfic,
    Tw,
    Twi,
    Vand,
    Vor,
    Vxor,
    Xor,
    Xori,
    Xoris,
}

impl Default for Opcode {
    fn default() -> (r: Self)
        ensures
            r == Opcode::Illegal,
    {
        Opcode::Illegal
    }
}

/// The static description of one opcode.
#[derive(Clone, Copy, Debug)]
pub struct OpcodeRow {
    pub name: &'static str,
    /// The fixed bits of the opcode.
    pub pattern: u32,
    /// Which bits of a word are fixed.
    pub mask: u32,
    /// The extension that must be enabled for the opcode to be recognised.
    pub ext: Option<Extension>,
    /// The set of modifiers that the opcode admits, as flags.
    pub mods: u32,
    /// The operands, in order; the first `nargs` are used.
    pub args: [Operand; 5],
    pub nargs: usize,
    /// The registers that the operation writes; the first `ndefs` are used.
    pub defs: [Operand; 3],
    pub ndefs: usize,
    /// The registers that the operation reads; the first `nuses` are used.
    pub uses: [Operand; 3],
    pub nuses: usize,
}

/// The number of opcodes, `Illegal` not counted.
pub const NUM_OPCODES: usize = 106;

/// The instruction-set description of each opcode.
#[verifier::opaque]
pub open spec fn opcode_def(op: Opcode) -> OpcodeRow {
    match op {
        Opcode::Add => OpcodeRow {
            name: "add",
            pattern: 0x7c000214,
            mask: 0xfc0003fe,
            ext: None,
            mods: MOD_OE | MOD_RC,
            args: [Operand::Rd, Operand::Ra, Operand::Rb, Operand::Unused, Operand::Unused],
            nargs: 3,
            defs: [Operand::Rd, Operand::Unused, Operand::Unused],
            ndefs: 1,
            uses: [Operand::Ra, Operand::Rb, Operand::Unused],
            nuses: 2,
        },
        Opcode::Addi => OpcodeRow {
            name: "addi",
            pattern: 0x38000000,
            mask: 0xfc000000,
            ext: None,
            mods: 0,
            args: [Operand::Rd, Operand::Ra, Operand::Simm, Operand::Unused, Operand::Unused],
            nargs: 3,
            defs: [Operand::Rd, Operand::Unused, Operand::Unused],
            ndefs: 1,
            uses: [Operand::Ra, Operand::Unused, Operand::Unused],
            nuses: 1,
        },
        Opcode::Addis => OpcodeRow {
            name: "addis",
            pattern: 0x3c000000,
            mask: 0xfc000000,
            ext: None,
            mods: 0,
            args: [Operand::Rd, Operand::Ra, Operand::Uimm, Operand::Unused, Operand::Unused],
            nargs: 3,
            defs: [Operand::Rd, Operand::Unused, Operand::Unused],
            ndefs: 1,
            uses: [Operand::Ra, Operand::Unused, Operand::Unused],
            nuses: 1,
        },
        Opcode::B => OpcodeRow {
            name: "b",
            pattern: 0x48000000,
            mask: 0xfc000000,
            ext: None,
            mods: MOD_AA | MOD_LK,
            args: [Operand::Li, Operand::Unused, Operand::Unused, Operand::Unused, Operand::Unused],
            nargs: 1,
            defs: [Operand::Unused, Operand::Unused, Operand::Unused],
            ndefs: 0,
            uses: [Operand::Unused, Operand::Unused, Operand::Unused],
            nuses: 0,
        },
        Opcode::Bc => OpcodeRow {
            name: "bc",
            pattern: 0x40000000,
            mask: 0xfc000000,
            ext: None,
            mods: MOD_AA | MOD_LK,
            args: [Operand::Bo, Operand::Bi, Operand::Bd, Operand::Unused, Operand::Unused],
            nargs: 3,
            defs: [Operand::Unused, Operand::Unused, Operand::Unused],
            ndefs: 0,
            uses: [Operand::Unused, Operand::Unused, Operand::Unused],
            nuses: 0,
        },
        Opcode::Bcctr => OpcodeRow {
            name: "bcctr",
            pattern: 0x4c000420,
            mask: 0xfc00fffe,
            ext: None,
            mods: MOD_LK,
            args: [Operand::Bo, Operand::Bi, Operand::Unused, Operand::Unused, Operand::Unused],
            nargs: 2,
            defs: [Operand::Unused, Operand::Unused, Operand::Unused],
            ndefs: 0,
            uses: [Operand::Unused, Operand::Unused, Operand::Unused],
            nuses: 0,
        },
        Opcode::Bclr => OpcodeRow {
            name: "bclr",
            pattern: 0x4c000020,
            mask: 0xfc00fffe,
            ext: None,
            mods: MOD_LK,
            args: [Operand::Bo, Operand::Bi, Operand::Unused, Operand::Unused, Operand::Unused],
            nargs: 2,
            defs: [Operand::Unused, Operand::Unused, Operand::Unused],
            ndefs: 0,
            uses: [Operand::Unused, Operand::Unused, Operand::Unused],
            nuses: 0,
        },
        Opcode::Cmp => OpcodeRow {
            name: "cmp",
            pattern: 0x7c000000,
            mask: 0xfc4007ff,
            ext: None,
            mods: 0,
            args: [Operand::CrfD, Operand::L, Operand::Ra, Operand::Rb, Operand::Unused],
            nargs: 4,
            defs: [Operand::CrfD, Operand::Unused, Operand::Unused],
            ndefs: 1,
            uses: [Operand::Ra, Operand::Rb, Operand::Unused],
            nuses: 2,
        },
        Opcode::Cmpi => OpcodeRow {
            name: "cmpi",
            pattern: 0x2c000000,
            mask: 0xfc400000,
            ext: None,
            mods: 0,
            args: [Operand::CrfD, Operand::L, Operand::Ra, Operand::Simm, Operand::Unused],
            nargs: 4,
            defs: [Operand::CrfD, Operand::Unused, Operand::Unused],
            ndefs: 1,
            uses: [Operand::Ra, Operand::Unused, Operand::Unused],
            nuses: 1,
        },
        Opcode::Crxor => OpcodeRow {
            name: "crxor",
            pattern: 0x4c000182,
            mask: 0xfc0007ff,
            ext: None,
            mods: 0,
            args: [Operand::CrbD, Operand::CrbA, Operand::CrbB, Operand::Unused, Operand::Unused],
            nargs: 3,
            defs: [Operand::CrbD, Operand::Unused, Operand::Unused],
            ndefs: 1,
            uses: [Operand::CrbA, Operand::CrbB, Operand::Unused],
            nuses: 2,
        },
        Opcode::Fadd => OpcodeRow {
            name: "fadd",
            pattern: 0xfc00002a,
            mask: 0xfc0007fe,
            ext: None,
            mods: MOD_RC,
            args: [Operand::FrD, Operand::FrA, Operand::FrB, Operand::Unused, Operand::Unused],
            nargs: 3,
            defs: [Operand::FrD, Operand::Unused, Operand::Unused],
            ndefs: 1,
            uses: [Operand::FrA, Operand::FrB, Operand::Unused],
            nuses: 2,
        },
        Opcode::Ld => OpcodeRow {
            name: "ld",
            pattern: 0xe8000000,
            mask: 0xfc000003,
            ext: Some(Extension::Ppc64),
            mods: 0,
            args: [Operand::Rd, Operand::Ds, Operand::Ra, Operand::Unused, Operand::Unused],
            nargs: 3,
            defs: [Operand::Rd, Operand::Unused, Operand::Unused],
            ndefs: 1,
            uses: [Operand::Ra, Operand::Unused, Operand::Unused],
            nuses: 1,
        },
        Opcode::Lwz => OpcodeRow {
            name: "lwz",
            pattern: 0x80000000,
            mask: 0xfc000000,
            ext: None,
            mods: 0,
            args: [Operand::Rd, Operand::Offset, Operand::Ra, Operand::Unused, Operand::Unused],
            nargs: 3,
            defs: [Operand::Rd, Operand::Unused, Operand::Unused],
            ndefs: 1,
            uses: [Operand::Ra, Operand::Unused, Operand::Unused],
            nuses: 1,
        },
        Opcode::Lwzu => OpcodeRow {
            name: "lwzu",
            pattern: 0x84000000,
            mask: 0xfc000000,
            ext: None,
            mods: 0,
            args: [Operand::Rd, Operand::Offset, Operand::Ra, Operand::Unused, Operand::Unused],
            nargs: 3,
            defs: [Operand::Rd, Operand::Ra, Operand::Unused],
            ndefs: 2,
            uses: [Operand::Ra, Operand::Unused, Operand::Unused],
            nuses: 1,
        },
        Opcode::Mfspr => OpcodeRow {
            name: "mfspr",
            pattern: 0x7c0002a6,
            mask: 0xfc0007ff,
            ext: None,
            mods: 0,
            args: [Operand::Rd, Operand::Spr, Operand::Unused, Operand::Unused, Operand::Unused],
            nargs: 2,
            defs: [Operand::Rd, Operand::Unused, Operand::Unused],
            ndefs: 1,
            uses: [Operand::Spr, Operand::Unused, Operand::Unused],
            nuses: 1,
        },
        Opcode::Mfsr => OpcodeRow {
            name: "mfsr",
            pattern: 0x7c0004a6,
            mask: 0xfc10ffff,
            ext: None,
            mods: 0,
            args: [Operand::Rd, Operand::Sr, Operand::Unused, Operand::Unused, Operand::Unused],
            nargs: 2,
            defs: [Operand::Rd, Operand::Unused, Operand::Unused],
            ndefs: 1,
            uses: [Operand::Sr, Operand::Unused, Operand::Unused],
            nuses: 1,
        },
        Opcode::Mtspr => OpcodeRow {
            name: "mtspr",
            pattern: 0x7c0003a6,
            mask: 0xfc0007ff,
            ext: None,
            mods: 0,
            args: [Operand::Spr, Operand::Rd, Operand::Unused, Operand::Unused, Operand::Unused],
            nargs: 2,
            defs: [Operand::Spr, Operand::Unused, Operand::Unused],
            ndefs: 1,
            uses: [Operand::Rd, Operand::Unused, Operand::Unused],
            nuses: 1,
        },
        Opcode::Or => OpcodeRow {
            name: "or",
            pattern: 0x7c000378,
            mask: 0xfc0007fe,
            ext: None,
            mods: MOD_RC,
            args: [Operand::Ra, Operand::Rd, Operand::Rb, Operand::Unused, Operand::Unused],
            nargs: 3,
            defs: [Operand::Ra, Operand::Unused, Operand::Unused],
            ndefs: 1,
            uses: [Operand::Rd, Operand::Rb, Operand::Unused],
            nuses: 2,
        },
        Opcode::Ori => OpcodeRow {
            name: "ori",
            pattern: 0x60000000,
            mask: 0xfc000000,
            ext: None,
            mods: 0,
            args: [Operand::Ra, Operand::Rd, Operand::Uimm, Operand::Unused, Operand::Unused],
            nargs: 3,
            defs: [Operand::Ra, Operand::Unused, Operand::Unused],
            ndefs: 1,
            uses: [Operand::Rd, Operand::Unused, Operand::Unused],
            nuses: 1,
        },
        Opcode::PsAdd => OpcodeRow {
            name: "ps_add",
            pattern: 0x1000002a,
            mask: 0xfc0007fe,
            ext: Some(Extension::PairedSingles),
            mods: MOD_RC,
            args: [Operand::FrD, Operand::FrA, Operand::FrB, Operand::Unused, Operand::Unused],
            nargs: 3,
            defs: [Operand::FrD, Operand::Unused, Operand::Unused],
            ndefs: 1,
            uses: [Operand::FrA, Operand::FrB, Operand::Unused],
            nuses: 2,
        },
        Opcode::PsqL => OpcodeRow {
            name: "psq_l",
            pattern: 0xe0000000,
            mask: 0xfc000000,
            ext: Some(Extension::PairedSingles),
            mods: 0,
            args: [Operand::FrD, Operand::PsOffset, Operand::Ra, Operand::PsW, Operand::PsI],
            nargs: 5,
            defs: [Operand::FrD, Operand::Unused, Operand::Unused],
            ndefs: 1,
            uses: [Operand::Ra, Operand::Unused, Operand::Unused],
            nuses: 1,
        },
        Opcode::Rlwinm => OpcodeRow {
            name: "rlwinm",
            pattern: 0x54000000,
            mask: 0xfc000000,
            ext: None,
            mods: MOD_RC,
            args: [Operand::Ra, Operand::Rd, Operand::Sh, Operand::Mb, Operand::Me],
            nargs: 5,
            defs: [Operand::Ra, Operand::Unused, Operand::Unused],
            ndefs: 1,
            uses: [Operand::Rd, Operand::Unused, Operand::Unused],
            nuses: 1,
        },
        Opcode::Stw => OpcodeRow {
            name: "stw",
            pattern: 0x90000000,
            mask: 0xfc000000,
            ext: None,
            mods: 0,
            args: [Operand::Rd, Operand::Offset, Operand::Ra, Operand::Unused, Operand::Unused],
            nargs: 3,
            defs: [Operand::Unused, Operand::Unused, Operand::Unused],
            ndefs: 0,
            uses: [Operand::Rd, Operand::Ra, Operand::Unused],
            nuses: 2,
        },
        Opcode::Stwu => OpcodeRow {
            name: "stwu",
            pattern: 0x94000000,
            mask: 0xfc000000,
            ext: None,
            mods: 0,
            args: [Operand::Rd, Operand::Offset, Operand::Ra, Operand::Unused, Operand::Unused],
            nargs: 3,
            defs: [Operand::Ra, Operand::Unused, Operand::Unused],
            ndefs: 1,
            uses: [Operand::Rd, Operand::Ra, Operand::Unused],
            nuses: 2,
        },
        Opcode::Sync => OpcodeRow {
            name: "sync",
            pattern: 0x7c0004ac,
            mask: 0xffffffff,
            ext: None,
            mods: 0,
            args: [Operand::Unused, Operand::Unused, Operand::Unused, Operand::Unused, Operand::Unused],
            nargs: 0,
            defs: [Operand::Unused, Operand::Unused, Operand::Unused],
            ndefs: 0,
            uses: [Operand::Unused, Operand::Unused, Operand::Unused],
            nuses: 0,
        },
        Opcode::Vaddubm => OpcodeRow {
            name: "vaddubm",
            pattern: 0x10000000,
            mask: 0xfc0007ff,
            ext: Some(Extension::AltiVec),
            mods: 0,
            args: [Operand::Vd, Operand::Va, Operand::Vb, Operand::Unused, Operand::Unused],
            nargs: 3,
            defs: [Operand::Vd, Operand::Unused, Operand::Unused],
            ndefs: 1,
            uses: [Operand::Va, Operand::Vb, Operand::Unused],
            nuses: 2,
        },
        Opcode::Addic => OpcodeRow {
            name: "addic",
            pattern: 0x30000000,
            mask: 0xfc000000,
            ext: None,
            mods: 0,
            args: [Operand::Rd, Operand::Ra, Operand::Simm, Operand::Unused, Operand::Unused],
            nargs: 3,
            defs: [Operand::Rd, Operand::Unused, Operand::Unused],
            ndefs: 1,
            uses: [Operand::Ra, Operand::Unused, Operand::Unused],
            nuses: 1,
        },
        Opcode::AddicDot => OpcodeRow {
            name: "addic.",
            pattern: 0x34000000,
            mask: 0xfc000000,
            ext: None,
            mods: 0,
            args: [Operand::Rd, Operand::Ra, Operand::Simm, Operand::Unused, Operand::Unused],
            nargs: 3,
            defs: [Operand::Rd, Operand::Unused, Operand::Unused],
            ndefs: 1,
            uses: [Operand::Ra, Operand::Unused, Operand::Unused],
            nuses: 1,
        },
        Opcode::And => OpcodeRow {
            name: "and",
            pattern: 0x7c000038,
            mask: 0xfc0007fe,
            ext: None,
            mods: MOD_RC,
            args: [Operand::Ra, Operand::Rd, Operand::Rb, Operand::Unused, Operand::Unused],
            nargs: 3,
            defs: [Operand::Ra, Operand::Unused, Operand::Unused],
            ndefs: 1,
            uses: [Operand::Rd, Operand::Rb, Operand::Unused],
            nuses: 2,
        },
        Opcode::Andc => OpcodeRow {
            name: "andc",
            pattern: 0x7c000078,
            mask: 0xfc0007fe,
            ext: None,
            mods: MOD_RC,
            args: [Operand::Ra, Operand::Rd, Operand::Rb, Operand::Unused, Operand::Unused],
            nargs: 3,
            defs: [Operand::Ra, Operand::Unused, Operand::Unused],
            ndefs: 1,
            uses: [Operand::Rd, Operand::Rb, Operand::Unused],
            nuses: 2,
        },
        Opcode::AndiDot => OpcodeRow {
            name: "andi.",
            pattern: 0x70000000,
            mask: 0xfc000000,
            ext: None,
            mods: 0,
            args: [Operand::Ra, Operand::Rd, Operand::Uimm, Operand::Unused, Operand::Unused],
            nargs: 3,
            defs: [Operand::Ra, Operand::Unused, Operand::Unused],
            ndefs: 1,
            uses: [Operand::Rd, Operand::Unused, Operand::Unused],
            nuses: 1,
        },
        Opcode::AndisDot => OpcodeRow {
            name: "andis.",
            pattern: 0x74000000,
            mask: 0xfc000000,
            ext: None,
            mods: 0,
            args: [Operand::Ra, Operand::Rd, Operand::Uimm, Operand::Unused, Operand::Unused],
            nargs: 3,
            defs: [Operand::Ra, Operand::Unused, Operand::Unused],
            ndefs: 1,
            uses: [Operand::Rd, Operand::Unused, Operand::Unused],
            nuses: 1,
        },
        Opcode::Cmpl => OpcodeRow {
            name: "cmpl",
            pattern: 0x7c000040,
            mask: 0xfc4007ff,
            ext: None,
            mods: 0,
            args: [Operand::CrfD, Operand::L, Operand::Ra, Operand::Rb, Operand::Unused],
            nargs: 4,
            defs: [Operand::CrfD, Operand::Unused, Operand::Unused],
            ndefs: 1,
            uses: [Operand::Ra, Operand::Rb, Operand::Unused],
            nuses: 2,
        },
        Opcode::Cmpli => OpcodeRow {
            name: "cmpli",
            pattern: 0x28000000,
            mask: 0xfc400000,
            ext: None,
            mods: 0,
            args: [Operand::CrfD, Operand::L, Operand::Ra, Operand::Uimm, Operand::Unused],
            nargs: 4,
            defs: [Operand::CrfD, Operand::Unused, Operand::Unused],
            ndefs: 1,
            uses: [Operand::Ra, Operand::Unused, Operand::Unused],
            nuses: 1,
        },
        Opcode::Cntlzw => OpcodeRow {
            name: "cntlzw",
            pattern: 0x7c000034,
            mask: 0xfc00fffe,
            ext: None,
            mods: MOD_RC,
            args: [Operand::Ra, Operand::Rd, Operand::Unused, Operand::Unused, Operand::Unused],
            nargs: 2,
            defs: [Operand::Ra, Operand::Unused, Operand::Unused],
            ndefs: 1,
            uses: [Operand::Rd, Operand::Unused, Operand::Unused],
            nuses: 1,
        },
        Opcode::Dcbf => OpcodeRow {
            name: "dcbf",
            pattern: 0x7c0000ac,
            mask: 0xffe007ff,
            ext: None,
            mods: 0,
            args: [Operand::Ra, Operand::Rb, Operand::Unused, Operand::Unused, Operand::Unused],
            nargs: 2,
            defs: [Operand::Unused, Operand::Unused, Operand::Unused],
            ndefs: 0,
            uses: [Operand::Ra, Operand::Rb, Operand::Unused],
            nuses: 2,
        },
        Opcode::Divw => OpcodeRow {
            name: "divw",
            pattern: 0x7c0003d6,
            mask: 0xfc0003fe,
            ext: None,
            mods: MOD_OE | MOD_RC,
            args: [Operand::Rd, Operand::Ra, Operand::Rb, Operand::Unused, Operand::Unused],
            nargs: 3,
            defs: [Operand::Rd, Operand::Unused, Operand::Unused],
            ndefs: 1,
            uses: [Operand::Ra, Operand::Rb, Operand::Unused],
            nuses: 2,
        },
        Opcode::Divwu => OpcodeRow {
            name: "divwu",
            pattern: 0x7c000396,
            mask: 0xfc0003fe,
            ext: None,
            mods: MOD_OE | MOD_RC,
            args: [Operand::Rd, Operand::Ra, Operand::Rb, Operand::Unused, Operand::Unused],
            nargs: 3,
            defs: [Operand::Rd, Operand::Unused, Operand::Unused],
            ndefs: 1,
            uses: [Operand::Ra, Operand::Rb, Operand::Unused],
            nuses: 2,
        },
        Opcode::Eieio => OpcodeRow {
            name: "eieio",
            pattern: 0x7c0006ac,
            mask: 0xffffffff,
            ext: None,
            mods: 0,
            args: [Operand::Unused, Operand::Unused, Operand::Unused, Operand::Unused, Operand::Unused],
            nargs: 0,
            defs: [Operand::Unused, Operand::Unused, Operand::Unused],
            ndefs: 0,
            uses: [Operand::Unused, Operand::Unused, Operand::Unused],
            nuses: 0,
        },
        Opcode::Extsb => OpcodeRow {
            name: "extsb",
            pattern: 0x7c000774,
            mask: 0xfc00fffe,
            ext: None,
            mods: MOD_RC,
            args: [Operand::Ra, Operand::Rd, Operand::Unused, Operand::Unused, Operand::Unused],
            nargs: 2,
            defs: [Operand::Ra, Operand::Unused, Operand::Unused],
            ndefs: 1,
            uses: [Operand::Rd, Operand::Unused, Operand::Unused],
            nuses: 1,
        },
        Opcode::Extsh => OpcodeRow {
            name: "extsh",
            pattern: 0x7c000734,
            mask: 0xfc00fffe,
            ext: None,
            mods: MOD_RC,
            args: [Operand::Ra, Operand::Rd, Operand::Unused, Operand::Unused, Operand::Unused],
            nargs: 2,
            defs: [Operand::Ra, Operand::Unused, Operand::Unused],
            ndefs: 1,
            uses: [Operand::Rd, Operand::Unused, Operand::Unused],
            nuses: 1,
        },
        Opcode::Fadds => OpcodeRow {
            name: "fadds",
            pattern: 0xec00002a,
            mask: 0xfc0007fe,
            ext: None,
            mods: MOD_RC,
            args: [Operand::FrD, Operand::FrA, Operand::FrB, Operand::Unused, Operand::Unused],
            nargs: 3,
            defs: [Operand::FrD, Operand::Unused, Operand::Unused],
            ndefs: 1,
            uses: [Operand::FrA, Operand::FrB, Operand::Unused],
            nuses: 2,
        },
        Opcode::Fcmpu => OpcodeRow {
            name: "fcmpu",
            pattern: 0xfc000000,
            mask: 0xfc6007ff,
            ext: None,
            mods: 0,
            args: [Operand::CrfD, Operand::FrA, Operand::FrB, Operand::Unused, Operand::Unused],
            nargs: 3,
            defs: [Operand::CrfD, Operand::Unused, Operand::Unused],
            ndefs: 1,
            uses: [Operand::FrA, Operand::FrB, Operand::Unused],
            nuses: 2,
        },
        Opcode::Fctiwz => OpcodeRow {
            name: "fctiwz",
            pattern: 0xfc00001e,
            mask: 0xfc1f07fe,
            ext: None,
            mods: MOD_RC,
            args: [Operand::FrD, Operand::FrB, Operand::Unused, Operand::Unused, Operand::Unused],
            nargs: 2,
            defs: [Operand::FrD, Operand::Unused, Operand::Unused],
            ndefs: 1,
            uses: [Operand::FrB, Operand::Unused, Operand::Unused],
            nuses: 1,
        },
        Opcode::Fdiv => OpcodeRow {
            name: "fdiv",
            pattern: 0xfc000024,
            mask: 0xfc0007fe,
            ext: None,
            mods: MOD_RC,
            args: [Operand::FrD, Operand::FrA, Operand::FrB, Operand::Unused, Operand::Unused],
            nargs: 3,
            defs: [Operand::FrD, Operand::Unused, Operand::Unused],
            ndefs: 1,
            uses: [Operand::FrA, Operand::FrB, Operand::Unused],
            nuses: 2,
        },
        Opcode::Fmr => OpcodeRow {
            name: "fmr",
            pattern: 0xfc000090,
            mask: 0xfc1f07fe,
            ext: None,
            mods: MOD_RC,
            args: [Operand::FrD, Operand::FrB, Operand::Unused, Operand::Unused, Operand::Unused],
            nargs: 2,
            defs: [Operand::FrD, Operand::Unused, Operand::Unused],
            ndefs: 1,
            uses: [Operand::FrB, Operand::Unused, Operand::Unused],
            nuses: 1,
        },
        Opcode::Fmul => OpcodeRow {
            name: "fmul",
            pattern: 0xfc000032,
            mask: 0xfc00f83e,
            ext: None,
            mods: MOD_RC,
            args: [Operand::FrD, Operand::FrA, Operand::FrC, Operand::Unused, Operand::Unused],
            nargs: 3,
            defs: [Operand::FrD, Operand::Unused, Operand::Unused],
            ndefs: 1,
            uses: [Operand::FrA, Operand::FrC, Operand::Unused],
            nuses: 2,
        },
        Opcode::Fmuls => OpcodeRow {
            name: "fmuls",
            pattern: 0xec000032,
            mask: 0xfc00f83e,
            ext: None,
            mods: MOD_RC,
            args: [Operand::FrD, Operand::FrA, Operand::FrC, Operand::Unused, Operand::Unused],
            nargs: 3,
            defs: [Operand::FrD, Operand::Unused, Operand::Unused],
            ndefs: 1,
            uses: [Operand::FrA, Operand::FrC, Operand::Unused],
            nuses: 2,
        },
        Opcode::Fneg => OpcodeRow {
            name: "fneg",
            pattern: 0xfc000050,
            mask: 0xfc1f07fe,
            ext: None,
            mods: MOD_RC,
            args: [Operand::FrD, Operand::FrB, Operand::Unused, Operand::Unused, Operand::Unused],
            nargs: 2,
            defs: [Operand::FrD, Operand::Unused, Operand::Unused],
            ndefs: 1,
            uses: [Operand::FrB, Operand::Unused, Operand::Unused],
            nuses: 1,
        },
        Opcode::Frsp => OpcodeRow {
            name: "frsp",
            pattern: 0xfc000018,
            mask: 0xfc1f07fe,
            ext: None,
            mods: MOD_RC,
            args: [Operand::FrD, Operand::FrB, Operand::Unused, Operand::Unused, Operand::Unused],
            nargs: 2,
            defs: [Operand::FrD, Operand::Unused, Operand::Unused],
            ndefs: 1,
            uses: [Operand::FrB, Operand::Unused, Operand::Unused],
            nuses: 1,
        },
        Opcode::Fsub => OpcodeRow {
            name: "fsub",
            pattern: 0xfc000028,
            mask: 0xfc0007fe,
            ext: None,
            mods: MOD_RC,
            args: [Operand::FrD, Operand::FrA, Operand::FrB, Operand::Unused, Operand::Unused],
            nargs: 3,
            defs: [Operand::FrD, Operand::Unused, Operand::Unused],
            ndefs: 1,
            uses: [Operand::FrA, Operand::FrB, Operand::Unused],
            nuses: 2,
        },
        Opcode::Icbi => OpcodeRow {
            name: "icbi",
            pattern: 0x7c0007ac,
            mask: 0xffe007ff,
            ext: None,
            mods: 0,
            args: [Operand::Ra, Operand::Rb, Operand::Unused, Operand::Unused, Operand::Unused],
            nargs: 2,
            defs: [Operand::Unused, Operand::Unused, Operand::Unused],
            ndefs: 0,
            uses: [Operand::Ra, Operand::Rb, Operand::Unused],
            nuses: 2,
        },
        Opcode::Isync => OpcodeRow {
            name: "isync",
            pattern: 0x4c00012c,
            mask: 0xffffffff,
            ext: None,
            mods: 0,
            args: [Operand::Unused, Operand::Unused, Operand::Unused, Operand::Unused, Operand::Unused],
            nargs: 0,
            defs: [Operand::Unused, Operand::Unused, Operand::Unused],
            ndefs: 0,
            uses: [Operand::Unused, Operand::Unused, Operand::Unused],
            nuses: 0,
        },
        Opcode::Lbz => OpcodeRow {
            name: "lbz",
            pattern: 0x88000000,
            mask: 0xfc000000,
            ext: None,
            mods: 0,
            args: [Operand::Rd, Operand::Offset, Operand::Ra, Operand::Unused, Operand::Unused],
            nargs: 3,
            defs: [Operand::Rd, Operand::Unused, Operand::Unused],
            ndefs: 1,
            uses: [Operand::Ra, Operand::Unused, Operand::Unused],
            nuses: 1,
        },
        Opcode::Lbzu => OpcodeRow {
            name: "lbzu",
            pattern: 0x8c000000,
            mask: 0xfc000000,
            ext: None,
            mods: 0,
            args: [Operand::Rd, Operand::Offset, Operand::Ra, Operand::Unused, Operand::Unused],
            nargs: 3,
            defs: [Operand::Rd, Operand::Ra, Operand::Unused],
            ndefs: 2,
            uses: [Operand::Ra, Operand::Unused, Operand::Unused],
            nuses: 1,
        },
        Opcode::Ldu => OpcodeRow {
            name: "ldu",
            pattern: 0xe8000001,
            mask: 0xfc000003,
            ext: Some(Extension::Ppc64),
            mods: 0,
            args: [Operand::Rd, Operand::Ds, Operand::Ra, Operand::Unused, Operand::Unused],
            nargs: 3,
            defs: [Operand::Rd, Operand::Ra, Operand::Unused],
            ndefs: 2,
            uses: [Operand::Ra, Operand::Unused, Operand::Unused],
            nuses: 1,
        },
        Opcode::Lfd => OpcodeRow {
            name: "lfd",
            pattern: 0xc8000000,
            mask: 0xfc000000,
            ext: None,
            mods: 0,
            args: [Operand::FrD, Operand::Offset, Operand::Ra, Operand::Unused, Operand::Unused],
            nargs: 3,
            defs: [Operand::FrD, Operand::Unused, Operand::Unused],
            ndefs: 1,
            uses: [Operand::Ra, Operand::Unused, Operand::Unused],
            nuses: 1,
        },
        Opcode::Lfs => OpcodeRow {
            name: "lfs",
            pattern: 0xc0000000,
            mask: 0xfc000000,
            ext: None,
            mods: 0,
            args: [Operand::FrD, Operand::Offset, Operand::Ra, Operand::Unused, Operand::Unused],
            nargs: 3,
            defs: [Operand::FrD, Operand::Unused, Operand::Unused],
            ndefs: 1,
            uses: [Operand::Ra, Operand::Unused, Operand::Unused],
            nuses: 1,
        },
        Opcode::Lha => OpcodeRow {
            name: "lha",
            pattern: 0xa8000000,
            mask: 0xfc000000,
            ext: None,
            mods: 0,
            args: [Operand::Rd, Operand::Offset, Operand::Ra, Operand::Unused, Operand::Unused],
            nargs: 3,
            defs: [Operand::Rd, Operand::Unused, Operand::Unused],
            ndefs: 1,
            uses: [Operand::Ra, Operand::Unused, Operand::Unused],
            nuses: 1,
        },
        Opcode::Lhz => OpcodeRow {
            name: "lhz",
            pattern: 0xa0000000,
            mask: 0xfc000000,
            ext: None,
            mods: 0,
            args: [Operand::Rd, Operand::Offset, Operand::Ra, Operand::Unused, Operand::Unused],
            nargs: 3,
            defs: [Operand::Rd, Operand::Unused, Operand::Unused],
            ndefs: 1,
            uses: [Operand::Ra, Operand::Unused, Operand::Unused],
            nuses: 1,
        },
        Opcode::Lhzu => OpcodeRow {
            name: "lhzu",
            pattern: 0xa4000000,
            mask: 0xfc000000,
            ext: None,
            mods: 0,
            args: [Operand::Rd, Operand::Offset, Operand::Ra, Operand::Unused, Operand::Unused],
            nargs: 3,
            defs: [Operand::Rd, Operand::Ra, Operand::Unused],
            ndefs: 2,
            uses: [Operand::Ra, Operand::Unused, Operand::Unused],
            nuses: 1,
        },
        Opcode::Lmw => OpcodeRow {
            name: "lmw",
            pattern: 0xb8000000,
            mask: 0xfc000000,
            ext: None,
            mods: 0,
            args: [Operand::Rd, Operand::Offset, Operand::Ra, Operand::Unused, Operand::Unused],
            nargs: 3,
            defs: [Operand::Rd, Operand::Unused, Operand::Unused],
            ndefs: 1,
            uses: [Operand::Ra, Operand::Unused, Operand::Unused],
            nuses: 1,
        },
        Opcode::Lwzx => OpcodeRow {
            name: "lwzx",
            pattern: 0x7c00002e,
            mask: 0xfc0007ff,
            ext: None,
            mods: 0,
            args: [Operand::Rd, Operand::Ra, Operand::Rb, Operand::Unused, Operand::Unused],
            nargs: 3,
            defs: [Operand::Rd, Operand::Unused, Operand::Unused],
            ndefs: 1,
            uses: [Operand::Ra, Operand::Rb, Operand::Unused],
            nuses: 2,
        },
        Opcode::Mfcr => OpcodeRow {
            name: "mfcr",
            pattern: 0x7c000026,
            mask: 0xfc1fffff,
            ext: None,
            mods: 0,
            args: [Operand::Rd, Operand::Unused, Operand::Unused, Operand::Unused, Operand::Unused],
            nargs: 1,
            defs: [Operand::Rd, Operand::Unused, Operand::Unused],
            ndefs: 1,
            uses: [Operand::Unused, Operand::Unused, Operand::Unused],
            nuses: 0,
        },
        Opcode::Mfmsr => OpcodeRow {
            name: "mfmsr",
            pattern: 0x7c0000a6,
            mask: 0xfc1fffff,
            ext: None,
            mods: 0,
            args: [Operand::Rd, Operand::Unused, Operand::Unused, Operand::Unused, Operand::Unused],
            nargs: 1,
            defs: [Operand::Rd, Operand::Unused, Operand::Unused],
            ndefs: 1,
            uses: [Operand::Unused, Operand::Unused, Operand::Unused],
            nuses: 0,
        },
        Opcode::Mftb => OpcodeRow {
            name: "mftb",
            pattern: 0x7c0002e6,
            mask: 0xfc0007ff,
            ext: None,
            mods: 0,
            args: [Operand::Rd, Operand::Tbr, Operand::Unused, Operand::Unused, Operand::Unused],
            nargs: 2,
            defs: [Operand::Rd, Operand::Unused, Operand::Unused],
            ndefs: 1,
            uses: [Operand::Unused, Operand::Unused, Operand::Unused],
            nuses: 0,
        },
        Opcode::Mtcrf => OpcodeRow {
            name: "mtcrf",
            pattern: 0x7c000120,
            mask: 0xfc100fff,
            ext: None,
            mods: 0,
            args: [Operand::Crm, Operand::Rd, Operand::Unused, Operand::Unused, Operand::Unused],
            nargs: 2,
            defs: [Operand::Unused, Operand::Unused, Operand::Unused],
            ndefs: 0,
            uses: [Operand::Rd, Operand::Unused, Operand::Unused],
            nuses: 1,
        },
        Opcode::Mtmsr => OpcodeRow {
            name: "mtmsr",
            pattern: 0x7c000124,
            mask: 0xfc1fffff,
            ext: None,
            mods: 0,
            args: [Operand::Rd, Operand::Unused, Operand::Unused, Operand::Unused, Operand::Unused],
            nargs: 1,
            defs: [Operand::Unused, Operand::Unused, Operand::Unused],
            ndefs: 0,
            uses: [Operand::Rd, Operand::Unused, Operand::Unused],
            nuses: 1,
        },
        Opcode::Mtsr => OpcodeRow {
            name: "mtsr",
            pattern: 0x7c0001a4,
            mask: 0xfc10ffff,
            ext: None,
            mods: 0,
            args: [Operand::Sr, Operand::Rd, Operand::Unused, Operand::Unused, Operand::Unused],
            nargs: 2,
            defs: [Operand::Sr, Operand::Unused, Operand::Unused],
            ndefs: 1,
            uses: [Operand::Rd, Operand::Unused, Operand::Unused],
            nuses: 1,
        },
        Opcode::Mulli => OpcodeRow {
            name: "mulli",
            pattern: 0x1c000000,
            mask: 0xfc000000,
            ext: None,
            mods: 0,
            args: [Operand::Rd, Operand::Ra, Operand::Simm, Operand::Unused, Operand::Unused],
            nargs: 3,
            defs: [Operand::Rd, Operand::Unused, Operand::Unused],
            ndefs: 1,
            uses: [Operand::Ra, Operand::Unused, Operand::Unused],
            nuses: 1,
        },
        Opcode::Mullw => OpcodeRow {
            name: "mullw",
            pattern: 0x7c0001d6,
            mask: 0xfc0003fe,
            ext: None,
            mods: MOD_OE | MOD_RC,
            args: [Operand::Rd, Operand::Ra, Operand::Rb, Operand::Unused, Operand::Unused],
            nargs: 3,
            defs: [Operand::Rd, Operand::Unused, Operand::Unused],
            ndefs: 1,
            uses: [Operand::Ra, Operand::Rb, Operand::Unused],
            nuses: 2,
        },
        Opcode::Neg => OpcodeRow {
            name: "neg",
            pattern: 0x7c0000d0,
            mask: 0xfc00fbfe,
            ext: None,
            mods: MOD_OE | MOD_RC,
            args: [Operand::Rd, Operand::Ra, Operand::Unused, Operand::Unused, Operand::Unused],
            nargs: 2,
            defs: [Operand::Rd, Operand::Unused, Operand::Unused],
            ndefs: 1,
            uses: [Operand::Ra, Operand::Unused, Operand::Unused],
            nuses: 1,
        },
        Opcode::Nor => OpcodeRow {
            name: "nor",
            pattern: 0x7c0000f8,
            mask: 0xfc0007fe,
            ext: None,
            mods: MOD_RC,
            args: [Operand::Ra, Operand::Rd, Operand::Rb, Operand::Unused, Operand::Unused],
            nargs: 3,
            defs: [Operand::Ra, Operand::Unused, Operand::Unused],
            ndefs: 1,
            uses: [Operand::Rd, Operand::Rb, Operand::Unused],
            nuses: 2,
        },
        Opcode::Oris => OpcodeRow {
            name: "oris",
            pattern: 0x64000000,
            mask: 0xfc000000,
            ext: None,
            mods: 0,
            args: [Operand::Ra, Operand::Rd, Operand::Uimm, Operand::Unused, Operand::Unused],
            nargs: 3,
            defs: [Operand::Ra, Operand::Unused, Operand::Unused],
            ndefs: 1,
            uses: [Operand::Rd, Operand::Unused, Operand::Unused],
            nuses: 1,
        },
        Opcode::PsMerge00 => OpcodeRow {
            name: "ps_merge00",
            pattern: 0x10000420,
            mask: 0xfc0007fe,
            ext: Some(Extension::PairedSingles),
            mods: MOD_RC,
            args: [Operand::FrD, Operand::FrA, Operand::FrB, Operand::Unused, Operand::Unused],
            nargs: 3,
            defs: [Operand::FrD, Operand::Unused, Operand::Unused],
            ndefs: 1,
            uses: [Operand::FrA, Operand::FrB, Operand::Unused],
            nuses: 2,
        },
        Opcode::PsMr => OpcodeRow {
            name: "ps_mr",
            pattern: 0x10000090,
            mask: 0xfc1f07fe,
            ext: Some(Extension::PairedSingles),
            mods: MOD_RC,
            args: [Operand::FrD, Operand::FrB, Operand::Unused, Operand::Unused, Operand::Unused],
            nargs: 2,
            defs: [Operand::FrD, Operand::Unused, Operand::Unused],
            ndefs: 1,
            uses: [Operand::FrB, Operand::Unused, Operand::Unused],
            nuses: 1,
        },
        Opcode::PsMul => OpcodeRow {
            name: "ps_mul",
            pattern: 0x10000032,
            mask: 0xfc00f83e,
            ext: Some(Extension::PairedSingles),
            mods: MOD_RC,
            args: [Operand::FrD, Operand::FrA, Operand::FrC, Operand::Unused, Operand::Unused],
            nargs: 3,
            defs: [Operand::FrD, Operand::Unused, Operand::Unused],
            ndefs: 1,
            uses: [Operand::FrA, Operand::FrC, Operand::Unused],
            nuses: 2,
        },
        Opcode::PsSub => OpcodeRow {
            name: "ps_sub",
            pattern: 0x10000028,
            mask: 0xfc0007fe,
            ext: Some(Extension::PairedSingles),
            mods: MOD_RC,
            args: [Operand::FrD, Operand::FrA, Operand::FrB, Operand::Unused, Operand::Unused],
            nargs: 3,
            defs: [Operand::FrD, Operand::Unused, Operand::Unused],
            ndefs: 1,
            uses: [Operand::FrA, Operand::FrB, Operand::Unused],
            nuses: 2,
        },
        Opcode::PsqSt => OpcodeRow {
            name: "psq_st",
            pattern: 0xf0000000,
            mask: 0xfc000000,
            ext: Some(Extension::PairedSingles),
            mods: 0,
            args: [Operand::FrD, Operand::PsOffset, Operand::Ra, Operand::PsW, Operand::PsI],
            nargs: 5,
            defs: [Operand::Unused, Operand::Unused, Operand::Unused],
            ndefs: 0,
            uses: [Operand::FrD, Operand::Ra, Operand::Unused],
            nuses: 2,
        },
        Opcode::Rfi => OpcodeRow {
            name: "rfi",
            pattern: 0x4c000064,
            mask: 0xffffffff,
            ext: None,
            mods: 0,
            args: [Operand::Unused, Operand::Unused, Operand::Unused, Operand::Unused, Operand::Unused],
            nargs: 0,
            defs: [Operand::Unused, Operand::Unused, Operand::Unused],
            ndefs: 0,
            uses: [Operand::Unused, Operand::Unused, Operand::Unused],
            nuses: 0,
        },
        Opcode::Rlwimi => OpcodeRow {
            name: "rlwimi",
            pattern: 0x50000000,
            mask: 0xfc000000,
            ext: None,
            mods: MOD_RC,
            args: [Operand::Ra, Operand::Rd, Operand::Sh, Operand::Mb, Operand::Me],
            nargs: 5,
            defs: [Operand::Ra, Operand::Unused, Operand::Unused],
            ndefs: 1,
            uses: [Operand::Rd, Operand::Ra, Operand::Unused],
            nuses: 2,
        },
        Opcode::Rlwnm => OpcodeRow {
            name: "rlwnm",
            pattern: 0x5c000000,
            mask: 0xfc000000,
            ext: None,
            mods: MOD_RC,
            args: [Operand::Ra, Operand::Rd, Operand::Rb, Operand::Mb, Operand::Me],
            nargs: 5,
            defs: [Operand::Ra, Operand::Unused, Operand::Unused],
            ndefs: 1,
            uses: [Operand::Rd, Operand::Rb, Operand::Unused],
            nuses: 2,
        },
        Opcode::Sc => OpcodeRow {
            name: "sc",
            pattern: 0x44000002,
            mask: 0xffffffff,
            ext: None,
            mods: 0,
            args: [Operand::Unused, Operand::Unused, Operand::Unused, Operand::Unused, Operand::Unused],
            nargs: 0,
            defs: [Operand::Unused, Operand::Unused, Operand::Unused],
            ndefs: 0,
            uses: [Operand::Unused, Operand::Unused, Operand::Unused],
            nuses: 0,
        },
        Opcode::Slw => OpcodeRow {
            name: "slw",
            pattern: 0x7c000030,
            mask: 0xfc0007fe,
            ext: None,
            mods: MOD_RC,
            args: [Operand::Ra, Operand::Rd, Operand::Rb, Operand::Unused, Operand::Unused],
            nargs: 3,
            defs: [Operand::Ra, Operand::Unused, Operand::Unused],
            ndefs: 1,
            uses: [Operand::Rd, Operand::Rb, Operand::Unused],
            nuses: 2,
        },
        Opcode::Sraw => OpcodeRow {
            name: "sraw",
            pattern: 0x7c000630,
            mask: 0xfc0007fe,
            ext: None,
            mods: MOD_RC,
            args: [Operand::Ra, Operand::Rd, Operand::Rb, Operand::Unused, Operand::Unused],
            nargs: 3,
            defs: [Operand::Ra, Operand::Unused, Operand::Unused],
            ndefs: 1,
            uses: [Operand::Rd, Operand::Rb, Operand::Unused],
            nuses: 2,
        },
        Opcode::Srawi => OpcodeRow {
            name: "srawi",
            pattern: 0x7c000670,
            mask: 0xfc0007fe,
            ext: None,
            mods: MOD_RC,
            args: [Operand::Ra, Operand::Rd, Operand::Sh, Operand::Unused, Operand::Unused],
            nargs: 3,
            defs: [Operand::Ra, Operand::Unused, Operand::Unused],
            ndefs: 1,
            uses: [Operand::Rd, Operand::Unused, Operand::Unused],
            nuses: 1,
        },
        Opcode::Srw => OpcodeRow {
            name: "srw",
            pattern: 0x7c000430,
            mask: 0xfc0007fe,
            ext: None,
            mods: MOD_RC,
            args: [Operand::Ra, Operand::Rd, Operand::Rb, Operand::Unused, Operand::Unused],
            nargs: 3,
            defs: [Operand::Ra, Operand::Unused, Operand::Unused],
            ndefs: 1,
            uses: [Operand::Rd, Operand::Rb, Operand::Unused],
            nuses: 2,
        },
        Opcode::Stb => OpcodeRow {
            name: "stb",
            pattern: 0x98000000,
            mask: 0xfc000000,
            ext: None,
            mods: 0,
            args: [Operand::Rd, Operand::Offset, Operand::Ra, Operand::Unused, Operand::Unused],
            nargs: 3,
            defs: [Operand::Unused, Operand::Unused, Operand::Unused],
            ndefs: 0,
            uses: [Operand::Rd, Operand::Ra, Operand::Unused],
            nuses: 2,
        },
        Opcode::Stbu => OpcodeRow {
            name: "stbu",
            pattern: 0x9c000000,
            mask: 0xfc000000,
            ext: None,
            mods: 0,
            args: [Operand::Rd, Operand::Offset, Operand::Ra, Operand::Unused, Operand::Unused],
            nargs: 3,
            defs: [Operand::Ra, Operand::Unused, Operand::Unused],
            ndefs: 1,
            uses: [Operand::Rd, Operand::Ra, Operand::Unused],
            nuses: 2,
        },
        Opcode::Std => OpcodeRow {
            name: "std",
            pattern: 0xf8000000,
            mask: 0xfc000003,
            ext: Some(Extension::Ppc64),
            mods: 0,
            args: [Operand::Rd, Operand::Ds, Operand::Ra, Operand::Unused, Operand::Unused],
            nargs: 3,
            defs: [Operand::Unused, Operand::Unused, Operand::Unused],
            ndefs: 0,
            uses: [Operand::Rd, Operand::Ra, Operand::Unused],
            nuses: 2,
        },
        Opcode::Stfd => OpcodeRow {
            name: "stfd",
            pattern: 0xd8000000,
            mask: 0xfc000000,
            ext: None,
            mods: 0,
            args: [Operand::FrD, Operand::Offset, Operand::Ra, Operand::Unused, Operand::Unused],
            nargs: 3,
            defs: [Operand::Unused, Operand::Unused, Operand::Unused],
            ndefs: 0,
            uses: [Operand::FrD, Operand::Ra, Operand::Unused],
            nuses: 2,
        },
        Opcode::Stfs => OpcodeRow {
            name: "stfs",
            pattern: 0xd0000000,
            mask: 0xfc000000,
            ext: None,
            mods: 0,
            args: [Operand::FrD, Operand::Offset, Operand::Ra, Operand::Unused, Operand::Unused],
            nargs: 3,
            defs: [Operand::Unused, Operand::Unused, Operand::Unused],
            ndefs: 0,
            uses: [Operand::FrD, Operand::Ra, Operand::Unused],
            nuses: 2,
        },
        Opcode::Sth => OpcodeRow {
            name: "sth",
            pattern: 0xb0000000,
            mask: 0xfc000000,
            ext: None,
            mods: 0,
            args: [Operand::Rd, Operand::Offset, Operand::Ra, Operand::Unused, Operand::Unused],
            nargs: 3,
            defs: [Operand::Unused, Operand::Unused, Operand::Unused],
            ndefs: 0,
            uses: [Operand::Rd, Operand::Ra, Operand::Unused],
            nuses: 2,
        },
        Opcode::Sthu => OpcodeRow {
            name: "sthu",
            pattern: 0xb4000000,
            mask: 0xfc000000,
            ext: None,
            mods: 0,
            args: [Operand::Rd, Operand::Offset, Operand::Ra, Operand::Unused, Operand::Unused],
            nargs: 3,
            defs: [Operand::Ra, Operand::Unused, Operand::Unused],
            ndefs: 1,
            uses: [Operand::Rd, Operand::Ra, Operand::Unused],
            nuses: 2,
        },
        Opcode::Stmw => OpcodeRow {
            name: "stmw",
            pattern: 0xbc000000,
            mask: 0xfc000000,
            ext: None,
            mods: 0,
            args: [Operand::Rd, Operand::Offset, Operand::Ra, Operand::Unused, Operand::Unused],
            nargs: 3,
            defs: [Operand::Unused, Operand::Unused, Operand::Unused],
            ndefs: 0,
            uses: [Operand::Rd, Operand::Ra, Operand::Unused],
            nuses: 2,
        },
        Opcode::Stwx => OpcodeRow {
            name: "stwx",
            pattern: 0x7c00012e,
            mask: 0xfc0007ff,
            ext: None,
            mods: 0,
            args: [Operand::Rd, Operand::Ra, Operand::Rb, Operand::Unused, Operand::Unused],
            nargs: 3,
            defs: [Operand::Unused, Operand::Unused, Operand::Unused],
            ndefs: 0,
            uses: [Operand::Rd, Operand::Ra, Operand::Rb],
            nuses: 3,
        },
        Opcode::Subf => OpcodeRow {
            name: "subf",
            pattern: 0x7c000050,
            mask: 0xfc0003fe,
            ext: None,
            mods: MOD_OE | MOD_RC,
            args: [Operand::Rd, Operand::Ra, Operand::Rb, Operand::Unused, Operand::Unused],
            nargs: 3,
            defs: [Operand::Rd, Operand::Unused, Operand::Unused],
            ndefs: 1,
            uses: [Operand::Ra, Operand::Rb, Operand::Unused],
            nuses: 2,
        },
        Opcode::Subfic => OpcodeRow {
            name: "subfic",
            pattern: 0x20000000,
            mask: 0xfc000000,
            ext: None,
            mods: 0,
            args: [Operand::Rd, Operand::Ra, Operand::Simm, Operand::Unused, Operand::Unused],
            nargs: 3,
            defs: [Operand::Rd, Operand::Unused, Operand::Unused],
            ndefs: 1,
            uses: [Operand::Ra, Operand::Unused, Operand::Unused],
            nuses: 1,
        },
        Opcode::Tw => OpcodeRow {
            name: "tw",
            pattern: 0x7c000008,
            mask: 0xfc0007ff,
            ext: None,
            mods: 0,
            args: [Operand::To, Operand::Ra, Operand::Rb, Operand::Unused, Operand::Unused],
            nargs: 3,
            defs: [Operand::Unused, Operand::Unused, Operand::Unused],
            ndefs: 0,
            uses: [Operand::Ra, Operand::Rb, Operand::Unused],
            nuses: 2,
        },
        Opcode::Twi => OpcodeRow {
            name: "twi",
            pattern: 0x0c000000,
            mask: 0xfc000000,
            ext: None,
            mods: 0,
            args: [Operand::To, Operand::Ra, Operand::Simm, Operand::Unused, Operand::Unused],
            nargs: 3,
            defs: [Operand::Unused, Operand::Unused, Operand::Unused],
            ndefs: 0,
            uses: [Operand::Ra, Operand::Unused, Operand::Unused],
            nuses: 1,
        },
        Opcode::Vand => OpcodeRow {
            name: "vand",
            pattern: 0x10000404,
            mask: 0xfc0007ff,
            ext: Some(Extension::AltiVec),
            mods: 0,
            args: [Operand::Vd, Operand::Va, Operand::Vb, Operand::Unused, Operand::Unused],
            nargs: 3,
            defs: [Operand::Vd, Operand::Unused, Operand::Unused],
            ndefs: 1,
            uses: [Operand::Va, Operand::Vb, Operand::Unused],
            nuses: 2,
        },
        Opcode::Vor => OpcodeRow {
            name: "vor",
            pattern: 0x10000484,
            mask: 0xfc0007ff,
            ext: Some(Extension::AltiVec),
            mods: 0,
            args: [Operand::Vd, Operand::Va, Operand::Vb, Operand::Unused, Operand::Unused],
            nargs: 3,
            defs: [Operand::Vd, Operand::Unused, Operand::Unused],
            ndefs: 1,
            uses: [Operand::Va, Operand::Vb, Operand::Unused],
            nuses: 2,
        },
        Opcode::Vxor => OpcodeRow {
            name: "vxor",
            pattern: 0x100004c4,
            mask: 0xfc0007ff,
            ext: Some(Extension::AltiVec),
            mods: 0,
            args: [Operand::Vd, Operand::Va, Operand::Vb, Operand::Unused, Operand::Unused],
            nargs: 3,
            defs: [Operand::Vd, Operand::Unused, Operand::Unused],
            ndefs: 1,
            uses: [Operand::Va, Operand::Vb, Operand::Unused],
            nuses: 2,
        },
        Opcode::Xor => OpcodeRow {
            name: "xor",
            pattern: 0x7c000278,
            mask: 0xfc0007fe,
            ext: None,
            mods: MOD_RC,
            args: [Operand::Ra, Operand::Rd, Operand::Rb, Operand::Unused, Operand::Unused],
            nargs: 3,
            defs: [Operand::Ra, Operand::Unused, Operand::Unused],
            ndefs: 1,
            uses: [Operand::Rd, Operand::Rb, Operand::Unused],
            nuses: 2,
        },
        Opcode::Xori => OpcodeRow {
            name: "xori",
            pattern: 0x68000000,
            mask: 0xfc000000,
            ext: None,
            mods: 0,
            args: [Operand::Ra, Operand::Rd, Operand::Uimm, Operand::Unused, Operand::Unused],
            nargs: 3,
            defs: [Operand::Ra, Operand::Unused, Operand::Unused],
            ndefs: 1,
            uses: [Operand::Rd, Operand::Unused, Operand::Unused],
            nuses: 1,
        },
        Opcode::Xoris => OpcodeRow {
            name: "xoris",
            pattern: 0x6c000000,
            mask: 0xfc000000,
            ext: None,
            mods: 0,
            args: [Operand::Ra, Operand::Rd, Operand::Uimm, Operand::Unused, Operand::Unused],
            nargs: 3,
            defs: [Operand::Ra, Operand::Unused, Operand::Unused],
            ndefs: 1,
            uses: [Operand::Rd, Operand::Unused, Operand::Unused],
            nuses: 1,
        },
        Opcode::Illegal => OpcodeRow {
            name: "<illegal>",
            pattern: 0x00000000,
            mask: 0x00000000,
            ext: None,
            mods: 0,
            args: [Operand::Unused, Operand::Unused, Operand::Unused, Operand::Unused, Operand::Unused],
            nargs: 0,
            defs: [Operand::Unused, Operand::Unused, Operand::Unused],
            ndefs: 0,
            uses: [Operand::Unused, Operand::Unused, Operand::Unused],
            nuses: 0,
        },
    }
}

/// Returns the description of `op`.
pub fn opcode_row(op: Opcode) -> (r: OpcodeRow)
    ensures
        r == opcode_def(op),
{
    proof {
        reveal(opcode_def);
    }
    match op {
        Opcode::Add => OpcodeRow {
            name: "add",
            pattern: 0x7c000214,
            mask: 0xfc0003fe,
            ext: None,
            mods: MOD_OE | MOD_RC,
            args: [Operand::Rd, Operand::Ra, Operand::Rb, Operand::Unused, Operand::Unused],
            nargs: 3,
            defs: [Operand::Rd, Operand::Unused, Operand::Unused],
            ndefs: 1,
            uses: [Operand::Ra, Operand::Rb, Operand::Unused],
            nuses: 2,
        },
        Opcode::Addi => OpcodeRow {
            name: "addi",
            pattern: 0x38000000,
            mask: 0xfc000000,
            ext: None,
            mods: 0,
            args: [Operand::Rd, Operand::Ra, Operand::Simm, Operand::Unused, Operand::Unused],
            nargs: 3,
            defs: [Operand::Rd, Operand::Unused, Operand::Unused],
            ndefs: 1,
            uses: [Operand::Ra, Operand::Unused, Operand::Unused],
            nuses: 1,
        },
        Opcode::Addis => OpcodeRow {
            name: "addis",
            pattern: 0x3c000000,
            mask: 0xfc000000,
            ext: None,
            mods: 0,
            args: [Operand::Rd, Operand::Ra, Operand::Uimm, Operand::Unused, Operand::Unused],
            nargs: 3,
            defs: [Operand::Rd, Operand::Unused, Operand::Unused],
            ndefs: 1,
            uses: [Operand::Ra, Operand::Unused, Operand::Unused],
            nuses: 1,
        },
        Opcode::B => OpcodeRow {
            name: "b",
            pattern: 0x48000000,
            mask: 0xfc000000,
            ext: None,
            mods: MOD_AA | MOD_LK,
            args: [Operand::Li, Operand::Unused, Operand::Unused, Operand::Unused, Operand::Unused],
            nargs: 1,
            defs: [Operand::Unused, Operand::Unused, Operand::Unused],
            ndefs: 0,
            uses: [Operand::Unused, Operand::Unused, Operand::Unused],
            nuses: 0,
        },
        Opcode::Bc => OpcodeRow {
            name: "bc",
            pattern: 0x40000000,
            mask: 0xfc000000,
            ext: None,
            mods: MOD_AA | MOD_LK,
            args: [Operand::Bo, Operand::Bi, Operand::Bd, Operand::Unused, Operand::Unused],
            nargs: 3,
            defs: [Operand::Unused, Operand::Unused, Operand::Unused],
            ndefs: 0,
            uses: [Operand::Unused, Operand::Unused, Operand::Unused],
            nuses: 0,
        },
        Opcode::Bcctr => OpcodeRow {
            name: "bcctr",
            pattern: 0x4c000420,
            mask: 0xfc00fffe,
            ext: None,
            mods: MOD_LK,
            args: [Operand::Bo, Operand::Bi, Operand::Unused, Operand::Unused, Operand::Unused],
            nargs: 2,
            defs: [Operand::Unused, Operand::Unused, Operand::Unused],
            ndefs: 0,
            uses: [Operand::Unused, Operand::Unused, Operand::Unused],
            nuses: 0,
        },
        Opcode::Bclr => OpcodeRow {
            name: "bclr",
            pattern: 0x4c000020,
            mask: 0xfc00fffe,
            ext: None,
            mods: MOD_LK,
            args: [Operand::Bo, Operand::Bi, Operand::Unused, Operand::Unused, Operand::Unused],
            nargs: 2,
            defs: [Operand::Unused, Operand::Unused, Operand::Unused],
            ndefs: 0,
            uses: [Operand::Unused, Operand::Unused, Operand::Unused],
            nuses: 0,
        },
        Opcode::Cmp => OpcodeRow {
            name: "cmp",
            pattern: 0x7c000000,
            mask: 0xfc4007ff,
            ext: None,
            mods: 0,
            args: [Operand::CrfD, Operand::L, Operand::Ra, Operand::Rb, Operand::Unused],
            nargs: 4,
            defs: [Operand::CrfD, Operand::Unused, Operand::Unused],
            ndefs: 1,
            uses: [Operand::Ra, Operand::Rb, Operand::Unused],
            nuses: 2,
        },
        Opcode::Cmpi => OpcodeRow {
            name: "cmpi",
            pattern: 0x2c000000,
            mask: 0xfc400000,
            ext: None,
            mods: 0,
            args: [Operand::CrfD, Operand::L, Operand::Ra, Operand::Simm, Operand::Unused],
            nargs: 4,
            defs: [Operand::CrfD, Operand::Unused, Operand::Unused],
            ndefs: 1,
            uses: [Operand::Ra, Operand::Unused, Operand::Unused],
            nuses: 1,
        },
        Opcode::Crxor => OpcodeRow {
            name: "crxor",
            pattern: 0x4c000182,
            mask: 0xfc0007ff,
            ext: None,
            mods: 0,
            args: [Operand::CrbD, Operand::CrbA, Operand::CrbB, Operand::Unused, Operand::Unused],
            nargs: 3,
            defs: [Operand::CrbD, Operand::Unused, Operand::Unused],
            ndefs: 1,
            uses: [Operand::CrbA, Operand::CrbB, Operand::Unused],
            nuses: 2,
        },
        Opcode::Fadd => OpcodeRow {
            name: "fadd",
            pattern: 0xfc00002a,
            mask: 0xfc0007fe,
            ext: None,
            mods: MOD_RC,
            args: [Operand::FrD, Operand::FrA, Operand::FrB, Operand::Unused, Operand::Unused],
            nargs: 3,
            defs: [Operand::FrD, Operand::Unused, Operand::Unused],
            ndefs: 1,
            uses: [Operand::FrA, Operand::FrB, Operand::Unused],
            nuses: 2,
        },
        Opcode::Ld => OpcodeRow {
            name: "ld",
            pattern: 0xe8000000,
            mask: 0xfc000003,
            ext: Some(Extension::Ppc64),
            mods: 0,
            args: [Operand::Rd, Operand::Ds, Operand::Ra, Operand::Unused, Operand::Unused],
            nargs: 3,
            defs: [Operand::Rd, Operand::Unused, Operand::Unused],
            ndefs: 1,
            uses: [Operand::Ra, Operand::Unused, Operand::Unused],
            nuses: 1,
        },
        Opcode::Lwz => OpcodeRow {
            name: "lwz",
            pattern: 0x80000000,
            mask: 0xfc000000,
            ext: None,
            mods: 0,
            args: [Operand::Rd, Operand::Offset, Operand::Ra, Operand::Unused, Operand::Unused],
            nargs: 3,
            defs: [Operand::Rd, Operand::Unused, Operand::Unused],
            ndefs: 1,
            uses: [Operand::Ra, Operand::Unused, Operand::Unused],
            nuses: 1,
        },
        Opcode::Lwzu => OpcodeRow {
            name: "lwzu",
            pattern: 0x84000000,
            mask: 0xfc000000,
            ext: None,
            mods: 0,
            args: [Operand::Rd, Operand::Offset, Operand::Ra, Operand::Unused, Operand::Unused],
            nargs: 3,
            defs: [Operand::Rd, Operand::Ra, Operand::Unused],
            ndefs: 2,
            uses: [Operand::Ra, Operand::Unused, Operand::Unused],
            nuses: 1,
        },
        Opcode::Mfspr => OpcodeRow {
            name: "mfspr",
            pattern: 0x7c0002a6,
            mask: 0xfc0007ff,
            ext: None,
            mods: 0,
            args: [Operand::Rd, Operand::Spr, Operand::Unused, Operand::Unused, Operand::Unused],
            nargs: 2,
            defs: [Operand::Rd, Operand::Unused, Operand::Unused],
            ndefs: 1,
            uses: [Operand::Spr, Operand::Unused, Operand::Unused],
            nuses: 1,
        },
        Opcode::Mfsr => OpcodeRow {
            name: "mfsr",
            pattern: 0x7c0004a6,
            mask: 0xfc10ffff,
            ext: None,
            mods: 0,
            args: [Operand::Rd, Operand::Sr, Operand::Unused, Operand::Unused, Operand::Unused],
            nargs: 2,
            defs: [Operand::Rd, Operand::Unused, Operand::Unused],
            ndefs: 1,
            uses: [Operand::Sr, Operand::Unused, Operand::Unused],
            nuses: 1,
        },
        Opcode::Mtspr => OpcodeRow {
            name: "mtspr",
            pattern: 0x7c0003a6,
            mask: 0xfc0007ff,
            ext: None,
            mods: 0,
            args: [Operand::Spr, Operand::Rd, Operand::Unused, Operand::Unused, Operand::Unused],
            nargs: 2,
            defs: [Operand::Spr, Operand::Unused, Operand::Unused],
            ndefs: 1,
            uses: [Operand::Rd, Operand::Unused, Operand::Unused],
            nuses: 1,
        },
        Opcode::Or => OpcodeRow {
            name: "or",
            pattern: 0x7c000378,
            mask: 0xfc0007fe,
            ext: None,
            mods: MOD_RC,
            args: [Operand::Ra, Operand::Rd, Operand::Rb, Operand::Unused, Operand::Unused],
            nargs: 3,
            defs: [Operand::Ra, Operand::Unused, Operand::Unused],
            ndefs: 1,
            uses: [Operand::Rd, Operand::Rb, Operand::Unused],
            nuses: 2,
        },
        Opcode::Ori => OpcodeRow {
            name: "ori",
            pattern: 0x60000000,
            mask: 0xfc000000,
            ext: None,
            mods: 0,
            args: [Operand::Ra, Operand::Rd, Operand::Uimm, Operand::Unused, Operand::Unused],
            nargs: 3,
            defs: [Operand::Ra, Operand::Unused, Operand::Unused],
            ndefs: 1,
            uses: [Operand::Rd, Operand::Unused, Operand::Unused],
            nuses: 1,
        },
        Opcode::PsAdd => OpcodeRow {
            name: "ps_add",
            pattern: 0x1000002a,
            mask: 0xfc0007fe,
            ext: Some(Extension::PairedSingles),
            mods: MOD_RC,
            args: [Operand::FrD, Operand::FrA, Operand::FrB, Operand::Unused, Operand::Unused],
            nargs: 3,
            defs: [Operand::FrD, Operand::Unused, Operand::Unused],
            ndefs: 1,
            uses: [Operand::FrA, Operand::FrB, Operand::Unused],
            nuses: 2,
        },
        Opcode::PsqL => OpcodeRow {
            name: "psq_l",
            pattern: 0xe0000000,
            mask: 0xfc000000,
            ext: Some(Extension::PairedSingles),
            mods: 0,
            args: [Operand::FrD, Operand::PsOffset, Operand::Ra, Operand::PsW, Operand::PsI],
            nargs: 5,
            defs: [Operand::FrD, Operand::Unused, Operand::Unused],
            ndefs: 1,
            uses: [Operand::Ra, Operand::Unused, Operand::Unused],
            nuses: 1,
        },
        Opcode::Rlwinm => OpcodeRow {
            name: "rlwinm",
            pattern: 0x54000000,
            mask: 0xfc000000,
            ext: None,
            mods: MOD_RC,
            args: [Operand::Ra, Operand::Rd, Operand::Sh, Operand::Mb, Operand::Me],
            nargs: 5,
            defs: [Operand::Ra, Operand::Unused, Operand::Unused],
            ndefs: 1,
            uses: [Operand::Rd, Operand::Unused, Operand::Unused],
            nuses: 1,
        },
        Opcode::Stw => OpcodeRow {
            name: "stw",
            pattern: 0x90000000,
            mask: 0xfc000000,
            ext: None,
            mods: 0,
            args: [Operand::Rd, Operand::Offset, Operand::Ra, Operand::Unused, Operand::Unused],
            nargs: 3,
            defs: [Operand::Unused, Operand::Unused, Operand::Unused],
            ndefs: 0,
            uses: [Operand::Rd, Operand::Ra, Operand::Unused],
            nuses: 2,
        },
        Opcode::Stwu => OpcodeRow {
            name: "stwu",
            pattern: 0x94000000,
            mask: 0xfc000000,
            ext: None,
            mods: 0,
            args: [Operand::Rd, Operand::Offset, Operand::Ra, Operand::Unused, Operand::Unused],
            nargs: 3,
            defs: [Operand::Ra, Operand::Unused, Operand::Unused],
            ndefs: 1,
            uses: [Operand::Rd, Operand::Ra, Operand::Unused],
            nuses: 2,
        },
        Opcode::Sync => OpcodeRow {
            name: "sync",
            pattern: 0x7c0004ac,
            mask: 0xffffffff,
            ext: None,
            mods: 0,
            args: [Operand::Unused, Operand::Unused, Operand::Unused, Operand::Unused, Operand::Unused],
            nargs: 0,
            defs: [Operand::Unused, Operand::Unused, Operand::Unused],
            ndefs: 0,
            uses: [Operand::Unused, Operand::Unused, Operand::Unused],
            nuses: 0,
        },
        Opcode::Vaddubm => OpcodeRow {
            name: "vaddubm",
            pattern: 0x10000000,
            mask: 0xfc0007ff,
            ext: Some(Extension::AltiVec),
            mods: 0,
            args: [Operand::Vd, Operand::Va, Operand::Vb, Operand::Unused, Operand::Unused],
            nargs: 3,
            defs: [Operand::Vd, Operand::Unused, Operand::Unused],
            ndefs: 1,
            uses: [Operand::Va, Operand::Vb, Operand::Unused],
            nuses: 2,
        },
        Opcode::Addic => OpcodeRow {
            name: "addic",
            pattern: 0x30000000,
            mask: 0xfc000000,
            ext: None,
            mods: 0,
            args: [Operand::Rd, Operand::Ra, Operand::Simm, Operand::Unused, Operand::Unused],
            nargs: 3,
            defs: [Operand::Rd, Operand::Unused, Operand::Unused],
            ndefs: 1,
            uses: [Operand::Ra, Operand::Unused, Operand::Unused],
            nuses: 1,
        },
        Opcode::AddicDot => OpcodeRow {
            name: "addic.",
            pattern: 0x34000000,
            mask: 0xfc000000,
            ext: None,
            mods: 0,
            args: [Operand::Rd, Operand::Ra, Operand::Simm, Operand::Unused, Operand::Unused],
            nargs: 3,
            defs: [Operand::Rd, Operand::Unused, Operand::Unused],
            ndefs: 1,
            uses: [Operand::Ra, Operand::Unused, Operand::Unused],
            nuses: 1,
        },
        Opcode::And => OpcodeRow {
            name: "and",
            pattern: 0x7c000038,
            mask: 0xfc0007fe,
            ext: None,
            mods: MOD_RC,
            args: [Operand::Ra, Operand::Rd, Operand::Rb, Operand::Unused, Operand::Unused],
            nargs: 3,
            defs: [Operand::Ra, Operand::Unused, Operand::Unused],
            ndefs: 1,
            uses: [Operand::Rd, Operand::Rb, Operand::Unused],
            nuses: 2,
        },
        Opcode::Andc => OpcodeRow {
            name: "andc",
            pattern: 0x7c000078,
            mask: 0xfc0007fe,
            ext: None,
            mods: MOD_RC,
            args: [Operand::Ra, Operand::Rd, Operand::Rb, Operand::Unused, Operand::Unused],
            nargs: 3,
            defs: [Operand::Ra, Operand::Unused, Operand::Unused],
            ndefs: 1,
            uses: [Operand::Rd, Operand::Rb, Operand::Unused],
            nuses: 2,
        },
        Opcode::AndiDot => OpcodeRow {
            name: "andi.",
            pattern: 0x70000000,
            mask: 0xfc000000,
            ext: None,
            mods: 0,
            args: [Operand::Ra, Operand::Rd, Operand::Uimm, Operand::Unused, Operand::Unused],
            nargs: 3,
            defs: [Operand::Ra, Operand::Unused, Operand::Unused],
            ndefs: 1,
            uses: [Operand::Rd, Operand::Unused, Operand::Unused],
            nuses: 1,
        },
        Opcode::AndisDot => OpcodeRow {
            name: "andis.",
            pattern: 0x74000000,
            mask: 0xfc000000,
            ext: None,
            mods: 0,
            args: [Operand::Ra, Operand::Rd, Operand::Uimm, Operand::Unused, Operand::Unused],
            nargs: 3,
            defs: [Operand::Ra, Operand::Unused, Operand::Unused],
            ndefs: 1,
            uses: [Operand::Rd, Operand::Unused, Operand::Unused],
            nuses: 1,
        },
        Opcode::Cmpl => OpcodeRow {
            name: "cmpl",
            pattern: 0x7c000040,
            mask: 0xfc4007ff,
            ext: None,
            mods: 0,
            args: [Operand::CrfD, Operand::L, Operand::Ra, Operand::Rb, Operand::Unused],
            nargs: 4,
            defs: [Operand::CrfD, Operand::Unused, Operand::Unused],
            ndefs: 1,
            uses: [Operand::Ra, Operand::Rb, Operand::Unused],
            nuses: 2,
        },
        Opcode::Cmpli => OpcodeRow {
            name: "cmpli",
            pattern: 0x28000000,
            mask: 0xfc400000,
            ext: None,
            mods: 0,
            args: [Operand::CrfD, Operand::L, Operand::Ra, Operand::Uimm, Operand::Unused],
            nargs: 4,
            defs: [Operand::CrfD, Operand::Unused, Operand::Unused],
            ndefs: 1,
            uses: [Operand::Ra, Operand::Unused, Operand::Unused],
            nuses: 1,
        },
        Opcode::Cntlzw => OpcodeRow {
            name: "cntlzw",
            pattern: 0x7c000034,
            mask: 0xfc00fffe,
            ext: None,
            mods: MOD_RC,
            args: [Operand::Ra, Operand::Rd, Operand::Unused, Operand::Unused, Operand::Unused],
            nargs: 2,
            defs: [Operand::Ra, Operand::Unused, Operand::Unused],
            ndefs: 1,
            uses: [Operand::Rd, Operand::Unused, Operand::Unused],
            nuses: 1,
        },
        Opcode::Dcbf => OpcodeRow {
            name: "dcbf",
            pattern: 0x7c0000ac,
            mask: 0xffe007ff,
            ext: None,
            mods: 0,
            args: [Operand::Ra, Operand::Rb, Operand::Unused, Operand::Unused, Operand::Unused],
            nargs: 2,
            defs: [Operand::Unused, Operand::Unused, Operand::Unused],
            ndefs: 0,
            uses: [Operand::Ra, Operand::Rb, Operand::Unused],
            nuses: 2,
        },
        Opcode::Divw => OpcodeRow {
            name: "divw",
            pattern: 0x7c0003d6,
            mask: 0xfc0003fe,
            ext: None,
            mods: MOD_OE | MOD_RC,
            args: [Operand::Rd, Operand::Ra, Operand::Rb, Operand::Unused, Operand::Unused],
            nargs: 3,
            defs: [Operand::Rd, Operand::Unused, Operand::Unused],
            ndefs: 1,
            uses: [Operand::Ra, Operand::Rb, Operand::Unused],
            nuses: 2,
        },
        Opcode::Divwu => OpcodeRow {
            name: "divwu",
            pattern: 0x7c000396,
            mask: 0xfc0003fe,
            ext: None,
            mods: MOD_OE | MOD_RC,
            args: [Operand::Rd, Operand::Ra, Operand::Rb, Operand::Unused, Operand::Unused],
            nargs: 3,
            defs: [Operand::Rd, Operand::Unused, Operand::Unused],
            ndefs: 1,
            uses: [Operand::Ra, Operand::Rb, Operand::Unused],
            nuses: 2,
        },
        Opcode::Eieio => OpcodeRow {
            name: "eieio",
            pattern: 0x7c0006ac,
            mask: 0xffffffff,
            ext: None,
            mods: 0,
            args: [Operand::Unused, Operand::Unused, Operand::Unused, Operand::Unused, Operand::Unused],
            nargs: 0,
            defs: [Operand::Unused, Operand::Unused, Operand::Unused],
            ndefs: 0,
            uses: [Operand::Unused, Operand::Unused, Operand::Unused],
            nuses: 0,
        },
        Opcode::Extsb => OpcodeRow {
            name: "extsb",
            pattern: 0x7c000774,
            mask: 0xfc00fffe,
            ext: None,
            mods: MOD_RC,
            args: [Operand::Ra, Operand::Rd, Operand::Unused, Operand::Unused, Operand::Unused],
            nargs: 2,
            defs: [Operand::Ra, Operand::Unused, Operand::Unused],
            ndefs: 1,
            uses: [Operand::Rd, Operand::Unused, Operand::Unused],
            nuses: 1,
        },
        Opcode::Extsh => OpcodeRow {
            name: "extsh",
            pattern: 0x7c000734,
            mask: 0xfc00fffe,
            ext: None,
            mods: MOD_RC,
            args: [Operand::Ra, Operand::Rd, Operand::Unused, Operand::Unused, Operand::Unused],
            nargs: 2,
            defs: [Operand::Ra, Operand::Unused, Operand::Unused],
            ndefs: 1,
            uses: [Operand::Rd, Operand::Unused, Operand::Unused],
            nuses: 1,
        },
        Opcode::Fadds => OpcodeRow {
            name: "fadds",
            pattern: 0xec00002a,
            mask: 0xfc0007fe,
            ext: None,
            mods: MOD_RC,
            args: [Operand::FrD, Operand::FrA, Operand::FrB, Operand::Unused, Operand::Unused],
            nargs: 3,
            defs: [Operand::FrD, Operand::Unused, Operand::Unused],
            ndefs: 1,
            uses: [Operand::FrA, Operand::FrB, Operand::Unused],
            nuses: 2,
        },
        Opcode::Fcmpu => OpcodeRow {
            name: "fcmpu",
            pattern: 0xfc000000,
            mask: 0xfc6007ff,
            ext: None,
            mods: 0,
            args: [Operand::CrfD, Operand::FrA, Operand::FrB, Operand::Unused, Operand::Unused],
            nargs: 3,
            defs: [Operand::CrfD, Operand::Unused, Operand::Unused],
            ndefs: 1,
            uses: [Operand::FrA, Operand::FrB, Operand::Unused],
            nuses: 2,
        },
        Opcode::Fctiwz => OpcodeRow {
            name: "fctiwz",
            pattern: 0xfc00001e,
            mask: 0xfc1f07fe,
            ext: None,
            mods: MOD_RC,
            args: [Operand::FrD, Operand::FrB, Operand::Unused, Operand::Unused, Operand::Unused],
            nargs: 2,
            defs: [Operand::FrD, Operand::Unused, Operand::Unused],
            ndefs: 1,
            uses: [Operand::FrB, Operand::Unused, Operand::Unused],
            nuses: 1,
        },
        Opcode::Fdiv => OpcodeRow {
            name: "fdiv",
            pattern: 0xfc000024,
            mask: 0xfc0007fe,
            ext: None,
            mods: MOD_RC,
            args: [Operand::FrD, Operand::FrA, Operand::FrB, Operand::Unused, Operand::Unused],
            nargs: 3,
            defs: [Operand::FrD, Operand::Unused, Operand::Unused],
            ndefs: 1,
            uses: [Operand::FrA, Operand::FrB, Operand::Unused],
            nuses: 2,
        },
        Opcode::Fmr => OpcodeRow {
            name: "fmr",
            pattern: 0xfc000090,
            mask: 0xfc1f07fe,
            ext: None,
            mods: MOD_RC,
            args: [Operand::FrD, Operand::FrB, Operand::Unused, Operand::Unused, Operand::Unused],
            nargs: 2,
            defs: [Operand::FrD, Operand::Unused, Operand::Unused],
            ndefs: 1,
            uses: [Operand::FrB, Operand::Unused, Operand::Unused],
            nuses: 1,
        },
        Opcode::Fmul => OpcodeRow {
            name: "fmul",
            pattern: 0xfc000032,
            mask: 0xfc00f83e,
            ext: None,
            mods: MOD_RC,
            args: [Operand::FrD, Operand::FrA, Operand::FrC, Operand::Unused, Operand::Unused],
            nargs: 3,
            defs: [Operand::FrD, Operand::Unused, Operand::Unused],
            ndefs: 1,
            uses: [Operand::FrA, Operand::FrC, Operand::Unused],
            nuses: 2,
        },
        Opcode::Fmuls => OpcodeRow {
            name: "fmuls",
            pattern: 0xec000032,
            mask: 0xfc00f83e,
            ext: None,
            mods: MOD_RC,
            args: [Operand::FrD, Operand::FrA, Operand::FrC, Operand::Unused, Operand::Unused],
            nargs: 3,
            defs: [Operand::FrD, Operand::Unused, Operand::Unused],
            ndefs: 1,
            uses: [Operand::FrA, Operand::FrC, Operand::Unused],
            nuses: 2,
        },
        Opcode::Fneg => OpcodeRow {
            name: "fneg",
            pattern: 0xfc000050,
            mask: 0xfc1f07fe,
            ext: None,
            mods: MOD_RC,
            args: [Operand::FrD, Operand::FrB, Operand::Unused, Operand::Unused, Operand::Unused],
            nargs: 2,
            defs: [Operand::FrD, Operand::Unused, Operand::Unused],
            ndefs: 1,
            uses: [Operand::FrB, Operand::Unused, Operand::Unused],
            nuses: 1,
        },
        Opcode::Frsp => OpcodeRow {
            name: "frsp",
            pattern: 0xfc000018,
            mask: 0xfc1f07fe,
            ext: None,
            mods: MOD_RC,
            args: [Operand::FrD, Operand::FrB, Operand::Unused, Operand::Unused, Operand::Unused],
            nargs: 2,
            defs: [Operand::FrD, Operand::Unused, Operand::Unused],
            ndefs: 1,
            uses: [Operand::FrB, Operand::Unused, Operand::Unused],
            nuses: 1,
        },
        Opcode::Fsub => OpcodeRow {
            name: "fsub",
            pattern: 0xfc000028,
            mask: 0xfc0007fe,
            ext: None,
            mods: MOD_RC,
            args: [Operand::FrD, Operand::FrA, Operand::FrB, Operand::Unused, Operand::Unused],
            nargs: 3,
            defs: [Operand::FrD, Operand::Unused, Operand::Unused],
            ndefs: 1,
            uses: [Operand::FrA, Operand::FrB, Operand::Unused],
            nuses: 2,
        },
        Opcode::Icbi => OpcodeRow {
            name: "icbi",
            pattern: 0x7c0007ac,
            mask: 0xffe007ff,
            ext: None,
            mods: 0,
            args: [Operand::Ra, Operand::Rb, Operand::Unused, Operand::Unused, Operand::Unused],
            nargs: 2,
            defs: [Operand::Unused, Operand::Unused, Operand::Unused],
            ndefs: 0,
            uses: [Operand::Ra, Operand::Rb, Operand::Unused],
            nuses: 2,
        },
        Opcode::Isync => OpcodeRow {
            name: "isync",
            pattern: 0x4c00012c,
            mask: 0xffffffff,
            ext: None,
            mods: 0,
            args: [Operand::Unused, Operand::Unused, Operand::Unused, Operand::Unused, Operand::Unused],
            nargs: 0,
            defs: [Operand::Unused, Operand::Unused, Operand::Unused],
            ndefs: 0,
            uses: [Operand::Unused, Operand::Unused, Operand::Unused],
            nuses: 0,
        },
        Opcode::Lbz => OpcodeRow {
            name: "lbz",
            pattern: 0x88000000,
            mask: 0xfc000000,
            ext: None,
            mods: 0,
            args: [Operand::Rd, Operand::Offset, Operand::Ra, Operand::Unused, Operand::Unused],
            nargs: 3,
            defs: [Operand::Rd, Operand::Unused, Operand::Unused],
            ndefs: 1,
            uses: [Operand::Ra, Operand::Unused, Operand::Unused],
            nuses: 1,
        },
        Opcode::Lbzu => OpcodeRow {
            name: "lbzu",
            pattern: 0x8c000000,
            mask: 0xfc000000,
            ext: None,
            mods: 0,
            args: [Operand::Rd, Operand::Offset, Operand::Ra, Operand::Unused, Operand::Unused],
            nargs: 3,
            defs: [Operand::Rd, Operand::Ra, Operand::Unused],
            ndefs: 2,
            uses: [Operand::Ra, Operand::Unused, Operand::Unused],
            nuses: 1,
        },
        Opcode::Ldu => OpcodeRow {
            name: "ldu",
            pattern: 0xe8000001,
            mask: 0xfc000003,
            ext: Some(Extension::Ppc64),
            mods: 0,
            args: [Operand::Rd, Operand::Ds, Operand::Ra, Operand::Unused, Operand::Unused],
            nargs: 3,
            defs: [Operand::Rd, Operand::Ra, Operand::Unused],
            ndefs: 2,
            uses: [Operand::Ra, Operand::Unused, Operand::Unused],
            nuses: 1,
        },
        Opcode::Lfd => OpcodeRow {
            name: "lfd",
            pattern: 0xc8000000,
            mask: 0xfc000000,
            ext: None,
            mods: 0,
            args: [Operand::FrD, Operand::Offset, Operand::Ra, Operand::Unused, Operand::Unused],
            nargs: 3,
            defs: [Operand::FrD, Operand::Unused, Operand::Unused],
            ndefs: 1,
            uses: [Operand::Ra, Operand::Unused, Operand::Unused],
            nuses: 1,
        },
        Opcode::Lfs => OpcodeRow {
            name: "lfs",
            pattern: 0xc0000000,
            mask: 0xfc000000,
            ext: None,
            mods: 0,
            args: [Operand::FrD, Operand::Offset, Operand::Ra, Operand::Unused, Operand::Unused],
            nargs: 3,
            defs: [Operand::FrD, Operand::Unused, Operand::Unused],
            ndefs: 1,
            uses: [Operand::Ra, Operand::Unused, Operand::Unused],
            nuses: 1,
        },
        Opcode::Lha => OpcodeRow {
            name: "lha",
            pattern: 0xa8000000,
            mask: 0xfc000000,
            ext: None,
            mods: 0,
            args: [Operand::Rd, Operand::Offset, Operand::Ra, Operand::Unused, Operand::Unused],
            nargs: 3,
            defs: [Operand::Rd, Operand::Unused, Operand::Unused],
            ndefs: 1,
            uses: [Operand::Ra, Operand::Unused, Operand::Unused],
            nuses: 1,
        },
        Opcode::Lhz => OpcodeRow {
            name: "lhz",
            pattern: 0xa0000000,
            mask: 0xfc000000,
            ext: None,
            mods: 0,
            args: [Operand::Rd, Operand::Offset, Operand::Ra, Operand::Unused, Operand::Unused],
            nargs: 3,
            defs: [Operand::Rd, Operand::Unused, Operand::Unused],
            ndefs: 1,
            uses: [Operand::Ra, Operand::Unused, Operand::Unused],
            nuses: 1,
        },
        Opcode::Lhzu => OpcodeRow {
            name: "lhzu",
            pattern: 0xa4000000,
            mask: 0xfc000000,
            ext: None,
            mods: 0,
            args: [Operand::Rd, Operand::Offset, Operand::Ra, Operand::Unused, Operand::Unused],
            nargs: 3,
            defs: [Operand::Rd, Operand::Ra, Operand::Unused],
            ndefs: 2,
            uses: [Operand::Ra, Operand::Unused, Operand::Unused],
            nuses: 1,
        },
        Opcode::Lmw => OpcodeRow {
            name: "lmw",
            pattern: 0xb8000000,
            mask: 0xfc000000,
            ext: None,
            mods: 0,
            args: [Operand::Rd, Operand::Offset, Operand::Ra, Operand::Unused, Operand::Unused],
            nargs: 3,
            defs: [Operand::Rd, Operand::Unused, Operand::Unused],
            ndefs: 1,
            uses: [Operand::Ra, Operand::Unused, Operand::Unused],
            nuses: 1,
        },
        Opcode::Lwzx => OpcodeRow {
            name: "lwzx",
            pattern: 0x7c00002e,
            mask: 0xfc0007ff,
            ext: None,
            mods: 0,
            args: [Operand::Rd, Operand::Ra, Operand::Rb, Operand::Unused, Operand::Unused],
            nargs: 3,
            defs: [Operand::Rd, Operand::Unused, Operand::Unused],
            ndefs: 1,
            uses: [Operand::Ra, Operand::Rb, Operand::Unused],
            nuses: 2,
        },
        Opcode::Mfcr => OpcodeRow {
            name: "mfcr",
            pattern: 0x7c000026,
            mask: 0xfc1fffff,
            ext: None,
            mods: 0,
            args: [Operand::Rd, Operand::Unused, Operand::Unused, Operand::Unused, Operand::Unused],
            nargs: 1,
            defs: [Operand::Rd, Operand::Unused, Operand::Unused],
            ndefs: 1,
            uses: [Operand::Unused, Operand::Unused, Operand::Unused],
            nuses: 0,
        },
        Opcode::Mfmsr => OpcodeRow {
            name: "mfmsr",
            pattern: 0x7c0000a6,
            mask: 0xfc1fffff,
            ext: None,
            mods: 0,
            args: [Operand::Rd, Operand::Unused, Operand::Unused, Operand::Unused, Operand::Unused],
            nargs: 1,
            defs: [Operand::Rd, Operand::Unused, Operand::Unused],
            ndefs: 1,
            uses: [Operand::Unused, Operand::Unused, Operand::Unused],
            nuses: 0,
        },
        Opcode::Mftb => OpcodeRow {
            name: "mftb",
            pattern: 0x7c0002e6,
            mask: 0xfc0007ff,
            ext: None,
            mods: 0,
            args: [Operand::Rd, Operand::Tbr, Operand::Unused, Operand::Unused, Operand::Unused],
            nargs: 2,
            defs: [Operand::Rd, Operand::Unused, Operand::Unused],
            ndefs: 1,
            uses: [Operand::Unused, Operand::Unused, Operand::Unused],
            nuses: 0,
        },
        Opcode::Mtcrf => OpcodeRow {
            name: "mtcrf",
            pattern: 0x7c000120,
            mask: 0xfc100fff,
            ext: None,
            mods: 0,
            args: [Operand::Crm, Operand::Rd, Operand::Unused, Operand::Unused, Operand::Unused],
            nargs: 2,
            defs: [Operand::Unused, Operand::Unused, Operand::Unused],
            ndefs: 0,
            uses: [Operand::Rd, Operand::Unused, Operand::Unused],
            nuses: 1,
        },
        Opcode::Mtmsr => OpcodeRow {
            name: "mtmsr",
            pattern: 0x7c000124,
            mask: 0xfc1fffff,
            ext: None,
            mods: 0,
            args: [Operand::Rd, Operand::Unused, Operand::Unused, Operand::Unused, Operand::Unused],
            nargs: 1,
            defs: [Operand::Unused, Operand::Unused, Operand::Unused],
            ndefs: 0,
            uses: [Operand::Rd, Operand::Unused, Operand::Unused],
            nuses: 1,
        },
        Opcode::Mtsr => OpcodeRow {
            name: "mtsr",
            pattern: 0x7c0001a4,
            mask: 0xfc10ffff,
            ext: None,
            mods: 0,
            args: [Operand::Sr, Operand::Rd, Operand::Unused, Operand::Unused, Operand::Unused],
            nargs: 2,
            defs: [Operand::Sr, Operand::Unused, Operand::Unused],
            ndefs: 1,
            uses: [Operand::Rd, Operand::Unused, Operand::Unused],
            nuses: 1,
        },
        Opcode::Mulli => OpcodeRow {
            name: "mulli",
            pattern: 0x1c000000,
            mask: 0xfc000000,
            ext: None,
            mods: 0,
            args: [Operand::Rd, Operand::Ra, Operand::Simm, Operand::Unused, Operand::Unused],
            nargs: 3,
            defs: [Operand::Rd, Operand::Unused, Operand::Unused],
            ndefs: 1,
            uses: [Operand::Ra, Operand::Unused, Operand::Unused],
            nuses: 1,
        },
        Opcode::Mullw => OpcodeRow {
            name: "mullw",
            pattern: 0x7c0001d6,
            mask: 0xfc0003fe,
            ext: None,
            mods: MOD_OE | MOD_RC,
            args: [Operand::Rd, Operand::Ra, Operand::Rb, Operand::Unused, Operand::Unused],
            nargs: 3,
            defs: [Operand::Rd, Operand::Unused, Operand::Unused],
            ndefs: 1,
            uses: [Operand::Ra, Operand::Rb, Operand::Unused],
            nuses: 2,
        },
        Opcode::Neg => OpcodeRow {
            name: "neg",
            pattern: 0x7c0000d0,
            mask: 0xfc00fbfe,
            ext: None,
            mods: MOD_OE | MOD_RC,
            args: [Operand::Rd, Operand::Ra, Operand::Unused, Operand::Unused, Operand::Unused],
            nargs: 2,
            defs: [Operand::Rd, Operand::Unused, Operand::Unused],
            ndefs: 1,
            uses: [Operand::Ra, Operand::Unused, Operand::Unused],
            nuses: 1,
        },
        Opcode::Nor => OpcodeRow {
            name: "nor",
            pattern: 0x7c0000f8,
            mask: 0xfc0007fe,
            ext: None,
            mods: MOD_RC,
            args: [Operand::Ra, Operand::Rd, Operand::Rb, Operand::Unused, Operand::Unused],
            nargs: 3,
            defs: [Operand::Ra, Operand::Unused, Operand::Unused],
            ndefs: 1,
            uses: [Operand::Rd, Operand::Rb, Operand::Unused],
            nuses: 2,
        },
        Opcode::Oris => OpcodeRow {
            name: "oris",
            pattern: 0x64000000,
            mask: 0xfc000000,
            ext: None,
            mods: 0,
            args: [Operand::Ra, Operand::Rd, Operand::Uimm, Operand::Unused, Operand::Unused],
            nargs: 3,
            defs: [Operand::Ra, Operand::Unused, Operand::Unused],
            ndefs: 1,
            uses: [Operand::Rd, Operand::Unused, Operand::Unused],
            nuses: 1,
        },
        Opcode::PsMerge00 => OpcodeRow {
            name: "ps_merge00",
            pattern: 0x10000420,
            mask: 0xfc0007fe,
            ext: Some(Extension::PairedSingles),
            mods: MOD_RC,
            args: [Operand::FrD, Operand::FrA, Operand::FrB, Operand::Unused, Operand::Unused],
            nargs: 3,
            defs: [Operand::FrD, Operand::Unused, Operand::Unused],
            ndefs: 1,
            uses: [Operand::FrA, Operand::FrB, Operand::Unused],
            nuses: 2,
        },
        Opcode::PsMr => OpcodeRow {
            name: "ps_mr",
            pattern: 0x10000090,
            mask: 0xfc1f07fe,
            ext: Some(Extension::PairedSingles),
            mods: MOD_RC,
            args: [Operand::FrD, Operand::FrB, Operand::Unused, Operand::Unused, Operand::Unused],
            nargs: 2,
            defs: [Operand::FrD, Operand::Unused, Operand::Unused],
            ndefs: 1,
            uses: [Operand::FrB, Operand::Unused, Operand::Unused],
            nuses: 1,
        },
        Opcode::PsMul => OpcodeRow {
            name: "ps_mul",
            pattern: 0x10000032,
            mask: 0xfc00f83e,
            ext: Some(Extension::PairedSingles),
            mods: MOD_RC,
            args: [Operand::FrD, Operand::FrA, Operand::FrC, Operand::Unused, Operand::Unused],
            nargs: 3,
            defs: [Operand::FrD, Operand::Unused, Operand::Unused],
            ndefs: 1,
            uses: [Operand::FrA, Operand::FrC, Operand::Unused],
            nuses: 2,
        },
        Opcode::PsSub => OpcodeRow {
            name: "ps_sub",
            pattern: 0x10000028,
            mask: 0xfc0007fe,
            ext: Some(Extension::PairedSingles),
            mods: MOD_RC,
            args: [Operand::FrD, Operand::FrA, Operand::FrB, Operand::Unused, Operand::Unused],
            nargs: 3,
            defs: [Operand::FrD, Operand::Unused, Operand::Unused],
            ndefs: 1,
            uses: [Operand::FrA, Operand::FrB, Operand::Unused],
            nuses: 2,
        },
        Opcode::PsqSt => OpcodeRow {
            name: "psq_st",
            pattern: 0xf0000000,
            mask: 0xfc000000,
            ext: Some(Extension::PairedSingles),
            mods: 0,
            args: [Operand::FrD, Operand::PsOffset, Operand::Ra, Operand::PsW, Operand::PsI],
            nargs: 5,
            defs: [Operand::Unused, Operand::Unused, Operand::Unused],
            ndefs: 0,
            uses: [Operand::FrD, Operand::Ra, Operand::Unused],
            nuses: 2,
        },
        Opcode::Rfi => OpcodeRow {
            name: "rfi",
            pattern: 0x4c000064,
            mask: 0xffffffff,
            ext: None,
            mods: 0,
            args: [Operand::Unused, Operand::Unused, Operand::Unused, Operand::Unused, Operand::Unused],
            nargs: 0,
            defs: [Operand::Unused, Operand::Unused, Operand::Unused],
            ndefs: 0,
            uses: [Operand::Unused, Operand::Unused, Operand::Unused],
            nuses: 0,
        },
        Opcode::Rlwimi => OpcodeRow {
            name: "rlwimi",
            pattern: 0x50000000,
            mask: 0xfc000000,
            ext: None,
            mods: MOD_RC,
            args: [Operand::Ra, Operand::Rd, Operand::Sh, Operand::Mb, Operand::Me],
            nargs: 5,
            defs: [Operand::Ra, Operand::Unused, Operand::Unused],
            ndefs: 1,
            uses: [Operand::Rd, Operand::Ra, Operand::Unused],
            nuses: 2,
        },
        Opcode::Rlwnm => OpcodeRow {
            name: "rlwnm",
            pattern: 0x5c000000,
            mask: 0xfc000000,
            ext: None,
            mods: MOD_RC,
            args: [Operand::Ra, Operand::Rd, Operand::Rb, Operand::Mb, Operand::Me],
            nargs: 5,
            defs: [Operand::Ra, Operand::Unused, Operand::Unused],
            ndefs: 1,
            uses: [Operand::Rd, Operand::Rb, Operand::Unused],
            nuses: 2,
        },
        Opcode::Sc => OpcodeRow {
            name: "sc",
            pattern: 0x44000002,
            mask: 0xffffffff,
            ext: None,
            mods: 0,
            args: [Operand::Unused, Operand::Unused, Operand::Unused, Operand::Unused, Operand::Unused],
            nargs: 0,
            defs: [Operand::Unused, Operand::Unused, Operand::Unused],
            ndefs: 0,
            uses: [Operand::Unused, Operand::Unused, Operand::Unused],
            nuses: 0,
        },
        Opcode::Slw => OpcodeRow {
            name: "slw",
            pattern: 0x7c000030,
            mask: 0xfc0007fe,
            ext: None,
            mods: MOD_RC,
            args: [Operand::Ra, Operand::Rd, Operand::Rb, Operand::Unused, Operand::Unused],
            nargs: 3,
            defs: [Operand::Ra, Operand::Unused, Operand::Unused],
            ndefs: 1,
            uses: [Operand::Rd, Operand::Rb, Operand::Unused],
            nuses: 2,
        },
        Opcode::Sraw => OpcodeRow {
            name: "sraw",
            pattern: 0x7c000630,
            mask: 0xfc0007fe,
            ext: None,
            mods: MOD_RC,
            args: [Operand::Ra, Operand::Rd, Operand::Rb, Operand::Unused, Operand::Unused],
            nargs: 3,
            defs: [Operand::Ra, Operand::Unused, Operand::Unused],
            ndefs: 1,
            uses: [Operand::Rd, Operand::Rb, Operand::Unused],
            nuses: 2,
        },
        Opcode::Srawi => OpcodeRow {
            name: "srawi",
            pattern: 0x7c000670,
            mask: 0xfc0007fe,
            ext: None,
            mods: MOD_RC,
            args: [Operand::Ra, Operand::Rd, Operand::Sh, Operand::Unused, Operand::Unused],
            nargs: 3,
            defs: [Operand::Ra, Operand::Unused, Operand::Unused],
            ndefs: 1,
            uses: [Operand::Rd, Operand::Unused, Operand::Unused],
            nuses: 1,
        },
        Opcode::Srw => OpcodeRow {
            name: "srw",
            pattern: 0x7c000430,
            mask: 0xfc0007fe,
            ext: None,
            mods: MOD_RC,
            args: [Operand::Ra, Operand::Rd, Operand::Rb, Operand::Unused, Operand::Unused],
            nargs: 3,
            defs: [Operand::Ra, Operand::Unused, Operand::Unused],
            ndefs: 1,
            uses: [Operand::Rd, Operand::Rb, Operand::Unused],
            nuses: 2,
        },
        Opcode::Stb => OpcodeRow {
            name: "stb",
            pattern: 0x98000000,
            mask: 0xfc000000,
            ext: None,
            mods: 0,
            args: [Operand::Rd, Operand::Offset, Operand::Ra, Operand::Unused, Operand::Unused],
            nargs: 3,
            defs: [Operand::Unused, Operand::Unused, Operand::Unused],
            ndefs: 0,
            uses: [Operand::Rd, Operand::Ra, Operand::Unused],
            nuses: 2,
        },
        Opcode::Stbu => OpcodeRow {
            name: "stbu",
            pattern: 0x9c000000,
            mask: 0xfc000000,
            ext: None,
            mods: 0,
            args: [Operand::Rd, Operand::Offset, Operand::Ra, Operand::Unused, Operand::Unused],
            nargs: 3,
            defs: [Operand::Ra, Operand::Unused, Operand::Unused],
            ndefs: 1,
            uses: [Operand::Rd, Operand::Ra, Operand::Unused],
            nuses: 2,
        },
        Opcode::Std => OpcodeRow {
            name: "std",
            pattern: 0xf8000000,
            mask: 0xfc000003,
            ext: Some(Extension::Ppc64),
            mods: 0,
            args: [Operand::Rd, Operand::Ds, Operand::Ra, Operand::Unused, Operand::Unused],
            nargs: 3,
            defs: [Operand::Unused, Operand::Unused, Operand::Unused],
            ndefs: 0,
            uses: [Operand::Rd, Operand::Ra, Operand::Unused],
            nuses: 2,
        },
        Opcode::Stfd => OpcodeRow {
            name: "stfd",
            pattern: 0xd8000000,
            mask: 0xfc000000,
            ext: None,
            mods: 0,
            args: [Operand::FrD, Operand::Offset, Operand::Ra, Operand::Unused, Operand::Unused],
            nargs: 3,
            defs: [Operand::Unused, Operand::Unused, Operand::Unused],
            ndefs: 0,
            uses: [Operand::FrD, Operand::Ra, Operand::Unused],
            nuses: 2,
        },
        Opcode::Stfs => OpcodeRow {
            name: "stfs",
            pattern: 0xd0000000,
            mask: 0xfc000000,
            ext: None,
            mods: 0,
            args: [Operand::FrD, Operand::Offset, Operand::Ra, Operand::Unused, Operand::Unused],
            nargs: 3,
            defs: [Operand::Unused, Operand::Unused, Operand::Unused],
            ndefs: 0,
            uses: [Operand::FrD, Operand::Ra, Operand::Unused],
            nuses: 2,
        },
        Opcode::Sth => OpcodeRow {
            name: "sth",
            pattern: 0xb0000000,
            mask: 0xfc000000,
            ext: None,
            mods: 0,
            args: [Operand::Rd, Operand::Offset, Operand::Ra, Operand::Unused, Operand::Unused],
            nargs: 3,
            defs: [Operand::Unused, Operand::Unused, Operand::Unused],
            ndefs: 0,
            uses: [Operand::Rd, Operand::Ra, Operand::Unused],
            nuses: 2,
        },
        Opcode::Sthu => OpcodeRow {
            name: "sthu",
            pattern: 0xb4000000,
            mask: 0xfc000000,
            ext: None,
            mods: 0,
            args: [Operand::Rd, Operand::Offset, Operand::Ra, Operand::Unused, Operand::Unused],
            nargs: 3,
            defs: [Operand::Ra, Operand::Unused, Operand::Unused],
            ndefs: 1,
            uses: [Operand::Rd, Operand::Ra, Operand::Unused],
            nuses: 2,
        },
        Opcode::Stmw => OpcodeRow {
            name: "stmw",
            pattern: 0xbc000000,
            mask: 0xfc000000,
            ext: None,
            mods: 0,
            args: [Operand::Rd, Operand::Offset, Operand::Ra, Operand::Unused, Operand::Unused],
            nargs: 3,
            defs: [Operand::Unused, Operand::Unused, Operand::Unused],
            ndefs: 0,
            uses: [Operand::Rd, Operand::Ra, Operand::Unused],
            nuses: 2,
        },
        Opcode::Stwx => OpcodeRow {
            name: "stwx",
            pattern: 0x7c00012e,
            mask: 0xfc0007ff,
            ext: None,
            mods: 0,
            args: [Operand::Rd, Operand::Ra, Operand::Rb, Operand::Unused, Operand::Unused],
            nargs: 3,
            defs: [Operand::Unused, Operand::Unused, Operand::Unused],
            ndefs: 0,
            uses: [Operand::Rd, Operand::Ra, Operand::Rb],
            nuses: 3,
        },
        Opcode::Subf => OpcodeRow {
            name: "subf",
            pattern: 0x7c000050,
            mask: 0xfc0003fe,
            ext: None,
            mods: MOD_OE | MOD_RC,
            args: [Operand::Rd, Operand::Ra, Operand::Rb, Operand::Unused, Operand::Unused],
            nargs: 3,
            defs: [Operand::Rd, Operand::Unused, Operand::Unused],
            ndefs: 1,
            uses: [Operand::Ra, Operand::Rb, Operand::Unused],
            nuses: 2,
        },
        Opcode::Subfic => OpcodeRow {
            name: "subfic",
            pattern: 0x20000000,
            mask: 0xfc000000,
            ext: None,
            mods: 0,
            args: [Operand::Rd, Operand::Ra, Operand::Simm, Operand::Unused, Operand::Unused],
            nargs: 3,
            defs: [Operand::Rd, Operand::Unused, Operand::Unused],
            ndefs: 1,
            uses: [Operand::Ra, Operand::Unused, Operand::Unused],
            nuses: 1,
        },
        Opcode::Tw => OpcodeRow {
            name: "tw",
            pattern: 0x7c000008,
            mask: 0xfc0007ff,
            ext: None,
            mods: 0,
            args: [Operand::To, Operand::Ra, Operand::Rb, Operand::Unused, Operand::Unused],
            nargs: 3,
            defs: [Operand::Unused, Operand::Unused, Operand::Unused],
            ndefs: 0,
            uses: [Operand::Ra, Operand::Rb, Operand::Unused],
            nuses: 2,
        },
        Opcode::Twi => OpcodeRow {
            name: "twi",
            pattern: 0x0c000000,
            mask: 0xfc000000,
            ext: None,
            mods: 0,
            args: [Operand::To, Operand::Ra, Operand::Simm, Operand::Unused, Operand::Unused],
            nargs: 3,
            defs: [Operand::Unused, Operand::Unused, Operand::Unused],
            ndefs: 0,
            uses: [Operand::Ra, Operand::Unused, Operand::Unused],
            nuses: 1,
        },
        Opcode::Vand => OpcodeRow {
            name: "vand",
            pattern: 0x10000404,
            mask: 0xfc0007ff,
            ext: Some(Extension::AltiVec),
            mods: 0,
            args: [Operand::Vd, Operand::Va, Operand::Vb, Operand::Unused, Operand::Unused],
            nargs: 3,
            defs: [Operand::Vd, Operand::Unused, Operand::Unused],
            ndefs: 1,
            uses: [Operand::Va, Operand::Vb, Operand::Unused],
            nuses: 2,
        },
        Opcode::Vor => OpcodeRow {
            name: "vor",
            pattern: 0x10000484,
            mask: 0xfc0007ff,
            ext: Some(Extension::AltiVec),
            mods: 0,
            args: [Operand::Vd, Operand::Va, Operand::Vb, Operand::Unused, Operand::Unused],
            nargs: 3,
            defs: [Operand::Vd, Operand::Unused, Operand::Unused],
            ndefs: 1,
            uses: [Operand::Va, Operand::Vb, Operand::Unused],
            nuses: 2,
        },
        Opcode::Vxor => OpcodeRow {
            name: "vxor",
            pattern: 0x100004c4,
            mask: 0xfc0007ff,
            ext: Some(Extension::AltiVec),
            mods: 0,
            args: [Operand::Vd, Operand::Va, Operand::Vb, Operand::Unused, Operand::Unused],
            nargs: 3,
            defs: [Operand::Vd, Operand::Unused, Operand::Unused],
            ndefs: 1,
            uses: [Operand::Va, Operand::Vb, Operand::Unused],
            nuses: 2,
        },
        Opcode::Xor => OpcodeRow {
            name: "xor",
            pattern: 0x7c000278,
            mask: 0xfc0007fe,
            ext: None,
            mods: MOD_RC,
            args: [Operand::Ra, Operand::Rd, Operand::Rb, Operand::Unused, Operand::Unused],
            nargs: 3,
            defs: [Operand::Ra, Operand::Unused, Operand::Unused],
            ndefs: 1,
            uses: [Operand::Rd, Operand::Rb, Operand::Unused],
            nuses: 2,
        },
        Opcode::Xori => OpcodeRow {
            name: "xori",
            pattern: 0x68000000,
            mask: 0xfc000000,
            ext: None,
            mods: 0,
            args: [Operand::Ra, Operand::Rd, Operand::Uimm, Operand::Unused, Operand::Unused],
            nargs: 3,
            defs: [Operand::Ra, Operand::Unused, Operand::Unused],
            ndefs: 1,
            uses: [Operand::Rd, Operand::Unused, Operand::Unused],
            nuses: 1,
        },
        Opcode::Xoris => OpcodeRow {
            name: "xoris",
            pattern: 0x6c000000,
            mask: 0xfc000000,
            ext: None,
            mods: 0,
            args: [Operand::Ra, Operand::Rd, Operand::Uimm, Operand::Unused, Operand::Unused],
            nargs: 3,
            defs: [Operand::Ra, Operand::Unused, Operand::Unused],
            ndefs: 1,
            uses: [Operand::Rd, Operand::Unused, Operand::Unused],
            nuses: 1,
        },
        Opcode::Illegal => OpcodeRow {
            name: "<illegal>",
            pattern: 0x00000000,
            mask: 0x00000000,
            ext: None,
            mods: 0,
            args: [Operand::Unused, Operand::Unused, Operand::Unused, Operand::Unused, Operand::Unused],
            nargs: 0,
            defs: [Operand::Unused, Operand::Unused, Operand::Unused],
            ndefs: 0,
            uses: [Operand::Unused, Operand::Unused, Operand::Unused],
            nuses: 0,
        },
    }
}

/// The opcodes in declaration order.
pub open spec fn opcode_at(i: usize) -> Opcode {
    match i {
        0 => Opcode::Add,
        1 => Opcode::Addi,
        2 => Opcode::Addis,
        3 => Opcode::B,
        4 => Opcode::Bc,
        5 => Opcode::Bcctr,
        6 => Opcode::Bclr,
        7 => Opcode::Cmp,
        8 => Opcode::Cmpi,
        9 => Opcode::Crxor,
        10 => Opcode::Fadd,
        11 => Opcode::Ld,
        12 => Opcode::Lwz,
        13 => Opcode::Lwzu,
        14 => Opcode::Mfspr,
        15 => Opcode::Mfsr,
        16 => Opcode::Mtspr,
        17 => Opcode::Or,
        18 => Opcode::Ori,
        19 => Opcode::PsAdd,
        20 => Opcode::PsqL,
        21 => Opcode::Rlwinm,
        22 => Opcode::Stw,
        23 => Opcode::Stwu,
        24 => Opcode::Sync,
        25 => Opcode::Vaddubm,
        26 => Opcode::Addic,
        27 => Opcode::AddicDot,
        28 => Opcode::And,
        29 => Opcode::Andc,
        30 => Opcode::AndiDot,
        31 => Opcode::AndisDot,
        32 => Opcode::Cmpl,
        33 => Opcode::Cmpli,
        34 => Opcode::Cntlzw,
        35 => Opcode::Dcbf,
        36 => Opcode::Divw,
        37 => Opcode::Divwu,
        38 => Opcode::Eieio,
        39 => Opcode::Extsb,
        40 => Opcode::Extsh,
        41 => Opcode::Fadds,
        42 => Opcode::Fcmpu,
        43 => Opcode::Fctiwz,
        44 => Opcode::Fdiv,
        45 => Opcode::Fmr,
        46 => Opcode::Fmul,
        47 => Opcode::Fmuls,
        48 => Opcode::Fneg,
        49 => Opcode::Frsp,
        50 => Opcode::Fsub,
        51 => Opcode::Icbi,
        52 => Opcode::Isync,
        53 => Opcode::Lbz,
        54 => Opcode::Lbzu,
        55 => Opcode::Ldu,
        56 => Opcode::Lfd,
        57 => Opcode::Lfs,
        58 => Opcode::Lha,
        59 => Opcode::Lhz,
        60 => Opcode::Lhzu,
        61 => Opcode::Lmw,
        62 => Opcode::Lwzx,
        63 => Opcode::Mfcr,
        64 => Opcode::Mfmsr,
        65 => Opcode::Mftb,
        66 => Opcode::Mtcrf,
        67 => Opcode::Mtmsr,
        68 => Opcode::Mtsr,
        69 => Opcode::Mulli,
        70 => Opcode::Mullw,
        71 => Opcode::Neg,
        72 => Opcode::Nor,
        73 => Opcode::Oris,
        74 => Opcode::PsMerge00,
        75 => Opcode::PsMr,
        76 => Opcode::PsMul,
        77 => Opcode::PsSub,
        78 => Opcode::PsqSt,
        79 => Opcode::Rfi,
        80 => Opcode::Rlwimi,
        81 => Opcode::Rlwnm,
        82 => Opcode::Sc,
        83 => Opcode::Slw,
        84 => Opcode::Sraw,
        85 => Opcode::Srawi,
        86 => Opcode::Srw,
        87 => Opcode::Stb,
        88 => Opcode::Stbu,
        89 => Opcode::Std,
        90 => Opcode::Stfd,
        91 => Opcode::Stfs,
        92 => Opcode::Sth,
        93 => Opcode::Sthu,
        94 => Opcode::Stmw,
        95 => Opcode::Stwx,
        96 => Opcode::Subf,
        97 => Opcode::Subfic,
        98 => Opcode::Tw,
        99 => Opcode::Twi,
        100 => Opcode::Vand,
        101 => Opcode::Vor,
        102 => Opcode::Vxor,
        103 => Opcode::Xor,
        104 => Opcode::Xori,
        _ => Opcode::Xoris,
    }
}

/// The place of each opcode in declaration order (`NUM_OPCODES` for `Illegal`).
pub open spec fn opcode_index(op: Opcode) -> usize {
    match op {
        Opcode::Add => 0,
        Opcode::Addi => 1,
        Opcode::Addis => 2,
        Opcode::B => 3,
        Opcode::Bc => 4,
        Opcode::Bcctr => 5,
        Opcode::Bclr => 6,
        Opcode::Cmp => 7,
        Opcode::Cmpi => 8,
        Opcode::Crxor => 9,
        Opcode::Fadd => 10,
        Opcode::Ld => 11,
        Opcode::Lwz => 12,
        Opcode::Lwzu => 13,
        Opcode::Mfspr => 14,
        Opcode::Mfsr => 15,
        Opcode::Mtspr => 16,
        Opcode::Or => 17,
        Opcode::Ori => 18,
        Opcode::PsAdd => 19,
        Opcode::PsqL => 20,
        Opcode::Rlwinm => 21,
        Opcode::Stw => 22,
        Opcode::Stwu => 23,
        Opcode::Sync => 24,
        Opcode::Vaddubm => 25,
        Opcode::Addic => 26,
        Opcode::AddicDot => 27,
        Opcode::And => 28,
        Opcode::Andc => 29,
        Opcode::AndiDot => 30,
        Opcode::AndisDot => 31,
        Opcode::Cmpl => 32,
        Opcode::Cmpli => 33,
        Opcode::Cntlzw => 34,
        Opcode::Dcbf => 35,
        Opcode::Divw => 36,
        Opcode::Divwu => 37,
        Opcode::Eieio => 38,
        Opcode::Extsb => 39,
        Opcode::Extsh => 40,
        Opcode::Fadds => 41,
        Opcode::Fcmpu => 42,
        Opcode::Fctiwz => 43,
        Opcode::Fdiv => 44,
        Opcode::Fmr => 45,
        Opcode::Fmul => 46,
        Opcode::Fmuls => 47,
        Opcode::Fneg => 48,
        Opcode::Frsp => 49,
        Opcode::Fsub => 50,
        Opcode::Icbi => 51,
        Opcode::Isync => 52,
        Opcode::Lbz => 53,
        Opcode::Lbzu => 54,
        Opcode::Ldu => 55,
        Opcode::Lfd => 56,
        Opcode::Lfs => 57,
        Opcode::Lha => 58,
        Opcode::Lhz => 59,
        Opcode::Lhzu => 60,
        Opcode::Lmw => 61,
        Opcode::Lwzx => 62,
        Opcode::Mfcr => 63,
        Opcode::Mfmsr => 64,
        Opcode::Mftb => 65,
        Opcode::Mtcrf => 66,
        Opcode::Mtmsr => 67,
        Opcode::Mtsr => 68,
        Opcode::Mulli => 69,
        Opcode::Mullw => 70,
        Opcode::Neg => 71,
        Opcode::Nor => 72,
        Opcode::Oris => 73,
        Opcode::PsMerge00 => 74,
        Opcode::PsMr => 75,
        Opcode::PsMul => 76,
        Opcode::PsSub => 77,
        Opcode::PsqSt => 78,
        Opcode::Rfi => 79,
        Opcode::Rlwimi => 80,
        Opcode::Rlwnm => 81,
        Opcode::Sc => 82,
        Opcode::Slw => 83,
        Opcode::Sraw => 84,
        Opcode::Srawi => 85,
        Opcode::Srw => 86,
        Opcode::Stb => 87,
        Opcode::Stbu => 88,
        Opcode::Std => 89,
        Opcode::Stfd => 90,
        Opcode::Stfs => 91,
        Opcode::Sth => 92,
        Opcode::Sthu => 93,
        Opcode::Stmw => 94,
        Opcode::Stwx => 95,
        Opcode::Subf => 96,
        Opcode::Subfic => 97,
        Opcode::Tw => 98,
        Opcode::Twi => 99,
        Opcode::Vand => 100,
        Opcode::Vor => 101,
        Opcode::Vxor => 102,
        Opcode::Xor => 103,
        Opcode::Xori => 104,
        Opcode::Xoris => 105,
        Opcode::Illegal => 106,
    }
}

proof fn lemma_opcode_index(op: Opcode)
    ensures
        op != Opcode::Illegal ==> 0 <= opcode_index(op) < NUM_OPCODES && opcode_at(opcode_index(op)) == op,
        op == Opcode::Illegal ==> opcode_index(op) == NUM_OPCODES,
{
}

/// Returns the opcode at place `i` in declaration order.
pub fn nth_opcode(i: usize) -> (r: Opcode)
    ensures
        r == opcode_at(i),
{
    match i {
        0 => Opcode::Add,
        1 => Opcode::Addi,
        2 => Opcode::Addis,
        3 => Opcode::B,
        4 => Opcode::Bc,
        5 => Opcode::Bcctr,
        6 => Opcode::Bclr,
        7 => Opcode::Cmp,
        8 => Opcode::Cmpi,
        9 => Opcode::Crxor,
        10 => Opcode::Fadd,
        11 => Opcode::Ld,
        12 => Opcode::Lwz,
        13 => Opcode::Lwzu,
        14 => Opcode::Mfspr,
        15 => Opcode::Mfsr,
        16 => Opcode::Mtspr,
        17 => Opcode::Or,
        18 => Opcode::Ori,
        19 => Opcode::PsAdd,
        20 => Opcode::PsqL,
        21 => Opcode::Rlwinm,
        22 => Opcode::Stw,
        23 => Opcode::Stwu,
        24 => Opcode::Sync,
        25 => Opcode::Vaddubm,
        26 => Opcode::Addic,
        27 => Opcode::AddicDot,
        28 => Opcode::And,
        29 => Opcode::Andc,
        30 => Opcode::AndiDot,
        31 => Opcode::AndisDot,
        32 => Opcode::Cmpl,
        33 => Opcode::Cmpli,
        34 => Opcode::Cntlzw,
        35 => Opcode::Dcbf,
        36 => Opcode::Divw,
        37 => Opcode::Divwu,
        38 => Opcode::Eieio,
        39 => Opcode::Extsb,
        40 => Opcode::Extsh,
        41 => Opcode::Fadds,
        42 => Opcode::Fcmpu,
        43 => Opcode::Fctiwz,
        44 => Opcode::Fdiv,
        45 => Opcode::Fmr,
        46 => Opcode::Fmul,
        47 => Opcode::Fmuls,
        48 => Opcode::Fneg,
        49 => Opcode::Frsp,
        50 => Opcode::Fsub,
        51 => Opcode::Icbi,
        52 => Opcode::Isync,
        53 => Opcode::Lbz,
        54 => Opcode::Lbzu,
        55 => Opcode::Ldu,
        56 => Opcode::Lfd,
        57 => Opcode::Lfs,
        58 => Opcode::Lha,
        59 => Opcode::Lhz,
        60 => Opcode::Lhzu,
        61 => Opcode::Lmw,
        62 => Opcode::Lwzx,
        63 => Opcode::Mfcr,
        64 => Opcode::Mfmsr,
        65 => Opcode::Mftb,
        66 => Opcode::Mtcrf,
        67 => Opcode::Mtmsr,
        68 => Opcode::Mtsr,
        69 => Opcode::Mulli,
        70 => Opcode::Mullw,
        71 => Opcode::Neg,
        72 => Opcode::Nor,
        73 => Opcode::Oris,
        74 => Opcode::PsMerge00,
        75 => Opcode::PsMr,
        76 => Opcode::PsMul,
        77 => Opcode::PsSub,
        78 => Opcode::PsqSt,
        79 => Opcode::Rfi,
        80 => Opcode::Rlwimi,
        81 => Opcode::Rlwnm,
        82 => Opcode::Sc,
        83 => Opcode::Slw,
        84 => Opcode::Sraw,
        85 => Opcode::Srawi,
        86 => Opcode::Srw,
        87 => Opcode::Stb,
        88 => Opcode::Stbu,
        89 => Opcode::Std,
        90 => Opcode::Stfd,
        91 => Opcode::Stfs,
        92 => Opcode::Sth,
        93 => Opcode::Sthu,
        94 => Opcode::Stmw,
        95 => Opcode::Stwx,
        96 => Opcode::Subf,
        97 => Opcode::Subfic,
        98 => Opcode::Tw,
        99 => Opcode::Twi,
        100 => Opcode::Vand,
        101 => Opcode::Vor,
        102 => Opcode::Vxor,
        103 => Opcode::Xor,
        104 => Opcode::Xori,
        _ => Opcode::Xoris,
    }
}

/// The number of set bits of `x`.
pub open spec fn popcount(x: u32) -> nat
    decreases x,
{
    if x == 0 {
        0
    } else {
        (x % 2) as nat + popcount(x / 2)
    }
}

proof fn lemma_popcount_le(x: u32)
    ensures
        popcount(x) <= x,
    decreases x,
{
    if x != 0 {
        lemma_popcount_le(x / 2);
    }
}

fn count_ones(x: u32) -> (r: u32)
    ensures
        r as nat == popcount(x),
{
    let mut y = x;
    let mut n: u32 = 0;
    while y != 0
        invariant
            n as nat + popcount(y) == popcount(x),
        decreases y,
    {
        proof {
            lemma_popcount_le(x);
            assert(popcount(y) == (y % 2) as nat + popcount(y / 2));
        }
        n = n + (y % 2);
        y = y / 2;
    }
    n
}

/// Whether the fixed bits of `op` match `word`.
pub open spec fn pattern_matches(op: Opcode, word: u32) -> bool {
    word & opcode_def(op).mask == opcode_def(op).pattern
}

/// Whether the extension that `op` needs, if any, is enabled in `exts`.
pub open spec fn enabled(op: Opcode, exts: Extensions) -> bool {
    match opcode_def(op).ext {
        None => true,
        Some(e) => has_all(exts.0, spec_bitmask(e)),
    }
}

/// Whether `op` may be the classification of `word`.
pub open spec fn candidate(op: Opcode, word: u32, exts: Extensions) -> bool {
    op != Opcode::Illegal && enabled(op, exts) && pattern_matches(op, word)
}

/// How many bits of a word `op` fixes.
pub open spec fn specificity(op: Opcode) -> nat {
    popcount(opcode_def(op).mask)
}

/// `a` is preferred to (or is) `b`: it fixes more bits, or as many and is
/// declared no later.
pub open spec fn preferred(a: Opcode, b: Opcode) -> bool {
    specificity(b) < specificity(a) || (specificity(b) == specificity(a) && opcode_index(a)
        <= opcode_index(b))
}

/// `r` is the classification of `word`: the preferred candidate, or `Illegal`
/// where there is none.
pub open spec fn is_classification(r: Opcode, word: u32, exts: Extensions) -> bool {
    if exists|op: Opcode| candidate(op, word, exts) {
        candidate(r, word, exts) && forall|op: Opcode| candidate(op, word, exts) ==> preferred(r, op)
    } else {
        r == Opcode::Illegal
    }
}

/// A word has exactly one classification.
pub proof fn lemma_classification_unique(r1: Opcode, r2: Opcode, word: u32, exts: Extensions)
    requires
        is_classification(r1, word, exts),
        is_classification(r2, word, exts),
    ensures
        r1 == r2,
{
    if exists|op: Opcode| candidate(op, word, exts) {
        assert(preferred(r1, r2) && preferred(r2, r1));
        lemma_opcode_index(r1);
        lemma_opcode_index(r2);
    }
}

fn is_enabled(ext: Option<Extension>, exts: Extensions) -> (r: bool)
    ensures
        r == match ext {
            None => true,
            Some(e) => has_all(exts.0, spec_bitmask(e)),
        },
{
    match ext {
        None => true,
        Some(e) => exts.contains(e),
    }
}

impl Opcode {
    /// Classifies `code`: among the opcodes enabled by `exts` whose fixed bits
    /// match, the one that fixes the most bits, the first declared on a tie;
    /// `Illegal` where none matches.
    #[verifier::rlimit(30)]
    pub fn detect(code: u32, exts: Extensions) -> (r: Opcode)
        ensures
            is_classification(r, code, exts),
    {
        let mut best = Opcode::Illegal;
        let mut best_spec: u32 = 0;
        let mut i: usize = 0;
        while i < NUM_OPCODES
            invariant
                i <= NUM_OPCODES,
                best == Opcode::Illegal ==> forall|j: usize|
                    j < i ==> !candidate(#[trigger] opcode_at(j), code, exts),
                best != Opcode::Illegal ==> {
                    &&& candidate(best, code, exts)
                    &&& opcode_index(best) < i
                    &&& best_spec as nat == specificity(best)
                    &&& forall|j: usize|
                        j < i && candidate(#[trigger] opcode_at(j), code, exts) ==> preferred(
                            best,
                            opcode_at(j),
                        )
                },
            decreases NUM_OPCODES - i,
        {
            let op = nth_opcode(i);
            let row = opcode_row(op);
            proof {
                lemma_opcode_index(op);
                lemma_opcode_index(best);
            }
            if (code & row.mask) == row.pattern && is_enabled(row.ext, exts) {
                let p = count_ones(row.mask);
                if best == Opcode::Illegal || p > best_spec {
                    best = op;
                    best_spec = p;
                }
            }
            i = i + 1;
        }
        proof {
            if exists|op: Opcode| candidate(op, code, exts) {
                let op = choose|op: Opcode| candidate(op, code, exts);
                lemma_opcode_index(op);
                assert(candidate(opcode_at(opcode_index(op)), code, exts));
                assert forall|o: Opcode| candidate(o, code, exts) implies preferred(best, o) by {
                    lemma_opcode_index(o);
                    assert(candidate(opcode_at(opcode_index(o)), code, exts));
                }
            }
        }
        best
    }

    /// The opcode's name.
    pub fn mnemonic(self) -> (r: &'static str)
        ensures
            r == opcode_def(self).name,
    {
        opcode_row(self).name
    }
}

/// The value that a condition ties a field to.
#[derive(Clone, Copy, Debug, PartialEq, Eq, Structural)]
pub enum CondValue {
    /// A constant.
    Const(u32),
    /// The value of the mnemonic's argument at this position.
    Same(usize),
    /// A constant minus the value of the mnemonic's argument at this position.
    Diff(u32, usize),
    /// A multiplier times the value of the mnemonic's argument at this
    /// position, plus a constant.
    Scaled(u16, u16, usize),
}

/// A constraint on one field of a simplified mnemonic.
#[derive(Clone, Copy, Debug, PartialEq, Eq, Structural)]
pub struct Cond {
    pub field: Operand,
    pub value: CondValue,
}

/// A named simplified form of an opcode.
#[derive(Clone, Copy, Debug)]
pub struct MnemonicRow {
    pub name: &'static str,
    pub opcode: Opcode,
    /// The operands the form shows and takes, in order; the first `nargs` are used.
    pub args: [Operand; 5],
    pub nargs: usize,
    /// The conditions that fix the other fields; the first `nconds` are used.
    pub conds: [Cond; 3],
    pub nconds: usize,
}

/// The number of simplified mnemonics.
pub const NUM_MNEMONICS: usize = 43;

/// The simplified mnemonics, in order of preference; several may share a name
/// when they differ in their number of operands.
#[verifier::opaque]
pub open spec fn mnemonic_def(i: usize) -> MnemonicRow {
    match i {
        0 => MnemonicRow {
            name: "li",
            opcode: Opcode::Addi,
            args: [Operand::Rd, Operand::Simm, Operand::Unused, Operand::Unused, Operand::Unused],
            nargs: 2,
            conds: [
                Cond { field: Operand::Ra, value: CondValue::Const(0) },
                Cond { field: Operand::Unused, value: CondValue::Const(0) },
                Cond { field: Operand::Unused, value: CondValue::Const(0) },
            ],
            nconds: 1,
        },
        1 => MnemonicRow {
            name: "lis",
            opcode: Opcode::Addis,
            args: [Operand::Rd, Operand::Uimm, Operand::Unused, Operand::Unused, Operand::Unused],
            nargs: 2,
            conds: [
                Cond { field: Operand::Ra, value: CondValue::Const(0) },
                Cond { field: Operand::Unused, value: CondValue::Const(0) },
                Cond { field: Operand::Unused, value: CondValue::Const(0) },
            ],
            nconds: 1,
        },
        2 => MnemonicRow {
            name: "mr",
            opcode: Opcode::Or,
            args: [Operand::Ra, Operand::Rd, Operand::Unused, Operand::Unused, Operand::Unused],
            nargs: 2,
            conds: [
                Cond { field: Operand::Rb, value: CondValue::Same(1) },
                Cond { field: Operand::Unused, value: CondValue::Const(0) },
                Cond { field: Operand::Unused, value: CondValue::Const(0) },
            ],
            nconds: 1,
        },
        3 => MnemonicRow {
            name: "nop",
            opcode: Opcode::Ori,
            args: [Operand::Unused, Operand::Unused, Operand::Unused, Operand::Unused, Operand::Unused],
            nargs: 0,
            conds: [
                Cond { field: Operand::Ra, value: CondValue::Const(0) },
                Cond { field: Operand::Rd, value: CondValue::Const(0) },
                Cond { field: Operand::Uimm, value: CondValue::Const(0) },
            ],
            nconds: 3,
        },
        4 => MnemonicRow {
            name: "blr",
            opcode: Opcode::Bclr,
            args: [Operand::Unused, Operand::Unused, Operand::Unused, Operand::Unused, Operand::Unused],
            nargs: 0,
            conds: [
                Cond { field: Operand::Bo, value: CondValue::Const(20) },
                Cond { field: Operand::Bi, value: CondValue::Const(0) },
                Cond { field: Operand::Unused, value: CondValue::Const(0) },
            ],
            nconds: 2,
        },
        5 => MnemonicRow {
            name: "bctr",
            opcode: Opcode::Bcctr,
            args: [Operand::Unused, Operand::Unused, Operand::Unused, Operand::Unused, Operand::Unused],
            nargs: 0,
            conds: [
                Cond { field: Operand::Bo, value: CondValue::Const(20) },
                Cond { field: Operand::Bi, value: CondValue::Const(0) },
                Cond { field: Operand::Unused, value: CondValue::Const(0) },
            ],
            nconds: 2,
        },
        6 => MnemonicRow {
            name: "cmpw",
            opcode: Opcode::Cmp,
            args: [Operand::Ra, Operand::Rb, Operand::Unused, Operand::Unused, Operand::Unused],
            nargs: 2,
            conds: [
                Cond { field: Operand::CrfD, value: CondValue::Const(0) },
                Cond { field: Operand::L, value: CondValue::Const(0) },
                Cond { field: Operand::Unused, value: CondValue::Const(0) },
            ],
            nconds: 2,
        },
        7 => MnemonicRow {
            name: "cmpw",
            opcode: Opcode::Cmp,
            args: [Operand::CrfD, Operand::Ra, Operand::Rb, Operand::Unused, Operand::Unused],
            nargs: 3,
            conds: [
                Cond { field: Operand::L, value: CondValue::Const(0) },
                Cond { field: Operand::Unused, value: CondValue::Const(0) },
                Cond { field: Operand::Unused, value: CondValue::Const(0) },
            ],
            nconds: 1,
        },
        8 => MnemonicRow {
            name: "cmpwi",
            opcode: Opcode::Cmpi,
            args: [Operand::Ra, Operand::Simm, Operand::Unused, Operand::Unused, Operand::Unused],
            nargs: 2,
            conds: [
                Cond { field: Operand::CrfD, value: CondValue::Const(0) },
                Cond { field: Operand::L, value: CondValue::Const(0) },
                Cond { field: Operand::Unused, value: CondValue::Const(0) },
            ],
            nconds: 2,
        },
        9 => MnemonicRow {
            name: "cmpwi",
            opcode: Opcode::Cmpi,
            args: [Operand::CrfD, Operand::Ra, Operand::Simm, Operand::Unused, Operand::Unused],
            nargs: 3,
            conds: [
                Cond { field: Operand::L, value: CondValue::Const(0) },
                Cond { field: Operand::Unused, value: CondValue::Const(0) },
                Cond { field: Operand::Unused, value: CondValue::Const(0) },
            ],
            nconds: 1,
        },
        10 => MnemonicRow {
            name: "mflr",
            opcode: Opcode::Mfspr,
            args: [Operand::Rd, Operand::Unused, Operand::Unused, Operand::Unused, Operand::Unused],
            nargs: 1,
            conds: [
                Cond { field: Operand::Spr, value: CondValue::Const(8) },
                Cond { field: Operand::Unused, value: CondValue::Const(0) },
                Cond { field: Operand::Unused, value: CondValue::Const(0) },
            ],
            nconds: 1,
        },
        11 => MnemonicRow {
            name: "mfctr",
            opcode: Opcode::Mfspr,
            args: [Operand::Rd, Operand::Unused, Operand::Unused, Operand::Unused, Operand::Unused],
            nargs: 1,
            conds: [
                Cond { field: Operand::Spr, value: CondValue::Const(9) },
                Cond { field: Operand::Unused, value: CondValue::Const(0) },
                Cond { field: Operand::Unused, value: CondValue::Const(0) },
            ],
            nconds: 1,
        },
        12 => MnemonicRow {
            name: "mtlr",
            opcode: Opcode::Mtspr,
            args: [Operand::Rd, Operand::Unused, Operand::Unused, Operand::Unused, Operand::Unused],
            nargs: 1,
            conds: [
                Cond { field: Operand::Spr, value: CondValue::Const(8) },
                Cond { field: Operand::Unused, value: CondValue::Const(0) },
                Cond { field: Operand::Unused, value: CondValue::Const(0) },
            ],
            nconds: 1,
        },
        13 => MnemonicRow {
            name: "mtctr",
            opcode: Opcode::Mtspr,
            args: [Operand::Rd, Operand::Unused, Operand::Unused, Operand::Unused, Operand::Unused],
            nargs: 1,
            conds: [
                Cond { field: Operand::Spr, value: CondValue::Const(9) },
                Cond { field: Operand::Unused, value: CondValue::Const(0) },
                Cond { field: Operand::Unused, value: CondValue::Const(0) },
            ],
            nconds: 1,
        },
        14 => MnemonicRow {
            name: "crclr",
            opcode: Opcode::Crxor,
            args: [Operand::CrbD, Operand::Unused, Operand::Unused, Operand::Unused, Operand::Unused],
            nargs: 1,
            conds: [
                Cond { field: Operand::CrbA, value: CondValue::Same(0) },
                Cond { field: Operand::CrbB, value: CondValue::Same(0) },
                Cond { field: Operand::Unused, value: CondValue::Const(0) },
            ],
            nconds: 2,
        },
        15 => MnemonicRow {
            name: "not",
            opcode: Opcode::Nor,
            args: [Operand::Ra, Operand::Rd, Operand::Unused, Operand::Unused, Operand::Unused],
            nargs: 2,
            conds: [
                Cond { field: Operand::Rb, value: CondValue::Same(1) },
                Cond { field: Operand::Unused, value: CondValue::Const(0) },
                Cond { field: Operand::Unused, value: CondValue::Const(0) },
            ],
            nconds: 1,
        },
        16 => MnemonicRow {
            name: "cmplw",
            opcode: Opcode::Cmpl,
            args: [Operand::Ra, Operand::Rb, Operand::Unused, Operand::Unused, Operand::Unused],
            nargs: 2,
            conds: [
                Cond { field: Operand::CrfD, value: CondValue::Const(0) },
                Cond { field: Operand::L, value: CondValue::Const(0) },
                Cond { field: Operand::Unused, value: CondValue::Const(0) },
            ],
            nconds: 2,
        },
        17 => MnemonicRow {
            name: "cmplw",
            opcode: Opcode::Cmpl,
            args: [Operand::CrfD, Operand::Ra, Operand::Rb, Operand::Unused, Operand::Unused],
            nargs: 3,
            conds: [
                Cond { field: Operand::L, value: CondValue::Const(0) },
                Cond { field: Operand::Unused, value: CondValue::Const(0) },
                Cond { field: Operand::Unused, value: CondValue::Const(0) },
            ],
            nconds: 1,
        },
        18 => MnemonicRow {
            name: "cmplwi",
            opcode: Opcode::Cmpli,
            args: [Operand::Ra, Operand::Uimm, Operand::Unused, Operand::Unused, Operand::Unused],
            nargs: 2,
            conds: [
                Cond { field: Operand::CrfD, value: CondValue::Const(0) },
                Cond { field: Operand::L, value: CondValue::Const(0) },
                Cond { field: Operand::Unused, value: CondValue::Const(0) },
            ],
            nconds: 2,
        },
        19 => MnemonicRow {
            name: "cmplwi",
            opcode: Opcode::Cmpli,
            args: [Operand::CrfD, Operand::Ra, Operand::Uimm, Operand::Unused, Operand::Unused],
            nargs: 3,
            conds: [
                Cond { field: Operand::L, value: CondValue::Const(0) },
                Cond { field: Operand::Unused, value: CondValue::Const(0) },
                Cond { field: Operand::Unused, value: CondValue::Const(0) },
            ],
            nconds: 1,
        },
        20 => MnemonicRow {
            name: "blt",
            opcode: Opcode::Bc,
            args: [Operand::Bd, Operand::Unused, Operand::Unused, Operand::Unused, Operand::Unused],
            nargs: 1,
            conds: [
                Cond { field: Operand::Bo, value: CondValue::Const(12) },
                Cond { field: Operand::Bi, value: CondValue::Const(0) },
                Cond { field: Operand::Unused, value: CondValue::Const(0) },
            ],
            nconds: 2,
        },
        21 => MnemonicRow {
            name: "bgt",
            opcode: Opcode::Bc,
            args: [Operand::Bd, Operand::Unused, Operand::Unused, Operand::Unused, Operand::Unused],
            nargs: 1,
            conds: [
                Cond { field: Operand::Bo, value: CondValue::Const(12) },
                Cond { field: Operand::Bi, value: CondValue::Const(1) },
                Cond { field: Operand::Unused, value: CondValue::Const(0) },
            ],
            nconds: 2,
        },
        22 => MnemonicRow {
            name: "beq",
            opcode: Opcode::Bc,
            args: [Operand::Bd, Operand::Unused, Operand::Unused, Operand::Unused, Operand::Unused],
            nargs: 1,
            conds: [
                Cond { field: Operand::Bo, value: CondValue::Const(12) },
                Cond { field: Operand::Bi, value: CondValue::Const(2) },
                Cond { field: Operand::Unused, value: CondValue::Const(0) },
            ],
            nconds: 2,
        },
        23 => MnemonicRow {
            name: "bge",
            opcode: Opcode::Bc,
            args: [Operand::Bd, Operand::Unused, Operand::Unused, Operand::Unused, Operand::Unused],
            nargs: 1,
            conds: [
                Cond { field: Operand::Bo, value: CondValue::Const(4) },
                Cond { field: Operand::Bi, value: CondValue::Const(0) },
                Cond { field: Operand::Unused, value: CondValue::Const(0) },
            ],
            nconds: 2,
        },
        24 => MnemonicRow {
            name: "ble",
            opcode: Opcode::Bc,
            args: [Operand::Bd, Operand::Unused, Operand::Unused, Operand::Unused, Operand::Unused],
            nargs: 1,
            conds: [
                Cond { field: Operand::Bo, value: CondValue::Const(4) },
                Cond { field: Operand::Bi, value: CondValue::Const(1) },
                Cond { field: Operand::Unused, value: CondValue::Const(0) },
            ],
            nconds: 2,
        },
        25 => MnemonicRow {
            name: "bne",
            opcode: Opcode::Bc,
            args: [Operand::Bd, Operand::Unused, Operand::Unused, Operand::Unused, Operand::Unused],
            nargs: 1,
            conds: [
                Cond { field: Operand::Bo, value: CondValue::Const(4) },
                Cond { field: Operand::Bi, value: CondValue::Const(2) },
                Cond { field: Operand::Unused, value: CondValue::Const(0) },
            ],
            nconds: 2,
        },
        26 => MnemonicRow {
            name: "blt",
            opcode: Opcode::Bc,
            args: [Operand::CrfS, Operand::Bd, Operand::Unused, Operand::Unused, Operand::Unused],
            nargs: 2,
            conds: [
                Cond { field: Operand::Bo, value: CondValue::Const(12) },
                Cond { field: Operand::Bi, value: CondValue::Scaled(4, 0, 0) },
                Cond { field: Operand::Unused, value: CondValue::Const(0) },
            ],
            nconds: 2,
        },
        27 => MnemonicRow {
            name: "bgt",
            opcode: Opcode::Bc,
            args: [Operand::CrfS, Operand::Bd, Operand::Unused, Operand::Unused, Operand::Unused],
            nargs: 2,
            conds: [
                Cond { field: Operand::Bo, value: CondValue::Const(12) },
                Cond { field: Operand::Bi, value: CondValue::Scaled(4, 1, 0) },
                Cond { field: Operand::Unused, value: CondValue::Const(0) },
            ],
            nconds: 2,
        },
        28 => MnemonicRow {
            name: "beq",
            opcode: Opcode::Bc,
            args: [Operand::CrfS, Operand::Bd, Operand::Unused, Operand::Unused, Operand::Unused],
            nargs: 2,
            conds: [
                Cond { field: Operand::Bo, value: CondValue::Const(12) },
                Cond { field: Operand::Bi, value: CondValue::Scaled(4, 2, 0) },
                Cond { field: Operand::Unused, value: CondValue::Const(0) },
            ],
            nconds: 2,
        },
        29 => MnemonicRow {
            name: "bge",
            opcode: Opcode::Bc,
            args: [Operand::CrfS, Operand::Bd, Operand::Unused, Operand::Unused, Operand::Unused],
            nargs: 2,
            conds: [
                Cond { field: Operand::Bo, value: CondValue::Const(4) },
                Cond { field: Operand::Bi, value: CondValue::Scaled(4, 0, 0) },
                Cond { field: Operand::Unused, value: CondValue::Const(0) },
            ],
            nconds: 2,
        },
        30 => MnemonicRow {
            name: "ble",
            opcode: Opcode::Bc,
            args: [Operand::CrfS, Operand::Bd, Operand::Unused, Operand::Unused, Operand::Unused],
            nargs: 2,
            conds: [
                Cond { field: Operand::Bo, value: CondValue::Const(4) },
                Cond { field: Operand::Bi, value: CondValue::Scaled(4, 1, 0) },
                Cond { field: Operand::Unused, value: CondValue::Const(0) },
            ],
            nconds: 2,
        },
        31 => MnemonicRow {
            name: "bne",
            opcode: Opcode::Bc,
            args: [Operand::CrfS, Operand::Bd, Operand::Unused, Operand::Unused, Operand::Unused],
            nargs: 2,
            conds: [
                Cond { field: Operand::Bo, value: CondValue::Const(4) },
                Cond { field: Operand::Bi, value: CondValue::Scaled(4, 2, 0) },
                Cond { field: Operand::Unused, value: CondValue::Const(0) },
            ],
            nconds: 2,
        },
        32 => MnemonicRow {
            name: "bdnz",
            opcode: Opcode::Bc,
            args: [Operand::Bd, Operand::Unused, Operand::Unused, Operand::Unused, Operand::Unused],
            nargs: 1,
            conds: [
                Cond { field: Operand::Bo, value: CondValue::Const(16) },
                Cond { field: Operand::Bi, value: CondValue::Const(0) },
                Cond { field: Operand::Unused, value: CondValue::Const(0) },
            ],
            nconds: 2,
        },
        33 => MnemonicRow {
            name: "beqlr",
            opcode: Opcode::Bclr,
            args: [Operand::Unused, Operand::Unused, Operand::Unused, Operand::Unused, Operand::Unused],
            nargs: 0,
            conds: [
                Cond { field: Operand::Bo, value: CondValue::Const(12) },
                Cond { field: Operand::Bi, value: CondValue::Const(2) },
                Cond { field: Operand::Unused, value: CondValue::Const(0) },
            ],
            nconds: 2,
        },
        34 => MnemonicRow {
            name: "bnelr",
            opcode: Opcode::Bclr,
            args: [Operand::Unused, Operand::Unused, Operand::Unused, Operand::Unused, Operand::Unused],
            nargs: 0,
            conds: [
                Cond { field: Operand::Bo, value: CondValue::Const(4) },
                Cond { field: Operand::Bi, value: CondValue::Const(2) },
                Cond { field: Operand::Unused, value: CondValue::Const(0) },
            ],
            nconds: 2,
        },
        35 => MnemonicRow {
            name: "mfxer",
            opcode: Opcode::Mfspr,
            args: [Operand::Rd, Operand::Unused, Operand::Unused, Operand::Unused, Operand::Unused],
            nargs: 1,
            conds: [
                Cond { field: Operand::Spr, value: CondValue::Const(1) },
                Cond { field: Operand::Unused, value: CondValue::Const(0) },
                Cond { field: Operand::Unused, value: CondValue::Const(0) },
            ],
            nconds: 1,
        },
        36 => MnemonicRow {
            name: "mtxer",
            opcode: Opcode::Mtspr,
            args: [Operand::Rd, Operand::Unused, Operand::Unused, Operand::Unused, Operand::Unused],
            nargs: 1,
            conds: [
                Cond { field: Operand::Spr, value: CondValue::Const(1) },
                Cond { field: Operand::Unused, value: CondValue::Const(0) },
                Cond { field: Operand::Unused, value: CondValue::Const(0) },
            ],
            nconds: 1,
        },
        37 => MnemonicRow {
            name: "mtcr",
            opcode: Opcode::Mtcrf,
            args: [Operand::Rd, Operand::Unused, Operand::Unused, Operand::Unused, Operand::Unused],
            nargs: 1,
            conds: [
                Cond { field: Operand::Crm, value: CondValue::Const(255) },
                Cond { field: Operand::Unused, value: CondValue::Const(0) },
                Cond { field: Operand::Unused, value: CondValue::Const(0) },
            ],
            nconds: 1,
        },
        38 => MnemonicRow {
            name: "rotlwi",
            opcode: Opcode::Rlwinm,
            args: [Operand::Ra, Operand::Rd, Operand::Sh, Operand::Unused, Operand::Unused],
            nargs: 3,
            conds: [
                Cond { field: Operand::Mb, value: CondValue::Const(0) },
                Cond { field: Operand::Me, value: CondValue::Const(31) },
                Cond { field: Operand::Unused, value: CondValue::Const(0) },
            ],
            nconds: 2,
        },
        39 => MnemonicRow {
            name: "srwi",
            opcode: Opcode::Rlwinm,
            args: [Operand::Ra, Operand::Rd, Operand::Mb, Operand::Unused, Operand::Unused],
            nargs: 3,
            conds: [
                Cond { field: Operand::Sh, value: CondValue::Diff(32, 2) },
                Cond { field: Operand::Me, value: CondValue::Const(31) },
                Cond { field: Operand::Unused, value: CondValue::Const(0) },
            ],
            nconds: 2,
        },
        40 => MnemonicRow {
            name: "trap",
            opcode: Opcode::Tw,
            args: [Operand::Unused, Operand::Unused, Operand::Unused, Operand::Unused, Operand::Unused],
            nargs: 0,
            conds: [
                Cond { field: Operand::To, value: CondValue::Const(31) },
                Cond { field: Operand::Ra, value: CondValue::Const(0) },
                Cond { field: Operand::Rb, value: CondValue::Const(0) },
            ],
            nconds: 3,
        },
        41 => MnemonicRow {
            name: "slwi",
            opcode: Opcode::Rlwinm,
            args: [Operand::Ra, Operand::Rd, Operand::Sh, Operand::Unused, Operand::Unused],
            nargs: 3,
            conds: [
                Cond { field: Operand::Mb, value: CondValue::Const(0) },
                Cond { field: Operand::Me, value: CondValue::Diff(31, 2) },
                Cond { field: Operand::Unused, value: CondValue::Const(0) },
            ],
            nconds: 2,
        },
        _ => MnemonicRow {
            name: "clrlwi",
            opcode: Opcode::Rlwinm,
            args: [Operand::Ra, Operand::Rd, Operand::Mb, Operand::Unused, Operand::Unused],
            nargs: 3,
            conds: [
                Cond { field: Operand::Sh, value: CondValue::Const(0) },
                Cond { field: Operand::Me, value: CondValue::Const(31) },
                Cond { field: Operand::Unused, value: CondValue::Const(0) },
            ],
            nconds: 2,
        },
    }
}

/// The argument positions that conditions refer to lie within the fixed-size
/// argument list.
pub proof fn lemma_mnemonic_rows_wf(i: usize)
    ensures
        mnemonic_def(i).nargs <= 5,
        mnemonic_def(i).nconds <= 3,
        forall|k: int|
            0 <= k < 3 ==> match (#[trigger] mnemonic_def(i).conds@[k]).value {
                CondValue::Const(_) => true,
                CondValue::Same(j) => j < 5,
                CondValue::Diff(_, j) => j < 5,
                CondValue::Scaled(_, _, j) => j < 5,
            },
{
    reveal(mnemonic_def);
}

/// Returns the simplified mnemonic at `i`.
pub fn mnemonic_row(i: usize) -> (r: MnemonicRow)
    ensures
        r == mnemonic_def(i),
{
    proof {
        reveal(mnemonic_def);
    }
    match i {
        0 => MnemonicRow {
            name: "li",
            opcode: Opcode::Addi,
            args: [Operand::Rd, Operand::Simm, Operand::Unused, Operand::Unused, Operand::Unused],
            nargs: 2,
            conds: [
                Cond { field: Operand::Ra, value: CondValue::Const(0) },
                Cond { field: Operand::Unused, value: CondValue::Const(0) },
                Cond { field: Operand::Unused, value: CondValue::Const(0) },
            ],
            nconds: 1,
        },
        1 => MnemonicRow {
            name: "lis",
            opcode: Opcode::Addis,
            args: [Operand::Rd, Operand::Uimm, Operand::Unused, Operand::Unused, Operand::Unused],
            nargs: 2,
            conds: [
                Cond { field: Operand::Ra, value: CondValue::Const(0) },
                Cond { field: Operand::Unused, value: CondValue::Const(0) },
                Cond { field: Operand::Unused, value: CondValue::Const(0) },
            ],
            nconds: 1,
        },
        2 => MnemonicRow {
            name: "mr",
            opcode: Opcode::Or,
            args: [Operand::Ra, Operand::Rd, Operand::Unused, Operand::Unused, Operand::Unused],
            nargs: 2,
            conds: [
                Cond { field: Operand::Rb, value: CondValue::Same(1) },
                Cond { field: Operand::Unused, value: CondValue::Const(0) },
                Cond { field: Operand::Unused, value: CondValue::Const(0) },
            ],
            nconds: 1,
        },
        3 => MnemonicRow {
            name: "nop",
            opcode: Opcode::Ori,
            args: [Operand::Unused, Operand::Unused, Operand::Unused, Operand::Unused, Operand::Unused],
            nargs: 0,
            conds: [
                Cond { field: Operand::Ra, value: CondValue::Const(0) },
                Cond { field: Operand::Rd, value: CondValue::Const(0) },
                Cond { field: Operand::Uimm, value: CondValue::Const(0) },
            ],
            nconds: 3,
        },
        4 => MnemonicRow {
            name: "blr",
            opcode: Opcode::Bclr,
            args: [Operand::Unused, Operand::Unused, Operand::Unused, Operand::Unused, Operand::Unused],
            nargs: 0,
            conds: [
                Cond { field: Operand::Bo, value: CondValue::Const(20) },
                Cond { field: Operand::Bi, value: CondValue::Const(0) },
                Cond { field: Operand::Unused, value: CondValue::Const(0) },
            ],
            nconds: 2,
        },
        5 => MnemonicRow {
            name: "bctr",
            opcode: Opcode::Bcctr,
            args: [Operand::Unused, Operand::Unused, Operand::Unused, Operand::Unused, Operand::Unused],
            nargs: 0,
            conds: [
                Cond { field: Operand::Bo, value: CondValue::Const(20) },
                Cond { field: Operand::Bi, value: CondValue::Const(0) },
                Cond { field: Operand::Unused, value: CondValue::Const(0) },
            ],
            nconds: 2,
        },
        6 => MnemonicRow {
            name: "cmpw",
            opcode: Opcode::Cmp,
            args: [Operand::Ra, Operand::Rb, Operand::Unused, Operand::Unused, Operand::Unused],
            nargs: 2,
            conds: [
                Cond { field: Operand::CrfD, value: CondValue::Const(0) },
                Cond { field: Operand::L, value: CondValue::Const(0) },
                Cond { field: Operand::Unused, value: CondValue::Const(0) },
            ],
            nconds: 2,
        },
        7 => MnemonicRow {
            name: "cmpw",
            opcode: Opcode::Cmp,
            args: [Operand::CrfD, Operand::Ra, Operand::Rb, Operand::Unused, Operand::Unused],
            nargs: 3,
            conds: [
                Cond { field: Operand::L, value: CondValue::Const(0) },
                Cond { field: Operand::Unused, value: CondValue::Const(0) },
                Cond { field: Operand::Unused, value: CondValue::Const(0) },
            ],
            nconds: 1,
        },
        8 => MnemonicRow {
            name: "cmpwi",
            opcode: Opcode::Cmpi,
            args: [Operand::Ra, Operand::Simm, Operand::Unused, Operand::Unused, Operand::Unused],
            nargs: 2,
            conds: [
                Cond { field: Operand::CrfD, value: CondValue::Const(0) },
                Cond { field: Operand::L, value: CondValue::Const(0) },
                Cond { field: Operand::Unused, value: CondValue::Const(0) },
            ],
            nconds: 2,
        },
        9 => MnemonicRow {
            name: "cmpwi",
            opcode: Opcode::Cmpi,
            args: [Operand::CrfD, Operand::Ra, Operand::Simm, Operand::Unused, Operand::Unused],
            nargs: 3,
            conds: [
                Cond { field: Operand::L, value: CondValue::Const(0) },
                Cond { field: Operand::Unused, value: CondValue::Const(0) },
                Cond { field: Operand::Unused, value: CondValue::Const(0) },
            ],
            nconds: 1,
        },
        10 => MnemonicRow {
            name: "mflr",
            opcode: Opcode::Mfspr,
            args: [Operand::Rd, Operand::Unused, Operand::Unused, Operand::Unused, Operand::Unused],
            nargs: 1,
            conds: [
                Cond { field: Operand::Spr, value: CondValue::Const(8) },
                Cond { field: Operand::Unused, value: CondValue::Const(0) },
                Cond { field: Operand::Unused, value: CondValue::Const(0) },
            ],
            nconds: 1,
        },
        11 => MnemonicRow {
            name: "mfctr",
            opcode: Opcode::Mfspr,
            args: [Operand::Rd, Operand::Unused, Operand::Unused, Operand::Unused, Operand::Unused],
            nargs: 1,
            conds: [
                Cond { field: Operand::Spr, value: CondValue::Const(9) },
                Cond { field: Operand::Unused, value: CondValue::Const(0) },
                Cond { field: Operand::Unused, value: CondValue::Const(0) },
            ],
            nconds: 1,
        },
        12 => MnemonicRow {
            name: "mtlr",
            opcode: Opcode::Mtspr,
            args: [Operand::Rd, Operand::Unused, Operand::Unused, Operand::Unused, Operand::Unused],
            nargs: 1,
            conds: [
                Cond { field: Operand::Spr, value: CondValue::Const(8) },
                Cond { field: Operand::Unused, value: CondValue::Const(0) },
                Cond { field: Operand::Unused, value: CondValue::Const(0) },
            ],
            nconds: 1,
        },
        13 => MnemonicRow {
            name: "mtctr",
            opcode: Opcode::Mtspr,
            args: [Operand::Rd, Operand::Unused, Operand::Unused, Operand::Unused, Operand::Unused],
            nargs: 1,
            conds: [
                Cond { field: Operand::Spr, value: CondValue::Const(9) },
                Cond { field: Operand::Unused, value: CondValue::Const(0) },
                Cond { field: Operand::Unused, value: CondValue::Const(0) },
            ],
            nconds: 1,
        },
        14 => MnemonicRow {
            name: "crclr",
            opcode: Opcode::Crxor,
            args: [Operand::CrbD, Operand::Unused, Operand::Unused, Operand::Unused, Operand::Unused],
            nargs: 1,
            conds: [
                Cond { field: Operand::CrbA, value: CondValue::Same(0) },
                Cond { field: Operand::CrbB, value: CondValue::Same(0) },
                Cond { field: Operand::Unused, value: CondValue::Const(0) },
            ],
            nconds: 2,
        },
        15 => MnemonicRow {
            name: "not",
            opcode: Opcode::Nor,
            args: [Operand::Ra, Operand::Rd, Operand::Unused, Operand::Unused, Operand::Unused],
            nargs: 2,
            conds: [
                Cond { field: Operand::Rb, value: CondValue::Same(1) },
                Cond { field: Operand::Unused, value: CondValue::Const(0) },
                Cond { field: Operand::Unused, value: CondValue::Const(0) },
            ],
            nconds: 1,
        },
        16 => MnemonicRow {
            name: "cmplw",
            opcode: Opcode::Cmpl,
            args: [Operand::Ra, Operand::Rb, Operand::Unused, Operand::Unused, Operand::Unused],
            nargs: 2,
            conds: [
                Cond { field: Operand::CrfD, value: CondValue::Const(0) },
                Cond { field: Operand::L, value: CondValue::Const(0) },
                Cond { field: Operand::Unused, value: CondValue::Const(0) },
            ],
            nconds: 2,
        },
        17 => MnemonicRow {
            name: "cmplw",
            opcode: Opcode::Cmpl,
            args: [Operand::CrfD, Operand::Ra, Operand::Rb, Operand::Unused, Operand::Unused],
            nargs: 3,
            conds: [
                Cond { field: Operand::L, value: CondValue::Const(0) },
                Cond { field: Operand::Unused, value: CondValue::Const(0) },
                Cond { field: Operand::Unused, value: CondValue::Const(0) },
            ],
            nconds: 1,
        },
        18 => MnemonicRow {
            name: "cmplwi",
            opcode: Opcode::Cmpli,
            args: [Operand::Ra, Operand::Uimm, Operand::Unused, Operand::Unused, Operand::Unused],
            nargs: 2,
            conds: [
                Cond { field: Operand::CrfD, value: CondValue::Const(0) },
                Cond { field: Operand::L, value: CondValue::Const(0) },
                Cond { field: Operand::Unused, value: CondValue::Const(0) },
            ],
            nconds: 2,
        },
        19 => MnemonicRow {
            name: "cmplwi",
            opcode: Opcode::Cmpli,
            args: [Operand::CrfD, Operand::Ra, Operand::Uimm, Operand::Unused, Operand::Unused],
            nargs: 3,
            conds: [
                Cond { field: Operand::L, value: CondValue::Const(0) },
                Cond { field: Operand::Unused, value: CondValue::Const(0) },
                Cond { field: Operand::Unused, value: CondValue::Const(0) },
            ],
            nconds: 1,
        },
        20 => MnemonicRow {
            name: "blt",
            opcode: Opcode::Bc,
            args: [Operand::Bd, Operand::Unused, Operand::Unused, Operand::Unused, Operand::Unused],
            nargs: 1,
            conds: [
                Cond { field: Operand::Bo, value: CondValue::Const(12) },
                Cond { field: Operand::Bi, value: CondValue::Const(0) },
                Cond { field: Operand::Unused, value: CondValue::Const(0) },
            ],
            nconds: 2,
        },
        21 => MnemonicRow {
            name: "bgt",
            opcode: Opcode::Bc,
            args: [Operand::Bd, Operand::Unused, Operand::Unused, Operand::Unused, Operand::Unused],
            nargs: 1,
            conds: [
                Cond { field: Operand::Bo, value: CondValue::Const(12) },
                Cond { field: Operand::Bi, value: CondValue::Const(1) },
                Cond { field: Operand::Unused, value: CondValue::Const(0) },
            ],
            nconds: 2,
        },
        22 => MnemonicRow {
            name: "beq",
            opcode: Opcode::Bc,
            args: [Operand::Bd, Operand::Unused, Operand::Unused, Operand::Unused, Operand::Unused],
            nargs: 1,
            conds: [
                Cond { field: Operand::Bo, value: CondValue::Const(12) },
                Cond { field: Operand::Bi, value: CondValue::Const(2) },
                Cond { field: Operand::Unused, value: CondValue::Const(0) },
            ],
            nconds: 2,
        },
        23 => MnemonicRow {
            name: "bge",
            opcode: Opcode::Bc,
            args: [Operand::Bd, Operand::Unused, Operand::Unused, Operand::Unused, Operand::Unused],
            nargs: 1,
            conds: [
                Cond { field: Operand::Bo, value: CondValue::Const(4) },
                Cond { field: Operand::Bi, value: CondValue::Const(0) },
                Cond { field: Operand::Unused, value: CondValue::Const(0) },
            ],
            nconds: 2,
        },
        24 => MnemonicRow {
            name: "ble",
            opcode: Opcode::Bc,
            args: [Operand::Bd, Operand::Unused, Operand::Unused, Operand::Unused, Operand::Unused],
            nargs: 1,
            conds: [
                Cond { field: Operand::Bo, value: CondValue::Const(4) },
                Cond { field: Operand::Bi, value: CondValue::Const(1) },
                Cond { field: Operand::Unused, value: CondValue::Const(0) },
            ],
            nconds: 2,
        },
        25 => MnemonicRow {
            name: "bne",
            opcode: Opcode::Bc,
            args: [Operand::Bd, Operand::Unused, Operand::Unused, Operand::Unused, Operand::Unused],
            nargs: 1,
            conds: [
                Cond { field: Operand::Bo, value: CondValue::Const(4) },
                Cond { field: Operand::Bi, value: CondValue::Const(2) },
                Cond { field: Operand::Unused, value: CondValue::Const(0) },
            ],
            nconds: 2,
        },
        26 => MnemonicRow {
            name: "blt",
            opcode: Opcode::Bc,
            args: [Operand::CrfS, Operand::Bd, Operand::Unused, Operand::Unused, Operand::Unused],
            nargs: 2,
            conds: [
                Cond { field: Operand::Bo, value: CondValue::Const(12) },
                Cond { field: Operand::Bi, value: CondValue::Scaled(4, 0, 0) },
                Cond { field: Operand::Unused, value: CondValue::Const(0) },
            ],
            nconds: 2,
        },
        27 => MnemonicRow {
            name: "bgt",
            opcode: Opcode::Bc,
            args: [Operand::CrfS, Operand::Bd, Operand::Unused, Operand::Unused, Operand::Unused],
            nargs: 2,
            conds: [
                Cond { field: Operand::Bo, value: CondValue::Const(12) },
                Cond { field: Operand::Bi, value: CondValue::Scaled(4, 1, 0) },
                Cond { field: Operand::Unused, value: CondValue::Const(0) },
            ],
            nconds: 2,
        },
        28 => MnemonicRow {
            name: "beq",
            opcode: Opcode::Bc,
            args: [Operand::CrfS, Operand::Bd, Operand::Unused, Operand::Unused, Operand::Unused],
            nargs: 2,
            conds: [
                Cond { field: Operand::Bo, value: CondValue::Const(12) },
                Cond { field: Operand::Bi, value: CondValue::Scaled(4, 2, 0) },
                Cond { field: Operand::Unused, value: CondValue::Const(0) },
            ],
            nconds: 2,
        },
        29 => MnemonicRow {
            name: "bge",
            opcode: Opcode::Bc,
            args: [Operand::CrfS, Operand::Bd, Operand::Unused, Operand::Unused, Operand::Unused],
            nargs: 2,
            conds: [
                Cond { field: Operand::Bo, value: CondValue::Const(4) },
                Cond { field: Operand::Bi, value: CondValue::Scaled(4, 0, 0) },
                Cond { field: Operand::Unused, value: CondValue::Const(0) },
            ],
            nconds: 2,
        },
        30 => MnemonicRow {
            name: "ble",
            opcode: Opcode::Bc,
            args: [Operand::CrfS, Operand::Bd, Operand::Unused, Operand::Unused, Operand::Unused],
            nargs: 2,
            conds: [
                Cond { field: Operand::Bo, value: CondValue::Const(4) },
                Cond { field: Operand::Bi, value: CondValue::Scaled(4, 1, 0) },
                Cond { field: Operand::Unused, value: CondValue::Const(0) },
            ],
            nconds: 2,
        },
        31 => MnemonicRow {
            name: "bne",
            opcode: Opcode::Bc,
            args: [Operand::CrfS, Operand::Bd, Operand::Unused, Operand::Unused, Operand::Unused],
            nargs: 2,
            conds: [
                Cond { field: Operand::Bo, value: CondValue::Const(4) },
                Cond { field: Operand::Bi, value: CondValue::Scaled(4, 2, 0) },
                Cond { field: Operand::Unused, value: CondValue::Const(0) },
            ],
            nconds: 2,
        },
        32 => MnemonicRow {
            name: "bdnz",
            opcode: Opcode::Bc,
            args: [Operand::Bd, Operand::Unused, Operand::Unused, Operand::Unused, Operand::Unused],
            nargs: 1,
            conds: [
                Cond { field: Operand::Bo, value: CondValue::Const(16) },
                Cond { field: Operand::Bi, value: CondValue::Const(0) },
                Cond { field: Operand::Unused, value: CondValue::Const(0) },
            ],
            nconds: 2,
        },
        33 => MnemonicRow {
            name: "beqlr",
            opcode: Opcode::Bclr,
            args: [Operand::Unused, Operand::Unused, Operand::Unused, Operand::Unused, Operand::Unused],
            nargs: 0,
            conds: [
                Cond { field: Operand::Bo, value: CondValue::Const(12) },
                Cond { field: Operand::Bi, value: CondValue::Const(2) },
                Cond { field: Operand::Unused, value: CondValue::Const(0) },
            ],
            nconds: 2,
        },
        34 => MnemonicRow {
            name: "bnelr",
            opcode: Opcode::Bclr,
            args: [Operand::Unused, Operand::Unused, Operand::Unused, Operand::Unused, Operand::Unused],
            nargs: 0,
            conds: [
                Cond { field: Operand::Bo, value: CondValue::Const(4) },
                Cond { field: Operand::Bi, value: CondValue::Const(2) },
                Cond { field: Operand::Unused, value: CondValue::Const(0) },
            ],
            nconds: 2,
        },
        35 => MnemonicRow {
            name: "mfxer",
            opcode: Opcode::Mfspr,
            args: [Operand::Rd, Operand::Unused, Operand::Unused, Operand::Unused, Operand::Unused],
            nargs: 1,
            conds: [
                Cond { field: Operand::Spr, value: CondValue::Const(1) },
                Cond { field: Operand::Unused, value: CondValue::Const(0) },
                Cond { field: Operand::Unused, value: CondValue::Const(0) },
            ],
            nconds: 1,
        },
        36 => MnemonicRow {
            name: "mtxer",
            opcode: Opcode::Mtspr,
            args: [Operand::Rd, Operand::Unused, Operand::Unused, Operand::Unused, Operand::Unused],
            nargs: 1,
            conds: [
                Cond { field: Operand::Spr, value: CondValue::Const(1) },
                Cond { field: Operand::Unused, value: CondValue::Const(0) },
                Cond { field: Operand::Unused, value: CondValue::Const(0) },
            ],
            nconds: 1,
        },
        37 => MnemonicRow {
            name: "mtcr",
            opcode: Opcode::Mtcrf,
            args: [Operand::Rd, Operand::Unused, Operand::Unused, Operand::Unused, Operand::Unused],
            nargs: 1,
            conds: [
                Cond { field: Operand::Crm, value: CondValue::Const(255) },
                Cond { field: Operand::Unused, value: CondValue::Const(0) },
                Cond { field: Operand::Unused, value: CondValue::Const(0) },
            ],
            nconds: 1,
        },
        38 => MnemonicRow {
            name: "rotlwi",
            opcode: Opcode::Rlwinm,
            args: [Operand::Ra, Operand::Rd, Operand::Sh, Operand::Unused, Operand::Unused],
            nargs: 3,
            conds: [
                Cond { field: Operand::Mb, value: CondValue::Const(0) },
                Cond { field: Operand::Me, value: CondValue::Const(31) },
                Cond { field: Operand::Unused, value: CondValue::Const(0) },
            ],
            nconds: 2,
        },
        39 => MnemonicRow {
            name: "srwi",
            opcode: Opcode::Rlwinm,
            args: [Operand::Ra, Operand::Rd, Operand::Mb, Operand::Unused, Operand::Unused],
            nargs: 3,
            conds: [
                Cond { field: Operand::Sh, value: CondValue::Diff(32, 2) },
                Cond { field: Operand::Me, value: CondValue::Const(31) },
                Cond { field: Operand::Unused, value: CondValue::Const(0) },
            ],
            nconds: 2,
        },
        40 => MnemonicRow {
            name: "trap",
            opcode: Opcode::Tw,
            args: [Operand::Unused, Operand::Unused, Operand::Unused, Operand::Unused, Operand::Unused],
            nargs: 0,
            conds: [
                Cond { field: Operand::To, value: CondValue::Const(31) },
                Cond { field: Operand::Ra, value: CondValue::Const(0) },
                Cond { field: Operand::Rb, value: CondValue::Const(0) },
            ],
            nconds: 3,
        },
        41 => MnemonicRow {
            name: "slwi",
            opcode: Opcode::Rlwinm,
            args: [Operand::Ra, Operand::Rd, Operand::Sh, Operand::Unused, Operand::Unused],
            nargs: 3,
            conds: [
                Cond { field: Operand::Mb, value: CondValue::Const(0) },
                Cond { field: Operand::Me, value: CondValue::Diff(31, 2) },
                Cond { field: Operand::Unused, value: CondValue::Const(0) },
            ],
            nconds: 2,
        },
        _ => MnemonicRow {
            name: "clrlwi",
            opcode: Opcode::Rlwinm,
            args: [Operand::Ra, Operand::Rd, Operand::Mb, Operand::Unused, Operand::Unused],
            nargs: 3,
            conds: [
                Cond { field: Operand::Sh, value: CondValue::Const(0) },
                Cond { field: Operand::Me, value: CondValue::Const(31) },
                Cond { field: Operand::Unused, value: CondValue::Const(0) },
            ],
            nconds: 2,
        },
    }
}

} // verus!
