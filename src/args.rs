//! Instruction operands and how they are written.
use crate::isa::ArgKind;
use vstd::prelude::*;

verus! {

/// An operand of an instruction.
#[derive(Clone, Copy, Debug, PartialEq, Eq, Structural, Hash)]
pub enum Argument {
    /// No operand: marks the end of an argument list.
    Absent,
    /// General-purpose register.
    GPR(u8),
    /// Floating-point register.
    FPR(u8),
    /// Segment register.
    SR(u8),
    /// Special-purpose register.
    SPR(u16),
    /// Condition register field.
    CRField(u8),
    /// Condition register bit: field index times four plus condition.
    CRBit(u8),
    /// Paired-single graphics quantization register.
    GQR(u8),
    /// Unsigned immediate.
    Uimm(u16),
    /// Signed immediate.
    Simm(i16),
    /// Displacement of a memory reference.
    Offset(i16),
    /// Branch displacement.
    BranchDest(i32),
    /// Unsigned value without further meaning.
    OpaqueU(u16),
    /// Vector register.
    VR(u8),
}

impl Default for Argument {
    fn default() -> (r: Self)
        ensures
            r == Argument::Absent,
    {
        Argument::Absent
    }
}

/// The argument of kind `kind` that holds `v`.
pub open spec fn make_arg(kind: ArgKind, v: int) -> Argument {
    match kind {
        ArgKind::Gpr => Argument::GPR(v as u8),
        ArgKind::Fpr => Argument::FPR(v as u8),
        ArgKind::Sr => Argument::SR(v as u8),
        ArgKind::Spr => Argument::SPR(v as u16),
        ArgKind::CrField => Argument::CRField(v as u8),
        ArgKind::CrBit => Argument::CRBit(v as u8),
        ArgKind::Gqr => Argument::GQR(v as u8),
        ArgKind::Uimm => Argument::Uimm(v as u16),
        ArgKind::Simm => Argument::Simm(v as i16),
        ArgKind::Offset => Argument::Offset(v as i16),
        ArgKind::BranchDest => Argument::BranchDest(v as i32),
        ArgKind::OpaqueU => Argument::OpaqueU(v as u16),
        ArgKind::Vr => Argument::VR(v as u8),
    }
}

/// The numeric value an argument carries (`0` for `None`).
pub open spec fn arg_value(a: Argument) -> int {
    match a {
        Argument::Absent => 0,
        Argument::GPR(x) => x as int,
        Argument::FPR(x) => x as int,
        Argument::SR(x) => x as int,
        Argument::SPR(x) => x as int,
        Argument::CRField(x) => x as int,
        Argument::CRBit(x) => x as int,
        Argument::GQR(x) => x as int,
        Argument::Uimm(x) => x as int,
        Argument::Simm(x) => x as int,
        Argument::Offset(x) => x as int,
        Argument::BranchDest(x) => x as int,
        Argument::OpaqueU(x) => x as int,
        Argument::VR(x) => x as int,
    }
}

impl Argument {
    /// The argument of kind `kind` that holds `v`.
    pub fn from_value(kind: ArgKind, v: i64) -> (r: Argument)
        ensures
            r == make_arg(kind, v as int),
    {
        match kind {
            ArgKind::Gpr => Argument::GPR(v as u8),
            ArgKind::Fpr => Argument::FPR(v as u8),
            ArgKind::Sr => Argument::SR(v as u8),
            ArgKind::Spr => Argument::SPR(v as u16),
            ArgKind::CrField => Argument::CRField(v as u8),
            ArgKind::CrBit => Argument::CRBit(v as u8),
            ArgKind::Gqr => Argument::GQR(v as u8),
            ArgKind::Uimm => Argument::Uimm(v as u16),
            ArgKind::Simm => Argument::Simm(v as i16),
            ArgKind::Offset => Argument::Offset(v as i16),
            ArgKind::BranchDest => Argument::BranchDest(v as i32),
            ArgKind::OpaqueU => Argument::OpaqueU(v as u16),
            ArgKind::Vr => Argument::VR(v as u8),
        }
    }

    /// The numeric value the argument carries (`0` for `None`).
    pub fn value(&self) -> (r: i64)
        ensures
            r as int == arg_value(*self),
    {
        match *self {
            Argument::Absent => 0,
            Argument::GPR(x) => x as i64,
            Argument::FPR(x) => x as i64,
            Argument::SR(x) => x as i64,
            Argument::SPR(x) => x as i64,
            Argument::CRField(x) => x as i64,
            Argument::CRBit(x) => x as i64,
            Argument::GQR(x) => x as i64,
            Argument::Uimm(x) => x as i64,
            Argument::Simm(x) => x as i64,
            Argument::Offset(x) => x as i64,
            Argument::BranchDest(x) => x as i64,
            Argument::OpaqueU(x) => x as i64,
            Argument::VR(x) => x as i64,
        }
    }
}

/// The digits that numbers are written with.
pub open spec fn digits() -> Seq<char> {
    "0123456789abcdef"@
}

/// Digit `d`, as a one-character text.
pub open spec fn digit(d: nat) -> Seq<char> {
    digits().subrange(d as int, d as int + 1)
}

/// `n` in base `b` (10 or 16), without prefix or leading zeros.
pub open spec fn radix_text(n: nat, b: nat) -> Seq<char>
    decreases n
    via radix_text_decreases
{
    if b < 2 || n < b {
        digit(n)
    } else {
        radix_text(n / b, b) + digit(n % b)
    }
}

#[via_fn]
proof fn radix_text_decreases(n: nat, b: nat) {
    if !(b < 2 || n < b) {
        vstd::arithmetic::div_mod::lemma_div_decreases(n as int, b as int);
    }
}

/// `n` in decimal.
pub open spec fn dec_text(n: nat) -> Seq<char> {
    radix_text(n, 10)
}

/// `n` in hexadecimal with a `0x` prefix.
pub open spec fn hex_text(n: nat) -> Seq<char> {
    "0x"@ + radix_text(n, 16)
}

/// `v` in hexadecimal, with a leading minus sign when negative.
pub open spec fn signed_hex_text(v: int) -> Seq<char> {
    if v < 0 {
        "-"@ + hex_text((-v) as nat)
    } else {
        hex_text(v as nat)
    }
}

/// The name of each special-purpose register that has one.
pub open spec fn spr_name(n: u16) -> Option<&'static str> {
    match n {
        1 => Some("XER"),
        8 => Some("LR"),
        9 => Some("CTR"),
        18 => Some("DSISR"),
        19 => Some("DAR"),
        22 => Some("DEC"),
        25 => Some("SDR1"),
        26 => Some("SRR0"),
        27 => Some("SRR1"),
        272 => Some("SPRG0"),
        273 => Some("SPRG1"),
        274 => Some("SPRG2"),
        275 => Some("SPRG3"),
        282 => Some("EAR"),
        287 => Some("PVR"),
        528 => Some("IBAT0U"),
        529 => Some("IBAT0L"),
        530 => Some("IBAT1U"),
        531 => Some("IBAT1L"),
        532 => Some("IBAT2U"),
        533 => Some("IBAT2L"),
        534 => Some("IBAT3U"),
        535 => Some("IBAT3L"),
        536 => Some("DBAT0U"),
        537 => Some("DBAT0L"),
        538 => Some("DBAT1U"),
        539 => Some("DBAT1L"),
        540 => Some("DBAT2U"),
        541 => Some("DBAT2L"),
        542 => Some("DBAT3U"),
        543 => Some("DBAT3L"),
        912 => Some("GQR0"),
        913 => Some("GQR1"),
        914 => Some("GQR2"),
        915 => Some("GQR3"),
        916 => Some("GQR4"),
        917 => Some("GQR5"),
        918 => Some("GQR6"),
        919 => Some("GQR7"),
        920 => Some("HID2"),
        921 => Some("WPAR"),
        922 => Some("DMA_U"),
        923 => Some("DMA_L"),
        936 => Some("UMMCR0"),
        937 => Some("UPMC1"),
        938 => Some("UPMC2"),
        939 => Some("USIA"),
        940 => Some("UMMCR1"),
        941 => Some("UPMC3"),
        942 => Some("UPMC4"),
        943 => Some("USDA"),
        952 => Some("MMCR0"),
        953 => Some("PMC1"),
        954 => Some("PMC2"),
        955 => Some("SIA"),
        956 => Some("MMCR1"),
        957 => Some("PMC3"),
        958 => Some("PMC4"),
        959 => Some("SDA"),
        1008 => Some("HID0"),
        1009 => Some("HID1"),
        1010 => Some("IABR"),
        1013 => Some("DABR"),
        1017 => Some("L2CR"),
        1019 => Some("ICTC"),
        1020 => Some("THRM1"),
        1021 => Some("THRM2"),
        1022 => Some("THRM3"),
        _ => None,
    }
}

/// The name of the special-purpose register numbered `n`, if it has one.
pub fn spr_name_of(n: u16) -> (r: Option<&'static str>)
    ensures
        r == spr_name(n),
{
    match n {
        1 => Some("XER"),
        8 => Some("LR"),
        9 => Some("CTR"),
        18 => Some("DSISR"),
        19 => Some("DAR"),
        22 => Some("DEC"),
        25 => Some("SDR1"),
        26 => Some("SRR0"),
        27 => Some("SRR1"),
        272 => Some("SPRG0"),
        273 => Some("SPRG1"),
        274 => Some("SPRG2"),
        275 => Some("SPRG3"),
        282 => Some("EAR"),
        287 => Some("PVR"),
        528 => Some("IBAT0U"),
        529 => Some("IBAT0L"),
        530 => Some("IBAT1U"),
        531 => Some("IBAT1L"),
        532 => Some("IBAT2U"),
        533 => Some("IBAT2L"),
        534 => Some("IBAT3U"),
        535 => Some("IBAT3L"),
        536 => Some("DBAT0U"),
        537 => Some("DBAT0L"),
        538 => Some("DBAT1U"),
        539 => Some("DBAT1L"),
        540 => Some("DBAT2U"),
        541 => Some("DBAT2L"),
        542 => Some("DBAT3U"),
        543 => Some("DBAT3L"),
        912 => Some("GQR0"),
        913 => Some("GQR1"),
        914 => Some("GQR2"),
        915 => Some("GQR3"),
        916 => Some("GQR4"),
        917 => Some("GQR5"),
        918 => Some("GQR6"),
        919 => Some("GQR7"),
        920 => Some("HID2"),
        921 => Some("WPAR"),
        922 => Some("DMA_U"),
        923 => Some("DMA_L"),
        936 => Some("UMMCR0"),
        937 => Some("UPMC1"),
        938 => Some("UPMC2"),
        939 => Some("USIA"),
        940 => Some("UMMCR1"),
        941 => Some("UPMC3"),
        942 => Some("UPMC4"),
        943 => Some("USDA"),
        952 => Some("MMCR0"),
        953 => Some("PMC1"),
        954 => Some("PMC2"),
        955 => Some("SIA"),
        956 => Some("MMCR1"),
        957 => Some("PMC3"),
        958 => Some("PMC4"),
        959 => Some("SDA"),
        1008 => Some("HID0"),
        1009 => Some("HID1"),
        1010 => Some("IABR"),
        1013 => Some("DABR"),
        1017 => Some("L2CR"),
        1019 => Some("ICTC"),
        1020 => Some("THRM1"),
        1021 => Some("THRM2"),
        1022 => Some("THRM3"),
        _ => None,
    }
}

/// The name of condition `c` of a condition register field.
pub open spec fn cond_name(c: nat) -> Seq<char> {
    if c == 0 {
        "lt"@
    } else if c == 1 {
        "gt"@
    } else if c == 2 {
        "eq"@
    } else {
        "un"@
    }
}

/// The text of an argument.
pub open spec fn arg_text(a: Argument) -> Seq<char> {
    match a {
        Argument::Absent => Seq::empty(),
        Argument::GPR(x) => "r"@ + dec_text(x as nat),
        Argument::FPR(x) => "f"@ + dec_text(x as nat),
        Argument::SR(x) => dec_text(x as nat),
        Argument::SPR(x) => match spr_name(x) {
            Some(s) => s@,
            None => dec_text(x as nat),
        },
        Argument::CRField(x) => "cr"@ + dec_text(x as nat),
        Argument::CRBit(x) => if x / 4 != 0 {
            "cr"@ + dec_text((x / 4) as nat) + cond_name((x % 4) as nat)
        } else {
            cond_name((x % 4) as nat)
        },
        Argument::GQR(x) => "qr"@ + dec_text(x as nat),
        Argument::Uimm(x) => hex_text(x as nat),
        Argument::Simm(x) => signed_hex_text(x as int),
        Argument::Offset(x) => signed_hex_text(x as int),
        Argument::BranchDest(x) => signed_hex_text(x as int),
        Argument::OpaqueU(x) => dec_text(x as nat),
        Argument::VR(x) => "v"@ + dec_text(x as nat),
    }
}

/// Appends `n` in base `b` to `out`.
pub fn push_radix(out: &mut String, n: u64, b: u64)
    requires
        b == 10 || b == 16,
    ensures
        final(out)@ == old(out)@ + radix_text(n as nat, b as nat),
    decreases n,
{
    if n >= b {
        push_radix(out, n / b, b);
    }
    let d = (n % b) as usize;
    proof {
        reveal_strlit("0123456789abcdef");
    }
    out.append("0123456789abcdef".substring_char(d, d + 1));
}

/// Appends `n` in decimal to `out`.
pub fn push_dec(out: &mut String, n: u64)
    ensures
        final(out)@ == old(out)@ + dec_text(n as nat),
{
    push_radix(out, n, 10);
}

/// Appends `n` in hexadecimal, with a `0x` prefix, to `out`.
pub fn push_hex(out: &mut String, n: u64)
    ensures
        final(out)@ == old(out)@ + hex_text(n as nat),
{
    out.append("0x");
    push_radix(out, n, 16);
    proof {
        assert(final(out)@ == old(out)@ + hex_text(n as nat));
    }
}

/// Appends `v` in hexadecimal, with a leading minus sign when negative, to `out`.
pub fn push_signed_hex(out: &mut String, v: i32)
    ensures
        final(out)@ == old(out)@ + signed_hex_text(v as int),
{
    if v < 0 {
        out.append("-");
        // Widened so that the most negative value has a magnitude.
        let m = -(v as i64);
        push_hex(out, m as u64);
    } else {
        push_hex(out, v as u64);
    }
}

/// A signed value written in hexadecimal with a leading minus sign when
/// negative (`-0x1`), rather than in two's complement.
#[derive(Clone, Copy, Debug, PartialEq, Eq, Structural)]
pub struct SignedHexLiteral(pub i32);

impl SignedHexLiteral {
    /// The text of the value.
    pub fn to_string(&self) -> (r: String)
        ensures
            r@ == signed_hex_text(self.0 as int),
    {
        let mut out = String::new();
        push_signed_hex(&mut out, self.0);
        out
    }
}

impl Argument {
    /// Appends the text of this argument to `out`.
    pub fn push_text(&self, out: &mut String)
        ensures
            final(out)@ == old(out)@ + arg_text(*self),
    {
        match *self {
            Argument::Absent => {},
            Argument::GPR(x) => {
                out.append("r");
                push_dec(out, x as u64);
            },
            Argument::FPR(x) => {
                out.append("f");
                push_dec(out, x as u64);
            },
            Argument::SR(x) => push_dec(out, x as u64),
            Argument::SPR(x) => match spr_name_of(x) {
                Some(s) => out.append(s),
                None => push_dec(out, x as u64),
            },
            Argument::CRField(x) => {
                out.append("cr");
                push_dec(out, x as u64);
            },
            Argument::CRBit(x) => {
                if x / 4 != 0 {
                    out.append("cr");
                    push_dec(out, (x / 4) as u64);
                }
                let c = x % 4;
                if c == 0 {
                    out.append("lt");
                } else if c == 1 {
                    out.append("gt");
                } else if c == 2 {
                    out.append("eq");
                } else {
                    out.append("un");
                }
            },
            Argument::GQR(x) => {
                out.append("qr");
                push_dec(out, x as u64);
            },
            Argument::Uimm(x) => push_hex(out, x as u64),
            Argument::Simm(x) => push_signed_hex(out, x as i32),
            Argument::Offset(x) => push_signed_hex(out, x as i32),
            Argument::BranchDest(x) => push_signed_hex(out, x),
            Argument::OpaqueU(x) => push_dec(out, x as u64),
            Argument::VR(x) => {
                out.append("v");
                push_dec(out, x as u64);
            },
        }
    }

    /// The text of this argument.
    pub fn to_string(&self) -> (r: String)
        ensures
            r@ == arg_text(*self),
    {
        let mut out = String::new();
        self.push_text(&mut out);
        out
    }
}

} // verus!
