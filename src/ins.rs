//! Classified instructions: their operands, rendering and branch queries.
use crate::args::{arg_text, make_arg, Argument};
use crate::ext::Extensions;
use crate::field::field_value;
use crate::isa::{
    is_classification, lemma_mnemonic_rows_wf, mnemonic_def, MnemonicRow, mnemonic_row, modifier_mask, opcode_def, opcode_row,
    operand_def, operand_info, Cond, CondValue, Modifier, Opcode, Operand, MOD_AA, MOD_LK,
    MOD_OE, MOD_RC, NUM_MNEMONICS,
};
use vstd::prelude::*;
use vstd::slice::slice_subrange;

verus! {

/// A fixed-size argument list; the arguments end at the first `Absent`.
pub type Arguments = [Argument; 5];

/// A PowerPC instruction: its word and the operation it was classified as.
#[derive(Clone, Copy, Debug, PartialEq, Eq, Structural, Hash)]
pub struct Ins {
    pub code: u32,
    pub op: Opcode,
}

impl Default for Ins {
    fn default() -> (r: Self)
        ensures
            r.code == 0,
            r.op == Opcode::Illegal,
    {
        Ins { code: 0, op: Opcode::Illegal }
    }
}

/// The value of operand `o` in `word`.
pub open spec fn operand_value(o: Operand, word: u32) -> int {
    field_value(operand_def(o).0, word)
}

/// Operand `o` of `word` as an argument.
pub open spec fn operand_arg(o: Operand, word: u32) -> Argument {
    make_arg(operand_def(o).1, operand_value(o, word))
}

/// The first `n` operands of `ops`, read from `word`, followed by `Absent`
/// up to the list's capacity.
pub open spec fn operand_args(ops: Seq<Operand>, n: nat, word: u32) -> Seq<Argument> {
    Seq::new(5, |k: int| if k < n { operand_arg(ops[k], word) } else { Argument::Absent })
}

/// Whether modifier `m` is admitted by the flag set `flags` and set in `word`.
pub open spec fn modifier_set(flags: u32, m: Modifier, word: u32) -> bool {
    flags & crate::isa::modifier_flag(m) != 0 && word & modifier_mask(m) != 0
}

/// `t` when `b` holds, else nothing.
pub open spec fn text_if(b: bool, t: Seq<char>) -> Seq<char> {
    if b {
        t
    } else {
        Seq::empty()
    }
}

/// The suffixes of a selection of modifiers, in their fixed order.
pub open spec fn suffix_text(oe: bool, rc: bool, lk: bool, aa: bool) -> Seq<char> {
    text_if(oe, "o"@) + text_if(rc, "."@) + text_if(lk, "l"@) + text_if(aa, "a"@)
}

/// The suffixes of the modifiers admitted by `flags` that are set in `word`.
pub open spec fn word_suffix(flags: u32, word: u32) -> Seq<char> {
    suffix_text(
        modifier_set(flags, Modifier::Oe, word),
        modifier_set(flags, Modifier::Rc, word),
        modifier_set(flags, Modifier::Lk, word),
        modifier_set(flags, Modifier::Aa, word),
    )
}

/// The name of the basic form of `ins`.
pub open spec fn basic_name(ins: Ins) -> Seq<char> {
    opcode_def(ins.op).name@ + word_suffix(opcode_def(ins.op).mods, ins.code)
}

/// The arguments of the basic form of `ins`: every operand of its opcode.
pub open spec fn basic_args(ins: Ins) -> Seq<Argument> {
    operand_args(opcode_def(ins.op).args@, opcode_def(ins.op).nargs as nat, ins.code)
}

/// The registers that `ins` writes.
pub open spec fn def_args(ins: Ins) -> Seq<Argument> {
    operand_args(opcode_def(ins.op).defs@, opcode_def(ins.op).ndefs as nat, ins.code)
}

/// The registers that `ins` reads.
pub open spec fn use_args(ins: Ins) -> Seq<Argument> {
    operand_args(opcode_def(ins.op).uses@, opcode_def(ins.op).nuses as nat, ins.code)
}

/// The relative branch displacement of `ins`, if it is a direct branch.
pub open spec fn spec_branch_offset(ins: Ins) -> Option<int> {
    match ins.op {
        Opcode::B => Some(operand_value(Operand::Li, ins.code)),
        Opcode::Bc => Some(operand_value(Operand::Bd, ins.code)),
        _ => None,
    }
}

/// The destination of `ins` at address `addr`, if it is a direct branch: the
/// displacement itself when the absolute-address bit is set, else `addr` plus
/// the displacement, or nothing when that sum leaves the address space.
pub open spec fn spec_branch_dest(ins: Ins, addr: u32) -> Option<u32> {
    match spec_branch_offset(ins) {
        None => None,
        Some(o) => if ins.code & 2 != 0 {
            Some(o as u32)
        } else if 0 <= addr + o <= u32::MAX {
            Some((addr + o) as u32)
        } else {
            None
        },
    }
}

/// The destination of an absolute branch does not depend on the address of
/// the branch.
pub proof fn lemma_absolute_dest(ins: Ins, a1: u32, a2: u32)
    requires
        ins.code & 2 != 0,
    ensures
        spec_branch_dest(ins, a1) == spec_branch_dest(ins, a2),
{
}

/// Whether the branch options of `ins` say "always" with condition bit 0.
pub open spec fn branch_always(ins: Ins) -> bool {
    operand_value(Operand::Bo, ins.code) == 20 && operand_value(Operand::Bi, ins.code) == 0
}

/// Whether `ins` is a branch of any kind.
pub open spec fn spec_is_branch(ins: Ins) -> bool {
    ins.op == Opcode::B || ins.op == Opcode::Bc || ins.op == Opcode::Bcctr || ins.op == Opcode::Bclr
}

/// Whether `ins` branches whatever the condition register holds.
pub open spec fn spec_is_unconditional(ins: Ins) -> bool {
    ins.op == Opcode::B || ((ins.op == Opcode::Bc || ins.op == Opcode::Bcctr || ins.op
        == Opcode::Bclr) && branch_always(ins))
}

proof fn lemma_rows_wf(op: Opcode)
    ensures
        opcode_def(op).nargs <= 5,
        opcode_def(op).ndefs <= 3,
        opcode_def(op).nuses <= 3,
{
    reveal(opcode_def);
}

/// Reads the first `n` operands of `ops` from `word`.
#[verifier::rlimit(30)]
fn read_operands(ops: &[Operand], n: usize, word: u32) -> (r: Arguments)
    requires
        n <= ops@.len(),
        n <= 5,
    ensures
        r@ == operand_args(ops@, n as nat, word),
{
    let mut out: Arguments = [
        Argument::Absent,
        Argument::Absent,
        Argument::Absent,
        Argument::Absent,
        Argument::Absent,
    ];
    let mut j: usize = 0;
    while j < n
        invariant
            j <= n,
            n <= ops@.len(),
            n <= 5,
            out@ == Seq::new(
                5,
                |k: int| if k < j { operand_arg(ops@[k], word) } else { Argument::Absent },
            ),
        decreases n - j,
    {
        let (f, kind) = operand_info(ops[j]);
        let v = f.extract(word);
        out[j] = Argument::from_value(kind, v);
        j = j + 1;
        assert(out@ =~= Seq::new(
            5,
            |k: int| if k < j { operand_arg(ops@[k], word) } else { Argument::Absent },
        ));
    }
    assert(out@ =~= operand_args(ops@, n as nat, word));
    out
}

fn push_suffix(out: &mut String, flags: u32, word: u32)
    ensures
        final(out)@ == old(out)@ + word_suffix(flags, word),
{
    let oe = flags & MOD_OE != 0 && word & Modifier::Oe.mask() != 0;
    let rc = flags & MOD_RC != 0 && word & Modifier::Rc.mask() != 0;
    let lk = flags & MOD_LK != 0 && word & Modifier::Lk.mask() != 0;
    let aa = flags & MOD_AA != 0 && word & Modifier::Aa.mask() != 0;
    let ghost start = out@;
    if oe {
        out.append("o");
    }
    if rc {
        out.append(".");
    }
    if lk {
        out.append("l");
    }
    if aa {
        out.append("a");
    }
    assert(out@ =~= start + suffix_text(oe, rc, lk, aa));
}

impl Ins {
    /// Classifies `code` under the enabled extensions `extensions`.
    pub fn new(code: u32, extensions: Extensions) -> (r: Self)
        ensures
            r.code == code,
            is_classification(r.op, code, extensions),
    {
        Ins { code, op: Opcode::detect(code, extensions) }
    }

    /// Returns the basic form of the instruction: its opcode's name with the
    /// suffixes of the modifiers set, and all of its operands.
    pub fn basic(self) -> (r: ParsedIns)
        ensures
            r.mnemonic@ == basic_name(self),
            r.args@ == basic_args(self),
    {
        let row = opcode_row(self.op);
        proof {
            lemma_rows_wf(self.op);
        }
        let mut name = String::from_str(row.name);
        push_suffix(&mut name, row.mods, self.code);
        let args = read_operands(&row.args, row.nargs, self.code);
        ParsedIns { mnemonic: name, args }
    }

    /// Writes the basic form of the instruction into `out`.
    pub fn parse_basic(self, out: &mut ParsedIns)
        ensures
            final(out).mnemonic@ == basic_name(self),
            final(out).args@ == basic_args(self),
    {
        *out = self.basic();
    }

    /// Returns the registers that the instruction writes.
    pub fn defs(self) -> (r: Arguments)
        ensures
            r@ == def_args(self),
    {
        let row = opcode_row(self.op);
        proof {
            lemma_rows_wf(self.op);
        }
        read_operands(&row.defs, row.ndefs, self.code)
    }

    /// Writes the registers that the instruction writes into `out`.
    pub fn parse_defs(self, out: &mut Arguments)
        ensures
            final(out)@ == def_args(self),
    {
        *out = self.defs();
    }

    /// Returns the registers that the instruction reads.
    pub fn uses(self) -> (r: Arguments)
        ensures
            r@ == use_args(self),
    {
        let row = opcode_row(self.op);
        proof {
            lemma_rows_wf(self.op);
        }
        read_operands(&row.uses, row.nuses, self.code)
    }

    /// Writes the registers that the instruction reads into `out`.
    pub fn parse_uses(self, out: &mut Arguments)
        ensures
            final(out)@ == use_args(self),
    {
        *out = self.uses();
    }

    fn operand(&self, o: Operand) -> (r: i64)
        ensures
            r as int == operand_value(o, self.code),
    {
        let (f, _) = operand_info(o);
        f.extract(self.code)
    }

    /// Returns the relative branch displacement, for a direct branch.
    pub fn branch_offset(&self) -> (r: Option<i32>)
        ensures
            r matches Some(o) ==> spec_branch_offset(*self) == Some(o as int),
            r is None ==> spec_branch_offset(*self) is None,
    {
        match self.op {
            Opcode::B => {
                let v = self.operand(Operand::Li);
                proof {
                    crate::field::lemma_value_bounds(operand_def(Operand::Li).0, self.code);
                }
                Some(v as i32)
            },
            Opcode::Bc => {
                let v = self.operand(Operand::Bd);
                proof {
                    crate::field::lemma_value_bounds(operand_def(Operand::Bd).0, self.code);
                }
                Some(v as i32)
            },
            _ => None,
        }
    }

    /// Returns the branch destination of a direct branch at address `addr`:
    /// the displacement itself for an absolute branch, else `addr` plus the
    /// displacement, or nothing when that sum leaves the address space.
    pub fn branch_dest(&self, addr: u32) -> (r: Option<u32>)
        ensures
            r == spec_branch_dest(*self, addr),
    {
        match self.branch_offset() {
            None => None,
            Some(offset) => {
                if self.code & 2 != 0 {
                    Some(offset as u32)
                } else {
                    let d = addr as i64 + offset as i64;
                    if 0 <= d && d <= u32::MAX as i64 {
                        Some(d as u32)
                    } else {
                        None
                    }
                }
            },
        }
    }

    /// Whether the instruction is a branch of any kind.
    pub fn is_branch(&self) -> (r: bool)
        ensures
            r == spec_is_branch(*self),
    {
        match self.op {
            Opcode::B | Opcode::Bc | Opcode::Bcctr | Opcode::Bclr => true,
            _ => false,
        }
    }

    /// Whether the instruction is a direct branch (its target is in the word).
    pub fn is_direct_branch(&self) -> (r: bool)
        ensures
            r == (self.op == Opcode::B || self.op == Opcode::Bc),
    {
        match self.op {
            Opcode::B | Opcode::Bc => true,
            _ => false,
        }
    }

    /// Whether the instruction branches whatever the condition register holds.
    pub fn is_unconditional_branch(&self) -> (r: bool)
        ensures
            r == spec_is_unconditional(*self),
    {
        match self.op {
            Opcode::B => true,
            Opcode::Bc | Opcode::Bcctr | Opcode::Bclr => {
                self.operand(Operand::Bo) == 20 && self.operand(Operand::Bi) == 0
            },
            _ => false,
        }
    }

    /// Whether the instruction is a branch that depends on a condition.
    pub fn is_conditional_branch(&self) -> (r: bool)
        ensures
            r == (spec_is_branch(*self) && !spec_is_unconditional(*self)),
    {
        self.is_branch() && !self.is_unconditional_branch()
    }

    /// Whether the word is the plain return from a subroutine (`blr`).
    pub fn is_blr(&self) -> (r: bool)
        ensures
            r == (self.code == 0x4e800020),
    {
        self.code == 0x4e800020
    }
}

/// An instruction as text: its name and its arguments.
#[derive(Clone, Debug, PartialEq, Eq)]
pub struct ParsedIns {
    pub mnemonic: String,
    pub args: Arguments,
}

/// The separator written before argument `i`.
pub open spec fn separator(i: int, in_offset: bool) -> Seq<char> {
    if i == 0 {
        " "@
    } else if !in_offset {
        ", "@
    } else {
        Seq::empty()
    }
}

/// What is written after argument `a`: an offset opens the parenthesis around
/// the register that follows it, which closes it.
pub open spec fn closer(a: Argument, in_offset: bool) -> Seq<char> {
    if a is Offset {
        "("@
    } else if in_offset {
        ")"@
    } else {
        Seq::empty()
    }
}

/// The text of the arguments from `i` on, up to the first `Absent`.
pub open spec fn args_text(args: Seq<Argument>, i: int, in_offset: bool) -> Seq<char>
    decreases args.len() - i,
{
    if i < 0 || i >= args.len() || args[i] is Absent {
        Seq::empty()
    } else {
        separator(i, in_offset) + arg_text(args[i]) + closer(args[i], in_offset) + args_text(
            args,
            i + 1,
            args[i] is Offset,
        )
    }
}

/// The text of an instruction: its name, then its arguments.
pub open spec fn ins_text(p: ParsedIns) -> Seq<char> {
    p.mnemonic@ + args_text(p.args@, 0, false)
}

/// Whether condition `c` of mnemonic `m` holds of `word`.
pub open spec fn cond_holds(c: Cond, m: MnemonicRow, word: u32) -> bool {
    match c.value {
        CondValue::Const(v) => operand_value(c.field, word) == v,
        CondValue::Same(j) => operand_value(c.field, word) == operand_value(m.args@[j as int], word),
        CondValue::Diff(k, j) => operand_value(c.field, word) == k - operand_value(
            m.args@[j as int],
            word,
        ),
        CondValue::Scaled(f, k, j) => operand_value(c.field, word) == f * operand_value(
            m.args@[j as int],
            word,
        ) + k,
    }
}

/// Whether simplified mnemonic `i` describes `ins`.
pub open spec fn mnemonic_applies(i: usize, ins: Ins) -> bool {
    let m = mnemonic_def(i);
    &&& ins.op != Opcode::Illegal
    &&& m.opcode == ins.op
    &&& forall|k: int| 0 <= k < m.nconds ==> cond_holds(#[trigger] m.conds@[k], m, ins.code)
}

/// Whether `r` is the simplified form of `ins`: the first simplified mnemonic
/// that describes it, or its basic form where none does.
pub open spec fn is_simplified_form(r: ParsedIns, ins: Ins) -> bool {
    if exists|i: usize| i < NUM_MNEMONICS && mnemonic_applies(i, ins) {
        exists|i: usize|
            {
                &&& i < NUM_MNEMONICS
                &&& mnemonic_applies(i, ins)
                &&& forall|j: usize| j < i ==> !mnemonic_applies(j, ins)
                &&& r.mnemonic@ == mnemonic_def(i).name@ + word_suffix(
                    opcode_def(ins.op).mods,
                    ins.code,
                )
                &&& r.args@ == operand_args(
                    mnemonic_def(i).args@,
                    mnemonic_def(i).nargs as nat,
                    ins.code,
                )
            }
    } else {
        r.mnemonic@ == basic_name(ins) && r.args@ == basic_args(ins)
    }
}

impl Ins {
    fn cond_holds(&self, c: Cond, m: &MnemonicRow) -> (r: bool)
        requires
            match c.value {
                CondValue::Const(_) => true,
                CondValue::Same(j) => j < 5,
                CondValue::Diff(_, j) => j < 5,
                CondValue::Scaled(_, _, j) => j < 5,
            },
        ensures
            r == cond_holds(c, *m, self.code),
    {
        let v = self.operand(c.field);
        match c.value {
            CondValue::Const(k) => v == k as i64,
            CondValue::Same(j) => v == self.operand(m.args[j]),
            CondValue::Diff(k, j) => {
                let w = self.operand(m.args[j]);
                proof {
                    crate::field::lemma_value_bounds(operand_def(m.args@[j as int]).0, self.code);
                }
                v == k as i64 - w
            },
            CondValue::Scaled(f, k, j) => {
                let w = self.operand(m.args[j]);
                proof {
                    crate::field::lemma_value_bounds(operand_def(m.args@[j as int]).0, self.code);
                    assert(-0x4000_0000 * 0x10000 <= f * w <= 0x4000_0000 * 0x10000)
                        by (nonlinear_arith)
                        requires
                            0 <= f < 0x10000,
                            -0x4000_0000 <= w < 0x4000_0000,
                    ;
                }
                v == (f as i64) * w + k as i64
            },
        }
    }

    /// Returns the simplified form of the instruction where a simplified
    /// mnemonic describes it, else its basic form.
    #[verifier::rlimit(30)]
    pub fn simplified(self) -> (r: ParsedIns)
        ensures
            is_simplified_form(r, self),
    {
        let mut i: usize = 0;
        while i < NUM_MNEMONICS
            invariant
                forall|j: usize| j < i ==> !mnemonic_applies(j, self),
            decreases NUM_MNEMONICS - i,
        {
            let m = mnemonic_row(i);
            proof {
                lemma_mnemonic_rows_wf(i);
            }
            if self.op != Opcode::Illegal && m.opcode == self.op {
                let mut k: usize = 0;
                let mut all = true;
                while k < m.nconds
                    invariant
                        m == mnemonic_def(i),
                        m.nconds <= 3,
                        forall|l: int|
                            0 <= l < 3 ==> match (#[trigger] m.conds@[l]).value {
                                CondValue::Const(_) => true,
                                CondValue::Same(j) => j < 5,
                                CondValue::Diff(_, j) => j < 5,
                                CondValue::Scaled(_, _, j) => j < 5,
                            },
                        k <= m.nconds,
                        all == forall|l: int| 0 <= l < k ==> cond_holds(#[trigger] m.conds@[l], m, self.code),
                    decreases m.nconds - k,
                {
                    if !self.cond_holds(m.conds[k], &m) {
                        all = false;
                    }
                    k = k + 1;
                }
                if all {
                    let row = opcode_row(self.op);
                    let mut name = String::from_str(m.name);
                    push_suffix(&mut name, row.mods, self.code);
                    let args = read_operands(&m.args, m.nargs, self.code);
                    let r = ParsedIns { mnemonic: name, args };
                    proof {
                        assert(mnemonic_applies(i, self));
                        assert(exists|i2: usize| i2 < NUM_MNEMONICS && mnemonic_applies(i2, self));
                    }
                    return r;
                }
            }
            i = i + 1;
        }
        self.basic()
    }

    /// Writes the simplified form of the instruction into `out`.
    pub fn parse_simplified(self, out: &mut ParsedIns)
        ensures
            is_simplified_form(*final(out), self),
    {
        *out = self.simplified();
    }
}

impl ParsedIns {
    /// The form of an illegal instruction: `<illegal>` with no arguments.
    pub fn new() -> (r: Self)
        ensures
            r.mnemonic@ == "<illegal>"@,
            forall|k: int| 0 <= k < 5 ==> r.args@[k] is Absent,
    {
        ParsedIns {
            mnemonic: String::from_str("<illegal>"),
            args: [
                Argument::Absent,
                Argument::Absent,
                Argument::Absent,
                Argument::Absent,
                Argument::Absent,
            ],
        }
    }

    /// The arguments up to the first `Absent`.
    pub fn args_iter(&self) -> (r: Vec<Argument>)
        ensures
            r@ == self.args@.subrange(0, r@.len() as int),
            forall|k: int| 0 <= k < r@.len() ==> !(#[trigger] self.args@[k] is Absent),
            r@.len() == 5 || self.args@[r@.len() as int] is Absent,
    {
        let mut v: Vec<Argument> = Vec::new();
        let mut i: usize = 0;
        while i < 5
            invariant
                i <= 5,
                v@ == self.args@.subrange(0, i as int),
                forall|k: int| 0 <= k < i ==> !(#[trigger] self.args@[k] is Absent),
            decreases 5 - i,
        {
            if let Argument::Absent = self.args[i] {
                return v;
            }
            v.push(self.args[i]);
            i = i + 1;
            assert(v@ =~= self.args@.subrange(0, i as int));
        }
        v
    }

    /// The text of the instruction: the name, a space, then the arguments
    /// separated by `, `, where an offset and the register after it are
    /// written `offset(register)`.
    #[verifier::rlimit(50)]
    pub fn to_string(&self) -> (r: String)
        ensures
            r@ == ins_text(*self),
    {
        let mut out = String::from_str(self.mnemonic.as_str());
        let mut in_offset = false;
        let mut i: usize = 0;
        while i < 5
            invariant
                i <= 5,
                out@ + args_text(self.args@, i as int, in_offset) == ins_text(*self),
            decreases 5 - i,
        {
            let a = self.args[i];
            if let Argument::Absent = a {
                return out;
            }
            let ghost before = out@;
            if i == 0 {
                out.append(" ");
            } else if !in_offset {
                out.append(", ");
            }
            a.push_text(&mut out);
            let is_offset = matches!(a, Argument::Offset(_));
            if is_offset {
                out.append("(");
            } else if in_offset {
                out.append(")");
            }
            assert(out@ =~= before + separator(i as int, in_offset) + arg_text(a) + closer(
                a,
                in_offset,
            ));
            in_offset = is_offset;
            i = i + 1;
        }
        proof {
            assert(args_text(self.args@, 5, in_offset) == Seq::<char>::empty());
            assert(out@ =~= out@ + Seq::<char>::empty());
        }
        out
    }
}

impl Default for ParsedIns {
    fn default() -> (r: Self)
        ensures
            r.mnemonic@ == "<illegal>"@,
            forall|k: int| 0 <= k < 5 ==> r.args@[k] is Absent,
    {
        Self::new()
    }
}

/// The big-endian word in the four bytes of `b` from `i` on.
pub open spec fn be_word(b: Seq<u8>, i: int) -> u32 {
    ((b[i] as u32) * 0x100_0000 + (b[i + 1] as u32) * 0x1_0000 + (b[i + 2] as u32) * 0x100 + (b[i
        + 3] as u32)) as u32
}

/// Walks a byte buffer four bytes at a time, classifying each word.
pub struct InsIter<'a> {
    address: u32,
    extensions: Extensions,
    data: &'a [u8],
}

impl<'a> InsIter<'a> {
    /// The address of the next word.
    pub closed spec fn spec_address(&self) -> u32 {
        self.address
    }

    /// The bytes not yet walked.
    pub closed spec fn spec_data(&self) -> Seq<u8> {
        self.data@
    }

    /// The extensions that words are classified under.
    pub closed spec fn spec_extensions(&self) -> Extensions {
        self.extensions
    }

    /// Starts walking `data`, whose first byte is at `address`.
    pub fn new(data: &'a [u8], address: u32, extensions: Extensions) -> (r: Self)
        ensures
            r.spec_address() == address,
            r.spec_data() == data@,
            r.spec_extensions() == extensions,
    {
        InsIter { address, extensions, data }
    }

    /// The address of the next word.
    pub fn address(&self) -> (r: u32)
        ensures
            r == self.spec_address(),
    {
        self.address
    }

    /// The bytes not yet walked.
    pub fn data(&self) -> (r: &'a [u8])
        ensures
            r@ == self.spec_data(),
    {
        self.data
    }

    /// The extensions that words are classified under.
    pub fn extensions(&self) -> (r: Extensions)
        ensures
            r == self.spec_extensions(),
    {
        self.extensions
    }

    /// The address and instruction of the next word; nothing, and no change,
    /// when fewer than four bytes remain.
    pub fn next(&mut self) -> (r: Option<(u32, Ins)>)
        ensures
            old(self).spec_data().len() < 4 ==> r is None && *final(self) == *old(self),
            old(self).spec_data().len() >= 4 ==> {
                &&& r matches Some((addr, ins)) && addr == old(self).spec_address() && ins.code
                    == be_word(old(self).spec_data(), 0) && is_classification(
                    ins.op,
                    ins.code,
                    old(self).spec_extensions(),
                )
                &&& final(self).spec_data() == old(self).spec_data().subrange(
                    4,
                    old(self).spec_data().len() as int,
                )
                &&& final(self).spec_address() == (old(self).spec_address() + 4) % 0x1_0000_0000
                &&& final(self).spec_extensions() == old(self).spec_extensions()
            },
    {
        let n = self.data.len();
        if n < 4 {
            return None;
        }
        let code = (self.data[0] as u32) * 0x100_0000 + (self.data[1] as u32) * 0x1_0000
            + (self.data[2] as u32) * 0x100 + (self.data[3] as u32);
        let ins = Ins::new(code, self.extensions);
        let addr = self.address;
        self.address = self.address.wrapping_add(4);
        self.data = slice_subrange(self.data, 4, n);
        Some((addr, ins))
    }
}

} // verus!
