//! The assembler: from a name and arguments to an instruction word.
use crate::args::{arg_value, Argument};
use crate::field::{field_bits, in_domain, ArgumentError, Field};
use crate::ins::{suffix_text, Arguments};
use crate::isa::{
    lemma_mnemonic_rows_wf, mnemonic_def, mnemonic_row, opcode_at, opcode_def, opcode_row,
    operand_def, operand_info, CondValue, MnemonicRow, Opcode, OpcodeRow, MOD_AA, MOD_LK, MOD_OE,
    MOD_RC, NUM_MNEMONICS, NUM_OPCODES,
};
use vstd::prelude::*;

verus! {

/// The number of arguments before the first `Absent`, from position `i` on.
pub open spec fn count_from(args: Seq<Argument>, i: int) -> nat
    decreases args.len() - i,
{
    if i < 0 || i >= args.len() || args[i] is Absent {
        0
    } else {
        1 + count_from(args, i + 1)
    }
}

/// The number of arguments given: those before the first `Absent`.
pub open spec fn arg_count(args: Seq<Argument>) -> nat {
    count_from(args, 0)
}

/// ORs the bits of each (field, value) pair into one word; nothing if a value
/// lies outside its field's domain.
pub open spec fn insert_all(items: Seq<(Field, int)>) -> Option<u32>
    decreases items.len(),
{
    if items.len() == 0 {
        Some(0)
    } else {
        match insert_all(items.drop_last()) {
            None => None,
            Some(acc) => {
                let (f, v) = items.last();
                if in_domain(f, v) {
                    Some(acc | field_bits(f, v) as u32)
                } else {
                    None
                }
            },
        }
    }
}

/// Whether a selection of modifier flags is admitted by `mods` and holds no
/// two modifiers that use the same bit.
pub open spec fn valid_selection(sel: u32, mods: u32) -> bool {
    &&& sel < 16
    &&& sel & !mods == 0
    &&& !(sel & MOD_RC != 0 && sel & MOD_LK != 0)
}

/// The suffix of a selection of modifier flags.
pub open spec fn selection_suffix(sel: u32) -> Seq<char> {
    suffix_text(sel & MOD_OE != 0, sel & MOD_RC != 0, sel & MOD_LK != 0, sel & MOD_AA != 0)
}

/// The word bits of a selection of modifier flags.
pub open spec fn selection_bits(sel: u32) -> u32 {
    (if sel & MOD_OE != 0 { 0x400u32 } else { 0 }) | (if sel & (MOD_RC | MOD_LK) != 0 {
        1u32
    } else {
        0
    }) | (if sel & MOD_AA != 0 { 2u32 } else { 0 })
}

/// The (field, value) pairs of an opcode's operands.
pub open spec fn opcode_items(row: OpcodeRow, args: Seq<Argument>) -> Seq<(Field, int)> {
    Seq::new(row.nargs as nat, |j: int| (operand_def(row.args@[j]).0, arg_value(args[j])))
}

/// Encodes opcode `op` with the modifiers `sel`.
pub open spec fn encode_opcode(op: Opcode, args: Seq<Argument>, sel: u32) -> Result<
    u32,
    ArgumentError,
> {
    let row = opcode_def(op);
    if arg_count(args) != row.nargs {
        Err(ArgumentError::ArgCount { value: arg_count(args) as usize, expected: row.nargs })
    } else {
        match insert_all(opcode_items(row, args)) {
            None => Err(ArgumentError::ValueOutOfRange),
            Some(bits) => Ok(row.pattern | selection_bits(sel) | bits),
        }
    }
}

/// The value that a condition of a mnemonic gives its field.
pub open spec fn cond_value(v: CondValue, args: Seq<Argument>) -> int {
    match v {
        CondValue::Const(k) => k as int,
        CondValue::Same(j) => arg_value(args[j as int]),
        CondValue::Diff(k, j) => k - arg_value(args[j as int]),
        CondValue::Scaled(f, k, j) => f * arg_value(args[j as int]) + k,
    }
}

/// The (field, value) pairs of a mnemonic: its arguments, then the fields
/// that its conditions fix.
pub open spec fn mnemonic_items(m: MnemonicRow, args: Seq<Argument>) -> Seq<(Field, int)> {
    Seq::new(m.nargs as nat, |j: int| (operand_def(m.args@[j]).0, arg_value(args[j]))) + Seq::new(
        m.nconds as nat,
        |k: int| (operand_def(m.conds@[k].field).0, cond_value(m.conds@[k].value, args)),
    )
}

/// Encodes mnemonic `i` with the modifiers `sel`, its arity already checked.
pub open spec fn encode_mnemonic(i: usize, args: Seq<Argument>, sel: u32) -> Result<
    u32,
    ArgumentError,
> {
    let m = mnemonic_def(i);
    match insert_all(mnemonic_items(m, args)) {
        None => Err(ArgumentError::ValueOutOfRange),
        Some(bits) => Ok(opcode_def(m.opcode).pattern | selection_bits(sel) | bits),
    }
}

/// The largest arity among the first `n` mnemonics named `name`.
pub open spec fn group_max(name: Seq<char>, n: nat) -> nat
    decreases n,
{
    if n == 0 {
        0
    } else {
        let m = mnemonic_def((n - 1) as usize);
        let rest = group_max(name, (n - 1) as nat);
        if m.name@ == name && m.nargs > rest {
            m.nargs as nat
        } else {
            rest
        }
    }
}

/// Encodes the mnemonics named like mnemonic `i`: the first of them whose
/// arity is the number of arguments given, else an arity error that reports
/// the largest arity of the name.
pub open spec fn encode_group(i: usize, args: Seq<Argument>, sel: u32) -> Result<
    u32,
    ArgumentError,
> {
    let name = mnemonic_def(i).name@;
    let c = arg_count(args);
    if exists|j: usize|
        j < NUM_MNEMONICS && mnemonic_def(j).name@ == name && mnemonic_def(j).nargs == c {
        let j = choose|j: usize|
            {
                &&& j < NUM_MNEMONICS
                &&& mnemonic_def(j).name@ == name
                &&& mnemonic_def(j).nargs == c
                &&& forall|l: usize|
                    l < j ==> !(mnemonic_def(l).name@ == name && mnemonic_def(l).nargs == c)
            };
        encode_mnemonic(j, args, sel)
    } else {
        Err(
            ArgumentError::ArgCount {
                value: c as usize,
                expected: group_max(name, NUM_MNEMONICS as nat) as usize,
            },
        )
    }
}

/// The number of names the assembler knows before suffixes: every opcode,
/// then every simplified mnemonic.
pub const NUM_TARGETS: usize = NUM_OPCODES + NUM_MNEMONICS;

/// The base name of target `t`.
pub open spec fn target_name(t: usize) -> Seq<char> {
    if t < NUM_OPCODES {
        opcode_def(opcode_at(t)).name@
    } else {
        mnemonic_def((t - NUM_OPCODES) as usize).name@
    }
}

/// The modifiers that target `t` admits.
pub open spec fn target_mods(t: usize) -> u32 {
    if t < NUM_OPCODES {
        opcode_def(opcode_at(t)).mods
    } else {
        opcode_def(mnemonic_def((t - NUM_OPCODES) as usize).opcode).mods
    }
}

/// Whether target `t` is an opcode or the first mnemonic of its name.
pub open spec fn target_live(t: usize) -> bool {
    t < NUM_OPCODES || forall|j: usize|
        j < t - NUM_OPCODES ==> (#[trigger] mnemonic_def(j)).name@ != mnemonic_def(
            (t - NUM_OPCODES) as usize,
        ).name@
}

/// Whether `q` names target `t` with the modifiers `sel`.
pub open spec fn entry_matches(t: usize, sel: u32, q: Seq<char>) -> bool {
    &&& t < NUM_TARGETS
    &&& target_live(t)
    &&& valid_selection(sel, target_mods(t))
    &&& target_name(t) + selection_suffix(sel) == q
}

/// Encodes target `t` with the modifiers `sel`.
pub open spec fn encode_target(t: usize, args: Seq<Argument>, sel: u32) -> Result<
    u32,
    ArgumentError,
> {
    if t < NUM_OPCODES {
        encode_opcode(opcode_at(t), args, sel)
    } else {
        encode_group((t - NUM_OPCODES) as usize, args, sel)
    }
}

/// The result of assembling `q` with `args`: the first registry entry
/// (by target, then by selection) whose name is `q`, encoded; or an unknown
/// name.
pub open spec fn is_assembly(r: Result<u32, ArgumentError>, q: Seq<char>, args: Seq<Argument>) -> bool {
    if exists|t: usize, sel: u32| entry_matches(t, sel, q) {
        exists|t: usize, sel: u32|
            {
                &&& entry_matches(t, sel, q)
                &&& forall|t2: usize, sel2: u32|
                    (t2 < t || (t2 == t && sel2 < sel)) ==> !entry_matches(t2, sel2, q)
                &&& r == encode_target(t, args, sel)
            }
    } else {
        r == Err::<u32, ArgumentError>(ArgumentError::UnknownMnemonic)
    }
}

/// Whether two texts are equal.
pub fn str_eq(a: &str, b: &str) -> (r: bool)
    ensures
        r == (a@ == b@),
{
    let n = a.unicode_len();
    if n != b.unicode_len() {
        return false;
    }
    let mut i: usize = 0;
    while i < n
        invariant
            n == a@.len(),
            n == b@.len(),
            i <= n,
            forall|k: int| 0 <= k < i ==> a@[k] == b@[k],
        decreases n - i,
    {
        if a.get_char(i) != b.get_char(i) {
            return false;
        }
        i = i + 1;
    }
    assert(a@ =~= b@);
    true
}

/// Counts the arguments before the first `Absent`.
fn count_args(args: &Arguments) -> (r: usize)
    ensures
        r as nat == arg_count(args@),
        r <= 5,
{
    let mut i: usize = 0;
    while i < 5
        invariant
            i <= 5,
            forall|k: int| 0 <= k < i ==> !(#[trigger] args@[k] is Absent),
        decreases 5 - i,
    {
        if let Argument::Absent = args[i] {
            proof {
                lemma_count_from(args@, i as int);
            }
            return i;
        }
        i = i + 1;
    }
    proof {
        lemma_count_from(args@, 5);
    }
    5
}

proof fn lemma_count_from(args: Seq<Argument>, n: int)
    requires
        0 <= n <= args.len(),
        forall|k: int| 0 <= k < n ==> !(#[trigger] args[k] is Absent),
        n == args.len() || args[n] is Absent,
    ensures
        arg_count(args) == n,
{
    lemma_count_suffix(args, n, 0);
}

proof fn lemma_count_suffix(args: Seq<Argument>, n: int, i: int)
    requires
        0 <= i <= n <= args.len(),
        forall|k: int| 0 <= k < n ==> !(#[trigger] args[k] is Absent),
        n == args.len() || args[n] is Absent,
    ensures
        count_from(args, i) == n - i,
    decreases n - i,
{
    if i < n {
        lemma_count_suffix(args, n, i + 1);
    }
}

/// ORs together the bits of each value placed in its field, failing on the
/// first value out of its field's domain.
#[verifier::rlimit(30)]
fn insert_items(fields: &Vec<Field>, values: &Vec<i64>) -> (r: Option<u32>)
    requires
        fields@.len() == values@.len(),
        forall|k: int| 0 <= k < fields@.len() ==> (#[trigger] fields@[k]).wf(),
    ensures
        r == insert_all(Seq::new(fields@.len(), |k: int| (fields@[k], values@[k] as int))),
{
    let ghost items = Seq::new(fields@.len(), |k: int| (fields@[k], values@[k] as int));
    let mut acc: u32 = 0;
    let mut i: usize = 0;
    while i < fields.len()
        invariant
            fields@.len() == values@.len(),
            forall|k: int| 0 <= k < fields@.len() ==> (#[trigger] fields@[k]).wf(),
            i <= fields@.len(),
            items == Seq::new(fields@.len(), |k: int| (fields@[k], values@[k] as int)),
            insert_all(items.subrange(0, i as int)) == Some(acc),
        decreases fields@.len() - i,
    {
        assert(items.subrange(0, i as int + 1).drop_last() =~= items.subrange(0, i as int));
        match fields[i].insert(values[i]) {
            Err(_) => {
                proof {
                    lemma_insert_all_prefix_fails(items, i as int + 1);
                }
                return None;
            },
            Ok(b) => {
                acc = acc | b;
            },
        }
        i = i + 1;
    }
    assert(items.subrange(0, i as int) =~= items);
    Some(acc)
}

proof fn lemma_insert_all_prefix_fails(items: Seq<(Field, int)>, n: int)
    requires
        0 < n <= items.len(),
        insert_all(items.subrange(0, n)) is None,
    ensures
        insert_all(items) is None,
    decreases items.len() - n,
{
    if n < items.len() {
        assert(items.subrange(0, n + 1).drop_last() =~= items.subrange(0, n));
        lemma_insert_all_prefix_fails(items, n + 1);
    } else {
        assert(items.subrange(0, n) =~= items);
    }
}

fn selection_bits_of(sel: u32) -> (r: u32)
    ensures
        r == selection_bits(sel),
{
    (if sel & MOD_OE != 0 { 0x400u32 } else { 0 }) | (if sel & (MOD_RC | MOD_LK) != 0 {
        1u32
    } else {
        0
    }) | (if sel & MOD_AA != 0 { 2u32 } else { 0 })
}

fn push_selection_suffix(out: &mut String, sel: u32)
    ensures
        final(out)@ == old(out)@ + selection_suffix(sel),
{
    let ghost start = out@;
    let oe = sel & MOD_OE != 0;
    let rc = sel & MOD_RC != 0;
    let lk = sel & MOD_LK != 0;
    let aa = sel & MOD_AA != 0;
    if oe {
        out.append("o");
    }
    if rc {
        out.append(".");
    }
    if lk {
        out.append("l");
    }
    if aa {
        out.append("a");
    }
    assert(out@ =~= start + suffix_text(oe, rc, lk, aa));
}

/// Encodes opcode `op` with the modifier flags `sel`.
#[verifier::rlimit(30)]
pub fn assemble_opcode(op: Opcode, args: &Arguments, sel: u32) -> (r: Result<u32, ArgumentError>)
    ensures
        r == encode_opcode(op, args@, sel),
{
    let row = opcode_row(op);
    let c = count_args(args);
    if c != row.nargs {
        return Err(ArgumentError::ArgCount { value: c, expected: row.nargs });
    }
    let mut fields: Vec<Field> = Vec::new();
    let mut values: Vec<i64> = Vec::new();
    let mut j: usize = 0;
    while j < row.nargs
        invariant
            row == opcode_def(op),
            row.nargs == c,
            c <= 5,
            j <= row.nargs,
            fields@.len() == j,
            values@.len() == j,
            forall|k: int| 0 <= k < j ==> (#[trigger] fields@[k]).wf(),
            forall|k: int|
                0 <= k < j ==> (fields@[k], values@[k] as int) == #[trigger] opcode_items(
                    row,
                    args@,
                )[k],
        decreases row.nargs - j,
    {
        let (f, _) = operand_info(row.args[j]);
        fields.push(f);
        values.push(args[j].value());
        j = j + 1;
    }
    let ghost items = Seq::new(fields@.len(), |k: int| (fields@[k], values@[k] as int));
    assert(items =~= opcode_items(row, args@));
    match insert_items(&fields, &values) {
        None => Err(ArgumentError::ValueOutOfRange),
        Some(bits) => Ok(row.pattern | selection_bits_of(sel) | bits),
    }
}

fn cond_value_of(v: CondValue, args: &Arguments) -> (r: i64)
    requires
        match v {
            CondValue::Const(_) => true,
            CondValue::Same(j) => j < 5,
            CondValue::Diff(_, j) => j < 5,
            CondValue::Scaled(_, _, j) => j < 5,
        },
    ensures
        r as int == cond_value(v, args@),
{
    match v {
        CondValue::Const(k) => k as i64,
        CondValue::Same(j) => args[j].value(),
        CondValue::Diff(k, j) => k as i64 - args[j].value(),
        CondValue::Scaled(f, k, j) => {
            let w = args[j].value();
            assert(-0x8000_0000 * 0x10000 <= f * w <= 0x8000_0000 * 0x10000) by (nonlinear_arith)
                requires
                    0 <= f < 0x10000,
                    -0x8000_0000 <= w <= 0x8000_0000,
            ;
            (f as i64) * w + k as i64
        },
    }
}

/// Encodes mnemonic `i` with the modifier flags `sel`; the caller has checked
/// the number of arguments.
#[verifier::rlimit(30)]
pub fn assemble_mnemonic(i: usize, args: &Arguments, sel: u32) -> (r: Result<u32, ArgumentError>)
    ensures
        r == encode_mnemonic(i, args@, sel),
{
    let m = mnemonic_row(i);
    proof {
        lemma_mnemonic_rows_wf(i);
    }
    let mut fields: Vec<Field> = Vec::new();
    let mut values: Vec<i64> = Vec::new();
    let ghost all = mnemonic_items(m, args@);
    let mut j: usize = 0;
    while j < m.nargs
        invariant
            m == mnemonic_def(i),
            m.nargs <= 5,
            all == mnemonic_items(m, args@),
            j <= m.nargs,
            fields@.len() == j,
            values@.len() == j,
            forall|k: int| 0 <= k < j ==> (#[trigger] fields@[k]).wf(),
            forall|k: int| 0 <= k < j ==> (fields@[k], values@[k] as int) == #[trigger] all[k],
        decreases m.nargs - j,
    {
        let (f, _) = operand_info(m.args[j]);
        fields.push(f);
        values.push(args[j].value());
        j = j + 1;
    }
    let mut k: usize = 0;
    while k < m.nconds
        invariant
            m == mnemonic_def(i),
            m.nargs <= 5,
            m.nconds <= 3,
            forall|l: int|
                0 <= l < 3 ==> match (#[trigger] m.conds@[l]).value {
                    CondValue::Const(_) => true,
                    CondValue::Same(j) => j < 5,
                    CondValue::Diff(_, j) => j < 5,
                    CondValue::Scaled(_, _, j) => j < 5,
                },
            all == mnemonic_items(m, args@),
            k <= m.nconds,
            fields@.len() == m.nargs + k,
            values@.len() == m.nargs + k,
            forall|l: int| 0 <= l < m.nargs + k ==> (#[trigger] fields@[l]).wf(),
            forall|l: int|
                0 <= l < m.nargs + k ==> (fields@[l], values@[l] as int) == #[trigger] all[l],
        decreases m.nconds - k,
    {
        let c = m.conds[k];
        let (f, _) = operand_info(c.field);
        let v = cond_value_of(c.value, args);
        fields.push(f);
        values.push(v);
        k = k + 1;
    }
    let ghost items = Seq::new(fields@.len(), |l: int| (fields@[l], values@[l] as int));
    assert(items =~= all);
    let row = opcode_row(m.opcode);
    match insert_items(&fields, &values) {
        None => Err(ArgumentError::ValueOutOfRange),
        Some(bits) => Ok(row.pattern | selection_bits_of(sel) | bits),
    }
}

proof fn lemma_group_pick(i: usize, args: Seq<Argument>, sel: u32, j: usize)
    requires
        j < NUM_MNEMONICS,
        mnemonic_def(j).name@ == mnemonic_def(i).name@,
        mnemonic_def(j).nargs == arg_count(args),
        forall|l: usize|
            l < j ==> !(mnemonic_def(l).name@ == mnemonic_def(i).name@ && mnemonic_def(l).nargs
                == arg_count(args)),
    ensures
        encode_group(i, args, sel) == encode_mnemonic(j, args, sel),
{
    let name = mnemonic_def(i).name@;
    let c = arg_count(args);
    let pick = choose|p: usize|
        {
            &&& p < NUM_MNEMONICS
            &&& mnemonic_def(p).name@ == name
            &&& mnemonic_def(p).nargs == c
            &&& forall|l: usize|
                l < p ==> !(mnemonic_def(l).name@ == name && mnemonic_def(l).nargs == c)
        };
    if pick < j {
        assert(false);
    }
    if j < pick {
        assert(false);
    }
}

/// Encodes the mnemonics named like mnemonic `i`, choosing among them by the
/// number of arguments given.
#[verifier::rlimit(30)]
pub fn assemble_group(i: usize, args: &Arguments, sel: u32) -> (r: Result<u32, ArgumentError>)
    ensures
        r == encode_group(i, args@, sel),
{
    let name = mnemonic_row(i).name;
    let c = count_args(args);
    let mut max: usize = 0;
    let mut j: usize = 0;
    while j < NUM_MNEMONICS
        invariant
            name@ == mnemonic_def(i).name@,
            c as nat == arg_count(args@),
            j <= NUM_MNEMONICS,
            max as nat == group_max(name@, j as nat),
            max <= 5,
            forall|l: usize|
                l < j ==> !(mnemonic_def(l).name@ == name@ && mnemonic_def(l).nargs == c),
        decreases NUM_MNEMONICS - j,
    {
        let m = mnemonic_row(j);
        proof {
            lemma_mnemonic_rows_wf(j);
        }
        if str_eq(m.name, name) {
            if m.nargs == c {
                proof {
                    lemma_group_pick(i, args@, sel, j);
                }
                return assemble_mnemonic(j, args, sel);
            }
            if m.nargs > max {
                max = m.nargs;
            }
        }
        j = j + 1;
    }
    Err(ArgumentError::ArgCount { value: c, expected: max })
}

fn target_name_of(t: usize) -> (r: &'static str)
    requires
        t < NUM_TARGETS,
    ensures
        r@ == target_name(t),
{
    if t < NUM_OPCODES {
        opcode_row(crate::isa::nth_opcode(t)).name
    } else {
        mnemonic_row(t - NUM_OPCODES).name
    }
}

fn target_mods_of(t: usize) -> (r: u32)
    requires
        t < NUM_TARGETS,
    ensures
        r == target_mods(t),
{
    if t < NUM_OPCODES {
        opcode_row(crate::isa::nth_opcode(t)).mods
    } else {
        opcode_row(mnemonic_row(t - NUM_OPCODES).opcode).mods
    }
}

fn target_live_of(t: usize) -> (r: bool)
    requires
        t < NUM_TARGETS,
    ensures
        r == target_live(t),
{
    if t < NUM_OPCODES {
        return true;
    }
    let i = t - NUM_OPCODES;
    let name = mnemonic_row(i).name;
    let mut j: usize = 0;
    while j < i
        invariant
            i == t - NUM_OPCODES,
            name@ == mnemonic_def(i).name@,
            j <= i,
            forall|l: usize| l < j ==> (#[trigger] mnemonic_def(l)).name@ != name@,
        decreases i - j,
    {
        if str_eq(mnemonic_row(j).name, name) {
            return false;
        }
        j = j + 1;
    }
    true
}

/// Encodes target `t` with the modifier flags `sel`.
fn assemble_target(t: usize, args: &Arguments, sel: u32) -> (r: Result<u32, ArgumentError>)
    requires
        t < NUM_TARGETS,
    ensures
        r == encode_target(t, args@, sel),
{
    if t < NUM_OPCODES {
        assemble_opcode(crate::isa::nth_opcode(t), args, sel)
    } else {
        assemble_group(t - NUM_OPCODES, args, sel)
    }
}

/// Assembles the instruction named `mnemonic` (an opcode or simplified
/// mnemonic, followed by the suffixes of the modifiers to set) with the
/// arguments `args`, up to the first `Absent`.
#[verifier::rlimit(30)]
pub fn assemble(mnemonic: &str, args: &Arguments) -> (r: Result<u32, ArgumentError>)
    ensures
        is_assembly(r, mnemonic@, args@),
{
    let mut t: usize = 0;
    while t < NUM_TARGETS
        invariant
            t <= NUM_TARGETS,
            forall|t2: usize, sel2: u32| t2 < t ==> !entry_matches(t2, sel2, mnemonic@),
        decreases NUM_TARGETS - t,
    {
        if target_live_of(t) {
            let mods = target_mods_of(t);
            let base = target_name_of(t);
            let mut sel: u32 = 0;
            while sel < 16
                invariant
                    t < NUM_TARGETS,
                    target_live(t),
                    mods == target_mods(t),
                    base@ == target_name(t),
                    sel <= 16,
                    forall|t2: usize, sel2: u32| t2 < t ==> !entry_matches(t2, sel2, mnemonic@),
                    forall|sel2: u32| sel2 < sel ==> !entry_matches(t, sel2, mnemonic@),
                decreases 16 - sel,
            {
                if sel & !mods == 0 && !(sel & MOD_RC != 0 && sel & MOD_LK != 0) {
                    let mut name = String::from_str(base);
                    push_selection_suffix(&mut name, sel);
                    if str_eq(name.as_str(), mnemonic) {
                        proof {
                            assert(entry_matches(t, sel, mnemonic@));
                        }
                        return assemble_target(t, args, sel);
                    }
                }
                sel = sel + 1;
            }
            assert forall|sel2: u32| !entry_matches(t, sel2, mnemonic@) by {
                if sel2 >= 16 {
                    assert(!valid_selection(sel2, mods));
                }
            }
        }
        t = t + 1;
    }
    Err(ArgumentError::UnknownMnemonic)
}

} // verus!
