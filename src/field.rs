//! Named bit ranges of an instruction word and their value codec.
use vstd::arithmetic::div_mod::{lemma_fundamental_div_mod_converse, lemma_small_mod};
use vstd::arithmetic::power2::{lemma_pow2_adds, lemma_pow2_pos, pow2};
use vstd::bits::{
    lemma_u32_low_bits_mask_is_mod, lemma_u32_pow2_no_overflow, lemma_u32_shl_is_mul,
    lemma_u32_shr_is_div, low_bits_mask,
};
use vstd::prelude::*;

verus! {

/// A field of an instruction word: `width` bits whose lowest bit sits at bit
/// `shift` (counted from the least significant end).
#[derive(Clone, Copy, Debug, PartialEq, Eq, Structural)]
pub struct Field {
    pub shift: u32,
    pub width: u32,
    /// The stored bits are the value divided by `2^shift_left`.
    pub shift_left: u32,
    /// Two's complement storage.
    pub signed: bool,
    /// The two 5-bit halves are stored swapped.
    pub split: bool,
}

/// Failure of an encoding request.
#[derive(Clone, Copy, Debug, PartialEq, Eq, Structural)]
pub enum ArgumentError {
    /// The name is not a known opcode or mnemonic.
    UnknownMnemonic,
    /// The number of arguments given is not one that the name accepts.
    ArgCount { value: usize, expected: usize },
    /// An argument lies outside its field's legal domain.
    ValueOutOfRange,
}

impl Field {
    /// The field lies within the word, its values fit in 31 bits, and a split
    /// field is a plain 10-bit one.
    pub open spec fn wf(self) -> bool {
        &&& 1 <= self.width
        &&& self.shift + self.width <= 32
        &&& self.width + self.shift_left <= 30
        &&& self.split ==> self.width == 10 && !self.signed && self.shift_left == 0
    }
}

/// Exchanges the two 5-bit halves of a 10-bit value.
pub open spec fn swap_halves(u: nat) -> nat {
    (u % 32) * 32 + u / 32
}

/// The stored bits of `f` in `word`, right-aligned.
pub open spec fn raw_bits(f: Field, word: u32) -> nat {
    ((word as nat / pow2(f.shift as nat)) % pow2(f.width as nat)) as nat
}

/// The logical value of field `f` in `word`.
pub open spec fn field_value(f: Field, word: u32) -> int {
    let r = raw_bits(f, word);
    let u = if f.split { swap_halves(r) } else { r };
    let s: int = if f.signed && u >= pow2((f.width - 1) as nat) {
        u - pow2(f.width as nat)
    } else {
        u as int
    };
    s * pow2(f.shift_left as nat)
}

/// The values that `f` can hold.
pub open spec fn in_domain(f: Field, v: int) -> bool {
    &&& v % pow2(f.shift_left as nat) as int == 0
    &&& if f.signed {
        -pow2((f.width - 1 + f.shift_left) as nat) <= v < pow2((f.width - 1 + f.shift_left) as nat)
    } else {
        0 <= v < pow2((f.width + f.shift_left) as nat)
    }
}

/// The bits that hold value `v` in field `f`, at the field's place in the word.
pub open spec fn field_bits(f: Field, v: int) -> nat {
    let u = ((v / pow2(f.shift_left as nat) as int) % pow2(f.width as nat) as int) as nat;
    let s = if f.split { swap_halves(u) } else { u };
    s * pow2(f.shift as nat)
}

proof fn lemma_swap_halves(u: nat)
    requires
        u < 1024,
    ensures
        swap_halves(u) < 1024,
        swap_halves(swap_halves(u)) == u,
{
}

proof fn lemma_swap_bits(r: u32)
    requires
        r < 1024,
    ensures
        (((r & 0x1f) << 5u32) | (r >> 5u32)) == swap_halves(r as nat),
        (((r & 0x1f) << 5u32) | (r >> 5u32)) < 1024,
{
    assert((((r & 0x1f) << 5u32) | (r >> 5u32)) == (r % 32) * 32 + r / 32) by (bit_vector)
        requires
            r < 1024,
    ;
    assert((((r & 0x1f) << 5u32) | (r >> 5u32)) < 1024) by (bit_vector)
        requires
            r < 1024,
    ;
}

/// `2^e` as a machine integer.
fn pow2_u32(e: u32) -> (r: u32)
    requires
        e < 32,
    ensures
        r as nat == pow2(e as nat),
{
    proof {
        lemma_u32_pow2_no_overflow(e as nat);
        lemma_pow2_pos(0);
        vstd::arithmetic::power2::lemma2_to64();
        lemma_u32_shl_is_mul(1, e);
    }
    1u32 << e
}

/// The low `w` bits of `x`.
fn low_bits(x: u32, w: u32) -> (r: u32)
    requires
        1 <= w < 32,
    ensures
        r as nat == x as nat % pow2(w as nat),
{
    let p = pow2_u32(w);
    proof {
        lemma_u32_pow2_no_overflow(w as nat);
        lemma_u32_low_bits_mask_is_mod(x, w as nat);
        assert(low_bits_mask(w as nat) as u32 == (p - 1) as u32);
    }
    x & (p - 1)
}

impl Field {
    /// Reads the value of this field from `word`.
    pub fn extract(&self, word: u32) -> (r: i64)
        requires
            self.wf(),
        ensures
            r as int == field_value(*self, word),
    {
        let f = *self;
        let shifted = word >> f.shift;
        proof {
            lemma_u32_shr_is_div(word, f.shift);
        }
        let raw = low_bits(shifted, f.width);
        proof {
            lemma_u32_pow2_no_overflow(f.width as nat);
        }
        assert(raw as nat == raw_bits(f, word));
        let u: u32 = if f.split {
            proof {
                vstd::arithmetic::power2::lemma2_to64();
                lemma_swap_bits(raw);
            }
            ((raw & 0x1f) << 5u32) | (raw >> 5u32)
        } else {
            raw
        };
        let s: i64 = if f.signed && u >= pow2_u32(f.width - 1) {
            u as i64 - pow2_u32(f.width) as i64
        } else {
            u as i64
        };
        let m = pow2_u32(f.shift_left);
        proof {
            lemma_pow2_adds(f.width as nat, f.shift_left as nat);
            lemma_u32_pow2_no_overflow((f.width + f.shift_left) as nat);
            lemma_pow2_pos(f.shift_left as nat);
            assert(u < pow2(f.width as nat));
            assert(-pow2(f.width as nat) <= s < pow2(f.width as nat));
            vstd::arithmetic::power2::lemma_pow2_strictly_increases(
                (f.width + f.shift_left) as nat,
                31,
            );
            vstd::arithmetic::power2::lemma2_to64();
            assert(pow2(f.width as nat) * m == pow2((f.width + f.shift_left) as nat));
            assert(pow2((f.width + f.shift_left) as nat) < 0x8000_0000);
            let pw = pow2(f.width as nat) as int;
            assert(-(pw * m) <= s * m < pw * m) by (nonlinear_arith)
                requires
                    -pw <= s < pw,
                    m > 0,
            ;
        }
        s * m as i64
    }
}


/// `a * p / p == a` and `(a * p) % p == 0` for positive `p`.
proof fn lemma_mul_div(a: int, p: int)
    requires
        p > 0,
    ensures
        (a * p) / p == a,
        (a * p) % p == 0,
{
    lemma_fundamental_div_mod_converse(a * p, p, a, 0);
}

/// The stored bits of value `v`, right-aligned and before any swap.
proof fn lemma_stored_bits(f: Field, v: int)
    requires
        f.wf(),
        in_domain(f, v),
    ensures
        ({
            let p = pow2(f.shift_left as nat) as int;
            let u = (v / p) % pow2(f.width as nat) as int;
            &&& v == (v / p) * p
            &&& 0 <= u < pow2(f.width as nat)
            &&& f.signed ==> -pow2((f.width - 1) as nat) <= v / p < pow2((f.width - 1) as nat)
            &&& !f.signed ==> u == v / p
        }),
{
    let p = pow2(f.shift_left as nat) as int;
    let pw = pow2(f.width as nat) as int;
    lemma_pow2_pos(f.shift_left as nat);
    lemma_pow2_pos(f.width as nat);
    vstd::arithmetic::div_mod::lemma_fundamental_div_mod(v, p);
    let q = v / p;
    assert(v == q * p) by (nonlinear_arith)
        requires
            v == p * q + v % p,
            v % p == 0,
    ;
    if f.signed {
        let h = pow2((f.width - 1) as nat) as int;
        lemma_pow2_adds((f.width - 1) as nat, f.shift_left as nat);
        assert(-h <= q < h) by (nonlinear_arith)
            requires
                -(h * p) <= v < h * p,
                v == q * p,
                p > 0,
        ;
    } else {
        lemma_pow2_adds(f.width as nat, f.shift_left as nat);
        assert(0 <= q < pw) by (nonlinear_arith)
            requires
                0 <= v < pw * p,
                v == q * p,
                p > 0,
        ;
        lemma_small_mod(q as nat, pw as nat);
    }
}

/// Inserting a value in its domain and reading it back gives the value.
pub proof fn lemma_round_trip(f: Field, v: int)
    requires
        f.wf(),
        in_domain(f, v),
    ensures
        field_bits(f, v) < pow2((f.shift + f.width) as nat),
        field_bits(f, v) <= u32::MAX,
        field_value(f, field_bits(f, v) as u32) == v,
{
    lemma_stored_bits(f, v);
    let p = pow2(f.shift_left as nat) as int;
    let pw = pow2(f.width as nat) as int;
    let ps = pow2(f.shift as nat) as int;
    let q = v / p;
    let u = (q % pw) as nat;
    let s = if f.split { swap_halves(u) } else { u };
    lemma_pow2_pos(f.shift as nat);
    lemma_pow2_pos(f.width as nat);
    if f.split {
        vstd::arithmetic::power2::lemma2_to64();
        lemma_swap_halves(u);
    }
    assert(s < pw);
    lemma_pow2_adds(f.width as nat, f.shift as nat);
    assert(s * ps < pw * ps) by (nonlinear_arith)
        requires
            s < pw,
            ps > 0,
    ;
    vstd::arithmetic::power2::lemma2_to64();
    if f.shift + f.width < 32 {
        vstd::arithmetic::power2::lemma_pow2_strictly_increases((f.shift + f.width) as nat, 32);
    }
    let word = (s * ps) as u32;
    lemma_mul_div(s as int, ps);
    lemma_small_mod(s, pw as nat);
    assert(raw_bits(f, word) == s);
    let r = if f.split { swap_halves(s) } else { s };
    assert(r == u);
    if f.signed {
        let h = pow2((f.width - 1) as nat) as int;
        vstd::arithmetic::power2::lemma_pow2_unfold(f.width as nat);
        assert(pw == 2 * h);
        if q >= 0 {
            lemma_small_mod(q as nat, pw as nat);
        } else {
            lemma_fundamental_div_mod_converse(q, pw, -1, q + pw);
        }
    }
}

impl Field {
    /// Places `v` in this field: the bits to OR into a word, or an error when
    /// `v` lies outside the field's domain.
    pub fn insert(&self, v: i64) -> (r: Result<u32, ArgumentError>)
        requires
            self.wf(),
        ensures
            match r {
                Ok(b) => in_domain(*self, v as int) && b as nat == field_bits(*self, v as int),
                Err(e) => !in_domain(*self, v as int) && e == ArgumentError::ValueOutOfRange,
            },
    {
        let f = *self;
        let p = pow2_u32(f.shift_left);
        let pw = pow2_u32(f.width);
        proof {
            lemma_pow2_pos(f.shift_left as nat);
            lemma_pow2_adds(f.width as nat, f.shift_left as nat);
            lemma_u32_pow2_no_overflow((f.width + f.shift_left) as nat);
            vstd::arithmetic::power2::lemma_pow2_strictly_increases(f.width as nat, (f.width + f.shift_left + 1) as nat);
            vstd::arithmetic::power2::lemma_pow2_adds((f.width + f.shift_left) as nat, 1);
            vstd::arithmetic::power2::lemma2_to64();
        }
        let u: u32;
        if f.signed {
            let half = pow2_u32(f.width - 1);
            let h = pow2_u32(f.width - 1 + f.shift_left);
            proof {
                vstd::arithmetic::power2::lemma_pow2_unfold(f.width as nat);
                lemma_pow2_adds((f.width - 1) as nat, f.shift_left as nat);
                lemma_pow2_adds(1, (f.width - 1 + f.shift_left) as nat);
                vstd::arithmetic::power2::lemma_pow2_unfold((f.width + f.shift_left) as nat);
            }
            if v < -(h as i64) || v >= h as i64 {
                return Err(ArgumentError::ValueOutOfRange);
            }
            let t = (v + h as i64) as u32;
            if t % p != 0 {
                proof {
                    assert(h as int == (half as int) * (p as int));
                    lemma_mul_div(half as int, p as int);
                    vstd::arithmetic::div_mod::lemma_mod_adds(v as int, h as int, p as int);
                }
                return Err(ArgumentError::ValueOutOfRange);
            }
            let q_off = t / p;
            proof {
                assert(h as int == (half as int) * (p as int));
                lemma_mul_div(half as int, p as int);
                vstd::arithmetic::div_mod::lemma_mod_adds(v as int, h as int, p as int);
                lemma_stored_bits(f, v as int);
                let q = v as int / p as int;
                assert(t as int == (q + half) * p) by (nonlinear_arith)
                    requires
                        t as int == v + h,
                        v == q * p,
                        h == half * p,
                ;
                lemma_mul_div(q + half, p as int);
            }
            if q_off >= half {
                u = q_off - half;
                proof {
                    lemma_small_mod((v as int / p as int) as nat, pw as nat);
                }
            } else {
                u = q_off + half;
                proof {
                    let q = v as int / p as int;
                    lemma_fundamental_div_mod_converse(q, pw as int, -1, q + pw);
                }
            }
        } else {
            if v < 0 || v >= (pw as i64) * (p as i64) {
                return Err(ArgumentError::ValueOutOfRange);
            }
            if (v as u32) % p != 0 {
                return Err(ArgumentError::ValueOutOfRange);
            }
            proof {
                lemma_stored_bits(f, v as int);
            }
            u = (v as u32) / p;
        }
        proof {
            lemma_stored_bits(f, v as int);
        }
        let s: u32 = if f.split {
            proof {
                lemma_swap_bits(u);
            }
            ((u & 0x1f) << 5u32) | (u >> 5u32)
        } else {
            u
        };
        proof {
            lemma_round_trip(f, v as int);
            lemma_u32_shl_is_mul(s, f.shift);
        }
        Ok(s << f.shift)
    }
}

} // verus!

verus! {

/// The value of a field lies within the field's domain bounds.
pub proof fn lemma_value_bounds(f: Field, word: u32)
    requires
        f.wf(),
    ensures
        f.signed ==> -pow2((f.width - 1 + f.shift_left) as nat) <= field_value(f, word) < pow2(
            (f.width - 1 + f.shift_left) as nat,
        ),
        !f.signed ==> 0 <= field_value(f, word) < pow2((f.width + f.shift_left) as nat),
        field_value(f, word) < 0x4000_0000,
        field_value(f, word) >= -0x4000_0000,
{
    let p = pow2(f.shift_left as nat) as int;
    let pw = pow2(f.width as nat) as int;
    lemma_pow2_pos(f.shift_left as nat);
    lemma_pow2_pos(f.width as nat);
    let r = raw_bits(f, word);
    let u = if f.split { swap_halves(r) } else { r };
    if f.split {
        vstd::arithmetic::power2::lemma2_to64();
        lemma_swap_halves(r);
    }
    assert(u < pw);
    let s: int = if f.signed && u >= pow2((f.width - 1) as nat) {
        u - pw
    } else {
        u as int
    };
    vstd::arithmetic::power2::lemma2_to64();
    vstd::arithmetic::power2::lemma_pow2_adds(f.width as nat, f.shift_left as nat);
    if (f.width + f.shift_left) < 30 {
        vstd::arithmetic::power2::lemma_pow2_strictly_increases((f.width + f.shift_left) as nat, 30);
    }
    if f.signed {
        let h = pow2((f.width - 1) as nat) as int;
        vstd::arithmetic::power2::lemma_pow2_unfold(f.width as nat);
        lemma_pow2_adds((f.width - 1) as nat, f.shift_left as nat);
        assert(-h <= s < h);
        assert(-(h * p) <= s * p < h * p) by (nonlinear_arith)
            requires
                -h <= s < h,
                p > 0,
        ;
        assert(h * p <= pw * p) by (nonlinear_arith)
            requires
                h <= pw,
                p > 0,
        ;
    } else {
        assert(0 <= s * p < pw * p) by (nonlinear_arith)
            requires
                0 <= s < pw,
                p > 0,
        ;
    }
}

} // verus!
