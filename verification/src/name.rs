//! Identifier synthesis: deriving artifact names from a base name and a
//! suffix or an index.
//!
//! A synthesized name is the base, one `_` separator, and the suffix (or the
//! decimal digits of the index). Synthesis is plain concatenation: no
//! collision detection, no deduplication. Distinct suffixes or indices still
//! give distinct names, which the lemmas at the bottom state.

use vstd::arithmetic::div_mod::lemma_fundamental_div_mod;
use vstd::prelude::*;

verus! {

/// The `_` separator placed between a base name and a suffix.
pub const SEPARATOR: u8 = 95;

/// The space byte removed when a compound type name is flattened.
pub const SPACE: u8 = 32;

/// What name synthesis produces: base, separator, suffix.
pub open spec fn synth_name(base: Seq<u8>, suffix: Seq<u8>) -> Seq<u8> {
    base + seq![SEPARATOR] + suffix
}

/// The decimal digit byte for a value below ten.
pub open spec fn dec_digit(n: nat) -> u8
    recommends
        n < 10,
{
    (48 + n) as u8
}

/// The decimal digits of `n`, most significant first, no leading zeros.
pub open spec fn dec_digits(n: nat) -> Seq<u8>
    decreases n,
{
    if n < 10 {
        seq![dec_digit(n)]
    } else {
        dec_digits(n / 10) + seq![dec_digit(n % 10)]
    }
}

/// What count-driven synthesis produces: prefix, separator, decimal index.
pub open spec fn indexed_name(prefix: Seq<u8>, i: nat) -> Seq<u8> {
    synth_name(prefix, dec_digits(i))
}

/// A copy of `s` with every space byte removed, in order.
pub open spec fn strip_spaces(s: Seq<u8>) -> Seq<u8>
    decreases s.len(),
{
    if s.len() == 0 {
        Seq::empty()
    } else if s.last() == SPACE {
        strip_spaces(s.drop_last())
    } else {
        strip_spaces(s.drop_last()) + seq![s.last()]
    }
}

/// The base every C-callable entry point's name starts from, so that a
/// generated entry is named `{base}_{rest}` by the usual synthesis rule.
pub open spec fn c_entry_base() -> Seq<u8> {
    seq![101, 120, 116, 101, 114, 110]
}

/// The C-entry base as a byte string.
pub fn c_entry_base_bytes() -> (r: Vec<u8>)
    ensures
        r@ == c_entry_base(),
{
    let mut v: Vec<u8> = Vec::new();
    v.push(101);
    v.push(120);
    v.push(116);
    v.push(101);
    v.push(114);
    v.push(110);
    proof {
        assert(v@ =~= c_entry_base());
    }
    v
}

/// Byte-string equality.
pub fn bytes_eq(a: &Vec<u8>, b: &Vec<u8>) -> (r: bool)
    ensures
        r <==> a@ == b@,
{
    if a.len() != b.len() {
        return false;
    }
    let mut i: usize = 0;
    while i < a.len()
        invariant
            i <= a.len(),
            a.len() == b.len(),
            forall|k: int| 0 <= k < i ==> a@[k] == b@[k],
        decreases a.len() - i,
    {
        if a[i] != b[i] {
            return false;
        }
        i += 1;
    }
    proof {
        assert(a@ =~= b@);
    }
    true
}

/// A copy of a byte string.
pub fn bytes_clone(s: &Vec<u8>) -> (r: Vec<u8>)
    ensures
        r@ == s@,
{
    let mut out: Vec<u8> = Vec::new();
    let mut i: usize = 0;
    while i < s.len()
        invariant
            i <= s.len(),
            out@ == s@.take(i as int),
        decreases s.len() - i,
    {
        out.push(s[i]);
        proof {
            assert(out@ =~= s@.take(i + 1 as int));
        }
        i += 1;
    }
    proof {
        assert(s@.take(s@.len() as int) =~= s@);
    }
    out
}

/// Synthesizes `{base}_{suffix}`.
pub fn synth_suffix_name(base: &Vec<u8>, suffix: &Vec<u8>) -> (r: Vec<u8>)
    ensures
        r@ == synth_name(base@, suffix@),
{
    let mut out = bytes_clone(base);
    out.push(SEPARATOR);
    let mut i: usize = 0;
    while i < suffix.len()
        invariant
            i <= suffix.len(),
            out@ == base@ + seq![SEPARATOR] + suffix@.take(i as int),
        decreases suffix.len() - i,
    {
        out.push(suffix[i]);
        proof {
            assert(out@ =~= base@ + seq![SEPARATOR] + suffix@.take(i + 1 as int));
        }
        i += 1;
    }
    proof {
        assert(base@ + seq![SEPARATOR] + suffix@.take(suffix@.len() as int) =~= synth_name(
            base@,
            suffix@,
        ));
    }
    out
}

/// The decimal digits of `n` as a byte string.
pub fn index_digits(n: usize) -> (r: Vec<u8>)
    ensures
        r@ == dec_digits(n as nat),
    decreases n,
{
    if n < 10 {
        let mut out: Vec<u8> = Vec::new();
        out.push(48 + (n as u8));
        proof {
            assert(out@ =~= dec_digits(n as nat));
        }
        out
    } else {
        let mut out = index_digits(n / 10);
        out.push(48 + ((n % 10) as u8));
        proof {
            assert(out@ =~= dec_digits(n as nat));
        }
        out
    }
}

/// Synthesizes `{prefix}_{index}` with the index in decimal.
pub fn synth_indexed_name(prefix: &Vec<u8>, index: usize) -> (r: Vec<u8>)
    ensures
        r@ == indexed_name(prefix@, index as nat),
{
    let digits = index_digits(index);
    synth_suffix_name(prefix, &digits)
}

/// A copy of `s` with every space byte removed.
pub fn remove_spaces(s: &Vec<u8>) -> (r: Vec<u8>)
    ensures
        r@ == strip_spaces(s@),
{
    let mut out: Vec<u8> = Vec::new();
    let mut i: usize = 0;
    while i < s.len()
        invariant
            i <= s.len(),
            out@ == strip_spaces(s@.take(i as int)),
        decreases s.len() - i,
    {
        proof {
            assert(s@.take(i + 1 as int).drop_last() =~= s@.take(i as int));
            assert(s@.take(i + 1 as int).last() == s@[i as int]);
        }
        if s[i] != SPACE {
            out.push(s[i]);
            proof {
                assert(strip_spaces(s@.take(i + 1 as int)) =~= strip_spaces(s@.take(i as int))
                    + seq![s@[i as int]]);
                assert(out@ =~= strip_spaces(s@.take(i as int)) + seq![s@[i as int]]);
            }
        }
        i += 1;
    }
    proof {
        assert(s@.take(s@.len() as int) =~= s@);
    }
    out
}

/// The value written by a digit string, used to show digit strings unique.
pub open spec fn dec_val(s: Seq<u8>) -> nat
    decreases s.len(),
{
    if s.len() == 0 {
        0
    } else {
        dec_val(s.drop_last()) * 10 + digit_val(s.last())
    }
}

/// The value of one digit byte.
pub open spec fn digit_val(b: u8) -> nat {
    if 48 <= b <= 57 {
        (b - 48) as nat
    } else {
        0
    }
}

/// Reading the decimal digits of `n` back gives `n`: the digit string
/// determines the value.
pub proof fn lemma_dec_digits_val(n: nat)
    ensures
        dec_val(dec_digits(n)) == n,
    decreases n,
{
    if n < 10 {
        let s = dec_digits(n);
        assert(s =~= seq![dec_digit(n)]);
        assert(s.drop_last() =~= Seq::<u8>::empty());
        assert(dec_val(s.drop_last()) == 0);
        assert(s.last() == dec_digit(n));
        assert(digit_val(dec_digit(n)) == n);
        assert(dec_val(s) == dec_val(s.drop_last()) * 10 + digit_val(s.last()));
    } else {
        lemma_dec_digits_val(n / 10);
        let s = dec_digits(n);
        assert(s == dec_digits(n / 10) + seq![dec_digit(n % 10)]);
        assert(s.len() == dec_digits(n / 10).len() + 1);
        assert(s.drop_last() =~= dec_digits(n / 10));
        assert(s.last() == dec_digit(n % 10));
        assert(digit_val(dec_digit(n % 10)) == n % 10);
        assert(dec_val(s) == dec_val(s.drop_last()) * 10 + digit_val(s.last()));
        assert(dec_val(s) == (n / 10) * 10 + n % 10);
        lemma_fundamental_div_mod(n as int, 10);
    }
}

/// Distinct indices have distinct digit strings.
pub proof fn lemma_dec_digits_injective(m: nat, n: nat)
    ensures
        dec_digits(m) == dec_digits(n) ==> m == n,
{
    if dec_digits(m) == dec_digits(n) {
        lemma_dec_digits_val(m);
        lemma_dec_digits_val(n);
    }
}

/// With one base, two synthesized names agree exactly when the suffixes do:
/// within one directive, distinct suffixes give pairwise distinct names.
pub proof fn lemma_synth_name_injective(base: Seq<u8>, s1: Seq<u8>, s2: Seq<u8>)
    ensures
        synth_name(base, s1) == synth_name(base, s2) <==> s1 == s2,
{
    if synth_name(base, s1) == synth_name(base, s2) {
        assert(synth_name(base, s1).len() == base.len() + 1 + s1.len());
        assert(synth_name(base, s2).len() == base.len() + 1 + s2.len());
        assert(s1.len() == s2.len());
        assert forall|k: int| 0 <= k < s1.len() implies s1[k] == s2[k] by {
            assert(synth_name(base, s1)[base.len() + 1 + k] == s1[k]);
            assert(synth_name(base, s2)[base.len() + 1 + k] == s2[k]);
        }
        assert(s1 =~= s2);
    }
}

/// With one prefix, two count-driven names agree exactly when the indices do.
pub proof fn lemma_indexed_name_injective(prefix: Seq<u8>, i: nat, j: nat)
    ensures
        indexed_name(prefix, i) == indexed_name(prefix, j) <==> i == j,
{
    lemma_synth_name_injective(prefix, dec_digits(i), dec_digits(j));
    lemma_dec_digits_injective(i, j);
}

} // verus!
