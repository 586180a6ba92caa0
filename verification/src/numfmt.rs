//! Rendering of 256-bit amounts in decimal, together with the big-endian
//! value a byte string carries.

use vstd::prelude::*;
use vstd::string::StringExecFns;
use vstd::arithmetic::div_mod::lemma_fundamental_div_mod_converse;

verus! {

/// Value of a big-endian byte string.
pub open spec fn be_nat(s: Seq<u8>) -> nat
    decreases s.len(),
{
    if s.len() == 0 {
        0
    } else {
        (be_nat(s.drop_last()) * 256 + s.last()) as nat
    }
}

/// Character for the decimal digit value `d`, for `d < 10`.
pub open spec fn digit_char(d: nat) -> char {
    if d == 0 { '0' }
    else if d == 1 { '1' }
    else if d == 2 { '2' }
    else if d == 3 { '3' }
    else if d == 4 { '4' }
    else if d == 5 { '5' }
    else if d == 6 { '6' }
    else if d == 7 { '7' }
    else if d == 8 { '8' }
    else { '9' }
}

/// Decimal rendering of `n`, without leading zeros (`"0"` for zero).
pub open spec fn dec_of(n: nat) -> Seq<char>
    decreases n,
{
    if n < 10 {
        seq![digit_char(n)]
    } else {
        dec_of(n / 10) + seq![digit_char(n % 10)]
    }
}

/// Characters of the digit values in `s`, read from the last to the first.
pub open spec fn rev_digit_chars(s: Seq<u8>) -> Seq<char> {
    Seq::new(s.len(), |k: int| digit_char(s[s.len() - 1 - k] as nat))
}

/// Appends the character of one digit value.
fn push_digit_char(s: &mut String, d: u8)
    requires
        d < 10,
    ensures
        final(s)@ == old(s)@ + seq![digit_char(d as nat)],
{
    match d {
        0u8 => {
            proof { reveal_strlit("0"); assert("0"@ =~= seq![digit_char(0)]); }
            s.append("0");
        },
        1u8 => {
            proof { reveal_strlit("1"); assert("1"@ =~= seq![digit_char(1)]); }
            s.append("1");
        },
        2u8 => {
            proof { reveal_strlit("2"); assert("2"@ =~= seq![digit_char(2)]); }
            s.append("2");
        },
        3u8 => {
            proof { reveal_strlit("3"); assert("3"@ =~= seq![digit_char(3)]); }
            s.append("3");
        },
        4u8 => {
            proof { reveal_strlit("4"); assert("4"@ =~= seq![digit_char(4)]); }
            s.append("4");
        },
        5u8 => {
            proof { reveal_strlit("5"); assert("5"@ =~= seq![digit_char(5)]); }
            s.append("5");
        },
        6u8 => {
            proof { reveal_strlit("6"); assert("6"@ =~= seq![digit_char(6)]); }
            s.append("6");
        },
        7u8 => {
            proof { reveal_strlit("7"); assert("7"@ =~= seq![digit_char(7)]); }
            s.append("7");
        },
        8u8 => {
            proof { reveal_strlit("8"); assert("8"@ =~= seq![digit_char(8)]); }
            s.append("8");
        },
        _ => {
            proof { reveal_strlit("9"); assert("9"@ =~= seq![digit_char(9)]); }
            s.append("9");
        },
    }
}

/// Copies a byte vector.
pub fn copy_bytes(v: &Vec<u8>) -> (r: Vec<u8>)
    ensures
        r@ == v@,
{
    let mut r: Vec<u8> = Vec::new();
    let mut i: usize = 0;
    while i < v.len()
        invariant
            i <= v@.len(),
            r@ =~= v@.subrange(0, i as int),
        decreases v@.len() - i,
    {
        r.push(v[i]);
        i += 1;
    }
    proof {
        assert(v@.subrange(0, v@.len() as int) =~= v@);
    }
    r
}

/// All bytes zero exactly when the big-endian value is zero.
proof fn lemma_be_nat_zero(s: Seq<u8>)
    ensures
        (be_nat(s) == 0) <==> (forall|j: int| 0 <= j < s.len() ==> s[j] == 0),
    decreases s.len(),
{
    if s.len() > 0 {
        lemma_be_nat_zero(s.drop_last());
        if forall|j: int| 0 <= j < s.len() ==> s[j] == 0 {
            assert(forall|j: int| 0 <= j < s.drop_last().len() ==> s.drop_last()[j] == s[j]);
        }
        if be_nat(s) == 0 {
            assert(be_nat(s.drop_last()) * 256 + s.last() == 0);
            assert(forall|j: int| 0 <= j < s.drop_last().len() ==> s.drop_last()[j] == s[j]);
            assert(forall|j: int| 0 <= j < s.len() - 1 ==> s[j] == 0);
            assert(s[s.len() - 1] == s.last());
        }
    }
}

/// Tests whether the big-endian value of `v` is zero.
fn is_zero_bytes(v: &Vec<u8>) -> (r: bool)
    ensures
        r == (be_nat(v@) == 0),
{
    let mut i: usize = 0;
    let mut all_zero: bool = true;
    while i < v.len()
        invariant
            i <= v@.len(),
            all_zero == (forall|j: int| 0 <= j < i ==> v@[j] == 0),
        decreases v@.len() - i,
    {
        if v[i] != 0 {
            all_zero = false;
        }
        i += 1;
    }
    proof {
        lemma_be_nat_zero(v@);
    }
    all_zero
}

/// Divides the big-endian value of `v` by ten: returns the quotient,
/// rendered over the same number of bytes, and the remainder.
fn div_mod_ten(v: &Vec<u8>) -> (res: (Vec<u8>, u8))
    ensures
        res.0@.len() == v@.len(),
        be_nat(v@) == 10 * be_nat(res.0@) + res.1,
        res.1 < 10,
{
    let mut q: Vec<u8> = Vec::new();
    let mut r: u8 = 0;
    let mut i: usize = 0;
    proof {
        assert(v@.subrange(0, 0) =~= Seq::<u8>::empty());
    }
    while i < v.len()
        invariant
            i <= v@.len(),
            q@.len() == i,
            r < 10,
            be_nat(v@.subrange(0, i as int)) == 10 * be_nat(q@) + r,
        decreases v@.len() - i,
    {
        let t: u32 = (r as u32) * 256 + (v[i] as u32);
        let qi: u8 = (t / 10) as u8;
        let ghost old_q = q@;
        let ghost old_r = r;
        r = (t % 10) as u8;
        q.push(qi);
        proof {
            let pre = v@.subrange(0, i as int);
            let post = v@.subrange(0, i + 1);
            assert(post.drop_last() =~= pre);
            assert(post.last() == v@[i as int]);
            assert(q@.drop_last() =~= old_q);
            assert(be_nat(q@) == be_nat(old_q) * 256 + qi);
            assert(t == old_r * 256 + v@[i as int]);
            assert(t == 10 * (t / 10) + t % 10);
            assert(be_nat(post) == be_nat(pre) * 256 + v@[i as int]);
            assert(be_nat(pre) == 10 * be_nat(old_q) + old_r);
            assert((10 * be_nat(old_q) + old_r) * 256
                == 10 * (be_nat(old_q) * 256) + old_r * 256) by (nonlinear_arith);
            assert(be_nat(post) == 10 * (be_nat(old_q) * 256 + qi) + r);
        }
        i += 1;
    }
    proof {
        assert(v@.subrange(0, v@.len() as int) =~= v@);
    }
    (q, r)
}

/// Appends the decimal rendering of the big-endian value of `bytes`.
pub fn append_dec(s: &mut String, bytes: &Vec<u8>)
    ensures
        final(s)@ == old(s)@ + dec_of(be_nat(bytes@)),
{
    let ghost n0 = be_nat(bytes@);
    let mut cur: Vec<u8> = copy_bytes(bytes);
    if is_zero_bytes(&cur) {
        proof {
            reveal_strlit("0");
            assert("0"@ =~= seq![digit_char(0)]);
        }
        s.append("0");
        return;
    }
    let mut digits: Vec<u8> = Vec::new();
    let mut nonzero: bool = true;
    proof {
        assert(dec_of(n0) =~= dec_of(be_nat(cur@)) + rev_digit_chars(digits@));
    }
    while nonzero
        invariant
            nonzero == (be_nat(cur@) != 0),
            forall|j: int| 0 <= j < digits@.len() ==> digits@[j] < 10,
            n0 > 0,
            dec_of(n0) == (
                if be_nat(cur@) == 0 {
                    rev_digit_chars(digits@)
                } else {
                    dec_of(be_nat(cur@)) + rev_digit_chars(digits@)
                }
            ),
        decreases be_nat(cur@),
    {
        let ghost m = be_nat(cur@);
        let ghost old_digits = digits@;
        let (q, r) = div_mod_ten(&cur);
        digits.push(r);
        proof {
            let mq = be_nat(q@);
            lemma_fundamental_div_mod_converse(m as int, 10, mq as int, r as int);
            assert(m / 10 == mq && m % 10 == r);
            assert(rev_digit_chars(digits@) =~= seq![digit_char(r as nat)]
                + rev_digit_chars(old_digits));
            if mq == 0 {
                assert(dec_of(m) =~= seq![digit_char(r as nat)]);
            } else {
                assert(m >= 10);
                assert(dec_of(m) == dec_of(mq) + seq![digit_char(r as nat)]);
            }
            assert(dec_of(n0) == (
                if mq == 0 {
                    rev_digit_chars(digits@)
                } else {
                    dec_of(mq) + rev_digit_chars(digits@)
                }
            ));
            assert(mq < m);
        }
        cur = q;
        nonzero = !is_zero_bytes(&cur);
    }
    let ghost total = digits@.len() as int;
    let mut i: usize = digits.len();
    while i > 0
        invariant
            i <= digits@.len(),
            digits@.len() == total,
            forall|j: int| 0 <= j < digits@.len() ==> digits@[j] < 10,
            dec_of(n0) == rev_digit_chars(digits@),
            s@ == old(s)@ + rev_digit_chars(digits@).subrange(0, total - i),
        decreases i,
    {
        let ghost pre = rev_digit_chars(digits@).subrange(0, total - i);
        push_digit_char(s, digits[i - 1]);
        proof {
            assert(rev_digit_chars(digits@)[total - i]
                == digit_char(digits@[i - 1] as nat));
            assert(s@ =~= old(s)@ + rev_digit_chars(digits@).subrange(0, total - i + 1));
        }
        i -= 1;
    }
    proof {
        assert(rev_digit_chars(digits@).subrange(0, total) =~= rev_digit_chars(digits@));
    }
}

} // verus!
