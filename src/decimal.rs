//! Decimal digit strings, as they appear in exported proof artifacts, turned
//! into fixed-width big-endian field elements or into `u64` values.
use vstd::prelude::*;

verus! {

/// Width in bytes of a base-field element of BLS12-381 (381 bits, padded).
pub const FIELD_BYTES: usize = 48;

/// ASCII decimal digit.
pub open spec fn is_digit(b: u8) -> bool {
    0x30 <= b && b <= 0x39
}

/// A non-empty string made only of ASCII decimal digits.
pub open spec fn is_decimal(s: Seq<u8>) -> bool {
    s.len() > 0 && forall|i: int| 0 <= i < s.len() ==> #[trigger] is_digit(s[i])
}

/// The value of a string of decimal digits, most significant first.
pub open spec fn dec_val(s: Seq<u8>) -> nat
    decreases s.len(),
{
    if s.len() == 0 {
        0
    } else {
        dec_val(s.drop_last()) * 10 + (s.last() - 0x30) as nat
    }
}

pub open spec fn pow256(n: nat) -> nat
    decreases n,
{
    if n == 0 {
        1
    } else {
        256 * pow256((n - 1) as nat)
    }
}

/// The value of a big-endian byte string.
pub open spec fn be_val(s: Seq<u8>) -> nat
    decreases s.len(),
{
    if s.len() == 0 {
        0
    } else {
        s[0] as nat * pow256((s.len() - 1) as nat) + be_val(s.subrange(1, s.len() as int))
    }
}

/// A value fits in a field element: it is below 2^384.
pub open spec fn fits_field(v: nat) -> bool {
    v < pow256(FIELD_BYTES as nat)
}

proof fn lemma_pow256_pos(n: nat)
    ensures
        pow256(n) >= 1,
    decreases n,
{
    if n > 0 {
        lemma_pow256_pos((n - 1) as nat);
    }
}

/// A digit string is worth at least as much as any of its prefixes.
proof fn lemma_dec_val_prefix(s: Seq<u8>, i: int)
    requires
        0 <= i <= s.len(),
        forall|k: int| 0 <= k < s.len() ==> #[trigger] is_digit(s[k]),
    ensures
        dec_val(s.subrange(0, i)) <= dec_val(s),
    decreases s.len(),
{
    if i < s.len() {
        assert(s.drop_last() =~= s.subrange(0, s.len() - 1));
        lemma_dec_val_prefix(s.drop_last(), i);
        assert(s.drop_last().subrange(0, i) =~= s.subrange(0, i));
    } else {
        assert(s.subrange(0, i) =~= s);
    }
}

/// One more digit: the value of the longer prefix.
proof fn lemma_dec_val_step(s: Seq<u8>, i: int)
    requires
        0 <= i < s.len(),
    ensures
        dec_val(s.subrange(0, i + 1)) == dec_val(s.subrange(0, i)) * 10 + (s[i] - 0x30) as nat,
{
    let p = s.subrange(0, i + 1);
    assert(p.drop_last() =~= s.subrange(0, i));
}

/// Multiplies the big-endian number in `acc` by ten and adds `d`, in place.
/// Returns the carry out of the most significant byte.
fn mul10_add(acc: &mut [u8; 48], d: u8) -> (carry: u32)
    requires
        d < 10,
    ensures
        be_val(final(acc)@) + carry * pow256(48) == 10 * be_val(old(acc)@) + d,
{
    let ghost orig = acc@;
    let mut carry: u32 = d as u32;
    let mut j: usize = 48;
    proof {
        assert(be_val(acc@.subrange(48, 48)) == 0);
        assert(be_val(orig.subrange(48, 48)) == 0);
        assert(pow256((48 - j) as nat) == 1);
    }
    while j > 0
        invariant
            0 <= j <= 48,
            carry < 10,
            acc@.len() == 48,
            orig.len() == 48,
            acc@.subrange(0, j as int) == orig.subrange(0, j as int),
            be_val(acc@.subrange(j as int, 48)) + carry * pow256((48 - j) as nat)
                == 10 * be_val(orig.subrange(j as int, 48)) + d,
        decreases j,
    {
        let ghost prev = acc@;
        let t: u32 = acc[j - 1] as u32 * 10 + carry;
        acc[j - 1] = (t % 256) as u8;
        proof {
            let k = (j - 1) as int;
            let p = pow256((48 - j) as nat);
            let sn = acc@.subrange(k, 48);
            let so = orig.subrange(k, 48);
            assert(sn.subrange(1, sn.len() as int) =~= prev.subrange(j as int, 48));
            assert(so.subrange(1, so.len() as int) =~= orig.subrange(j as int, 48));
            assert(prev[k] == orig[k]) by {
                assert(prev.subrange(0, j as int)[k] == orig.subrange(0, j as int)[k]);
            }
            assert(be_val(sn) == (t % 256) * p + be_val(prev.subrange(j as int, 48)));
            assert(be_val(so) == orig[k] * p + be_val(orig.subrange(j as int, 48)));
            assert(pow256((48 - k) as nat) == 256 * p);
            assert(t == orig[k] * 10 + carry);
            assert((t % 256) * p + (t / 256) * (256 * p) == t * p) by (nonlinear_arith)
                requires
                    t == (t % 256) + 256 * (t / 256),
            {
            }
            assert(t * p == orig[k] * 10 * p + carry * p) by (nonlinear_arith)
                requires
                    t == orig[k] * 10 + carry,
            {
            }
            assert(10 * (orig[k] * p + be_val(orig.subrange(j as int, 48))) == orig[k] * 10 * p
                + 10 * be_val(orig.subrange(j as int, 48))) by (nonlinear_arith);
            assert(acc@.subrange(0, k) =~= orig.subrange(0, k)) by {
                assert forall|m: int| 0 <= m < k implies acc@[m] == orig[m] by {
                    assert(prev.subrange(0, j as int)[m] == orig.subrange(0, j as int)[m]);
                }
            }
        }
        carry = t / 256;
        j = j - 1;
    }
    assert(acc@.subrange(0, 48) =~= acc@);
    assert(orig.subrange(0, 48) =~= orig);
    carry
}

/// Parses a decimal digit string into a 48-byte big-endian field element.
/// Fails on an empty string, on any byte that is not a digit (signs, a
/// decimal point, spaces), and on a value of 2^384 or more.
pub fn parse_field_element(s: &[u8]) -> (r: Option<[u8; 48]>)
    ensures
        r is Some <==> is_decimal(s@) && fits_field(dec_val(s@)),
        r matches Some(e) ==> be_val(e@) == dec_val(s@),
{
    if s.len() == 0 {
        return None;
    }
    let mut acc: [u8; 48] = [0u8; 48];
    proof {
        assert(s@.subrange(0, 0) =~= Seq::<u8>::empty());
        lemma_be_val_zero(acc@);
    }
    let mut i: usize = 0;
    while i < s.len()
        invariant
            0 <= i <= s.len(),
            forall|k: int| 0 <= k < i ==> #[trigger] is_digit(s@[k]),
            be_val(acc@) == dec_val(s@.subrange(0, i as int)),
        decreases s.len() - i,
    {
        let c = s[i];
        if c < 0x30 || c > 0x39 {
            assert(!is_digit(s@[i as int]));
            return None;
        }
        let carry = mul10_add(&mut acc, c - 0x30);
        proof {
            lemma_dec_val_step(s@, i as int);
        }
        if carry != 0 {
            proof {
                lemma_pow256_pos(48);
                assert(dec_val(s@.subrange(0, i + 1)) >= pow256(48)) by (nonlinear_arith)
                    requires
                        be_val(acc@) + carry * pow256(48) == dec_val(s@.subrange(0, i + 1)),
                        carry >= 1,
                {
                }
                if is_decimal(s@) {
                    lemma_dec_val_prefix(s@, i + 1);
                }
            }
            return None;
        }
        i = i + 1;
    }
    proof {
        assert(s@.subrange(0, s.len() as int) =~= s@);
        lemma_be_val_bound(acc@);
    }
    Some(acc)
}

/// Parses a decimal digit string into a `u64`. Fails on an empty string, on
/// any byte that is not a digit (a sign, a fractional part, spaces), and on a
/// value above `u64::MAX`.
pub fn parse_u64(s: &[u8]) -> (r: Option<u64>)
    ensures
        r is Some <==> is_decimal(s@) && dec_val(s@) <= u64::MAX,
        r matches Some(n) ==> n == dec_val(s@),
{
    if s.len() == 0 {
        return None;
    }
    let mut acc: u64 = 0;
    proof {
        assert(s@.subrange(0, 0) =~= Seq::<u8>::empty());
    }
    let mut i: usize = 0;
    while i < s.len()
        invariant
            0 <= i <= s.len(),
            forall|k: int| 0 <= k < i ==> #[trigger] is_digit(s@[k]),
            acc == dec_val(s@.subrange(0, i as int)),
        decreases s.len() - i,
    {
        let c = s[i];
        if c < 0x30 || c > 0x39 {
            assert(!is_digit(s@[i as int]));
            return None;
        }
        let t: u128 = acc as u128 * 10 + (c - 0x30) as u128;
        proof {
            lemma_dec_val_step(s@, i as int);
        }
        if t > u64::MAX as u128 {
            proof {
                if is_decimal(s@) {
                    lemma_dec_val_prefix(s@, i + 1);
                }
            }
            return None;
        }
        acc = t as u64;
        i = i + 1;
    }
    proof {
        assert(s@.subrange(0, s.len() as int) =~= s@);
    }
    Some(acc)
}

/// Two byte strings of one length with the same big-endian value are equal:
/// a field element is the only 48-byte encoding of its value.
pub proof fn lemma_be_val_injective(a: Seq<u8>, b: Seq<u8>)
    requires
        a.len() == b.len(),
        be_val(a) == be_val(b),
    ensures
        a == b,
    decreases a.len(),
{
    if a.len() > 0 {
        let ra = a.subrange(1, a.len() as int);
        let rb = b.subrange(1, b.len() as int);
        let p = pow256((a.len() - 1) as nat);
        lemma_be_val_bound(ra);
        lemma_be_val_bound(rb);
        let x = a[0] as int;
        let y = b[0] as int;
        assert(x == y) by {
            if x < y {
                assert(x * p + be_val(ra) < y * p + be_val(rb)) by (nonlinear_arith)
                    requires
                        x < y,
                        be_val(ra) < p,
                {
                }
            } else if y < x {
                assert(y * p + be_val(rb) < x * p + be_val(ra)) by (nonlinear_arith)
                    requires
                        y < x,
                        be_val(rb) < p,
                {
                }
            }
        }
        lemma_be_val_injective(ra, rb);
        assert(a =~= b) by {
            assert forall|i: int| 0 <= i < a.len() implies a[i] == b[i] by {
                if i > 0 {
                    assert(ra[i - 1] == rb[i - 1]);
                }
            }
        }
    } else {
        assert(a =~= b);
    }
}

proof fn lemma_be_val_zero(s: Seq<u8>)
    requires
        forall|k: int| 0 <= k < s.len() ==> s[k] == 0,
    ensures
        be_val(s) == 0,
    decreases s.len(),
{
    if s.len() > 0 {
        lemma_be_val_zero(s.subrange(1, s.len() as int));
    }
}

/// A big-endian string of n bytes is worth less than 256^n.
proof fn lemma_be_val_bound(s: Seq<u8>)
    ensures
        be_val(s) < pow256(s.len()),
    decreases s.len(),
{
    if s.len() > 0 {
        let rest = s.subrange(1, s.len() as int);
        lemma_be_val_bound(rest);
        let p = pow256((s.len() - 1) as nat);
        assert(s[0] as nat * p + be_val(rest) < 256 * p) by (nonlinear_arith)
            requires
                s[0] < 256,
                be_val(rest) < p,
        {
        }
    }
}

} // verus!
