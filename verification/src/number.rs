//! Unsigned decimal numbers as byte strings: parsing (for `Content-Length`
//! values) and rendering (for response headers and status codes).

use vstd::prelude::*;

verus! {

/// An ASCII decimal digit.
pub open spec fn is_digit(b: u8) -> bool {
    48 <= b <= 57
}

/// Every byte of `s` is an ASCII decimal digit.
pub open spec fn all_digits(s: Seq<u8>) -> bool {
    forall|i: int| 0 <= i < s.len() ==> is_digit(#[trigger] s[i])
}

/// The number denoted by the digit string `s`, most significant digit first.
/// Meaningful only when `all_digits(s)` holds.
pub open spec fn dec_value(s: Seq<u8>) -> int
    decreases s.len(),
{
    if s.len() == 0 {
        0
    } else {
        dec_value(s.drop_last()) * 10 + s.last() - 48
    }
}

pub proof fn lemma_dec_value_nonneg(s: Seq<u8>)
    requires
        all_digits(s),
    ensures
        dec_value(s) >= 0,
    decreases s.len(),
{
    if s.len() > 0 {
        assert(all_digits(s.drop_last()));
        lemma_dec_value_nonneg(s.drop_last());
    }
}

/// The decimal digit string denoting `n`, for `n >= 0`.
pub open spec fn dec_rep(n: int) -> Seq<u8>
    decreases n,
{
    if n < 10 {
        seq![(48 + n) as u8]
    } else {
        dec_rep(n / 10).push((48 + n % 10) as u8)
    }
}

/// Parses `v` as an unsigned decimal number of at most `max`. Returns the
/// value exactly when `v` is a nonempty digit string denoting a number in
/// bounds; leading zeros are accepted.
pub fn parse_dec(v: &Vec<u8>, max: u64) -> (r: Option<u64>)
    requires
        max <= 0x1000_0000_0000_0000,
    ensures
        match r {
            Some(n) => {
                &&& v@.len() > 0
                &&& all_digits(v@)
                &&& n == dec_value(v@)
                &&& n <= max
            },
            None => !(v@.len() > 0 && all_digits(v@) && dec_value(v@) <= max),
        },
{
    let mut i: usize = 0;
    let mut acc: u64 = 0;
    let mut big: bool = false;
    while i < v.len()
        invariant
            i <= v@.len(),
            max <= 0x1000_0000_0000_0000,
            forall|k: int| 0 <= k < i ==> is_digit(#[trigger] v@[k]),
            !big ==> acc == dec_value(v@.subrange(0, i as int)) && acc <= max,
            big ==> dec_value(v@.subrange(0, i as int)) > max,
        decreases v@.len() - i,
    {
        let b = v[i];
        if b < 48 || b > 57 {
            return None;
        }
        proof {
            assert(v@.subrange(0, i + 1).drop_last() =~= v@.subrange(0, i as int));
            assert(v@.subrange(0, i + 1).last() == v@[i as int]);
        }
        if big {
            proof {
                let prev = dec_value(v@.subrange(0, i as int));
                assert(dec_value(v@.subrange(0, i + 1)) == prev * 10 + v@[i as int] - 48);
                assert(prev * 10 >= (max + 1) * 10);
            }
        } else {
            let step: u64 = acc * 10 + (b - 48) as u64;
            if step > max {
                big = true;
                proof {
                    assert(dec_value(v@.subrange(0, i + 1)) == acc * 10 + v@[i as int] - 48);
                }
            } else {
                acc = step;
            }
        }
        i += 1;
    }
    proof {
        assert(v@.subrange(0, v@.len() as int) =~= v@);
    }
    if big || v.len() == 0 {
        None
    } else {
        Some(acc)
    }
}

/// Appends the decimal representation of `n` to `out`.
pub fn push_dec(out: &mut Vec<u8>, n: u64)
    ensures
        final(out)@ == old(out)@ + dec_rep(n as int),
    decreases n,
{
    if n < 10 {
        out.push(48 + n as u8);
        proof {
            assert(out@ =~= old(out)@ + dec_rep(n as int));
        }
    } else {
        push_dec(out, n / 10);
        out.push(48 + (n % 10) as u8);
        proof {
            assert(out@ =~= old(out)@ + dec_rep(n as int));
        }
    }
}

/// The decimal representation of `n` as a fresh byte string.
pub fn dec_of(n: u64) -> (r: Vec<u8>)
    ensures
        r@ == dec_rep(n as int),
{
    let mut out: Vec<u8> = Vec::new();
    push_dec(&mut out, n);
    proof {
        assert(Seq::<u8>::empty() + dec_rep(n as int) =~= dec_rep(n as int));
    }
    out
}

} // verus!
