use vstd::prelude::*;

verus! {

/// Whether the byte is an ASCII decimal digit.
pub open spec fn is_digit(b: u8) -> bool {
    48 <= b <= 57
}

/// The number written by the first `k` digit bytes, most significant first.
pub open spec fn digits_value(bs: Seq<u8>, k: int) -> int
    decreases k,
{
    if k <= 0 {
        0
    } else {
        digits_value(bs, k - 1) * 10 + (bs[k - 1] - 48)
    }
}

/// The digit part of an unsigned number: everything after an optional
/// leading plus sign.
pub open spec fn digits_of(bs: Seq<u8>) -> Seq<u8> {
    if bs.len() >= 1 && bs[0] == 43 {
        bs.skip(1)
    } else {
        bs
    }
}

/// Whether the bytes write an unsigned decimal number: an optional plus
/// sign, then at least one digit and nothing else.
pub open spec fn unsigned_ok(bs: Seq<u8>) -> bool {
    &&& digits_of(bs).len() >= 1
    &&& forall|i: int| 0 <= i < digits_of(bs).len() ==> is_digit(#[trigger] digits_of(bs)[i])
}

/// The value the bytes write.
pub open spec fn unsigned_value(bs: Seq<u8>) -> int {
    digits_value(digits_of(bs), digits_of(bs).len() as int)
}

/// Digit values never shrink as digits are appended.
proof fn lemma_digits_value_monotonic(bs: Seq<u8>, j: int, k: int)
    requires
        0 <= j <= k,
        forall|i: int| 0 <= i < k ==> is_digit(#[trigger] bs[i]),
    ensures
        digits_value(bs, j) <= digits_value(bs, k),
        digits_value(bs, j) >= 0,
    decreases k - j,
{
    if j == k {
        lemma_digits_value_nonneg(bs, j);
    } else {
        lemma_digits_value_monotonic(bs, j, k - 1);
        lemma_digits_value_nonneg(bs, k - 1);
        assert(digits_value(bs, k) == digits_value(bs, k - 1) * 10 + (bs[k - 1] - 48));
        assert(digits_value(bs, k - 1) * 10 >= digits_value(bs, k - 1)) by (nonlinear_arith)
            requires digits_value(bs, k - 1) >= 0;
    }
}

proof fn lemma_digits_value_nonneg(bs: Seq<u8>, k: int)
    requires
        forall|i: int| 0 <= i < k ==> is_digit(#[trigger] bs[i]),
    ensures
        digits_value(bs, k) >= 0,
    decreases k,
{
    if k > 0 {
        lemma_digits_value_nonneg(bs, k - 1);
        assert(digits_value(bs, k - 1) * 10 >= 0) by (nonlinear_arith)
            requires digits_value(bs, k - 1) >= 0;
    }
}

/// Reads the bytes `from..to` as an unsigned decimal number, exactly as
/// the standard parser does: an optional plus sign, one or more digits, and
/// a value that fits the machine; anything else is `None`.
pub fn parse_usize(bs: &[u8], from: usize, to: usize) -> (r: Option<usize>)
    requires
        from <= to <= bs@.len(),
    ensures
        r is Some <==> unsigned_ok(bs@.subrange(from as int, to as int)) && unsigned_value(
            bs@.subrange(from as int, to as int),
        ) <= usize::MAX,
        r matches Some(v) ==> v == unsigned_value(bs@.subrange(from as int, to as int)),
{
    let ghost sub = bs@.subrange(from as int, to as int);
    let skip_sign: usize = if to > from && bs[from] == 43 {
        1
    } else {
        0
    };
    let ghost ds = digits_of(sub);
    proof {
        assert(ds =~= sub.skip(skip_sign as int));
    }
    if to - from == skip_sign {
        return None;
    }

    let mut value: usize = 0;
    let mut i: usize = from + skip_sign;
    while i < to
        invariant
            from + skip_sign <= i <= to <= bs@.len(),
            skip_sign <= 1,
            sub == bs@.subrange(from as int, to as int),
            ds == sub.skip(skip_sign as int),
            ds == digits_of(sub),
            forall|j: int| 0 <= j < i - from - skip_sign ==> is_digit(#[trigger] ds[j]),
            value == digits_value(ds, i - from - skip_sign),
        decreases to - i,
    {
        let b = bs[i];
        if b < 48 || b > 57 {
            proof {
                assert(ds[i - from - skip_sign] == b);
                assert(!unsigned_ok(sub));
            }
            return None;
        }
        let d = (b - 48) as usize;
        proof {
            lemma_digits_value_nonneg(ds, i - from - skip_sign);
        }
        if value > (usize::MAX - d) / 10 {
            // The number has already outgrown the machine; the digits
            // still to come can only make it larger.
            proof {
                let m = usize::MAX as int;
                vstd::arithmetic::div_mod::lemma_fundamental_div_mod(m - d, 10);
                vstd::arithmetic::div_mod::lemma_mod_bound(m - d, 10);
                assert(value * 10 + d > m) by (nonlinear_arith)
                    requires
                        value > (m - d) / 10,
                        m - d == 10 * ((m - d) / 10) + (m - d) % 10,
                        0 <= (m - d) % 10 < 10,
                        0 <= d <= 9,
                ;
                if unsigned_ok(sub) {
                    assert forall|j: int| 0 <= j < ds.len() implies is_digit(#[trigger] ds[j]) by {
                        assert(is_digit(digits_of(sub)[j]));
                    }
                    lemma_digits_value_monotonic(ds, i + 1 - from - skip_sign, ds.len() as int);
                    assert(unsigned_value(sub) > usize::MAX);
                }
            }
            return None;
        }
        value = value * 10 + d;
        i = i + 1;
    }

    proof {
        assert(i - from - skip_sign == ds.len());
    }
    Some(value)
}

/// Whether the bytes split at `p` into WIDTHxHEIGHT: the first `x` sits at
/// `p`, and both sides write numbers no larger than `max`.
pub open spec fn dims_split_ok(bs: Seq<u8>, p: int, max: int) -> bool {
    &&& 0 <= p < bs.len()
    &&& bs[p] == 120
    &&& forall|q: int| 0 <= q < p ==> bs[q] != 120
    &&& unsigned_ok(bs.take(p))
    &&& unsigned_value(bs.take(p)) <= max
    &&& unsigned_ok(bs.skip(p + 1))
    &&& unsigned_value(bs.skip(p + 1)) <= max
}

/// Whether the bytes write WIDTHxHEIGHT with both sides at most `max`.
pub open spec fn dims_ok(bs: Seq<u8>, max: int) -> bool {
    exists|p: int| dims_split_ok(bs, p, max)
}

} // verus!
