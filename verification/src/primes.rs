use vstd::prelude::*;

use vstd::arithmetic::div_mod::{
    lemma_fundamental_div_mod, lemma_fundamental_div_mod_converse_mod, lemma_mod_multiples_basic,
};

verus! {

/// Whether `n` is prime: at least two, and divided evenly by nothing
/// between one and itself.
pub open spec fn is_prime_spec(n: int) -> bool {
    n >= 2 && forall|d: int| 2 <= d < n ==> #[trigger] (n % d) != 0
}

/// A divisor of a divisor divides: if `d` divides `n` and `p` divides `d`,
/// then `p` divides `n`.
proof fn lemma_divisor_transfer(n: int, d: int, p: int)
    requires
        n >= 1,
        d >= 1,
        p >= 1,
        n % d == 0,
        d % p == 0,
    ensures
        n % p == 0,
{
    let q = n / d;
    let e = d / p;
    lemma_fundamental_div_mod(n, d);
    lemma_fundamental_div_mod(d, p);
    assert(n == (e * q) * p) by (nonlinear_arith)
        requires
            n == d * q,
            d == p * e,
    ;
    lemma_mod_multiples_basic(e * q, p);
}

/// A composite number has a divisor no larger than its square root: where
/// some divisor exists, one with `d * d <= n` exists.
proof fn lemma_small_factor(n: int)
    requires
        n >= 2,
        !is_prime_spec(n),
    ensures
        exists|d: int| 2 <= d && d * d <= n && #[trigger] (n % d) == 0,
{
    let d = choose|d: int| 2 <= d < n && #[trigger] (n % d) == 0;
    let q = n / d;
    lemma_fundamental_div_mod(n, d);
    assert(n == d * q);
    assert(q >= 2) by (nonlinear_arith)
        requires
            n == d * q,
            2 <= d < n,
            n >= 2,
    ;
    assert(q < n) by (nonlinear_arith)
        requires
            n == d * q,
            d >= 2,
            q >= 2,
    ;
    assert(n == q * d + 0) by (nonlinear_arith)
        requires n == d * q;
    lemma_fundamental_div_mod_converse_mod(n, q, d, 0);
    if d * d <= n {
        assert(2 <= d && d * d <= n && n % d == 0);
    } else {
        assert(q * q <= n) by (nonlinear_arith)
            requires
                n == d * q,
                d * d > n,
                d >= 2,
                q >= 2,
        ;
        assert(2 <= q && q * q <= n && n % q == 0);
    }
}

/// A generator of the prime numbers, one at a time.
#[derive(Debug, Default)]
pub struct Optimus {
    pub counter: u64,
}

impl Optimus {
    /// Whether `n` is prime, decided by trial division in the 6k±1 wheel:
    /// after two and three, every prime sits next to a multiple of six.
    pub fn is_prime(n: u64) -> (r: bool)
        ensures
            r == is_prime_spec(n as int),
    {
        if n <= 3 {
            return n > 1;
        }
        if n % 2 == 0 || n % 3 == 0 {
            proof {
                if n % 2 == 0 {
                    assert(2 <= 2 < n && n as int % 2 == 0);
                } else {
                    assert(2 <= 3 < n && n as int % 3 == 0);
                }
            }
            return false;
        }

        proof {
            assert forall|d: int| 2 <= d < 5 implies #[trigger] (n as int % d) != 0 by {
                if d == 4 && n as int % 4 == 0 {
                    lemma_divisor_transfer(n as int, 4, 2);
                }
            }
        }
        let mut i: u64 = 5;
        // `i <= n / i` says `i * i <= n` without ever forming the square.
        while i <= n / i
            invariant
                n > 3,
                n % 2 != 0,
                n % 3 != 0,
                5 <= i,
                i % 6 == 5,
                forall|d: int| 2 <= d < i ==> #[trigger] (n as int % d) != 0,
            decreases n as int - i as int,
        {
            proof {
                lemma_fundamental_div_mod(n as int, i as int);
                vstd::arithmetic::div_mod::lemma_mod_bound(n as int, i as int);
                assert(i as int * i as int <= n) by (nonlinear_arith)
                    requires
                        i <= n as int / i as int,
                        n as int == (i as int) * (n as int / i as int) + n as int % (i as int),
                        n as int % (i as int) >= 0,
                        i >= 5,
                ;
                assert(i < n) by (nonlinear_arith)
                    requires
                        i as int * i as int <= n,
                        i >= 5,
                ;
                assert(i + 2 < n) by (nonlinear_arith)
                    requires
                        i as int * i as int <= n,
                        i >= 5,
                ;
            }
            if n % i == 0 {
                return false;
            }
            if n % (i + 2) == 0 {
                return false;
            }
            proof {
                // The four positions between the two checked candidates are
                // multiples of two or of three, which were ruled out first.
                assert forall|d: int| 2 <= d < i + 6 implies #[trigger] (n as int % d) != 0 by {
                    if d >= i {
                        if d == i || d == i + 2 {
                        } else if d == i + 4 {
                            assert(d % 3 == 0);
                            if n as int % d == 0 {
                                lemma_divisor_transfer(n as int, d, 3);
                            }
                        } else {
                            assert(d % 2 == 0);
                            if n as int % d == 0 {
                                lemma_divisor_transfer(n as int, d, 2);
                            }
                        }
                    }
                }
            }
            i = i + 6;
        }

        proof {
            lemma_fundamental_div_mod(n as int, i as int);
            vstd::arithmetic::div_mod::lemma_mod_bound(n as int, i as int);
            assert((i as int) * (i as int) > n) by (nonlinear_arith)
                requires
                    i > n as int / i as int,
                    n as int == (i as int) * (n as int / i as int) + n as int % (i as int),
                    0 <= n as int % (i as int) < i,
            ;
            if !is_prime_spec(n as int) {
                lemma_small_factor(n as int);
                let d = choose|d: int| 2 <= d && d * d <= n && #[trigger] (n as int % d) == 0;
                assert(d < i) by (nonlinear_arith)
                    requires
                        d * d <= n,
                        (i as int) * (i as int) > n,
                        d >= 2,
                        i >= 5,
                ;
                assert(false);
            }
        }
        true
    }

    /// The next prime strictly above the counter, which then remembers it.
    /// The caller vouches that some prime above the counter fits a `u64`,
    /// so the search cannot run off the end.
    pub fn next_prime(&mut self) -> (r: u64)
        requires
            exists|p: u64| old(self).counter < p && is_prime_spec(p as int),
        ensures
            is_prime_spec(r as int),
            old(self).counter < r,
            final(self).counter == r,
            forall|m: int| old(self).counter < m < r ==> !is_prime_spec(m),
    {
        let ghost bound = choose|p: u64| old(self).counter < p && is_prime_spec(p as int);
        self.counter = self.counter + 1;

        while !Self::is_prime(self.counter)
            invariant
                old(self).counter < self.counter <= bound,
                is_prime_spec(bound as int),
                forall|m: int| old(self).counter < m < self.counter ==> !is_prime_spec(m),
            decreases bound as int - self.counter as int,
        {
            proof {
                assert(self.counter < bound);
            }
            self.counter = self.counter + 1;
        }

        self.counter
    }
}

} // verus!
