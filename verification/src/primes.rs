//! Prime-counting kernel used by the single-thread CPU stress test.
//!
//! Primality is decided by trial division by odd candidates up to the square
//! root; the count of primes up to a bound is its repeated application.

use vstd::prelude::*;
use vstd::arithmetic::div_mod::{lemma_fundamental_div_mod, lemma_mod_multiples_basic};

verus! {

/// A number is prime when it is at least 2 and no smaller number above 1
/// divides it.
pub open spec fn is_prime_spec(n: int) -> bool {
    n >= 2 && forall|d: int| 2 <= d < n ==> #[trigger] (n % d) != 0
}

/// The count of primes in the range `2..=limit`.
pub open spec fn prime_count_spec(limit: int) -> int
    decreases limit,
{
    if limit < 2 {
        0
    } else {
        prime_count_spec(limit - 1) + if is_prime_spec(limit) {
            1int
        } else {
            0int
        }
    }
}

/// If an even number divides `n`, then so does 2.
proof fn lemma_even_divisor_implies_even(n: int, d: int)
    requires
        n >= 2,
        d >= 2,
        d % 2 == 0,
        n % d == 0,
    ensures
        n % 2 == 0,
{
    lemma_fundamental_div_mod(n, d);
    lemma_fundamental_div_mod(d, 2);
    let k = n / d;
    let m = d / 2;
    assert(n == 2 * (m * k)) by (nonlinear_arith)
        requires
            n == d * k,
            d == 2 * m,
    ;
    lemma_mod_multiples_basic(m * k, 2);
}

/// If `d` divides `n`, the complementary factor `n / d` divides `n` as well.
proof fn lemma_cofactor_divides(n: int, d: int)
    requires
        n >= 2,
        2 <= d < n,
        n % d == 0,
    ensures
        2 <= n / d < n,
        n % (n / d) == 0,
        d * (n / d) == n,
{
    lemma_fundamental_div_mod(n, d);
    let k = n / d;
    assert(n == d * k);
    assert(k >= 2 && k < n) by (nonlinear_arith)
        requires
            n == d * k,
            2 <= d < n,
            n >= 2,
    ;
    lemma_mod_multiples_basic(d, k);
    assert((d * k) % k == 0);
}

/// After trial division has ruled out every candidate below `i`, and `i * i`
/// exceeds `n`, no proper divisor of `n` remains at all.
proof fn lemma_no_small_divisor_suffices(n: int, i: int)
    requires
        n >= 2,
        i >= 2,
        i * i > n,
        forall|d: int| 2 <= d < i ==> #[trigger] (n % d) != 0,
    ensures
        is_prime_spec(n),
{
    assert forall|d: int| 2 <= d < n implies #[trigger] (n % d) != 0 by {
        if n % d == 0 {
            if d < i {
            } else {
                lemma_cofactor_divides(n, d);
                let k = n / d;
                assert(k < i) by (nonlinear_arith)
                    requires
                        d * k == n,
                        d >= i,
                        i * i > n,
                        k >= 2,
                        i >= 2,
                ;
            }
        }
    }
}

/// Basic facts of primality: nothing below 2 is prime, 2 is prime, and no
/// even number above 2 is.
pub proof fn lemma_is_prime_basic(n: int)
    ensures
        n < 2 ==> !is_prime_spec(n),
        is_prime_spec(2),
        n > 2 && n % 2 == 0 ==> !is_prime_spec(n),
{
    if n > 2 && n % 2 == 0 {
        assert(n % 2 == 0);
    }
}

/// Decides primality of `n` by trial division by 2 and by the odd candidates
/// whose square does not exceed `n`.
pub fn is_prime(n: u64) -> (r: bool)
    ensures
        r == is_prime_spec(n as int),
{
    if n < 2 {
        return false;
    }
    if n == 2 {
        return true;
    }
    if n % 2 == 0 {
        assert(!is_prime_spec(n as int));
        return false;
    }

    let mut i: u64 = 3;
    // `i <= n / i` is the overflow-free form of `i * i <= n`.
    while i <= n / i
        invariant
            3 <= i <= n + 2,
            i % 2 == 1,
            n % 2 != 0,
            n > 2,
            forall|d: int| 2 <= d < i ==> #[trigger] ((n as int) % d) != 0,
        decreases n - i,
    {
        proof {
            lemma_fundamental_div_mod(n as int, i as int);
        }
        assert((i as int) * (i as int) <= n as int) by (nonlinear_arith)
            requires
                i <= n / i,
                i >= 3,
                (n as int) == (i as int) * ((n as int) / (i as int)) + (n as int) % (i as int),
                0 <= (n as int) % (i as int) < i as int,
        ;
        assert(i < n) by (nonlinear_arith)
            requires
                (i as int) * (i as int) <= (n as int),
                i >= 3,
        ;
        if n % i == 0 {
            assert((n as int) % (i as int) == 0);
            assert(!is_prime_spec(n as int));
            return false;
        }
        proof {
            // The skipped even candidate i + 1 cannot divide the odd n.
            if (n as int) % (i + 1) == 0 {
                lemma_even_divisor_implies_even(n as int, i + 1);
            }
        }
        i = i + 2;
    }
    proof {
        lemma_fundamental_div_mod(n as int, i as int);
        assert((i as int) * (i as int) > n as int) by (nonlinear_arith)
            requires
                i > n / i,
                i >= 3,
                (n as int) == (i as int) * ((n as int) / (i as int)) + (n as int) % (i as int),
                0 <= (n as int) % (i as int) < i as int,
        ;
        lemma_no_small_divisor_suffices(n as int, i as int);
    }
    true
}

/// Counts the primes in `2..=limit`.
pub fn count_primes_up_to(limit: u64) -> (r: u64)
    ensures
        r == prime_count_spec(limit as int),
{
    let mut count: u64 = 0;
    let mut num: u64 = 2;
    if limit < 2 {
        return 0;
    }
    while num < limit
        invariant
            2 <= num <= limit,
            count == prime_count_spec(num - 1),
            count < num,
        decreases limit - num,
    {
        if is_prime(num) {
            count = count + 1;
        }
        num = num + 1;
    }
    if is_prime(limit) {
        count = count + 1;
    }
    count
}

} // verus!
