//! The extra-nonce counter that a worker walks through while it searches.
use vstd::prelude::*;

verus! {

/// `256` raised to the power `n`.
pub open spec fn pow256(n: nat) -> nat
    decreases n,
{
    if n == 0 {
        1
    } else {
        256 * pow256((n - 1) as nat)
    }
}

/// The number that a byte string spells in little-endian order (first byte least significant).
pub open spec fn le_value(s: Seq<u8>) -> nat
    decreases s.len(),
{
    if s.len() == 0 {
        0
    } else {
        s[0] as nat + 256 * le_value(s.drop_first())
    }
}

/// A little-endian value of `n` bytes is below `256^n`.
pub proof fn lemma_le_value_bound(s: Seq<u8>)
    ensures
        le_value(s) < pow256(s.len()),
    decreases s.len(),
{
    if s.len() > 0 {
        let rest = s.drop_first();
        lemma_le_value_bound(rest);
        let r = le_value(rest);
        let p = pow256(rest.len());
        assert(s[0] as nat + 256 * r < 256 * p) by (nonlinear_arith)
            requires
                s[0] < 256,
                r < p,
        ;
    }
}

/// Splitting a byte string at `k` splits its little-endian value.
pub proof fn lemma_le_value_split(s: Seq<u8>, k: int)
    requires
        0 <= k <= s.len(),
    ensures
        le_value(s) == le_value(s.take(k)) + pow256(k as nat) * le_value(s.skip(k)),
    decreases k,
{
    if k == 0 {
        assert(s.skip(0) =~= s);
        assert(le_value(s.take(0)) == 0);
        assert(pow256(0) == 1);
        let v = le_value(s);
        assert(pow256(0) * v == v) by (nonlinear_arith)
            requires
                pow256(0) == 1,
        ;
    } else {
        let rest = s.drop_first();
        lemma_le_value_split(rest, k - 1);
        assert(s.take(k).drop_first() =~= rest.take(k - 1));
        assert(s.skip(k) =~= rest.skip(k - 1));
        let a = le_value(rest.take(k - 1));
        let b = le_value(rest.skip(k - 1));
        let p = pow256((k - 1) as nat);
        assert(s.take(k)[0] == s[0]);
        assert(le_value(s.take(k)) == s[0] as nat + 256 * a);
        assert(le_value(s) == s[0] as nat + 256 * (a + p * b));
        assert(pow256(k as nat) == 256 * p);
        assert(256 * (a + p * b) == 256 * a + (256 * p) * b) by (nonlinear_arith);
        assert(le_value(s) == le_value(s.take(k)) + pow256(k as nat) * b);
    }
}

/// A byte string made only of `0xff` spells `256^n - 1`.
pub proof fn lemma_le_value_all_max(s: Seq<u8>)
    requires
        forall|j: int| 0 <= j < s.len() ==> s[j] == 255,
    ensures
        le_value(s) + 1 == pow256(s.len()),
    decreases s.len(),
{
    if s.len() > 0 {
        lemma_le_value_all_max(s.drop_first());
    }
}

/// A byte string made only of zeros spells `0`.
pub proof fn lemma_le_value_all_zero(s: Seq<u8>)
    requires
        forall|j: int| 0 <= j < s.len() ==> s[j] == 0,
    ensures
        le_value(s) == 0,
    decreases s.len(),
{
    if s.len() > 0 {
        lemma_le_value_all_zero(s.drop_first());
    }
}

/// The carry pattern of an increment adds one to the little-endian value.
proof fn lemma_carry_adds_one(old: Seq<u8>, new: Seq<u8>, k: int)
    requires
        old.len() == new.len(),
        0 <= k < old.len(),
        old[k] < 255,
        new[k] == old[k] + 1,
        forall|j: int| 0 <= j < k ==> old[j] == 255 && new[j] == 0,
        forall|j: int| k < j < old.len() ==> new[j] == old[j],
    ensures
        le_value(new) == le_value(old) + 1,
{
    lemma_le_value_split(old, k);
    lemma_le_value_split(new, k);
    lemma_le_value_all_max(old.take(k));
    lemma_le_value_all_zero(new.take(k));
    let ro = old.skip(k);
    let rn = new.skip(k);
    assert(ro.drop_first() =~= rn.drop_first());
    let tail = le_value(ro.drop_first());
    let p = pow256(k as nat);
    assert(le_value(ro) == old[k] as nat + 256 * tail);
    assert(le_value(rn) == old[k] as nat + 1 + 256 * tail);
    assert(p * (old[k] as nat + 1 + 256 * tail) == p * (old[k] as nat + 256 * tail) + p)
        by (nonlinear_arith);
}

/// `b` is what `increment_u8_array` makes of `a`.
pub open spec fn is_increment(a: Seq<u8>, b: Seq<u8>) -> bool {
    b.len() == a.len() && le_value(b) == (le_value(a) + 1) % pow256(a.len())
}

proof fn lemma_pow256_positive(n: nat)
    ensures
        pow256(n) >= 1,
    decreases n,
{
    if n > 0 {
        lemma_pow256_positive((n - 1) as nat);
    }
}

/// Two byte strings of one length with the same little-endian value are equal.
pub proof fn lemma_le_value_injective(a: Seq<u8>, b: Seq<u8>)
    requires
        a.len() == b.len(),
        le_value(a) == le_value(b),
    ensures
        a == b,
    decreases a.len(),
{
    if a.len() > 0 {
        let ra = le_value(a.drop_first());
        let rb = le_value(b.drop_first());
        let x = a[0] as int;
        let y = b[0] as int;
        assert(x == y && ra == rb) by (nonlinear_arith)
            requires
                0 <= x < 256,
                0 <= y < 256,
                ra >= 0,
                rb >= 0,
                x + 256 * ra == y + 256 * rb,
        ;
        lemma_le_value_injective(a.drop_first(), b.drop_first());
        assert(a =~= b) by {
            assert forall|i: int| 0 <= i < a.len() implies a[i] == b[i] by {
                if i > 0 {
                    assert(a[i] == a.drop_first()[i - 1]);
                    assert(b[i] == b.drop_first()[i - 1]);
                }
            }
        }
    }
}

proof fn lemma_mod_step(x: int, m: int)
    requires
        x >= 0,
        m >= 1,
    ensures
        ((x % m) + 1) % m == (x + 1) % m,
{
    vstd::arithmetic::div_mod::lemma_add_mod_noop(x, 1, m);
    if m > 1 {
        vstd::arithmetic::div_mod::lemma_small_mod(1, m as nat);
    } else {
        assert((x % m) == 0);
        assert(((x % m) + 1) % m == 0);
        assert((x + 1) % m == 0);
    }
}

proof fn lemma_offset_mod_returns(a: int, k: int, m: int)
    requires
        0 <= a < m,
        k >= 0,
    ensures
        (a + k) % m == a <==> k % m == 0,
{
    vstd::arithmetic::div_mod::lemma_add_mod_noop(a, k, m);
    vstd::arithmetic::div_mod::lemma_small_mod(a as nat, m as nat);
    let r = k % m;
    assert(0 <= r < m);
    if a + r < m {
        vstd::arithmetic::div_mod::lemma_small_mod((a + r) as nat, m as nat);
    } else {
        vstd::arithmetic::div_mod::lemma_mod_sub_multiples_vanish(a + r, m);
        vstd::arithmetic::div_mod::lemma_small_mod((a + r - m) as nat, m as nat);
    }
}

/// Repeated increments count: after `k` increments of a nonce of `n` bytes its little-endian
/// value has grown by `k` modulo `256^n`, so it comes back to its start exactly when `k` is a
/// multiple of `256^n`, and no value repeats within `256^n` increments.
pub proof fn lemma_increments_count(xs: Seq<Seq<u8>>)
    requires
        xs.len() >= 1,
        forall|i: int| 0 <= i < xs.len() - 1 ==> is_increment(#[trigger] xs[i], xs[i + 1]),
    ensures
        forall|k: int|
            0 <= k < xs.len() ==> (#[trigger] xs[k]).len() == xs[0].len() && le_value(xs[k]) == (
            le_value(xs[0]) + k) % (pow256(xs[0].len()) as int),
        forall|k: int| 0 <= k < xs.len() ==> (#[trigger] xs[k] == xs[0] <==> k % (pow256(xs[0].len()) as int) == 0),
    decreases xs.len(),
{
    let n = xs[0].len();
    let m = pow256(n) as int;
    lemma_pow256_positive(n);
    lemma_le_value_bound(xs[0]);
    vstd::arithmetic::div_mod::lemma_small_mod(le_value(xs[0]), m as nat);
    if xs.len() > 1 {
        let prefix = xs.drop_last();
        assert forall|i: int| 0 <= i < prefix.len() - 1 implies is_increment(#[trigger] prefix[i], prefix[i + 1]) by {
            assert(prefix[i] == xs[i] && prefix[i + 1] == xs[i + 1]);
        }
        lemma_increments_count(prefix);
        let last = xs.len() - 1;
        assert(prefix[last - 1] == xs[last - 1]);
        assert(is_increment(xs[last - 1], xs[last]));
        lemma_mod_step(le_value(xs[0]) + last - 1, m);
        assert forall|k: int| 0 <= k < xs.len() implies (#[trigger] xs[k]).len() == n && le_value(xs[k]) == (
            le_value(xs[0]) + k) % m by {
            if k < last {
                assert(prefix[k] == xs[k]);
            }
        }
    }
    assert forall|k: int| 0 <= k < xs.len() implies (#[trigger] xs[k] == xs[0] <==> k % m == 0) by {
        assert(xs[k].len() == n && le_value(xs[k]) == (le_value(xs[0]) + k) % m);
        lemma_offset_mod_returns(le_value(xs[0]) as int, k, m);
        if le_value(xs[k]) == le_value(xs[0]) {
            lemma_le_value_injective(xs[k], xs[0]);
        }
    }
}

/// Advances the nonce `x` by one, read as a little-endian counter that wraps to all zeros
/// after all `0xff`.
pub fn increment_u8_array(x: &mut [u8])
    ensures
        final(x)@.len() == old(x)@.len(),
        le_value(final(x)@) == (le_value(old(x)@) + 1) % pow256(old(x)@.len()),
{
    let n = x.len();
    let ghost start = x@;
    let mut i: usize = 0;
    while i < n
        invariant
            n == x@.len(),
            start == old(x)@,
            start.len() == n,
            0 <= i <= n,
            forall|j: int| 0 <= j < i ==> start[j] == 255 && x@[j] == 0,
            forall|j: int| i <= j < n ==> x@[j] == start[j],
        decreases n - i,
    {
        if x[i] == 255 {
            x[i] = 0;
        } else {
            x[i] = x[i] + 1;
            proof {
                lemma_carry_adds_one(start, x@, i as int);
                lemma_le_value_bound(x@);
                vstd::arithmetic::div_mod::lemma_small_mod(le_value(x@), pow256(n as nat));
            }
            return;
        }
        i = i + 1;
    }
    proof {
        assert forall|j: int| 0 <= j < n implies #[trigger] x@[j] == 0 by {
            assert(start[j] == 255);
        }
        assert forall|j: int| 0 <= j < n implies #[trigger] start[j] == 255 by {
            assert(x@[j] == 0);
        }
        lemma_le_value_all_max(start);
        lemma_le_value_all_zero(x@);
        vstd::arithmetic::div_mod::lemma_mod_self_0(pow256(n as nat) as int);
    }
}

} // verus!
