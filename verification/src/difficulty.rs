//! Scoring of a block hash: how many leading zero hex digits it has, and the value of the
//! four hex digits that follow them.
use vstd::prelude::*;

verus! {

/// Index of the first non-zero byte of `h`, or `h.len()` when every byte is zero.
pub open spec fn first_nonzero(h: Seq<u8>) -> int
    decreases h.len(),
{
    if h.len() == 0 {
        0
    } else if h[0] != 0 {
        0
    } else {
        1 + first_nonzero(h.drop_first())
    }
}

/// Number of leading `0` hex digits of `h`, written high nibble first.
pub open spec fn leading_zero_digits(h: Seq<u8>) -> nat {
    let k = first_nonzero(h);
    if k < h.len() && h[k] < 16 {
        (2 * k + 1) as nat
    } else {
        (2 * k) as nat
    }
}

/// Whether the bytes that the difficulty reads after the leading zeros lie inside `h`
/// (always the case when `h` is all zeros).
pub open spec fn difficulty_defined(h: Seq<u8>) -> bool {
    let k = first_nonzero(h);
    k == h.len() || (h[k] < 16 && k + 2 < h.len()) || (h[k] >= 16 && k + 1 < h.len())
}

/// The number formed by the four hex digits that follow the leading zero digits of `h`
/// (`0` when `h` is all zeros).
pub open spec fn difficulty_window(h: Seq<u8>) -> nat {
    let k = first_nonzero(h);
    if k == h.len() {
        0
    } else if h[k] < 16 {
        (h[k] * 4096 + h[k + 1] * 16 + h[k + 2] / 16) as nat
    } else {
        (h[k] * 256 + h[k + 1]) as nat
    }
}

/// The `i`-th hex digit of `h`, high nibble of each byte first.
pub open spec fn nibble(h: Seq<u8>, i: int) -> nat {
    if i % 2 == 0 {
        (h[i / 2] / 16) as nat
    } else {
        (h[i / 2] % 16) as nat
    }
}

/// The number spelled by the hex digits `z .. z + 4` of `h`.
pub open spec fn hex_window(h: Seq<u8>, z: int) -> nat {
    4096 * nibble(h, z) + 256 * nibble(h, z + 1) + 16 * nibble(h, z + 2) + nibble(h, z + 3)
}

/// A found hash beats the miner's target: more leading zero digits than asked for, or as
/// many and a smaller difficulty number.
pub open spec fn meets_target(
    zeroes: nat,
    difficulty: nat,
    expected_zeroes: nat,
    expected_diff: nat,
) -> bool {
    zeroes > expected_zeroes || (zeroes == expected_zeroes && difficulty < expected_diff)
}

/// `a` is not above `b` when both are read as big-endian numbers of the same width.
pub open spec fn not_above(a: Seq<u8>, b: Seq<u8>) -> bool {
    a.len() == b.len() && (a =~= b || exists|i: int|
        0 <= i < a.len() && a[i] < b[i] && forall|j: int| 0 <= j < i ==> #[trigger] a[j] == b[j])
}

/// The score of `a` is at least as good as that of `b`.
pub open spec fn scores_at_least(a: Seq<u8>, b: Seq<u8>) -> bool {
    leading_zero_digits(a) > leading_zero_digits(b) || (leading_zero_digits(a)
        == leading_zero_digits(b) && difficulty_window(a) <= difficulty_window(b))
}

/// `first_nonzero` is the first index that holds a non-zero byte.
pub proof fn lemma_first_nonzero(h: Seq<u8>)
    ensures
        0 <= first_nonzero(h) <= h.len(),
        forall|j: int| 0 <= j < first_nonzero(h) ==> h[j] == 0,
        first_nonzero(h) < h.len() ==> h[first_nonzero(h)] != 0,
    decreases h.len(),
{
    if h.len() > 0 && h[0] == 0 {
        let t = h.drop_first();
        lemma_first_nonzero(t);
        assert forall|j: int| 0 <= j < first_nonzero(h) implies h[j] == 0 by {
            if j > 0 {
                assert(h[j] == t[j - 1]);
            }
        }
    }
}

/// Any index before which all bytes are zero and at which a non-zero byte stands (or the end)
/// is `first_nonzero`.
pub proof fn lemma_first_nonzero_at(h: Seq<u8>, i: int)
    requires
        0 <= i <= h.len(),
        forall|j: int| 0 <= j < i ==> h[j] == 0,
        i < h.len() ==> h[i] != 0,
    ensures
        first_nonzero(h) == i,
    decreases h.len(),
{
    if h.len() > 0 && i > 0 {
        let t = h.drop_first();
        assert forall|j: int| 0 <= j < i - 1 implies t[j] == 0 by {
            assert(h[j + 1] == 0);
        }
        lemma_first_nonzero_at(t, i - 1);
    }
}

/// The score reads hex digits: every digit before `leading_zero_digits(h)` is `0`, the digit
/// at that position (if any) is not, the difficulty is defined exactly when the whole hash is
/// zero or four more digits follow, and then it is the number those four digits spell.
pub proof fn lemma_score_reads_hex_digits(h: Seq<u8>)
    ensures
        leading_zero_digits(h) <= 2 * h.len(),
        forall|i: int| 0 <= i < leading_zero_digits(h) ==> #[trigger] nibble(h, i) == 0,
        leading_zero_digits(h) < 2 * h.len() ==> nibble(h, leading_zero_digits(h) as int) != 0,
        difficulty_defined(h) <==> (leading_zero_digits(h) == 2 * h.len()
            || leading_zero_digits(h) + 4 <= 2 * h.len()),
        leading_zero_digits(h) + 4 <= 2 * h.len() ==> difficulty_window(h) == hex_window(
            h,
            leading_zero_digits(h) as int,
        ),
        leading_zero_digits(h) == 2 * h.len() ==> difficulty_window(h) == 0,
{
    lemma_first_nonzero(h);
    let k = first_nonzero(h);
    let z = leading_zero_digits(h) as int;
    assert forall|i: int| 0 <= i < z implies #[trigger] nibble(h, i) == 0 by {
        if i < 2 * k {
            assert(h[i / 2] == 0);
        } else {
            assert(i == 2 * k);
            assert(i / 2 == k);
        }
    }
    if k < h.len() {
        let b = h[k];
        if b < 16 {
            assert((2 * k + 1) / 2 == k);
            assert((2 * k + 2) / 2 == k + 1);
            assert((2 * k + 3) / 2 == k + 1);
            assert((2 * k + 4) / 2 == k + 2);
            assert(nibble(h, z) == b % 16);
            if z + 4 <= 2 * h.len() {
                let c = h[k + 1];
                let d = h[k + 2];
                assert(nibble(h, z + 1) == c / 16);
                assert(nibble(h, z + 2) == c % 16);
                assert(nibble(h, z + 3) == d / 16);
                assert(c == 16 * (c / 16) + c % 16);
            }
        } else {
            assert((2 * k) / 2 == k);
            assert((2 * k + 1) / 2 == k);
            assert((2 * k + 2) / 2 == k + 1);
            assert((2 * k + 3) / 2 == k + 1);
            assert(nibble(h, z) == b / 16);
            if z + 4 <= 2 * h.len() {
                let c = h[k + 1];
                assert(nibble(h, z + 1) == b % 16);
                assert(nibble(h, z + 2) == c / 16);
                assert(nibble(h, z + 3) == c % 16);
                assert(b == 16 * (b / 16) + b % 16);
                assert(c == 16 * (c / 16) + c % 16);
            }
        }
    }
}

/// A hash that is not above another one, read as big-endian numbers, scores at least as well;
/// so any target that the larger hash meets, the smaller one meets too.
pub proof fn lemma_lower_hash_scores_better(
    a: Seq<u8>,
    b: Seq<u8>,
    expected_zeroes: nat,
    expected_diff: nat,
)
    requires
        not_above(a, b),
        difficulty_defined(a),
        difficulty_defined(b),
    ensures
        scores_at_least(a, b),
        meets_target(
            leading_zero_digits(b),
            difficulty_window(b),
            expected_zeroes,
            expected_diff,
        ) ==> meets_target(
            leading_zero_digits(a),
            difficulty_window(a),
            expected_zeroes,
            expected_diff,
        ),
{
    lemma_first_nonzero(a);
    lemma_first_nonzero(b);
    let ka = first_nonzero(a);
    let kb = first_nonzero(b);
    if a =~= b {
        assert(a == b);
    } else {
        let i = choose|i: int|
            0 <= i < a.len() && a[i] < b[i] && forall|j: int|
                0 <= j < i ==> #[trigger] a[j] == b[j];
        assert(i >= kb) by {
            if i < kb {
                assert(b[i] == 0);
            }
        }
        if ka > kb {
            assert(a[kb] == 0);
        } else {
            assert(ka == kb) by {
                if ka < kb {
                    assert(a[ka] == b[ka]);
                }
            }
            let k = ka;
            if i == k {
                let x = a[k];
                let y = b[k];
                if x < 16 && y < 16 {
                    let p = a[k + 1];
                    let q = a[k + 2];
                    assert(x * 4096 + p * 16 + q / 16 < (x + 1) * 4096);
                } else if x >= 16 {
                    let p = a[k + 1];
                    assert(x * 256 + p < (x + 1) * 256);
                }
            } else {
                assert(a[k] == b[k]);
                if a[k] < 16 {
                    if i == k + 1 {
                        assert(a[k + 2] / 16 < 16);
                        assert(b[k + 2] / 16 >= 0);
                    } else if i == k + 2 {
                        assert(a[k + 1] == b[k + 1]);
                        assert(a[k + 2] / 16 <= b[k + 2] / 16);
                    } else {
                        assert(a[k + 1] == b[k + 1]);
                        assert(a[k + 2] == b[k + 2]);
                    }
                } else {
                    if i > k + 1 {
                        assert(a[k + 1] == b[k + 1]);
                    }
                }
            }
        }
    }
}

/// The score is a function of the hash bytes alone: equal byte strings get the same zero
/// count, the same difficulty, and the same verdict on whether the difficulty can be read.
pub proof fn lemma_score_depends_on_bytes_only(a: Seq<u8>, b: Seq<u8>)
    requires
        a =~= b,
    ensures
        leading_zero_digits(a) == leading_zero_digits(b),
        difficulty_window(a) == difficulty_window(b),
        difficulty_defined(a) == difficulty_defined(b),
{
}

/// Reads the proof-of-work score of a 32-byte hash: the number of leading zero hex digits and
/// the value of the four hex digits after them.
pub fn get_difficulty(hash: &[u8]) -> (r: (u8, u128))
    requires
        hash@.len() == 32,
        difficulty_defined(hash@),
    ensures
        r.0 == leading_zero_digits(hash@),
        r.1 == difficulty_window(hash@),
{
    let mut leading_zeros: u8 = 0;
    let mut difficulty_number: u128 = 0;
    let mut indx: usize = 0;
    while indx < hash.len()
        invariant
            hash@.len() == 32,
            difficulty_defined(hash@),
            indx <= 32,
            forall|j: int| 0 <= j < indx ==> hash@[j] == 0,
            leading_zeros == 2 * indx,
            difficulty_number == 0,
        decreases 32 - indx,
    {
        let chr = hash[indx];
        if chr == 0 {
            leading_zeros = leading_zeros + 2;
        } else {
            proof {
                lemma_first_nonzero_at(hash@, indx as int);
            }
            assert((chr & 0xF0 == 0) == (chr < 16)) by (bit_vector);
            assert((chr & 0x0F == chr) == (chr < 16)) by (bit_vector);
            if chr & 0xF0 == 0 {
                leading_zeros = leading_zeros + 1;
            }
            if chr & 0x0F == chr {
                difficulty_number = difficulty_number + (chr as u128) * 4096;
                difficulty_number = difficulty_number + (hash[indx + 1] as u128) * 16;
                difficulty_number = difficulty_number + (hash[indx + 2] as u128) / 16;
            } else {
                difficulty_number = difficulty_number + (chr as u128) * 256;
                difficulty_number = difficulty_number + hash[indx + 1] as u128;
            }
            return (leading_zeros, difficulty_number);
        }
        indx = indx + 1;
    }
    proof {
        lemma_first_nonzero_at(hash@, 32);
    }
    (leading_zeros, difficulty_number)
}

/// The verdict on a 32-byte digest against the miner's target.
#[derive(Debug, Clone, Copy, PartialEq, Eq, Structural)]
pub enum DigestScore {
    /// The digest's first non-zero byte sits so near its end that the difficulty digits run
    /// past it; the score cannot be read.
    Unscorable,
    /// The score, and whether it meets the target.
    Scored { zeroes: u8, difficulty: u128, solution: bool },
}

/// Index of the first non-zero byte of `hash`, or its length when all bytes are zero.
pub fn first_nonzero_index(hash: &[u8]) -> (k: usize)
    ensures
        k == first_nonzero(hash@),
{
    let mut i: usize = 0;
    while i < hash.len()
        invariant
            i <= hash@.len(),
            forall|j: int| 0 <= j < i ==> hash@[j] == 0,
        decreases hash@.len() - i,
    {
        if hash[i] != 0 {
            proof {
                lemma_first_nonzero_at(hash@, i as int);
            }
            return i;
        }
        i = i + 1;
    }
    proof {
        lemma_first_nonzero_at(hash@, i as int);
    }
    i
}

/// The target test ranks a score first by its zero count, then by its difficulty: more zero
/// digits than asked always pass, fewer never do, and with exactly as many the difficulty must
/// lie strictly below the bound, taken as it is.
pub proof fn lemma_target_test(zeroes: nat, difficulty: nat, expected_zeroes: nat, expected_diff: nat)
    ensures
        zeroes > expected_zeroes ==> meets_target(zeroes, difficulty, expected_zeroes, expected_diff),
        zeroes < expected_zeroes ==> !meets_target(zeroes, difficulty, expected_zeroes, expected_diff),
        zeroes == expected_zeroes ==> (meets_target(zeroes, difficulty, expected_zeroes, expected_diff)
            <==> difficulty < expected_diff),
{
}

/// With as many zero digits as asked, the loosest bound that still rejects a difficulty is the
/// difficulty itself, and one more accepts it; a larger bound accepts whatever a smaller one does.
pub proof fn lemma_difficulty_bound_is_exact(zeroes: nat, difficulty: nat, bound: nat, larger: nat)
    requires
        bound <= larger,
    ensures
        !meets_target(zeroes, difficulty, zeroes, difficulty),
        meets_target(zeroes, difficulty, zeroes, difficulty + 1),
        meets_target(zeroes, difficulty, zeroes, bound) ==> meets_target(
            zeroes,
            difficulty,
            zeroes,
            larger,
        ),
{
}

/// Scores a 32-byte digest and decides whether it is a solution for a worker that looks for
/// `expected_zeroes` leading zero digits and a difficulty below `expected_diff`.
pub fn score_digest(digest: &[u8], expected_zeroes: u8, expected_diff: u8) -> (r: DigestScore)
    requires
        digest@.len() == 32,
    ensures
        match r {
            DigestScore::Unscorable => !difficulty_defined(digest@),
            DigestScore::Scored { zeroes, difficulty, solution } => {
                &&& difficulty_defined(digest@)
                &&& zeroes == leading_zero_digits(digest@)
                &&& difficulty == difficulty_window(digest@)
                &&& solution == meets_target(
                    zeroes as nat,
                    difficulty as nat,
                    expected_zeroes as nat,
                    expected_diff as nat,
                )
                &&& zeroes > expected_zeroes ==> solution
                &&& zeroes < expected_zeroes ==> !solution
                &&& zeroes == expected_zeroes ==> (solution <==> difficulty < expected_diff as u128)
            },
        },
{
    let k = first_nonzero_index(digest);
    proof {
        lemma_first_nonzero(digest@);
    }
    let defined = k == digest.len() || (digest[k] < 16 && k + 2 < digest.len()) || (digest[k]
        >= 16 && k + 1 < digest.len());
    if !defined {
        return DigestScore::Unscorable;
    }
    let (zeroes, difficulty) = get_difficulty(digest);
    let solution = zeroes > expected_zeroes || (zeroes == expected_zeroes && difficulty
        < expected_diff as u128);
    DigestScore::Scored { zeroes, difficulty, solution }
}

} // verus!
