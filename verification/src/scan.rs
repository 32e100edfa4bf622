use vstd::prelude::*;

verus! {

// ---------------------------------------------------------------------------
// Byte-level scanning: first occurrence of a subsequence, and maximal runs
// of ASCII decimal digits. These are the primitives of the response
// interpreter's deliberately permissive text scan.
// ---------------------------------------------------------------------------

/// An ASCII decimal digit byte (`'0'` through `'9'`).
pub open spec fn is_digit(b: u8) -> bool {
    48 <= b <= 57
}

/// `sub` occurs in `b` starting at position `i`.
pub open spec fn matches_at(b: Seq<u8>, sub: Seq<u8>, i: int) -> bool {
    0 <= i && i + sub.len() <= b.len() && b.subrange(i, i + sub.len() as int) == sub
}

/// The position of the first occurrence of `sub` in `b`, if there is one.
pub open spec fn find_first(b: Seq<u8>, sub: Seq<u8>) -> Option<int>
    decreases b.len(),
{
    if sub.len() == 0 {
        Some(0)
    } else if b.len() < sub.len() {
        None
    } else if b.subrange(0, sub.len() as int) == sub {
        Some(0)
    } else {
        match find_first(b.drop_first(), sub) {
            None => None,
            Some(i) => Some(i + 1),
        }
    }
}

/// Occurrences in the tail of `b` are occurrences of `b` one position later.
proof fn lemma_matches_at_shift(b: Seq<u8>, sub: Seq<u8>, i: int)
    requires
        b.len() >= 1,
        0 <= i,
    ensures
        matches_at(b, sub, i + 1) <==> matches_at(b.drop_first(), sub, i),
{
    if i + 1 + sub.len() <= b.len() {
        assert(b.drop_first().subrange(i, i + sub.len() as int) =~= b.subrange(
            i + 1,
            i + 1 + sub.len() as int,
        ));
    }
}

/// `find_first` returns the least position at which `sub` occurs, and `None`
/// exactly when `sub` occurs nowhere in `b`.
pub proof fn lemma_find_first_is_first(b: Seq<u8>, sub: Seq<u8>)
    ensures
        match find_first(b, sub) {
            Some(i) => matches_at(b, sub, i) && (forall|j: int|
                0 <= j < i ==> !matches_at(b, sub, j)),
            None => forall|j: int| !matches_at(b, sub, j),
        },
    decreases b.len(),
{
    if sub.len() == 0 {
        assert(b.subrange(0, 0) =~= sub);
        assert(matches_at(b, sub, 0));
    } else if b.len() < sub.len() {
    } else if b.subrange(0, sub.len() as int) == sub {
        assert(matches_at(b, sub, 0));
    } else {
        lemma_find_first_is_first(b.drop_first(), sub);
        match find_first(b.drop_first(), sub) {
            None => {
                assert forall|j: int| !matches_at(b, sub, j) by {
                    if j >= 1 {
                        lemma_matches_at_shift(b, sub, j - 1);
                    } else if j == 0 && matches_at(b, sub, 0) {
                        assert(b.subrange(0, sub.len() as int) == sub);
                    }
                }
            },
            Some(i) => {
                lemma_matches_at_shift(b, sub, i);
                assert(matches_at(b, sub, i + 1));
                assert forall|j: int| 0 <= j < i + 1 implies !matches_at(b, sub, j) by {
                    if j >= 1 {
                        lemma_matches_at_shift(b, sub, j - 1);
                    } else if j == 0 && matches_at(b, sub, 0) {
                        assert(b.subrange(0, sub.len() as int) == sub);
                    }
                }
            },
        }
    }
}

/// Compares `needle` against `hay` at position `at`.
fn match_at_exec(hay: &[u8], needle: &[u8], at: usize) -> (r: bool)
    requires
        at + needle@.len() <= hay@.len(),
    ensures
        r == matches_at(hay@, needle@, at as int),
{
    let n = needle.len();
    let m = hay.len();
    for j in 0..n
        invariant
            at + n <= m,
            m == hay@.len(),
            n == needle@.len(),
            forall|k: int| 0 <= k < j ==> hay@[at + k] == needle@[k],
    {
        if hay[at + j] != needle[j] {
            proof {
                if matches_at(hay@, needle@, at as int) {
                    assert(hay@.subrange(at as int, at + n as int)[j as int] == hay@[at + j]);
                }
            }
            return false;
        }
    }
    proof {
        assert(hay@.subrange(at as int, at + n as int) =~= needle@);
    }
    true
}

/// Finds the first occurrence of `needle` in `hay`.
pub fn find_sub(hay: &[u8], needle: &[u8]) -> (r: Option<usize>)
    ensures
        match r {
            Some(i) => find_first(hay@, needle@) == Some(i as int),
            None => find_first(hay@, needle@) is None,
        },
{
    let n = needle.len();
    let m = hay.len();
    if n > m {
        proof {
            lemma_find_first_is_first(hay@, needle@);
            if find_first(hay@, needle@) is Some {
                let i0 = find_first(hay@, needle@)->Some_0;
                assert(matches_at(hay@, needle@, i0));
            }
        }
        return None;
    }
    if n == 0 {
        return Some(0);
    }
    let last = m - n;
    let mut i: usize = 0;
    while i <= last
        invariant
            1 <= n <= m,
            last == m - n,
            m == hay@.len(),
            n == needle@.len(),
            i <= last + 1,
            forall|j: int| 0 <= j < i ==> !matches_at(hay@, needle@, j),
        decreases last + 1 - i,
    {
        if match_at_exec(hay, needle, i) {
            proof {
                lemma_find_first_is_first(hay@, needle@);
                match find_first(hay@, needle@) {
                    Some(i0) => {
                        assert(matches_at(hay@, needle@, i0));
                        assert(!(i0 < i));
                        assert(!(i0 > i));
                    },
                    None => {
                        assert(!matches_at(hay@, needle@, i as int));
                    },
                }
            }
            return Some(i);
        }
        i += 1;
    }
    proof {
        assert forall|j: int| !matches_at(hay@, needle@, j) by {
            if 0 <= j < i {
            } else if j >= i {
                assert(j + n > m);
            }
        }
        lemma_find_first_is_first(hay@, needle@);
        if find_first(hay@, needle@) is Some {
            let i0 = find_first(hay@, needle@)->Some_0;
            assert(!matches_at(hay@, needle@, i0));
        }
    }
    None
}

/// The length of the maximal run of digit bytes at the front of `b`.
pub open spec fn digit_run_len(b: Seq<u8>) -> int
    decreases b.len(),
{
    if b.len() == 0 || !is_digit(b[0]) {
        0
    } else {
        1 + digit_run_len(b.drop_first())
    }
}

/// The digit run is a well-formed prefix: every byte in it is a digit, and
/// the byte after it (if any) is not.
pub proof fn lemma_digit_run_len(b: Seq<u8>)
    ensures
        0 <= digit_run_len(b) <= b.len(),
        forall|k: int| 0 <= k < digit_run_len(b) ==> is_digit(b[k]),
        digit_run_len(b) < b.len() ==> !is_digit(b[digit_run_len(b)]),
    decreases b.len(),
{
    if b.len() == 0 || !is_digit(b[0]) {
    } else {
        lemma_digit_run_len(b.drop_first());
        assert forall|k: int| 0 <= k < digit_run_len(b) implies is_digit(b[k]) by {
            if k >= 1 {
                assert(is_digit(b.drop_first()[k - 1]));
            }
        }
        if digit_run_len(b) < b.len() {
            assert(b[digit_run_len(b)] == b.drop_first()[digit_run_len(b.drop_first())]);
        }
    }
}

/// The value of a sequence of digit bytes, most significant first.
pub open spec fn digits_value(b: Seq<u8>) -> int
    decreases b.len(),
{
    if b.len() == 0 {
        0
    } else {
        digits_value(b.drop_last()) * 10 + (b.last() - 48)
    }
}

/// A digit sequence has a non-negative value that only grows as the
/// sequence is extended to the right.
pub proof fn lemma_digits_value_grows(b: Seq<u8>, k: int)
    requires
        0 <= k <= b.len(),
        forall|j: int| 0 <= j < b.len() ==> is_digit(b[j]),
    ensures
        0 <= digits_value(b.subrange(0, k)) <= digits_value(b),
    decreases b.len() - k,
{
    if k == b.len() {
        assert(b.subrange(0, k) =~= b);
        lemma_digits_value_nonneg(b);
    } else {
        lemma_digits_value_grows(b, k + 1);
        let p = b.subrange(0, k + 1);
        assert(p.drop_last() =~= b.subrange(0, k));
        lemma_digits_value_nonneg(b.subrange(0, k));
        assert(digits_value(p) == digits_value(b.subrange(0, k)) * 10 + (p.last() - 48));
    }
}

/// The value of a digit sequence is non-negative.
pub proof fn lemma_digits_value_nonneg(b: Seq<u8>)
    requires
        forall|j: int| 0 <= j < b.len() ==> is_digit(b[j]),
    ensures
        digits_value(b) >= 0,
    decreases b.len(),
{
    if b.len() > 0 {
        lemma_digits_value_nonneg(b.drop_last());
    }
}

/// Parses the maximal digit run at the front of `b` as a `u64`: `None` if
/// there are no digits or the run's value does not fit.
pub fn parse_digit_run(b: &[u8]) -> (r: Option<u64>)
    ensures
        ({
            let n = digit_run_len(b@);
            let v = digits_value(b@.subrange(0, n));
            if n == 0 {
                r is None
            } else if v > u64::MAX {
                r is None
            } else {
                r == Some(v as u64)
            }
        }),
{
    let len = b.len();
    let mut n: usize = 0;
    while n < len && b[n] >= 48 && b[n] <= 57
        invariant
            len == b@.len(),
            n <= len,
            forall|k: int| 0 <= k < n ==> is_digit(b@[k]),
        decreases len - n,
    {
        n += 1;
    }
    proof {
        lemma_digit_run_len(b@);
        let d = digit_run_len(b@);
        assert(!(d < n));
        assert(!(d > n)) by {
            lemma_digit_run_len(b@);
            if d > n {
                assert(is_digit(b@[n as int]));
            }
        }
    }
    if n == 0 {
        return None;
    }
    let ghost run = b@.subrange(0, n as int);
    let mut val: u64 = 0;
    let mut j: usize = 0;
    while j < n
        invariant
            n <= b@.len(),
            n == digit_run_len(b@),
            j <= n,
            run == b@.subrange(0, n as int),
            forall|k: int| 0 <= k < n ==> is_digit(b@[k]),
            val == digits_value(b@.subrange(0, j as int)),
        decreases n - j,
    {
        let d: u64 = (b[j] - 48) as u64;
        proof {
            assert(b@.subrange(0, j + 1).drop_last() =~= b@.subrange(0, j as int));
            assert(b@.subrange(0, j + 1).last() == b@[j as int]);
        }
        if val > (u64::MAX - d) / 10 {
            proof {
                assert(val * 10 + d > u64::MAX) by (nonlinear_arith)
                    requires
                        val > (u64::MAX - d) / 10,
                        d <= 9,
                ;
                assert forall|k: int| 0 <= k < run.len() implies is_digit(run[k]) by {
                    assert(run[k] == b@[k]);
                }
                lemma_digits_value_grows(run, j + 1);
                assert(run.subrange(0, j + 1) =~= b@.subrange(0, j + 1));
            }
            return None;
        }
        proof {
            assert(val * 10 + d <= u64::MAX) by (nonlinear_arith)
                requires
                    val <= (u64::MAX - d) / 10,
                    d <= 9,
            ;
        }
        val = val * 10 + d;
        j += 1;
    }
    Some(val)
}

} // verus!
