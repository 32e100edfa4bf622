use vstd::prelude::*;
use vstd::string::{StrSliceExecFns, StringExecFns};

verus! {

// ---------------------------------------------------------------------------
// Decimal text: turning integers and allocation amounts into the exact
// strings that the outcome records carry.
// ---------------------------------------------------------------------------

/// The character for one decimal digit.
pub open spec fn digit_char(d: int) -> char {
    if d == 0 {
        '0'
    } else if d == 1 {
        '1'
    } else if d == 2 {
        '2'
    } else if d == 3 {
        '3'
    } else if d == 4 {
        '4'
    } else if d == 5 {
        '5'
    } else if d == 6 {
        '6'
    } else if d == 7 {
        '7'
    } else if d == 8 {
        '8'
    } else {
        '9'
    }
}

/// The decimal representation of a non-negative integer, most significant
/// digit first, with no leading zeros (and `"0"` for zero).
pub open spec fn dec_rep(n: int) -> Seq<char>
    decreases n,
{
    if n < 10 {
        seq![digit_char(n)]
    } else {
        dec_rep(n / 10).push(digit_char(n % 10))
    }
}

/// A single decimal digit as a string.
fn digit_str(d: u64) -> (r: &'static str)
    requires
        d < 10,
    ensures
        r@ == seq![digit_char(d as int)],
{
    let s = if d == 0 {
        "0"
    } else if d == 1 {
        "1"
    } else if d == 2 {
        "2"
    } else if d == 3 {
        "3"
    } else if d == 4 {
        "4"
    } else if d == 5 {
        "5"
    } else if d == 6 {
        "6"
    } else if d == 7 {
        "7"
    } else if d == 8 {
        "8"
    } else {
        "9"
    };
    proof {
        reveal_strlit("0");
        reveal_strlit("1");
        reveal_strlit("2");
        reveal_strlit("3");
        reveal_strlit("4");
        reveal_strlit("5");
        reveal_strlit("6");
        reveal_strlit("7");
        reveal_strlit("8");
        reveal_strlit("9");
        assert(s@ =~= seq![digit_char(d as int)]);
    }
    s
}

/// Writes a `u64` in decimal.
pub fn u64_to_string(n: u64) -> (r: String)
    ensures
        r@ == dec_rep(n as int),
    decreases n,
{
    if n < 10 {
        String::from_str(digit_str(n))
    } else {
        let mut s = u64_to_string(n / 10);
        s.append(digit_str(n % 10));
        s
    }
}

/// The fractional digits of an amount: six zero-padded digits of
/// `f mod 10^6`, written by prefixing a sentinel `1` so the padding is part
/// of the number itself.
pub open spec fn padded_frac(f: int) -> Seq<char> {
    dec_rep(1000000 + f).drop_first()
}

/// Drops trailing zero characters.
pub open spec fn trim_zeros(s: Seq<char>) -> Seq<char>
    decreases s.len(),
{
    if s.len() == 0 || s.last() != '0' {
        s
    } else {
        trim_zeros(s.drop_last())
    }
}

/// A decimal representation is never empty.
proof fn lemma_dec_rep_len(n: int)
    ensures
        dec_rep(n).len() >= 1,
    decreases n,
{
    if n >= 10 {
        lemma_dec_rep_len(n / 10);
    }
}

/// A decimal digit character.
pub open spec fn is_digit_char(c: char) -> bool {
    48 <= c as u32 <= 57
}

/// A decimal representation consists of digit characters alone.
pub proof fn lemma_dec_rep_digits(n: int)
    ensures
        forall|i: int| 0 <= i < dec_rep(n).len() ==> is_digit_char(#[trigger] dec_rep(n)[i]),
    decreases n,
{
    if n < 10 {
    } else {
        lemma_dec_rep_digits(n / 10);
        assert forall|i: int| 0 <= i < dec_rep(n).len() implies is_digit_char(
            #[trigger] dec_rep(n)[i],
        ) by {
            if i < dec_rep(n / 10).len() {
                assert(dec_rep(n)[i] == dec_rep(n / 10)[i]);
            }
        }
    }
}

/// Dropping trailing zeros keeps a prefix: every remaining character
/// stands where it stood.
pub proof fn lemma_trim_zeros_is_prefix(s: Seq<char>)
    ensures
        trim_zeros(s).len() <= s.len(),
        forall|i: int| 0 <= i < trim_zeros(s).len() ==> #[trigger] trim_zeros(s)[i] == s[i],
    decreases s.len(),
{
    if s.len() == 0 || s.last() != '0' {
    } else {
        lemma_trim_zeros_is_prefix(s.drop_last());
    }
}

/// A human-denominated amount consists of digit characters and at most a
/// decimal point: in particular it holds no newline.
pub proof fn lemma_human_amount_chars(n: int)
    ensures
        forall|i: int| 0 <= i < human_amount(n).len() ==> (is_digit_char(
            #[trigger] human_amount(n)[i],
        ) || human_amount(n)[i] == '.'),
{
    let whole = n / 1000000;
    let frac = n % 1000000;
    lemma_dec_rep_digits(whole);
    if frac != 0 {
        lemma_dec_rep_digits(1000000 + frac);
        lemma_trim_zeros_is_prefix(padded_frac(frac));
        let tail = trim_zeros(padded_frac(frac));
        assert forall|i: int| 0 <= i < tail.len() implies is_digit_char(#[trigger] tail[i]) by {
            assert(tail[i] == padded_frac(frac)[i]);
            assert(padded_frac(frac)[i] == dec_rep(1000000 + frac)[i + 1]);
        }
        assert forall|i: int| 0 <= i < human_amount(n).len() implies (is_digit_char(
            #[trigger] human_amount(n)[i],
        ) || human_amount(n)[i] == '.') by {
            let d = dec_rep(whole);
            if i < d.len() {
                assert(human_amount(n)[i] == d[i]);
            } else if i == d.len() {
            } else {
                assert(human_amount(n)[i] == tail[i - d.len() - 1]);
            }
        }
    }
}

/// `trim_zeros` keeps exactly the prefix up to the last non-zero character.
proof fn lemma_trim_zeros_at(s: Seq<char>, k: int)
    requires
        0 <= k <= s.len(),
        forall|j: int| k <= j < s.len() ==> s[j] == '0',
        k > 0 ==> s[k - 1] != '0',
    ensures
        trim_zeros(s) == s.subrange(0, k),
    decreases s.len(),
{
    if k == s.len() {
        if s.len() == 0 {
            assert(s.subrange(0, 0) =~= s);
        } else {
            assert(s.last() == s[k - 1]);
            assert(s.subrange(0, k) =~= s);
        }
    } else {
        assert(s.last() == '0');
        lemma_trim_zeros_at(s.drop_last(), k);
        assert(s.drop_last().subrange(0, k) =~= s.subrange(0, k));
    }
}

/// The human-denominated form of an allocation amount: the amount divided
/// by 10^6, written as a decimal with the fractional part's trailing zeros
/// removed, and no fractional part at all when it is zero.
pub open spec fn human_amount(n: int) -> Seq<char> {
    let whole = n / 1000000;
    let frac = n % 1000000;
    if frac == 0 {
        dec_rep(whole)
    } else {
        dec_rep(whole) + seq!['.'] + trim_zeros(padded_frac(frac))
    }
}

/// Formats an allocation amount in the service's smallest unit as a
/// human-denominated decimal string.
pub fn format_human_amount(amount: u64) -> (r: String)
    ensures
        r@ == human_amount(amount as int),
{
    let whole = amount / 1000000;
    let frac = amount % 1000000;
    let mut s = u64_to_string(whole);
    if frac == 0 {
        return s;
    }
    s.append(".");
    proof {
        reveal_strlit(".");
        assert("."@ =~= seq!['.']);
    }
    let padded = u64_to_string(1000000 + frac);
    proof {
        lemma_dec_rep_len(1000000 + frac as int);
    }
    let plen = padded.as_str().unicode_len();
    let mut k: usize = plen;
    while k > 1 && padded.as_str().get_char(k - 1) == '0'
        invariant
            1 <= k <= plen,
            plen == padded@.len(),
            forall|j: int| k <= j < plen ==> padded@[j] == '0',
        decreases k,
    {
        k = k - 1;
    }
    proof {
        let tail = padded@.drop_first();
        assert forall|j: int| k - 1 <= j < tail.len() implies tail[j] == '0' by {
            assert(tail[j] == padded@[j + 1]);
        }
        if k > 1 {
            assert(tail[k - 2] == padded@[k - 1]);
        }
        lemma_trim_zeros_at(tail, k - 1);
    }
    let fractxt = padded.as_str().substring_char(1, k);
    proof {
        assert(padded@.drop_first().subrange(0, k - 1) =~= padded@.subrange(1, k as int));
        assert(fractxt@ == trim_zeros(padded_frac(frac as int)));
    }
    s.append(fractxt);
    s
}

} // verus!
