use vstd::prelude::*;
use vstd::slice::slice_subrange;
use vstd::string::StringSliceAdditionalSpecFns;

use crate::scan::{digit_run_len, digits_value, find_first, find_sub, lemma_find_first_is_first,
    parse_digit_run};
use crate::schemas::{LinkWalletResponse, ResponseItem};

verus! {

/// Tri-state classification of a wallet-link response.
///
/// Any missing field along the response chain collapses to `Indeterminate`,
/// which is a normal "no allocation" outcome, not an error.
#[derive(Clone, Copy, Debug, PartialEq, Eq, Structural)]
pub enum Verdict {
    Eligible,
    NotEligible,
    Indeterminate,
}

/// The verdict that one (possibly absent) response item denotes: descend
/// `result -> data -> json -> eligibility -> eligibility`; absence at any
/// step is indeterminate; the literal string `"eligible"` at the end is
/// eligible; any other string is not eligible.
pub open spec fn item_verdict(item: Option<ResponseItem>) -> Verdict {
    match item {
        None => Verdict::Indeterminate,
        Some(it) => match it.result {
            None => Verdict::Indeterminate,
            Some(result) => match result.data {
                None => Verdict::Indeterminate,
                Some(data) => match data.json {
                    None => Verdict::Indeterminate,
                    Some(json) => match json.eligibility {
                        None => Verdict::Indeterminate,
                        Some(elig) => match elig.eligibility {
                            None => Verdict::Indeterminate,
                            Some(word) => if word@ == "eligible"@ {
                                Verdict::Eligible
                            } else {
                                Verdict::NotEligible
                            },
                        },
                    },
                },
            },
        },
    }
}

/// The verdict of a whole response: that of its first element; an empty
/// response is indeterminate.
pub open spec fn response_verdict(items: Seq<Option<ResponseItem>>) -> Verdict {
    if items.len() == 0 {
        Verdict::Indeterminate
    } else {
        item_verdict(items[0])
    }
}

/// An empty response sequence always reads as indeterminate.
pub proof fn lemma_empty_response_indeterminate(items: Seq<Option<ResponseItem>>)
    requires
        items.len() == 0,
    ensures
        response_verdict(items) is Indeterminate,
{
}

/// Navigates the nested optional response chain and classifies it.
pub fn interpret_eligibility(items: &LinkWalletResponse) -> (v: Verdict)
    ensures
        v == response_verdict(items@),
{
    if items.len() == 0 {
        return Verdict::Indeterminate;
    }
    let item = &items[0];
    match item {
        None => Verdict::Indeterminate,
        Some(it) => match &it.result {
            None => Verdict::Indeterminate,
            Some(result) => match &result.data {
                None => Verdict::Indeterminate,
                Some(data) => match &data.json {
                    None => Verdict::Indeterminate,
                    Some(json) => match &json.eligibility {
                        None => Verdict::Indeterminate,
                        Some(elig) => match &elig.eligibility {
                            None => Verdict::Indeterminate,
                            Some(word) => {
                                if word.eq(&String::from_str("eligible")) {
                                    Verdict::Eligible
                                } else {
                                    Verdict::NotEligible
                                }
                            },
                        },
                    },
                },
            },
        },
    }
}

// ---------------------------------------------------------------------------
// Allocation extraction from the streamed wallets payload.
//
// The payload is not standalone JSON: it is a newline-delimited stream of
// chunks with embedded JSON. The scan is deliberately permissive: locate the
// chunk marker, locate the allocation key after it, and read the digit run
// that follows.
// ---------------------------------------------------------------------------

/// The chunk marker `"2:"`, as bytes.
pub open spec fn marker_bytes() -> Seq<u8> {
    seq![50u8, 58u8]
}

/// The key `"allocationAmount":` (with its quotes and colon), as bytes.
pub open spec fn key_bytes() -> Seq<u8> {
    seq![
        34u8, 97u8, 108u8, 108u8, 111u8, 99u8, 97u8, 116u8, 105u8, 111u8, 110u8, 65u8, 109u8,
        111u8, 117u8, 110u8, 116u8, 34u8, 58u8,
    ]
}

/// The allocation amount carried by a wallets payload: the value of the
/// maximal digit run right after the first `"allocationAmount":` key that
/// follows the first `"2:"` marker. Absence of the marker, the key or any
/// digits — or a digit run too large for a `u64` — gives `None`.
pub open spec fn allocation_of_bytes(b: Seq<u8>) -> Option<u64> {
    match find_first(b, marker_bytes()) {
        None => None,
        Some(i) => {
            let rest = b.subrange(i + marker_bytes().len(), b.len() as int);
            match find_first(rest, key_bytes()) {
                None => None,
                Some(j) => {
                    let after = rest.subrange(j + key_bytes().len(), rest.len() as int);
                    let n = digit_run_len(after);
                    let v = digits_value(after.subrange(0, n));
                    if n == 0 {
                        None
                    } else if v > u64::MAX {
                        None
                    } else {
                        Some(v as u64)
                    }
                },
            }
        },
    }
}

/// Scans a wallets payload for the allocation amount. Total: any text gives
/// `None` or an amount, never a failure.
pub fn extract_allocation_amount(response_text: &str) -> (r: Option<u64>)
    ensures
        r == allocation_of_bytes(response_text.spec_bytes()),
{
    let bytes: &[u8] = response_text.as_bytes();
    let marker: Vec<u8> = vec![50u8, 58u8];
    proof {
        assert(marker@ =~= marker_bytes());
    }
    let i = match find_sub(bytes, marker.as_slice()) {
        None => {
            return None;
        },
        Some(i) => i,
    };
    let blen = bytes.len();
    proof {
        lemma_find_first_is_first(bytes@, marker_bytes());
        assert(marker_bytes().len() == 2);
        assert(i + 2 <= blen);
    }
    let rest = slice_subrange(bytes, i + 2, blen);
    let key: Vec<u8> = vec![
        34u8, 97u8, 108u8, 108u8, 111u8, 99u8, 97u8, 116u8, 105u8, 111u8, 110u8, 65u8, 109u8,
        111u8, 117u8, 110u8, 116u8, 34u8, 58u8,
    ];
    proof {
        assert(key@ =~= key_bytes());
    }
    let j = match find_sub(rest, key.as_slice()) {
        None => {
            return None;
        },
        Some(j) => j,
    };
    let rlen = rest.len();
    proof {
        lemma_find_first_is_first(rest@, key_bytes());
        assert(key_bytes().len() == 19);
        assert(j + 19 <= rlen);
    }
    let after = slice_subrange(rest, j + 19, rlen);
    parse_digit_run(after)
}

} // verus!
