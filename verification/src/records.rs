use vstd::prelude::*;
use vstd::string::StringExecFns;

use crate::numtext::{format_human_amount, human_amount, is_digit_char, lemma_human_amount_chars};

verus! {

// ---------------------------------------------------------------------------
// Outcome records: the single line that a confirmed-eligible wallet leaves
// behind. Only eligible wallets produce a record; the line carries the
// human-denominated allocation amount when it is known and nonzero.
// ---------------------------------------------------------------------------

/// The text of one outcome record: `<address>\n` when the amount is unknown
/// or zero, `<address>: <amount>\n` otherwise.
pub open spec fn outcome_line_spec(address: Seq<char>, amount: Option<u64>) -> Seq<char> {
    match amount {
        None => address + seq!['\n'],
        Some(a) => if a == 0 {
            address + seq!['\n']
        } else {
            address + seq![':', ' '] + human_amount(a as int) + seq!['\n']
        },
    }
}

/// Renders one outcome record.
pub fn outcome_line(address: &str, amount: Option<u64>) -> (r: String)
    ensures
        r@ == outcome_line_spec(address@, amount),
{
    proof {
        reveal_strlit("\n");
        reveal_strlit(": ");
    }
    let mut s = String::from_str(address);
    match amount {
        None => {
            s.append("\n");
        },
        Some(a) => {
            if a == 0 {
                s.append("\n");
            } else {
                s.append(": ");
                let t = format_human_amount(a);
                s.append(t.as_str());
                s.append("\n");
            }
        },
    }
    proof {
        assert("\n"@ =~= seq!['\n']);
        assert(": "@ =~= seq![':', ' ']);
        assert(s@ =~= outcome_line_spec(address@, amount));
    }
    s
}

/// Every outcome record has one of two shapes: the address followed by a
/// newline, or the address, the separator `": "`, a human-denominated
/// amount, and a newline.
/// Records never interleave: as long as the address holds no newline, the
/// record's one and only newline is its final character, so appending
/// whole records keeps one record per line.
pub proof fn lemma_outcome_line_single_newline(address: Seq<char>, amount: Option<u64>)
    requires
        forall|i: int| 0 <= i < address.len() ==> address[i] != '\n',
    ensures
        ({
            let l = outcome_line_spec(address, amount);
            l.len() > 0 && l.last() == '\n' && (forall|i: int|
                0 <= i < l.len() - 1 ==> #[trigger] l[i] != '\n')
        }),
{
    let l = outcome_line_spec(address, amount);
    match amount {
        None => {
            assert forall|i: int| 0 <= i < l.len() - 1 implies #[trigger] l[i] != '\n' by {
                assert(l[i] == address[i]);
            }
        },
        Some(a) => {
            if a == 0 {
                assert forall|i: int| 0 <= i < l.len() - 1 implies #[trigger] l[i] != '\n' by {
                    assert(l[i] == address[i]);
                }
            } else {
                lemma_human_amount_chars(a as int);
                let h = human_amount(a as int);
                assert forall|i: int| 0 <= i < l.len() - 1 implies #[trigger] l[i] != '\n' by {
                    if i < address.len() {
                        assert(l[i] == address[i]);
                    } else if i < address.len() + 2 {
                        assert(l[i] == seq![':', ' '][i - address.len()]);
                    } else {
                        assert(l[i] == h[i - address.len() - 2]);
                        assert(is_digit_char(h[i - address.len() - 2]) || h[i - address.len()
                            - 2] == '.');
                    }
                }
            }
        },
    }
}

pub proof fn lemma_outcome_line_shape(address: Seq<char>, amount: Option<u64>)
    ensures
        outcome_line_spec(address, amount) == address + seq!['\n'] || exists|v: int|
            0 < v <= u64::MAX && outcome_line_spec(address, amount) == address + seq![':', ' ']
                + #[trigger] human_amount(v) + seq!['\n'],
{
    match amount {
        None => {},
        Some(a) => {
            if a != 0 {
                assert(outcome_line_spec(address, amount) == address + seq![':', ' ']
                    + human_amount(a as int) + seq!['\n']);
            }
        },
    }
}

} // verus!
