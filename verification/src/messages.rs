use vstd::prelude::*;
use vstd::string::StringExecFns;

verus! {

// ---------------------------------------------------------------------------
// The two protocol text messages. The remote service validates signatures
// against these exact texts, so field order, labels and separators matter
// byte for byte.
// ---------------------------------------------------------------------------

/// The session-verification challenge for a nonce, issued at a time.
pub open spec fn verify_message_spec(nonce: Seq<char>, issued_at: Seq<char>) -> Seq<char> {
    "URI: mefoundation.com\nChain ID: sol\nNonce: "@ + nonce + "\nIssued At: "@ + issued_at
}

/// The wallet-link challenge binding a claim wallet to a target wallet,
/// issued at a time.
pub open spec fn link_message_spec(
    claim_wallet: Seq<char>,
    target_wallet: Seq<char>,
    issued_at: Seq<char>,
) -> Seq<char> {
    "URI: mefoundation.com\nIssued At: "@ + issued_at + "\nChain ID: sol\nAllocation Wallet: "@
        + target_wallet + "\nClaim Wallet: "@ + claim_wallet
}

/// Builds the verification challenge for `nonce` with an explicit
/// timestamp text.
pub fn verify_message_at(nonce: &str, issued_at: &str) -> (r: String)
    ensures
        r@ == verify_message_spec(nonce@, issued_at@),
{
    let mut s = String::from_str("URI: mefoundation.com\nChain ID: sol\nNonce: ");
    s.append(nonce);
    s.append("\nIssued At: ");
    s.append(issued_at);
    proof {
        assert(s@ =~= verify_message_spec(nonce@, issued_at@));
    }
    s
}

/// Builds the link challenge with an explicit timestamp text.
pub fn link_message_at(claim_wallet: &str, target_wallet: &str, issued_at: &str) -> (r: String)
    ensures
        r@ == link_message_spec(claim_wallet@, target_wallet@, issued_at@),
{
    let mut s = String::from_str("URI: mefoundation.com\nIssued At: ");
    s.append(issued_at);
    s.append("\nChain ID: sol\nAllocation Wallet: ");
    s.append(target_wallet);
    s.append("\nClaim Wallet: ");
    s.append(claim_wallet);
    proof {
        assert(s@ =~= link_message_spec(claim_wallet@, target_wallet@, issued_at@));
    }
    s
}

/// Relies on chrono's `Utc::now` and `to_rfc3339_opts` (millisecond
/// precision, `Z` suffix) for the current wall-clock timestamp text. The
/// result depends on the clock, so nothing is promised of it.
#[verifier::external_body]
fn now_rfc3339_millis() -> String {
    chrono::Utc::now().to_rfc3339_opts(chrono::SecondsFormat::Millis, true)
}

/// The verification challenge for `uuid`, issued now: the exact
/// verification text for `uuid` and some timestamp.
pub fn get_verify_message(uuid: &str) -> (r: String)
    ensures
        exists|now: Seq<char>| r@ == #[trigger] verify_message_spec(uuid@, now),
{
    let now = now_rfc3339_millis();
    let r = verify_message_at(uuid, now.as_str());
    proof {
        assert(r@ == verify_message_spec(uuid@, now@));
    }
    r
}

/// The link challenge for the two wallets, issued now: the exact link text
/// for the pair and some timestamp.
pub fn get_link_wallet_message(claim_wallet: &str, target_wallet: &str) -> (r: String)
    ensures
        exists|now: Seq<char>| r@ == #[trigger] link_message_spec(
            claim_wallet@,
            target_wallet@,
            now,
        ),
{
    let now = now_rfc3339_millis();
    let r = link_message_at(claim_wallet, target_wallet, now.as_str());
    proof {
        assert(r@ == link_message_spec(claim_wallet@, target_wallet@, now@));
    }
    r
}

} // verus!
