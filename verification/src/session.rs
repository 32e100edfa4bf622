use vstd::prelude::*;

use crate::messages::{link_message_at, link_message_spec, verify_message_at, verify_message_spec};
use crate::request::{auth_link_wallet_request, verify_and_create_session_request, RequestParams};
use crate::schemas::{link_body_json_of, verify_body_json_of};
use crate::signer::{addr_of, generate_wallet, get_address, get_wallet, secret_ok, sig_of,
    sign_message, InvalidSecret, Wallet};

verus! {

// ---------------------------------------------------------------------------
// Composition of the signing provider, the message builder and the service
// client: the two requests that carry a signature carry one over exactly
// the message embedded beside it, signed by the right wallet.
// ---------------------------------------------------------------------------

/// The two identities of one execution: the target wallet derived from
/// the credential, and a fresh ephemeral identity that answers the
/// session-verification challenge and is discarded afterwards. A
/// malformed credential fails here, before any remote call, and aborts
/// only this execution.
pub fn execution_identities(secret: &str) -> (r: Result<(Wallet, Wallet), InvalidSecret>)
    ensures
        r matches Ok(p) ==> p.0@ == secret@ && secret_ok(secret@) && secret_ok(p.1@),
        r is Ok <==> secret_ok(secret@),
{
    match get_wallet(secret) {
        Ok(target) => {
            let ephemeral = generate_wallet();
            Ok((target, ephemeral))
        },
        Err(e) => Err(e),
    }
}

/// Builds the session-verification request for `wallet` answering the
/// challenge for `uuid` at the timestamp `issued_at`: the body carries the
/// wallet's address, the challenge text, and the wallet's signature over
/// that very text.
pub fn prepare_verify_call(
    wallet: &Wallet,
    uuid: &str,
    issued_at: &str,
    proxy: Option<String>,
) -> (r: RequestParams)
    ensures
        ({
            let message = verify_message_spec(uuid@, issued_at@);
            r.body matches Some(b) && b@ == verify_body_json_of(
                addr_of(wallet@),
                sig_of(wallet@, message),
                message,
            )
        }),
        r.method is Post,
        r.url@ == crate::request::verify_session_url(),
        r.headers.deep_view() == crate::request::verify_session_headers(),
        r.proxy == proxy,
{
    let message = verify_message_at(uuid, issued_at);
    let address = get_address(wallet);
    let signature = sign_message(wallet, message.as_str());
    verify_and_create_session_request(address.as_str(), signature.as_str(), message.as_str(), proxy)
}

/// Builds the wallet-link request binding `target_wallet` to the claim
/// address at the timestamp `issued_at`: the body carries the link
/// challenge for the pair and the target wallet's signature over that very
/// text, under the target wallet's address.
pub fn prepare_link_call(
    target_wallet: &Wallet,
    claim_address: &str,
    issued_at: &str,
    proxy: Option<String>,
) -> (r: RequestParams)
    ensures
        ({
            let message = link_message_spec(claim_address@, addr_of(target_wallet@), issued_at@);
            r.body matches Some(b) && b@ == link_body_json_of(
                message,
                addr_of(target_wallet@),
                sig_of(target_wallet@, message),
            )
        }),
        r.method is Post,
        r.url@ == crate::request::link_wallet_url(),
        r.headers.deep_view() == crate::request::link_wallet_headers(),
        r.proxy == proxy,
{
    let target_address = get_address(target_wallet);
    let message = link_message_at(claim_address, target_address.as_str(), issued_at);
    let signature = sign_message(target_wallet, message.as_str());
    auth_link_wallet_request(message.as_str(), target_address.as_str(), signature.as_str(), proxy)
}

} // verus!
