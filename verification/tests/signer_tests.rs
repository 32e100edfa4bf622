use solana_sdk::signature::Keypair;
use solana_sdk::signer::Signer;

use wallet_linker::session::{execution_identities, prepare_link_call, prepare_verify_call};
use wallet_linker::signer::{generate_wallet, get_address, get_wallet, sign_message};

#[test]
fn generated_wallet_secret_round_trips() {
    let w = generate_wallet();
    let secret = w.secret().clone();
    let again = get_wallet(secret.as_str()).expect("a generated secret is well formed");
    assert_eq!(get_address(&w), get_address(&again));
}

#[test]
fn execution_identities_pair_up() {
    let kp = Keypair::new();
    let secret = kp.to_base58_string();
    let (target, ephemeral) = execution_identities(secret.as_str()).unwrap();
    assert_eq!(get_address(&target), kp.pubkey().to_string());
    // The ephemeral identity is fresh, not the credential's.
    assert_ne!(get_address(&ephemeral), get_address(&target));
    assert!(execution_identities("bad secret").is_err());
}

#[test]
fn malformed_secret_is_rejected() {
    assert!(get_wallet("").is_err());
    assert!(get_wallet("not base58 at all!").is_err());
    // Valid base58, wrong length.
    assert!(get_wallet("3mJr7AoUXx2Wqd").is_err());
}

#[test]
fn address_matches_the_underlying_keypair() {
    let kp = Keypair::new();
    let secret = kp.to_base58_string();
    let w = get_wallet(secret.as_str()).unwrap();
    assert_eq!(get_address(&w), kp.pubkey().to_string());
}

#[test]
fn signature_matches_the_underlying_keypair() {
    let kp = Keypair::new();
    let secret = kp.to_base58_string();
    let w = get_wallet(secret.as_str()).unwrap();
    let message = "URI: mefoundation.com\nChain ID: sol";
    let expected = kp.sign_message(message.as_bytes()).to_string();
    assert_eq!(sign_message(&w, message), expected);
    // Deterministic: the same inputs sign the same way twice.
    assert_eq!(sign_message(&w, message), expected);
}

#[test]
fn prepared_verify_call_signs_its_own_message() {
    let w = generate_wallet();
    let r = prepare_verify_call(&w, "nonce-1", "2024-12-01T10:00:00.000Z", None);
    let v: serde_json::Value = serde_json::from_str(r.body.unwrap().as_str()).unwrap();
    let address = get_address(&w);
    assert_eq!(v["wallet"], address.as_str());
    let message = v["message"].as_str().unwrap();
    assert_eq!(
        message,
        "URI: mefoundation.com\nChain ID: sol\nNonce: nonce-1\nIssued At: 2024-12-01T10:00:00.000Z"
    );
    // The signature in the body is this wallet's signature over exactly
    // the message beside it.
    assert_eq!(v["signature"], sign_message(&w, message).as_str());
    assert_eq!(v["metadata"]["platform"], "ios");
}

#[test]
fn prepared_link_call_signs_its_own_message() {
    let w = generate_wallet();
    let r = prepare_link_call(&w, "ClaimAddr", "2024-12-01T10:00:00.000Z", None);
    let v: serde_json::Value = serde_json::from_str(r.body.unwrap().as_str()).unwrap();
    let inner = &v["0"]["json"];
    let target = get_address(&w);
    assert_eq!(inner["wallet"], target.as_str());
    let message = inner["message"].as_str().unwrap();
    assert_eq!(
        message,
        format!(
            "URI: mefoundation.com\nIssued At: 2024-12-01T10:00:00.000Z\nChain ID: sol\n\
             Allocation Wallet: {}\nClaim Wallet: ClaimAddr",
            target
        )
    );
    assert_eq!(inner["signature"], sign_message(&w, message).as_str());
    assert_eq!(inner["chain"], "sol");
}
