use wallet_linker::messages::{get_link_wallet_message, get_verify_message, link_message_at,
    verify_message_at};

#[test]
fn verify_message_exact_text() {
    let m = verify_message_at("some-uuid", "2024-12-01T10:00:00.000Z");
    assert_eq!(
        m.as_str(),
        "URI: mefoundation.com\nChain ID: sol\nNonce: some-uuid\nIssued At: 2024-12-01T10:00:00.000Z"
    );
}

#[test]
fn link_message_exact_text() {
    let m = link_message_at("ClaimAddr", "TargetAddr", "2024-12-01T10:00:00.000Z");
    assert_eq!(
        m.as_str(),
        "URI: mefoundation.com\nIssued At: 2024-12-01T10:00:00.000Z\nChain ID: sol\n\
         Allocation Wallet: TargetAddr\nClaim Wallet: ClaimAddr"
    );
}

#[test]
fn timestamped_verify_message_shape() {
    let m = get_verify_message("my-nonce");
    let m = m.as_str();
    assert!(m.starts_with("URI: mefoundation.com\nChain ID: sol\nNonce: my-nonce\nIssued At: "));
    let stamp = &m["URI: mefoundation.com\nChain ID: sol\nNonce: my-nonce\nIssued At: ".len()..];
    // RFC 3339 with milliseconds and a Z suffix, e.g. 2024-12-01T10:00:00.000Z
    assert_eq!(stamp.len(), 24);
    assert!(stamp.ends_with('Z'));
    assert_eq!(&stamp[4..5], "-");
    assert_eq!(&stamp[10..11], "T");
    assert_eq!(&stamp[19..20], ".");
}

#[test]
fn timestamped_link_message_shape() {
    let m = get_link_wallet_message("C", "T");
    let m = m.as_str();
    assert!(m.starts_with("URI: mefoundation.com\nIssued At: "));
    assert!(m.ends_with("\nChain ID: sol\nAllocation Wallet: T\nClaim Wallet: C"));
}
