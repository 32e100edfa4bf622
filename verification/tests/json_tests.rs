use wallet_linker::jsontext::{escape_text_exec, json_string_exec};
use wallet_linker::schemas::{LinkWalletBody, Metadata, VerifyAndCreateSessionBody};
use wallet_linker::typedefs::RootJson;

#[test]
fn escape_plain_text_is_unchanged() {
    assert_eq!(escape_text_exec("abc xyz 123").as_str(), "abc xyz 123");
    assert_eq!(escape_text_exec("").as_str(), "");
}

#[test]
fn escape_specials() {
    assert_eq!(escape_text_exec("a\"b").as_str(), "a\\\"b");
    assert_eq!(escape_text_exec("a\\b").as_str(), "a\\\\b");
    assert_eq!(escape_text_exec("a\nb\tc\rd").as_str(), "a\\nb\\tc\\rd");
    assert_eq!(escape_text_exec("\u{8}\u{c}").as_str(), "\\b\\f");
    assert_eq!(escape_text_exec("\u{1}\u{1f}").as_str(), "\\u0001\\u001f");
}

#[test]
fn escape_keeps_unicode() {
    assert_eq!(escape_text_exec("héllo ✓").as_str(), "héllo ✓");
}

#[test]
fn json_string_literal() {
    assert_eq!(json_string_exec("line1\nline2").as_str(), "\"line1\\nline2\"");
}

#[test]
fn escaped_strings_parse_back() {
    let plain = "URI: x\nNonce: \"q\\z\"\u{1}";
    let lit = json_string_exec(plain);
    let back: String = serde_json::from_str(lit.as_str()).unwrap();
    assert_eq!(back, plain);
}

#[test]
fn root_json_query_text() {
    assert_eq!(
        RootJson::to_string("0c8a569f-a1e2-4e0c-9ebc-ab5e09dd9c46").as_str(),
        "{\"0\":{\"json\":{\"uuid\":\"0c8a569f-a1e2-4e0c-9ebc-ab5e09dd9c46\"}}}"
    );
}

#[test]
fn metadata_default_json() {
    let m = Metadata::default();
    assert_eq!(
        m.to_json().as_str(),
        "{\"platform\":\"ios\",\"patchVersion\":0,\"minorVersion\":30,\"majorVersion\":2}"
    );
}

#[test]
fn verify_body_json_text() {
    let b = VerifyAndCreateSessionBody::new("Wallet1", "Sig1", "URI: a\nNonce: b");
    assert_eq!(
        b.to_json().as_str(),
        "{\"wallet\":\"Wallet1\",\"signature\":\"Sig1\",\"message\":\"URI: a\\nNonce: b\",\
         \"metadata\":{\"platform\":\"ios\",\"patchVersion\":0,\"minorVersion\":30,\"majorVersion\":2}}"
    );
}

#[test]
fn link_body_json_text() {
    let b = LinkWalletBody::new("msg", "Wallet2", "Sig2");
    assert_eq!(
        b.to_json().as_str(),
        "{\"0\":{\"json\":{\"message\":\"msg\",\"wallet\":\"Wallet2\",\"chain\":\"sol\",\
         \"signature\":\"Sig2\",\"allocationEvent\":\"tge-airdrop-final\",\"isLedger\":false}}}"
    );
}

#[test]
fn bodies_agree_with_a_json_decoder() {
    let b = VerifyAndCreateSessionBody::new("W", "S", "line1\nline2");
    let v: serde_json::Value = serde_json::from_str(b.to_json().as_str()).unwrap();
    assert_eq!(v["wallet"], "W");
    assert_eq!(v["message"], "line1\nline2");
    assert_eq!(v["metadata"]["platform"], "ios");
    assert_eq!(v["metadata"]["majorVersion"], 2);
    assert_eq!(v["metadata"]["minorVersion"], 30);

    let b = LinkWalletBody::new("m\n", "W2", "S2");
    let v: serde_json::Value = serde_json::from_str(b.to_json().as_str()).unwrap();
    assert_eq!(v["0"]["json"]["chain"], "sol");
    assert_eq!(v["0"]["json"]["allocationEvent"], "tge-airdrop-final");
    assert_eq!(v["0"]["json"]["isLedger"], false);
    assert_eq!(v["0"]["json"]["message"], "m\n");
}
