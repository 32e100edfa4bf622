use wallet_linker::request::{auth_link_wallet_request, auth_session_request,
    classify_response_body, verify_and_create_session_request, wallets_request, BodyKind,
    HttpMethod};

#[test]
fn verify_session_request_shape() {
    let r = verify_and_create_session_request("Addr", "Sig", "msg\nline", None);
    assert_eq!(r.method, HttpMethod::Post);
    assert_eq!(
        r.url.as_str(),
        "https://api-mainnet.magiceden.io/auth/session/verify-and-create"
    );
    assert!(r.query_args.is_empty());
    assert_eq!(r.proxy, None);
    let names: Vec<&str> = r.headers.iter().map(|h| h.0.as_str()).collect();
    assert_eq!(
        names,
        vec![
            "host", "x-exodus-app-id", "accept", "x-requested-with", "x-exodus-platform",
            "accept-language", "user-agent", "connection", "x-exodus-version", "content-type",
        ]
    );
    assert_eq!(r.headers[0].1.as_str(), "api-mainnet.magiceden.io");
    assert_eq!(r.headers[6].1.as_str(), "Magic%20Eden/194 CFNetwork/1496.0.7 Darwin/23.5.0");
    let body = r.body.unwrap();
    assert_eq!(
        body.as_str(),
        "{\"wallet\":\"Addr\",\"signature\":\"Sig\",\"message\":\"msg\\nline\",\
         \"metadata\":{\"platform\":\"ios\",\"patchVersion\":0,\"minorVersion\":30,\"majorVersion\":2}}"
    );
}

#[test]
fn auth_session_request_shape() {
    let r = auth_session_request("u-1", Some("http://proxy:8080".to_string()));
    assert_eq!(r.method, HttpMethod::Get);
    assert_eq!(r.url.as_str(), "https://mefoundation.com/api/trpc/auth.session");
    assert_eq!(r.body, None);
    assert_eq!(r.proxy.as_deref(), Some("http://proxy:8080"));
    assert_eq!(r.query_args.len(), 2);
    assert_eq!(r.query_args[0].0.as_str(), "batch");
    assert_eq!(r.query_args[0].1.as_str(), "1");
    assert_eq!(r.query_args[1].0.as_str(), "input");
    assert_eq!(r.query_args[1].1.as_str(), "{\"0\":{\"json\":{\"uuid\":\"u-1\"}}}");
    assert_eq!(r.headers.len(), 14);
    assert_eq!(r.headers[3].0.as_str(), "referer");
    assert_eq!(r.headers[3].1.as_str(), "https://mefoundation.com/login");
    assert_eq!(r.headers[13].0.as_str(), "TE");
    assert_eq!(r.headers[13].1.as_str(), "trailers");
}

#[test]
fn link_wallet_request_shape() {
    let r = auth_link_wallet_request("the message", "TargetAddr", "TheSig", None);
    assert_eq!(r.method, HttpMethod::Post);
    assert_eq!(r.url.as_str(), "https://mefoundation.com/api/trpc/wallet.linkWallet");
    assert_eq!(r.query_args.len(), 1);
    assert_eq!(r.query_args[0].0.as_str(), "batch");
    assert_eq!(r.headers.len(), 14);
    assert_eq!(r.headers[4].0.as_str(), "sec-ch-ua");
    assert_eq!(
        r.headers[4].1.as_str(),
        "\"Not_A Brand\";v=\"8\", \"Chromium\";v=\"120\", \"Google Chrome\";v=\"120\""
    );
    let body = r.body.unwrap();
    assert_eq!(
        body.as_str(),
        "{\"0\":{\"json\":{\"message\":\"the message\",\"wallet\":\"TargetAddr\",\
         \"chain\":\"sol\",\"signature\":\"TheSig\",\
         \"allocationEvent\":\"tge-airdrop-final\",\"isLedger\":false}}}"
    );
}

#[test]
fn wallets_request_shape() {
    let r = wallets_request(None);
    assert_eq!(r.method, HttpMethod::Get);
    assert_eq!(r.url.as_str(), "https://mefoundation.com/wallets");
    assert_eq!(r.body, None);
    assert_eq!(r.query_args.len(), 1);
    assert_eq!(r.query_args[0].0.as_str(), "_rsc");
    assert_eq!(r.query_args[0].1.as_str(), "1vr9w");
    assert_eq!(r.headers.len(), 13);
    assert_eq!(r.headers[6].0.as_str(), "rsc");
    assert_eq!(r.headers[6].1.as_str(), "1");
}

#[test]
fn response_body_classification() {
    assert_eq!(classify_response_body("application/json", "{}"), BodyKind::Json);
    assert_eq!(
        classify_response_body("application/json; charset=utf-8", "{\"a\":1}"),
        BodyKind::Json
    );
    assert_eq!(classify_response_body("text/x-component", "2:rows"), BodyKind::PlainText);
    assert_eq!(classify_response_body("application/json", "   \n\t "), BodyKind::Empty);
    assert_eq!(classify_response_body("text/html", ""), BodyKind::Empty);
}
