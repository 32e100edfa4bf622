use vstd::prelude::*;
use vstd::string::{StrSliceExecFns, StringExecFns};
use vstd::utf8::encode_utf8;

use crate::scan::{find_first, find_sub};
use crate::schemas::{link_body_json_of, verify_body_json_of, LinkWalletBody,
    VerifyAndCreateSessionBody};
use crate::typedefs::{root_json_text, RootJson};

verus! {

// ---------------------------------------------------------------------------
// The service client's four requests, as plain values. Every request the
// flow sends is assembled here — method, URL, query, the full header
// fingerprint, and the body text — and the contracts pin each field, since
// the remote service rejects any deviation. Sending is left to the caller.
// ---------------------------------------------------------------------------

#[derive(Clone, Copy, Debug, PartialEq, Eq, Structural)]
pub enum HttpMethod {
    Get,
    Post,
}

/// One fully-assembled request: what to send, where, and through which
/// proxy. The proxy is an egress-route URL chosen per execution; `None`
/// sends directly.
#[derive(Clone, Debug)]
pub struct RequestParams {
    pub method: HttpMethod,
    pub url: String,
    pub query_args: Vec<(String, String)>,
    pub headers: Vec<(String, String)>,
    pub body: Option<String>,
    pub proxy: Option<String>,
}

/// Appends one name/value pair.
fn push_pair(v: &mut Vec<(String, String)>, name: &str, value: &str)
    ensures
        final(v).deep_view() == old(v).deep_view().push((name@, value@)),
{
    v.push((String::from_str(name), String::from_str(value)));
    proof {
        assert(v.deep_view() =~= old(v).deep_view().push((name@, value@)));
    }
}

// --- URLs -------------------------------------------------------------

pub open spec fn verify_session_url() -> Seq<char> {
    "https://api-mainnet.magiceden.io/auth/session/verify-and-create"@
}

pub open spec fn auth_session_url() -> Seq<char> {
    "https://mefoundation.com/api/trpc/auth.session"@
}

pub open spec fn link_wallet_url() -> Seq<char> {
    "https://mefoundation.com/api/trpc/wallet.linkWallet"@
}

pub open spec fn wallets_url() -> Seq<char> {
    "https://mefoundation.com/wallets"@
}

// --- Header fingerprints ----------------------------------------------

/// The mobile-client fingerprint of the session-verification call.
pub open spec fn verify_session_headers() -> Seq<(Seq<char>, Seq<char>)> {
    seq![
        ("host"@, "api-mainnet.magiceden.io"@),
        ("x-exodus-app-id"@, "magic-eden"@),
        ("accept"@, "*/*"@),
        ("x-requested-with"@, "magic-eden 2.30.0 mobile"@),
        ("x-exodus-platform"@, "ios"@),
        ("accept-language"@, "en-US;q=0.5,en;q=0.3"@),
        ("user-agent"@, "Magic%20Eden/194 CFNetwork/1496.0.7 Darwin/23.5.0"@),
        ("connection"@, "keep-alive"@),
        ("x-exodus-version"@, "2.30.0"@),
        ("content-type"@, "application/json"@),
    ]
}

/// The browser fingerprint of the session-open call.
pub open spec fn auth_session_headers() -> Seq<(Seq<char>, Seq<char>)> {
    seq![
        (
            "user-agent"@,
            "Mozilla/5.0 (Macintosh; Intel Mac OS X 10_15_7) AppleWebKit/537.36 (KHTML, like Gecko) Chrome/128.0.0.0 Safari/537.36 OPR/114.0.0.0 (Edition Yx GX)"@,
        ),
        ("accept"@, "*/*"@),
        ("accept-language"@, "en-US;q=0.5,en;q=0.3"@),
        ("referer"@, "https://mefoundation.com/login"@),
        ("content-type"@, "application/json"@),
        ("x-trpc-source"@, "nextjs-react"@),
        ("sentry-trace"@, "4c8344fb2c0942bca3995cd102a4223c-ab959a225a809cc8-1"@),
        (
            "baggage"@,
            "sentry-environment=production,sentry-release=OXJ8HjdYzWapTs_F5Efi8,sentry-public_key=1a5e7baa354df159cf3efd1eeca5baea,sentry-trace_id=4c8344fb2c0942bca3995cd102a4223c,sentry-sample_rate=1,sentry-sampled=true"@,
        ),
        ("connection"@, "keep-alive"@),
        ("Sec-Fetch-Dest"@, "empty"@),
        ("Sec-Fetch-Mode"@, "cors"@),
        ("Sec-Fetch-Site"@, "same-origin"@),
        ("Priority"@, "u=4"@),
        ("TE"@, "trailers"@),
    ]
}

/// The browser fingerprint of the wallet-link call.
pub open spec fn link_wallet_headers() -> Seq<(Seq<char>, Seq<char>)> {
    seq![
        ("accept"@, "*/*"@),
        ("accept-language"@, "en-US;q=0.5,en;q=0.3"@),
        (
            "baggage"@,
            "sentry-environment=production,sentry-release=jY6mki4_Tqyy2LJT5ljgm,sentry-public_key=9db2fb508ab642eedd5d51bf3618740b,sentry-trace_id=fdac1520ca6c46a7afcc8f20fb119f2d,sentry-replay_id=c753b4fe121042339939e5a16010d415,sentry-sample_rate=0.05,sentry-sampled=true"@,
        ),
        ("content-type"@, "application/json"@),
        (
            "sec-ch-ua"@,
            "\"Not_A Brand\";v=\"8\", \"Chromium\";v=\"120\", \"Google Chrome\";v=\"120\""@,
        ),
        ("sec-ch-ua-mobile"@, "?0"@),
        ("sec-ch-ua-platform"@, "\"macOS\""@),
        ("Sec-Fetch-Dest"@, "empty"@),
        ("Sec-Fetch-Mode"@, "cors"@),
        ("Sec-Fetch-Site"@, "same-origin"@),
        ("sentry-trace"@, "4c8344fb2c0942bca3995cd102a4223c-ab959a225a809cc8-1"@),
        ("x-trpc-source"@, "nextjs-react"@),
        ("referer"@, "https://mefoundation.com/wallets?eligible=false"@),
        ("referrer-policy"@, "strict-origin-when-cross-origin"@),
    ]
}

/// The browser fingerprint of the wallets fetch.
pub open spec fn wallets_headers() -> Seq<(Seq<char>, Seq<char>)> {
    seq![
        ("accept"@, "*/*"@),
        ("accept-language"@, "en-US,en;q=0.5"@),
        (
            "baggage"@,
            "sentry-environment=production,sentry-release=rUjks-Y9GR01z74atxAEP,sentry-public_key=43f5a6f01fe6dff7b5c0d7c54530d6a0,sentry-trace_id=ef57f76f823948928981c4fe54fdb863,sentry-sample_rate=0.05,sentry-sampled=false"@,
        ),
        ("priority"@, "u=1, i"@),
        (
            "next-router-state-tree"@,
            "%5B%22%22%2C%7B%22children%22%3A%5B%22(dashboard)%22%2C%7B%22children%22%3A%5B%22(link)%22%2C%7B%22children%22%3A%5B%22wallets%22%2C%7B%22children%22%3A%5B%22__PAGE__%22%2C%7B%7D%2C%22%2Fwallets%22%2C%22refresh%22%5D%7D%5D%7D%5D%7D%5D%7D%2Cnull%2C%22refetch%22%5D"@,
        ),
        ("referer"@, "https://mefoundation.com/wallets"@),
        ("rsc"@, "1"@),
        ("sec-fetch-dest"@, "empty"@),
        ("sec-fetch-mode"@, "cors"@),
        ("sec-fetch-site"@, "same-origin"@),
        ("sec-fetch-user"@, "?1"@),
        ("upgrade-insecure-requests"@, "1"@),
        (
            "user-agent"@,
            "Mozilla/5.0 (Macintosh; Intel Mac OS X 10_15_7) AppleWebKit/537.36 (KHTML, like Gecko) Chrome/128.0.0.0 Safari/537.36 OPR/114.0.0.0 (Edition Yx GX)"@,
        ),
    ]
}

// --- Request builders -------------------------------------------------

/// The session-verification request: a POST of the wallet, signature and
/// message under the mobile fingerprint.
pub fn verify_and_create_session_request(
    address: &str,
    signature: &str,
    message: &str,
    proxy: Option<String>,
) -> (r: RequestParams)
    ensures
        r.method is Post,
        r.url@ == verify_session_url(),
        r.query_args.deep_view() == Seq::<(Seq<char>, Seq<char>)>::empty(),
        r.headers.deep_view() == verify_session_headers(),
        r.body matches Some(b) && b@ == verify_body_json_of(address@, signature@, message@),
        r.proxy == proxy,
{
    let body = VerifyAndCreateSessionBody::new(address, signature, message);
    let body_text = body.to_json();
    let mut headers: Vec<(String, String)> = Vec::new();
    push_pair(&mut headers, "host", "api-mainnet.magiceden.io");
    push_pair(&mut headers, "x-exodus-app-id", "magic-eden");
    push_pair(&mut headers, "accept", "*/*");
    push_pair(&mut headers, "x-requested-with", "magic-eden 2.30.0 mobile");
    push_pair(&mut headers, "x-exodus-platform", "ios");
    push_pair(&mut headers, "accept-language", "en-US;q=0.5,en;q=0.3");
    push_pair(&mut headers, "user-agent", "Magic%20Eden/194 CFNetwork/1496.0.7 Darwin/23.5.0");
    push_pair(&mut headers, "connection", "keep-alive");
    push_pair(&mut headers, "x-exodus-version", "2.30.0");
    push_pair(&mut headers, "content-type", "application/json");
    proof {
        assert(headers.deep_view() =~= verify_session_headers());
        assert(crate::schemas::metadata_json(body.metadata)
            == crate::schemas::default_metadata_json());
        assert(body_text@ == verify_body_json_of(address@, signature@, message@));
    }
    let query_args: Vec<(String, String)> = Vec::new();
    proof {
        assert(query_args.deep_view() =~= Seq::<(Seq<char>, Seq<char>)>::empty());
    }
    RequestParams {
        method: HttpMethod::Post,
        url: String::from_str("https://api-mainnet.magiceden.io/auth/session/verify-and-create"),
        query_args,
        headers,
        body: Some(body_text),
        proxy,
    }
}

/// The session-open request: a GET carrying the nonce in the nested query
/// payload under the browser fingerprint.
pub fn auth_session_request(uuid: &str, proxy: Option<String>) -> (r: RequestParams)
    ensures
        r.method is Get,
        r.url@ == auth_session_url(),
        r.query_args.deep_view() == seq![("batch"@, "1"@), ("input"@, root_json_text(uuid@))],
        r.headers.deep_view() == auth_session_headers(),
        r.body is None,
        r.proxy == proxy,
{
    let input = RootJson::to_string(uuid);
    let mut query_args: Vec<(String, String)> = Vec::new();
    push_pair(&mut query_args, "batch", "1");
    push_pair(&mut query_args, "input", input.as_str());
    let mut headers: Vec<(String, String)> = Vec::new();
    push_pair(
        &mut headers,
        "user-agent",
        "Mozilla/5.0 (Macintosh; Intel Mac OS X 10_15_7) AppleWebKit/537.36 (KHTML, like Gecko) Chrome/128.0.0.0 Safari/537.36 OPR/114.0.0.0 (Edition Yx GX)",
    );
    push_pair(&mut headers, "accept", "*/*");
    push_pair(&mut headers, "accept-language", "en-US;q=0.5,en;q=0.3");
    push_pair(&mut headers, "referer", "https://mefoundation.com/login");
    push_pair(&mut headers, "content-type", "application/json");
    push_pair(&mut headers, "x-trpc-source", "nextjs-react");
    push_pair(&mut headers, "sentry-trace", "4c8344fb2c0942bca3995cd102a4223c-ab959a225a809cc8-1");
    push_pair(
        &mut headers,
        "baggage",
        "sentry-environment=production,sentry-release=OXJ8HjdYzWapTs_F5Efi8,sentry-public_key=1a5e7baa354df159cf3efd1eeca5baea,sentry-trace_id=4c8344fb2c0942bca3995cd102a4223c,sentry-sample_rate=1,sentry-sampled=true",
    );
    push_pair(&mut headers, "connection", "keep-alive");
    push_pair(&mut headers, "Sec-Fetch-Dest", "empty");
    push_pair(&mut headers, "Sec-Fetch-Mode", "cors");
    push_pair(&mut headers, "Sec-Fetch-Site", "same-origin");
    push_pair(&mut headers, "Priority", "u=4");
    push_pair(&mut headers, "TE", "trailers");
    proof {
        assert(headers.deep_view() =~= auth_session_headers());
        assert(query_args.deep_view() =~= seq![("batch"@, "1"@), ("input"@, root_json_text(uuid@))]);
    }
    RequestParams {
        method: HttpMethod::Get,
        url: String::from_str("https://mefoundation.com/api/trpc/auth.session"),
        query_args,
        headers,
        body: None,
        proxy,
    }
}

/// The wallet-link request: a POST of the link payload, batched, under the
/// browser fingerprint.
pub fn auth_link_wallet_request(
    message: &str,
    wallet: &str,
    signature: &str,
    proxy: Option<String>,
) -> (r: RequestParams)
    ensures
        r.method is Post,
        r.url@ == link_wallet_url(),
        r.query_args.deep_view() == seq![("batch"@, "1"@)],
        r.headers.deep_view() == link_wallet_headers(),
        r.body matches Some(b) && b@ == link_body_json_of(message@, wallet@, signature@),
        r.proxy == proxy,
{
    let body = LinkWalletBody::new(message, wallet, signature);
    let body_text = body.to_json();
    let mut query_args: Vec<(String, String)> = Vec::new();
    push_pair(&mut query_args, "batch", "1");
    let mut headers: Vec<(String, String)> = Vec::new();
    push_pair(&mut headers, "accept", "*/*");
    push_pair(&mut headers, "accept-language", "en-US;q=0.5,en;q=0.3");
    push_pair(
        &mut headers,
        "baggage",
        "sentry-environment=production,sentry-release=jY6mki4_Tqyy2LJT5ljgm,sentry-public_key=9db2fb508ab642eedd5d51bf3618740b,sentry-trace_id=fdac1520ca6c46a7afcc8f20fb119f2d,sentry-replay_id=c753b4fe121042339939e5a16010d415,sentry-sample_rate=0.05,sentry-sampled=true",
    );
    push_pair(&mut headers, "content-type", "application/json");
    push_pair(
        &mut headers,
        "sec-ch-ua",
        "\"Not_A Brand\";v=\"8\", \"Chromium\";v=\"120\", \"Google Chrome\";v=\"120\"",
    );
    push_pair(&mut headers, "sec-ch-ua-mobile", "?0");
    push_pair(&mut headers, "sec-ch-ua-platform", "\"macOS\"");
    push_pair(&mut headers, "Sec-Fetch-Dest", "empty");
    push_pair(&mut headers, "Sec-Fetch-Mode", "cors");
    push_pair(&mut headers, "Sec-Fetch-Site", "same-origin");
    push_pair(&mut headers, "sentry-trace", "4c8344fb2c0942bca3995cd102a4223c-ab959a225a809cc8-1");
    push_pair(&mut headers, "x-trpc-source", "nextjs-react");
    push_pair(&mut headers, "referer", "https://mefoundation.com/wallets?eligible=false");
    push_pair(&mut headers, "referrer-policy", "strict-origin-when-cross-origin");
    proof {
        assert(headers.deep_view() =~= link_wallet_headers());
        assert(query_args.deep_view() =~= seq![("batch"@, "1"@)]);
        assert(crate::schemas::link_data_json(body.outer.json)
            == crate::schemas::link_data_json_of(message@, wallet@, signature@));
        assert(body_text@ == link_body_json_of(message@, wallet@, signature@));
    }
    RequestParams {
        method: HttpMethod::Post,
        url: String::from_str("https://mefoundation.com/api/trpc/wallet.linkWallet"),
        query_args,
        headers,
        body: Some(body_text),
        proxy,
    }
}

/// The wallets fetch: a GET of the streamed wallets payload under the
/// browser fingerprint.
pub fn wallets_request(proxy: Option<String>) -> (r: RequestParams)
    ensures
        r.method is Get,
        r.url@ == wallets_url(),
        r.query_args.deep_view() == seq![("_rsc"@, "1vr9w"@)],
        r.headers.deep_view() == wallets_headers(),
        r.body is None,
        r.proxy == proxy,
{
    let mut query_args: Vec<(String, String)> = Vec::new();
    push_pair(&mut query_args, "_rsc", "1vr9w");
    let mut headers: Vec<(String, String)> = Vec::new();
    push_pair(&mut headers, "accept", "*/*");
    push_pair(&mut headers, "accept-language", "en-US,en;q=0.5");
    push_pair(
        &mut headers,
        "baggage",
        "sentry-environment=production,sentry-release=rUjks-Y9GR01z74atxAEP,sentry-public_key=43f5a6f01fe6dff7b5c0d7c54530d6a0,sentry-trace_id=ef57f76f823948928981c4fe54fdb863,sentry-sample_rate=0.05,sentry-sampled=false",
    );
    push_pair(&mut headers, "priority", "u=1, i");
    push_pair(
        &mut headers,
        "next-router-state-tree",
        "%5B%22%22%2C%7B%22children%22%3A%5B%22(dashboard)%22%2C%7B%22children%22%3A%5B%22(link)%22%2C%7B%22children%22%3A%5B%22wallets%22%2C%7B%22children%22%3A%5B%22__PAGE__%22%2C%7B%7D%2C%22%2Fwallets%22%2C%22refresh%22%5D%7D%5D%7D%5D%7D%5D%7D%2Cnull%2C%22refetch%22%5D",
    );
    push_pair(&mut headers, "referer", "https://mefoundation.com/wallets");
    push_pair(&mut headers, "rsc", "1");
    push_pair(&mut headers, "sec-fetch-dest", "empty");
    push_pair(&mut headers, "sec-fetch-mode", "cors");
    push_pair(&mut headers, "sec-fetch-site", "same-origin");
    push_pair(&mut headers, "sec-fetch-user", "?1");
    push_pair(&mut headers, "upgrade-insecure-requests", "1");
    push_pair(
        &mut headers,
        "user-agent",
        "Mozilla/5.0 (Macintosh; Intel Mac OS X 10_15_7) AppleWebKit/537.36 (KHTML, like Gecko) Chrome/128.0.0.0 Safari/537.36 OPR/114.0.0.0 (Edition Yx GX)",
    );
    proof {
        assert(headers.deep_view() =~= wallets_headers());
        assert(query_args.deep_view() =~= seq![("_rsc"@, "1vr9w"@)]);
    }
    RequestParams {
        method: HttpMethod::Get,
        url: String::from_str("https://mefoundation.com/wallets"),
        query_args,
        headers,
        body: None,
        proxy,
    }
}

// --- Response-body handling --------------------------------------------

/// How a successful response body is to be decoded.
#[derive(Clone, Copy, Debug, PartialEq, Eq, Structural)]
pub enum BodyKind {
    /// A blank body: there is nothing to decode.
    Empty,
    /// A JSON content type: decode the text as JSON.
    Json,
    /// Anything else: hand the text over as it is.
    PlainText,
}

/// A whitespace character, as trimming sees it.
pub open spec fn is_space(c: char) -> bool {
    c == ' ' || c == '\t' || c == '\n' || c == '\r' || c == '\u{b}' || c == '\u{c}' || c
        == '\u{85}' || c == '\u{a0}' || c == '\u{1680}' || (0x2000 <= c as u32 <= 0x200a) || c
        == '\u{2028}' || c == '\u{2029}' || c == '\u{202f}' || c == '\u{205f}' || c == '\u{3000}'
}

/// A text that trims to nothing.
pub open spec fn spec_is_blank(s: Seq<char>) -> bool {
    forall|i: int| 0 <= i < s.len() ==> is_space(#[trigger] s[i])
}

/// The bytes of the JSON content-type marker `application/json`.
pub open spec fn json_marker_bytes() -> Seq<u8> {
    seq![
        97u8, 112u8, 112u8, 108u8, 105u8, 99u8, 97u8, 116u8, 105u8, 111u8, 110u8, 47u8, 106u8,
        115u8, 111u8, 110u8,
    ]
}

/// How a successful response body is decoded: a blank body is nothing, a
/// body under a JSON content type is JSON, anything else is plain text.
pub open spec fn body_kind_spec(content_type: Seq<char>, text: Seq<char>) -> BodyKind {
    if spec_is_blank(text) {
        BodyKind::Empty
    } else if find_first(encode_utf8(content_type), json_marker_bytes()) is Some {
        BodyKind::Json
    } else {
        BodyKind::PlainText
    }
}

/// Decides how to decode a successful response from its content type and
/// raw text.
pub fn classify_response_body(content_type: &str, text: &str) -> (r: BodyKind)
    ensures
        r == body_kind_spec(content_type@, text@),
{
    if is_blank(text) {
        return BodyKind::Empty;
    }
    let marker: Vec<u8> = vec![
        97u8, 112u8, 112u8, 108u8, 105u8, 99u8, 97u8, 116u8, 105u8, 111u8, 110u8, 47u8, 106u8,
        115u8, 111u8, 110u8,
    ];
    proof {
        assert(marker@ =~= json_marker_bytes());
    }
    match find_sub(content_type.as_bytes(), marker.as_slice()) {
        Some(_) => BodyKind::Json,
        None => BodyKind::PlainText,
    }
}

/// Whether the text trims to nothing.
fn is_blank(text: &str) -> (r: bool)
    ensures
        r == spec_is_blank(text@),
{
    let len = text.unicode_len();
    let mut i: usize = 0;
    while i < len
        invariant
            i <= len,
            len == text@.len(),
            forall|j: int| 0 <= j < i ==> is_space(#[trigger] text@[j]),
        decreases len - i,
    {
        let c = text.get_char(i);
        let ws = c == ' ' || c == '\t' || c == '\n' || c == '\r' || c == '\u{b}' || c == '\u{c}'
            || c == '\u{85}' || c == '\u{a0}' || c == '\u{1680}' || ((c as u32) >= 0x2000 && (
        c as u32) <= 0x200a) || c == '\u{2028}' || c == '\u{2029}' || c == '\u{202f}' || c
            == '\u{205f}' || c == '\u{3000}';
        if !ws {
            return false;
        }
        i = i + 1;
    }
    true
}

} // verus!
