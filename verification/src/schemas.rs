use vstd::prelude::*;
use vstd::string::StringExecFns;

use crate::jsontext::{json_string, json_string_exec};
use crate::numtext::{dec_rep, u64_to_string};

verus! {

// ---------------------------------------------------------------------------
// The decoded shape of the wallet-link response.
//
// The service answers the link operation with a top-level sequence whose
// first element, and every field on the chain below it, may be absent.
// Absence anywhere is a normal outcome, not an error: the interpreter
// collapses it to an indeterminate verdict.
// ---------------------------------------------------------------------------

/// Innermost layer: the eligibility verdict as the service spells it.
#[derive(Clone, Debug)]
pub struct Eligibility {
    pub eligibility: Option<String>,
}

/// Wraps the terminal eligibility object.
#[derive(Clone, Debug)]
pub struct JsonEligibility {
    pub eligibility: Option<Eligibility>,
}

/// The `json` layer of the response chain.
#[derive(Clone, Debug)]
pub struct JsonData {
    pub json: Option<JsonEligibility>,
}

/// The `data` layer of the response chain.
#[derive(Clone, Debug)]
pub struct ResultData {
    pub data: Option<JsonData>,
}

/// One element of the top-level response sequence.
#[derive(Clone, Debug)]
pub struct ResponseItem {
    pub result: Option<ResultData>,
}

/// The whole wallet-link response: a sequence of possibly-absent items.
pub type LinkWalletResponse = Vec<Option<ResponseItem>>;

/// The decoded shape of the session-verification response.
#[derive(Clone, Copy, Debug, PartialEq, Eq, Structural)]
pub struct VerifyAndCreateSessionResponse {
    pub success: bool,
}

// ---------------------------------------------------------------------------
// Request bodies. Their wire form is fixed, field for field, so the
// library writes the JSON itself and the contracts pin the exact text.
// ---------------------------------------------------------------------------

/// The client fingerprint sent with session verification.
#[derive(Clone, Debug)]
pub struct Metadata {
    pub platform: String,
    pub patch_version: u8,
    pub minor_version: u8,
    pub major_version: u8,
}

/// The JSON text of a `Metadata`, in the fixed field order.
pub open spec fn metadata_json(m: Metadata) -> Seq<char> {
    "{\"platform\":"@ + json_string(m.platform@) + ",\"patchVersion\":"@ + dec_rep(
        m.patch_version as int,
    ) + ",\"minorVersion\":"@ + dec_rep(m.minor_version as int) + ",\"majorVersion\":"@ + dec_rep(
        m.major_version as int,
    ) + "}"@
}

impl Metadata {
    /// The fingerprint of the mobile client this flow imitates: platform
    /// `ios`, version 2.30.0.
    pub open spec fn is_default(self) -> bool {
        self.platform@ == "ios"@ && self.patch_version == 0 && self.minor_version == 30
            && self.major_version == 2
    }

    /// Writes the metadata as JSON.
    pub fn to_json(&self) -> (r: String)
        ensures
            r@ == metadata_json(*self),
    {
        let mut s = String::from_str("{\"platform\":");
        let p = json_string_exec(self.platform.as_str());
        s.append(p.as_str());
        s.append(",\"patchVersion\":");
        let t = u64_to_string(self.patch_version as u64);
        s.append(t.as_str());
        s.append(",\"minorVersion\":");
        let t = u64_to_string(self.minor_version as u64);
        s.append(t.as_str());
        s.append(",\"majorVersion\":");
        let t = u64_to_string(self.major_version as u64);
        s.append(t.as_str());
        s.append("}");
        proof {
            assert(s@ =~= metadata_json(*self));
        }
        s
    }
}

impl Default for Metadata {
    /// The fixed mobile fingerprint: platform `ios`, version 2.30.0.
    fn default() -> (r: Metadata)
        ensures
            r.is_default(),
    {
        Metadata {
            platform: String::from_str("ios"),
            patch_version: 0,
            minor_version: 30,
            major_version: 2,
        }
    }
}

/// The JSON text of the default client metadata.
pub open spec fn default_metadata_json() -> Seq<char> {
    "{\"platform\":"@ + json_string("ios"@) + ",\"patchVersion\":"@ + dec_rep(0)
        + ",\"minorVersion\":"@ + dec_rep(30) + ",\"majorVersion\":"@ + dec_rep(2) + "}"@
}

/// The body of the session-verification call.
#[derive(Clone, Debug)]
pub struct VerifyAndCreateSessionBody {
    pub wallet: String,
    pub signature: String,
    pub message: String,
    pub metadata: Metadata,
}

/// The JSON text of a session-verification body.
pub open spec fn verify_body_json(b: VerifyAndCreateSessionBody) -> Seq<char> {
    "{\"wallet\":"@ + json_string(b.wallet@) + ",\"signature\":"@ + json_string(b.signature@)
        + ",\"message\":"@ + json_string(b.message@) + ",\"metadata\":"@ + metadata_json(b.metadata)
        + "}"@
}

impl VerifyAndCreateSessionBody {
    /// A body for this wallet, signature and message, with the default
    /// client fingerprint.
    pub fn new(wallet: &str, signature: &str, message: &str) -> (r: VerifyAndCreateSessionBody)
        ensures
            r.wallet@ == wallet@,
            r.signature@ == signature@,
            r.message@ == message@,
            r.metadata.is_default(),
    {
        VerifyAndCreateSessionBody {
            wallet: String::from_str(wallet),
            signature: String::from_str(signature),
            message: String::from_str(message),
            metadata: Metadata::default(),
        }
    }

    /// Writes the body as JSON.
    pub fn to_json(&self) -> (r: String)
        ensures
            r@ == verify_body_json(*self),
    {
        let mut s = String::from_str("{\"wallet\":");
        let p = json_string_exec(self.wallet.as_str());
        s.append(p.as_str());
        s.append(",\"signature\":");
        let p = json_string_exec(self.signature.as_str());
        s.append(p.as_str());
        s.append(",\"message\":");
        let p = json_string_exec(self.message.as_str());
        s.append(p.as_str());
        s.append(",\"metadata\":");
        let p = self.metadata.to_json();
        s.append(p.as_str());
        s.append("}");
        proof {
            assert(s@ =~= verify_body_json(*self));
        }
        s
    }
}

/// The session-verification body text for these inputs, with the default
/// client fingerprint.
pub open spec fn verify_body_json_of(
    wallet: Seq<char>,
    signature: Seq<char>,
    message: Seq<char>,
) -> Seq<char> {
    "{\"wallet\":"@ + json_string(wallet) + ",\"signature\":"@ + json_string(signature)
        + ",\"message\":"@ + json_string(message) + ",\"metadata\":"@ + default_metadata_json()
        + "}"@
}

/// The payload of the wallet-link call.
#[derive(Clone, Debug)]
pub struct LinkWalletData {
    pub message: String,
    pub wallet: String,
    pub chain: String,
    pub signature: String,
    pub allocation_event: String,
    pub is_ledger: bool,
}

/// The JSON text of a link payload, in the fixed field order.
pub open spec fn link_data_json(d: LinkWalletData) -> Seq<char> {
    "{\"message\":"@ + json_string(d.message@) + ",\"wallet\":"@ + json_string(d.wallet@)
        + ",\"chain\":"@ + json_string(d.chain@) + ",\"signature\":"@ + json_string(d.signature@)
        + ",\"allocationEvent\":"@ + json_string(d.allocation_event@) + ",\"isLedger\":"@ + (
    if d.is_ledger {
        "true"@
    } else {
        "false"@
    }) + "}"@
}

impl LinkWalletData {
    /// A payload for this message, wallet and signature, on the fixed
    /// chain and allocation event, not a ledger device.
    pub fn new(message: &str, wallet: &str, signature: &str) -> (r: LinkWalletData)
        ensures
            r.message@ == message@,
            r.wallet@ == wallet@,
            r.chain@ == "sol"@,
            r.signature@ == signature@,
            r.allocation_event@ == "tge-airdrop-final"@,
            r.is_ledger == false,
    {
        LinkWalletData {
            message: String::from_str(message),
            chain: String::from_str("sol"),
            wallet: String::from_str(wallet),
            signature: String::from_str(signature),
            allocation_event: String::from_str("tge-airdrop-final"),
            is_ledger: false,
        }
    }

    /// Writes the payload as JSON.
    pub fn to_json(&self) -> (r: String)
        ensures
            r@ == link_data_json(*self),
    {
        let mut s = String::from_str("{\"message\":");
        let p = json_string_exec(self.message.as_str());
        s.append(p.as_str());
        s.append(",\"wallet\":");
        let p = json_string_exec(self.wallet.as_str());
        s.append(p.as_str());
        s.append(",\"chain\":");
        let p = json_string_exec(self.chain.as_str());
        s.append(p.as_str());
        s.append(",\"signature\":");
        let p = json_string_exec(self.signature.as_str());
        s.append(p.as_str());
        s.append(",\"allocationEvent\":");
        let p = json_string_exec(self.allocation_event.as_str());
        s.append(p.as_str());
        s.append(",\"isLedger\":");
        if self.is_ledger {
            s.append("true");
        } else {
            s.append("false");
        }
        s.append("}");
        proof {
            assert(s@ =~= link_data_json(*self));
        }
        s
    }
}

/// The link payload text for these inputs, on the fixed chain and
/// allocation event.
pub open spec fn link_data_json_of(
    message: Seq<char>,
    wallet: Seq<char>,
    signature: Seq<char>,
) -> Seq<char> {
    "{\"message\":"@ + json_string(message) + ",\"wallet\":"@ + json_string(wallet) + ",\"chain\":"@
        + json_string("sol"@) + ",\"signature\":"@ + json_string(signature)
        + ",\"allocationEvent\":"@ + json_string("tge-airdrop-final"@) + ",\"isLedger\":"@
        + "false"@ + "}"@
}

/// The whole link body text for these inputs.
pub open spec fn link_body_json_of(
    message: Seq<char>,
    wallet: Seq<char>,
    signature: Seq<char>,
) -> Seq<char> {
    "{\"0\":"@ + ("{\"json\":"@ + link_data_json_of(message, wallet, signature) + "}"@) + "}"@
}

/// The `json` wrapper layer around a link payload.
#[derive(Clone, Debug)]
pub struct LinkWalletJsonWrapper {
    pub json: LinkWalletData,
}

/// The JSON text of the wrapper layer.
pub open spec fn link_wrapper_json(w: LinkWalletJsonWrapper) -> Seq<char> {
    "{\"json\":"@ + link_data_json(w.json) + "}"@
}

impl LinkWalletJsonWrapper {
    pub fn new(data: LinkWalletData) -> (r: LinkWalletJsonWrapper)
        ensures
            r.json == data,
    {
        LinkWalletJsonWrapper { json: data }
    }

    /// Writes the wrapper as JSON.
    pub fn to_json(&self) -> (r: String)
        ensures
            r@ == link_wrapper_json(*self),
    {
        let mut s = String::from_str("{\"json\":");
        let p = self.json.to_json();
        s.append(p.as_str());
        s.append("}");
        proof {
            assert(s@ =~= link_wrapper_json(*self));
        }
        s
    }
}

/// The whole wallet-link request body: the wrapper under the key `0`.
#[derive(Clone, Debug)]
pub struct LinkWalletBody {
    pub outer: LinkWalletJsonWrapper,
}

/// The JSON text of the whole link body.
pub open spec fn link_body_json(b: LinkWalletBody) -> Seq<char> {
    "{\"0\":"@ + link_wrapper_json(b.outer) + "}"@
}

impl LinkWalletBody {
    /// The full body for this message, wallet and signature.
    pub fn new(message: &str, wallet: &str, signature: &str) -> (r: LinkWalletBody)
        ensures
            r.outer.json.message@ == message@,
            r.outer.json.wallet@ == wallet@,
            r.outer.json.chain@ == "sol"@,
            r.outer.json.signature@ == signature@,
            r.outer.json.allocation_event@ == "tge-airdrop-final"@,
            r.outer.json.is_ledger == false,
    {
        let data = LinkWalletData::new(message, wallet, signature);
        let json_wrapper = LinkWalletJsonWrapper::new(data);
        LinkWalletBody { outer: json_wrapper }
    }

    /// Writes the body as JSON.
    pub fn to_json(&self) -> (r: String)
        ensures
            r@ == link_body_json(*self),
    {
        let mut s = String::from_str("{\"0\":");
        let p = self.outer.to_json();
        s.append(p.as_str());
        s.append("}");
        proof {
            assert(s@ =~= link_body_json(*self));
        }
        s
    }
}

} // verus!
