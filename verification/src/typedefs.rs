use vstd::prelude::*;
use vstd::string::StringExecFns;

use crate::jsontext::{json_string, json_string_exec};

verus! {

// ---------------------------------------------------------------------------
// The nested query payload of the session-open call: the nonce wrapped in
// `json`, wrapped under the key `0`. Its wire form is fixed, so the text
// is written directly and pinned by the contract.
// ---------------------------------------------------------------------------

/// Innermost layer: the session nonce.
#[derive(Clone, Debug)]
pub struct InnerJson {
    pub uuid: String,
}

/// The `json` layer around the nonce.
#[derive(Clone, Debug)]
pub struct OuterJson {
    pub json: InnerJson,
}

/// The whole query payload: the outer layer under the key `0`.
#[derive(Clone, Debug)]
pub struct RootJson {
    pub inner: OuterJson,
}

/// The JSON text of the session-open query for a nonce:
/// `{"0":{"json":{"uuid":<nonce>}}}`.
pub open spec fn root_json_text(uuid: Seq<char>) -> Seq<char> {
    "{\"0\":{\"json\":{\"uuid\":"@ + json_string(uuid) + "}}}"@
}

impl RootJson {
    /// Writes this payload as JSON.
    pub fn to_json(&self) -> (r: String)
        ensures
            r@ == root_json_text(self.inner.json.uuid@),
    {
        let mut s = String::from_str("{\"0\":{\"json\":{\"uuid\":");
        let p = json_string_exec(self.inner.json.uuid.as_str());
        s.append(p.as_str());
        s.append("}}}");
        proof {
            assert(s@ =~= root_json_text(self.inner.json.uuid@));
        }
        s
    }

    /// Writes the session-open query payload for `uuid`.
    pub fn to_string(uuid: &str) -> (r: String)
        ensures
            r@ == root_json_text(uuid@),
    {
        let query = RootJson {
            inner: OuterJson { json: InnerJson { uuid: String::from_str(uuid) } },
        };
        query.to_json()
    }
}

} // verus!
