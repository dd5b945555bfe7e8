//! Jito block-engine JSON-RPC: endpoint URLs and authentication, transaction encodings,
//! reply interpretation, and bundle ids.
use crate::sdk::{
    base64_encode, bs58_encode, parse_signature, push_char, sha256, spec_base64_encode,
    spec_bs58_encode, spec_parse_signature, spec_sha256,
};
use crate::text::{concat, law_trim_end_matches_strips, spec_trim, spec_trim_end_matches, trim, trim_end_matches};
use vstd::prelude::*;

verus! {

/// The lower-case hexadecimal digit of `v` (below 16).
pub open spec fn spec_hex_digit(v: u8) -> char {
    if v < 10 { (48 + v) as char } else { (87 + v) as char }
}

/// Lower-case hexadecimal text of `bytes`, two digits per byte, high nibble first.
pub open spec fn spec_to_hex(bytes: Seq<u8>) -> Seq<char> {
    Seq::new(2 * bytes.len(), |i: int| if i % 2 == 0 { spec_hex_digit(bytes[i / 2] / 16) } else { spec_hex_digit(bytes[i / 2] % 16) })
}

/// The hexadecimal digit of a nibble.
fn hex_digit(v: u8) -> (r: char)
    requires
        v < 16,
    ensures
        r == spec_hex_digit(v),
{
    if v < 10 { (48 + v) as char } else { (87 + v) as char }
}

/// Lower-case hexadecimal text of `bytes`.
pub fn to_hex(bytes: &[u8]) -> (r: String)
    ensures
        r@ == spec_to_hex(bytes@),
{
    let mut out = String::new();
    let mut i: usize = 0;
    while i < bytes.len()
        invariant
            0 <= i <= bytes@.len(),
            out@ =~= spec_to_hex(bytes@).take(2 * i),
        decreases bytes.len() - i,
    {
        let b = bytes[i];
        push_char(&mut out, hex_digit(b / 16));
        push_char(&mut out, hex_digit(b % 16));
        i = i + 1;
    }
    assert(spec_to_hex(bytes@).take(2 * i) =~= spec_to_hex(bytes@));
    out
}

/// The bytes of the signatures that parse, concatenated in order (unparsable ones are
/// skipped).
pub open spec fn spec_signature_bytes(sigs: Seq<Seq<char>>) -> Seq<u8>
    decreases sigs.len(),
{
    if sigs.len() == 0 {
        Seq::empty()
    } else {
        spec_signature_bytes(sigs.drop_last()) + match spec_parse_signature(sigs.last()) {
            Some(b) => b,
            None => Seq::empty(),
        }
    }
}

/// The texts of a list of strings.
pub open spec fn texts(v: Seq<String>) -> Seq<Seq<char>> {
    v.map_values(|s: String| s@)
}

/// The plain value of a JSON-RPC client for one block engine: its base URL (without
/// trailing slashes) and its optional authentication UUID.
#[derive(Clone, Debug)]
pub struct JitoRpcClient {
    base_url: String,
    uuid: String,
}

impl JitoRpcClient {
    /// The base URL.
    pub closed spec fn spec_base_url(&self) -> Seq<char> {
        self.base_url@
    }

    /// The authentication UUID as configured.
    pub closed spec fn spec_uuid(&self) -> Seq<char> {
        self.uuid@
    }

    /// A client for `base_url` with its trailing slashes removed (so the endpoint paths
    /// join with a single slash).
    pub fn new(base_url: &str, uuid: String) -> (r: JitoRpcClient)
        ensures
            r.spec_base_url() == spec_trim_end_matches(base_url@, '/'),
            r.spec_base_url().len() == 0 || r.spec_base_url().last() != '/',
            r.spec_uuid() == uuid@,
    {
        proof {
            law_trim_end_matches_strips(base_url@, '/');
        }
        JitoRpcClient { base_url: trim_end_matches(base_url, '/'), uuid }
    }

    /// The base URL.
    pub fn base_url(&self) -> (r: &str)
        ensures
            r@ == self.spec_base_url(),
    {
        self.base_url.as_str()
    }

    /// The bundles endpoint: `{base}/api/v1/bundles`.
    pub fn bundles_url(&self) -> (r: String)
        ensures
            r@ == self.spec_base_url() + "/api/v1/bundles"@,
    {
        concat(self.base_url.as_str(), "/api/v1/bundles")
    }

    /// The transactions endpoint: `{base}/api/v1/transactions`.
    pub fn txs_url(&self) -> (r: String)
        ensures
            r@ == self.spec_base_url() + "/api/v1/transactions"@,
    {
        concat(self.base_url.as_str(), "/api/v1/transactions")
    }

    /// The `x-jito-auth` header value: the trimmed UUID, when it is not blank.
    pub fn auth_header(&self) -> (r: Option<String>)
        ensures
            spec_trim(self.spec_uuid()).len() == 0 ==> r is None,
            spec_trim(self.spec_uuid()).len() > 0 ==> (r matches Some(h) && h@ == spec_trim(self.spec_uuid())),
    {
        let t = trim(self.uuid.as_str());
        if t.as_str().unicode_len() == 0 {
            None
        } else {
            Some(t)
        }
    }

    /// The bundle id as the block engine computes it: SHA-256 over the concatenated
    /// signatures (base58 texts that do not parse are skipped), in lower-case hex.
    pub fn compute_bundle_id_hex(tx_sigs_base58: &[String]) -> (r: String)
        ensures
            r@ == spec_to_hex(spec_sha256(spec_signature_bytes(texts(tx_sigs_base58@)))),
            r@.len() == 64,
    {
        let mut data: Vec<u8> = Vec::new();
        let mut i: usize = 0;
        while i < tx_sigs_base58.len()
            invariant
                0 <= i <= tx_sigs_base58@.len(),
                data@ == spec_signature_bytes(texts(tx_sigs_base58@).take(i as int)),
            decreases tx_sigs_base58.len() - i,
        {
            let ghost before = data@;
            match parse_signature(tx_sigs_base58[i].as_str()) {
                Some(sig) => {
                    let mut j: usize = 0;
                    while j < 64
                        invariant
                            0 <= j <= 64,
                            data@ =~= before + sig@.take(j as int),
                        decreases 64 - j,
                    {
                        data.push(sig[j]);
                        j = j + 1;
                    }
                    assert(sig@.take(64) =~= sig@);
                },
                None => {},
            }
            assert(texts(tx_sigs_base58@).take(i + 1).drop_last() =~= texts(tx_sigs_base58@).take(i as int));
            i = i + 1;
        }
        assert(texts(tx_sigs_base58@).take(i as int) =~= texts(tx_sigs_base58@));
        let digest = sha256(data.as_slice());
        to_hex(digest.as_slice())
    }
}

/// The JSON-RPC methods whose replies the bot interprets.
#[derive(Clone, Copy, Debug, PartialEq, Eq, Structural)]
pub enum JitoMethod {
    GetTipAccounts,
    SendTransaction,
    SendBundle,
}

impl JitoMethod {
    /// The method name.
    pub open spec fn spec_name(self) -> Seq<char> {
        match self {
            JitoMethod::GetTipAccounts => "getTipAccounts"@,
            JitoMethod::SendTransaction => "sendTransaction"@,
            JitoMethod::SendBundle => "sendBundle"@,
        }
    }

    /// The method name.
    pub fn name(&self) -> (r: &'static str)
        ensures
            r@ == self.spec_name(),
    {
        match self {
            JitoMethod::GetTipAccounts => "getTipAccounts",
            JitoMethod::SendTransaction => "sendTransaction",
            JitoMethod::SendBundle => "sendBundle",
        }
    }
}

/// What a JSON-RPC reply holds: the text of its `error` member when there is one, else its
/// `result` member when that is a string.
#[derive(Clone, Debug)]
pub enum RpcReply {
    Error(String),
    Result(Option<String>),
}

/// The outcome of a reply: the result text, or the error message the bot reports
/// (`"{method} error: {error}"`, or `"{method} missing result"`).
pub open spec fn spec_reply_outcome(method: JitoMethod, reply: RpcReply) -> Result<Seq<char>, Seq<char>> {
    match reply {
        RpcReply::Error(e) => Err(method.spec_name() + " error: "@ + e@),
        RpcReply::Result(Some(s)) => Ok(s@),
        RpcReply::Result(None) => Err(method.spec_name() + " missing result"@),
    }
}

/// Interprets the reply of a `sendTransaction` or `sendBundle` call (the signature or the
/// bundle id).
pub fn reply_outcome(method: JitoMethod, reply: RpcReply) -> (r: Result<String, String>)
    ensures
        match r {
            Ok(s) => spec_reply_outcome(method, reply) == Ok::<Seq<char>, Seq<char>>(s@),
            Err(e) => spec_reply_outcome(method, reply) == Err::<Seq<char>, Seq<char>>(e@),
        },
{
    match reply {
        RpcReply::Error(e) => {
            let head = concat(method.name(), " error: ");
            let msg = concat(head.as_str(), e.as_str());
            assert(msg@ =~= method.spec_name() + " error: "@ + e@);
            Err(msg)
        },
        RpcReply::Result(Some(s)) => Ok(s),
        RpcReply::Result(None) => Err(concat(method.name(), " missing result")),
    }
}

/// The strings of a `getTipAccounts` result array, in order (other values are dropped).
pub open spec fn spec_tip_accounts(items: Seq<Option<String>>) -> Seq<Seq<char>>
    decreases items.len(),
{
    if items.len() == 0 {
        Seq::empty()
    } else {
        spec_tip_accounts(items.drop_last()) + match items.last() {
            Some(s) => seq![s@],
            None => Seq::empty(),
        }
    }
}

/// Interprets a `getTipAccounts` reply: the error, a missing result array, or the tip
/// accounts it lists.
pub fn tip_accounts_outcome(error: Option<String>, result: Option<Vec<Option<String>>>) -> (r: Result<Vec<String>, String>)
    ensures
        error matches Some(e) ==> (r matches Err(m) && m@ == JitoMethod::GetTipAccounts.spec_name() + " error: "@ + e@),
        error is None && result is None ==> (r matches Err(m) && m@ == JitoMethod::GetTipAccounts.spec_name() + " missing result"@),
        error is None && result is Some ==> (r matches Ok(v) && texts(v@) == spec_tip_accounts(result->0@)),
{
    if let Some(e) = error {
        let head = concat(JitoMethod::GetTipAccounts.name(), " error: ");
        let msg = concat(head.as_str(), e.as_str());
        assert(msg@ =~= JitoMethod::GetTipAccounts.spec_name() + " error: "@ + e@);
        return Err(msg);
    }
    let items = match result {
        Some(v) => v,
        None => return Err(concat(JitoMethod::GetTipAccounts.name(), " missing result")),
    };
    let mut out: Vec<String> = Vec::new();
    let mut i: usize = 0;
    while i < items.len()
        invariant
            0 <= i <= items@.len(),
            texts(out@) == spec_tip_accounts(items@.take(i as int)),
        decreases items.len() - i,
    {
        match &items[i] {
            Some(s) => {
                out.push(s.clone());
            },
            None => {},
        }
        assert(items@.take(i + 1).drop_last() =~= items@.take(i as int));
        assert(texts(out@) =~= spec_tip_accounts(items@.take(i + 1)));
        i = i + 1;
    }
    assert(items@.take(i as int) =~= items@);
    Ok(out)
}

/// Each transaction of a bundle in base58 (`sendBundle` wants base58, not base64).
pub fn bundle_base58(txs: &Vec<Vec<u8>>) -> (r: Vec<String>)
    ensures
        r@.len() == txs@.len(),
        forall|i: int| 0 <= i < txs@.len() ==> #[trigger] r@[i]@ == spec_bs58_encode(txs@[i]@),
{
    let mut out: Vec<String> = Vec::new();
    let mut i: usize = 0;
    while i < txs.len()
        invariant
            0 <= i <= txs@.len(),
            out@.len() == i,
            forall|k: int| 0 <= k < i ==> #[trigger] out@[k]@ == spec_bs58_encode(txs@[k]@),
        decreases txs.len() - i,
    {
        out.push(bs58_encode(txs[i].as_slice()));
        i = i + 1;
    }
    out
}

/// Each transaction of a bundle in base64 (for block engines that expect it).
pub fn bundle_base64(txs: &Vec<Vec<u8>>) -> (r: Vec<String>)
    ensures
        r@.len() == txs@.len(),
        forall|i: int| 0 <= i < txs@.len() ==> #[trigger] r@[i]@ == spec_base64_encode(txs@[i]@),
{
    let mut out: Vec<String> = Vec::new();
    let mut i: usize = 0;
    while i < txs.len()
        invariant
            0 <= i <= txs@.len(),
            out@.len() == i,
            forall|k: int| 0 <= k < i ==> #[trigger] out@[k]@ == spec_base64_encode(txs@[k]@),
        decreases txs.len() - i,
    {
        out.push(base64_encode(txs[i].as_slice()));
        i = i + 1;
    }
    out
}

/// A transaction in base64, as `sendTransaction` expects it.
pub fn transaction_base64(tx: &[u8]) -> (r: String)
    ensures
        r@ == spec_base64_encode(tx@),
{
    base64_encode(tx)
}

} // verus!
