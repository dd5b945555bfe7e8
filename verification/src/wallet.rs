//! The payer's wallet: which configured source to load it from, and the parsing of keypair
//! files and secret texts.
use crate::sdk::{bs58_decode, json_byte_array, pubkey_base58, spec_bs58_decode, spec_json_byte_array, spec_keypair_bytes_valid, spec_pubkey_base58};
use crate::text::{spec_trim, spec_trim_start, trim, trim_is_empty, trim_start_starts_with};
use crate::tx::PayerKeypair;
use vstd::prelude::*;

verus! {

/// Where the payer's keypair comes from: the first setting that is not blank, in the order
/// `KEYPAIR_PATH`, `WALLET_PRIVATE_KEY`, `WALLET_PRIVATE_KEY_PATH`.
#[derive(Clone, Debug)]
pub enum WalletSource {
    /// Read the JSON keypair file at this path.
    KeypairFile(String),
    /// Parse this secret text.
    Secret(String),
    /// Read this file and parse its trimmed text as a secret.
    SecretFile(String),
    /// No wallet configured.
    Missing,
}

/// Why a keypair could not be loaded.
#[derive(Clone, Copy, Debug, PartialEq, Eq, Structural)]
pub enum KeyError {
    /// The text is not a JSON array of bytes.
    Json,
    /// A keypair file holds other than 64 bytes (the count kept).
    KeypairJsonLength(usize),
    /// A JSON secret holds other than 64 bytes (the count kept).
    SecretJsonLength(usize),
    /// The text is not base58.
    Base58,
    /// A base58 secret decodes to other than 64 bytes (the count kept).
    Base58Length(usize),
    /// The 64 bytes are not a keypair (the public half does not match the secret half).
    InvalidKeypair,
}

/// Chooses where to load the payer from.
pub fn load_payer(keypair_path: &str, wallet_private_key: &str, wallet_private_key_path: &str) -> (r: WalletSource)
    ensures
        spec_trim(keypair_path@).len() > 0 ==> (r matches WalletSource::KeypairFile(p) && p@ == keypair_path@),
        spec_trim(keypair_path@).len() == 0 && spec_trim(wallet_private_key@).len() > 0
            ==> (r matches WalletSource::Secret(s) && s@ == wallet_private_key@),
        spec_trim(keypair_path@).len() == 0 && spec_trim(wallet_private_key@).len() == 0 && spec_trim(wallet_private_key_path@).len() > 0
            ==> (r matches WalletSource::SecretFile(p) && p@ == wallet_private_key_path@),
        spec_trim(keypair_path@).len() == 0 && spec_trim(wallet_private_key@).len() == 0 && spec_trim(wallet_private_key_path@).len() == 0
            ==> r is Missing,
{
    if !trim_is_empty(keypair_path) {
        return WalletSource::KeypairFile(keypair_path.to_string());
    }
    if !trim_is_empty(wallet_private_key) {
        return WalletSource::Secret(wallet_private_key.to_string());
    }
    if !trim_is_empty(wallet_private_key_path) {
        return WalletSource::SecretFile(wallet_private_key_path.to_string());
    }
    WalletSource::Missing
}

/// The keypair bytes of 64 decoded bytes, or the error for them.
pub open spec fn spec_keypair_of(bytes: Seq<u8>, length_error: KeyError) -> Result<Seq<u8>, KeyError> {
    if bytes.len() != 64 {
        Err(length_error)
    } else if !spec_keypair_bytes_valid(bytes) {
        Err(KeyError::InvalidKeypair)
    } else {
        Ok(bytes)
    }
}

/// Whether a load result holds the keypair of these bytes, or this error.
pub open spec fn keypair_result_is(r: Result<PayerKeypair, KeyError>, s: Result<Seq<u8>, KeyError>) -> bool {
    match r {
        Ok(k) => s == Ok::<Seq<u8>, KeyError>(k.key_bytes()),
        Err(e) => s == Err::<Seq<u8>, KeyError>(e),
    }
}

/// A keypair file's text: a JSON array of the 64 keypair bytes.
pub open spec fn spec_read_keypair_json(contents: Seq<char>) -> Result<Seq<u8>, KeyError> {
    match spec_json_byte_array(contents) {
        None => Err(KeyError::Json),
        Some(v) => spec_keypair_of(v, KeyError::KeypairJsonLength(v.len() as usize)),
    }
}

/// A secret text: a JSON array of 64 bytes when it starts (after white space) with `[`,
/// else the base58 text (trimmed) of 64 bytes.
pub open spec fn spec_parse_secret(s: Seq<char>) -> Result<Seq<u8>, KeyError> {
    let t = spec_trim_start(s);
    if t.len() > 0 && t[0] == '[' {
        match spec_json_byte_array(s) {
            None => Err(KeyError::Json),
            Some(v) => spec_keypair_of(v, KeyError::SecretJsonLength(v.len() as usize)),
        }
    } else {
        match spec_bs58_decode(spec_trim(s)) {
            None => Err(KeyError::Base58),
            Some(v) => spec_keypair_of(v, KeyError::Base58Length(v.len() as usize)),
        }
    }
}

/// The keypair of decoded bytes.
fn keypair_of(bytes: Vec<u8>, length_error: KeyError) -> (r: Result<PayerKeypair, KeyError>)
    ensures
        keypair_result_is(r, spec_keypair_of(bytes@, length_error)),
{
    if bytes.len() != 64 {
        return Err(length_error);
    }
    match PayerKeypair::from_bytes(bytes.as_slice()) {
        Some(k) => Ok(k),
        None => Err(KeyError::InvalidKeypair),
    }
}

/// Parses the text of a keypair file.
pub fn read_keypair_json(contents: &str) -> (r: Result<PayerKeypair, KeyError>)
    ensures
        keypair_result_is(r, spec_read_keypair_json(contents@)),
{
    match json_byte_array(contents) {
        None => Err(KeyError::Json),
        Some(v) => {
            let n = v.len();
            keypair_of(v, KeyError::KeypairJsonLength(n))
        },
    }
}

/// Parses a secret: a JSON byte array or base58 text of the 64 keypair bytes.
pub fn parse_secret(s: &str) -> (r: Result<PayerKeypair, KeyError>)
    ensures
        keypair_result_is(r, spec_parse_secret(s@)),
{
    if trim_start_starts_with(s, '[') {
        match json_byte_array(s) {
            None => Err(KeyError::Json),
            Some(v) => {
                let n = v.len();
                keypair_of(v, KeyError::SecretJsonLength(n))
            },
        }
    } else {
        let t = trim(s);
        match bs58_decode(t.as_str()) {
            None => Err(KeyError::Base58),
            Some(v) => {
                let n = v.len();
                keypair_of(v, KeyError::Base58Length(n))
            },
        }
    }
}

/// The payer's address in base58.
pub fn pubkey_string(kp: &PayerKeypair) -> (r: String)
    ensures
        r@ == spec_pubkey_base58(kp.spec_pubkey()@),
{
    pubkey_base58(&kp.pubkey())
}

} // verus!
