//! Validation of inbound submission requests: the compute half of the
//! submit endpoints. Each request is checked field by field and converted
//! into the claimed identity and a superblock event for the engine; the
//! transport layer only moves bytes and renders the resulting error.

use vstd::prelude::*;

use vstd::string::StringSliceAdditionalSpecFns;
use vstd::utf8::encode_utf8;

use crate::hexstr::{
    decode_pubkey_from_hex, hex_decoded, is_bitstring, is_bitstring_spec, is_hex64, is_hex64_spec,
    is_hex_bytes, strip_0x, WalletParseError,
};
use crate::pki::PubKey;
use crate::session::{SuperblockEvent, WitnessProof};

verus! {

/// A request reporting a mined superblock.
#[derive(Debug, Clone)]
pub struct MineReq {
    pub wallet: String,
    pub mu_level: u8,
    pub block_height: u64,
}

/// The Merkle proof of a witness request, as it travels on the wire.
#[derive(Debug, Clone)]
pub struct ProofJson {
    pub siblings: Vec<String>,
    pub path: String,
}

/// A request reporting a witnessed superblock.
#[derive(Debug, Clone)]
pub struct WitnessReq {
    pub wallet: String,
    pub mu_level: u8,
    pub proof: ProofJson,
}

/// Rejections of malformed requests.
#[derive(Debug, Clone, Copy, PartialEq, Eq)]
pub enum RequestError {
    InvalidMuLevel,
    InvalidSiblings,
    InvalidPath,
    InvalidWalletHex,
    WalletTooShort,
}

/// The level range the endpoints accept before the engine's own policy
/// check.
pub open spec fn mu_level_in_range(level: u8) -> bool {
    1 <= level <= 64
}

/// Whether a wallet field parses to an identity.
pub open spec fn wallet_parses(wallet: Seq<char>) -> bool {
    &&& is_hex_bytes(strip_0x(encode_utf8(wallet)))
    &&& hex_decoded(strip_0x(encode_utf8(wallet))).len() >= 32
}

/// The identity bytes a wallet field parses to.
pub open spec fn wallet_key(wallet: Seq<char>) -> Seq<u8> {
    hex_decoded(strip_0x(encode_utf8(wallet))).take(32)
}

/// Whether a witness request's sibling list is acceptable on the wire:
/// non-empty, at most 64 entries, each a `0x`-prefixed 64-digit hash.
pub open spec fn siblings_ok(siblings: Seq<String>) -> bool {
    &&& 1 <= siblings.len() <= 64
    &&& forall|i: int| 0 <= i < siblings.len() ==> is_hex64_spec((#[trigger] siblings[i])@)
}

/// Maps a wallet-parsing failure to the endpoint's request error.
pub fn wallet_error(e: WalletParseError) -> (r: RequestError)
    ensures
        r == (match e {
            WalletParseError::InvalidHex => RequestError::InvalidWalletHex,
            WalletParseError::TooShort => RequestError::WalletTooShort,
        }),
{
    match e {
        WalletParseError::InvalidHex => RequestError::InvalidWalletHex,
        WalletParseError::TooShort => RequestError::WalletTooShort,
    }
}

/// Validates a mined-superblock request: the level must lie in the wire
/// range and the wallet must parse; the result is the claimed identity and
/// the event handed to the engine.
pub fn validate_mine_request(req: &MineReq) -> (r: Result<(PubKey, SuperblockEvent), RequestError>)
    ensures
        !mu_level_in_range(req.mu_level) ==> r == Err::<(PubKey, SuperblockEvent), RequestError>(
            RequestError::InvalidMuLevel,
        ),
        mu_level_in_range(req.mu_level) && !wallet_parses(req.wallet@) ==> (r matches Err(e) && (e
            == RequestError::InvalidWalletHex || e == RequestError::WalletTooShort) && (e
            == RequestError::WalletTooShort <==> is_hex_bytes(strip_0x(encode_utf8(req.wallet@))))),
        mu_level_in_range(req.mu_level) && wallet_parses(req.wallet@) ==> (r matches Ok((pk, ev))
            && pk@ == wallet_key(req.wallet@) && ev.mu_level == req.mu_level && !ev.is_witness
            && ev.witness_proof is Missing && ev.block_height == req.block_height),
{
    if !(1 <= req.mu_level && req.mu_level <= 64) {
        return Err(RequestError::InvalidMuLevel);
    }
    match decode_pubkey_from_hex(req.wallet.as_str()) {
        Err(e) => Err(wallet_error(e)),
        Ok(pk) => Ok(
            (
                pk,
                SuperblockEvent {
                    mu_level: req.mu_level,
                    is_witness: false,
                    witness_proof: WitnessProof::Missing,
                    block_height: req.block_height,
                },
            ),
        ),
    }
}

/// Whether every sibling entry is a `0x`-prefixed 64-digit hash, with the
/// count limits of the wire format.
fn check_siblings(siblings: &Vec<String>) -> (r: bool)
    ensures
        r == siblings_ok(siblings@),
{
    if siblings.len() == 0 || siblings.len() > 64 {
        return false;
    }
    let mut i: usize = 0;
    while i < siblings.len()
        invariant
            i <= siblings@.len(),
            1 <= siblings@.len() <= 64,
            forall|j: int| 0 <= j < i ==> is_hex64_spec((#[trigger] siblings@[j])@),
        decreases siblings@.len() - i,
    {
        if !is_hex64(siblings[i].as_str()) {
            return false;
        }
        i += 1;
    }
    true
}

/// Validates a witnessed-superblock request: level range, sibling and path
/// shape, and the wallet; the result is the claimed identity and the
/// witness event handed to the engine. The wire proof carries no claimed
/// root, so the event's Merkle data is absent and the engine rejects the
/// claim unless the data is supplied another way.
pub fn validate_witness_request(req: &WitnessReq) -> (r: Result<
    (PubKey, SuperblockEvent),
    RequestError,
>)
    ensures
        !mu_level_in_range(req.mu_level) ==> r == Err::<(PubKey, SuperblockEvent), RequestError>(
            RequestError::InvalidMuLevel,
        ),
        mu_level_in_range(req.mu_level) && !siblings_ok(req.proof.siblings@) ==> r == Err::<
            (PubKey, SuperblockEvent),
            RequestError,
        >(RequestError::InvalidSiblings),
        mu_level_in_range(req.mu_level) && siblings_ok(req.proof.siblings@) && !is_bitstring_spec(
            req.proof.path@,
        ) ==> r == Err::<(PubKey, SuperblockEvent), RequestError>(RequestError::InvalidPath),
        mu_level_in_range(req.mu_level) && siblings_ok(req.proof.siblings@) && is_bitstring_spec(
            req.proof.path@,
        ) && !wallet_parses(req.wallet@) ==> (r matches Err(e) && (e
            == RequestError::InvalidWalletHex || e == RequestError::WalletTooShort)),
        mu_level_in_range(req.mu_level) && siblings_ok(req.proof.siblings@) && is_bitstring_spec(
            req.proof.path@,
        ) && wallet_parses(req.wallet@) ==> (r matches Ok((pk, ev)) && pk@ == wallet_key(
            req.wallet@,
        ) && ev.mu_level == req.mu_level && ev.is_witness && ev.witness_proof is Missing
            && ev.block_height == 0),
{
    if !(1 <= req.mu_level && req.mu_level <= 64) {
        return Err(RequestError::InvalidMuLevel);
    }
    if !check_siblings(&req.proof.siblings) {
        return Err(RequestError::InvalidSiblings);
    }
    if !is_bitstring(req.proof.path.as_str()) {
        return Err(RequestError::InvalidPath);
    }
    match decode_pubkey_from_hex(req.wallet.as_str()) {
        Err(e) => Err(wallet_error(e)),
        Ok(pk) => Ok(
            (
                pk,
                SuperblockEvent {
                    mu_level: req.mu_level,
                    is_witness: true,
                    witness_proof: WitnessProof::Missing,
                    block_height: 0,
                },
            ),
        ),
    }
}

} // verus!
