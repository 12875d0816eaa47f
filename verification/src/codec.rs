//! The calls into `stellar-strkey`, `stellar-xdr` and `base64`.
//!
//! Every function here is trusted: Verus believes its contract and does not
//! read its body. Each doc comment names the outside function and says what
//! the contract claims of it.
use base64::Engine;
use stellar_xdr::{ReadXdr, WriteXdr};
use vstd::prelude::*;

use crate::ledger::{LedgerAccount, LedgerEntryKind, LedgerSigner, SignerKeyKind, StrkeyKind};
use stellar_strkey::Strkey;
use stellar_xdr::LedgerEntryData;

verus! {

#[verifier::external_type_specification]
#[verifier::external_body]
pub struct ExStrkey(stellar_strkey::Strkey);

#[verifier::external_type_specification]
#[verifier::external_body]
pub struct ExLedgerEntryData(stellar_xdr::LedgerEntryData);

#[verifier::external_type_specification]
#[verifier::external_body]
pub struct ExXdrAccountEntry(stellar_xdr::AccountEntry);

#[verifier::external_type_specification]
#[verifier::external_body]
pub struct ExXdrSigner(stellar_xdr::Signer);

#[verifier::external_type_specification]
#[verifier::external_body]
pub struct ExXdrSignerKey(stellar_xdr::SignerKey);

/// What `stellar_strkey::Strkey::from_string` yields for a text: the kind of
/// the decoded strkey, or the `Display` text of its `DecodeError`.
pub uninterp spec fn strkey_decode(text: Seq<char>) -> Result<StrkeyKind, Seq<char>>;

/// The `Display` text of `stellar_strkey::Strkey::PublicKeyEd25519` for a key.
pub uninterp spec fn strkey_public_key_text(key: Seq<u8>) -> Seq<char>;

/// What `base64::engine::general_purpose::STANDARD.encode` yields for bytes.
pub uninterp spec fn base64_encode(bytes: Seq<u8>) -> Seq<char>;

/// What `base64::engine::general_purpose::STANDARD.decode` yields for a text:
/// the bytes, or the `Display` text of its `DecodeError`.
pub uninterp spec fn base64_decode(text: Seq<char>) -> Result<Seq<u8>, Seq<char>>;

/// What `stellar_xdr::LedgerEntry::read_xdr` reads from the front of a byte
/// string with nesting depth limited to `depth`: the entry's data, or the
/// `Display` text of its error (too deep a value is such an error).
pub uninterp spec fn xdr_ledger_entry(bytes: Seq<u8>, depth: u32) -> Result<LedgerEntryKind, Seq<char>>;

/// What `stellar_xdr::LedgerEntryData::read_xdr` reads from the front of a
/// byte string with nesting depth limited to `depth`: the data, or the
/// `Display` text of its error (too deep a value is such an error).
pub uninterp spec fn xdr_ledger_entry_data(bytes: Seq<u8>, depth: u32) -> Result<LedgerEntryKind, Seq<char>>;

/// Largest nesting depth the XDR readers are asked to follow. Each level is
/// a few stack frames, so this stays far within a thread's stack, and it is
/// far above the depth of any account entry.
pub open spec fn max_xdr_depth() -> u32 {
    500
}

/// The XDR encoding of `LedgerKey::Account` for an Ed25519 account key:
/// the `LedgerEntryType` discriminant `ACCOUNT` (0) and the `PublicKeyType`
/// discriminant `PUBLIC_KEY_TYPE_ED25519` (0), each a big-endian 4-byte
/// integer, then the 32 key bytes as fixed-length opaque data.
pub open spec fn account_key_xdr(key: Seq<u8>) -> Seq<u8> {
    seq![0u8, 0u8, 0u8, 0u8, 0u8, 0u8, 0u8, 0u8] + key
}

/// Relates a `Result` with a `String` error to its model over `Seq<char>`.
pub open spec fn text_result_matches<T>(r: Result<T, String>, m: Result<T, Seq<char>>) -> bool {
    match r {
        Ok(v) => m == Ok::<T, Seq<char>>(v),
        Err(e) => m == Err::<T, Seq<char>>(e@),
    }
}

/// `text` is the strkey of the Ed25519 public key `key`.
pub open spec fn decodes_to_public_key(text: Seq<char>, key: [u8; 32]) -> bool {
    strkey_decode(text) == Ok::<StrkeyKind, Seq<char>>(StrkeyKind::PublicKeyEd25519(key))
}

/// `text` is valid standard base64 for `bytes`.
pub open spec fn decodes_base64_to(text: Seq<char>, bytes: Seq<u8>) -> bool {
    base64_decode(text) == Ok::<Seq<u8>, Seq<char>>(bytes)
}

/// Relates a byte-vector result to its model over sequences.
pub open spec fn bytes_result_matches(r: Result<Vec<u8>, String>, m: Result<Seq<u8>, Seq<char>>) -> bool {
    match r {
        Ok(v) => m == Ok::<Seq<u8>, Seq<char>>(v@),
        Err(e) => m == Err::<Seq<u8>, Seq<char>>(e@),
    }
}

/// Moves the variant of a decoded strkey into [`StrkeyKind`].
#[verifier::external_body]
fn strkey_kind_of(key: stellar_strkey::Strkey) -> StrkeyKind {
    match key {
        Strkey::PublicKeyEd25519(pk) => StrkeyKind::PublicKeyEd25519(pk.0),
        Strkey::PreAuthTx(_) => StrkeyKind::PreAuthTx,
        Strkey::HashX(_) => StrkeyKind::HashX,
        Strkey::MuxedAccountEd25519(_) => StrkeyKind::MuxedAccountEd25519,
        Strkey::SignedPayloadEd25519(_) => StrkeyKind::SignedPayloadEd25519,
        Strkey::Contract(_) => StrkeyKind::Contract,
        Strkey::LiquidityPool(_) => StrkeyKind::LiquidityPool,
        Strkey::ClaimableBalance(_) => StrkeyKind::ClaimableBalance,
        Strkey::MuxedContract(_) => StrkeyKind::MuxedContract,
    }
}

/// Calls `stellar_strkey::Strkey::from_string`. Claimed: the result is the
/// named decoding [`strkey_decode`] of the text; an error is reported by the
/// error's `Display` text.
#[verifier::external_body]
pub(crate) fn decode_strkey(text: &str) -> (r: Result<StrkeyKind, String>)
    ensures
        text_result_matches(r, strkey_decode(text@)),
{
    match stellar_strkey::Strkey::from_string(text) {
        Ok(key) => Ok(strkey_kind_of(key)),
        Err(e) => Err(e.to_string()),
    }
}

/// Formats `stellar_strkey::Strkey::PublicKeyEd25519` with `Display`.
/// Claimed: the text is the named [`strkey_public_key_text`] of the key, and
/// `Strkey::from_string` decodes it back to the same public key (the crate
/// documents that every strkey kind round-trips through its text).
#[verifier::external_body]
pub(crate) fn encode_public_key(key: [u8; 32]) -> (r: String)
    ensures
        r@ == strkey_public_key_text(key@),
        decodes_to_public_key(r@, key),
{
    let strkey = stellar_strkey::Strkey::PublicKeyEd25519(stellar_strkey::ed25519::PublicKey(key));
    format!("{strkey}")
}

/// Calls `WriteXdr::write_xdr` on `LedgerKey::Account` for an Ed25519 key,
/// into a `Vec` with `Limits::none()`. Claimed: it succeeds (a `Vec` writer
/// never fails, and 40 bytes written a few levels deep stay within the
/// unlimited limits) and
/// writes exactly [`account_key_xdr`] of the key.
#[verifier::external_body]
pub(crate) fn write_account_ledger_key(key: [u8; 32]) -> (r: Result<Vec<u8>, String>)
    ensures
        r is Ok,
        r->Ok_0@ == account_key_xdr(key@),
{
    let id = stellar_xdr::PublicKey::PublicKeyTypeEd25519(stellar_xdr::Uint256(key));
    let ledger_key = stellar_xdr::LedgerKey::Account(
        stellar_xdr::LedgerKeyAccount { account_id: stellar_xdr::AccountId(id) },
    );
    let mut buf = Vec::new();
    let mut limited = stellar_xdr::Limited::new(&mut buf, stellar_xdr::Limits::none());
    match ledger_key.write_xdr(&mut limited) {
        Ok(()) => Ok(buf),
        Err(e) => Err(e.to_string()),
    }
}

/// Calls `base64::engine::general_purpose::STANDARD.encode`. Claimed: the
/// text is the named [`base64_encode`] of the bytes, and `STANDARD.decode`
/// gives the same bytes back (padded canonical encoding round-trips).
/// The length bound is that of the encoder's output-size computation, which
/// panics when the padded output length overflows `usize`.
#[verifier::external_body]
pub(crate) fn encode_base64(bytes: &[u8]) -> (r: String)
    requires
        bytes@.len() / 3 * 4 + 4 <= usize::MAX,
    ensures
        r@ == base64_encode(bytes@),
        decodes_base64_to(r@, bytes@),
{
    base64::engine::general_purpose::STANDARD.encode(bytes)
}

/// Calls `base64::engine::general_purpose::STANDARD.decode`. Claimed: the
/// result is the named [`base64_decode`] of the text; an error is reported by
/// its `Display` text.
#[verifier::external_body]
pub(crate) fn decode_base64(text: &str) -> (r: Result<Vec<u8>, String>)
    ensures
        bytes_result_matches(r, base64_decode(text@)),
{
    match base64::engine::general_purpose::STANDARD.decode(text) {
        Ok(bytes) => Ok(bytes),
        Err(e) => Err(e.to_string()),
    }
}

/// Moves the kind of a signer key into [`SignerKeyKind`].
#[verifier::external_body]
fn signer_key_of(key: &stellar_xdr::SignerKey) -> SignerKeyKind {
    match key {
        stellar_xdr::SignerKey::Ed25519(k) => SignerKeyKind::Ed25519(k.0),
        stellar_xdr::SignerKey::PreAuthTx(k) => SignerKeyKind::PreAuthTx(k.0),
        stellar_xdr::SignerKey::HashX(k) => SignerKeyKind::HashX(k.0),
        stellar_xdr::SignerKey::Ed25519SignedPayload(_) => SignerKeyKind::Ed25519SignedPayload,
    }
}

/// Moves the fields of a signer into [`LedgerSigner`].
#[verifier::external_body]
fn signer_of(signer: &stellar_xdr::Signer) -> LedgerSigner {
    LedgerSigner { key: signer_key_of(&signer.key), weight: signer.weight }
}

/// Moves the read fields of an account entry into [`LedgerAccount`].
#[verifier::external_body]
fn account_entry_of(acc: stellar_xdr::AccountEntry) -> LedgerAccount {
    LedgerAccount {
        balance: acc.balance,
        seq_num: acc.seq_num.0,
        num_sub_entries: acc.num_sub_entries,
        signers: acc.signers.iter().map(signer_of).collect(),
    }
}

/// Moves the variant of ledger entry data into [`LedgerEntryKind`].
#[verifier::external_body]
fn entry_kind_of(data: stellar_xdr::LedgerEntryData) -> LedgerEntryKind {
    match data {
        LedgerEntryData::Account(acc) => LedgerEntryKind::Account(account_entry_of(acc)),
        LedgerEntryData::Trustline(_) => LedgerEntryKind::Trustline,
        LedgerEntryData::Offer(_) => LedgerEntryKind::Offer,
        LedgerEntryData::Data(_) => LedgerEntryKind::Data,
        LedgerEntryData::ClaimableBalance(_) => LedgerEntryKind::ClaimableBalance,
        LedgerEntryData::LiquidityPool(_) => LedgerEntryKind::LiquidityPool,
        LedgerEntryData::ContractData(_) => LedgerEntryKind::ContractData,
        LedgerEntryData::ContractCode(_) => LedgerEntryKind::ContractCode,
        LedgerEntryData::ConfigSetting(_) => LedgerEntryKind::ConfigSetting,
        LedgerEntryData::Ttl(_) => LedgerEntryKind::Ttl,
    }
}

/// Calls `stellar_xdr::LedgerEntry::read_xdr` over a cursor on the bytes,
/// with the depth limit `depth` and no length limit (`Limits::depth`).
/// Claimed: the result is the named [`xdr_ledger_entry`] of the bytes and
/// depth. The bound on `depth` keeps the recursive reader within the stack:
/// `stellar-xdr` documents its depth limit as the guard against overflow.
#[verifier::external_body]
pub(crate) fn read_ledger_entry(bytes: &[u8], depth: u32) -> (r: Result<LedgerEntryKind, String>)
    requires
        depth <= max_xdr_depth(),
    ensures
        text_result_matches(r, xdr_ledger_entry(bytes@, depth)),
{
    let limits = stellar_xdr::Limits::depth(depth);
    let mut cursor = std::io::Cursor::new(bytes);
    let mut limited = stellar_xdr::Limited::new(&mut cursor, limits);
    match stellar_xdr::LedgerEntry::read_xdr(&mut limited) {
        Ok(entry) => Ok(entry_kind_of(entry.data)),
        Err(e) => Err(e.to_string()),
    }
}

/// Calls `stellar_xdr::LedgerEntryData::read_xdr` over a cursor on the
/// bytes, with the depth limit `depth` and no length limit
/// (`Limits::depth`), as [`read_ledger_entry`] does. Claimed: the result is the named
/// [`xdr_ledger_entry_data`] of the bytes and depth.
#[verifier::external_body]
pub(crate) fn read_ledger_entry_data(bytes: &[u8], depth: u32) -> (r: Result<LedgerEntryKind, String>)
    requires
        depth <= max_xdr_depth(),
    ensures
        text_result_matches(r, xdr_ledger_entry_data(bytes@, depth)),
{
    let limits = stellar_xdr::Limits::depth(depth);
    let mut cursor = std::io::Cursor::new(bytes);
    let mut limited = stellar_xdr::Limited::new(&mut cursor, limits);
    match stellar_xdr::LedgerEntryData::read_xdr(&mut limited) {
        Ok(data) => Ok(entry_kind_of(data)),
        Err(e) => Err(e.to_string()),
    }
}

} // verus!
