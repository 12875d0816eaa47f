//! Account inspection: from a Stellar address to the ledger key that is
//! fetched, and from the fetched ledger entry to the account's sequence
//! number, balance and signers.
use vstd::prelude::*;

use crate::client::StorageResponse;
use crate::codec::{
    account_key_xdr, base64_decode, base64_encode, decode_base64, decode_strkey,
    decodes_base64_to, decodes_to_public_key, encode_base64, encode_public_key,
    read_ledger_entry, read_ledger_entry_data, strkey_decode, strkey_public_key_text,
    write_account_ledger_key, xdr_ledger_entry, xdr_ledger_entry_data, max_xdr_depth,
};
use crate::error::{outcome_matches, ErrorModel, RpcError};
use crate::ledger::{LedgerAccount, LedgerEntryKind, LedgerSigner, SignerKeyKind, StrkeyKind};
use crate::text::{decimal_int, i64_to_decimal};

verus! {

/// An account's details: address, current sequence number, balances and signers.
#[derive(Debug)]
pub struct AccountInspection {
    pub address: String,
    pub sequence: Option<String>,
    pub balances: Vec<AccountBalance>,
    pub signers: Vec<AccountSigner>,
}

/// A balance of an account, in the asset's smallest unit.
#[derive(Debug, Clone)]
pub struct AccountBalance {
    pub asset_type: String,
    pub balance: String,
}

/// A signer of an account.
#[derive(Debug, Clone)]
pub struct AccountSigner {
    pub public_key: String,
    pub weight: Option<u32>,
}

/// Parameters for contract creation.
#[derive(Debug, Clone)]
pub struct CreateContractArgs {
    pub wasm_hash: [u8; 32],
    pub deployer_address: String,
    pub salt: [u8; 20],
}

/// Nesting depth up to which ledger-entry XDR is read.
pub const XDR_DEPTH_LIMIT: u32 = 500;

/// Text of the error for an address that is not an Ed25519 public key.
pub open spec fn wrong_key_kind_text() -> Seq<char> {
    "Expected Ed25519 public key"@
}

/// Text of the error for a reply without entries.
pub open spec fn account_not_found_text() -> Seq<char> {
    "Account not found on network"@
}

/// Text of the error for ledger-entry data of another kind.
pub open spec fn not_account_text() -> Seq<char> {
    "Not an account entry"@
}

/// Text shown for a signer key that is not an Ed25519 key.
pub open spec fn unsupported_key_text() -> Seq<char> {
    "unsupported_key_type"@
}

/// The Ed25519 public key that an address names: the address must be a
/// valid strkey, and of the `G...` kind.
pub open spec fn address_public_key(address: Seq<char>) -> Result<[u8; 32], ErrorModel> {
    match strkey_decode(address) {
        Err(e) => Err(ErrorModel::Rpc("Invalid address: "@ + e)),
        Ok(StrkeyKind::PublicKeyEd25519(key)) => Ok(key),
        Ok(_) => Err(ErrorModel::Rpc(wrong_key_kind_text())),
    }
}

/// The base64 ledger key under which the account of an address is stored.
pub open spec fn address_ledger_key(address: Seq<char>) -> Result<Seq<char>, ErrorModel> {
    match address_public_key(address) {
        Ok(key) => Ok(base64_encode(account_key_xdr(key@))),
        Err(e) => Err(e),
    }
}

/// The account that ledger-entry data holds, if it is an account.
pub open spec fn entry_account(kind: LedgerEntryKind) -> Result<LedgerAccount, ErrorModel> {
    match kind {
        LedgerEntryKind::Account(acc) => Ok(acc),
        _ => Err(ErrorModel::Rpc(not_account_text())),
    }
}

/// The account read from raw XDR, with nesting limited to
/// [`max_xdr_depth`]: a whole `LedgerEntry` first; only when that cannot be
/// read, bare `LedgerEntryData`.
pub open spec fn parsed_account(bytes: Seq<u8>) -> Result<LedgerAccount, ErrorModel> {
    match xdr_ledger_entry(bytes, max_xdr_depth()) {
        Ok(kind) => entry_account(kind),
        Err(_) => match xdr_ledger_entry_data(bytes, max_xdr_depth()) {
            Ok(kind) => entry_account(kind),
            Err(e) => Err(ErrorModel::Rpc("Failed to decode account data: "@ + e)),
        },
    }
}

/// The account in a storage reply: its first entry, base64-decoded and parsed.
pub open spec fn response_account(response: StorageResponse) -> Result<LedgerAccount, ErrorModel> {
    if response.entries@.len() == 0 {
        Err(ErrorModel::Rpc(account_not_found_text()))
    } else {
        match base64_decode(response.entries@[0].xdr@) {
            Err(e) => Err(ErrorModel::Rpc("Failed to decode account XDR: "@ + e)),
            Ok(bytes) => parsed_account(bytes),
        }
    }
}

/// The sequence number that follows an account's current one.
pub open spec fn following_sequence(acc: LedgerAccount) -> Result<i64, ErrorModel> {
    if acc.seq_num < i64::MAX {
        Ok((acc.seq_num + 1) as i64)
    } else {
        Err(ErrorModel::SequenceOverflow)
    }
}

/// The next sequence number of the account in a storage reply.
pub open spec fn response_next_sequence(response: StorageResponse) -> Result<i64, ErrorModel> {
    match response_account(response) {
        Ok(acc) => following_sequence(acc),
        Err(e) => Err(e),
    }
}

/// The text shown for a signer key: the `G...` strkey of an Ed25519 key,
/// a fixed marker for the other kinds.
pub open spec fn signer_key_text(key: SignerKeyKind) -> Seq<char> {
    match key {
        SignerKeyKind::Ed25519(k) => strkey_public_key_text(k@),
        _ => unsupported_key_text(),
    }
}

/// `shown` presents `signer`: its key text and its weight; an Ed25519
/// key's text decodes back to that key.
pub open spec fn signer_shown(signer: LedgerSigner, shown: AccountSigner) -> bool {
    &&& shown.public_key@ == signer_key_text(signer.key)
    &&& shown.weight == Some(signer.weight)
    &&& (signer.key matches SignerKeyKind::Ed25519(k) ==> decodes_to_public_key(
        shown.public_key@,
        k,
    ))
}

/// `i` presents account `acc` of `address`: the address, the current
/// sequence number in decimal, the native balance in decimal stroops, and
/// every signer in order.
pub open spec fn inspection_of(address: Seq<char>, acc: LedgerAccount, i: AccountInspection) -> bool {
    &&& i.address@ == address
    &&& i.sequence matches Some(s) && s@ == decimal_int(acc.seq_num as int)
    &&& i.balances@.len() == 1
    &&& i.balances@[0].asset_type@ == "native"@
    &&& i.balances@[0].balance@ == decimal_int(acc.balance as int)
    &&& i.signers@.len() == acc.signers@.len()
    &&& forall|k: int|
        0 <= k < i.signers@.len() ==> signer_shown(acc.signers@[k], #[trigger] i.signers@[k])
}

/// The Ed25519 public key named by a Stellar address (`G...`).
pub fn account_public_key(address: &str) -> (r: Result<[u8; 32], RpcError>)
    ensures
        outcome_matches(r, address_public_key(address@)),
{
    match decode_strkey(address) {
        Err(e) => Err(RpcError::Rpc(String::from_str("Invalid address: ").concat(e.as_str()))),
        Ok(StrkeyKind::PublicKeyEd25519(key)) => Ok(key),
        Ok(_) => Err(RpcError::Rpc(String::from_str("Expected Ed25519 public key"))),
    }
}

/// The base64 XDR `LedgerKey::Account` under which the account of a
/// Stellar address is stored; it decodes back to the XDR of the key.
pub fn account_ledger_key(address: &str) -> (r: Result<String, RpcError>)
    ensures
        match r {
            Ok(k) => address_ledger_key(address@) == Ok::<Seq<char>, ErrorModel>(k@),
            Err(e) => address_ledger_key(address@) == Err::<Seq<char>, ErrorModel>(e@),
        },
        r matches Ok(k) ==> (address_public_key(address@) matches Ok(key) && decodes_base64_to(
            k@,
            account_key_xdr(key@),
        )),
{
    let key = account_public_key(address)?;
    match write_account_ledger_key(key) {
        Ok(bytes) => Ok(encode_base64(bytes.as_slice())),
        Err(e) => Err(
            RpcError::Rpc(String::from_str("Failed to serialize ledger key: ").concat(e.as_str())),
        ),
    }
}

/// The account held by ledger-entry data, or "Not an account entry".
pub fn account_of_entry(kind: LedgerEntryKind) -> (r: Result<LedgerAccount, RpcError>)
    ensures
        outcome_matches(r, entry_account(kind)),
{
    match kind {
        LedgerEntryKind::Account(acc) => Ok(acc),
        _ => Err(RpcError::Rpc(String::from_str("Not an account entry"))),
    }
}

/// The account from a read of bare `LedgerEntryData`: a read error is
/// reported as a decoding failure.
pub fn account_of_data_read(read: Result<LedgerEntryKind, String>) -> (r: Result<
    LedgerAccount,
    RpcError,
>)
    ensures
        match read {
            Ok(kind) => outcome_matches(r, entry_account(kind)),
            Err(e) => r matches Err(err) && err@ == ErrorModel::Rpc(
                "Failed to decode account data: "@ + e@,
            ),
        },
{
    match read {
        Ok(kind) => account_of_entry(kind),
        Err(e) => Err(
            RpcError::Rpc(String::from_str("Failed to decode account data: ").concat(e.as_str())),
        ),
    }
}

/// Parse an account entry from raw XDR: a whole `LedgerEntry` first, bare
/// `LedgerEntryData` when that cannot be read. Reads follow nesting only
/// to [`XDR_DEPTH_LIMIT`] levels (deeper values fail to read, where an
/// unbounded reader could exhaust the stack) and have no length limit.
pub fn parse_account_entry(entry_bytes: &[u8]) -> (r: Result<LedgerAccount, RpcError>)
    ensures
        outcome_matches(r, parsed_account(entry_bytes@)),
{
    match read_ledger_entry(entry_bytes, XDR_DEPTH_LIMIT) {
        Ok(kind) => account_of_entry(kind),
        Err(_) => account_of_data_read(read_ledger_entry_data(entry_bytes, XDR_DEPTH_LIMIT)),
    }
}

/// The account in a `getLedgerEntries` reply for its ledger key.
pub fn account_from_response(response: &StorageResponse) -> (r: Result<LedgerAccount, RpcError>)
    ensures
        outcome_matches(r, response_account(*response)),
{
    if response.entries.len() == 0 {
        return Err(RpcError::Rpc(String::from_str("Account not found on network")));
    }
    let entry_xdr = &response.entries[0].xdr;
    match decode_base64(entry_xdr.as_str()) {
        Err(e) => Err(
            RpcError::Rpc(String::from_str("Failed to decode account XDR: ").concat(e.as_str())),
        ),
        Ok(bytes) => parse_account_entry(bytes.as_slice()),
    }
}

/// The sequence number after `seq_num`.
pub fn next_sequence(seq_num: i64) -> (r: i64)
    requires
        seq_num < i64::MAX,
    ensures
        r == seq_num + 1,
{
    seq_num + 1
}

/// The next sequence number of an account; none exists when the current
/// one is the largest `i64`.
pub fn next_sequence_of(acc: &LedgerAccount) -> (r: Result<i64, RpcError>)
    ensures
        outcome_matches(r, following_sequence(*acc)),
{
    if acc.seq_num < i64::MAX {
        Ok(next_sequence(acc.seq_num))
    } else {
        Err(RpcError::SequenceOverflow)
    }
}

/// The next sequence number of the account in a `getLedgerEntries` reply.
pub fn next_sequence_from_response(response: &StorageResponse) -> (r: Result<i64, RpcError>)
    ensures
        outcome_matches(r, response_next_sequence(*response)),
{
    let acc = account_from_response(response)?;
    next_sequence_of(&acc)
}

/// The text shown for a signer key.
pub fn signer_public_key(key: &SignerKeyKind) -> (r: String)
    ensures
        r@ == signer_key_text(*key),
        *key matches SignerKeyKind::Ed25519(k) ==> decodes_to_public_key(r@, k),
{
    match key {
        SignerKeyKind::Ed25519(k) => encode_public_key(*k),
        _ => String::from_str("unsupported_key_type"),
    }
}

/// Present an account of `address`.
pub fn inspect_account_entry(address: &str, acc: &LedgerAccount) -> (i: AccountInspection)
    ensures
        inspection_of(address@, *acc, i),
{
    let balances = vec![
        AccountBalance {
            asset_type: String::from_str("native"),
            balance: i64_to_decimal(acc.balance),
        },
    ];
    let mut signers: Vec<AccountSigner> = Vec::new();
    let mut k: usize = 0;
    while k < acc.signers.len()
        invariant
            k <= acc.signers@.len(),
            signers@.len() == k,
            forall|j: int| 0 <= j < k ==> signer_shown(acc.signers@[j], #[trigger] signers@[j]),
        decreases acc.signers@.len() - k,
    {
        let s = &acc.signers[k];
        signers.push(AccountSigner { public_key: signer_public_key(&s.key), weight: Some(s.weight) });
        k = k + 1;
    }
    AccountInspection {
        address: String::from_str(address),
        sequence: Some(i64_to_decimal(acc.seq_num)),
        balances,
        signers,
    }
}

/// Inspect the account of `address` from a `getLedgerEntries` reply.
pub fn inspection_from_response(address: &str, response: &StorageResponse) -> (r: Result<
    AccountInspection,
    RpcError,
>)
    ensures
        r is Ok <==> response_account(*response) is Ok,
        r matches Ok(i) ==> (response_account(*response) matches Ok(acc) && inspection_of(
            address@,
            acc,
            i,
        )),
        r matches Err(e) ==> response_account(*response) == Err::<LedgerAccount, ErrorModel>(e@),
{
    let acc = account_from_response(response)?;
    Ok(inspect_account_entry(address, &acc))
}


/// For the same storage reply, the next sequence number is one more than the
/// current sequence number that inspection reports.
pub proof fn law_next_sequence_is_inspected_plus_one(
    address: Seq<char>,
    response: StorageResponse,
    inspection: AccountInspection,
)
    requires
        response_account(response) matches Ok(acc) && inspection_of(address, acc, inspection),
    ensures
        response_next_sequence(response) matches Ok(n) ==> (inspection.sequence matches Some(s)
            && s@ == decimal_int(n - 1)),
{
}

/// A storage reply without a readable account fails the next-sequence
/// query with the same error as inspection; with a readable account, only
/// a current sequence number of `i64::MAX` fails it.
pub proof fn law_next_sequence_fails_as_inspection(response: StorageResponse)
    ensures
        response_account(response) matches Err(e) ==> response_next_sequence(response) == Err::<
            i64,
            ErrorModel,
        >(e),
        response_account(response) matches Ok(acc) ==> (response_next_sequence(response) is Err
            <==> acc.seq_num == i64::MAX),
{
}


/// An address is accepted exactly when it decodes to an Ed25519 public key,
/// and then with that very key; its ledger key is the base64 of that key's
/// `LedgerKey::Account` XDR.
pub proof fn law_public_key_address_accepted(address: Seq<char>, key: [u8; 32])
    ensures
        address_public_key(address) == Ok::<[u8; 32], ErrorModel>(key) <==> strkey_decode(address)
            == Ok::<StrkeyKind, Seq<char>>(StrkeyKind::PublicKeyEd25519(key)),
        strkey_decode(address) == Ok::<StrkeyKind, Seq<char>>(StrkeyKind::PublicKeyEd25519(key))
            ==> address_ledger_key(address) == Ok::<Seq<char>, ErrorModel>(
            base64_encode(seq![0u8, 0u8, 0u8, 0u8, 0u8, 0u8, 0u8, 0u8] + key@),
        ),
        address_public_key(address) is Err ==> address_ledger_key(address) is Err,
{
}

/// Ledger-entry data holding an account yields that account unchanged;
/// any other kind of data yields no account.
pub proof fn law_entry_account_unchanged(acc: LedgerAccount, other: LedgerEntryKind)
    ensures
        entry_account(LedgerEntryKind::Account(acc)) == Ok::<LedgerAccount, ErrorModel>(acc),
        !(other is Account) ==> entry_account(other) is Err,
{
}

/// A reply whose first entry base64-decodes to bytes that the XDR reader
/// decodes to an account (as a whole ledger entry, or failing that as bare
/// entry data) yields exactly that account: every field as decoded, and
/// the next sequence number is the decoded one plus one.
pub proof fn law_reply_account_is_decoded_account(
    response: StorageResponse,
    bytes: Seq<u8>,
    acc: LedgerAccount,
)
    requires
        response.entries@.len() > 0,
        base64_decode(response.entries@[0].xdr@) == Ok::<Seq<u8>, Seq<char>>(bytes),
        xdr_ledger_entry(bytes, max_xdr_depth()) == Ok::<LedgerEntryKind, Seq<char>>(
            LedgerEntryKind::Account(acc),
        ) || (xdr_ledger_entry(bytes, max_xdr_depth()) is Err && xdr_ledger_entry_data(
            bytes,
            max_xdr_depth(),
        ) == Ok::<LedgerEntryKind, Seq<char>>(LedgerEntryKind::Account(acc))),
    ensures
        response_account(response) == Ok::<LedgerAccount, ErrorModel>(acc),
        acc.seq_num < i64::MAX ==> response_next_sequence(response) == Ok::<i64, ErrorModel>(
            (acc.seq_num + 1) as i64,
        ),
        acc.seq_num == i64::MAX ==> response_next_sequence(response) == Err::<i64, ErrorModel>(
            ErrorModel::SequenceOverflow,
        ),
{
}

/// An inspection made from such a reply shows the decoded account: its
/// sequence number and balance in decimal, its signers in number and weight.
pub proof fn law_inspection_shows_decoded_account(
    address: Seq<char>,
    response: StorageResponse,
    bytes: Seq<u8>,
    acc: LedgerAccount,
    inspection: AccountInspection,
)
    requires
        response.entries@.len() > 0,
        base64_decode(response.entries@[0].xdr@) == Ok::<Seq<u8>, Seq<char>>(bytes),
        xdr_ledger_entry(bytes, max_xdr_depth()) == Ok::<LedgerEntryKind, Seq<char>>(
            LedgerEntryKind::Account(acc),
        ),
        response_account(response) matches Ok(a) && inspection_of(address, a, inspection),
    ensures
        inspection.address@ == address,
        inspection.sequence matches Some(s) && s@ == decimal_int(acc.seq_num as int),
        inspection.balances@.len() == 1,
        inspection.balances@[0].balance@ == decimal_int(acc.balance as int),
        inspection.signers@.len() == acc.signers@.len(),
        forall|k: int|
            0 <= k < acc.signers@.len() ==> #[trigger] inspection.signers@[k].weight == Some(
                acc.signers@[k].weight,
            ),
{
    law_reply_account_is_decoded_account(response, bytes, acc);
    assert forall|k: int| 0 <= k < acc.signers@.len() implies #[trigger] inspection.signers@[
        k
    ].weight == Some(acc.signers@[k].weight) by {
        assert(signer_shown(acc.signers@[k], inspection.signers@[k]));
    }
}

} // verus!
