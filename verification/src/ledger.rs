//! Plain-value models of the Stellar values the account logic reads:
//! decoded strkeys and ledger entries.
use vstd::prelude::*;

verus! {

/// The kind of a decoded strkey; only an Ed25519 public key (`G...`)
/// carries its payload, since nothing else is read from the others.
#[derive(Debug, Clone, Copy, PartialEq, Eq)]
pub enum StrkeyKind {
    PublicKeyEd25519([u8; 32]),
    PreAuthTx,
    HashX,
    MuxedAccountEd25519,
    SignedPayloadEd25519,
    Contract,
    LiquidityPool,
    ClaimableBalance,
    MuxedContract,
}

/// The key of an account signer.
#[derive(Debug, Clone, Copy, PartialEq, Eq)]
pub enum SignerKeyKind {
    Ed25519([u8; 32]),
    PreAuthTx([u8; 32]),
    HashX([u8; 32]),
    Ed25519SignedPayload,
}

/// An account signer: its key and its weight.
#[derive(Debug, Clone, Copy, PartialEq, Eq)]
pub struct LedgerSigner {
    pub key: SignerKeyKind,
    pub weight: u32,
}

/// The fields of an account ledger entry that the library reads.
#[derive(Debug)]
pub struct LedgerAccount {
    /// Native balance in stroops (1 XLM = 10^7 stroops).
    pub balance: i64,
    /// Current sequence number of the account.
    pub seq_num: i64,
    pub num_sub_entries: u32,
    pub signers: Vec<LedgerSigner>,
}

/// The data of a ledger entry, by kind; only an account carries its fields.
#[derive(Debug)]
pub enum LedgerEntryKind {
    Account(LedgerAccount),
    Trustline,
    Offer,
    Data,
    ClaimableBalance,
    LiquidityPool,
    ContractData,
    ContractCode,
    ConfigSetting,
    Ttl,
}

} // verus!
