use vstd::prelude::*;

verus! {

/// Errors reported by the RPC layer.
#[derive(Debug)]
pub enum RpcError {
    /// A failure reported by the RPC protocol or detected while
    /// interpreting a reply (bad address, missing account, bad XDR, ...).
    Rpc(String),
    /// A failure of the HTTP transport (connection, timeout, body decoding).
    Http(String),
    /// The account's sequence number is already the largest `i64`, so no
    /// next sequence number exists.
    SequenceOverflow,
}

/// Mathematical model of an [`RpcError`]: the same variants over `Seq<char>`.
pub enum ErrorModel {
    Rpc(Seq<char>),
    Http(Seq<char>),
    SequenceOverflow,
}

impl View for RpcError {
    type V = ErrorModel;

    open spec fn view(&self) -> ErrorModel {
        match self {
            RpcError::Rpc(m) => ErrorModel::Rpc(m@),
            RpcError::Http(m) => ErrorModel::Http(m@),
            RpcError::SequenceOverflow => ErrorModel::SequenceOverflow,
        }
    }
}

/// Text of the overflow error.
pub open spec fn sequence_overflow_text() -> Seq<char> {
    "Sequence number overflow"@
}

impl ErrorModel {
    /// The human-readable message carried by an error.
    pub open spec fn message(self) -> Seq<char> {
        match self {
            ErrorModel::Rpc(m) => m,
            ErrorModel::Http(m) => m,
            ErrorModel::SequenceOverflow => sequence_overflow_text(),
        }
    }
}

/// `r` is the executable counterpart of the modelled outcome `m`: the same
/// success value, or an error whose model is the modelled error.
pub open spec fn outcome_matches<T>(r: Result<T, RpcError>, m: Result<T, ErrorModel>) -> bool {
    match r {
        Ok(v) => m == Ok::<T, ErrorModel>(v),
        Err(e) => m == Err::<T, ErrorModel>(e@),
    }
}

impl RpcError {
    /// The error's message text.
    pub fn message(&self) -> (r: String)
        ensures
            r@ == self@.message(),
    {
        match self {
            RpcError::Rpc(m) => m.clone(),
            RpcError::Http(m) => m.clone(),
            RpcError::SequenceOverflow => {
                let s = String::from_str("Sequence number overflow");
                proof {
                    reveal_strlit("Sequence number overflow");
                }
                s
            },
        }
    }
}

} // verus!
