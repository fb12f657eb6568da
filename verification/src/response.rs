use vstd::prelude::*;

verus! {

/// The metadata-bearing fields of a ledger reply's result region, as plain
/// values. Replies come in two envelope layouts: the legacy layout carries
/// the transaction metadata beside the result's own fields and at most a
/// multi-signature timestamp; the versioned layout nests them under a
/// transaction-metadata object and adds explicit last-transaction markers.
#[derive(Clone, Debug, PartialEq)]
pub enum ResponseResult {
    Legacy {
        seq_no: Option<u64>,
        txn_time: Option<u64>,
        multi_signature_time: Option<u64>,
    },
    Versioned {
        seq_no: Option<u64>,
        txn_time: Option<u64>,
        last_txn_time: Option<u64>,
        last_seq_no: Option<u64>,
    },
}

/// The metadata region extracted from a ledger reply: transaction time,
/// sequence number and last-transaction markers.
#[derive(Clone, Copy, Debug, PartialEq, Eq)]
pub struct ResponseMetadata {
    pub seq_no: Option<u64>,
    pub txn_time: Option<u64>,
    pub last_txn_time: Option<u64>,
    pub last_seq_no: Option<u64>,
}

/// The metadata a reply resolves to: a legacy reply's multi-signature
/// timestamp stands as the last-transaction time and it carries no
/// last-sequence marker; a versioned reply carries every marker
/// explicitly.
pub open spec fn metadata_of(r: ResponseResult) -> ResponseMetadata {
    match r {
        ResponseResult::Legacy { seq_no, txn_time, multi_signature_time } => ResponseMetadata {
            seq_no,
            txn_time,
            last_txn_time: multi_signature_time,
            last_seq_no: None,
        },
        ResponseResult::Versioned { seq_no, txn_time, last_txn_time, last_seq_no } => ResponseMetadata {
            seq_no,
            txn_time,
            last_txn_time,
            last_seq_no,
        },
    }
}

/// Extracts the metadata region of a ledger reply.
pub fn get_response_metadata(response: &ResponseResult) -> (r: ResponseMetadata)
    ensures
        r == metadata_of(*response),
{
    match response {
        ResponseResult::Legacy { seq_no, txn_time, multi_signature_time } => ResponseMetadata {
            seq_no: *seq_no,
            txn_time: *txn_time,
            last_txn_time: *multi_signature_time,
            last_seq_no: None,
        },
        ResponseResult::Versioned { seq_no, txn_time, last_txn_time, last_seq_no } => ResponseMetadata {
            seq_no: *seq_no,
            txn_time: *txn_time,
            last_txn_time: *last_txn_time,
            last_seq_no: *last_seq_no,
        },
    }
}

} // verus!
