use vstd::prelude::*;

use crate::builder::{fresh_document, RequestBuilder};
use crate::did::{is_well_formed_did, is_well_formed_opt_did};
use crate::errors::LedgerError;
use crate::request::{
    AcceptanceMechanisms, AuthRule, GetTxnAuthorAgreementData, NodeOperationData, Operation,
    RequestDocument,
};
use crate::response::{get_response_metadata, metadata_of, ResponseMetadata, ResponseResult};
use crate::signer::{
    apply_signature, multi_signed_from, single_signed_from, SignatureType,
};
use crate::taa::{
    acceptance_appended, acceptance_ok, append_txn_author_agreement_acceptance_to_request,
};
use crate::tracker::{CallbackId, SubmissionTracker};

verus! {

/// A typed command, one variant per operation the dispatcher routes.
/// Commands that expect an answer carry the reply-to address of their
/// caller; `SubmitAck` carries none — it resolves a previously registered
/// one. Parser and free handles are opaque tokens passed through to the
/// pool collaborator.
pub enum LedgerCommand {
    SignAndSubmitRequest {
        pool_handle: i32,
        wallet_handle: i32,
        submitter_did: String,
        request: RequestDocument,
        cb: CallbackId,
    },
    SubmitRequest {
        pool_handle: i32,
        request: RequestDocument,
        cb: CallbackId,
    },
    SubmitAck {
        cmd_id: i32,
        result: Result<String, LedgerError>,
    },
    SubmitAction {
        pool_handle: i32,
        request: RequestDocument,
        nodes: Option<String>,
        timeout: Option<i32>,
        cb: CallbackId,
    },
    SignRequest {
        wallet_handle: i32,
        submitter_did: String,
        request: RequestDocument,
        cb: CallbackId,
    },
    MultiSignRequest {
        wallet_handle: i32,
        submitter_did: String,
        request: RequestDocument,
        cb: CallbackId,
    },
    BuildNodeRequest {
        submitter_did: String,
        target_did: String,
        data: NodeOperationData,
        cb: CallbackId,
    },
    BuildGetValidatorInfoRequest {
        submitter_did: String,
        cb: CallbackId,
    },
    BuildGetTxnRequest {
        submitter_did: Option<String>,
        ledger_type: Option<String>,
        seq_no: i32,
        cb: CallbackId,
    },
    BuildPoolConfigRequest {
        submitter_did: String,
        writes: bool,
        force: bool,
        cb: CallbackId,
    },
    BuildPoolRestartRequest {
        submitter_did: String,
        action: String,
        datetime: Option<String>,
        cb: CallbackId,
    },
    BuildPoolUpgradeRequest {
        submitter_did: String,
        name: String,
        version: String,
        action: String,
        sha256: String,
        timeout: Option<u32>,
        schedule: Option<String>,
        justification: Option<String>,
        reinstall: bool,
        force: bool,
        package: Option<String>,
        cb: CallbackId,
    },
    BuildAuthRuleRequest {
        submitter_did: String,
        rule: AuthRule,
        cb: CallbackId,
    },
    BuildAuthRulesRequest {
        submitter_did: String,
        rules: Vec<AuthRule>,
        cb: CallbackId,
    },
    BuildGetAuthRuleRequest {
        submitter_did: Option<String>,
        auth_type: Option<String>,
        auth_action: Option<String>,
        field: Option<String>,
        old_value: Option<String>,
        new_value: Option<String>,
        cb: CallbackId,
    },
    RegisterSPParser {
        txn_type: String,
        parser: usize,
        free: usize,
        cb: CallbackId,
    },
    GetResponseMetadata {
        response: ResponseResult,
        cb: CallbackId,
    },
    BuildTxnAuthorAgreementRequest {
        submitter_did: String,
        text: String,
        version: String,
        cb: CallbackId,
    },
    BuildGetTxnAuthorAgreementRequest {
        submitter_did: Option<String>,
        data: Option<GetTxnAuthorAgreementData>,
        cb: CallbackId,
    },
    BuildAcceptanceMechanismRequests {
        submitter_did: String,
        aml: AcceptanceMechanisms,
        version: String,
        aml_context: Option<String>,
        cb: CallbackId,
    },
    BuildGetAcceptanceMechanismsRequest {
        submitter_did: Option<String>,
        timestamp: Option<u64>,
        version: Option<String>,
        cb: CallbackId,
    },
    AppendTxnAuthorAgreementAcceptanceToRequest {
        request: RequestDocument,
        text: Option<String>,
        version: Option<String>,
        hash: Option<String>,
        acc_mech_type: String,
        time: u64,
        cb: CallbackId,
    },
}

/// The value a completed command hands its caller.
#[derive(Debug, PartialEq)]
pub enum CompletionValue {
    Document(RequestDocument),
    Text(String),
    Metadata(ResponseMetadata),
}

/// What becomes of a signed document once the collaborators have produced
/// the signature: handed back to the caller, or forwarded to the pool.
#[derive(Clone, Copy, Debug, PartialEq, Eq)]
pub enum SignDisposition {
    ReturnSigned { cb: CallbackId },
    SubmitSigned { pool_handle: i32, cb: CallbackId },
}

/// The action the host performs after a dispatch step. `Complete` invokes
/// the caller's completion under its reply-to address; the other variants
/// name the collaborator call to make, whose answer comes back through
/// `continue_with_signature` or `pool_send_result`.
#[derive(Debug, PartialEq)]
pub enum Effect {
    Complete { cb: CallbackId, result: Result<CompletionValue, LedgerError> },
    FetchSignature {
        wallet_handle: i32,
        submitter_did: String,
        request: RequestDocument,
        signature_type: SignatureType,
        disposition: SignDisposition,
    },
    SendToPool { pool_handle: i32, request: RequestDocument, cb: CallbackId },
    SendActionToPool {
        pool_handle: i32,
        request: RequestDocument,
        nodes: Option<String>,
        timeout: Option<i32>,
        cb: CallbackId,
    },
    RegisterParser { txn_type: String, parser: usize, free: usize, cb: CallbackId },
}

/// The documents a command carries are well-formed.
pub open spec fn command_wf(c: LedgerCommand) -> bool {
    match c {
        LedgerCommand::SignAndSubmitRequest { request, .. } => request.wf(),
        LedgerCommand::SubmitRequest { request, .. } => request.wf(),
        LedgerCommand::SubmitAction { request, .. } => request.wf(),
        LedgerCommand::SignRequest { request, .. } => request.wf(),
        LedgerCommand::MultiSignRequest { request, .. } => request.wf(),
        LedgerCommand::AppendTxnAuthorAgreementAcceptanceToRequest { request, .. } => request.wf(),
        _ => true,
    }
}

/// Whether an operation is of an allowed action type: pool restarts and
/// validator-info reads are the action requests the ledger rules admit.
pub open spec fn is_action_operation(op: Operation) -> bool {
    op matches Operation::PoolRestart { .. } || op matches Operation::GetValidatorInfo
}

/// Validates that a request is an allowed action request.
pub fn validate_action(request: &RequestDocument) -> (r: Result<(), LedgerError>)
    ensures
        r is Ok <==> is_action_operation(request.operation),
        r matches Err(e) ==> e == LedgerError::Validation,
{
    match &request.operation {
        Operation::PoolRestart { .. } => Ok(()),
        Operation::GetValidatorInfo => Ok(()),
        _ => Err(LedgerError::Validation),
    }
}

/// The completion an acknowledgement resolves to: the carried result text,
/// or the carried failure.
pub open spec fn ack_completion(result: Result<String, LedgerError>) -> Result<
    CompletionValue,
    LedgerError,
> {
    match result {
        Ok(s) => Ok(CompletionValue::Text(s)),
        Err(e) => Err(e),
    }
}

/// The reply-to address a disposition answers to.
pub open spec fn disposition_cb(d: SignDisposition) -> CallbackId {
    match d {
        SignDisposition::ReturnSigned { cb } => cb,
        SignDisposition::SubmitSigned { pool_handle, cb } => cb,
    }
}

/// The relation between a document and its signed form under the given
/// mode.
pub open spec fn signed_as(
    request: RequestDocument,
    did: Seq<char>,
    sig: Seq<char>,
    signature_type: SignatureType,
    doc: RequestDocument,
) -> bool {
    &&& doc.wf()
    &&& match signature_type {
        SignatureType::Single => single_signed_from(request, sig, doc),
        SignatureType::Multi => multi_signed_from(request, did, sig, doc),
    }
}

/// A view of an optional owned string.
pub open spec fn opt_owned_view(s: Option<String>) -> Option<Seq<char>> {
    match s {
        Some(x) => Some(x@),
        None => None,
    }
}

/// A synchronously completed build: on well-formed identifiers the effect
/// hands the caller the fresh document, else the validation error.
pub open spec fn completed_build(
    r: Option<Effect>,
    cb: CallbackId,
    did_ok: bool,
    req_id: u64,
    identifier: Option<String>,
    operation: Operation,
) -> bool {
    if did_ok {
        r matches Some(Effect::Complete { cb: c, result: Ok(CompletionValue::Document(doc)) })
            && c == cb && fresh_document(doc, req_id, identifier, operation)
    } else {
        r == Some(Effect::Complete { cb, result: Err(LedgerError::Validation) })
    }
}

fn doc_completion(r: Result<RequestDocument, LedgerError>) -> (res: Result<
    CompletionValue,
    LedgerError,
>)
    ensures
        match r {
            Ok(d) => res == Ok::<CompletionValue, LedgerError>(CompletionValue::Document(d)),
            Err(e) => res == Err::<CompletionValue, LedgerError>(e),
        },
{
    match r {
        Ok(d) => Ok(CompletionValue::Document(d)),
        Err(e) => Err(e),
    }
}

/// The single entry point of the core: it routes each typed command to
/// the builder or the signer, forwards documents bound for the pool, and
/// completes callers either synchronously or, for submissions, through
/// the pending-submission tracker. The tracker is the sole long-lived
/// mutable state; commands are consumed exactly once.
pub struct LedgerCommandExecutor {
    builder: RequestBuilder,
    tracker: SubmissionTracker,
}

impl LedgerCommandExecutor {
    /// The submissions in flight: each identifier the pool assigned maps
    /// to the reply-to address waiting for its acknowledgement.
    pub closed spec fn pending(&self) -> Map<i32, CallbackId> {
        self.tracker@
    }

    /// The request id the next built document will carry.
    pub closed spec fn spec_next_req_id(&self) -> u64 {
        self.builder.spec_next_req_id()
    }

    pub fn new() -> (r: Self)
        ensures
            r.pending() == Map::<i32, CallbackId>::empty(),
            r.spec_next_req_id() == 1,
    {
        LedgerCommandExecutor { builder: RequestBuilder::new(), tracker: SubmissionTracker::new() }
    }

    /// Dispatches one command. Pure builds, acceptance attachment and
    /// metadata extraction complete synchronously; signing and
    /// submissions name the collaborator call the host must make; an
    /// acknowledgement resolves its pending entry, and one for an
    /// unknown identifier is dropped without an effect.
    pub fn execute(&mut self, command: LedgerCommand) -> (r: Option<Effect>)
        requires
            old(self).spec_next_req_id() < u64::MAX,
            command_wf(command),
        ensures
            match command {
                LedgerCommand::SignAndSubmitRequest {
                    pool_handle,
                    wallet_handle,
                    submitter_did,
                    request,
                    cb,
                } => {
                    &&& *final(self) == *old(self)
                    &&& r == Some(
                        Effect::FetchSignature {
                            wallet_handle,
                            submitter_did,
                            request,
                            signature_type: SignatureType::Single,
                            disposition: SignDisposition::SubmitSigned { pool_handle, cb },
                        },
                    )
                },
                LedgerCommand::SubmitRequest { pool_handle, request, cb } => {
                    &&& *final(self) == *old(self)
                    &&& r == Some(Effect::SendToPool { pool_handle, request, cb })
                },
                LedgerCommand::SubmitAck { cmd_id, result } => {
                    &&& final(self).spec_next_req_id() == old(self).spec_next_req_id()
                    &&& if old(self).pending().contains_key(cmd_id) {
                        &&& final(self).pending() == old(self).pending().remove(cmd_id)
                        &&& r == Some(
                            Effect::Complete {
                                cb: old(self).pending()[cmd_id],
                                result: ack_completion(result),
                            },
                        )
                    } else {
                        &&& final(self).pending() == old(self).pending()
                        &&& r is None
                    }
                },
                LedgerCommand::SubmitAction { pool_handle, request, nodes, timeout, cb } => {
                    &&& *final(self) == *old(self)
                    &&& if is_action_operation(request.operation) {
                        r == Some(
                            Effect::SendActionToPool { pool_handle, request, nodes, timeout, cb },
                        )
                    } else {
                        r == Some(
                            Effect::Complete { cb, result: Err(LedgerError::Validation) },
                        )
                    }
                },
                LedgerCommand::SignRequest { wallet_handle, submitter_did, request, cb } => {
                    &&& *final(self) == *old(self)
                    &&& r == Some(
                        Effect::FetchSignature {
                            wallet_handle,
                            submitter_did,
                            request,
                            signature_type: SignatureType::Single,
                            disposition: SignDisposition::ReturnSigned { cb },
                        },
                    )
                },
                LedgerCommand::MultiSignRequest { wallet_handle, submitter_did, request, cb } => {
                    &&& *final(self) == *old(self)
                    &&& r == Some(
                        Effect::FetchSignature {
                            wallet_handle,
                            submitter_did,
                            request,
                            signature_type: SignatureType::Multi,
                            disposition: SignDisposition::ReturnSigned { cb },
                        },
                    )
                },
                LedgerCommand::BuildNodeRequest { submitter_did, target_did, data, cb } => {
                    &&& final(self).pending() == old(self).pending()
                    &&& completed_build(
                        r,
                        cb,
                        is_well_formed_did(submitter_did@) && is_well_formed_did(target_did@),
                        old(self).spec_next_req_id(),
                        Some(submitter_did),
                        Operation::Node { target_did, data },
                    )
                    &&& final(self).spec_next_req_id() == old(self).spec_next_req_id() + (
                    if is_well_formed_did(submitter_did@) && is_well_formed_did(target_did@) {
                        1int
                    } else {
                        0int
                    })
                },
                LedgerCommand::BuildGetValidatorInfoRequest { submitter_did, cb } => {
                    &&& final(self).pending() == old(self).pending()
                    &&& completed_build(
                        r,
                        cb,
                        is_well_formed_did(submitter_did@),
                        old(self).spec_next_req_id(),
                        Some(submitter_did),
                        Operation::GetValidatorInfo,
                    )
                    &&& final(self).spec_next_req_id() == old(self).spec_next_req_id() + (
                    if is_well_formed_did(submitter_did@) {
                        1int
                    } else {
                        0int
                    })
                },
                LedgerCommand::BuildGetTxnRequest { submitter_did, ledger_type, seq_no, cb } => {
                    &&& final(self).pending() == old(self).pending()
                    &&& completed_build(
                        r,
                        cb,
                        is_well_formed_opt_did(submitter_did),
                        old(self).spec_next_req_id(),
                        submitter_did,
                        Operation::GetTxn { ledger_type, seq_no },
                    )
                    &&& final(self).spec_next_req_id() == old(self).spec_next_req_id() + (
                    if is_well_formed_opt_did(submitter_did) {
                        1int
                    } else {
                        0int
                    })
                },
                LedgerCommand::BuildPoolConfigRequest { submitter_did, writes, force, cb } => {
                    &&& final(self).pending() == old(self).pending()
                    &&& completed_build(
                        r,
                        cb,
                        is_well_formed_did(submitter_did@),
                        old(self).spec_next_req_id(),
                        Some(submitter_did),
                        Operation::PoolConfig { writes, force },
                    )
                    &&& final(self).spec_next_req_id() == old(self).spec_next_req_id() + (
                    if is_well_formed_did(submitter_did@) {
                        1int
                    } else {
                        0int
                    })
                },
                LedgerCommand::BuildPoolRestartRequest { submitter_did, action, datetime, cb } => {
                    &&& final(self).pending() == old(self).pending()
                    &&& completed_build(
                        r,
                        cb,
                        is_well_formed_did(submitter_did@),
                        old(self).spec_next_req_id(),
                        Some(submitter_did),
                        Operation::PoolRestart { action, datetime },
                    )
                    &&& final(self).spec_next_req_id() == old(self).spec_next_req_id() + (
                    if is_well_formed_did(submitter_did@) {
                        1int
                    } else {
                        0int
                    })
                },
                LedgerCommand::BuildPoolUpgradeRequest {
                    submitter_did,
                    name,
                    version,
                    action,
                    sha256,
                    timeout,
                    schedule,
                    justification,
                    reinstall,
                    force,
                    package,
                    cb,
                } => {
                    &&& final(self).pending() == old(self).pending()
                    &&& completed_build(
                        r,
                        cb,
                        is_well_formed_did(submitter_did@),
                        old(self).spec_next_req_id(),
                        Some(submitter_did),
                        Operation::PoolUpgrade {
                            name,
                            version,
                            action,
                            sha256,
                            timeout,
                            schedule,
                            justification,
                            reinstall,
                            force,
                            package,
                        },
                    )
                    &&& final(self).spec_next_req_id() == old(self).spec_next_req_id() + (
                    if is_well_formed_did(submitter_did@) {
                        1int
                    } else {
                        0int
                    })
                },
                LedgerCommand::BuildAuthRuleRequest { submitter_did, rule, cb } => {
                    &&& final(self).pending() == old(self).pending()
                    &&& completed_build(
                        r,
                        cb,
                        is_well_formed_did(submitter_did@),
                        old(self).spec_next_req_id(),
                        Some(submitter_did),
                        Operation::AuthRule { rule },
                    )
                    &&& final(self).spec_next_req_id() == old(self).spec_next_req_id() + (
                    if is_well_formed_did(submitter_did@) {
                        1int
                    } else {
                        0int
                    })
                },
                LedgerCommand::BuildAuthRulesRequest { submitter_did, rules, cb } => {
                    &&& final(self).pending() == old(self).pending()
                    &&& completed_build(
                        r,
                        cb,
                        is_well_formed_did(submitter_did@),
                        old(self).spec_next_req_id(),
                        Some(submitter_did),
                        Operation::AuthRules { rules },
                    )
                    &&& final(self).spec_next_req_id() == old(self).spec_next_req_id() + (
                    if is_well_formed_did(submitter_did@) {
                        1int
                    } else {
                        0int
                    })
                },
                LedgerCommand::BuildGetAuthRuleRequest {
                    submitter_did,
                    auth_type,
                    auth_action,
                    field,
                    old_value,
                    new_value,
                    cb,
                } => {
                    &&& final(self).pending() == old(self).pending()
                    &&& completed_build(
                        r,
                        cb,
                        is_well_formed_opt_did(submitter_did),
                        old(self).spec_next_req_id(),
                        submitter_did,
                        Operation::GetAuthRule {
                            auth_type,
                            auth_action,
                            field,
                            old_value,
                            new_value,
                        },
                    )
                    &&& final(self).spec_next_req_id() == old(self).spec_next_req_id() + (
                    if is_well_formed_opt_did(submitter_did) {
                        1int
                    } else {
                        0int
                    })
                },
                LedgerCommand::RegisterSPParser { txn_type, parser, free, cb } => {
                    &&& *final(self) == *old(self)
                    &&& r == Some(Effect::RegisterParser { txn_type, parser, free, cb })
                },
                LedgerCommand::GetResponseMetadata { response, cb } => {
                    &&& *final(self) == *old(self)
                    &&& r == Some(
                        Effect::Complete {
                            cb,
                            result: Ok(CompletionValue::Metadata(metadata_of(response))),
                        },
                    )
                },
                LedgerCommand::BuildTxnAuthorAgreementRequest {
                    submitter_did,
                    text,
                    version,
                    cb,
                } => {
                    &&& final(self).pending() == old(self).pending()
                    &&& completed_build(
                        r,
                        cb,
                        is_well_formed_did(submitter_did@),
                        old(self).spec_next_req_id(),
                        Some(submitter_did),
                        Operation::TxnAuthorAgreement { text, version },
                    )
                    &&& final(self).spec_next_req_id() == old(self).spec_next_req_id() + (
                    if is_well_formed_did(submitter_did@) {
                        1int
                    } else {
                        0int
                    })
                },
                LedgerCommand::BuildGetTxnAuthorAgreementRequest { submitter_did, data, cb } => {
                    &&& final(self).pending() == old(self).pending()
                    &&& completed_build(
                        r,
                        cb,
                        is_well_formed_opt_did(submitter_did),
                        old(self).spec_next_req_id(),
                        submitter_did,
                        Operation::GetTxnAuthorAgreement { data },
                    )
                    &&& final(self).spec_next_req_id() == old(self).spec_next_req_id() + (
                    if is_well_formed_opt_did(submitter_did) {
                        1int
                    } else {
                        0int
                    })
                },
                LedgerCommand::BuildAcceptanceMechanismRequests {
                    submitter_did,
                    aml,
                    version,
                    aml_context,
                    cb,
                } => {
                    &&& final(self).pending() == old(self).pending()
                    &&& completed_build(
                        r,
                        cb,
                        is_well_formed_did(submitter_did@),
                        old(self).spec_next_req_id(),
                        Some(submitter_did),
                        Operation::AcceptanceMechanisms { aml, version, aml_context },
                    )
                    &&& final(self).spec_next_req_id() == old(self).spec_next_req_id() + (
                    if is_well_formed_did(submitter_did@) {
                        1int
                    } else {
                        0int
                    })
                },
                LedgerCommand::BuildGetAcceptanceMechanismsRequest {
                    submitter_did,
                    timestamp,
                    version,
                    cb,
                } => {
                    &&& final(self).pending() == old(self).pending()
                    &&& completed_build(
                        r,
                        cb,
                        is_well_formed_opt_did(submitter_did),
                        old(self).spec_next_req_id(),
                        submitter_did,
                        Operation::GetAcceptanceMechanisms { timestamp, version },
                    )
                    &&& final(self).spec_next_req_id() == old(self).spec_next_req_id() + (
                    if is_well_formed_opt_did(submitter_did) {
                        1int
                    } else {
                        0int
                    })
                },
                LedgerCommand::AppendTxnAuthorAgreementAcceptanceToRequest {
                    request,
                    text,
                    version,
                    hash,
                    acc_mech_type,
                    time,
                    cb,
                } => {
                    &&& *final(self) == *old(self)
                    &&& if acceptance_ok(
                        opt_owned_view(text),
                        opt_owned_view(version),
                        opt_owned_view(hash),
                    ) {
                        r matches Some(
                            Effect::Complete { cb: c, result: Ok(CompletionValue::Document(doc)) },
                        ) && c == cb && doc.wf() && acceptance_appended(
                            request,
                            opt_owned_view(text),
                            opt_owned_view(version),
                            opt_owned_view(hash),
                            acc_mech_type@,
                            time,
                            doc,
                        )
                    } else {
                        r == Some(
                            Effect::Complete { cb, result: Err(LedgerError::InvalidStructure) },
                        )
                    }
                },
            },
    {
        match command {
            LedgerCommand::SignAndSubmitRequest {
                pool_handle,
                wallet_handle,
                submitter_did,
                request,
                cb,
            } => Some(
                Effect::FetchSignature {
                    wallet_handle,
                    submitter_did,
                    request,
                    signature_type: SignatureType::Single,
                    disposition: SignDisposition::SubmitSigned { pool_handle, cb },
                },
            ),
            LedgerCommand::SubmitRequest { pool_handle, request, cb } => Some(
                Effect::SendToPool { pool_handle, request, cb },
            ),
            LedgerCommand::SubmitAck { cmd_id, result } => {
                match self.tracker.resolve(cmd_id) {
                    Some(cb) => {
                        let completion = match result {
                            Ok(s) => Ok(CompletionValue::Text(s)),
                            Err(e) => Err(e),
                        };
                        Some(Effect::Complete { cb, result: completion })
                    },
                    None => None,
                }
            },
            LedgerCommand::SubmitAction { pool_handle, request, nodes, timeout, cb } => {
                match validate_action(&request) {
                    Ok(()) => Some(
                        Effect::SendActionToPool { pool_handle, request, nodes, timeout, cb },
                    ),
                    Err(e) => Some(Effect::Complete { cb, result: Err(e) }),
                }
            },
            LedgerCommand::SignRequest { wallet_handle, submitter_did, request, cb } => Some(
                Effect::FetchSignature {
                    wallet_handle,
                    submitter_did,
                    request,
                    signature_type: SignatureType::Single,
                    disposition: SignDisposition::ReturnSigned { cb },
                },
            ),
            LedgerCommand::MultiSignRequest { wallet_handle, submitter_did, request, cb } => Some(
                Effect::FetchSignature {
                    wallet_handle,
                    submitter_did,
                    request,
                    signature_type: SignatureType::Multi,
                    disposition: SignDisposition::ReturnSigned { cb },
                },
            ),
            LedgerCommand::BuildNodeRequest { submitter_did, target_did, data, cb } => {
                let res = self.builder.build_node_request(submitter_did, target_did, data);
                Some(Effect::Complete { cb, result: doc_completion(res) })
            },
            LedgerCommand::BuildGetValidatorInfoRequest { submitter_did, cb } => {
                let res = self.builder.build_get_validator_info_request(submitter_did);
                Some(Effect::Complete { cb, result: doc_completion(res) })
            },
            LedgerCommand::BuildGetTxnRequest { submitter_did, ledger_type, seq_no, cb } => {
                let res = self.builder.build_get_txn_request(submitter_did, ledger_type, seq_no);
                Some(Effect::Complete { cb, result: doc_completion(res) })
            },
            LedgerCommand::BuildPoolConfigRequest { submitter_did, writes, force, cb } => {
                let res = self.builder.build_pool_config_request(submitter_did, writes, force);
                Some(Effect::Complete { cb, result: doc_completion(res) })
            },
            LedgerCommand::BuildPoolRestartRequest { submitter_did, action, datetime, cb } => {
                let res = self.builder.build_pool_restart_request(submitter_did, action, datetime);
                Some(Effect::Complete { cb, result: doc_completion(res) })
            },
            LedgerCommand::BuildPoolUpgradeRequest {
                submitter_did,
                name,
                version,
                action,
                sha256,
                timeout,
                schedule,
                justification,
                reinstall,
                force,
                package,
                cb,
            } => {
                let res = self.builder.build_pool_upgrade_request(
                    submitter_did,
                    name,
                    version,
                    action,
                    sha256,
                    timeout,
                    schedule,
                    justification,
                    reinstall,
                    force,
                    package,
                );
                Some(Effect::Complete { cb, result: doc_completion(res) })
            },
            LedgerCommand::BuildAuthRuleRequest { submitter_did, rule, cb } => {
                let res = self.builder.build_auth_rule_request(submitter_did, rule);
                Some(Effect::Complete { cb, result: doc_completion(res) })
            },
            LedgerCommand::BuildAuthRulesRequest { submitter_did, rules, cb } => {
                let res = self.builder.build_auth_rules_request(submitter_did, rules);
                Some(Effect::Complete { cb, result: doc_completion(res) })
            },
            LedgerCommand::BuildGetAuthRuleRequest {
                submitter_did,
                auth_type,
                auth_action,
                field,
                old_value,
                new_value,
                cb,
            } => {
                let res = self.builder.build_get_auth_rule_request(
                    submitter_did,
                    auth_type,
                    auth_action,
                    field,
                    old_value,
                    new_value,
                );
                Some(Effect::Complete { cb, result: doc_completion(res) })
            },
            LedgerCommand::RegisterSPParser { txn_type, parser, free, cb } => Some(
                Effect::RegisterParser { txn_type, parser, free, cb },
            ),
            LedgerCommand::GetResponseMetadata { response, cb } => {
                let metadata = get_response_metadata(&response);
                Some(Effect::Complete { cb, result: Ok(CompletionValue::Metadata(metadata)) })
            },
            LedgerCommand::BuildTxnAuthorAgreementRequest { submitter_did, text, version, cb } => {
                let res = self.builder.build_txn_author_agreement_request(
                    submitter_did,
                    text,
                    version,
                );
                Some(Effect::Complete { cb, result: doc_completion(res) })
            },
            LedgerCommand::BuildGetTxnAuthorAgreementRequest { submitter_did, data, cb } => {
                let res = self.builder.build_get_txn_author_agreement_request(submitter_did, data);
                Some(Effect::Complete { cb, result: doc_completion(res) })
            },
            LedgerCommand::BuildAcceptanceMechanismRequests {
                submitter_did,
                aml,
                version,
                aml_context,
                cb,
            } => {
                let res = self.builder.build_acceptance_mechanisms_request(
                    submitter_did,
                    aml,
                    version,
                    aml_context,
                );
                Some(Effect::Complete { cb, result: doc_completion(res) })
            },
            LedgerCommand::BuildGetAcceptanceMechanismsRequest {
                submitter_did,
                timestamp,
                version,
                cb,
            } => {
                let res = self.builder.build_get_acceptance_mechanisms_request(
                    submitter_did,
                    timestamp,
                    version,
                );
                Some(Effect::Complete { cb, result: doc_completion(res) })
            },
            LedgerCommand::AppendTxnAuthorAgreementAcceptanceToRequest {
                request,
                text,
                version,
                hash,
                acc_mech_type,
                time,
                cb,
            } => {
                let res = append_txn_author_agreement_acceptance_to_request(
                    request,
                    text.as_ref(),
                    version.as_ref(),
                    hash.as_ref(),
                    &acc_mech_type,
                    time,
                );
                Some(Effect::Complete { cb, result: doc_completion(res) })
            },
        }
    }

    /// Continues a signing flow with the wallet and crypto collaborators'
    /// answer: the encoded signature over the document's canonical
    /// serialization, or the failure they reported. On failure the caller
    /// is completed with the error at once — a submission is never
    /// attempted; on success the signed document is handed back or
    /// forwarded to the pool, as the originating command asked.
    pub fn continue_with_signature(
        &self,
        request: RequestDocument,
        submitter_did: &String,
        signature_result: Result<String, LedgerError>,
        signature_type: SignatureType,
        disposition: SignDisposition,
    ) -> (r: Effect)
        requires
            request.wf(),
        ensures
            match signature_result {
                Err(e) => r == Effect::Complete {
                    cb: disposition_cb(disposition),
                    result: Err::<CompletionValue, LedgerError>(e),
                },
                Ok(sig) => match disposition {
                    SignDisposition::ReturnSigned { cb } => r matches Effect::Complete {
                        cb: c,
                        result: Ok(CompletionValue::Document(doc)),
                    } && c == cb && signed_as(request, submitter_did@, sig@, signature_type, doc),
                    SignDisposition::SubmitSigned { pool_handle, cb } => r matches Effect::SendToPool {
                        pool_handle: p,
                        request: doc,
                        cb: c,
                    } && p == pool_handle && c == cb && signed_as(
                        request,
                        submitter_did@,
                        sig@,
                        signature_type,
                        doc,
                    ),
                },
            },
    {
        match signature_result {
            Err(e) => {
                let cb = match disposition {
                    SignDisposition::ReturnSigned { cb } => cb,
                    SignDisposition::SubmitSigned { pool_handle: _, cb } => cb,
                };
                Effect::Complete { cb, result: Err(e) }
            },
            Ok(sig) => {
                let signed = apply_signature(request, submitter_did, sig, signature_type);
                match disposition {
                    SignDisposition::ReturnSigned { cb } => Effect::Complete {
                        cb,
                        result: Ok(CompletionValue::Document(signed)),
                    },
                    SignDisposition::SubmitSigned { pool_handle, cb } => Effect::SendToPool {
                        pool_handle,
                        request: signed,
                        cb,
                    },
                }
            },
        }
    }

    /// Records the pool collaborator's answer to a document handed to it:
    /// on acceptance the reply-to address is registered under the
    /// assigned identifier and no effect is due until the
    /// acknowledgement; on immediate rejection the caller is completed
    /// with the error and nothing is registered.
    pub fn pool_send_result(&mut self, cb: CallbackId, result: Result<i32, LedgerError>) -> (r:
        Option<Effect>)
        ensures
            final(self).spec_next_req_id() == old(self).spec_next_req_id(),
            match result {
                Ok(id) => {
                    &&& final(self).pending() == old(self).pending().insert(id, cb)
                    &&& r is None
                },
                Err(e) => {
                    &&& final(self).pending() == old(self).pending()
                    &&& r == Some(
                        Effect::Complete { cb, result: Err::<CompletionValue, LedgerError>(e) },
                    )
                },
            },
    {
        match result {
            Ok(id) => {
                self.tracker.register(id, cb);
                None
            },
            Err(e) => Some(Effect::Complete { cb, result: Err(e) }),
        }
    }

    /// Whether a submission is pending under the given identifier.
    pub fn is_pending(&self, id: i32) -> (r: bool)
        ensures
            r == self.pending().contains_key(id),
    {
        self.tracker.is_pending(id)
    }

    /// The number of submissions in flight.
    pub fn pending_count(&self) -> (r: usize)
        ensures
            r == self.pending().len(),
    {
        self.tracker.pending_count()
    }

    /// The request id the next built document will carry.
    pub fn next_req_id(&self) -> (r: u64)
        ensures
            r == self.spec_next_req_id(),
    {
        self.builder.next_req_id()
    }
}

} // verus!
