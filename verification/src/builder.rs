use vstd::prelude::*;

use crate::did::{is_well_formed_did, is_well_formed_opt_did, validate_did, validate_opt_did};
use crate::errors::LedgerError;
use crate::request::{
    AcceptanceMechanisms, AuthRule, GetTxnAuthorAgreementData, NodeOperationData, Operation,
    RequestDocument, SignatureRegion, PROTOCOL_VERSION,
};

verus! {

/// A freshly built document: the given identifier and operation under a
/// fixed envelope, not yet signed, with no acceptance record.
pub open spec fn fresh_document(
    doc: RequestDocument,
    req_id: u64,
    identifier: Option<String>,
    operation: Operation,
) -> bool {
    doc == (RequestDocument {
        req_id,
        identifier,
        operation,
        protocol_version: PROTOCOL_VERSION,
        signature: SignatureRegion::Unsigned,
        taa_acceptance: None,
    })
}

/// Pure construction of canonical transaction documents. The one piece of
/// state is the monotonically-assigned request id, which makes every
/// emitted document's id unique.
pub struct RequestBuilder {
    next_req_id: u64,
}

/// What every build function returns: on well-formed identifiers, a fresh
/// document under the next request id, with the id counter advanced; on a
/// malformed identifier, a validation error and no state change.
pub open spec fn built_with(
    r: Result<RequestDocument, LedgerError>,
    before: RequestBuilder,
    after: RequestBuilder,
    did_ok: bool,
    identifier: Option<String>,
    operation: Operation,
) -> bool {
    match r {
        Ok(doc) => {
            &&& did_ok
            &&& fresh_document(doc, before.spec_next_req_id(), identifier, operation)
            &&& after.spec_next_req_id() == before.spec_next_req_id() + 1
        },
        Err(e) => {
            &&& !did_ok
            &&& e == LedgerError::Validation
            &&& after == before
        },
    }
}

impl RequestBuilder {
    /// The request id the next document will carry.
    pub closed spec fn spec_next_req_id(&self) -> u64 {
        self.next_req_id
    }

    pub fn new() -> (r: Self)
        ensures
            r.spec_next_req_id() == 1,
    {
        RequestBuilder { next_req_id: 1 }
    }

    /// The request id the next document will carry.
    pub fn next_req_id(&self) -> (r: u64)
        ensures
            r == self.spec_next_req_id(),
    {
        self.next_req_id
    }

    fn fresh(&mut self, identifier: Option<String>, operation: Operation) -> (r: RequestDocument)
        requires
            old(self).spec_next_req_id() < u64::MAX,
        ensures
            fresh_document(r, old(self).spec_next_req_id(), identifier, operation),
            final(self).spec_next_req_id() == old(self).spec_next_req_id() + 1,
    {
        let req_id = self.next_req_id;
        self.next_req_id = self.next_req_id + 1;
        RequestDocument {
            req_id,
            identifier,
            operation,
            protocol_version: PROTOCOL_VERSION,
            signature: SignatureRegion::Unsigned,
            taa_acceptance: None,
        }
    }

    /// Builds a node-registration request. Both identifier-bearing fields
    /// are validated: a malformed submitter or target identifier yields a
    /// validation error and no document.
    pub fn build_node_request(
        &mut self,
        submitter_did: String,
        target_did: String,
        data: NodeOperationData,
    ) -> (r: Result<RequestDocument, LedgerError>)
        requires
            old(self).spec_next_req_id() < u64::MAX,
        ensures
            built_with(
                r,
                *old(self),
                *final(self),
                is_well_formed_did(submitter_did@) && is_well_formed_did(target_did@),
                Some(submitter_did),
                Operation::Node { target_did, data },
            ),
    {
        if let Err(e) = validate_did(submitter_did.as_str()) {
            return Err(e);
        }
        if let Err(e) = validate_did(target_did.as_str()) {
            return Err(e);
        }
        Ok(self.fresh(Some(submitter_did), Operation::Node { target_did, data }))
    }

    /// Builds a get-validator-info request.
    pub fn build_get_validator_info_request(&mut self, submitter_did: String) -> (r: Result<
        RequestDocument,
        LedgerError,
    >)
        requires
            old(self).spec_next_req_id() < u64::MAX,
        ensures
            built_with(
                r,
                *old(self),
                *final(self),
                is_well_formed_did(submitter_did@),
                Some(submitter_did),
                Operation::GetValidatorInfo,
            ),
    {
        if let Err(e) = validate_did(submitter_did.as_str()) {
            return Err(e);
        }
        Ok(self.fresh(Some(submitter_did), Operation::GetValidatorInfo))
    }

    /// Builds a get-transaction request. The submitter identifier is
    /// optional: when absent, the identifier field is omitted from the
    /// document; the sequence number is carried unmodified.
    pub fn build_get_txn_request(
        &mut self,
        submitter_did: Option<String>,
        ledger_type: Option<String>,
        seq_no: i32,
    ) -> (r: Result<RequestDocument, LedgerError>)
        requires
            old(self).spec_next_req_id() < u64::MAX,
        ensures
            built_with(
                r,
                *old(self),
                *final(self),
                is_well_formed_opt_did(submitter_did),
                submitter_did,
                Operation::GetTxn { ledger_type, seq_no },
            ),
    {
        if let Err(e) = validate_opt_did(&submitter_did) {
            return Err(e);
        }
        Ok(self.fresh(submitter_did, Operation::GetTxn { ledger_type, seq_no }))
    }

    /// Builds a pool-config request.
    pub fn build_pool_config_request(
        &mut self,
        submitter_did: String,
        writes: bool,
        force: bool,
    ) -> (r: Result<RequestDocument, LedgerError>)
        requires
            old(self).spec_next_req_id() < u64::MAX,
        ensures
            built_with(
                r,
                *old(self),
                *final(self),
                is_well_formed_did(submitter_did@),
                Some(submitter_did),
                Operation::PoolConfig { writes, force },
            ),
    {
        if let Err(e) = validate_did(submitter_did.as_str()) {
            return Err(e);
        }
        Ok(self.fresh(Some(submitter_did), Operation::PoolConfig { writes, force }))
    }

    /// Builds a pool-restart request.
    pub fn build_pool_restart_request(
        &mut self,
        submitter_did: String,
        action: String,
        datetime: Option<String>,
    ) -> (r: Result<RequestDocument, LedgerError>)
        requires
            old(self).spec_next_req_id() < u64::MAX,
        ensures
            built_with(
                r,
                *old(self),
                *final(self),
                is_well_formed_did(submitter_did@),
                Some(submitter_did),
                Operation::PoolRestart { action, datetime },
            ),
    {
        if let Err(e) = validate_did(submitter_did.as_str()) {
            return Err(e);
        }
        Ok(self.fresh(Some(submitter_did), Operation::PoolRestart { action, datetime }))
    }

    /// Builds a pool-upgrade request.
    pub fn build_pool_upgrade_request(
        &mut self,
        submitter_did: String,
        name: String,
        version: String,
        action: String,
        sha256: String,
        timeout: Option<u32>,
        schedule: Option<String>,
        justification: Option<String>,
        reinstall: bool,
        force: bool,
        package: Option<String>,
    ) -> (r: Result<RequestDocument, LedgerError>)
        requires
            old(self).spec_next_req_id() < u64::MAX,
        ensures
            built_with(
                r,
                *old(self),
                *final(self),
                is_well_formed_did(submitter_did@),
                Some(submitter_did),
                Operation::PoolUpgrade {
                    name,
                    version,
                    action,
                    sha256,
                    timeout,
                    schedule,
                    justification,
                    reinstall,
                    force,
                    package,
                },
            ),
    {
        if let Err(e) = validate_did(submitter_did.as_str()) {
            return Err(e);
        }
        Ok(
            self.fresh(
                Some(submitter_did),
                Operation::PoolUpgrade {
                    name,
                    version,
                    action,
                    sha256,
                    timeout,
                    schedule,
                    justification,
                    reinstall,
                    force,
                    package,
                },
            ),
        )
    }

    /// Builds a set-auth-rule request.
    pub fn build_auth_rule_request(&mut self, submitter_did: String, rule: AuthRule) -> (r: Result<
        RequestDocument,
        LedgerError,
    >)
        requires
            old(self).spec_next_req_id() < u64::MAX,
        ensures
            built_with(
                r,
                *old(self),
                *final(self),
                is_well_formed_did(submitter_did@),
                Some(submitter_did),
                Operation::AuthRule { rule },
            ),
    {
        if let Err(e) = validate_did(submitter_did.as_str()) {
            return Err(e);
        }
        Ok(self.fresh(Some(submitter_did), Operation::AuthRule { rule }))
    }

    /// Builds a set-auth-rules request carrying a batch of rules.
    pub fn build_auth_rules_request(&mut self, submitter_did: String, rules: Vec<AuthRule>) -> (r:
        Result<RequestDocument, LedgerError>)
        requires
            old(self).spec_next_req_id() < u64::MAX,
        ensures
            built_with(
                r,
                *old(self),
                *final(self),
                is_well_formed_did(submitter_did@),
                Some(submitter_did),
                Operation::AuthRules { rules },
            ),
    {
        if let Err(e) = validate_did(submitter_did.as_str()) {
            return Err(e);
        }
        Ok(self.fresh(Some(submitter_did), Operation::AuthRules { rules }))
    }

    /// Builds a get-auth-rule request; every filter field is optional.
    pub fn build_get_auth_rule_request(
        &mut self,
        submitter_did: Option<String>,
        auth_type: Option<String>,
        auth_action: Option<String>,
        field: Option<String>,
        old_value: Option<String>,
        new_value: Option<String>,
    ) -> (r: Result<RequestDocument, LedgerError>)
        requires
            old(self).spec_next_req_id() < u64::MAX,
        ensures
            built_with(
                r,
                *old(self),
                *final(self),
                is_well_formed_opt_did(submitter_did),
                submitter_did,
                Operation::GetAuthRule { auth_type, auth_action, field, old_value, new_value },
            ),
    {
        if let Err(e) = validate_opt_did(&submitter_did) {
            return Err(e);
        }
        Ok(
            self.fresh(
                submitter_did,
                Operation::GetAuthRule { auth_type, auth_action, field, old_value, new_value },
            ),
        )
    }

    /// Builds a set-transaction-author-agreement request.
    pub fn build_txn_author_agreement_request(
        &mut self,
        submitter_did: String,
        text: String,
        version: String,
    ) -> (r: Result<RequestDocument, LedgerError>)
        requires
            old(self).spec_next_req_id() < u64::MAX,
        ensures
            built_with(
                r,
                *old(self),
                *final(self),
                is_well_formed_did(submitter_did@),
                Some(submitter_did),
                Operation::TxnAuthorAgreement { text, version },
            ),
    {
        if let Err(e) = validate_did(submitter_did.as_str()) {
            return Err(e);
        }
        Ok(self.fresh(Some(submitter_did), Operation::TxnAuthorAgreement { text, version }))
    }

    /// Builds a get-transaction-author-agreement request with an optional
    /// filter.
    pub fn build_get_txn_author_agreement_request(
        &mut self,
        submitter_did: Option<String>,
        data: Option<GetTxnAuthorAgreementData>,
    ) -> (r: Result<RequestDocument, LedgerError>)
        requires
            old(self).spec_next_req_id() < u64::MAX,
        ensures
            built_with(
                r,
                *old(self),
                *final(self),
                is_well_formed_opt_did(submitter_did),
                submitter_did,
                Operation::GetTxnAuthorAgreement { data },
            ),
    {
        if let Err(e) = validate_opt_did(&submitter_did) {
            return Err(e);
        }
        Ok(self.fresh(submitter_did, Operation::GetTxnAuthorAgreement { data }))
    }

    /// Builds a set-acceptance-mechanisms request.
    pub fn build_acceptance_mechanisms_request(
        &mut self,
        submitter_did: String,
        aml: AcceptanceMechanisms,
        version: String,
        aml_context: Option<String>,
    ) -> (r: Result<RequestDocument, LedgerError>)
        requires
            old(self).spec_next_req_id() < u64::MAX,
        ensures
            built_with(
                r,
                *old(self),
                *final(self),
                is_well_formed_did(submitter_did@),
                Some(submitter_did),
                Operation::AcceptanceMechanisms { aml, version, aml_context },
            ),
    {
        if let Err(e) = validate_did(submitter_did.as_str()) {
            return Err(e);
        }
        Ok(
            self.fresh(
                Some(submitter_did),
                Operation::AcceptanceMechanisms { aml, version, aml_context },
            ),
        )
    }

    /// Builds a get-acceptance-mechanisms request with an optional
    /// timestamp or version filter.
    pub fn build_get_acceptance_mechanisms_request(
        &mut self,
        submitter_did: Option<String>,
        timestamp: Option<u64>,
        version: Option<String>,
    ) -> (r: Result<RequestDocument, LedgerError>)
        requires
            old(self).spec_next_req_id() < u64::MAX,
        ensures
            built_with(
                r,
                *old(self),
                *final(self),
                is_well_formed_opt_did(submitter_did),
                submitter_did,
                Operation::GetAcceptanceMechanisms { timestamp, version },
            ),
    {
        if let Err(e) = validate_opt_did(&submitter_did) {
            return Err(e);
        }
        Ok(self.fresh(submitter_did, Operation::GetAcceptanceMechanisms { timestamp, version }))
    }
}

} // verus!
