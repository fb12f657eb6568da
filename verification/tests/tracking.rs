use indyresolver::errors::LedgerError;
use indyresolver::executor::{
    CompletionValue, Effect, LedgerCommand, LedgerCommandExecutor, SignDisposition,
};
use indyresolver::request::{Operation, RequestDocument, SignatureRegion};
use indyresolver::response::{ResponseMetadata, ResponseResult};
use indyresolver::signer::SignatureType;
use indyresolver::tracker::SubmissionTracker;

fn restart_doc() -> RequestDocument {
    RequestDocument {
        req_id: 7,
        identifier: Some(String::from("111111111111111111111")),
        operation: Operation::PoolRestart { action: String::from("start"), datetime: None },
        protocol_version: 2,
        signature: SignatureRegion::Unsigned,
        taa_acceptance: None,
    }
}

fn get_txn_doc() -> RequestDocument {
    RequestDocument {
        req_id: 8,
        identifier: None,
        operation: Operation::GetTxn { ledger_type: None, seq_no: 5 },
        protocol_version: 2,
        signature: SignatureRegion::Unsigned,
        taa_acceptance: None,
    }
}

#[test]
fn resolve_delivers_registered_callback_once() {
    let mut t = SubmissionTracker::new();
    t.register(7, 41);
    assert_eq!(t.pending_count(), 1);
    assert!(t.is_pending(7));
    assert_eq!(t.resolve(7), Some(41));
    assert_eq!(t.pending_count(), 0);
    assert_eq!(t.resolve(7), None);
}

#[test]
fn resolve_of_unregistered_id_is_a_noop() {
    let mut t = SubmissionTracker::new();
    t.register(1, 10);
    assert_eq!(t.resolve(2), None);
    assert_eq!(t.pending_count(), 1);
    assert!(t.is_pending(1));
}

#[test]
fn submission_lifecycle_delivers_ack_to_the_right_caller() {
    let mut ex = LedgerCommandExecutor::new();
    let eff = ex
        .execute(LedgerCommand::SubmitRequest { pool_handle: 3, request: restart_doc(), cb: 55 })
        .unwrap();
    let cb = match eff {
        Effect::SendToPool { pool_handle, request, cb } => {
            assert_eq!(pool_handle, 3);
            assert_eq!(request, restart_doc());
            cb
        }
        other => panic!("expected a pool submission, got {:?}", other),
    };
    assert_eq!(ex.pool_send_result(cb, Ok(42)), None);
    assert!(ex.is_pending(42));
    let ack = ex
        .execute(LedgerCommand::SubmitAck { cmd_id: 42, result: Ok(String::from("reply")) })
        .unwrap();
    assert_eq!(
        ack,
        Effect::Complete { cb: 55, result: Ok(CompletionValue::Text(String::from("reply"))) }
    );
    assert_eq!(ex.pending_count(), 0);
    assert_eq!(
        ex.execute(LedgerCommand::SubmitAck { cmd_id: 42, result: Ok(String::from("again")) }),
        None
    );
}

#[test]
fn ack_for_unknown_id_is_dropped_without_effect() {
    let mut ex = LedgerCommandExecutor::new();
    let r = ex.execute(LedgerCommand::SubmitAck {
        cmd_id: 9,
        result: Err(LedgerError::Transport),
    });
    assert_eq!(r, None);
    assert_eq!(ex.pending_count(), 0);
}

#[test]
fn failure_ack_is_delivered_as_the_carried_error() {
    let mut ex = LedgerCommandExecutor::new();
    assert_eq!(ex.pool_send_result(5, Ok(13)), None);
    let r = ex
        .execute(LedgerCommand::SubmitAck { cmd_id: 13, result: Err(LedgerError::InvalidState) })
        .unwrap();
    assert_eq!(r, Effect::Complete { cb: 5, result: Err(LedgerError::InvalidState) });
}

#[test]
fn pool_rejection_completes_caller_and_registers_nothing() {
    let mut ex = LedgerCommandExecutor::new();
    let r = ex.pool_send_result(5, Err(LedgerError::Transport));
    assert_eq!(
        r,
        Some(Effect::Complete { cb: 5, result: Err(LedgerError::Transport) })
    );
    assert_eq!(ex.pending_count(), 0);
}

#[test]
fn disallowed_action_type_never_reaches_the_pool() {
    let mut ex = LedgerCommandExecutor::new();
    let r = ex
        .execute(LedgerCommand::SubmitAction {
            pool_handle: 3,
            request: get_txn_doc(),
            nodes: None,
            timeout: None,
            cb: 77,
        })
        .unwrap();
    assert_eq!(
        r,
        Effect::Complete { cb: 77, result: Err(LedgerError::Validation) }
    );
    assert_eq!(ex.pending_count(), 0);
}

#[test]
fn allowed_action_type_is_forwarded_with_its_parameters() {
    let mut ex = LedgerCommandExecutor::new();
    let r = ex
        .execute(LedgerCommand::SubmitAction {
            pool_handle: 3,
            request: restart_doc(),
            nodes: Some(String::from("[\"Node1\"]")),
            timeout: Some(100),
            cb: 77,
        })
        .unwrap();
    assert_eq!(
        r,
        Effect::SendActionToPool {
            pool_handle: 3,
            request: restart_doc(),
            nodes: Some(String::from("[\"Node1\"]")),
            timeout: Some(100),
            cb: 77,
        }
    );
}

#[test]
fn sign_and_submit_routes_through_a_signing_effect() {
    let mut ex = LedgerCommandExecutor::new();
    let r = ex
        .execute(LedgerCommand::SignAndSubmitRequest {
            pool_handle: 2,
            wallet_handle: 6,
            submitter_did: String::from("111111111111111111111"),
            request: restart_doc(),
            cb: 12,
        })
        .unwrap();
    assert_eq!(
        r,
        Effect::FetchSignature {
            wallet_handle: 6,
            submitter_did: String::from("111111111111111111111"),
            request: restart_doc(),
            signature_type: SignatureType::Single,
            disposition: SignDisposition::SubmitSigned { pool_handle: 2, cb: 12 },
        }
    );
}

#[test]
fn build_command_completes_synchronously_with_the_document() {
    let mut ex = LedgerCommandExecutor::new();
    let r = ex
        .execute(LedgerCommand::BuildGetTxnRequest {
            submitter_did: None,
            ledger_type: None,
            seq_no: 5,
            cb: 30,
        })
        .unwrap();
    match r {
        Effect::Complete { cb, result: Ok(CompletionValue::Document(doc)) } => {
            assert_eq!(cb, 30);
            assert_eq!(doc.identifier, None);
            assert_eq!(doc.operation, Operation::GetTxn { ledger_type: None, seq_no: 5 });
            assert_eq!(doc.req_id, 1);
        }
        other => panic!("expected a completed build, got {:?}", other),
    }
    assert_eq!(ex.next_req_id(), 2);
}

#[test]
fn build_command_with_bad_identifier_completes_with_validation_error() {
    let mut ex = LedgerCommandExecutor::new();
    let r = ex
        .execute(LedgerCommand::BuildPoolConfigRequest {
            submitter_did: String::from("bad did"),
            writes: true,
            force: false,
            cb: 31,
        })
        .unwrap();
    assert_eq!(
        r,
        Effect::Complete { cb: 31, result: Err(LedgerError::Validation) }
    );
    assert_eq!(ex.next_req_id(), 1);
}

#[test]
fn parser_registration_is_forwarded_to_the_pool() {
    let mut ex = LedgerCommandExecutor::new();
    let r = ex
        .execute(LedgerCommand::RegisterSPParser {
            txn_type: String::from("120"),
            parser: 11,
            free: 12,
            cb: 8,
        })
        .unwrap();
    assert_eq!(
        r,
        Effect::RegisterParser { txn_type: String::from("120"), parser: 11, free: 12, cb: 8 }
    );
}

#[test]
fn response_metadata_extraction_completes_synchronously() {
    let mut ex = LedgerCommandExecutor::new();
    let r = ex
        .execute(LedgerCommand::GetResponseMetadata {
            response: ResponseResult::Legacy {
                seq_no: Some(14),
                txn_time: Some(1_500_000),
                multi_signature_time: Some(1_600_000),
            },
            cb: 21,
        })
        .unwrap();
    assert_eq!(
        r,
        Effect::Complete {
            cb: 21,
            result: Ok(CompletionValue::Metadata(ResponseMetadata {
                seq_no: Some(14),
                txn_time: Some(1_500_000),
                last_txn_time: Some(1_600_000),
                last_seq_no: None,
            })),
        }
    );
}
