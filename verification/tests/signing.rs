use indyresolver::errors::LedgerError;
use indyresolver::executor::{Effect, LedgerCommandExecutor, SignDisposition};
use indyresolver::request::{Operation, RequestDocument, SignatureRegion};
use indyresolver::signer::{apply_signature, SignatureType};

fn base_doc(identifier: Option<String>) -> RequestDocument {
    RequestDocument {
        req_id: 1,
        identifier,
        operation: Operation::GetValidatorInfo,
        protocol_version: 2,
        signature: SignatureRegion::Unsigned,
        taa_acceptance: None,
    }
}

#[test]
fn single_sign_is_idempotent() {
    let doc = base_doc(Some(String::from("did:sov:alice")));
    let d1 = apply_signature(
        doc,
        &String::from("did:sov:alice"),
        String::from("sigA"),
        SignatureType::Single,
    );
    assert_eq!(
        d1.signature,
        SignatureRegion::Single { signature: String::from("sigA") }
    );
    let d2 = apply_signature(
        d1.clone(),
        &String::from("did:sov:alice"),
        String::from("sigA"),
        SignatureType::Single,
    );
    assert_eq!(d1, d2);
}

#[test]
fn single_sign_replaces_prior_signature() {
    let mut doc = base_doc(Some(String::from("did:sov:alice")));
    doc.signature = SignatureRegion::Single { signature: String::from("old") };
    let d = apply_signature(
        doc,
        &String::from("did:sov:alice"),
        String::from("new"),
        SignatureType::Single,
    );
    assert_eq!(
        d.signature,
        SignatureRegion::Single { signature: String::from("new") }
    );
}

#[test]
fn multi_sign_twice_accumulates_and_migrates_once() {
    let mut doc = base_doc(Some(String::from("id0")));
    doc.signature = SignatureRegion::Single { signature: String::from("sig0") };
    let d1 = apply_signature(
        doc,
        &String::from("did1"),
        String::from("sig1"),
        SignatureType::Multi,
    );
    match &d1.signature {
        SignatureRegion::Multi { signatures } => {
            assert_eq!(signatures.len(), 2);
            assert_eq!(
                signatures.get(&String::from("id0")).unwrap(),
                &String::from("sig0")
            );
            assert_eq!(
                signatures.get(&String::from("did1")).unwrap(),
                &String::from("sig1")
            );
        }
        other => panic!("expected a signatures map, got {:?}", other),
    }
    let d2 = apply_signature(
        d1,
        &String::from("did2"),
        String::from("sig2"),
        SignatureType::Multi,
    );
    match &d2.signature {
        SignatureRegion::Multi { signatures } => {
            assert_eq!(signatures.len(), 3);
            assert_eq!(
                signatures.get(&String::from("id0")).unwrap(),
                &String::from("sig0")
            );
            assert_eq!(
                signatures.get(&String::from("did1")).unwrap(),
                &String::from("sig1")
            );
            assert_eq!(
                signatures.get(&String::from("did2")).unwrap(),
                &String::from("sig2")
            );
        }
        other => panic!("expected a signatures map, got {:?}", other),
    }
    assert!(!matches!(d2.signature, SignatureRegion::Single { .. }));
}

#[test]
fn multi_sign_without_identifier_drops_prior_single() {
    let mut doc = base_doc(None);
    doc.signature = SignatureRegion::Single { signature: String::from("sig0") };
    let d = apply_signature(
        doc,
        &String::from("did1"),
        String::from("sig1"),
        SignatureType::Multi,
    );
    match &d.signature {
        SignatureRegion::Multi { signatures } => {
            assert_eq!(signatures.len(), 1);
            assert_eq!(
                signatures.get(&String::from("did1")).unwrap(),
                &String::from("sig1")
            );
        }
        other => panic!("expected a signatures map, got {:?}", other),
    }
}

#[test]
fn multi_sign_by_the_original_identifier_keeps_the_migrated_signature() {
    let mut doc = base_doc(Some(String::from("id0")));
    doc.signature = SignatureRegion::Single { signature: String::from("sig0") };
    let d = apply_signature(
        doc,
        &String::from("id0"),
        String::from("fresh"),
        SignatureType::Multi,
    );
    match &d.signature {
        SignatureRegion::Multi { signatures } => {
            assert_eq!(signatures.len(), 1);
            assert_eq!(
                signatures.get(&String::from("id0")).unwrap(),
                &String::from("sig0")
            );
        }
        other => panic!("expected a signatures map, got {:?}", other),
    }
}

#[test]
fn multi_sign_same_identifier_overwrites() {
    let doc = base_doc(None);
    let d1 = apply_signature(
        doc,
        &String::from("did1"),
        String::from("first"),
        SignatureType::Multi,
    );
    let d2 = apply_signature(
        d1,
        &String::from("did1"),
        String::from("second"),
        SignatureType::Multi,
    );
    match &d2.signature {
        SignatureRegion::Multi { signatures } => {
            assert_eq!(signatures.len(), 1);
            assert_eq!(
                signatures.get(&String::from("did1")).unwrap(),
                &String::from("second")
            );
        }
        other => panic!("expected a signatures map, got {:?}", other),
    }
}

#[test]
fn sign_failure_completes_with_error_and_never_submits() {
    let ex = LedgerCommandExecutor::new();
    let eff = ex.continue_with_signature(
        base_doc(Some(String::from("did:sov:alice"))),
        &String::from("did:sov:alice"),
        Err(LedgerError::NotFound),
        SignatureType::Single,
        SignDisposition::SubmitSigned { pool_handle: 4, cb: 9 },
    );
    assert_eq!(
        eff,
        Effect::Complete { cb: 9, result: Err(LedgerError::NotFound) }
    );
}

#[test]
fn sign_success_with_submit_disposition_forwards_to_pool() {
    let ex = LedgerCommandExecutor::new();
    let eff = ex.continue_with_signature(
        base_doc(Some(String::from("did:sov:alice"))),
        &String::from("did:sov:alice"),
        Ok(String::from("sigA")),
        SignatureType::Single,
        SignDisposition::SubmitSigned { pool_handle: 4, cb: 9 },
    );
    match eff {
        Effect::SendToPool { pool_handle, request, cb } => {
            assert_eq!(pool_handle, 4);
            assert_eq!(cb, 9);
            assert_eq!(
                request.signature,
                SignatureRegion::Single { signature: String::from("sigA") }
            );
            assert_eq!(request.identifier, Some(String::from("did:sov:alice")));
        }
        other => panic!("expected a pool submission, got {:?}", other),
    }
}
