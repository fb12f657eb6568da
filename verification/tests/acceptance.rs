use indyresolver::errors::LedgerError;
use indyresolver::request::{Operation, RequestDocument, SignatureRegion};
use indyresolver::taa::{
    append_txn_author_agreement_acceptance_to_request, compute_agreement_digest, hex_encode,
    prepare_acceptance_data,
};

fn base_doc() -> RequestDocument {
    RequestDocument {
        req_id: 3,
        identifier: Some(String::from("111111111111111111111")),
        operation: Operation::GetTxn { ledger_type: None, seq_no: 1 },
        protocol_version: 2,
        signature: SignatureRegion::Single { signature: String::from("sig") },
        taa_acceptance: None,
    }
}

#[test]
fn hex_encoding_is_two_lowercase_digits_per_byte() {
    assert_eq!(hex_encode(&vec![]), "");
    assert_eq!(hex_encode(&vec![0u8, 255, 26]), "00ff1a");
}

#[test]
fn agreement_digest_of_empty_content_matches_known_vector() {
    let d = compute_agreement_digest(&String::new(), &String::new());
    assert_eq!(
        d,
        "e3b0c44298fc1c149afbf4c8996fb92427ae41e4649b934ca495991b7852b855"
    );
}

#[test]
fn agreement_digest_hashes_version_then_text() {
    let d = compute_agreement_digest(&String::from("bc"), &String::from("a"));
    assert_eq!(
        d,
        "ba7816bf8f01cfea414140de5dae2223b00361a396177a9cb410ff61f20015ad"
    );
}

#[test]
fn acceptance_from_text_and_version_is_deterministic() {
    let a1 = prepare_acceptance_data(
        Some(&String::from("T")),
        Some(&String::from("1.0")),
        None,
        &String::from("click"),
        123,
    )
    .unwrap();
    let a2 = prepare_acceptance_data(
        Some(&String::from("T")),
        Some(&String::from("1.0")),
        None,
        &String::from("click"),
        123,
    )
    .unwrap();
    assert_eq!(a1, a2);
    assert_eq!(
        a1.taa_digest,
        compute_agreement_digest(&String::from("T"), &String::from("1.0"))
    );
    assert_eq!(a1.mechanism, "click");
    assert_eq!(a1.time, 123);
}

#[test]
fn acceptance_from_explicit_digest_keeps_it() {
    let a = prepare_acceptance_data(
        None,
        None,
        Some(&String::from("aabbcc")),
        &String::from("click"),
        9,
    )
    .unwrap();
    assert_eq!(a.taa_digest, "aabbcc");
}

#[test]
fn acceptance_with_matching_digest_beside_text_is_accepted() {
    let digest = compute_agreement_digest(&String::from("T"), &String::from("1.0"));
    let a = prepare_acceptance_data(
        Some(&String::from("T")),
        Some(&String::from("1.0")),
        Some(&digest),
        &String::from("click"),
        9,
    )
    .unwrap();
    assert_eq!(a.taa_digest, digest);
}

#[test]
fn acceptance_with_mismatched_digest_is_rejected() {
    let r = prepare_acceptance_data(
        Some(&String::from("T")),
        Some(&String::from("1.0")),
        Some(&String::from("0000")),
        &String::from("click"),
        9,
    );
    assert_eq!(r, Err(LedgerError::InvalidStructure));
}

#[test]
fn acceptance_with_invalid_combination_is_rejected() {
    let r = prepare_acceptance_data(
        Some(&String::from("T")),
        None,
        None,
        &String::from("click"),
        9,
    );
    assert_eq!(r, Err(LedgerError::InvalidStructure));
    let r2 = prepare_acceptance_data(None, None, None, &String::from("click"), 9);
    assert_eq!(r2, Err(LedgerError::InvalidStructure));
}

#[test]
fn appending_acceptance_keeps_envelope_and_signature() {
    let doc = base_doc();
    let out = append_txn_author_agreement_acceptance_to_request(
        doc.clone(),
        Some(&String::from("T")),
        Some(&String::from("1.0")),
        None,
        &String::from("click"),
        123,
    )
    .unwrap();
    assert_eq!(out.req_id, doc.req_id);
    assert_eq!(out.identifier, doc.identifier);
    assert_eq!(out.operation, doc.operation);
    assert_eq!(out.signature, doc.signature);
    let acceptance = out.taa_acceptance.unwrap();
    assert_eq!(acceptance.mechanism, "click");
    assert_eq!(acceptance.time, 123);
    assert_eq!(
        acceptance.taa_digest,
        compute_agreement_digest(&String::from("T"), &String::from("1.0"))
    );
}

#[test]
fn appending_acceptance_with_bad_combination_fails() {
    let r = append_txn_author_agreement_acceptance_to_request(
        base_doc(),
        None,
        Some(&String::from("1.0")),
        None,
        &String::from("click"),
        123,
    );
    assert_eq!(r, Err(LedgerError::InvalidStructure));
}

#[test]
fn two_appended_requests_with_identical_terms_agree() {
    let out1 = append_txn_author_agreement_acceptance_to_request(
        base_doc(),
        Some(&String::from("T")),
        Some(&String::from("1.0")),
        None,
        &String::from("click"),
        123,
    )
    .unwrap();
    let out2 = append_txn_author_agreement_acceptance_to_request(
        base_doc(),
        Some(&String::from("T")),
        Some(&String::from("1.0")),
        None,
        &String::from("click"),
        123,
    )
    .unwrap();
    assert_eq!(out1.taa_acceptance, out2.taa_acceptance);
}
