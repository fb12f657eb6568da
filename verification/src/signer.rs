use vstd::prelude::*;

use crate::request::{RequestDocument, SignatureMap, SignatureRegion};

verus! {

/// Whether a signature is applied as the single `signature` field or as an
/// entry of the `signatures` map.
#[derive(Clone, Copy, Debug, PartialEq, Eq, Structural)]
pub enum SignatureType {
    Single,
    Multi,
}

/// The mathematical value of an authentication region.
pub enum RegionView {
    Unsigned,
    Single(Seq<char>),
    Multi(Map<Seq<char>, Seq<char>>),
}

pub open spec fn region_view(r: SignatureRegion) -> RegionView {
    match r {
        SignatureRegion::Unsigned => RegionView::Unsigned,
        SignatureRegion::Single { signature } => RegionView::Single(signature@),
        SignatureRegion::Multi { signatures } => RegionView::Multi(signatures@),
    }
}

/// The `signatures` map a multi-mode application leaves behind: the new
/// signature is inserted under the submitter's identifier into the
/// co-signers already collected; a prior single signature beside a known
/// `identifier` field is migrated into the map after that, so on a
/// collision of the two keys the migrated signature is the one kept. A
/// prior single signature without an identifier is dropped.
pub open spec fn multi_sign_result(
    doc: RequestDocument,
    did: Seq<char>,
    sig: Seq<char>,
) -> Map<Seq<char>, Seq<char>> {
    match doc.signature {
        SignatureRegion::Unsigned => Map::empty().insert(did, sig),
        SignatureRegion::Single { signature } => match doc.identifier {
            Some(id) => Map::empty().insert(did, sig).insert(id@, signature@),
            None => Map::empty().insert(did, sig),
        },
        SignatureRegion::Multi { signatures } => signatures@.insert(did, sig),
    }
}

/// Applies an encoded signature to a request document.
///
/// In single mode the `signature` field is set, overwriting any prior
/// value. In multi mode the signature is inserted into the `signatures`
/// map under the submitter's identifier, and after that a prior single
/// signature beside a known `identifier` field is migrated into the map
/// under that identifier — the single field is removed, and on a key
/// collision the migrated signature takes precedence.
pub fn apply_signature(
    request: RequestDocument,
    submitter_did: &String,
    signature: String,
    signature_type: SignatureType,
) -> (r: RequestDocument)
    requires
        request.wf(),
    ensures
        r.wf(),
        r.same_envelope(&request),
        match signature_type {
            SignatureType::Single => region_view(r.signature) == RegionView::Single(signature@),
            SignatureType::Multi => region_view(r.signature) == RegionView::Multi(
                multi_sign_result(request, submitter_did@, signature@),
            ),
        },
{
    let RequestDocument { req_id, identifier, operation, protocol_version, signature: region, taa_acceptance } =
        request;
    let new_region = match signature_type {
        SignatureType::Single => SignatureRegion::Single { signature },
        SignatureType::Multi => {
            let map = match region {
                SignatureRegion::Unsigned => {
                    let mut m = SignatureMap::new();
                    m.insert(submitter_did.clone(), signature);
                    m
                },
                SignatureRegion::Single { signature: prior } => {
                    let mut m = SignatureMap::new();
                    m.insert(submitter_did.clone(), signature);
                    if let Some(id) = &identifier {
                        m.insert(id.clone(), prior);
                    }
                    m
                },
                SignatureRegion::Multi { signatures } => {
                    let mut m = signatures;
                    m.insert(submitter_did.clone(), signature);
                    m
                },
            };
            SignatureRegion::Multi { signatures: map }
        },
    };
    RequestDocument {
        req_id,
        identifier,
        operation,
        protocol_version,
        signature: new_region,
        taa_acceptance,
    }
}

/// The relation `apply_signature` establishes in single mode: the envelope
/// is kept and the region holds exactly the one signature.
pub open spec fn single_signed_from(
    before: RequestDocument,
    signature: Seq<char>,
    after: RequestDocument,
) -> bool {
    &&& after.same_envelope(&before)
    &&& region_view(after.signature) == RegionView::Single(signature)
}

/// The relation `apply_signature` establishes in multi mode.
pub open spec fn multi_signed_from(
    before: RequestDocument,
    did: Seq<char>,
    signature: Seq<char>,
    after: RequestDocument,
) -> bool {
    &&& after.same_envelope(&before)
    &&& region_view(after.signature) == RegionView::Multi(
        multi_sign_result(before, did, signature),
    )
}

/// Law: single-mode signing is idempotent under re-application with the
/// same signature, and replaces any prior single signature — the second
/// application leaves the envelope and the authentication region exactly
/// as the first left them.
pub proof fn lemma_single_signing_idempotent(
    d0: RequestDocument,
    d1: RequestDocument,
    d2: RequestDocument,
    sig: Seq<char>,
)
    requires
        single_signed_from(d0, sig, d1),
        single_signed_from(d1, sig, d2),
    ensures
        d2.same_envelope(&d1),
        region_view(d2.signature) == region_view(d1.signature),
{
}

/// Law: when the submitter of a multi-mode signature is the document's
/// own identifier, the migration takes precedence — the map keeps the
/// prior single signature under that identifier, not the fresh one.
pub proof fn lemma_multi_signing_collision_keeps_prior(
    d0: RequestDocument,
    d1: RequestDocument,
    id0: Seq<char>,
    s0: Seq<char>,
    sig1: Seq<char>,
)
    requires
        d0.identifier matches Some(id) && id@ == id0,
        region_view(d0.signature) == RegionView::Single(s0),
        multi_signed_from(d0, id0, sig1, d1),
    ensures
        multi_sign_result(d0, id0, sig1).contains_key(id0),
        multi_sign_result(d0, id0, sig1)[id0] == s0,
{
}

/// Law: multi-signing twice with two distinct identifiers over a document
/// that carried a prior single signature yields a `signatures` map holding
/// both new signatures and the prior one, migrated under the document's
/// original identifier exactly once; the single `signature` field does not
/// survive as a top-level field.
pub proof fn lemma_multi_signing_accumulates(
    d0: RequestDocument,
    d1: RequestDocument,
    d2: RequestDocument,
    id0: Seq<char>,
    s0: Seq<char>,
    did1: Seq<char>,
    sig1: Seq<char>,
    did2: Seq<char>,
    sig2: Seq<char>,
)
    requires
        d0.identifier matches Some(id) && id@ == id0,
        region_view(d0.signature) == RegionView::Single(s0),
        multi_signed_from(d0, did1, sig1, d1),
        multi_signed_from(d1, did2, sig2, d2),
        did1 != did2,
        id0 != did1,
        id0 != did2,
    ensures
        ({
            let m = multi_sign_result(d0, did1, sig1).insert(did2, sig2);
            &&& region_view(d2.signature) == RegionView::Multi(m)
            &&& m.contains_key(did1) && m[did1] == sig1
            &&& m.contains_key(did2) && m[did2] == sig2
            &&& m.contains_key(id0) && m[id0] == s0
            &&& !(d2.signature is Single)
            &&& !(d2.signature is Unsigned)
        }),
{
    let m1 = multi_sign_result(d0, did1, sig1);
    match d1.signature {
        SignatureRegion::Multi { signatures } => {
            assert(signatures@ == m1);
            assert(multi_sign_result(d1, did2, sig2) == m1.insert(did2, sig2));
        },
        _ => {
            assert(false);
        },
    }
    match d2.signature {
        SignatureRegion::Multi { signatures } => {},
        _ => {
            assert(false);
        },
    }
    match d0.identifier {
        Some(id) => {
            assert(m1.contains_key(id0) && m1[id0] == s0);
        },
        None => {
            assert(false);
        },
    }
}

} // verus!
