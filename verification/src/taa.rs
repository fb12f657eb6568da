use vstd::prelude::*;

use vstd::utf8::encode_utf8;

use crate::errors::LedgerError;
use crate::request::{AcceptanceData, RequestDocument};

verus! {

/// The lower-case hexadecimal digit of a nibble.
pub open spec fn hex_char(n: u8) -> char
    recommends
        n < 16,
{
    if n == 0 {
        '0'
    } else if n == 1 {
        '1'
    } else if n == 2 {
        '2'
    } else if n == 3 {
        '3'
    } else if n == 4 {
        '4'
    } else if n == 5 {
        '5'
    } else if n == 6 {
        '6'
    } else if n == 7 {
        '7'
    } else if n == 8 {
        '8'
    } else if n == 9 {
        '9'
    } else if n == 10 {
        'a'
    } else if n == 11 {
        'b'
    } else if n == 12 {
        'c'
    } else if n == 13 {
        'd'
    } else if n == 14 {
        'e'
    } else {
        'f'
    }
}

/// The lower-case hexadecimal encoding of a byte sequence, two digits per
/// byte.
pub open spec fn hex_of(b: Seq<u8>) -> Seq<char>
    decreases b.len(),
{
    if b.len() == 0 {
        Seq::empty()
    } else {
        hex_of(b.drop_last()).push(hex_char(b.last() / 16)).push(hex_char(b.last() % 16))
    }
}

fn hex_char_of(n: u8) -> (c: char)
    requires
        n < 16,
    ensures
        c == hex_char(n),
{
    if n == 0 {
        '0'
    } else if n == 1 {
        '1'
    } else if n == 2 {
        '2'
    } else if n == 3 {
        '3'
    } else if n == 4 {
        '4'
    } else if n == 5 {
        '5'
    } else if n == 6 {
        '6'
    } else if n == 7 {
        '7'
    } else if n == 8 {
        '8'
    } else if n == 9 {
        '9'
    } else if n == 10 {
        'a'
    } else if n == 11 {
        'b'
    } else if n == 12 {
        'c'
    } else if n == 13 {
        'd'
    } else if n == 14 {
        'e'
    } else {
        'f'
    }
}

/// Relies on String::push: appends the one character at the end of the
/// string.
#[verifier::external_body]
fn push_char(s: &mut String, c: char)
    ensures
        final(s)@ == old(s)@.push(c),
{
    s.push(c);
}

/// Lower-case hexadecimal encoding of a byte vector.
pub fn hex_encode(bytes: &Vec<u8>) -> (r: String)
    ensures
        r@ == hex_of(bytes@),
{
    let mut r = String::new();
    let n = bytes.len();
    let mut i: usize = 0;
    while i < n
        invariant
            n == bytes@.len(),
            0 <= i <= n,
            r@ == hex_of(bytes@.subrange(0, i as int)),
        decreases n - i,
    {
        let b = bytes[i];
        assert(b / 16 < 16);
        assert(b % 16 < 16);
        push_char(&mut r, hex_char_of(b / 16));
        push_char(&mut r, hex_char_of(b % 16));
        proof {
            let pre = bytes@.subrange(0, i as int);
            let post = bytes@.subrange(0, i as int + 1);
            assert(post.drop_last() =~= pre);
            assert(post.last() == bytes@[i as int]);
        }
        i += 1;
    }
    proof {
        assert(bytes@.subrange(0, n as int) =~= bytes@);
    }
    r
}

/// The SHA-256 digest of a byte sequence, a function of the input bytes
/// alone.
pub uninterp spec fn sha256_of(bytes: Seq<u8>) -> Seq<u8>;

/// Relies on sha2::Sha256::digest: the 32-byte SHA-256 digest of the
/// input, which depends on the input bytes alone.
#[verifier::external_body]
fn sha256(bytes: &Vec<u8>) -> (r: Vec<u8>)
    ensures
        r@ == sha256_of(bytes@),
        r@.len() == 32,
{
    <sha2::Sha256 as sha2::Digest>::digest(bytes.as_slice()).to_vec()
}

/// The canonical digest of an author agreement: the hexadecimal SHA-256
/// digest of the version's bytes followed by the text's bytes.
pub open spec fn agreement_digest(text: Seq<char>, version: Seq<char>) -> Seq<char> {
    hex_of(sha256_of(encode_utf8(version) + encode_utf8(text)))
}

/// Computes the canonical agreement digest of a text and a version.
pub fn compute_agreement_digest(text: &String, version: &String) -> (r: String)
    ensures
        r@ == agreement_digest(text@, version@),
{
    let mut content: Vec<u8> = Vec::new();
    content.extend_from_slice(version.as_str().as_bytes());
    content.extend_from_slice(text.as_str().as_bytes());
    proof {
        assert(content@ =~= encode_utf8(version@) + encode_utf8(text@));
    }
    let digest = sha256(&content);
    hex_encode(&digest)
}

/// Whether a combination of agreement text, version and digest is
/// acceptable: text and version come and go together; a digest given
/// beside them must match the canonical digest; at least one of the two
/// forms must be present.
pub open spec fn acceptance_ok(
    text: Option<Seq<char>>,
    version: Option<Seq<char>>,
    digest: Option<Seq<char>>,
) -> bool {
    match (text, version, digest) {
        (Some(t), Some(v), None) => true,
        (None, None, Some(d)) => true,
        (Some(t), Some(v), Some(d)) => d == agreement_digest(t, v),
        _ => false,
    }
}

/// The digest an acceptable combination resolves to.
pub open spec fn resolved_digest(
    text: Option<Seq<char>>,
    version: Option<Seq<char>>,
    digest: Option<Seq<char>>,
) -> Seq<char>
    recommends
        acceptance_ok(text, version, digest),
{
    match digest {
        Some(d) => d,
        None => match (text, version) {
            (Some(t), Some(v)) => agreement_digest(t, v),
            _ => Seq::empty(),
        },
    }
}

pub open spec fn opt_string_view(s: Option<&String>) -> Option<Seq<char>> {
    match s {
        Some(x) => Some(x@),
        None => None,
    }
}

/// Derives the author-agreement acceptance record from an explicit digest
/// or from the agreement's text and version via the canonical hash.
pub fn prepare_acceptance_data(
    text: Option<&String>,
    version: Option<&String>,
    taa_digest: Option<&String>,
    mechanism: &String,
    time: u64,
) -> (r: Result<AcceptanceData, LedgerError>)
    ensures
        match r {
            Ok(a) => {
                &&& acceptance_ok(
                    opt_string_view(text),
                    opt_string_view(version),
                    opt_string_view(taa_digest),
                )
                &&& a.mechanism@ == mechanism@
                &&& a.time == time
                &&& a.taa_digest@ == resolved_digest(
                    opt_string_view(text),
                    opt_string_view(version),
                    opt_string_view(taa_digest),
                )
            },
            Err(e) => {
                &&& !acceptance_ok(
                    opt_string_view(text),
                    opt_string_view(version),
                    opt_string_view(taa_digest),
                )
                &&& e == LedgerError::InvalidStructure
            },
        },
{
    match (text, version, taa_digest) {
        (Some(t), Some(v), None) => Ok(
            AcceptanceData {
                mechanism: mechanism.clone(),
                taa_digest: compute_agreement_digest(t, v),
                time,
            },
        ),
        (None, None, Some(d)) => Ok(
            AcceptanceData { mechanism: mechanism.clone(), taa_digest: d.clone(), time },
        ),
        (Some(t), Some(v), Some(d)) => {
            let computed = compute_agreement_digest(t, v);
            if computed == *d {
                Ok(AcceptanceData { mechanism: mechanism.clone(), taa_digest: d.clone(), time })
            } else {
                Err(LedgerError::InvalidStructure)
            }
        },
        _ => Err(LedgerError::InvalidStructure),
    }
}

/// The relation between a request document and the same document with an
/// acceptance record attached: the envelope and the authentication region
/// are untouched, and the record carries the resolved digest.
pub open spec fn acceptance_appended(
    request: RequestDocument,
    text: Option<Seq<char>>,
    version: Option<Seq<char>>,
    digest: Option<Seq<char>>,
    mechanism: Seq<char>,
    time: u64,
    doc: RequestDocument,
) -> bool {
    &&& doc.req_id == request.req_id
    &&& doc.identifier == request.identifier
    &&& doc.operation == request.operation
    &&& doc.protocol_version == request.protocol_version
    &&& doc.signature == request.signature
    &&& doc.taa_acceptance matches Some(a) && a.mechanism@ == mechanism && a.time == time
        && a.taa_digest@ == resolved_digest(text, version, digest)
}

/// Attaches an author-agreement acceptance record to a request document,
/// leaving the envelope and the authentication region untouched.
pub fn append_txn_author_agreement_acceptance_to_request(
    request: RequestDocument,
    text: Option<&String>,
    version: Option<&String>,
    taa_digest: Option<&String>,
    acc_mech_type: &String,
    time: u64,
) -> (r: Result<RequestDocument, LedgerError>)
    requires
        request.wf(),
    ensures
        match r {
            Ok(doc) => {
                &&& acceptance_ok(
                    opt_string_view(text),
                    opt_string_view(version),
                    opt_string_view(taa_digest),
                )
                &&& doc.wf()
                &&& acceptance_appended(
                    request,
                    opt_string_view(text),
                    opt_string_view(version),
                    opt_string_view(taa_digest),
                    acc_mech_type@,
                    time,
                    doc,
                )
            },
            Err(e) => {
                &&& !acceptance_ok(
                    opt_string_view(text),
                    opt_string_view(version),
                    opt_string_view(taa_digest),
                )
                &&& e == LedgerError::InvalidStructure
            },
        },
{
    match prepare_acceptance_data(text, version, taa_digest, acc_mech_type, time) {
        Ok(acceptance) => {
            let RequestDocument {
                req_id,
                identifier,
                operation,
                protocol_version,
                signature,
                taa_acceptance: _,
            } = request;
            Ok(
                RequestDocument {
                    req_id,
                    identifier,
                    operation,
                    protocol_version,
                    signature,
                    taa_acceptance: Some(acceptance),
                },
            )
        },
        Err(e) => Err(e),
    }
}

/// The relation between an acceptance record and the text, version,
/// mechanism and time it was derived from, when no explicit digest was
/// supplied.
pub open spec fn acceptance_record_for(
    a: AcceptanceData,
    text: Seq<char>,
    version: Seq<char>,
    mechanism: Seq<char>,
    time: u64,
) -> bool {
    &&& a.mechanism@ == mechanism
    &&& a.time == time
    &&& a.taa_digest@ == agreement_digest(text, version)
}

/// Law: the acceptance record derived from an agreement's text and
/// version is deterministic — two records derived from identical text,
/// version, mechanism and time are identical in every part.
pub proof fn lemma_acceptance_record_deterministic(
    a1: AcceptanceData,
    a2: AcceptanceData,
    text: Seq<char>,
    version: Seq<char>,
    mechanism: Seq<char>,
    time: u64,
)
    requires
        acceptance_record_for(a1, text, version, mechanism, time),
        acceptance_record_for(a2, text, version, mechanism, time),
    ensures
        a1.mechanism@ == a2.mechanism@,
        a1.taa_digest@ == a2.taa_digest@,
        a1.time == a2.time,
{
}

} // verus!
