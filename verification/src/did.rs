use vstd::prelude::*;

use crate::errors::LedgerError;

verus! {

/// A character of the base58 alphabet: the digits `1`-`9` and the latin
/// letters without `0`, `O`, `I` and `l`.
pub open spec fn is_base58_char(c: char) -> bool {
    ||| '1' <= c <= '9'
    ||| 'A' <= c <= 'H'
    ||| 'J' <= c <= 'N'
    ||| 'P' <= c <= 'Z'
    ||| 'a' <= c <= 'k'
    ||| 'm' <= c <= 'z'
}

/// An unqualified identifier: base58 text whose length matches the
/// encoding of a 16-byte or a 32-byte key.
pub open spec fn is_unqualified_did(s: Seq<char>) -> bool {
    &&& s.len() == 21 || s.len() == 22 || s.len() == 43 || s.len() == 44
    &&& forall|i: int| 0 <= i < s.len() ==> is_base58_char(#[trigger] s[i])
}

/// A fully qualified identifier: a `did:` prefix followed by at least one
/// further character.
pub open spec fn is_fully_qualified_did(s: Seq<char>) -> bool {
    s.len() > 4 && s[0] == 'd' && s[1] == 'i' && s[2] == 'd' && s[3] == ':'
}

/// A syntactically well-formed decentralized identifier.
pub open spec fn is_well_formed_did(s: Seq<char>) -> bool {
    is_fully_qualified_did(s) || is_unqualified_did(s)
}

/// A submitter identifier that is either absent (permitted for read-only
/// requests) or well-formed.
pub open spec fn is_well_formed_opt_did(d: Option<String>) -> bool {
    match d {
        Some(s) => is_well_formed_did(s@),
        None => true,
    }
}

/// Syntactic validation of a decentralized identifier, applied before any
/// identifier-bearing document is constructed.
pub fn validate_did(did: &str) -> (r: Result<(), LedgerError>)
    ensures
        r is Ok <==> is_well_formed_did(did@),
        r matches Err(e) ==> e == LedgerError::Validation,
{
    let n = did.unicode_len();
    if n > 4 && did.get_char(0) == 'd' && did.get_char(1) == 'i' && did.get_char(2) == 'd'
        && did.get_char(3) == ':' {
        return Ok(());
    }
    if !(n == 21 || n == 22 || n == 43 || n == 44) {
        return Err(LedgerError::Validation);
    }
    let mut i: usize = 0;
    while i < n
        invariant
            n == did@.len(),
            0 <= i <= n,
            !is_fully_qualified_did(did@),
            n == 21 || n == 22 || n == 43 || n == 44,
            forall|j: int| 0 <= j < i ==> is_base58_char(#[trigger] did@[j]),
        decreases n - i,
    {
        let c = did.get_char(i);
        if !(('1' <= c && c <= '9') || ('A' <= c && c <= 'H') || ('J' <= c && c <= 'N')
            || ('P' <= c && c <= 'Z') || ('a' <= c && c <= 'k') || ('m' <= c && c <= 'z')) {
            return Err(LedgerError::Validation);
        }
        i += 1;
    }
    Ok(())
}

/// Validation of an optional submitter identifier: absence is permitted.
pub fn validate_opt_did(did: &Option<String>) -> (r: Result<(), LedgerError>)
    ensures
        r is Ok <==> is_well_formed_opt_did(*did),
        r matches Err(e) ==> e == LedgerError::Validation,
{
    match did {
        Some(d) => validate_did(d.as_str()),
        None => Ok(()),
    }
}

} // verus!
