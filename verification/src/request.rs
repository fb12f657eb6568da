use vstd::prelude::*;

verus! {

/// The protocol version stamped on every constructed request envelope.
pub const PROTOCOL_VERSION: u64 = 2;

/// Parameters of a node-registration operation. They carry no behavior,
/// only shape.
#[derive(Clone, Debug, PartialEq)]
pub struct NodeOperationData {
    pub alias: String,
    pub node_ip: Option<String>,
    pub node_port: Option<u32>,
    pub client_ip: Option<String>,
    pub client_port: Option<u32>,
    pub services: Option<Vec<String>>,
    pub blskey: Option<String>,
    pub blskey_pop: Option<String>,
}

/// One ledger-side authorization policy constraint.
#[derive(Clone, Debug, PartialEq)]
pub struct AuthRule {
    pub auth_type: String,
    pub auth_action: String,
    pub field: String,
    pub old_value: Option<String>,
    pub new_value: Option<String>,
    pub constraint: String,
}

/// A labelled set of acceptance mechanisms: each pair is a mechanism label
/// and its description.
#[derive(Clone, Debug, PartialEq)]
pub struct AcceptanceMechanisms {
    pub mechanisms: Vec<(String, String)>,
}

/// The filter of a get-transaction-author-agreement request.
#[derive(Clone, Debug, PartialEq)]
pub struct GetTxnAuthorAgreementData {
    pub digest: Option<String>,
    pub version: Option<String>,
    pub timestamp: Option<u64>,
}

/// The transaction-author-agreement acceptance record attached to a
/// request's envelope.
#[derive(Clone, Debug, PartialEq)]
pub struct AcceptanceData {
    pub mechanism: String,
    pub taa_digest: String,
    pub time: u64,
}

/// The operation body of a request document, one variant per supported
/// request type.
#[derive(Clone, Debug, PartialEq)]
pub enum Operation {
    Node {
        target_did: String,
        data: NodeOperationData,
    },
    GetValidatorInfo,
    GetTxn {
        ledger_type: Option<String>,
        seq_no: i32,
    },
    PoolConfig {
        writes: bool,
        force: bool,
    },
    PoolRestart {
        action: String,
        datetime: Option<String>,
    },
    PoolUpgrade {
        name: String,
        version: String,
        action: String,
        sha256: String,
        timeout: Option<u32>,
        schedule: Option<String>,
        justification: Option<String>,
        reinstall: bool,
        force: bool,
        package: Option<String>,
    },
    AuthRule {
        rule: AuthRule,
    },
    AuthRules {
        rules: Vec<AuthRule>,
    },
    GetAuthRule {
        auth_type: Option<String>,
        auth_action: Option<String>,
        field: Option<String>,
        old_value: Option<String>,
        new_value: Option<String>,
    },
    TxnAuthorAgreement {
        text: String,
        version: String,
    },
    GetTxnAuthorAgreement {
        data: Option<GetTxnAuthorAgreementData>,
    },
    AcceptanceMechanisms {
        aml: AcceptanceMechanisms,
        version: String,
        aml_context: Option<String>,
    },
    GetAcceptanceMechanisms {
        timestamp: Option<u64>,
        version: Option<String>,
    },
}

/// Whether two key sequences collide nowhere: the well-formedness of a
/// signature map's backing entries.
pub open spec fn keys_distinct(s: Seq<(String, String)>) -> bool {
    forall|i: int, j: int| 0 <= i < j < s.len() ==> s[i].0@ != s[j].0@
}

/// The mathematical contents of a sequence of signature entries: later
/// entries override earlier ones, though well-formed maps never hold two
/// entries for one key.
pub open spec fn entries_map(s: Seq<(String, String)>) -> Map<Seq<char>, Seq<char>>
    decreases s.len(),
{
    if s.len() == 0 {
        Map::empty()
    } else {
        entries_map(s.drop_last()).insert(s.last().0@, s.last().1@)
    }
}

/// The `signatures` map of a multi-signed document, keyed by signer
/// identifier.
#[derive(Clone, Debug, PartialEq)]
pub struct SignatureMap {
    entries: Vec<(String, String)>,
}

impl View for SignatureMap {
    type V = Map<Seq<char>, Seq<char>>;

    closed spec fn view(&self) -> Map<Seq<char>, Seq<char>> {
        entries_map(self.entries@)
    }
}

proof fn lemma_entries_map_contains_key(s: Seq<(String, String)>, k: Seq<char>)
    ensures
        entries_map(s).contains_key(k) <==> exists|i: int| 0 <= i < s.len() && s[i].0@ == k,
    decreases s.len(),
{
    if s.len() > 0 {
        let t = s.drop_last();
        lemma_entries_map_contains_key(t, k);
        if s.last().0@ == k {
            assert(s[s.len() - 1].0@ == k);
        } else {
            if entries_map(s).contains_key(k) {
                let i = choose|i: int| 0 <= i < t.len() && t[i].0@ == k;
                assert(s[i].0@ == k);
            }
            if exists|i: int| 0 <= i < s.len() && s[i].0@ == k {
                let i = choose|i: int| 0 <= i < s.len() && s[i].0@ == k;
                assert(i < s.len() - 1);
                assert(t[i].0@ == k);
            }
        }
    }
}

proof fn lemma_entries_map_index(s: Seq<(String, String)>, i: int)
    requires
        keys_distinct(s),
        0 <= i < s.len(),
    ensures
        entries_map(s).contains_key(s[i].0@),
        entries_map(s)[s[i].0@] == s[i].1@,
    decreases s.len(),
{
    if i < s.len() - 1 {
        let t = s.drop_last();
        assert(t[i] == s[i]);
        lemma_entries_map_index(t, i);
        assert(s.last().0@ != s[i].0@);
    }
}

proof fn lemma_entries_map_push(s: Seq<(String, String)>, p: (String, String))
    ensures
        entries_map(s.push(p)) == entries_map(s).insert(p.0@, p.1@),
{
    assert(s.push(p).drop_last() =~= s);
    assert(s.push(p).last() == p);
}

proof fn lemma_entries_map_update(s: Seq<(String, String)>, i: int, p: (String, String))
    requires
        keys_distinct(s),
        0 <= i < s.len(),
        s[i].0@ == p.0@,
    ensures
        entries_map(s.update(i, p)) == entries_map(s).insert(p.0@, p.1@),
    decreases s.len(),
{
    let t = s.drop_last();
    if i == s.len() - 1 {
        assert(s.update(i, p).drop_last() =~= t);
        assert(s.update(i, p).last() == p);
        assert(entries_map(t).insert(s.last().0@, s.last().1@).insert(p.0@, p.1@) =~= entries_map(
            t,
        ).insert(p.0@, p.1@));
    } else {
        assert(s.update(i, p).drop_last() =~= t.update(i, p));
        assert(s.update(i, p).last() == s.last());
        assert(t[i] == s[i]);
        lemma_entries_map_update(t, i, p);
        assert(s.last().0@ != p.0@);
        assert(entries_map(t).insert(p.0@, p.1@).insert(s.last().0@, s.last().1@) =~= entries_map(
            t,
        ).insert(s.last().0@, s.last().1@).insert(p.0@, p.1@));
    }
}

impl SignatureMap {
    /// The keys of the backing entries collide nowhere.
    pub closed spec fn wf(&self) -> bool {
        keys_distinct(self.entries@)
    }

    /// The number of signatures held.
    pub closed spec fn spec_len(&self) -> nat {
        self.entries@.len()
    }

    pub fn new() -> (r: Self)
        ensures
            r@ == Map::<Seq<char>, Seq<char>>::empty(),
            r.wf(),
            r.spec_len() == 0,
    {
        SignatureMap { entries: Vec::new() }
    }

    pub fn len(&self) -> (r: usize)
        ensures
            r == self.spec_len(),
    {
        self.entries.len()
    }

    /// The position of the entry holding `k`, if any.
    fn position_of(&self, k: &String) -> (r: Option<usize>)
        ensures
            match r {
                Some(i) => i < self.entries@.len() && self.entries@[i as int].0@ == k@,
                None => forall|i: int| 0 <= i < self.entries@.len() ==> self.entries@[i].0@ != k@,
            },
    {
        let n = self.entries.len();
        let mut i: usize = 0;
        while i < n
            invariant
                n == self.entries@.len(),
                0 <= i <= n,
                forall|j: int| 0 <= j < i ==> self.entries@[j].0@ != k@,
            decreases n - i,
        {
            if self.entries[i].0 == *k {
                return Some(i);
            }
            i += 1;
        }
        None
    }

    pub fn contains_key(&self, k: &String) -> (r: bool)
        ensures
            r == self@.contains_key(k@),
    {
        proof {
            lemma_entries_map_contains_key(self.entries@, k@);
        }
        self.position_of(k).is_some()
    }

    pub fn get<'a>(&'a self, k: &String) -> (r: Option<&'a String>)
        requires
            self.wf(),
        ensures
            match r {
                Some(v) => self@.contains_key(k@) && v@ == self@[k@],
                None => !self@.contains_key(k@),
            },
    {
        proof {
            lemma_entries_map_contains_key(self.entries@, k@);
        }
        match self.position_of(k) {
            Some(i) => {
                proof {
                    lemma_entries_map_index(self.entries@, i as int);
                }
                Some(&self.entries[i].1)
            },
            None => None,
        }
    }

    /// The signatures held, as identifier and signature pairs: each pair
    /// is an entry of the map, the keys collide nowhere, and every key of
    /// the map appears.
    pub fn entries<'a>(&'a self) -> (r: &'a Vec<(String, String)>)
        requires
            self.wf(),
        ensures
            r@.len() == self.spec_len(),
            forall|i: int|
                0 <= i < r@.len() ==> self@.contains_key(#[trigger] r@[i].0@) && self@[r@[i].0@]
                    == r@[i].1@,
            forall|i: int, j: int| 0 <= i < j < r@.len() ==> r@[i].0@ != r@[j].0@,
            forall|k: Seq<char>|
                self@.contains_key(k) ==> exists|i: int| 0 <= i < r@.len() && #[trigger] r@[i].0@
                    == k,
    {
        proof {
            assert forall|i: int| 0 <= i < self.entries@.len() implies self@.contains_key(
                #[trigger] self.entries@[i].0@,
            ) && self@[self.entries@[i].0@] == self.entries@[i].1@ by {
                lemma_entries_map_index(self.entries@, i);
            }
            assert forall|k: Seq<char>| self@.contains_key(k) implies exists|i: int|
                0 <= i < self.entries@.len() && #[trigger] self.entries@[i].0@ == k by {
                lemma_entries_map_contains_key(self.entries@, k);
            }
        }
        &self.entries
    }

    /// Stores `v` under `k`, replacing any signature the same identifier
    /// held before.
    pub fn insert(&mut self, k: String, v: String)
        requires
            old(self).wf(),
        ensures
            final(self).wf(),
            final(self)@ == old(self)@.insert(k@, v@),
            final(self).spec_len() == if old(self)@.contains_key(k@) {
                old(self).spec_len()
            } else {
                old(self).spec_len() + 1
            },
    {
        proof {
            lemma_entries_map_contains_key(self.entries@, k@);
        }
        match self.position_of(&k) {
            Some(i) => {
                proof {
                    lemma_entries_map_update(self.entries@, i as int, (k, v));
                }
                self.entries[i] = (k, v);
            },
            None => {
                proof {
                    lemma_entries_map_push(self.entries@, (k, v));
                }
                self.entries.push((k, v));
                assert(keys_distinct(self.entries@));
            },
        }
    }
}

/// The authentication region of a request document: either unsigned, a
/// single `signature` value, or a `signatures` map keyed by signer
/// identifier. The two signed forms are never populated together.
#[derive(Clone, Debug, PartialEq)]
pub enum SignatureRegion {
    Unsigned,
    Single { signature: String },
    Multi { signatures: SignatureMap },
}

impl SignatureRegion {
    /// The authentication region's backing map is well-formed.
    pub open spec fn wf(&self) -> bool {
        match self {
            SignatureRegion::Multi { signatures } => signatures.wf(),
            _ => true,
        }
    }
}

/// A structured transaction payload: a fixed envelope, an authentication
/// region, and an optional author-agreement acceptance record.
#[derive(Clone, Debug, PartialEq)]
pub struct RequestDocument {
    pub req_id: u64,
    pub identifier: Option<String>,
    pub operation: Operation,
    pub protocol_version: u64,
    pub signature: SignatureRegion,
    pub taa_acceptance: Option<AcceptanceData>,
}

impl RequestDocument {
    pub open spec fn wf(&self) -> bool {
        self.signature.wf()
    }

    /// Whether two documents agree on everything but the authentication
    /// region.
    pub open spec fn same_envelope(&self, other: &RequestDocument) -> bool {
        &&& self.req_id == other.req_id
        &&& self.identifier == other.identifier
        &&& self.operation == other.operation
        &&& self.protocol_version == other.protocol_version
        &&& self.taa_acceptance == other.taa_acceptance
    }
}

} // verus!
