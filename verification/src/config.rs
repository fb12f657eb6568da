use vstd::prelude::*;

verus! {

/// Host-level configuration knobs accepted at initialization time.
///
/// Every field is optional; an absent field leaves the host default in place.
#[derive(Clone, Debug)]
pub struct IndyConfig {
    pub crypto_thread_pool_size: Option<usize>,
    pub collect_backtrace: Option<bool>,
    pub freshness_threshold: Option<u64>,
}

} // verus!
