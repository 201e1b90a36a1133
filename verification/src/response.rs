//! The three result shapes the gateway returns, and their invariants.

use vstd::prelude::*;

verus! {

/// Outcome of a scalar read: on success `result` carries the value
/// (`None` when the key is absent), on failure `error` carries a message.
#[derive(Debug)]
pub struct RedisResponse {
    pub success: bool,
    pub result: Option<String>,
    pub error: Option<String>,
}

/// Outcome of a hash-field read; same shape as [`RedisResponse`] with the
/// payload field named `value`.
#[derive(Debug)]
pub struct HashFieldResponse {
    pub success: bool,
    pub value: Option<String>,
    pub error: Option<String>,
}

/// Outcome of a full hash read. A present, empty field list is a
/// successful empty result, distinct from `fields == None`.
///
/// Fields are kept as a list of key-value pairs; a well-formed value has
/// pairwise-distinct keys (the store's hashes cannot repeat a field).
#[derive(Debug)]
pub struct HashAllResponse {
    pub success: bool,
    pub fields: Option<Vec<(String, String)>>,
    pub error: Option<String>,
}

impl RedisResponse {
    /// A successful response carries no error; a failed one carries no value.
    pub open spec fn wf(self) -> bool {
        if self.success {
            self.error is None
        } else {
            self.result is None
        }
    }
}

impl HashFieldResponse {
    /// A successful response carries no error; a failed one carries no value.
    pub open spec fn wf(self) -> bool {
        if self.success {
            self.error is None
        } else {
            self.value is None
        }
    }
}

/// The keys of a field list are pairwise distinct.
pub open spec fn distinct_keys(fields: Seq<(String, String)>) -> bool {
    forall|i: int, j: int| 0 <= i < j < fields.len() ==> fields[i].0@ != fields[j].0@
}

impl HashAllResponse {
    /// A successful response carries no error and lists each field once; a
    /// failed one carries no fields.
    pub open spec fn wf(self) -> bool {
        if self.success {
            self.error is None && (self.fields matches Some(f) ==> distinct_keys(f@))
        } else {
            self.fields is None
        }
    }
}

} // verus!
