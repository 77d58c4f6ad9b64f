//! The error payload surfaced to guest code.
//!
//! Every error that crosses the protocol boundary carries a stable
//! machine-readable kind and a free-text message. Malformed-control,
//! bad-resource and handler-domain errors are always re-encoded through the
//! active protocol's error representation; only an unknown op id is fatal.

use vstd::prelude::*;

verus! {

/// A guest-visible operation error: a machine-readable kind tag plus a
/// human-readable message.
#[derive(Clone, Debug)]
pub struct OpError {
    pub kind: String,
    pub message: String,
}

/// The kind tag reported when a resource id is absent or of the wrong kind.
pub open spec fn bad_resource_kind() -> Seq<char> {
    "BadResource"@
}

impl OpError {
    pub open spec fn is_bad_resource(self) -> bool {
        self.kind@ == bad_resource_kind()
    }

    /// The bad-resource condition: the id names nothing live of the expected
    /// kind.
    pub fn bad_resource() -> (e: OpError)
        ensures
            e.is_bad_resource(),
            e.kind@ == bad_resource_kind(),
            e.message@ == "Bad resource"@,
    {
        OpError { kind: "BadResource".to_owned(), message: "Bad resource".to_owned() }
    }
}

} // verus!
