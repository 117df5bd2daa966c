use vstd::prelude::*;

pub mod catalog;
pub mod corpus;
pub mod engine;
pub mod language;
pub mod meta;
pub mod ranking;
pub mod scalar;
pub mod search;
pub mod table;
pub mod text;

verus! {

/// The build version of this worker.
pub open spec fn worker_version() -> Seq<char> {
    "0.1.0"@
}

/// The build version of this worker, published as the catalog's
/// implementation version.
pub fn version() -> (v: &'static str)
    ensures
        v@ == worker_version(),
{
    "0.1.0"
}

} // verus!
