//! Generation logic for structured-logging glue code.
//!
//! Given a parsed record definition (a named aggregate with annotated
//! members), this library decides what glue code a derive front end must
//! emit so that instances of the record can be logged as key/value pairs:
//! one key per retained member, or a delegation to a generic structured
//! serialization path. The front end parses source text into [`model`]
//! values and renders the returned [`model::GlueUnit`] back into source
//! code; everything in between — marker inspection, member collection,
//! and the choice of generated functions — is decided here.

use vstd::prelude::*;

pub mod derive_kv;
pub mod derive_serde_value;
pub mod model;
pub mod utils;

verus! {

/// Generation is deterministic: structurally identical record definitions
/// yield structurally identical glue units, for both generators. Together
/// with the generators' own contracts — which pin each result to these
/// spec-level functions of the input alone — this makes every generation
/// call a pure function of the record definition it is given.
pub proof fn lemma_generation_deterministic(a: model::RecordDefV, b: model::RecordDefV)
    requires
        a == b,
    ensures
        derive_kv::spec_impl_kv(a) == derive_kv::spec_impl_kv(b),
        derive_serde_value::spec_impl_serde_value(a) == derive_serde_value::spec_impl_serde_value(
            b,
        ),
{
}

} // verus!
