//! The structured-value generator: it always emits the two
//! structured-capability functions (the erased-serialization projection and
//! the cloning, boxed, sendable constructor), and, unless the record is
//! annotated `#[slog(no_value_impl)]`, a third function that delegates
//! single-value emission to the sink's structured-value operation.

use vstd::prelude::*;

use crate::model::{GlueFn, GlueFnV, GlueUnit, GlueUnitV, RecordDef, RecordDefV};
use crate::utils::{contains_named_attr, spec_contains_named_attr};

verus! {

/// What the structured-value generator returns for a record definition:
/// always the two structured-capability functions, and the single-value
/// emission function exactly when the record does not carry
/// `#[slog(no_value_impl)]`. No record shape is rejected.
pub open spec fn spec_impl_serde_value(r: RecordDefV) -> GlueUnitV {
    GlueUnitV {
        record_name: r.name,
        fns: if spec_contains_named_attr(r.attrs, "no_value_impl"@) {
            seq![GlueFnV::AsSerde, GlueFnV::ToSendable]
        } else {
            seq![GlueFnV::AsSerde, GlueFnV::ToSendable, GlueFnV::ValueSerialize]
        },
    }
}

/// Produce the structured-value glue for a record definition: the
/// erased-serialization projection, the cloning boxed constructor, and —
/// unless suppressed by `#[slog(no_value_impl)]` on the record — the
/// single-value-emission function. Total over every record definition.
pub fn impl_serde_value(record: &RecordDef) -> (g: GlueUnit)
    ensures
        g.deep_view() == spec_impl_serde_value(record.deep_view()),
{
    let mut fns: Vec<GlueFn> = vec![GlueFn::AsSerde, GlueFn::ToSendable];
    if !contains_named_attr(&record.attrs, "no_value_impl") {
        fns.push(GlueFn::ValueSerialize);
        proof {
            assert(fns.deep_view() =~= seq![
                GlueFnV::AsSerde,
                GlueFnV::ToSendable,
                GlueFnV::ValueSerialize,
            ]);
        }
    } else {
        proof {
            assert(fns.deep_view() =~= seq![GlueFnV::AsSerde, GlueFnV::ToSendable]);
        }
    }
    GlueUnit { record_name: record.name.clone(), fns }
}

} // verus!
