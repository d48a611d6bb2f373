//! The key/value generator: from a record definition it produces the glue
//! unit whose one function serializes each retained member, in declaration
//! order, under a key equal to the member's name. The module also models
//! the runtime behaviour of that generated function, so that its fail-fast
//! emission semantics can be stated and proved.

use vstd::prelude::*;

use crate::model::{DeriveError, GlueFn, GlueFnV, GlueUnit, GlueUnitV, MemberV, RecordDef, RecordDefV};
use crate::utils::{
    all_named, lemma_collect_preserves_order, member_skipped, spec_collect_fields, CollectFields,
};

verus! {

/// What the key/value generator returns for a record definition: the glue
/// unit holding one key/value-collection function over the retained member
/// names, or `UnsupportedShape` for a positional (tuple-style) record.
pub open spec fn spec_impl_kv(r: RecordDefV) -> Result<GlueUnitV, DeriveError> {
    if all_named(r.members) {
        Ok(
            GlueUnitV {
                record_name: r.name,
                fns: seq![GlueFnV::KvSerialize(spec_collect_fields(r.members))],
            },
        )
    } else {
        Err(DeriveError::UnsupportedShape)
    }
}

/// The view of a generation result, for stating contracts.
pub open spec fn glue_result_view(r: Result<GlueUnit, DeriveError>) -> Result<
    GlueUnitV,
    DeriveError,
> {
    match r {
        Ok(g) => Ok(g.deep_view()),
        Err(e) => Err(e),
    }
}

/// Produce the key/value-collection glue for a record definition: one
/// function that emits, for each member not marked `#[slog(skip)]` and in
/// declaration order, the member's value under a key equal to its name.
/// A record with unnamed members is rejected with `UnsupportedShape` and
/// yields no output.
pub fn impl_kv(record: &RecordDef) -> (r: Result<GlueUnit, DeriveError>)
    ensures
        glue_result_view(r) == spec_impl_kv(record.deep_view()),
        r is Ok <==> all_named(record.deep_view().members),
{
    let mut cf = CollectFields::default();
    match cf.visit_record(record) {
        Ok(()) => {
            let g = GlueUnit {
                record_name: record.name.clone(),
                fns: vec![GlueFn::KvSerialize(cf.fields)],
            };
            proof {
                let ms = record.deep_view().members;
                assert(Seq::<Seq<char>>::empty() + spec_collect_fields(ms) =~= spec_collect_fields(
                    ms,
                ));
                assert(g.fns.deep_view() =~= seq![GlueFnV::KvSerialize(spec_collect_fields(ms))]);
            }
            Ok(g)
        },
        Err(e) => Err(e),
    }
}

/// Order preservation at the generator level: for a fully named record the
/// key/value glue emits exactly the names of the members not marked
/// `skip`, in declaration order — the member list filtered of skipped
/// members and mapped to its names.
pub proof fn lemma_kv_keys_in_declaration_order(r: RecordDefV)
    requires
        all_named(r.members),
    ensures
        spec_impl_kv(r) == Ok::<GlueUnitV, DeriveError>(
            GlueUnitV {
                record_name: r.name,
                fns: seq![
                    GlueFnV::KvSerialize(
                        r.members.filter(|m: MemberV| !member_skipped(m)).map_values(
                            |m: MemberV| m.name.unwrap(),
                        ),
                    ),
                ],
            },
        ),
{
    lemma_collect_preserves_order(r.members);
}

/// The position of the first failure the sink reports, or the length of
/// `outcomes` when every serialize call succeeds.
pub open spec fn spec_fail_index(outcomes: Seq<Result<(), u64>>) -> int
    decreases outcomes.len(),
{
    if outcomes.len() == 0 {
        0
    } else if outcomes[0] is Err {
        0
    } else {
        1 + spec_fail_index(outcomes.drop_first())
    }
}

/// Basic bounds and meaning of [`spec_fail_index`]: everything before it
/// succeeded, and, when it lies inside the sequence, it failed.
pub proof fn lemma_fail_index(outcomes: Seq<Result<(), u64>>)
    ensures
        0 <= spec_fail_index(outcomes) <= outcomes.len(),
        forall|j: int| 0 <= j < spec_fail_index(outcomes) ==> outcomes[j] is Ok,
        spec_fail_index(outcomes) < outcomes.len() ==> outcomes[spec_fail_index(outcomes)] is Err,
    decreases outcomes.len(),
{
    if outcomes.len() > 0 && outcomes[0] is Ok {
        lemma_fail_index(outcomes.drop_first());
        assert forall|j: int| 0 <= j < spec_fail_index(outcomes) implies outcomes[j] is Ok by {
            if j > 0 {
                assert(outcomes.drop_first()[j - 1] is Ok);
            }
        }
    }
}

/// Fail-fast emission: if the sink rejects the member at position `i` and
/// accepted every member before it, then `i` is where the generated
/// function stops — by [`kv_serialize`]'s contract it returns that very
/// failure and never attempts the members after `i`.
pub proof fn lemma_fail_fast(outcomes: Seq<Result<(), u64>>, i: int)
    requires
        0 <= i < outcomes.len(),
        outcomes[i] is Err,
        forall|j: int| 0 <= j < i ==> outcomes[j] is Ok,
    ensures
        spec_fail_index(outcomes) == i,
    decreases i,
{
    if i > 0 {
        lemma_fail_fast(outcomes.drop_first(), i - 1);
    }
}

/// What one run of the generated key/value-collection function did: the
/// keys whose values the sink accepted, in order, and the overall result.
#[derive(Debug, PartialEq, Eq)]
pub struct KvEmission {
    pub emitted: Vec<String>,
    pub outcome: Result<(), u64>,
}

/// The runtime behaviour of the generated key/value-collection function,
/// with the sink's reply to each serialize call given as input: walk the
/// keys in order and serialize each member's value; the first failure the
/// sink reports is returned at once, unmodified, and no later member is
/// attempted. When every call succeeds, every key is emitted and success
/// is reported.
pub fn kv_serialize(keys: &Vec<String>, outcomes: &Vec<Result<(), u64>>) -> (r: KvEmission)
    requires
        keys@.len() == outcomes@.len(),
    ensures
        r.emitted.deep_view() == keys.deep_view().take(spec_fail_index(outcomes@)),
        spec_fail_index(outcomes@) == outcomes@.len() ==> r.outcome is Ok,
        spec_fail_index(outcomes@) < outcomes@.len() ==> r.outcome == outcomes@[spec_fail_index(
            outcomes@,
        )],
{
    let mut emitted: Vec<String> = Vec::new();
    let mut i: usize = 0;
    while i < keys.len()
        invariant
            i <= keys@.len(),
            keys@.len() == outcomes@.len(),
            forall|j: int| 0 <= j < i ==> outcomes@[j] is Ok,
            emitted.deep_view() == keys.deep_view().take(i as int),
        decreases keys@.len() - i,
    {
        let ghost before = emitted.deep_view();
        match outcomes[i] {
            Ok(()) => {
                emitted.push(keys[i].clone());
                proof {
                    assert(emitted.deep_view() =~= before.push(keys.deep_view()[i as int]));
                    assert(emitted.deep_view() =~= keys.deep_view().take(i as int + 1));
                }
            },
            Err(code) => {
                proof {
                    lemma_fail_fast(outcomes@, i as int);
                }
                return KvEmission { emitted, outcome: Err(code) };
            },
        }
        i += 1;
    }
    proof {
        lemma_fail_index(outcomes@);
        assert(spec_fail_index(outcomes@) == outcomes@.len());
        assert(keys.deep_view().take(keys@.len() as int) =~= keys.deep_view());
    }
    KvEmission { emitted, outcome: Ok(()) }
}

} // verus!
