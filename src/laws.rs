//! Properties that relate the generated members to the record they come from.
use vstd::prelude::*;
use crate::instance::{stored, Value};
use crate::record::RecordDescriptor;
use crate::template::{is_optional, lemma_field_indices, GeneratedArtifact};

verus! {

/// The constructor takes exactly the required fields, each once, in declared order.
pub proof fn lemma_constructor_takes_required_in_order(rec: RecordDescriptor, a: GeneratedArtifact)
    requires
        a.generated_from(rec),
        a.wf(),
    ensures
        ({
            let fields = a.fields@;
            let params = a.declaration.constructor_params@;
            &&& forall|k: int|
                0 <= k < params.len() ==> #[trigger] params[k] < fields.len() && !is_optional(
                    fields[params[k] as int],
                )
            &&& forall|k1: int, k2: int| 0 <= k1 < k2 < params.len() ==> params[k1] < params[k2]
            &&& forall|j: int|
                0 <= j < fields.len() && !is_optional(#[trigger] fields[j]) ==> exists|k: int|
                    0 <= k < params.len() && params[k] == j
        }),
{
    assert(a.fields@.len() == a.fields.len());
    lemma_field_indices(a.fields@, false);
}

/// Calling the same transition twice leaves the field as the second call sets it:
/// the first value is overwritten, not merged.
pub proof fn lemma_last_write_wins(a: GeneratedArtifact, slots: Seq<Value>, t: int, v1: Value, v2: Value)
    requires
        a.wf(),
        0 <= t < a.declaration.transitions@.len(),
        slots.len() == a.fields@.len(),
    ensures
        a.after_transition(a.after_transition(slots, t, v1), t, v2) == a.after_transition(slots, t, v2),
        a.after_transition(slots, t, v2)[a.declaration.transitions@[t].field as int] == stored(
            a.declaration.transitions@[t],
            v2,
        ),
{
    assert(a.after_transition(a.after_transition(slots, t, v1), t, v2) =~= a.after_transition(slots, t, v2));
}

/// The record's generic parameters and constraint clause stand unchanged on both the
/// capability's declaration and its realization.
pub proof fn lemma_generics_propagated(rec: RecordDescriptor, a: GeneratedArtifact)
    requires
        a.generated_from(rec),
    ensures
        *a.declaration.generics == rec.generics,
        *a.realization.generics == rec.generics,
        a.declaration.generics.params@ == rec.generics.params@,
{
}

} // verus!
