//! What holds of an experiment over its whole life.
use vstd::arithmetic::div_mod::lemma_mod_multiples_vanish;
use vstd::prelude::*;

use crate::json::Json;
use crate::text::signed_decimal;

use super::conclude::{all_have_contexts, conclusion, has_variant, StoredExperiment};
use super::create::{
    all_numbered, is_new_experiment, with_context_ids, ContextPutResp, ExperimentDetails,
    NewExperiment,
};
use super::ramp::{ramp_refusal, stored_percentage, traffic_limit, RampedExperiment};
use super::types::{
    variant_views, ContextActionView, ExperimentStatusType, Variant, VariantView,
};

verus! {

/// A created experiment can be concluded: when a context was created for every variant, any of
/// its variants, under the id that it has within all experiments, can win.
pub proof fn law_created_can_be_concluded(
    stored: NewExperiment,
    details: ExperimentDetails,
    id: i64,
    variants: Seq<VariantView>,
    created: Seq<ContextPutResp>,
    i: int,
)
    requires
        details.context@ is Object,
        created.len() == variants.len(),
        is_new_experiment(
            stored,
            details,
            id,
            with_context_ids(all_numbered(variants, id as int), created),
        ),
        0 <= i < variants.len(),
    ensures
        conclusion(
            (StoredExperiment {
                status: stored.status,
                context: stored.context,
                variants: Some(stored.variants),
            }),
            signed_decimal(id as int) + "-"@ + variants[i].id,
        ) is Ok,
{
    let all = variant_views(stored.variants@);
    assert(all_have_contexts(all));
    assert(all[i].id == signed_decimal(id as int) + "-"@ + variants[i].id);
    assert(has_variant(all, signed_decimal(id as int) + "-"@ + variants[i].id));
}

/// A created experiment can be ramped: it gets no traffic yet, so that with up to 100 variants
/// every positive share up to the limit is accepted, and stored as it is.
pub proof fn law_created_can_be_ramped(
    stored: NewExperiment,
    details: ExperimentDetails,
    id: i64,
    variants: Seq<VariantView>,
    requested: u64,
)
    requires
        is_new_experiment(stored, details, id, variants),
        1 <= variants.len() <= 100,
        1 <= requested <= traffic_limit(variants.len() as int),
    ensures
        ramp_refusal(
            (RampedExperiment {
                status: stored.status,
                traffic_percentage: stored.traffic_percentage,
                variants: Some(stored.variants),
            }),
            requested,
        ) is None,
        stored_percentage(requested) == requested,
{
    assert(variant_views(stored.variants@).len() == stored.variants@.len());
    let count = variants.len() as int;
    assert(100int / count <= 100) by (nonlinear_arith)
        requires
            count >= 1,
    ;
}

/// Ramping twice to the same share is refused the second time.
pub proof fn law_same_share_is_refused(
    before: RampedExperiment,
    requested: u64,
    after: RampedExperiment,
)
    requires
        ramp_refusal(before, requested) is None,
        after.status == ExperimentStatusType::INPROGRESS,
        after.traffic_percentage == stored_percentage(requested),
        after.variants == before.variants,
    ensures
        ramp_refusal(after, requested) == Some(
            (400u16, "The traffic_percentage is same as provided"@),
        ),
{
    // The stored share differs from the requested one by a multiple of 256.
    let high = requested as int / 0x1_0000_0000;
    let wraps = if stored_percentage(requested) < 0 {
        high + 1
    } else {
        high
    };
    assert(stored_percentage(requested) == 256 * (-0x100_0000 * wraps) + requested);
    lemma_mod_multiples_vanish(-0x100_0000 * wraps, requested as int, 256);
}

/// A concluded experiment stays as it is: it is neither concluded again nor ramped.
pub proof fn law_concluded_is_final(
    context: Json,
    traffic_percentage: i32,
    variants: Vec<Variant>,
    winner: Seq<char>,
    requested: u64,
)
    ensures
        conclusion(
            (StoredExperiment {
                status: ExperimentStatusType::CONCLUDED,
                context,
                variants: Some(variants),
            }),
            winner,
        ) == Err::<Seq<ContextActionView>, (u16, Seq<char>)>(
            (400u16, "experiment is already concluded"@),
        ),
        ramp_refusal(
            (RampedExperiment {
                status: ExperimentStatusType::CONCLUDED,
                traffic_percentage,
                variants: Some(variants),
            }),
            requested,
        ) == Some((400u16, "Experiment is already concluded"@)),
{
}

} // verus!
