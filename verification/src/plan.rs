//! What a run is to do with the models that were asked for.

use vstd::prelude::*;

verus! {

/// What a run does.
#[derive(Debug, Clone, PartialEq, Eq)]
pub enum RunPlan {
    /// No model was asked for: there is nothing to do.
    NoModels,
    /// One version of one model is fetched: the version with the given
    /// identifier, of the first model that was asked for.
    Override { model_id: String, version_id: String },
    /// Every model that was asked for is fetched.
    Batch { model_ids: Vec<String> },
}

/// Plans a run. Without a model there is nothing to do. With the identifier
/// of a version, only the first model counts, and that version of it is
/// fetched. Without one, all the models are fetched, in the order given.
pub fn plan_run(ids: Vec<String>, override_id: Option<String>) -> (plan: RunPlan)
    ensures
        ids@.len() == 0 <==> plan is NoModels,
        ids@.len() > 0 && override_id is Some <==> plan is Override,
        ids@.len() > 0 && override_id is None <==> plan is Batch,
        plan matches RunPlan::Override { model_id, version_id } ==> model_id == ids@[0]
            && version_id == override_id->0,
        plan matches RunPlan::Batch { model_ids } ==> model_ids == ids,
{
    if ids.len() == 0 {
        return RunPlan::NoModels;
    }
    match override_id {
        Some(version_id) => {
            let mut ids = ids;
            let model_id = ids.swap_remove(0);
            RunPlan::Override { model_id, version_id }
        },
        None => RunPlan::Batch { model_ids: ids },
    }
}

} // verus!
