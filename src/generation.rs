use vstd::prelude::*;
use crate::bindings::{bindings_for, csharp_bindings, BindingError};
use crate::convention::{rewrite_api_source, rewritten};
use crate::materialize::{after_materialize, content_view, has_content_changed, must_write};

verus! {

/// What one run of generation produces: the rewritten API source and the C#
/// bindings, each with whether its file must be written.
pub struct GenerationPlan {
    pub api_source: String,
    pub write_api_source: bool,
    pub bindings: String,
    pub write_bindings: bool,
}

/// Plans one run of generation from the upstream API source `upstream` and
/// the current content of the two files it produces (`None` where a file
/// does not exist): rewrite the calling convention from `from` to `to`, emit
/// the C# bindings of the result, and write each file only where its content
/// changes.
pub fn plan_generation(
    upstream: &str,
    from: &str,
    to: &str,
    current_api_source: &Option<String>,
    current_bindings: &Option<String>,
) -> (r: Result<GenerationPlan, BindingError>)
    requires
        from@.len() > 0,
    ensures
        r is Ok <==> bindings_for(rewritten(upstream@, from@, to@)) is Some,
        r is Ok ==> ({
            let plan = r->Ok_0;
            let api = rewritten(upstream@, from@, to@);
            &&& plan.api_source@ == api
            &&& plan.write_api_source == must_write(content_view(*current_api_source), api)
            &&& bindings_for(api) == Some(plan.bindings@)
            &&& plan.write_bindings == must_write(
                content_view(*current_bindings),
                plan.bindings@,
            )
        }),
{
    let api_source = rewrite_api_source(upstream, from, to);
    let write_api_source = has_content_changed(current_api_source, &api_source);
    match csharp_bindings(api_source.clone()) {
        Ok(bindings) => {
            let write_bindings = has_content_changed(current_bindings, &bindings);
            Ok(GenerationPlan { api_source, write_api_source, bindings, write_bindings })
        },
        Err(e) => Err(e),
    }
}

/// Running generation a second time on unchanged upstream source writes
/// nothing: after the first run both files already hold what the second run
/// computes.
pub proof fn lemma_generation_idempotent(
    upstream: Seq<char>,
    from: Seq<char>,
    to: Seq<char>,
    current_api_source: Option<Seq<char>>,
    current_bindings: Option<Seq<char>>,
)
    ensures
        ({
            let api = rewritten(upstream, from, to);
            let api_on_disk = after_materialize(current_api_source, api);
            &&& api_on_disk == Some(api)
            &&& !must_write(api_on_disk, rewritten(upstream, from, to))
            &&& bindings_for(api) is Some ==> {
                let bindings = bindings_for(api)->0;
                let bindings_on_disk = after_materialize(current_bindings, bindings);
                &&& bindings_on_disk == Some(bindings)
                &&& bindings_for(api_on_disk->0) == Some(bindings)
                &&& !must_write(bindings_on_disk, bindings_for(api_on_disk->0)->0)
            }
        }),
{
}

} // verus!
