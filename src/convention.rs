use vstd::prelude::*;
use crate::text::{replace_all, replaced};

verus! {

/// The warning that opens the rewritten API source.
pub open spec fn banner() -> Seq<char> {
    "// This file has been auto-generated, please do not edit it.\n\n"@
}

/// The warning that opens the rewritten API source.
pub fn banner_text() -> (r: &'static str)
    ensures
        r@ == banner(),
{
    "// This file has been auto-generated, please do not edit it.\n\n"
}

/// What the rewritten API source holds for the upstream source `upstream`:
/// the banner, then `upstream` with each calling-convention marker `from`
/// replaced by `to`.
pub open spec fn rewritten(upstream: Seq<char>, from: Seq<char>, to: Seq<char>) -> Seq<char> {
    banner() + replaced(upstream, from, to)
}

/// Rewrites the upstream C API source for the target platform: every
/// `from` marker becomes `to`, and the banner is put in front.
pub fn rewrite_api_source(upstream: &str, from: &str, to: &str) -> (r: String)
    requires
        from@.len() > 0,
    ensures
        r@ == rewritten(upstream@, from@, to@),
{
    let body = replace_all(upstream, from, to);
    let mut r = String::from_str(banner_text());
    r.append(body.as_str());
    r
}

/// The rewritten source opens with the banner, once: what follows it is the
/// upstream source with its markers replaced, and nothing more.
pub proof fn lemma_banner_leads(upstream: Seq<char>, from: Seq<char>, to: Seq<char>)
    ensures
        rewritten(upstream, from, to).len() >= banner().len(),
        rewritten(upstream, from, to).subrange(0, banner().len() as int) == banner(),
        rewritten(upstream, from, to).subrange(
            banner().len() as int,
            rewritten(upstream, from, to).len() as int,
        ) == replaced(upstream, from, to),
{
    let r = rewritten(upstream, from, to);
    assert(r.subrange(0, banner().len() as int) =~= banner());
    assert(r.subrange(banner().len() as int, r.len() as int) =~= replaced(upstream, from, to));
}

} // verus!
