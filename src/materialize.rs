use vstd::prelude::*;

verus! {

/// Whether a file whose current content is `current` (`None` when the file
/// does not exist) must be written so that it holds `content`.
pub open spec fn must_write(current: Option<Seq<char>>, content: Seq<char>) -> bool {
    match current {
        None => true,
        Some(c) => c != content,
    }
}

/// The content of the file after it has been brought to `content`, written
/// only where `must_write` says so.
pub open spec fn after_materialize(current: Option<Seq<char>>, content: Seq<char>) -> Option<
    Seq<char>,
> {
    if must_write(current, content) {
        Some(content)
    } else {
        current
    }
}

/// The view of a file's current content.
pub open spec fn content_view(current: Option<String>) -> Option<Seq<char>> {
    match current {
        None => None,
        Some(c) => Some(c@),
    }
}

/// Whether the file must be written: it does not exist yet, or it holds
/// something other than `new_content`.
pub fn has_content_changed(current: &Option<String>, new_content: &String) -> (r: bool)
    ensures
        r == must_write(content_view(*current), new_content@),
        (*current is None) ==> r,
        (*current is Some && current->0@ == new_content@) ==> !r,
{
    match current {
        None => true,
        Some(c) => !(*c == *new_content),
    }
}

/// Once a file has been brought to some content, bringing it to the same
/// content again writes nothing.
pub proof fn lemma_materialize_idempotent(current: Option<Seq<char>>, content: Seq<char>)
    ensures
        after_materialize(current, content) == Some(content),
        !must_write(after_materialize(current, content), content),
        after_materialize(after_materialize(current, content), content) == after_materialize(
            current,
            content,
        ),
{
}

} // verus!
