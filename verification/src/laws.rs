use vstd::prelude::*;

use crate::dispatcher::{empty_view, merge_view, stage_seq, DispatcherView};
use crate::stage::Stage;

verus! {

/// Per parallel stage, a merge yields the left view's tasks immediately
/// followed by the right view's, in their original relative order; the
/// thread-local sequences concatenate the same way.
pub proof fn lemma_merge_view_stage_order(a: DispatcherView, b: DispatcherView, s: Stage)
    requires
        s != Stage::ThreadLocal,
    ensures
        stage_seq(merge_view(a, b), s) == stage_seq(a, s) + stage_seq(b, s),
        merge_view(a, b).locals == a.locals + b.locals,
{
}

/// Merging is associative on views: per stage and for the thread-locals,
/// chaining `merge` left or right yields the same final ordering.
pub proof fn lemma_merge_view_associative(a: DispatcherView, b: DispatcherView, c: DispatcherView)
    ensures
        merge_view(merge_view(a, b), c) == merge_view(a, merge_view(b, c)),
{
    assert(merge_view(merge_view(a, b), c) =~= merge_view(a, merge_view(b, c)));
}

/// Merging with an empty dispatcher, on either side, is a no-op on ordering.
pub proof fn lemma_merge_view_identity(a: DispatcherView)
    ensures
        merge_view(a, empty_view()) == a,
        merge_view(empty_view(), a) == a,
{
    assert(merge_view(a, empty_view()) =~= a);
    assert(merge_view(empty_view(), a) =~= a);
}

} // verus!
