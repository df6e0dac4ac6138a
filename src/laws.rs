use crate::state::HandleState;
use std::path::PathBuf;
use vstd::prelude::*;

verus! {

/// A new handle holds nothing: a peek right after `new` sees an empty slot,
/// whatever the path.
pub proof fn lemma_new_is_empty<A>(path: PathBuf)
    ensures
        HandleState::<A>::empty(path).peek() is None,
        HandleState::<A>::empty(path).needs_loader(),
        HandleState::<A>::empty(path).wf(),
{
}

/// Two loads in a row on one handle return the same shared value: the
/// second finds the slot full, so the loader is consulted once only, and
/// both references carry the same stamp. What a loader would have produced
/// for the second load plays no part.
pub proof fn lemma_load_twice_same_reference<A, E>(
    s: HandleState<A>,
    first: Result<A, E>,
    second: Result<A, E>,
)
    requires
        s.wf(),
        s.load_result(first) is Ok,
    ensures
        !s.after_load(first).needs_loader(),
        s.after_load(first).after_load(second) == s.after_load(first),
        s.after_load(first).load_result(second) == s.load_result(first),
{
}

/// A load after an unload builds a new shared value: the reference it
/// returns carries a stamp that differs from that of the reference held
/// before the unload, and indeed from that of every earlier fill.
pub proof fn lemma_unload_then_load_is_fresh<A, E>(s: HandleState<A>, loaded: Result<A, E>)
    requires
        s.wf(),
        loaded is Ok,
    ensures
        s.unloaded().needs_loader(),
        s.unloaded().load_result(loaded) is Ok,
        (s.unloaded().load_result(loaded)->Ok_0).1 == s.fills,
        s.peek() is Some ==> (s.unloaded().load_result(loaded)->Ok_0).1 != (s.peek()->0).1,
{
}

/// An injected value is what the next peek sees, under a new stamp; no
/// loader result enters into it.
pub proof fn lemma_set_raw_then_get<A>(s: HandleState<A>, v: A)
    requires
        s.wf(),
    ensures
        s.filled(v).peek() == Some((v, s.fills)),
        s.filled(v).wf(),
        s.peek() is Some ==> (s.filled(v).peek()->0).1 != (s.peek()->0).1,
{
}

/// A failed load on an empty handle passes the loader's error on and leaves
/// the handle exactly as it was, so a later peek still sees nothing.
pub proof fn lemma_failed_load_stays_empty<A, E>(s: HandleState<A>, e: E)
    requires
        s.needs_loader(),
    ensures
        s.load_result(Err::<A, E>(e)) == Err::<(A, nat), E>(e),
        s.after_load(Err::<A, E>(e)) == s,
        s.after_load(Err::<A, E>(e)).peek() is None,
{
}

} // verus!
