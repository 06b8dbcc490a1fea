//! The snapshot query service: serves one-shot requests for the current
//! snapshot.
//!
//! A query never fails: before the first sample the store holds the empty
//! snapshot, and the query returns the empty JSON array, not an error. The
//! HTTP layer only wraps the returned body in a success response.

use vstd::prelude::*;

use crate::snapshot::CpuSnapshot;
use crate::store::SharedState;
use crate::wire::{json_of, lemma_json_of_empty, render_json};

verus! {

/// Returns a copy of the current snapshot, exactly as held by the store.
/// No side effects; always succeeds.
pub fn handle_query(store: &SharedState) -> (r: CpuSnapshot)
    ensures
        r@ == store@,
{
    store.get()
}

/// Returns the response body for a pull request: the current snapshot,
/// rendered as its JSON array text.
pub fn handle_query_body(store: &SharedState) -> (r: String)
    ensures
        r@ == json_of(store@),
{
    let snapshot = store.get();
    render_json(&snapshot)
}

/// Before any sample has been produced the store holds the empty snapshot,
/// and a query's body is exactly the empty JSON array — a valid success
/// response, not an error. The premises are what `SharedState::new` and
/// `handle_query_body` ensure.
pub proof fn law_query_before_first_sample(store: SharedState, body: Seq<char>)
    requires
        store@ == Seq::<u32>::empty(),
        body == json_of(store@),
    ensures
        body =~= seq!['[', ']'],
{
    lemma_json_of_empty();
}

} // verus!
