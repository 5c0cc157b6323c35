use vstd::prelude::*;
use crate::graph::{
    Edge, EdgeId, GraphError, Vertex, VertexId, is_edge_lookup, is_vertex_data_lookup,
    is_vertex_lookup, neighbors_of, vertex_ids,
};

verus! {

/// Once a vertex id is in a graph it stays there: the vertices after any run of
/// insertions start with the vertices before, so every id present before is
/// still present, and `add_vertex` with it fails.
pub proof fn lemma_vertex_id_stays_taken<TData, TVertex: Vertex<TData>>(
    before: Seq<TVertex>,
    after: Seq<TVertex>,
    id: VertexId,
)
    requires
        before.is_prefix_of(after),
        vertex_ids(before).contains(id),
    ensures
        vertex_ids(after).contains(id),
{
    let k = choose|k: int| 0 <= k < before.len() && vertex_ids(before)[k] == id;
    assert(after[k] == before[k]);
    assert(vertex_ids(after)[k] == id);
}

/// Insertion order is kept across any run of insertions: if each step only
/// appends, the contents before the first step are a prefix of those after the
/// last, element for element.
pub proof fn lemma_insertion_order_kept<T>(first: Seq<T>, middle: Seq<T>, last: Seq<T>)
    requires
        first.is_prefix_of(middle),
        middle.is_prefix_of(last),
    ensures
        first.is_prefix_of(last),
        forall|i: int| 0 <= i < first.len() ==> last[i] == first[i],
{
    assert forall|i: int| 0 <= i < first.len() implies last[i] == first[i] by {
        assert(middle[i] == first[i]);
    }
}

/// One appended element extends a sequence: what `add_vertex` and `add_edge`
/// promise on success makes the old contents a prefix of the new.
pub proof fn lemma_append_is_prefix<T>(before: Seq<T>, after: Seq<T>)
    requires
        after.len() == before.len() + 1,
        after.drop_last() == before,
    ensures
        before.is_prefix_of(after),
{
    assert forall|i: int| 0 <= i < before.len() implies before[i] == after[i] by {
        assert(after.drop_last()[i] == after[i]);
    }
}

/// Adding an edge changes the neighbours of its source alone, by appending its
/// target; repeats and self-loops are kept.
pub proof fn lemma_neighbors_after_add_edge<TEdge: Edge>(
    before: Seq<TEdge>,
    after: Seq<TEdge>,
    v: VertexId,
)
    requires
        after.len() == before.len() + 1,
        after.drop_last() == before,
    ensures
        after.last().edge_source() == v ==> neighbors_of(after, v) == neighbors_of(before, v).push(
            after.last().edge_target(),
        ),
        after.last().edge_source() != v ==> neighbors_of(after, v) == neighbors_of(before, v),
{
}

/// Looking up a vertex twice in unchanged contents gives the same answer.
pub proof fn lemma_vertex_lookup_repeatable<TData, TVertex: Vertex<TData>>(
    vs: Seq<TVertex>,
    id: VertexId,
    r1: Result<&TVertex, GraphError>,
    r2: Result<&TVertex, GraphError>,
)
    requires
        is_vertex_lookup(vs, id, r1),
        is_vertex_lookup(vs, id, r2),
    ensures
        r1 == r2,
{
}

/// Looking up a vertex's payload twice in unchanged contents gives the same answer.
pub proof fn lemma_vertex_data_lookup_repeatable<TData, TVertex: Vertex<TData>>(
    vs: Seq<TVertex>,
    id: VertexId,
    r1: Result<&TData, GraphError>,
    r2: Result<&TData, GraphError>,
)
    requires
        is_vertex_data_lookup(vs, id, r1),
        is_vertex_data_lookup(vs, id, r2),
    ensures
        r1 == r2,
{
}

/// Looking up an edge twice in unchanged contents gives the same answer.
pub proof fn lemma_edge_lookup_repeatable<TEdge: Edge>(
    es: Seq<TEdge>,
    id: EdgeId,
    r1: Result<&TEdge, GraphError>,
    r2: Result<&TEdge, GraphError>,
)
    requires
        is_edge_lookup(es, id, r1),
        is_edge_lookup(es, id, r2),
    ensures
        r1 == r2,
{
}

} // verus!
