use vstd::prelude::*;

verus! {

/// Identifier of a vertex; unique among the vertices of one store.
pub type VertexId = i32;

/// Identifier of an edge; unique among the edges of one store.
pub type EdgeId = i32;

/// What a vertex offers: an identifier and a payload, both fixed at creation.
pub trait Vertex<TData>: Sized {
    spec fn vertex_id(&self) -> VertexId;

    spec fn vertex_data(&self) -> TData;

    fn new(id: VertexId, data: TData) -> (r: Self)
        ensures
            r.vertex_id() == id,
            r.vertex_data() == data,
    ;

    fn get_id(&self) -> (r: VertexId)
        ensures
            r == self.vertex_id(),
    ;

    fn get_data(&self) -> (r: &TData)
        ensures
            *r == self.vertex_data(),
    ;
}

/// A vertex that holds its identifier and a payload of the caller's type.
pub struct BaseVertex<TData> {
    id: VertexId,
    data: TData,
}

impl<TData> Vertex<TData> for BaseVertex<TData> {
    closed spec fn vertex_id(&self) -> VertexId {
        self.id
    }

    closed spec fn vertex_data(&self) -> TData {
        self.data
    }

    fn new(id: VertexId, data: TData) -> (r: Self) {
        BaseVertex { id: id, data: data }
    }

    fn get_id(&self) -> (r: VertexId) {
        self.id
    }

    fn get_data(&self) -> (r: &TData) {
        &self.data
    }
}

/// What an edge offers: an identifier, a source and a target, all fixed at creation.
pub trait Edge: Sized {
    spec fn edge_id(&self) -> EdgeId;

    spec fn edge_source(&self) -> VertexId;

    spec fn edge_target(&self) -> VertexId;

    fn new(id: EdgeId, source: VertexId, target: VertexId) -> (r: Self)
        ensures
            r.edge_id() == id,
            r.edge_source() == source,
            r.edge_target() == target,
    ;

    fn get_id(&self) -> (r: EdgeId)
        ensures
            r == self.edge_id(),
    ;

    fn get_source(&self) -> (r: VertexId)
        ensures
            r == self.edge_source(),
    ;

    fn get_target(&self) -> (r: VertexId)
        ensures
            r == self.edge_target(),
    ;
}

/// A directed edge without a weight.
pub struct UnweightedEdge {
    id: EdgeId,
    source: VertexId,
    target: VertexId,
}

impl Edge for UnweightedEdge {
    closed spec fn edge_id(&self) -> EdgeId {
        self.id
    }

    closed spec fn edge_source(&self) -> VertexId {
        self.source
    }

    closed spec fn edge_target(&self) -> VertexId {
        self.target
    }

    fn new(id: EdgeId, source: VertexId, target: VertexId) -> (r: Self) {
        UnweightedEdge { id: id, source: source, target: target }
    }

    fn get_id(&self) -> (r: EdgeId) {
        self.id
    }

    fn get_source(&self) -> (r: VertexId) {
        self.source
    }

    fn get_target(&self) -> (r: VertexId) {
        self.target
    }
}

/// Why an operation on a graph failed.
#[derive(PartialEq, Eq, Structural, Debug, Clone, Copy)]
pub enum GraphError {
    VertexNotFound,
    EdgeNotFound,
    EdgeIdAlreadyExist(EdgeId),
    VertexIdAlreadyExist(VertexId),
}

/// The identifiers of a vertex sequence, in the same order.
pub open spec fn vertex_ids<TData, TVertex: Vertex<TData>>(vs: Seq<TVertex>) -> Seq<VertexId> {
    vs.map_values(|v: TVertex| v.vertex_id())
}

/// The identifiers of an edge sequence, in the same order.
pub open spec fn edge_ids<TEdge: Edge>(es: Seq<TEdge>) -> Seq<EdgeId> {
    es.map_values(|e: TEdge| e.edge_id())
}

/// The targets of the edges leaving `v`, in edge order, repeats and self-loops kept.
pub open spec fn neighbors_of<TEdge: Edge>(es: Seq<TEdge>, v: VertexId) -> Seq<VertexId>
    decreases es.len(),
{
    if es.len() == 0 {
        Seq::empty()
    } else {
        let rest = neighbors_of(es.drop_last(), v);
        if es.last().edge_source() == v {
            rest.push(es.last().edge_target())
        } else {
            rest
        }
    }
}

/// `r` is the answer to looking up vertex `id` in `vs`: the first vertex with
/// that id, or `VertexNotFound`.
pub open spec fn is_vertex_lookup<TData, TVertex: Vertex<TData>>(
    vs: Seq<TVertex>,
    id: VertexId,
    r: Result<&TVertex, GraphError>,
) -> bool {
    match vertex_ids(vs).index_of_first(id) {
        Some(i) => r == Ok::<&TVertex, GraphError>(&vs[i]),
        None => r == Err::<&TVertex, GraphError>(GraphError::VertexNotFound),
    }
}

/// `r` is the answer to looking up the payload of vertex `id` in `vs`: that of
/// the first vertex with that id, or `VertexNotFound`.
pub open spec fn is_vertex_data_lookup<TData, TVertex: Vertex<TData>>(
    vs: Seq<TVertex>,
    id: VertexId,
    r: Result<&TData, GraphError>,
) -> bool {
    match vertex_ids(vs).index_of_first(id) {
        Some(i) => r == Ok::<&TData, GraphError>(&vs[i].vertex_data()),
        None => r == Err::<&TData, GraphError>(GraphError::VertexNotFound),
    }
}

/// `r` is the answer to looking up edge `id` in `es`: the first edge with that
/// id, or `EdgeNotFound`.
pub open spec fn is_edge_lookup<TEdge: Edge>(
    es: Seq<TEdge>,
    id: EdgeId,
    r: Result<&TEdge, GraphError>,
) -> bool {
    match edge_ids(es).index_of_first(id) {
        Some(i) => r == Ok::<&TEdge, GraphError>(&es[i]),
        None => r == Err::<&TEdge, GraphError>(GraphError::EdgeNotFound),
    }
}

/// The invariant of a graph: vertex ids are unique, edge ids are unique, and
/// every edge runs between vertices of the graph.
pub open spec fn graph_well_formed<TData, TVertex: Vertex<TData>, TEdge: Edge>(
    vs: Seq<TVertex>,
    es: Seq<TEdge>,
) -> bool {
    &&& vertex_ids(vs).no_duplicates()
    &&& edge_ids(es).no_duplicates()
    &&& forall|i: int|
        0 <= i < es.len() ==> vertex_ids(vs).contains(#[trigger] es[i].edge_source())
            && vertex_ids(vs).contains(es[i].edge_target())
}

/// The operations of a graph store. `vertices` and `edges` are its contents in
/// insertion order; `get_neighbors`, `get_vertex` and `get_edge` are derived from
/// the other operations.
pub trait Graph<TVertex: Vertex<TData>, TEdge: Edge, TData>: Sized {
    spec fn vertices(&self) -> Seq<TVertex>;

    spec fn edges(&self) -> Seq<TEdge>;

    fn new() -> (g: Self)
        ensures
            g.vertices() == Seq::<TVertex>::empty(),
            g.edges() == Seq::<TEdge>::empty(),
            graph_well_formed(g.vertices(), g.edges()),
    ;

    /// Adds a vertex unless its id is taken; on failure nothing changes.
    fn add_vertex(&mut self, id: VertexId, data: TData) -> (r: Result<(), GraphError>)
        ensures
            final(self).edges() == old(self).edges(),
            graph_well_formed(old(self).vertices(), old(self).edges()) ==> graph_well_formed(
                final(self).vertices(),
                final(self).edges(),
            ),
            vertex_ids(old(self).vertices()).contains(id) ==> {
                &&& r == Err::<(), GraphError>(GraphError::VertexIdAlreadyExist(id))
                &&& final(self).vertices() == old(self).vertices()
            },
            !vertex_ids(old(self).vertices()).contains(id) ==> {
                &&& r == Ok::<(), GraphError>(())
                &&& final(self).vertices().len() == old(self).vertices().len() + 1
                &&& final(self).vertices().drop_last() == old(self).vertices()
                &&& final(self).vertices().last().vertex_id() == id
                &&& final(self).vertices().last().vertex_data() == data
            },
    ;

    /// Adds an edge unless its id is taken (checked first) or an endpoint is
    /// missing; on failure nothing changes.
    fn add_edge(&mut self, id: EdgeId, source: VertexId, target: VertexId) -> (r: Result<
        (),
        GraphError,
    >)
        ensures
            final(self).vertices() == old(self).vertices(),
            graph_well_formed(old(self).vertices(), old(self).edges()) ==> graph_well_formed(
                final(self).vertices(),
                final(self).edges(),
            ),
            edge_ids(old(self).edges()).contains(id) ==> {
                &&& r == Err::<(), GraphError>(GraphError::EdgeIdAlreadyExist(id))
                &&& final(self).edges() == old(self).edges()
            },
            !edge_ids(old(self).edges()).contains(id) && !(vertex_ids(
                old(self).vertices(),
            ).contains(source) && vertex_ids(old(self).vertices()).contains(target)) ==> {
                &&& r == Err::<(), GraphError>(GraphError::VertexNotFound)
                &&& final(self).edges() == old(self).edges()
            },
            !edge_ids(old(self).edges()).contains(id) && vertex_ids(old(self).vertices()).contains(
                source,
            ) && vertex_ids(old(self).vertices()).contains(target) ==> {
                &&& r == Ok::<(), GraphError>(())
                &&& final(self).edges().len() == old(self).edges().len() + 1
                &&& final(self).edges().drop_last() == old(self).edges()
                &&& final(self).edges().last().edge_id() == id
                &&& final(self).edges().last().edge_source() == source
                &&& final(self).edges().last().edge_target() == target
            },
    ;

    /// The number of vertices, as an `i32` (wrapping past `i32::MAX`).
    fn get_vertex_count(&self) -> (r: i32)
        ensures
            r == self.vertices().len() as i32,
            self.vertices().len() <= i32::MAX ==> r == self.vertices().len(),
    ;

    /// The number of edges, as an `i32` (wrapping past `i32::MAX`).
    fn get_edge_count(&self) -> (r: i32)
        ensures
            r == self.edges().len() as i32,
            self.edges().len() <= i32::MAX ==> r == self.edges().len(),
    ;

    /// The payload of the first vertex with this id.
    fn get_vertex_data(&self, id: VertexId) -> (r: Result<&TData, GraphError>)
        ensures
            is_vertex_data_lookup(self.vertices(), id, r),
    ;

    fn get_all_vertices(&self) -> (r: &Vec<TVertex>)
        ensures
            r@ == self.vertices(),
    ;

    fn get_all_edges(&self) -> (r: &Vec<TEdge>)
        ensures
            r@ == self.edges(),
    ;

    /// The targets of the edges whose source is `id`, in edge insertion order.
    /// An id that names no vertex has no neighbours.
    fn get_neighbors(&self, id: VertexId) -> (r: Vec<VertexId>)
        ensures
            r@ == neighbors_of(self.edges(), id),
    {
        let edges = self.get_all_edges();
        let mut neighbors: Vec<VertexId> = Vec::new();
        let mut i: usize = 0;
        while i < edges.len()
            invariant
                edges@ == self.edges(),
                i <= edges@.len(),
                neighbors@ == neighbors_of(edges@.subrange(0, i as int), id),
            decreases edges@.len() - i,
        {
            assert(edges@.subrange(0, i + 1).drop_last() == edges@.subrange(0, i as int));
            if edges[i].get_source() == id {
                neighbors.push(edges[i].get_target());
            }
            i = i + 1;
        }
        assert(edges@.subrange(0, edges@.len() as int) == edges@);
        neighbors
    }

    /// The first vertex with this id.
    fn get_vertex(&self, id: VertexId) -> (r: Result<&TVertex, GraphError>)
        ensures
            is_vertex_lookup(self.vertices(), id, r),
    {
        let vertices = self.get_all_vertices();
        let ghost ids = vertex_ids(vertices@);
        let mut i: usize = 0;
        while i < vertices.len()
            invariant
                vertices@ == self.vertices(),
                ids == vertex_ids(vertices@),
                i <= vertices@.len(),
                forall|j: int| 0 <= j < i ==> ids[j] != id,
            decreases vertices@.len() - i,
        {
            if vertices[i].get_id() == id {
                assert(ids[i as int] == id);
                proof {
                    ids.index_of_first_ensures(id);
                }
                return Ok(&vertices[i]);
            }
            i = i + 1;
        }
        proof {
            ids.index_of_first_ensures(id);
        }
        Err(GraphError::VertexNotFound)
    }

    /// The first edge with this id.
    fn get_edge(&self, id: EdgeId) -> (r: Result<&TEdge, GraphError>)
        ensures
            is_edge_lookup(self.edges(), id, r),
    {
        let edges = self.get_all_edges();
        let ghost ids = edge_ids(edges@);
        let mut i: usize = 0;
        while i < edges.len()
            invariant
                edges@ == self.edges(),
                ids == edge_ids(edges@),
                i <= edges@.len(),
                forall|j: int| 0 <= j < i ==> ids[j] != id,
            decreases edges@.len() - i,
        {
            if edges[i].get_id() == id {
                assert(ids[i as int] == id);
                proof {
                    ids.index_of_first_ensures(id);
                }
                return Ok(&edges[i]);
            }
            i = i + 1;
        }
        proof {
            ids.index_of_first_ensures(id);
        }
        Err(GraphError::EdgeNotFound)
    }
}

/// Whether some vertex of `vs` has this id.
fn has_vertex_id<TData, TVertex: Vertex<TData>>(vs: &Vec<TVertex>, id: VertexId) -> (r: bool)
    ensures
        r == vertex_ids(vs@).contains(id),
{
    let mut i: usize = 0;
    while i < vs.len()
        invariant
            i <= vs@.len(),
            forall|j: int| 0 <= j < i ==> vertex_ids(vs@)[j] != id,
        decreases vs@.len() - i,
    {
        if vs[i].get_id() == id {
            assert(vertex_ids(vs@)[i as int] == id);
            return true;
        }
        i = i + 1;
    }
    false
}

/// Whether some edge of `es` has this id.
fn has_edge_id<TEdge: Edge>(es: &Vec<TEdge>, id: EdgeId) -> (r: bool)
    ensures
        r == edge_ids(es@).contains(id),
{
    let mut i: usize = 0;
    while i < es.len()
        invariant
            i <= es@.len(),
            forall|j: int| 0 <= j < i ==> edge_ids(es@)[j] != id,
        decreases es@.len() - i,
    {
        if es[i].get_id() == id {
            assert(edge_ids(es@)[i as int] == id);
            return true;
        }
        i = i + 1;
    }
    false
}

/// A graph store that keeps vertices and edges in two vectors, in insertion order.
pub struct BaseGraph<TVertex, TEdge> {
    nodes: Vec<TVertex>,
    edges: Vec<TEdge>,
}

impl<TData, TVertex: Vertex<TData>, TEdge: Edge> Graph<TVertex, TEdge, TData> for BaseGraph<
    TVertex,
    TEdge,
> {
    closed spec fn vertices(&self) -> Seq<TVertex> {
        self.nodes@
    }

    closed spec fn edges(&self) -> Seq<TEdge> {
        self.edges@
    }

    fn new() -> (g: Self) {
        let g = BaseGraph { nodes: Vec::new(), edges: Vec::new() };
        assert(vertex_ids(g.nodes@) =~= Seq::<VertexId>::empty());
        assert(edge_ids(g.edges@) =~= Seq::<EdgeId>::empty());
        g
    }

    fn add_vertex(&mut self, id: VertexId, data: TData) -> (r: Result<(), GraphError>) {
        if has_vertex_id(&self.nodes, id) {
            return Err(GraphError::VertexIdAlreadyExist(id));
        }
        let ghost before = self.nodes@;
        self.nodes.push(TVertex::new(id, data));
        proof {
            assert(self.nodes@.drop_last() =~= before);
            assert(vertex_ids(self.nodes@) =~= vertex_ids(before).push(id));
            assert forall|x: VertexId| vertex_ids(before).contains(x) implies vertex_ids(
                self.nodes@,
            ).contains(x) by {
                let k = choose|k: int| 0 <= k < before.len() && vertex_ids(before)[k] == x;
                assert(vertex_ids(self.nodes@)[k] == x);
            }
        }
        Ok(())
    }

    fn add_edge(&mut self, id: EdgeId, source: VertexId, target: VertexId) -> (r: Result<
        (),
        GraphError,
    >) {
        let source_exist = has_vertex_id(&self.nodes, source);
        let target_exist = has_vertex_id(&self.nodes, target);
        if has_edge_id(&self.edges, id) {
            return Err(GraphError::EdgeIdAlreadyExist(id));
        }
        if source_exist && target_exist {
            let ghost before = self.edges@;
            self.edges.push(TEdge::new(id, source, target));
            proof {
                assert(self.edges@.drop_last() =~= before);
                assert(edge_ids(self.edges@) =~= edge_ids(before).push(id));
            }
            Ok(())
        } else {
            Err(GraphError::VertexNotFound)
        }
    }

    fn get_vertex_count(&self) -> (r: i32) {
        self.nodes.len() as i32
    }

    fn get_edge_count(&self) -> (r: i32) {
        self.edges.len() as i32
    }

    fn get_vertex_data(&self, id: VertexId) -> (r: Result<&TData, GraphError>) {
        match self.get_vertex(id) {
            Ok(node) => Ok(node.get_data()),
            Err(_) => Err(GraphError::VertexNotFound),
        }
    }

    fn get_all_vertices(&self) -> (r: &Vec<TVertex>) {
        &self.nodes
    }

    fn get_all_edges(&self) -> (r: &Vec<TEdge>) {
        &self.edges
    }
}

} // verus!
