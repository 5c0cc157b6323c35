use graph_store::graph::{BaseGraph, BaseVertex, Edge, Graph, GraphError, UnweightedEdge, Vertex};

type Store = BaseGraph<BaseVertex<i32>, UnweightedEdge>;

fn four_vertices() -> Store {
    let mut g = Store::new();
    for id in 1..=4 {
        assert_eq!(g.add_vertex(id, id), Ok(()));
    }
    g
}

fn sources_and_targets(g: &Store) -> Vec<(i32, i32, i32)> {
    g.get_all_edges()
        .iter()
        .map(|e| (e.get_id(), e.get_source(), e.get_target()))
        .collect()
}

#[test]
fn empty_store_has_no_vertices_or_edges() {
    let g = Store::new();
    assert_eq!(g.get_vertex_count(), 0);
    assert_eq!(g.get_edge_count(), 0);
    assert!(g.get_all_vertices().is_empty());
    assert!(g.get_all_edges().is_empty());
}

#[test]
fn duplicate_vertex_id_is_refused() {
    let mut g = four_vertices();
    assert_eq!(g.add_vertex(4, 4), Err(GraphError::VertexIdAlreadyExist(4)));
    assert_eq!(g.get_vertex_count(), 4);
}

#[test]
fn duplicate_vertex_keeps_original_data() {
    let mut g = Store::new();
    assert_eq!(g.add_vertex(7, 70), Ok(()));
    assert_eq!(g.add_vertex(7, 71), Err(GraphError::VertexIdAlreadyExist(7)));
    assert_eq!(g.get_vertex_count(), 1);
    assert_eq!(g.get_vertex_data(7), Ok(&70));
}

#[test]
fn edges_between_present_vertices_give_neighbors() {
    let mut g = four_vertices();
    assert_eq!(g.add_edge(1, 1, 2), Ok(()));
    assert_eq!(g.add_edge(2, 1, 3), Ok(()));
    assert_eq!(g.add_edge(3, 3, 4), Ok(()));
    assert_eq!(g.get_edge_count(), 3);
    assert_eq!(g.get_neighbors(1), vec![2, 3]);
    assert_eq!(g.get_neighbors(4), Vec::<i32>::new());
    assert_eq!(g.get_neighbors(3), vec![4]);
}

#[test]
fn edge_to_missing_target_is_refused() {
    let mut g = four_vertices();
    assert_eq!(g.add_edge(1, 1, 2), Ok(()));
    assert_eq!(g.add_edge(2, 1, 99), Err(GraphError::VertexNotFound));
    assert_eq!(g.get_edge_count(), 1);
    assert_eq!(sources_and_targets(&g), vec![(1, 1, 2)]);
}

#[test]
fn edge_from_missing_source_is_refused() {
    let mut g = four_vertices();
    assert_eq!(g.add_edge(1, 99, 2), Err(GraphError::VertexNotFound));
    assert_eq!(g.add_edge(1, 98, 99), Err(GraphError::VertexNotFound));
    assert_eq!(g.get_edge_count(), 0);
}

#[test]
fn duplicate_edge_id_is_refused() {
    let mut g = four_vertices();
    assert_eq!(g.add_edge(1, 1, 2), Ok(()));
    assert_eq!(g.add_edge(1, 3, 4), Err(GraphError::EdgeIdAlreadyExist(1)));
    assert_eq!(sources_and_targets(&g), vec![(1, 1, 2)]);
}

#[test]
fn duplicate_edge_id_is_reported_before_missing_vertex() {
    let mut g = four_vertices();
    assert_eq!(g.add_edge(5, 1, 2), Ok(()));
    assert_eq!(g.add_edge(5, 1, 99), Err(GraphError::EdgeIdAlreadyExist(5)));
}

#[test]
fn vertex_and_edge_ids_are_separate() {
    let mut g = four_vertices();
    assert_eq!(g.add_edge(1, 1, 1), Ok(()));
    assert_eq!(g.add_edge(4, 2, 3), Ok(()));
    assert_eq!(g.get_edge_count(), 2);
}

#[test]
fn insertion_order_is_kept() {
    let mut g = Store::new();
    for id in [5, 3, 9, 1] {
        assert_eq!(g.add_vertex(id, id * 10), Ok(()));
    }
    assert_eq!(g.add_vertex(3, 0), Err(GraphError::VertexIdAlreadyExist(3)));
    let ids: Vec<i32> = g.get_all_vertices().iter().map(|v| v.get_id()).collect();
    let data: Vec<i32> = g.get_all_vertices().iter().map(|v| *v.get_data()).collect();
    assert_eq!(ids, vec![5, 3, 9, 1]);
    assert_eq!(data, vec![50, 30, 90, 10]);

    assert_eq!(g.add_edge(30, 9, 5), Ok(()));
    assert_eq!(g.add_edge(10, 1, 3), Ok(()));
    assert_eq!(g.add_edge(20, 5, 9), Ok(()));
    assert_eq!(sources_and_targets(&g), vec![(30, 9, 5), (10, 1, 3), (20, 5, 9)]);
}

#[test]
fn neighbors_keep_repeats_and_self_loops() {
    let mut g = four_vertices();
    assert_eq!(g.add_edge(1, 2, 3), Ok(()));
    assert_eq!(g.add_edge(2, 2, 2), Ok(()));
    assert_eq!(g.add_edge(3, 1, 2), Ok(()));
    assert_eq!(g.add_edge(4, 2, 3), Ok(()));
    assert_eq!(g.add_edge(5, 3, 2), Ok(()));
    assert_eq!(g.get_neighbors(2), vec![3, 2, 3]);
    assert_eq!(g.get_neighbors(1), vec![2]);
}

#[test]
fn neighbors_of_unknown_vertex_are_empty() {
    let mut g = four_vertices();
    assert_eq!(g.add_edge(1, 1, 2), Ok(()));
    assert_eq!(g.get_neighbors(42), Vec::<i32>::new());
}

#[test]
fn lookups_find_vertices_and_edges() {
    let mut g = four_vertices();
    assert_eq!(g.add_edge(8, 3, 1), Ok(()));
    match g.get_vertex(3) {
        Ok(v) => {
            assert_eq!(v.get_id(), 3);
            assert_eq!(*v.get_data(), 3);
        }
        Err(e) => panic!("unexpected {:?}", e),
    }
    match g.get_edge(8) {
        Ok(e) => {
            assert_eq!(e.get_id(), 8);
            assert_eq!(e.get_source(), 3);
            assert_eq!(e.get_target(), 1);
        }
        Err(e) => panic!("unexpected {:?}", e),
    }
    assert_eq!(g.get_vertex_data(2), Ok(&2));
}

#[test]
fn lookups_of_missing_ids_fail() {
    let mut g = four_vertices();
    assert_eq!(g.add_edge(8, 3, 1), Ok(()));
    assert!(matches!(g.get_vertex(5), Err(GraphError::VertexNotFound)));
    assert!(matches!(g.get_edge(1), Err(GraphError::EdgeNotFound)));
    assert_eq!(g.get_vertex_data(0), Err(GraphError::VertexNotFound));
}

#[test]
fn repeated_queries_agree() {
    let mut g = four_vertices();
    assert_eq!(g.add_edge(1, 1, 2), Ok(()));
    assert_eq!(g.get_vertex_count(), g.get_vertex_count());
    assert_eq!(g.get_edge_count(), g.get_edge_count());
    assert_eq!(g.get_vertex_data(2), g.get_vertex_data(2));
    assert_eq!(g.get_vertex_data(9), g.get_vertex_data(9));
    let first = g.get_vertex(2).map(|v| v.get_id());
    let second = g.get_vertex(2).map(|v| v.get_id());
    assert_eq!(first, second);
    let first = g.get_edge(1).map(|e| (e.get_source(), e.get_target()));
    let second = g.get_edge(1).map(|e| (e.get_source(), e.get_target()));
    assert_eq!(first, second);
    assert_eq!(g.get_neighbors(1), g.get_neighbors(1));
}

#[test]
fn entities_keep_what_they_were_built_with() {
    let v = <BaseVertex<&str> as Vertex<&str>>::new(-3, "payload");
    assert_eq!(v.get_id(), -3);
    assert_eq!(*v.get_data(), "payload");
    let e = <UnweightedEdge as Edge>::new(11, -1, 7);
    assert_eq!(e.get_id(), 11);
    assert_eq!(e.get_source(), -1);
    assert_eq!(e.get_target(), 7);
}
