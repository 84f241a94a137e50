use graph_schema::samples::EdgeA;
use graph_schema::samples::VertexA;
use graph_schema::samples::VertexB;
use graph_schema::Edge;
use graph_schema::Schema;
use graph_schema::Vertex;

#[test]
fn new_schema_is_empty() {
    let schema = Schema::new();
    assert!(schema.vertices.is_empty());
    assert!(schema.edges.is_empty());
}

#[test]
fn registers_vertices_and_edges_in_call_order() {
    let mut schema = Schema::new();
    schema.add::<VertexA>();
    schema.add::<VertexB>();
    schema.add::<EdgeA>();
    assert_eq!(schema.vertices, vec!["vertex_a", "vertex_b"]);
    assert_eq!(schema.edges, vec![("vertex_a", "vertex_b")]);
}

#[test]
fn interleaved_calls_keep_each_sequence_in_call_order() {
    let mut schema = Schema::new();
    schema.add::<EdgeA>();
    schema.add::<VertexB>();
    schema.add::<EdgeA>();
    schema.add::<VertexA>();
    assert_eq!(schema.vertices, vec!["vertex_b", "vertex_a"]);
    assert_eq!(
        schema.edges,
        vec![("vertex_a", "vertex_b"), ("vertex_a", "vertex_b")]
    );
}

#[test]
fn duplicate_vertex_registrations_are_preserved() {
    let mut schema = Schema::new();
    schema.add::<VertexA>();
    schema.add::<VertexA>();
    assert_eq!(schema.vertices, vec!["vertex_a", "vertex_a"]);
    assert!(schema.edges.is_empty());
}

#[test]
fn vertex_registration_never_touches_edges() {
    let mut schema = Schema::new();
    schema.add::<EdgeA>();
    let edges_before = schema.edges.clone();
    schema.add::<VertexA>();
    schema.add::<VertexB>();
    assert_eq!(schema.edges, edges_before);
}

#[test]
fn edge_registration_never_touches_vertices() {
    let mut schema = Schema::new();
    schema.add::<VertexA>();
    let vertices_before = schema.vertices.clone();
    schema.add::<EdgeA>();
    schema.add::<EdgeA>();
    assert_eq!(schema.vertices, vertices_before);
}

#[test]
fn edge_endpoints_resolve_without_prior_vertex_registration() {
    let mut schema = Schema::new();
    schema.add::<EdgeA>();
    assert!(schema.vertices.is_empty());
    assert_eq!(schema.edges, vec![("vertex_a", "vertex_b")]);
}

#[test]
fn labels_are_fixed_per_type() {
    assert_eq!(VertexA::label(), "vertex_a");
    assert_eq!(VertexB::label(), "vertex_b");
    assert_eq!(EdgeA::inbound(), VertexA::label());
    assert_eq!(EdgeA::outbound(), VertexB::label());
}
