//! Laws of the schema model, stated and proved once for all registrations.

use vstd::prelude::*;

use crate::entity::AddImpl;
use crate::entity::Edge;
use crate::entity::EdgeHandler;
use crate::model::edge_entries;
use crate::model::vertex_entries;
use crate::model::Registration;
use crate::model::SchemaView;
use crate::entity::Vertex;
use crate::samples::EdgeA;
use crate::samples::VertexA;
use crate::samples::VertexB;

verus! {

/// Order preservation: after any call sequence, `vertices` holds exactly the
/// prior vertices followed by the vertex registrations in call order, and
/// `edges` exactly the prior edges followed by the edge registrations in
/// call order; calls of the other capability interleaved anywhere have no
/// effect on either equation.
pub proof fn lemma_order_preservation(s: SchemaView, rs: Seq<Registration>)
    ensures
        s.apply_all(rs).vertices == s.vertices + vertex_entries(rs),
        s.apply_all(rs).edges == s.edges + edge_entries(rs),
    decreases rs.len(),
{
    if rs.len() == 0 {
        assert(s.vertices + vertex_entries(rs) =~= s.vertices);
        assert(s.edges + edge_entries(rs) =~= s.edges);
    } else {
        let rest = rs.drop_first();
        lemma_order_preservation(s.apply(rs[0]), rest);
        match rs[0] {
            Registration::Vertex { label } => {
                assert(s.vertices.push(label) + vertex_entries(rest)
                    =~= s.vertices + (seq![label] + vertex_entries(rest)));
            },
            Registration::Edge { inbound, outbound } => {
                assert(s.edges.push((inbound, outbound)) + edge_entries(rest)
                    =~= s.edges + (seq![(inbound, outbound)] + edge_entries(rest)));
            },
        }
    }
}

/// No dedup: registering the same vertex label twice appends two entries,
/// identical to each other, and merges nothing.
pub proof fn lemma_no_dedup(s: SchemaView, label: Seq<char>)
    ensures
        s.apply((Registration::Vertex { label })).apply((Registration::Vertex { label })).vertices
            == s.vertices.push(label).push(label),
        s.apply((Registration::Vertex { label })).apply((Registration::Vertex { label })).edges
            == s.edges,
        s.vertices.push(label).push(label)[s.vertices.len() as int]
            == s.vertices.push(label).push(label)[s.vertices.len() as int + 1],
{
}

/// Capability isolation: one registration never mutates the sequence
/// belonging to the other capability. A vertex registration leaves `edges`
/// untouched, and an edge registration leaves `vertices` untouched.
pub proof fn lemma_capability_isolation(s: SchemaView, r: Registration)
    ensures
        r is Vertex ==> s.apply(r).edges == s.edges,
        r is Edge ==> s.apply(r).vertices == s.vertices,
{
}

/// Endpoint resolution is live, not snapshotted: whatever the schema holds
/// — in particular whether or not the referenced vertex types were ever
/// registered into it — registering an edge type appends exactly the pair
/// its endpoint accessors produce at that moment, and touches `vertices`
/// not at all.
pub proof fn lemma_edge_endpoints_live<E: Edge>(s: SchemaView)
    ensures
        s.apply(<EdgeHandler as AddImpl<E>>::registration()).edges
            == s.edges.push((E::spec_inbound(), E::spec_outbound())),
        s.apply(<EdgeHandler as AddImpl<E>>::registration()).vertices == s.vertices,
{
}

/// The live-resolution law at the sample edge: `EdgeA`'s recorded pair is
/// the current labels of `VertexA` and `VertexB`, on any schema.
pub proof fn lemma_edge_a_endpoints_live(s: SchemaView)
    ensures
        s.apply(<EdgeHandler as AddImpl<EdgeA>>::registration()).edges
            == s.edges.push((VertexA::spec_label(), VertexB::spec_label())),
        s.apply(<EdgeHandler as AddImpl<EdgeA>>::registration()).vertices == s.vertices,
{
}

} // verus!
