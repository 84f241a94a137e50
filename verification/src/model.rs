//! Ghost model of the schema aggregate.
//!
//! A registration is a tagged union with exactly two variants, one per
//! capability, so an entity's registration carries data for exactly one
//! capability by construction. A `SchemaView` is the mathematical value of
//! a schema: two ordered sequences, appended to in call order.

use vstd::prelude::*;

verus! {

/// What one registration call contributes to the aggregate: either a vertex
/// label, or an edge's two endpoint labels.
pub enum Registration {
    Vertex { label: Seq<char> },
    Edge { inbound: Seq<char>, outbound: Seq<char> },
}

/// The mathematical value of a schema: the registered vertex labels and the
/// registered edge endpoint pairs, each in insertion order.
#[verifier::ext_equal]
pub struct SchemaView {
    pub vertices: Seq<Seq<char>>,
    pub edges: Seq<(Seq<char>, Seq<char>)>,
}

impl SchemaView {
    /// The schema with no registrations.
    pub open spec fn empty() -> SchemaView {
        SchemaView { vertices: Seq::empty(), edges: Seq::empty() }
    }

    /// The effect of one registration: exactly one append, to the sequence
    /// belonging to the registration's capability; the other sequence is
    /// untouched.
    pub open spec fn apply(self, r: Registration) -> SchemaView {
        match r {
            Registration::Vertex { label } => SchemaView {
                vertices: self.vertices.push(label),
                edges: self.edges,
            },
            Registration::Edge { inbound, outbound } => SchemaView {
                vertices: self.vertices,
                edges: self.edges.push((inbound, outbound)),
            },
        }
    }

    /// The effect of a whole call sequence, first call first.
    pub open spec fn apply_all(self, rs: Seq<Registration>) -> SchemaView
        decreases rs.len(),
    {
        if rs.len() == 0 {
            self
        } else {
            self.apply(rs[0]).apply_all(rs.drop_first())
        }
    }
}

/// The vertex labels contributed by a call sequence, in call order; edge
/// registrations contribute nothing here.
pub open spec fn vertex_entries(rs: Seq<Registration>) -> Seq<Seq<char>>
    decreases rs.len(),
{
    if rs.len() == 0 {
        Seq::empty()
    } else {
        match rs[0] {
            Registration::Vertex { label } => seq![label] + vertex_entries(rs.drop_first()),
            Registration::Edge { .. } => vertex_entries(rs.drop_first()),
        }
    }
}

/// The edge endpoint pairs contributed by a call sequence, in call order;
/// vertex registrations contribute nothing here.
pub open spec fn edge_entries(rs: Seq<Registration>) -> Seq<(Seq<char>, Seq<char>)>
    decreases rs.len(),
{
    if rs.len() == 0 {
        Seq::empty()
    } else {
        match rs[0] {
            Registration::Vertex { .. } => edge_entries(rs.drop_first()),
            Registration::Edge { inbound, outbound } => (
                seq![(inbound, outbound)] + edge_entries(rs.drop_first())
            ),
        }
    }
}

} // verus!
