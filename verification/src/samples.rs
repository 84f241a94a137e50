//! Concrete entity types that exercise the dispatch mechanism.
//!
//! Each one is a zero-data tag: it implements one capability and binds
//! itself to that capability's handler variant. `EdgeA`'s endpoints are
//! resolved from the two vertex types' label accessors at the moment of its
//! registration, whether or not those vertex types were ever registered.

use vstd::prelude::*;

use crate::entity::Edge;
use crate::entity::EdgeHandler;
use crate::entity::Entity;
use crate::entity::Vertex;
use crate::entity::VertexHandler;

verus! {

pub struct VertexA;

impl Vertex for VertexA {
    open spec fn spec_label() -> Seq<char> {
        "vertex_a"@
    }

    fn label() -> (r: &'static str) {
        proof {
            reveal_strlit("vertex_a");
        }
        "vertex_a"
    }
}

impl Entity for VertexA {
    type Handler = VertexHandler;
}

pub struct VertexB;

impl Vertex for VertexB {
    open spec fn spec_label() -> Seq<char> {
        "vertex_b"@
    }

    fn label() -> (r: &'static str) {
        proof {
            reveal_strlit("vertex_b");
        }
        "vertex_b"
    }
}

impl Entity for VertexB {
    type Handler = VertexHandler;
}

pub struct EdgeA;

impl Edge for EdgeA {
    open spec fn spec_inbound() -> Seq<char> {
        VertexA::spec_label()
    }

    open spec fn spec_outbound() -> Seq<char> {
        VertexB::spec_label()
    }

    fn inbound() -> (r: &'static str) {
        VertexA::label()
    }

    fn outbound() -> (r: &'static str) {
        VertexB::label()
    }
}

impl Entity for EdgeA {
    type Handler = EdgeHandler;
}

} // verus!
