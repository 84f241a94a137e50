//! A graph schema that heterogeneous entity types register themselves into
//! through one uniform call, dispatched purely by static type information.
//!
//! An entity type declares exactly one capability — [`Vertex`] (a static
//! label) or [`Edge`] (static inbound/outbound endpoint labels) — and binds
//! itself, through [`Entity::Handler`], to the one handler variant paired
//! with that capability. [`Schema::add`] routes a registration to that
//! handler with no runtime tag and no branch: an entity whose declared
//! handler does not match an implemented capability fails to compile, never
//! at run time.

use vstd::prelude::*;

pub mod entity;
pub mod laws;
pub mod model;
pub mod samples;

pub use entity::AddImpl;
pub use entity::Edge;
pub use entity::EdgeHandler;
pub use entity::Entity;
pub use entity::Vertex;
pub use entity::VertexHandler;
pub use model::Registration;
pub use model::SchemaView;

verus! {

/// The aggregate: registered vertex labels and edge endpoint pairs, each in
/// insertion order, with duplicates preserved.
pub struct Schema {
    pub vertices: Vec<&'static str>,
    pub edges: Vec<(&'static str, &'static str)>,
}

impl View for Schema {
    type V = SchemaView;

    open spec fn view(&self) -> SchemaView {
        SchemaView {
            vertices: self.vertices@.map_values(|v: &'static str| v@),
            edges: self.edges@.map_values(|e: (&'static str, &'static str)| (e.0@, e.1@)),
        }
    }
}

impl Schema {
    /// Returns the aggregate with empty vertex and edge sequences.
    pub fn new() -> (schema: Self)
        ensures
            schema@ == SchemaView::empty(),
    {
        let schema = Schema { vertices: Vec::new(), edges: Vec::new() };
        proof {
            assert(schema@ =~= SchemaView::empty());
        }
        schema
    }

    /// The uniform registration entry point. The entity type's declared
    /// handler is resolved statically and performs exactly one append to the
    /// sequence belonging to its capability; the other sequence is untouched.
    pub fn add<E: Entity>(&mut self) where E::Handler: AddImpl<E>
        ensures
            final(self)@ == old(self)@.apply(<E::Handler as AddImpl<E>>::registration()),
    {
        E::Handler::add(self);
    }
}

} // verus!
