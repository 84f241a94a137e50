//! Capability contracts, handler variants, and the static dispatch wiring.
//!
//! Every entity type names, through [`Entity::Handler`], the one handler
//! variant that registers it. `Schema::add` only resolves when that handler
//! implements [`AddImpl`] for the entity, and each handler's `AddImpl`
//! implementation in turn requires the entity to satisfy the handler's
//! paired capability. A mis-wired entity — one whose declared handler does
//! not match an implemented capability, or one that declares no handler —
//! is therefore rejected when the program is built, never at run time.

use vstd::prelude::*;

use crate::model::Registration;
use crate::Schema;

verus! {

/// An entity type: a compile-time tag that carries no instance data and
/// declares which handler variant registers it.
pub trait Entity {
    type Handler;
}

/// The edge capability: static inbound and outbound endpoint labels.
pub trait Edge: Entity {
    /// The inbound endpoint label as a mathematical value.
    spec fn spec_inbound() -> Seq<char>;

    /// The outbound endpoint label as a mathematical value.
    spec fn spec_outbound() -> Seq<char>;

    /// Produces the inbound endpoint label. Pure and total.
    fn inbound() -> (r: &'static str)
        ensures
            r@ == Self::spec_inbound(),
    ;

    /// Produces the outbound endpoint label. Pure and total.
    fn outbound() -> (r: &'static str)
        ensures
            r@ == Self::spec_outbound(),
    ;
}

/// The vertex capability: a static label, non-empty and fixed per type.
pub trait Vertex: Entity {
    /// The label as a mathematical value.
    spec fn spec_label() -> Seq<char>;

    /// Produces the label. Pure and total, and the label is non-empty.
    fn label() -> (r: &'static str)
        ensures
            r@ == Self::spec_label(),
            Self::spec_label().len() > 0,
    ;
}

/// The handler variant paired with the vertex capability. Stateless.
pub struct VertexHandler;

/// The handler variant paired with the edge capability. Stateless.
pub struct EdgeHandler;

/// A dispatch target: how one handler variant folds one entity of its
/// capability into the schema. Exactly one append to the sequence belonging
/// to the entity's registration; the other sequence is untouched.
pub trait AddImpl<E> {
    /// What registering `E` contributes to the aggregate.
    spec fn registration() -> Registration;

    /// Folds `E` into the schema: exactly one append, as `registration`
    /// says, and nothing else changes.
    fn add(schema: &mut Schema)
        ensures
            final(schema)@ == old(schema)@.apply(Self::registration()),
    ;
}

impl<E: Vertex> AddImpl<E> for VertexHandler {
    open spec fn registration() -> Registration {
        Registration::Vertex { label: E::spec_label() }
    }

    fn add(schema: &mut Schema) {
        let label = E::label();
        schema.vertices.push(label);
        proof {
            broadcast use vstd::prelude::Seq::lemma_push_map_commute;

            assert(schema@ =~= old(schema)@.apply(<Self as AddImpl<E>>::registration()));
        }
    }
}

impl<E: Edge> AddImpl<E> for EdgeHandler {
    open spec fn registration() -> Registration {
        Registration::Edge { inbound: E::spec_inbound(), outbound: E::spec_outbound() }
    }

    fn add(schema: &mut Schema) {
        let inbound = E::inbound();
        let outbound = E::outbound();
        schema.edges.push((inbound, outbound));
        proof {
            broadcast use vstd::prelude::Seq::lemma_push_map_commute;

            assert(schema@ =~= old(schema)@.apply(<Self as AddImpl<E>>::registration()));
        }
    }
}

} // verus!
