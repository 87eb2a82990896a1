//! Sink construction: the hook that runs when an entity is given the
//! sink behaviour.
//!
//! Construction is collapsed into one explicit factory step: it reads
//! the palette registry, clones the base material's data into a fresh
//! store entry, and installs a sink holding the fresh identifier. It
//! runs synchronously, so no other part of the protocol ever observes
//! a sink without its derived material.

use vstd::prelude::*;

use crate::registry::PaletteRegistry;
use crate::store::{Material, MaterialStore};
use crate::world::{Node, Sink, World};

verus! {

/// Whether a node carries the sink behaviour.
pub open spec fn has_sink(n: Node) -> bool {
    n.sink is Some
}

/// The derived material identifier of a node's sink (meaningful only
/// when the node has one).
pub open spec fn sink_derived(n: Node) -> usize {
    n.sink->Some_0.derived
}

/// Every sink's derived identifier resolves in the store, and no two
/// sinks share a store slot, even when both were cloned from the same
/// palette snapshot.
pub open spec fn sinks_valid(nodes: Seq<Node>, store: Seq<Material>) -> bool {
    &&& forall|e: int|
        0 <= e < nodes.len() && has_sink(#[trigger] nodes[e]) ==> sink_derived(nodes[e])
            < store.len()
    &&& forall|e1: int, e2: int|
        0 <= e1 < nodes.len() && 0 <= e2 < nodes.len() && e1 != e2 && has_sink(
            #[trigger] nodes[e1],
        ) && has_sink(#[trigger] nodes[e2]) ==> sink_derived(nodes[e1]) != sink_derived(nodes[e2])
}

/// The construction hook. Attaching the sink behaviour to `entity`
/// clones the registered base material into a fresh store entry and
/// records the fresh identifier on the new sink.
///
/// The host must initialize the registry, with an identifier the store
/// resolves, before constructing any sink; reading an uninitialized
/// registry here would be an unrecoverable ordering bug, so the
/// precondition rules it out. The hook runs at most once per entity:
/// re-attaching the behaviour is not supported, which the precondition
/// on the entity's sink slot enforces.
///
/// The `sinks_valid` clauses state the shared-material invariant:
/// construction keeps every derived identifier resolvable and never
/// lets two sinks share a store slot.
pub fn attach_sink(
    world: &mut World,
    store: &mut MaterialStore,
    registry: &PaletteRegistry,
    entity: usize,
) -> (id: usize)
    requires
        registry.is_initialized(),
        registry.base_id() < old(store)@.len(),
        entity < old(world)@.len(),
        old(world)@[entity as int].sink is None,
        sinks_valid(old(world)@, old(store)@),
    ensures
        id == old(store)@.len(),
        final(store)@ == old(store)@.push(old(store)@[registry.base_id() as int]),
        final(world)@ == old(world)@.update(
            entity as int,
            Node {
                sink: Some(Sink { derived: id }),
                link: old(world)@[entity as int].link,
                surface: old(world)@[entity as int].surface,
            },
        ),
        sinks_valid(final(world)@, final(store)@),
{
    let base_id = registry.base();
    let base = match store.get(base_id) {
        Some(m) => m,
        None => Material { payload: 0 },
    };
    let id = store.add(base);
    world.set_sink(entity, Sink { derived: id });
    proof {
        let pre_n = old(world)@;
        let pre_s = old(store)@;
        let post_n = world@;
        let post_s = store@;
        assert forall|e: int|
            0 <= e < post_n.len() && has_sink(#[trigger] post_n[e]) implies sink_derived(post_n[e])
            < post_s.len() by {
            if e != entity {
                assert(post_n[e] == pre_n[e]);
            }
        }
        assert forall|e1: int, e2: int|
            0 <= e1 < post_n.len() && 0 <= e2 < post_n.len() && e1 != e2 && has_sink(
                #[trigger] post_n[e1],
            ) && has_sink(#[trigger] post_n[e2]) implies sink_derived(post_n[e1]) != sink_derived(
            post_n[e2],
        ) by {
            if e1 != entity && e2 != entity {
                assert(post_n[e1] == pre_n[e1]);
                assert(post_n[e2] == pre_n[e2]);
            } else if e1 == entity {
                assert(post_n[e2] == pre_n[e2]);
            } else {
                assert(post_n[e1] == pre_n[e1]);
            }
        }
    }
    id
}

} // verus!
