//! The entity model: entities as open bags of optional behaviours.
//!
//! An entity may carry a sink behaviour, a scene-link behaviour and a
//! surface-material reference, in any combination. The world holds one
//! node per entity, addressed by index; the entity graph that relates
//! a sub-scene root to its descendants is the streaming collaborator's
//! concern and enters the protocol as an explicit descendant list.

use vstd::prelude::*;

verus! {

/// The sink behaviour: one interaction group's anchor, owning the
/// identifier of its derived material. A sink value exists only fully
/// constructed: the construction hook creates it with its derived
/// identifier already resolved, so no sentinel state is observable.
#[derive(Clone, Copy, PartialEq, Eq, Structural, Debug)]
pub struct Sink {
    pub derived: usize,
}

/// The scene-link behaviour: ties a streamed sub-scene's root entity
/// to the entity of the sink it belongs to. Written once when the
/// sub-scene is spawned, read-only afterwards.
#[derive(Clone, Copy, PartialEq, Eq, Structural, Debug)]
pub struct SceneLink {
    pub sink: usize,
}

/// A node's surface-material reference.
#[derive(Clone, Copy, PartialEq, Eq, Structural, Debug)]
pub enum SurfaceMaterial {
    /// The generic reference a streamed asset arrives with; the
    /// payload is opaque and only carried along.
    Generic(usize),
    /// A reference to a sink's derived material, installed by the
    /// upgrade pass.
    Derived(usize),
}

/// One entity's behaviours.
#[derive(Clone, Copy, PartialEq, Eq, Structural, Debug)]
pub struct Node {
    pub sink: Option<Sink>,
    pub link: Option<SceneLink>,
    pub surface: Option<SurfaceMaterial>,
}

/// The entity table. Entities are spawned in order and addressed by
/// index; despawning clears an entity's behaviours but keeps its slot,
/// so indices of live entities stay stable.
pub struct World {
    nodes: Vec<Node>,
}

impl View for World {
    type V = Seq<Node>;

    closed spec fn view(&self) -> Seq<Node> {
        self.nodes@
    }
}

/// A node carrying no behaviour at all, as spawned and as left behind
/// by a despawn.
pub open spec fn empty_node() -> Node {
    Node { sink: None, link: None, surface: None }
}

impl World {
    /// A world with no entities.
    pub fn new() -> (w: Self)
        ensures
            w@ == Seq::<Node>::empty(),
    {
        World { nodes: Vec::new() }
    }

    /// Number of entity slots; every index below it is an entity.
    pub fn len(&self) -> (n: usize)
        ensures
            n == self@.len(),
    {
        self.nodes.len()
    }

    /// Spawns a fresh entity with no behaviours and returns its index.
    pub fn spawn(&mut self) -> (e: usize)
        ensures
            e == old(self)@.len(),
            final(self)@ == old(self)@.push(empty_node()),
    {
        let e = self.nodes.len();
        self.nodes.push(Node { sink: None, link: None, surface: None });
        e
    }

    /// Reads an entity's behaviours.
    pub fn node(&self, e: usize) -> (n: Node)
        requires
            e < self@.len(),
        ensures
            n == self@[e as int],
    {
        self.nodes[e]
    }

    /// Destroys an entity: all behaviours are dropped. References other
    /// entities hold to this index dangle from here on; the protocol
    /// tolerates that (a stale link is skipped at upgrade time).
    pub fn despawn(&mut self, e: usize)
        requires
            e < old(self)@.len(),
        ensures
            final(self)@ == old(self)@.update(e as int, empty_node()),
    {
        self.nodes[e] = Node { sink: None, link: None, surface: None };
    }

    /// Gives an entity a scene link, tying it to a sink entity. A link
    /// is set once, at the moment the sub-scene is spawned.
    pub fn set_link(&mut self, e: usize, link: SceneLink)
        requires
            e < old(self)@.len(),
            old(self)@[e as int].link is None,
        ensures
            final(self)@ == old(self)@.update(
                e as int,
                Node {
                    sink: old(self)@[e as int].sink,
                    link: Some(link),
                    surface: old(self)@[e as int].surface,
                },
            ),
    {
        self.nodes[e].link = Some(link);
    }

    /// Sets or replaces an entity's surface-material reference, leaving
    /// its other behaviours alone.
    pub fn set_surface(&mut self, e: usize, s: SurfaceMaterial)
        requires
            e < old(self)@.len(),
        ensures
            final(self)@ == old(self)@.update(
                e as int,
                Node {
                    sink: old(self)@[e as int].sink,
                    link: old(self)@[e as int].link,
                    surface: Some(s),
                },
            ),
    {
        self.nodes[e].surface = Some(s);
    }

    /// Installs a sink behaviour on an entity. Restricted to the
    /// construction hook, which is the only place a sink value may be
    /// made: that keeps every sink's derived identifier one the store
    /// actually issued.
    pub(crate) fn set_sink(&mut self, e: usize, sink: Sink)
        requires
            e < old(self)@.len(),
            old(self)@[e as int].sink is None,
        ensures
            final(self)@ == old(self)@.update(
                e as int,
                Node {
                    sink: Some(sink),
                    link: old(self)@[e as int].link,
                    surface: old(self)@[e as int].surface,
                },
            ),
    {
        self.nodes[e].sink = Some(sink);
    }
}

} // verus!
