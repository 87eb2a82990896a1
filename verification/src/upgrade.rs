//! The upgrade dispatcher: the pass that runs when a streamed
//! sub-scene finishes materializing.
//!
//! The streaming collaborator raises one ready event per sub-scene
//! instance, carrying the instance's root entity, after the whole
//! subtree exists; the entity graph supplies the root's descendant
//! list. The dispatcher resolves the root's scene link to its sink and
//! rewrites every descendant's generic surface-material reference to
//! the sink's derived material. A root without a link, or a link whose
//! sink entity is gone, is skipped silently: scenes and sinks are
//! loosely coupled, and neither case is an error.

use vstd::prelude::*;

use crate::sink::{has_sink, sink_derived, sinks_valid};
use crate::store::Material;
use crate::world::{Node, SurfaceMaterial, World};

verus! {

/// What one delivery of a ready event did.
#[derive(Clone, Copy, PartialEq, Eq, Structural, Debug)]
pub enum UpgradeOutcome {
    /// The root carries no scene link: not an interactive scene.
    NotLinked,
    /// The link's sink entity no longer exists or has lost its sink
    /// behaviour: the link is stale and stays inert.
    SinkUnavailable,
    /// The subtree was rewritten; `rewritten` counts the nodes whose
    /// generic reference was replaced.
    Upgraded { rewritten: usize },
}

/// Whether a surface slot holds a generic reference.
pub open spec fn is_generic(s: Option<SurfaceMaterial>) -> bool {
    s matches Some(SurfaceMaterial::Generic(_))
}

/// A surface slot after one upgrade to derived material `d`: a generic
/// reference becomes a reference to `d`, anything else is untouched.
pub open spec fn upgraded_surface(s: Option<SurfaceMaterial>, d: usize) -> Option<SurfaceMaterial> {
    if is_generic(s) {
        Some(SurfaceMaterial::Derived(d))
    } else {
        s
    }
}

/// A node after one upgrade to derived material `d`: only the surface
/// slot is touched.
pub open spec fn upgraded_node(n: Node, d: usize) -> Node {
    Node { sink: n.sink, link: n.link, surface: upgraded_surface(n.surface, d) }
}

/// `post` is `pre` with the upgrade to derived material `d` applied to
/// exactly the entities listed in `ds`.
pub open spec fn upgrade_applied(pre: Seq<Node>, post: Seq<Node>, ds: Seq<usize>, d: usize) -> bool {
    &&& post.len() == pre.len()
    &&& forall|e: int|
        0 <= e < pre.len() ==> #[trigger] post[e] == if ds.contains(e as usize) {
            upgraded_node(pre[e], d)
        } else {
            pre[e]
        }
}

/// The surface slot of entity `e`, or an empty slot for an index that
/// is no entity.
pub open spec fn surface_at(nodes: Seq<Node>, e: usize) -> Option<SurfaceMaterial> {
    if e < nodes.len() {
        nodes[e as int].surface
    } else {
        None
    }
}

/// The sink behaviour of entity `s`, or none for an index that is no
/// entity.
pub open spec fn sink_at(nodes: Seq<Node>, s: usize) -> Option<crate::world::Sink> {
    if s < nodes.len() {
        nodes[s as int].sink
    } else {
        None
    }
}

/// How many of the listed entities carry a generic reference.
pub open spec fn count_generic(nodes: Seq<Node>, ds: Seq<usize>) -> int
    decreases ds.len(),
{
    if ds.len() == 0 {
        0
    } else {
        count_generic(nodes, ds.drop_last()) + if is_generic(surface_at(nodes, ds.last())) {
            1int
        } else {
            0int
        }
    }
}

/// How many of the listed entities reference derived material `d`.
pub open spec fn count_derived(nodes: Seq<Node>, ds: Seq<usize>, d: usize) -> int
    decreases ds.len(),
{
    if ds.len() == 0 {
        0
    } else {
        count_derived(nodes, ds.drop_last(), d) + if surface_at(nodes, ds.last()) == Some(
            SurfaceMaterial::Derived(d),
        ) {
            1int
        } else {
            0int
        }
    }
}

/// Delivers one sub-scene-ready event for `root`, whose descendant
/// list the entity graph supplies (each descendant named once).
///
/// When the root's link resolves to a live sink, every listed node's
/// generic surface reference is replaced by the sink's derived
/// material and everything else in the world is left untouched; the
/// returned count is exactly the number of nodes that were rewritten.
/// When the root has no link, or the link's sink entity is gone or has
/// no sink behaviour, the world is returned unchanged — the outcome
/// says which case held, if and only if it held.
///
/// The pass reuses the sink's already-built identifier: it never
/// touches the material store, which is why the store is not even a
/// parameter.
#[verifier::loop_isolation(false)]
pub fn dispatch_scene_ready(world: &mut World, root: usize, descendants: &Vec<usize>) -> (outcome:
    UpgradeOutcome)
    requires
        root < old(world)@.len(),
        forall|j: int| 0 <= j < descendants@.len() ==> #[trigger] descendants@[j] < old(world)@.len(),
        descendants@.no_duplicates(),
    ensures
        match outcome {
            UpgradeOutcome::NotLinked => {
                &&& old(world)@[root as int].link is None
                &&& final(world)@ == old(world)@
            },
            UpgradeOutcome::SinkUnavailable => {
                &&& old(world)@[root as int].link matches Some(l) && sink_at(old(world)@, l.sink)
                    is None
                &&& final(world)@ == old(world)@
            },
            UpgradeOutcome::Upgraded { rewritten } => {
                &&& old(world)@[root as int].link matches Some(l) && sink_at(old(world)@, l.sink)
                    matches Some(sk) && upgrade_applied(
                    old(world)@,
                    final(world)@,
                    descendants@,
                    sk.derived,
                )
                &&& rewritten == count_generic(old(world)@, descendants@)
            },
        },
{
    let ghost w0 = *world;
    let link = match world.node(root).link {
        Some(l) => l,
        None => {
            return UpgradeOutcome::NotLinked;
        },
    };
    if link.sink >= world.len() {
        return UpgradeOutcome::SinkUnavailable;
    }
    let sk = match world.node(link.sink).sink {
        Some(s) => s,
        None => {
            return UpgradeOutcome::SinkUnavailable;
        },
    };
    let d = sk.derived;
    let mut rewritten: usize = 0;
    let mut i: usize = 0;
    while i < descendants.len()
        invariant
            i <= descendants@.len(),
            rewritten <= i,
            world@.len() == w0@.len(),
            upgrade_applied(w0@, world@, descendants@.take(i as int), d),
            rewritten == count_generic(w0@, descendants@.take(i as int)),
        decreases descendants@.len() - i,
    {
        let e = descendants[i];
        proof {
            assert(!descendants@.take(i as int).contains(e)) by {
                if descendants@.take(i as int).contains(e) {
                    let j = choose|j: int|
                        0 <= j < i && descendants@.take(i as int)[j] == e;
                    assert(descendants@[j] == descendants@[i as int]);
                }
            }
            assert(world@[e as int] == w0@[e as int]);
            assert(descendants@.take(i as int + 1).drop_last() =~= descendants@.take(i as int));
            assert(descendants@.take(i as int + 1).last() == e);
        }
        match world.node(e).surface {
            Some(SurfaceMaterial::Generic(_)) => {
                world.set_surface(e, SurfaceMaterial::Derived(d));
                rewritten = rewritten + 1;
            },
            _ => {},
        }
        proof {
            assert forall|e2: int| 0 <= e2 < w0@.len() implies #[trigger] world@[e2] == if descendants@.take(
                i as int + 1,
            ).contains(e2 as usize) {
                upgraded_node(w0@[e2], d)
            } else {
                w0@[e2]
            } by {
                if e2 == e as int {
                    assert(descendants@.take(i as int + 1).contains(e));
                } else {
                    assert(descendants@.take(i as int + 1).contains(e2 as usize)
                        == descendants@.take(i as int).contains(e2 as usize)) by {
                        let ds1 = descendants@.take(i as int + 1);
                        let ds0 = descendants@.take(i as int);
                        if ds0.contains(e2 as usize) {
                            let j = choose|j: int| 0 <= j < ds0.len() && ds0[j] == e2 as usize;
                            assert(ds1[j] == e2 as usize);
                        } else if ds1.contains(e2 as usize) {
                            let j = choose|j: int| 0 <= j < ds1.len() && ds1[j] == e2 as usize;
                            assert(j < i || ds1[j] == e);
                            if j < i {
                                assert(ds0[j] == e2 as usize);
                            }
                        }
                    }
                }
            }
        }
        i = i + 1;
    }
    proof {
        assert(descendants@.take(descendants@.len() as int) =~= descendants@);
    }
    UpgradeOutcome::Upgraded { rewritten }
}

/// Counting, entity by entity, over an upgraded world: no listed
/// entity is left generic, and the references to `d` grow by exactly
/// the number of formerly generic entities.
proof fn lemma_counts_pointwise(pre: Seq<Node>, post: Seq<Node>, ds: Seq<usize>, d: usize)
    requires
        post.len() == pre.len(),
        forall|j: int| 0 <= j < ds.len() ==> #[trigger] ds[j] < pre.len(),
        forall|j: int|
            0 <= j < ds.len() ==> surface_at(post, #[trigger] ds[j]) == upgraded_surface(
                surface_at(pre, ds[j]),
                d,
            ),
    ensures
        count_generic(post, ds) == 0,
        count_derived(post, ds, d) == count_generic(pre, ds) + count_derived(pre, ds, d),
    decreases ds.len(),
{
    if ds.len() > 0 {
        assert forall|j: int| 0 <= j < ds.drop_last().len() implies #[trigger] ds.drop_last()[j]
            == ds[j] by {}
        lemma_counts_pointwise(pre, post, ds.drop_last(), d);
        assert(ds[ds.len() - 1] == ds.last());
    }
}

/// After an upgrade pass, none of the listed entities still carries a
/// generic reference, and the number now referencing the sink's
/// derived material is exactly the pre-upgrade number of generic
/// references plus whatever already referenced it.
pub proof fn lemma_upgrade_counts(pre: Seq<Node>, post: Seq<Node>, ds: Seq<usize>, d: usize)
    requires
        upgrade_applied(pre, post, ds, d),
        forall|j: int| 0 <= j < ds.len() ==> #[trigger] ds[j] < pre.len(),
    ensures
        count_generic(post, ds) == 0,
        count_derived(post, ds, d) == count_generic(pre, ds) + count_derived(pre, ds, d),
{
    assert forall|j: int| 0 <= j < ds.len() implies surface_at(post, #[trigger] ds[j])
        == upgraded_surface(surface_at(pre, ds[j]), d) by {
        assert(ds.contains(ds[j]));
        assert(post[ds[j] as int] == upgraded_node(pre[ds[j] as int], d));
    }
    lemma_counts_pointwise(pre, post, ds, d);
}

/// Idempotence of the upgrade pass: a second delivery of the same
/// ready event over an already-upgraded subtree changes nothing.
pub proof fn lemma_upgrade_idempotent(w1: Seq<Node>, w2: Seq<Node>, w3: Seq<Node>, ds: Seq<usize>, d: usize)
    requires
        upgrade_applied(w1, w2, ds, d),
        upgrade_applied(w2, w3, ds, d),
    ensures
        w3 == w2,
{
    assert forall|e: int| 0 <= e < w2.len() implies #[trigger] w3[e] == w2[e] by {
        if ds.contains(e as usize) {
            assert(w2[e] == upgraded_node(w1[e], d));
            assert(w3[e] == upgraded_node(w2[e], d));
        }
    }
    assert(w3 =~= w2);
}

/// The shared-material guarantee: when two sub-scenes are upgraded,
/// one after the other, against the same sink's derived material `d`,
/// every node of either subtree that started out generic ends up
/// referencing the one identifier `d`.
pub proof fn lemma_shared_sink_shared_material(
    w1: Seq<Node>,
    w2: Seq<Node>,
    w3: Seq<Node>,
    ds1: Seq<usize>,
    ds2: Seq<usize>,
    d: usize,
)
    requires
        upgrade_applied(w1, w2, ds1, d),
        upgrade_applied(w2, w3, ds2, d),
    ensures
        forall|e: int|
            0 <= e < w1.len() && ds1.contains(e as usize) && is_generic(
                (#[trigger] w1[e]).surface,
            ) ==> w3[e].surface == Some(SurfaceMaterial::Derived(d)),
        forall|e: int|
            0 <= e < w2.len() && ds2.contains(e as usize) && is_generic(
                (#[trigger] w2[e]).surface,
            ) ==> w3[e].surface == Some(SurfaceMaterial::Derived(d)),
{
    assert forall|e: int|
        0 <= e < w1.len() && ds1.contains(e as usize) && is_generic(
            (#[trigger] w1[e]).surface,
        ) implies w3[e].surface == Some(SurfaceMaterial::Derived(d)) by {
        assert(w2[e] == upgraded_node(w1[e], d));
        assert(w3[e] == if ds2.contains(e as usize) {
            upgraded_node(w2[e], d)
        } else {
            w2[e]
        });
    }
    assert forall|e: int|
        0 <= e < w2.len() && ds2.contains(e as usize) && is_generic(
            (#[trigger] w2[e]).surface,
        ) implies w3[e].surface == Some(SurfaceMaterial::Derived(d)) by {
        assert(w3[e] == upgraded_node(w2[e], d));
    }
}

/// The upgrade pass touches surface references only: every entity
/// keeps its sink behaviour, so the sink validity invariant survives
/// any number of upgrade passes.
pub proof fn lemma_upgrade_preserves_sinks(
    pre: Seq<Node>,
    post: Seq<Node>,
    ds: Seq<usize>,
    d: usize,
    store: Seq<Material>,
)
    requires
        upgrade_applied(pre, post, ds, d),
        sinks_valid(pre, store),
    ensures
        sinks_valid(post, store),
        forall|e: int| 0 <= e < pre.len() ==> (#[trigger] post[e]).sink == pre[e].sink,
{
    assert forall|e: int| 0 <= e < pre.len() implies (#[trigger] post[e]).sink == pre[e].sink by {
        if ds.contains(e as usize) {
            assert(post[e] == upgraded_node(pre[e], d));
        }
    }
    assert forall|e: int|
        0 <= e < post.len() && has_sink(#[trigger] post[e]) implies sink_derived(post[e])
        < store.len() by {
        assert(post[e].sink == pre[e].sink);
        assert(has_sink(pre[e]));
    }
    assert forall|e1: int, e2: int|
        0 <= e1 < post.len() && 0 <= e2 < post.len() && e1 != e2 && has_sink(#[trigger] post[e1])
        && has_sink(#[trigger] post[e2]) implies sink_derived(post[e1]) != sink_derived(
        post[e2],
    ) by {
        assert(post[e1].sink == pre[e1].sink);
        assert(post[e2].sink == pre[e2].sink);
    }
}

} // verus!
