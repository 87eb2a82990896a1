//! Upgrade-dispatcher behaviour: rewriting, idempotence, stale links,
//! shared materials, and the end-to-end scenario.

use interaction_sinks::registry::PaletteRegistry;
use interaction_sinks::sink::attach_sink;
use interaction_sinks::store::{Material, MaterialStore};
use interaction_sinks::upgrade::{dispatch_scene_ready, UpgradeOutcome};
use interaction_sinks::world::{SceneLink, SurfaceMaterial, World};

/// Registry with base material, world with one constructed sink.
fn setup(payload: u64) -> (World, MaterialStore, PaletteRegistry, usize, usize) {
    let mut store = MaterialStore::new();
    let base = store.add(Material { payload });
    let mut registry = PaletteRegistry::new();
    registry.initialize(base);
    let mut world = World::new();
    let sink_entity = world.spawn();
    let derived = attach_sink(&mut world, &mut store, &registry, sink_entity);
    (world, store, registry, sink_entity, derived)
}

/// Spawns a sub-scene root linked to `sink_entity` with `n` descendant
/// nodes carrying generic references.
fn spawn_scene(world: &mut World, sink_entity: usize, n: usize) -> (usize, Vec<usize>) {
    let root = world.spawn();
    world.set_link(root, SceneLink { sink: sink_entity });
    let mut descendants = Vec::new();
    for k in 0..n {
        let node = world.spawn();
        world.set_surface(node, SurfaceMaterial::Generic(k));
        descendants.push(node);
    }
    (root, descendants)
}

#[test]
fn upgrade_rewrites_every_generic_descendant() {
    let (mut world, _store, _registry, sink_entity, derived) = setup(7);
    let (root, descendants) = spawn_scene(&mut world, sink_entity, 3);

    let outcome = dispatch_scene_ready(&mut world, root, &descendants);
    assert_eq!(outcome, UpgradeOutcome::Upgraded { rewritten: 3 });

    let generic_left = descendants
        .iter()
        .filter(|&&e| matches!(world.node(e).surface, Some(SurfaceMaterial::Generic(_))))
        .count();
    let on_derived = descendants
        .iter()
        .filter(|&&e| world.node(e).surface == Some(SurfaceMaterial::Derived(derived)))
        .count();
    assert_eq!(generic_left, 0);
    assert_eq!(on_derived, 3);
}

#[test]
fn nodes_without_surface_are_left_untouched() {
    let (mut world, _store, _registry, sink_entity, derived) = setup(7);
    let root = world.spawn();
    world.set_link(root, SceneLink { sink: sink_entity });
    let plain = world.spawn();
    let generic = world.spawn();
    world.set_surface(generic, SurfaceMaterial::Generic(0));
    let already = world.spawn();
    world.set_surface(already, SurfaceMaterial::Derived(derived));
    let descendants = vec![plain, generic, already];

    let outcome = dispatch_scene_ready(&mut world, root, &descendants);
    assert_eq!(outcome, UpgradeOutcome::Upgraded { rewritten: 1 });
    assert_eq!(world.node(plain).surface, None);
    assert_eq!(world.node(generic).surface, Some(SurfaceMaterial::Derived(derived)));
    assert_eq!(world.node(already).surface, Some(SurfaceMaterial::Derived(derived)));
}

#[test]
fn second_delivery_is_a_no_op() {
    let (mut world, _store, _registry, sink_entity, derived) = setup(7);
    let (root, descendants) = spawn_scene(&mut world, sink_entity, 3);

    let first = dispatch_scene_ready(&mut world, root, &descendants);
    assert_eq!(first, UpgradeOutcome::Upgraded { rewritten: 3 });
    let snapshot: Vec<_> = descendants.iter().map(|&e| world.node(e)).collect();

    let second = dispatch_scene_ready(&mut world, root, &descendants);
    assert_eq!(second, UpgradeOutcome::Upgraded { rewritten: 0 });
    let after: Vec<_> = descendants.iter().map(|&e| world.node(e)).collect();
    assert_eq!(snapshot, after);
    for &e in &descendants {
        assert_eq!(world.node(e).surface, Some(SurfaceMaterial::Derived(derived)));
    }
}

#[test]
fn root_without_link_is_skipped() {
    let (mut world, _store, _registry, _sink_entity, _derived) = setup(7);
    let root = world.spawn();
    let node = world.spawn();
    world.set_surface(node, SurfaceMaterial::Generic(5));

    let outcome = dispatch_scene_ready(&mut world, root, &vec![node]);
    assert_eq!(outcome, UpgradeOutcome::NotLinked);
    assert_eq!(world.node(node).surface, Some(SurfaceMaterial::Generic(5)));
}

#[test]
fn destroyed_sink_leaves_subtree_untouched() {
    let (mut world, _store, _registry, sink_entity, _derived) = setup(7);
    let (root, descendants) = spawn_scene(&mut world, sink_entity, 2);

    world.despawn(sink_entity);
    let outcome = dispatch_scene_ready(&mut world, root, &descendants);
    assert_eq!(outcome, UpgradeOutcome::SinkUnavailable);
    for (k, &e) in descendants.iter().enumerate() {
        assert_eq!(world.node(e).surface, Some(SurfaceMaterial::Generic(k)));
    }
}

#[test]
fn link_to_entity_without_sink_is_skipped() {
    let (mut world, _store, _registry, _sink_entity, _derived) = setup(7);
    let bystander = world.spawn();
    let root = world.spawn();
    world.set_link(root, SceneLink { sink: bystander });
    let node = world.spawn();
    world.set_surface(node, SurfaceMaterial::Generic(0));

    let outcome = dispatch_scene_ready(&mut world, root, &vec![node]);
    assert_eq!(outcome, UpgradeOutcome::SinkUnavailable);
    assert_eq!(world.node(node).surface, Some(SurfaceMaterial::Generic(0)));
}

#[test]
fn two_scenes_share_one_derived_material() {
    let (mut world, _store, _registry, sink_entity, derived) = setup(7);
    let (root_a, descendants_a) = spawn_scene(&mut world, sink_entity, 2);
    let (root_b, descendants_b) = spawn_scene(&mut world, sink_entity, 4);

    dispatch_scene_ready(&mut world, root_a, &descendants_a);
    dispatch_scene_ready(&mut world, root_b, &descendants_b);

    for &e in descendants_a.iter().chain(descendants_b.iter()) {
        assert_eq!(world.node(e).surface, Some(SurfaceMaterial::Derived(derived)));
    }
}

#[test]
fn full_scenario() {
    // initialize the registry with base material B
    let mut store = MaterialStore::new();
    let base = store.add(Material { payload: 42 });
    let mut registry = PaletteRegistry::new();
    registry.initialize(base);
    let mut world = World::new();

    // construct sink S1: its derived material resolves to a clone of B
    let s1 = world.spawn();
    let d1 = attach_sink(&mut world, &mut store, &registry, s1);
    assert_eq!(store.get(d1), Some(Material { payload: 42 }));

    // construct sink S2: a distinct slot
    let s2 = world.spawn();
    let d2 = attach_sink(&mut world, &mut store, &registry, s2);
    assert_ne!(d2, d1);

    // a sub-scene with 3 generic nodes, linked to S1
    let (root, descendants) = spawn_scene(&mut world, s1, 3);
    let outcome = dispatch_scene_ready(&mut world, root, &descendants);
    assert_eq!(outcome, UpgradeOutcome::Upgraded { rewritten: 3 });
    for &e in &descendants {
        assert_eq!(world.node(e).surface, Some(SurfaceMaterial::Derived(d1)));
    }

    // a second sub-scene linked to S1 resolves to the same identifier
    let (root2, descendants2) = spawn_scene(&mut world, s1, 2);
    dispatch_scene_ready(&mut world, root2, &descendants2);
    for &e in &descendants2 {
        assert_eq!(world.node(e).surface, Some(SurfaceMaterial::Derived(d1)));
    }

    // destroy S1; a third scene linked to it is skipped untouched
    world.despawn(s1);
    let (root3, descendants3) = spawn_scene(&mut world, s1, 2);
    let outcome3 = dispatch_scene_ready(&mut world, root3, &descendants3);
    assert_eq!(outcome3, UpgradeOutcome::SinkUnavailable);
    for (k, &e) in descendants3.iter().enumerate() {
        assert_eq!(world.node(e).surface, Some(SurfaceMaterial::Generic(k)));
    }
}
