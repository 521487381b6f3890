use woodpecker::inspect::{
    component_order, hierarchy, listed_presence, locate_entity, query, resource_items,
    select_entities, validate_paths, EntityFacts, Metadata, Node, ResourceFacts,
};

const OPAQUE: u64 = 1;
const UNREGISTERED: u64 = 2;
const NAME: u64 = 3;
const RESOURCE: u64 = 4;

fn entity(entity: u64, index: u32, components: Vec<u64>) -> EntityFacts {
    EntityFacts { entity, index, generation: 0, resource: false, components, children: vec![] }
}

fn world() -> Vec<EntityFacts> {
    vec![
        EntityFacts {
            entity: 100,
            index: 0,
            generation: 0,
            resource: true,
            components: vec![RESOURCE],
            children: vec![],
        },
        entity(203, 3, vec![OPAQUE]),
        entity(201, 1, vec![NAME]),
        entity(202, 2, vec![OPAQUE, UNREGISTERED]),
    ]
}

fn ids(world: &[EntityFacts], positions: Vec<usize>) -> Vec<u64> {
    positions.into_iter().map(|p| world[p].entity).collect()
}

#[test]
fn summaries_filters_and_resource_isolation() {
    let world = world();
    let all = select_entities(&world, None, &vec![], &vec![]).unwrap();
    assert_eq!(ids(&world, all), vec![201, 202, 203]);
    let filtered = select_entities(&world, None, &vec![Some(OPAQUE)], &vec![]).unwrap();
    assert_eq!(ids(&world, filtered), vec![202, 203]);
    for (with, without, requested) in [
        (vec![Some(OPAQUE)], vec![Some(OPAQUE)], None),
        (vec![None], vec![], None),
        (vec![Some(OPAQUE)], vec![], Some((Some(201), "1v0".to_string()))),
    ] {
        assert!(select_entities(&world, requested, &with, &without).unwrap().is_empty());
    }
    let excluded = select_entities(&world, None, &vec![], &vec![Some(OPAQUE)]).unwrap();
    assert_eq!(ids(&world, excluded), vec![201]);
    let error = select_entities(&world, Some((Some(100), "0v0".into())), &vec![], &vec![]).unwrap_err();
    assert_eq!((error.code.as_str(), error.message.as_str()), ("entity_not_found", "0v0"));
}

#[test]
fn validates_all_paths_before_resolving_handles_or_filtering() {
    let world = world();
    for requested in [Some((None, "7v1".to_string())), Some((Some(999), "4294967295v0".to_string()))] {
        let error = select_entities(&world, requested, &vec![], &vec![]).unwrap_err();
        assert_eq!(error.code, "entity_not_found");
    }
    let paths = vec![Ok(Some(OPAQUE)), Err("Opaque".to_string()), Err("Other".to_string())];
    let error = validate_paths(&paths).unwrap_err();
    assert_eq!((error.code.as_str(), error.message.as_str()), ("unknown_type_path", "Opaque"));
    assert!(validate_paths(&vec![Ok(None), Ok(Some(NAME))]).is_ok());
}

#[test]
fn handles_order_by_index_then_generation() {
    let mut later = entity(300, 1, vec![]);
    later.generation = 2;
    let earlier = entity(301, 1, vec![]);
    let world = vec![later, earlier, entity(302, 0, vec![])];
    let order = select_entities(&world, None, &vec![], &vec![]).unwrap();
    assert_eq!(ids(&world, order), vec![302, 301, 300]);
}

#[test]
fn query_checks_with_then_without_then_listed_paths_first() {
    let world = world();
    let missing = Some((None, "7v1".to_string()));
    let cases = [
        (vec![Err("A".to_string())], vec![Err("B".to_string())], vec![], "A"),
        (vec![Ok(Some(OPAQUE))], vec![Err("B".to_string())], vec![Err("C".to_string())], "B"),
        (vec![], vec![Ok(None)], vec![Ok(Some(NAME)), Err("C".to_string())], "C"),
    ];
    for (with, without, listed, unknown) in cases {
        let error = query(&world, missing.clone(), &with, &without, &listed).unwrap_err();
        assert_eq!((error.code.as_str(), error.message.as_str()), ("unknown_type_path", unknown));
    }
    let error = query(&world, missing, &vec![], &vec![], &vec![Ok(Some(NAME))]).unwrap_err();
    assert_eq!((error.code.as_str(), error.message.as_str()), ("entity_not_found", "7v1"));
    let selected = query(&world, None, &vec![Ok(Some(OPAQUE))], &vec![Ok(Some(UNREGISTERED))], &vec![])
        .unwrap();
    assert_eq!(ids(&world, selected), vec![203]);
}

fn parent(entity: u64, children: Vec<u64>) -> EntityFacts {
    EntityFacts { entity, index: entity as u32, generation: 0, resource: false, components: vec![], children }
}

fn shape(world: &[EntityFacts], node: &Node) -> String {
    let inner: Vec<String> = node.children.iter().map(|c| shape(world, c)).collect();
    format!("{}[{}]", world[node.position].entity, inner.join(","))
}

#[test]
fn hierarchy_keeps_child_order_skips_resources_and_stops_at_depth() {
    let mut world = vec![
        parent(1, vec![3, 100, 2, 99]),
        parent(2, vec![4]),
        parent(3, vec![]),
        parent(4, vec![1]),
    ];
    world.push(EntityFacts {
        entity: 100,
        index: 100,
        generation: 0,
        resource: true,
        components: vec![],
        children: vec![],
    });
    assert_eq!(locate_entity(&world, 4), Some(3));
    assert_eq!(locate_entity(&world, 99), None);
    assert_eq!(shape(&world, &hierarchy(&world, 0, 0)), "1[]");
    assert_eq!(shape(&world, &hierarchy(&world, 0, 1)), "1[3[],2[]]");
    assert_eq!(shape(&world, &hierarchy(&world, 0, 3)), "1[3[],2[4[1[]]]]");
}

fn metadata(name: &str, type_path: Option<&str>) -> Metadata {
    Metadata { name: name.to_string(), type_path: type_path.map(str::to_string) }
}

#[test]
fn components_order_by_type_path_or_name_then_name_keeping_ties() {
    let components = vec![
        metadata("Zeta", Some("game::Zeta")),
        metadata("bevy::Unregistered", None),
        metadata("Alpha", Some("game::Alpha")),
        metadata("Beta", Some("game::Alpha")),
        metadata("Alpha", Some("game::Alpha")),
        metadata("Ünicode", Some("game::Ü")),
    ];
    assert_eq!(component_order(&components), vec![1, 2, 4, 3, 0, 5]);
    assert!(component_order(&vec![]).is_empty());
}

#[test]
fn listed_components_keep_order_and_repeats() {
    let world = world();
    let presence = listed_presence(&world[3], &vec![None, Some(OPAQUE), Some(NAME), Some(OPAQUE)]);
    assert_eq!(presence, vec![false, true, false, true]);
}

fn resource(type_path: &str, present: bool) -> ResourceFacts {
    ResourceFacts { type_path: type_path.to_string(), present }
}

#[test]
fn resources_order_by_type_path_and_skip_missing_ones_unless_a_value_is_named() {
    let candidates = vec![
        resource("game::Zeta", true),
        resource("game::Alpha", false),
        resource("bevy::Time", true),
        resource("game::Alpha", true),
    ];
    assert_eq!(resource_items(&candidates, true, false), vec![2, 3, 0]);
    assert_eq!(resource_items(&candidates, false, true), vec![2, 3, 0]);
    assert_eq!(resource_items(&candidates, false, false), vec![2, 1, 3, 0]);
}

fn render(world: &[EntityFacts], node: &Node, names: &dyn Fn(usize) -> &'static str) -> String {
    let inner: Vec<String> = node.children.iter().map(|c| render(world, c, names)).collect();
    format!("{}:{}[{}]", world[node.position].entity, names(node.position), inner.join(","))
}

#[test]
fn hierarchy_depth_counts_edges_and_preserves_children_order() {
    let (root, first, second, grandchild) = (10u64, 11u64, 12u64, 13u64);
    let world = vec![
        EntityFacts {
            entity: root,
            index: 10,
            generation: 0,
            resource: false,
            components: vec![NAME],
            children: vec![second, first],
        },
        EntityFacts {
            entity: first,
            index: 11,
            generation: 0,
            resource: false,
            components: vec![],
            children: vec![grandchild],
        },
        EntityFacts {
            entity: second,
            index: 12,
            generation: 0,
            resource: false,
            components: vec![NAME],
            children: vec![],
        },
        entity(grandchild, 13, vec![]),
    ];
    let names = |position: usize| match world[position].entity {
        10 => "root",
        12 => "second",
        _ => "",
    };
    for (depth, expected) in [
        (0u8, "10:root[]"),
        (1, "10:root[12:second[],11:[]]"),
        (2, "10:root[12:second[],11:[13:[]]]"),
    ] {
        assert_eq!(render(&world, &hierarchy(&world, 0, depth), &names), expected);
    }
    // Component filters select roots, not the descendants of each selected root.
    let selected = query(
        &world,
        Some((Some(root), "10v0".to_string())),
        &vec![Ok(Some(NAME))],
        &vec![],
        &vec![],
    )
    .unwrap();
    assert_eq!(selected, vec![0]);
    let tree = hierarchy(&world, selected[0], 255);
    assert_eq!(world[tree.children[1].position].entity, first);
}
