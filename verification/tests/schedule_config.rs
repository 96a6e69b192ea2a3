use lib::config::{
    IntoSystemConfigs, IntoSystemSetConfigs, NodeConfig, NodeConfigs, SystemConfigs,
    SystemSetConfig, SystemSetConfigs,
};
use lib::config_map::ConfigMapEntry;
use lib::graph::{
    new_condition, Ambiguity, BoxedSystem, Chain, Condition, DependencyKind, InternedSystemSet,
    System,
};

fn set(id: u64) -> InternedSystemSet {
    InternedSystemSet { id, system_type: None }
}

fn system(id: u64, sets: Vec<InternedSystemSet>) -> BoxedSystem {
    Box::new(System { id, default_sets: sets })
}

fn cond(id: u64) -> Condition {
    Condition { id, is_send: true }
}

fn leaves<'a, T, O>(c: &'a NodeConfigs<T, O>, out: &mut Vec<&'a NodeConfig<T, O>>) {
    match c {
        NodeConfigs::NodeConfig(n) => out.push(n),
        NodeConfigs::Configs { configs, .. } => {
            for child in configs {
                leaves(child, out);
            }
        },
    }
}

fn leaf_list<T, O>(c: &NodeConfigs<T, O>) -> Vec<&NodeConfig<T, O>> {
    let mut out = Vec::new();
    leaves(c, &mut out);
    out
}

fn ids(c: &SystemConfigs<u32>) -> Vec<u64> {
    leaf_list(c).iter().map(|n| n.node.id).collect()
}

fn conditions(n: &NodeConfig<BoxedSystem, u32>) -> Vec<u64> {
    n.conditions.iter().map(|c| c.id).collect()
}

fn collective(c: &SystemConfigs<u32>) -> Vec<u64> {
    match c {
        NodeConfigs::Configs { collective_conditions, .. } => collective_conditions.iter().map(|c| c.id).collect(),
        NodeConfigs::NodeConfig(_) => Vec::new(),
    }
}

fn pair() -> SystemConfigs<u32> {
    (system(1, vec![set(100)]), system(2, vec![])).into_configs()
}

#[test]
fn a_system_starts_in_its_default_sets() {
    let c: SystemConfigs<u32> = NodeConfigs::new_system(system(1, vec![set(10), set(11)]));
    let l = leaf_list(&c);
    assert_eq!(l.len(), 1);
    assert_eq!(l[0].graph_info.hierarchy, vec![set(10), set(11)]);
    assert!(l[0].graph_info.dependencies.is_empty());
    assert!(matches!(l[0].graph_info.ambiguous_with, Ambiguity::Check));
    assert!(l[0].conditions.is_empty());
    assert_eq!(l[0].config.len(), 0);
}

#[test]
fn a_tuple_becomes_a_collection_in_order() {
    let c: SystemConfigs<u32> = ((system(1, vec![]), system(2, vec![])), system(3, vec![])).into_configs();
    assert_eq!(ids(&c), vec![1, 2, 3]);
    match &c {
        NodeConfigs::Configs { configs, collective_conditions, chained } => {
            assert_eq!(configs.len(), 2);
            assert!(collective_conditions.is_empty());
            assert!(matches!(chained, Chain::Unchained));
        },
        NodeConfigs::NodeConfig(_) => panic!("expected a collection"),
    }
}

#[test]
fn in_set_adds_every_system_to_the_set() {
    let c = pair().in_set(set(7));
    let l = leaf_list(&c);
    assert_eq!(l[0].graph_info.hierarchy, vec![set(100), set(7)]);
    assert_eq!(l[1].graph_info.hierarchy, vec![set(7)]);
    let mut d = pair();
    d.in_set_inner(set(8));
    assert_eq!(leaf_list(&d)[1].graph_info.hierarchy, vec![set(8)]);
}

#[test]
fn before_and_after_add_dependencies_in_order() {
    let c = pair().before(set(5)).after(set(6));
    for n in leaf_list(&c) {
        let deps = &n.graph_info.dependencies;
        assert_eq!(deps.len(), 2);
        assert_eq!(deps[0].kind, DependencyKind::Before);
        assert_eq!(deps[0].set, set(5));
        assert_eq!(deps[1].kind, DependencyKind::After);
        assert_eq!(deps[1].set, set(6));
        assert_eq!(deps[0].options.len(), 0);
    }
}

#[test]
fn ambiguity_exceptions_accumulate_until_all_are_ignored() {
    let c = pair().ambiguous_with(set(1)).ambiguous_with(set(2));
    for n in leaf_list(&c) {
        match &n.graph_info.ambiguous_with {
            Ambiguity::IgnoreWithSet(sets) => assert_eq!(sets, &vec![set(1), set(2)]),
            _ => panic!("expected an exception list"),
        }
    }
    let c = c.ambiguous_with_all().ambiguous_with(set(3));
    for n in leaf_list(&c) {
        assert!(matches!(n.graph_info.ambiguous_with, Ambiguity::IgnoreAll));
    }
}

#[test]
fn run_if_on_a_collection_is_collective() {
    let c = pair().run_if(cond(4));
    assert_eq!(collective(&c), vec![4]);
    for n in leaf_list(&c) {
        assert!(n.conditions.is_empty());
    }
    let single: SystemConfigs<u32> = system(9, vec![]).into_configs();
    let single = single.run_if(cond(5));
    assert_eq!(conditions(leaf_list(&single)[0]), vec![5]);
    let mut d = pair();
    d.run_if_dyn(new_condition(cond(6)));
    assert_eq!(collective(&d), vec![6]);
}

#[test]
fn distributive_run_if_is_run_if_on_each_system() {
    let c = pair().distributive_run_if(cond(3));
    assert!(collective(&c).is_empty());
    let each: SystemConfigs<u32> = (
        system(1, vec![set(100)]).run_if(cond(3)),
        system(2, vec![]).run_if(cond(3)),
    ).into_configs();
    let a = leaf_list(&c);
    let b = leaf_list(&each);
    assert_eq!(a.len(), b.len());
    for i in 0..a.len() {
        assert_eq!(conditions(a[i]), conditions(b[i]));
        assert_eq!(conditions(a[i]), vec![3]);
        assert_eq!(a[i].node.id, b[i].node.id);
    }
    assert_eq!(collective(&c), collective(&each));
}

#[test]
fn chain_marks_a_collection_once() {
    let c = pair().chain();
    match &c {
        NodeConfigs::Configs { chained: Chain::Chained(options), .. } => assert_eq!(options.len(), 0),
        _ => panic!("expected a chained collection"),
    }
    let c = c.with_chain_option(1, 11).chain();
    match &c {
        NodeConfigs::Configs { chained: Chain::Chained(options), .. } => {
            assert_eq!(options.get(1), Some(&11));
            assert_eq!(options.len(), 1);
        },
        _ => panic!("expected a chained collection"),
    }
    let single: SystemConfigs<u32> = system(9, vec![]).into_configs();
    let single = single.chain().with_chain_option(1, 2);
    assert!(matches!(single, NodeConfigs::NodeConfig(_)));
}

#[test]
fn with_option_edits_every_node_entry() {
    let mut c = pair();
    if let NodeConfigs::Configs { configs, .. } = &mut c {
        if let NodeConfigs::NodeConfig(n) = &mut configs[0] {
            n.config.insert(3, 30);
        }
    }
    let c = c.with_option(3, |e: ConfigMapEntry<u32>| {
        e.or_insert(1);
    });
    let l = leaf_list(&c);
    assert_eq!(l[0].config.get(3), Some(&30));
    assert_eq!(l[1].config.get(3), Some(&1));
    let c = c.with_option(3, |e: ConfigMapEntry<u32>| {
        e.and_modify(|v| *v += 1);
    });
    let l = leaf_list(&c);
    assert_eq!(l[0].config.get(3), Some(&31));
    assert_eq!(l[1].config.get(3), Some(&2));
}

#[test]
fn with_dependency_option_edits_the_last_dependency() {
    let c = pair().after(set(4)).before(set(5)).with_dependency_option(2, |e: ConfigMapEntry<u32>| {
        e.or_insert(22);
    });
    for n in leaf_list(&c) {
        let deps = &n.graph_info.dependencies;
        assert_eq!(deps[0].options.len(), 0);
        assert_eq!(deps[1].options.get(2), Some(&22));
    }
}

#[test]
fn system_sets_are_configured_like_systems() {
    let c: SystemSetConfigs<u32> = (set(1), (set(2), set(3))).into_configs();
    let l = leaf_list(&c);
    let nodes: Vec<u64> = l.iter().map(|n| n.node.id).collect();
    assert_eq!(nodes, vec![1, 2, 3]);
    let c = c.in_set(set(9)).before(set(4)).chain();
    for n in leaf_list(&c) {
        assert_eq!(n.graph_info.hierarchy, vec![set(9)]);
        assert_eq!(n.graph_info.dependencies[0].set, set(4));
    }
    let one: SystemSetConfig<u32> = SystemSetConfig::new(set(5));
    assert!(one.graph_info.hierarchy.is_empty());
    let one: SystemSetConfigs<u32> = one.into_configs();
    let one = one.run_if(cond(1));
    assert_eq!(leaf_list(&one)[0].conditions.len(), 1);
}

#[test]
fn a_condition_is_boxed_as_it_is() {
    let b = new_condition(cond(12));
    assert_eq!(*b, cond(12));
}

#[test]
fn trait_methods_convert_first() {
    let c: SystemConfigs<u32> = system(1, vec![]).in_set(set(2));
    assert_eq!(leaf_list(&c)[0].graph_info.hierarchy, vec![set(2)]);
    let c: SystemSetConfigs<u32> = IntoSystemSetConfigs::<u32>::after(set(3), set(4));
    assert_eq!(leaf_list(&c)[0].graph_info.dependencies[0].kind, DependencyKind::After);
}

#[test]
fn configuring_keeps_the_nodes() {
    let c = pair()
        .in_set(set(1))
        .before(set(2))
        .after(set(3))
        .ambiguous_with(set(4))
        .distributive_run_if(cond(5))
        .with_option(6, |e: ConfigMapEntry<u32>| {
            e.or_insert(7);
        })
        .chain();
    assert_eq!(ids(&c), vec![1, 2]);
}

#[test]
fn with_chain_option_chains_an_unchained_collection() {
    let c = pair().with_chain_option(3, 33);
    match &c {
        NodeConfigs::Configs { chained: Chain::Chained(options), .. } => {
            assert_eq!(options.get(3), Some(&33));
            assert_eq!(options.len(), 1);
        },
        _ => panic!("expected a chained collection"),
    }
    let c: SystemConfigs<u32> = IntoSystemConfigs::with_chain_option(
        (system(1, vec![]), system(2, vec![])),
        4,
        44,
    );
    match &c {
        NodeConfigs::Configs { chained: Chain::Chained(options), .. } => assert_eq!(options.get(4), Some(&44)),
        _ => panic!("expected a chained collection"),
    }
}
