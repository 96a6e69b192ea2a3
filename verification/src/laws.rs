//! Properties that hold across the operations of the library.
use vstd::prelude::*;
use crate::config_view::{
    leaf_ambiguous_with, leaf_ambiguous_with_all, leaf_in_set, leaf_last_dependency_is,
    leaf_run_if, leaf_with_dependency, leaf_without_config, leaf_without_last_dependency_options, map_leaves_each, NodeConfigView,
    NodeConfigsView,
};
use crate::config_map::{lemma_view_finite, ConfigMap};
use crate::graph::{
    AmbiguityView, ChainView, Condition, DependencyKind, DependencyView, InternedSystemSet,
};

verus! {

/// What a read gives back of a write: after `insert(key, value)` on a config map,
/// `get(key)` finds `value`, every other key reads as before, and the number of keys
/// grows by one exactly when `key` was absent.
pub proof fn law_get_after_insert<V>(m: &ConfigMap<V>, key: u64, value: V, other: u64)
    ensures
        m@.insert(key, value).contains_key(key),
        m@.insert(key, value)[key] == value,
        other != key ==> (m@.insert(key, value).contains_key(other) == m@.contains_key(other)),
        other != key && m@.contains_key(other) ==> m@.insert(key, value)[other] == m@[other],
        m@.insert(key, value).len() == (if m@.contains_key(key) { m@.len() } else { m@.len() + 1 }),
{
    lemma_view_finite(m);
}

/// A config map holds a single value per key: a second insert under the same key
/// replaces the first, and the number of keys does not grow.
pub proof fn law_insert_replaces<V>(m: &ConfigMap<V>, key: u64, first: V, second: V)
    ensures
        m@.insert(key, first).insert(key, second) == m@.insert(key, second),
        m@.insert(key, first).insert(key, second).len() == m@.insert(key, first).len(),
{
    lemma_view_finite(m);
    assert(m@.insert(key, first).insert(key, second) =~= m@.insert(key, second));
}

/// Taking a value back after inserting it into a config map gives that value, and
/// leaves the map without the key, as it would be had the key been taken before the
/// insert, with one key fewer than after the insert.
pub proof fn law_take_after_insert<V>(m: &ConfigMap<V>, key: u64, value: V)
    ensures
        m@.insert(key, value).contains_key(key),
        m@.insert(key, value)[key] == value,
        m@.insert(key, value).remove(key) == m@.remove(key),
        !m@.insert(key, value).remove(key).contains_key(key),
        m@.insert(key, value).remove(key).len() == m@.insert(key, value).len() - 1,
{
    lemma_view_finite(m);
    assert(m@.insert(key, value).remove(key) =~= m@.remove(key));
}

/// A property of every node is kept through a change of every node that keeps it.
pub proof fn lemma_all_leaves_map_leaves<T, O>(
    v: NodeConfigsView<T, O>,
    f: spec_fn(NodeConfigView<T, O>) -> NodeConfigView<T, O>,
    p: spec_fn(NodeConfigView<T, O>) -> bool,
)
    requires
        forall|c: NodeConfigView<T, O>| #[trigger] p(f(c)),
    ensures
        v.map_leaves(f).all_leaves(p),
    decreases v,
{
    match v {
        NodeConfigsView::NodeConfig(c) => {},
        NodeConfigsView::Configs { configs, .. } => {
            let mapped = map_leaves_each(configs, f);
            assert forall|j: int| 0 <= j < mapped.len() implies (#[trigger] mapped[j]).all_leaves(p) by {
                lemma_all_leaves_map_leaves(configs[j], f, p);
            }
        },
    }
}

/// After `before(set)` (or `after(set)`), the last dependency of every node is on
/// `set`, of that kind: `with_dependency_option` may follow.
pub proof fn law_dependency_option_after_ordering<T, O>(
    v: NodeConfigsView<T, O>,
    kind: DependencyKind,
    set: InternedSystemSet,
)
    ensures
        v.map_leaves(leaf_with_dependency(kind, set)).all_leaves(leaf_last_dependency_is(set, kind)),
{
    lemma_all_leaves_map_leaves(v, leaf_with_dependency(kind, set), leaf_last_dependency_is(set, kind));
}

/// After `chain()`, the collection counts as chained, so the option setting of
/// system sets, which must follow `chain()`, may be called.
pub proof fn law_chain_option_after_chain<T, O>(v: NodeConfigsView<T, O>)
    ensures
        v.chained().chain_option_allowed(),
{
}

/// On a collection that is already chained, or a single node, chaining changes
/// nothing: there `with_chain_option` only stores the option.
pub proof fn law_chain_keeps_a_chained_collection<T, O>(v: NodeConfigsView<T, O>, key: u64, option: O)
    requires
        v.chain_option_allowed(),
    ensures
        v.chained() == v,
        v.chained().with_chain_option(key, option) == v.with_chain_option(key, option),
{
}

/// Chaining twice is chaining once: the edge options of the first chain are kept.
pub proof fn law_chain_idempotent<T, O>(v: NodeConfigsView<T, O>)
    ensures
        v.chained().chained() == v.chained(),
{
}

/// Adding a run condition to each element of a tuple of single nodes is adding it to
/// each element by `run_if`: `(a, b).distributive_run_if(c)` configures the same as
/// `(a.run_if(c), b.run_if(c))`.
pub proof fn law_distributive_run_if_is_run_if_on_each<T, O>(
    configs: Seq<NodeConfigsView<T, O>>,
    collective_conditions: Seq<Condition>,
    chained: ChainView<O>,
    condition: Condition,
)
    requires
        forall|j: int| 0 <= j < configs.len() ==> (#[trigger] configs[j]) is NodeConfig,
    ensures
        (NodeConfigsView::Configs { configs, collective_conditions, chained }).map_leaves(leaf_run_if(condition))
            == (NodeConfigsView::Configs {
                configs: configs.map_values(|c: NodeConfigsView<T, O>| c.with_run_if(condition)),
                collective_conditions,
                chained,
            }),
{
    let lhs = map_leaves_each(configs, leaf_run_if(condition));
    let rhs = configs.map_values(|c: NodeConfigsView<T, O>| c.with_run_if(condition));
    assert(lhs =~= rhs);
}

/// Ignoring every ambiguity absorbs any later exception for a set.
pub proof fn law_ambiguous_with_all_absorbs<T, O>(v: NodeConfigsView<T, O>, set: InternedSystemSet)
    ensures
        v.map_leaves(leaf_ambiguous_with_all()).map_leaves(leaf_ambiguous_with(set))
            == v.map_leaves(leaf_ambiguous_with_all()),
    decreases v,
{
    match v {
        NodeConfigsView::NodeConfig(c) => {},
        NodeConfigsView::Configs { configs, collective_conditions, chained } => {
            let once = map_leaves_each(configs, leaf_ambiguous_with_all());
            let twice = map_leaves_each(once, leaf_ambiguous_with(set));
            assert forall|j: int| 0 <= j < configs.len() implies twice[j] == once[j] by {
                law_ambiguous_with_all_absorbs(configs[j], set);
            }
            assert(twice =~= once);
        },
    }
}

/// Ignoring ambiguities with two sets in turn, from a node that reports every
/// ambiguity, ignores them with both sets, in that order.
pub proof fn law_ambiguous_with_accumulates<T, O>(c: NodeConfigView<T, O>, a: InternedSystemSet, b: InternedSystemSet)
    requires
        c.graph_info.ambiguous_with == AmbiguityView::Check,
    ensures
        (leaf_ambiguous_with(b))((leaf_ambiguous_with(a))(c)).graph_info.ambiguous_with
            == AmbiguityView::IgnoreWithSet(seq![a, b]),
{
    assert(seq![a].push(b) =~= seq![a, b]);
}

/// Adding the nodes to a set keeps their number and makes every one of them a
/// member of the set, most recently added.
pub proof fn law_in_set_adds_every_node<T, O>(v: NodeConfigsView<T, O>, set: InternedSystemSet)
    ensures
        v.map_leaves(leaf_in_set(set)).leaves().len() == v.leaves().len(),
        forall|k: int| 0 <= k < v.leaves().len() ==> {
            &&& (#[trigger] v.map_leaves(leaf_in_set(set)).leaves()[k]).graph_info.hierarchy.last() == set
            &&& v.map_leaves(leaf_in_set(set)).leaves()[k].graph_info.hierarchy.contains(set)
            &&& v.map_leaves(leaf_in_set(set)).leaves()[k].node == v.leaves()[k].node
        },
{
    crate::config_view::lemma_leaves_map_leaves(v, leaf_in_set(set));
    assert forall|k: int| 0 <= k < v.leaves().len() implies
        (#[trigger] v.map_leaves(leaf_in_set(set)).leaves()[k]).graph_info.hierarchy.contains(set) by {
        let h = v.map_leaves(leaf_in_set(set)).leaves()[k].graph_info.hierarchy;
        assert(h[h.len() - 1] == set);
    }
}

/// Every change that is made node by node keeps the number of nodes.
pub proof fn law_node_changes_keep_node_count<T, O>(
    v: NodeConfigsView<T, O>,
    f: spec_fn(NodeConfigView<T, O>) -> NodeConfigView<T, O>,
)
    ensures
        v.map_leaves(f).leaves().len() == v.leaves().len(),
{
    crate::config_view::lemma_leaves_map_leaves(v, f);
}

/// `run_if` appends: on a single node the condition is added after the node's
/// existing conditions, which are all kept, and nothing else changes; on a
/// collection it is added after the existing collective conditions, and the
/// elements and the chaining are unchanged.
pub proof fn law_run_if_appends<T, O>(v: NodeConfigsView<T, O>, condition: Condition)
    ensures
        v is NodeConfig ==> {
            let old_c = v->NodeConfig_0;
            let new_v = v.with_run_if(condition);
            &&& new_v is NodeConfig
            &&& new_v->NodeConfig_0.node == old_c.node
            &&& new_v->NodeConfig_0.config == old_c.config
            &&& new_v->NodeConfig_0.graph_info == old_c.graph_info
            &&& new_v->NodeConfig_0.conditions.len() == old_c.conditions.len() + 1
            &&& forall|i: int| 0 <= i < old_c.conditions.len() ==>
                #[trigger] new_v->NodeConfig_0.conditions[i] == old_c.conditions[i]
            &&& new_v->NodeConfig_0.conditions[old_c.conditions.len() as int] == condition
        },
        v is Configs ==> {
            let new_v = v.with_run_if(condition);
            &&& new_v is Configs
            &&& new_v->configs == v->configs
            &&& new_v->chained == v->chained
            &&& new_v->collective_conditions.len() == v->collective_conditions.len() + 1
            &&& forall|i: int| 0 <= i < v->collective_conditions.len() ==>
                #[trigger] new_v->collective_conditions[i] == v->collective_conditions[i]
            &&& new_v->collective_conditions[v->collective_conditions.len() as int] == condition
        },
{
}

/// Two `run_if` calls keep both conditions, in call order.
pub proof fn law_run_if_twice_keeps_both<T, O>(v: NodeConfigsView<T, O>, first: Condition, second: Condition)
    requires
        v is Configs,
    ensures
        v.with_run_if(first).with_run_if(second)->collective_conditions.len()
            == v->collective_conditions.len() + 2,
        v.with_run_if(first).with_run_if(second)->collective_conditions[v->collective_conditions.len() as int] == first,
        v.with_run_if(first).with_run_if(second)->collective_conditions[v->collective_conditions.len() + 1int] == second,
{
    law_run_if_appends(v, first);
    law_run_if_appends(v.with_run_if(first), second);
}

/// `distributive_run_if` appends the condition to every node: the nodes are the
/// same in number and order, each keeps its node, options, graph metadata and
/// existing conditions, and gets the condition after them. A collection's own
/// collective conditions and chaining are unchanged.
pub proof fn law_distributive_run_if_appends_to_every_node<T, O>(v: NodeConfigsView<T, O>, condition: Condition)
    ensures
        v.map_leaves(leaf_run_if(condition)).leaves().len() == v.leaves().len(),
        forall|k: int| #![trigger v.map_leaves(leaf_run_if(condition)).leaves()[k]] 0 <= k < v.leaves().len() ==> {
            let o = v.leaves()[k];
            let n = v.map_leaves(leaf_run_if(condition)).leaves()[k];
            &&& n.node == o.node
            &&& n.config == o.config
            &&& n.graph_info == o.graph_info
            &&& n.conditions.len() == o.conditions.len() + 1
            &&& (forall|i: int| 0 <= i < o.conditions.len() ==> #[trigger] n.conditions[i] == o.conditions[i])
            &&& n.conditions[o.conditions.len() as int] == condition
        },
        v is Configs ==> v.map_leaves(leaf_run_if(condition))->collective_conditions == v->collective_conditions
            && v.map_leaves(leaf_run_if(condition))->chained == v->chained,
{
    crate::config_view::lemma_leaves_map_leaves(v, leaf_run_if(condition));
}

/// `in_set`, `before`/`after` and `ambiguous_with` on every node append to the
/// node's own list and keep everything else: the hierarchy gets the set after the
/// existing sets; the dependencies get one of the given kind on the set, with no
/// edge options, after the existing ones; an ambiguity exception list gets the set
/// after the existing sets.
pub proof fn law_node_changes_append<T, O>(
    v: NodeConfigsView<T, O>,
    set: InternedSystemSet,
    kind: DependencyKind,
)
    ensures
        forall|k: int| #![trigger v.map_leaves(leaf_in_set(set)).leaves()[k]] 0 <= k < v.leaves().len() ==> {
            let o = v.leaves()[k];
            let n = v.map_leaves(leaf_in_set(set)).leaves()[k];
            &&& n.node == o.node && n.config == o.config && n.conditions == o.conditions
            &&& n.graph_info.dependencies == o.graph_info.dependencies
            &&& n.graph_info.ambiguous_with == o.graph_info.ambiguous_with
            &&& n.graph_info.hierarchy.len() == o.graph_info.hierarchy.len() + 1
            &&& (forall|i: int| 0 <= i < o.graph_info.hierarchy.len() ==> #[trigger] n.graph_info.hierarchy[i] == o.graph_info.hierarchy[i])
            &&& n.graph_info.hierarchy[o.graph_info.hierarchy.len() as int] == set
        },
        forall|k: int| #![trigger v.map_leaves(leaf_with_dependency(kind, set)).leaves()[k]] 0 <= k < v.leaves().len() ==> {
            let o = v.leaves()[k];
            let n = v.map_leaves(leaf_with_dependency(kind, set)).leaves()[k];
            &&& n.node == o.node && n.config == o.config && n.conditions == o.conditions
            &&& n.graph_info.hierarchy == o.graph_info.hierarchy
            &&& n.graph_info.ambiguous_with == o.graph_info.ambiguous_with
            &&& n.graph_info.dependencies.len() == o.graph_info.dependencies.len() + 1
            &&& (forall|i: int| 0 <= i < o.graph_info.dependencies.len() ==> #[trigger] n.graph_info.dependencies[i] == o.graph_info.dependencies[i])
            &&& n.graph_info.dependencies[o.graph_info.dependencies.len() as int].kind == kind
            &&& n.graph_info.dependencies[o.graph_info.dependencies.len() as int].set == set
            &&& n.graph_info.dependencies[o.graph_info.dependencies.len() as int].options.dom().is_empty()
        },
        forall|k: int| #![trigger v.map_leaves(leaf_ambiguous_with(set)).leaves()[k]] 0 <= k < v.leaves().len() ==> {
            let o = v.leaves()[k];
            let n = v.map_leaves(leaf_ambiguous_with(set)).leaves()[k];
            &&& n.node == o.node && n.config == o.config && n.conditions == o.conditions
            &&& n.graph_info.hierarchy == o.graph_info.hierarchy
            &&& n.graph_info.dependencies == o.graph_info.dependencies
            &&& (o.graph_info.ambiguous_with is IgnoreAll ==> n.graph_info.ambiguous_with is IgnoreAll)
            &&& (o.graph_info.ambiguous_with is Check ==> n.graph_info.ambiguous_with == AmbiguityView::IgnoreWithSet(seq![set]))
            &&& (o.graph_info.ambiguous_with matches AmbiguityView::IgnoreWithSet(sets) ==> {
                &&& n.graph_info.ambiguous_with is IgnoreWithSet
                &&& n.graph_info.ambiguous_with->IgnoreWithSet_0.len() == sets.len() + 1
                &&& (forall|i: int| 0 <= i < sets.len() ==> #[trigger] n.graph_info.ambiguous_with->IgnoreWithSet_0[i] == sets[i])
                &&& n.graph_info.ambiguous_with->IgnoreWithSet_0[sets.len() as int] == set
            })
        },
{
    crate::config_view::lemma_leaves_map_leaves(v, leaf_in_set(set));
    crate::config_view::lemma_leaves_map_leaves(v, leaf_with_dependency(kind, set));
    crate::config_view::lemma_leaves_map_leaves(v, leaf_ambiguous_with(set));
}

/// `with_chain_option` stores the option under its key and keeps every other edge
/// option: on a collection the result is chained, its options hold `option` under
/// `key`, and any other key is held exactly when it was held before, with the same
/// value (none were held by an unchained collection). The elements and collective
/// conditions are unchanged, and a single node is left as it is.
pub proof fn law_with_chain_option_keeps_other_options<T, O>(v: NodeConfigsView<T, O>, key: u64, option: O)
    ensures
        v is NodeConfig ==> v.chained().with_chain_option(key, option) == v,
        v is Configs ==> {
            let r = v.chained().with_chain_option(key, option);
            &&& r is Configs
            &&& r->configs == v->configs
            &&& r->collective_conditions == v->collective_conditions
            &&& r->chained is Chained
            &&& r->chained->Chained_0.contains_key(key)
            &&& r->chained->Chained_0[key] == option
            &&& forall|other: u64| other != key ==> {
                &&& (#[trigger] r->chained->Chained_0.contains_key(other)) == match v->chained {
                    ChainView::Chained(m) => m.contains_key(other),
                    ChainView::Unchained => false,
                }
                &&& match v->chained {
                    ChainView::Chained(m) => m.contains_key(other) ==> r->chained->Chained_0[other] == m[other],
                    ChainView::Unchained => true,
                }
            }
        },
{
}

/// Two `with_chain_option` calls under different keys keep both options.
pub proof fn law_with_chain_option_twice_keeps_both<T, O>(v: NodeConfigsView<T, O>, k1: u64, o1: O, k2: u64, o2: O)
    requires
        v is Configs,
        k1 != k2,
    ensures
        v.chained().with_chain_option(k1, o1).chained().with_chain_option(k2, o2)->chained->Chained_0[k1] == o1,
        v.chained().with_chain_option(k1, o1).chained().with_chain_option(k2, o2)->chained->Chained_0[k2] == o2,
        v.chained().with_chain_option(k1, o1).chained().with_chain_option(k2, o2)->chained->Chained_0.contains_key(k1),
{
    law_with_chain_option_keeps_other_options(v, k1, o1);
    law_with_chain_option_keeps_other_options(v.chained().with_chain_option(k1, o1), k2, o2);
}

/// Chaining an unchained collection starts with no edge options; elements and
/// collective conditions are unchanged.
pub proof fn law_chain_starts_without_options<T, O>(v: NodeConfigsView<T, O>)
    requires
        v is Configs,
        v->chained is Unchained,
    ensures
        v.chained() is Configs,
        v.chained()->configs == v->configs,
        v.chained()->collective_conditions == v->collective_conditions,
        v.chained()->chained is Chained,
        v.chained()->chained->Chained_0.dom().is_empty(),
{
}

/// `with_option` and `with_dependency_option` leave everything but the options they
/// edit as it was: comparing nodes with their options cleared compares their node,
/// metadata and conditions, and, for the last dependency's options, every other
/// dependency and the last one's kind and set.
pub proof fn law_option_masks_keep_the_rest<T, O>(c: NodeConfigView<T, O>, d: NodeConfigView<T, O>)
    ensures
        (leaf_without_config())(c) == (leaf_without_config())(d) ==> {
            &&& c.node == d.node
            &&& c.graph_info == d.graph_info
            &&& c.conditions == d.conditions
        },
        (leaf_without_last_dependency_options())(c) == (leaf_without_last_dependency_options())(d) ==> {
            let cd = c.graph_info.dependencies;
            let dd = d.graph_info.dependencies;
            &&& c.node == d.node
            &&& c.config == d.config
            &&& c.conditions == d.conditions
            &&& c.graph_info.hierarchy == d.graph_info.hierarchy
            &&& c.graph_info.ambiguous_with == d.graph_info.ambiguous_with
            &&& cd.len() == dd.len()
            &&& (forall|i: int| 0 <= i < cd.len() - 1 ==> #[trigger] cd[i] == dd[i])
            &&& (cd.len() > 0 ==> cd.last().kind == dd.last().kind && cd.last().set == dd.last().set)
        },
{
    let mc = (leaf_without_last_dependency_options())(c);
    let md = (leaf_without_last_dependency_options())(d);
    let cd = c.graph_info.dependencies;
    let dd = d.graph_info.dependencies;
    let cu = if cd.len() > 0 { cd.update(cd.len() - 1, DependencyView { options: Map::empty(), ..cd.last() }) } else { cd };
    let du = if dd.len() > 0 { dd.update(dd.len() - 1, DependencyView { options: Map::empty(), ..dd.last() }) } else { dd };
    assert(mc.graph_info.dependencies == cu);
    assert(md.graph_info.dependencies == du);
    if mc == md {
        assert(cu == du);
        assert(cu.len() == cd.len());
        assert(du.len() == dd.len());
        assert forall|i: int| 0 <= i < cd.len() - 1 implies #[trigger] cd[i] == dd[i] by {
            assert(cu[i] == du[i]);
        }
        if cd.len() > 0 {
            assert(cu[cd.len() - 1] == du[dd.len() - 1]);
        }
    }
}

} // verus!
