//! The mathematical values of configurations: node configurations and trees of
//! them, with the changes that configuration makes to every node of a tree, and
//! lemmas about walking the nodes of a tree.
use vstd::prelude::*;
use crate::graph::{
    ambiguity_with_set, empty_graph_info, AmbiguityView, BoxedCondition, BoxedSystem,
    ChainView, Condition, DependencyKind, DependencyView, GraphInfoView, InternedSystemSet,
};

verus! {
/// The mathematical value of a [`NodeConfig`].
pub struct NodeConfigView<T, O> {
    pub node: T,
    pub config: Map<u64, O>,
    pub graph_info: GraphInfoView<O>,
    pub conditions: Seq<Condition>,
}

/// The mathematical value of a [`NodeConfigs`]: a tree whose leaves are node
/// configurations.
pub enum NodeConfigsView<T, O> {
    NodeConfig(NodeConfigView<T, O>),
    Configs {
        configs: Seq<NodeConfigsView<T, O>>,
        collective_conditions: Seq<Condition>,
        chained: ChainView<O>,
    },
}

/// The conditions held in a vector of boxed conditions.
pub open spec fn conditions_view(v: Seq<BoxedCondition>) -> Seq<Condition> {
    v.map_values(|b: BoxedCondition| *b)
}

/// The leaves of a sequence of configuration trees, left to right.
pub open spec fn leaves_of<T, O>(cs: Seq<NodeConfigsView<T, O>>) -> Seq<NodeConfigView<T, O>>
    decreases cs,
{
    if cs.len() == 0 {
        Seq::empty()
    } else {
        leaves_of(cs.drop_last()) + cs.last().leaves()
    }
}

/// Each tree of `cs` with `f` applied to its node configurations.
pub open spec fn map_leaves_each<T, O>(
    cs: Seq<NodeConfigsView<T, O>>,
    f: spec_fn(NodeConfigView<T, O>) -> NodeConfigView<T, O>,
) -> Seq<NodeConfigsView<T, O>>
    decreases cs,
{
    Seq::new(cs.len(), |i: int| if 0 <= i < cs.len() { cs[i].map_leaves(f) } else { arbitrary() })
}

impl<T, O> NodeConfigsView<T, O> {
    /// The node configurations of the tree, left to right.
    pub open spec fn leaves(self) -> Seq<NodeConfigView<T, O>>
        decreases self,
    {
        match self {
            NodeConfigsView::NodeConfig(c) => seq![c],
            NodeConfigsView::Configs { configs, .. } => leaves_of(configs),
        }
    }

    /// The tree with a run condition added: to the node itself, or to the collective
    /// conditions of a collection.
    pub open spec fn with_run_if(self, condition: Condition) -> NodeConfigsView<T, O> {
        match self {
            NodeConfigsView::NodeConfig(c) => NodeConfigsView::NodeConfig(
                NodeConfigView { conditions: c.conditions.push(condition), ..c },
            ),
            NodeConfigsView::Configs { configs, collective_conditions, chained } => NodeConfigsView::Configs {
                configs,
                collective_conditions: collective_conditions.push(condition),
                chained,
            },
        }
    }

    /// The tree with a collection marked as chained (with no edge options) unless it
    /// already is; a single node is unchanged.
    pub open spec fn chained(self) -> NodeConfigsView<T, O> {
        match self {
            NodeConfigsView::NodeConfig(c) => self,
            NodeConfigsView::Configs { configs, collective_conditions, chained } => NodeConfigsView::Configs {
                configs,
                collective_conditions,
                chained: match chained {
                    ChainView::Unchained => ChainView::Chained(Map::empty()),
                    ChainView::Chained(options) => ChainView::Chained(options),
                },
            },
        }
    }

    /// Edge options can be set on a single node (where they are ignored) or on a
    /// chained collection.
    pub open spec fn chain_option_allowed(self) -> bool {
        self is Configs ==> self->chained is Chained
    }

    /// The tree with `option` stored under `key` in the edge options of a chained
    /// collection; a single node is unchanged.
    pub open spec fn with_chain_option(self, key: u64, option: O) -> NodeConfigsView<T, O> {
        match self {
            NodeConfigsView::Configs { configs, collective_conditions, chained: ChainView::Chained(options) } => NodeConfigsView::Configs {
                configs,
                collective_conditions,
                chained: ChainView::Chained(options.insert(key, option)),
            },
            _ => self,
        }
    }

    /// Whether `p` holds of every node configuration of the tree.
    pub open spec fn all_leaves(self, p: spec_fn(NodeConfigView<T, O>) -> bool) -> bool
        decreases self,
    {
        match self {
            NodeConfigsView::NodeConfig(c) => p(c),
            NodeConfigsView::Configs { configs, .. } => forall|j: int|
                0 <= j < configs.len() ==> (#[trigger] configs[j]).all_leaves(p),
        }
    }

    /// The tree with `f` applied to every node configuration.
    pub open spec fn map_leaves(
        self,
        f: spec_fn(NodeConfigView<T, O>) -> NodeConfigView<T, O>,
    ) -> NodeConfigsView<T, O>
        decreases self,
    {
        match self {
            NodeConfigsView::NodeConfig(c) => NodeConfigsView::NodeConfig(f(c)),
            NodeConfigsView::Configs { configs, collective_conditions, chained } => {
                NodeConfigsView::Configs {
                    configs: map_leaves_each(configs, f),
                    collective_conditions,
                    chained,
                }
            },
        }
    }
}

/// A node configuration that also belongs to `set`.
pub open spec fn leaf_in_set<T, O>(set: InternedSystemSet) -> spec_fn(NodeConfigView<T, O>) -> NodeConfigView<T, O> {
    |c: NodeConfigView<T, O>|
        NodeConfigView {
            graph_info: GraphInfoView { hierarchy: c.graph_info.hierarchy.push(set), ..c.graph_info },
            ..c
        }
}

/// A node configuration with one more dependency, of kind `kind` on `set`, with no
/// edge options.
pub open spec fn leaf_with_dependency<T, O>(kind: DependencyKind, set: InternedSystemSet) -> spec_fn(NodeConfigView<T, O>) -> NodeConfigView<T, O> {
    |c: NodeConfigView<T, O>|
        NodeConfigView {
            graph_info: GraphInfoView {
                dependencies: c.graph_info.dependencies.push(
                    DependencyView { kind, set, options: Map::empty() },
                ),
                ..c.graph_info
            },
            ..c
        }
}

/// A node configuration that ignores ambiguities with `set` as well.
pub open spec fn leaf_ambiguous_with<T, O>(set: InternedSystemSet) -> spec_fn(NodeConfigView<T, O>) -> NodeConfigView<T, O> {
    |c: NodeConfigView<T, O>|
        NodeConfigView {
            graph_info: GraphInfoView {
                ambiguous_with: ambiguity_with_set(c.graph_info.ambiguous_with, set),
                ..c.graph_info
            },
            ..c
        }
}

/// A node configuration that ignores every ambiguity.
pub open spec fn leaf_ambiguous_with_all<T, O>() -> spec_fn(NodeConfigView<T, O>) -> NodeConfigView<T, O> {
    |c: NodeConfigView<T, O>|
        NodeConfigView {
            graph_info: GraphInfoView { ambiguous_with: AmbiguityView::IgnoreAll, ..c.graph_info },
            ..c
        }
}

/// A node configuration with one more run condition.
pub open spec fn leaf_run_if<T, O>(condition: Condition) -> spec_fn(NodeConfigView<T, O>) -> NodeConfigView<T, O> {
    |c: NodeConfigView<T, O>| NodeConfigView { conditions: c.conditions.push(condition), ..c }
}

/// A node configuration with its options cleared: what `with_option` leaves alone.
pub open spec fn leaf_without_config<T, O>() -> spec_fn(NodeConfigView<T, O>) -> NodeConfigView<T, O> {
    |c: NodeConfigView<T, O>| NodeConfigView { config: Map::empty(), ..c }
}

/// A node configuration whose last dependency is of kind `kind` on `set`.
pub open spec fn leaf_last_dependency_is<T, O>(set: InternedSystemSet, kind: DependencyKind) -> spec_fn(NodeConfigView<T, O>) -> bool {
    |c: NodeConfigView<T, O>|
        c.graph_info.dependencies.len() > 0 && c.graph_info.dependencies.last().set == set
            && c.graph_info.dependencies.last().kind == kind
}

/// A node configuration with the edge options of its last dependency cleared: what
/// `with_dependency_option` leaves alone.
pub open spec fn leaf_without_last_dependency_options<T, O>() -> spec_fn(NodeConfigView<T, O>) -> NodeConfigView<T, O> {
    |c: NodeConfigView<T, O>| {
        let deps = c.graph_info.dependencies;
        if deps.len() > 0 {
            NodeConfigView {
                graph_info: GraphInfoView {
                    dependencies: deps.update(
                        deps.len() - 1,
                        DependencyView { options: Map::empty(), ..deps.last() },
                    ),
                    ..c.graph_info
                },
                ..c
            }
        } else {
            c
        }
    }
}

/// The configuration of a single system: in its default sets, with no options,
/// dependencies, ambiguity exceptions or conditions.
pub open spec fn system_config_view<O>(system: BoxedSystem) -> NodeConfigView<BoxedSystem, O> {
    NodeConfigView {
        node: system,
        config: Map::empty(),
        graph_info: GraphInfoView { hierarchy: system.default_sets@, ..empty_graph_info() },
        conditions: Seq::empty(),
    }
}

/// The configuration of a system set with no metadata.
pub open spec fn set_config_view<O>(set: InternedSystemSet) -> NodeConfigView<InternedSystemSet, O> {
    NodeConfigView {
        node: set,
        config: Map::empty(),
        graph_info: empty_graph_info(),
        conditions: Seq::empty(),
    }
}

/// Whether `k` indexes `s`.
pub open spec fn in_bounds<A>(s: Seq<A>, k: int) -> bool {
    0 <= k < s.len()
}

/// Whether two option maps hold the same options.
pub open spec fn same_options<O>(a: Map<u64, O>, b: Map<u64, O>) -> bool {
    a == b
}

/// The leaves of a tree with `f` applied to every leaf are its leaves with `f` applied.
pub proof fn lemma_leaves_map_leaves<T, O>(
    v: NodeConfigsView<T, O>,
    f: spec_fn(NodeConfigView<T, O>) -> NodeConfigView<T, O>,
)
    ensures
        v.map_leaves(f).leaves() == v.leaves().map_values(f),
    decreases v,
{
    match v {
        NodeConfigsView::NodeConfig(c) => {
            assert(seq![f(c)] =~= seq![c].map_values(f));
        },
        NodeConfigsView::Configs { configs, .. } => {
            lemma_leaves_of_map_leaves_each(configs, f);
        },
    }
}

/// The leaves of trees each mapped by `f` are their leaves mapped by `f`.
pub proof fn lemma_leaves_of_map_leaves_each<T, O>(
    cs: Seq<NodeConfigsView<T, O>>,
    f: spec_fn(NodeConfigView<T, O>) -> NodeConfigView<T, O>,
)
    ensures
        leaves_of(map_leaves_each(cs, f)) == leaves_of(cs).map_values(f),
    decreases cs,
{
    if cs.len() > 0 {
        let dl = cs.drop_last();
        assert(decreases_to!(cs => dl)) by {
            assert(dl == cs.subrange(0, cs.len() - 1));
        }
        lemma_leaves_of_map_leaves_each(dl, f);
        lemma_leaves_map_leaves(cs.last(), f);
        let mapped = map_leaves_each(cs, f);
        assert(mapped.drop_last() =~= map_leaves_each(dl, f));
        assert(leaves_of(cs).map_values(f) =~= leaves_of(dl).map_values(f) + cs.last().leaves().map_values(f));
    } else {
        assert(leaves_of(map_leaves_each(cs, f)) =~= leaves_of(cs).map_values(f));
    }
}

/// Each tree of a sequence has at most as many leaves as the whole sequence.
pub proof fn lemma_leaves_of_len<T, O>(cs: Seq<NodeConfigsView<T, O>>, j: int)
    requires
        0 <= j < cs.len(),
    ensures
        cs[j].leaves().len() <= leaves_of(cs).len(),
    decreases cs.len(),
{
    if j < cs.len() - 1 {
        lemma_leaves_of_len(cs.drop_last(), j);
    }
}

/// The leaves of a sequence with one more tree are followed by that tree's leaves.
pub proof fn lemma_leaves_of_push<T, O>(cs: Seq<NodeConfigsView<T, O>>, c: NodeConfigsView<T, O>)
    ensures
        leaves_of(cs.push(c)) == leaves_of(cs) + c.leaves(),
{
    assert(cs.push(c).drop_last() =~= cs);
}

} // verus!
