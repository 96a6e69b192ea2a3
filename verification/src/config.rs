//! Configuration of systems and system sets: which sets a node belongs to, what it
//! is ordered against, its run conditions and options, and collections of such
//! configurations.
use vstd::prelude::*;
use crate::config_map::{ConfigMap, ConfigMapEntry};
use crate::config_view::{
    conditions_view, in_bounds, leaf_ambiguous_with, leaf_ambiguous_with_all, leaf_in_set,
    leaf_last_dependency_is, leaf_run_if, leaf_with_dependency, leaf_without_config,
    leaf_without_last_dependency_options, leaves_of, lemma_leaves_map_leaves,
    lemma_leaves_of_len, lemma_leaves_of_push, map_leaves_each, same_options, set_config_view,
    system_config_view, NodeConfigView, NodeConfigsView,
};
use crate::graph::{
    ambiguous_with, dependencies_view, new_condition, Ambiguity, BoxedCondition, BoxedSystem,
    Chain, Condition, Dependency, DependencyKind, DependencyView, GraphInfo, InternedSystemSet,
};

verus! {

/// Stores configuration for a single generic node (a system or a system set).
///
/// The configuration includes the node itself, scheduling metadata
/// (hierarchy: in which sets is the node contained,
/// dependencies: before/after which other nodes should this node run)
/// and the run conditions associated with this node.
pub struct NodeConfig<T, O> {
    pub node: T,
    pub config: ConfigMap<O>,
    /// Hierarchy and dependency metadata for this node
    pub graph_info: GraphInfo<O>,
    pub conditions: Vec<BoxedCondition>,
}

/// Stores configuration for a single system.
pub type SystemConfig<O> = NodeConfig<BoxedSystem, O>;

/// A collections of generic [`NodeConfig`]s.
pub enum NodeConfigs<T, O> {
    /// Configuration for a single node.
    NodeConfig(NodeConfig<T, O>),
    /// Configuration for a tuple of nested `Configs` instances.
    Configs {
        /// Configuration for each element of the tuple.
        configs: Vec<NodeConfigs<T, O>>,
        /// Run conditions applied to everything in the tuple.
        collective_conditions: Vec<BoxedCondition>,
        /// Whether the elements are ordered one after another.
        chained: Chain<O>,
    },
}

/// A collection of [`SystemConfig`].
pub type SystemConfigs<O> = NodeConfigs<BoxedSystem, O>;

/// A system set with scheduling metadata.
pub type SystemSetConfig<O> = NodeConfig<InternedSystemSet, O>;

/// A collection of [`SystemSetConfig`].
pub type SystemSetConfigs<O> = NodeConfigs<InternedSystemSet, O>;

impl<T, O> View for NodeConfig<T, O> {
    type V = NodeConfigView<T, O>;

    open spec fn view(&self) -> NodeConfigView<T, O> {
        NodeConfigView {
            node: self.node,
            config: self.config@,
            graph_info: self.graph_info@,
            conditions: conditions_view(self.conditions@),
        }
    }
}

/// The views of a sequence of configurations.
pub open spec fn views_of<T, O>(cs: Seq<NodeConfigs<T, O>>) -> Seq<NodeConfigsView<T, O>>
    decreases cs,
{
    Seq::new(cs.len(), |i: int| if 0 <= i < cs.len() { cs[i].view_of() } else { arbitrary() })
}

impl<T, O> NodeConfigs<T, O> {
    /// The mathematical value of the configuration tree.
    pub open spec fn view_of(&self) -> NodeConfigsView<T, O>
        decreases self,
    {
        match self {
            NodeConfigs::NodeConfig(c) => NodeConfigsView::NodeConfig(c@),
            NodeConfigs::Configs { configs, collective_conditions, chained } => {
                NodeConfigsView::Configs {
                    configs: views_of(configs@),
                    collective_conditions: conditions_view(collective_conditions@),
                    chained: chained@,
                }
            },
        }
    }
}

impl<T, O> View for NodeConfigs<T, O> {
    type V = NodeConfigsView<T, O>;

    open spec fn view(&self) -> NodeConfigsView<T, O> {
        self.view_of()
    }
}

/// Configurations that agree with `before` once `f` is applied to every leaf have
/// views that agree with those of `before` once `f` is applied.
pub proof fn lemma_views_of_agree<T, O>(
    after: Seq<NodeConfigs<T, O>>,
    before: Seq<NodeConfigs<T, O>>,
    f: spec_fn(NodeConfigView<T, O>) -> NodeConfigView<T, O>,
)
    requires
        after.len() == before.len(),
        forall|j: int| 0 <= j < after.len() ==> #[trigger] after[j]@.map_leaves(f) == before[j]@.map_leaves(f),
    ensures
        map_leaves_each(views_of(after), f) == map_leaves_each(views_of(before), f),
{
    let fin = map_leaves_each(views_of(after), f);
    let want = map_leaves_each(views_of(before), f);
    assert forall|j: int| 0 <= j < after.len() implies fin[j] == want[j] by {
        assert(after[j]@.map_leaves(f) == before[j]@.map_leaves(f));
    }
    assert(fin =~= want);
}

/// Configurations whose views are those of `before` with `f` applied to every leaf
/// have the mapped views.
pub proof fn lemma_views_of_mapped<T, O>(
    after: Seq<NodeConfigs<T, O>>,
    before: Seq<NodeConfigs<T, O>>,
    f: spec_fn(NodeConfigView<T, O>) -> NodeConfigView<T, O>,
)
    requires
        after.len() == before.len(),
        forall|j: int| 0 <= j < after.len() ==> #[trigger] after[j]@ == before[j]@.map_leaves(f),
    ensures
        views_of(after) == map_leaves_each(views_of(before), f),
{
    let fin = views_of(after);
    let want = map_leaves_each(views_of(before), f);
    assert forall|j: int| 0 <= j < after.len() implies fin[j] == want[j] by {
        assert(after[j]@ == before[j]@.map_leaves(f));
    }
    assert(fin =~= want);
}

impl<T, O> NodeConfigs<T, O> {
    /// Adds a new boxed system set to the systems.
    pub fn in_set_inner(&mut self, set: InternedSystemSet)
        ensures
            final(self)@ == old(self)@.map_leaves(leaf_in_set(set)),
        decreases *old(self),
    {
        let ghost s0 = *self;
        match self {
            NodeConfigs::NodeConfig(config) => {
                config.graph_info.hierarchy.push(set);
            },
            NodeConfigs::Configs { configs, .. } => {
                let n = configs.len();
                let ghost before = configs@;
                let mut i: usize = 0;
                while i < n
                    invariant
                        n == configs.len(),
                        0 <= i <= n,
                        before.len() == n,
                        s0 == *old(self),
                        s0 matches NodeConfigs::Configs { configs: c0, .. } && c0@ == before,
                        forall|j: int| 0 <= j < i ==> #[trigger] configs[j]@ == before[j]@.map_leaves(leaf_in_set(set)),
                        forall|j: int| i <= j < n ==> #[trigger] configs[j] == before[j],
                    decreases n - i,
                {
                    let c = &mut configs[i];
                    proof {
                        broadcast use vstd::std_specs::vec::axiom_vec_index_decreases;
                        assert(decreases_to!(*old(self) => *c));
                    }
                    c.in_set_inner(set);
                    i += 1;
                }
                proof {
                    lemma_views_of_mapped(configs@, before, leaf_in_set(set));
                }
            },
        }
    }

    /// Adds a dependency of every node on running before `set`.
    fn before_inner(&mut self, set: InternedSystemSet)
        ensures
            final(self)@ == old(self)@.map_leaves(leaf_with_dependency(DependencyKind::Before, set)),
        decreases *old(self),
    {
        let ghost s0 = *self;
        match self {
            NodeConfigs::NodeConfig(config) => {
                let ghost deps0 = config.graph_info.dependencies@;
                let d = Dependency::new(DependencyKind::Before, set);
                config.graph_info.dependencies.push(d);
                assert(dependencies_view(config.graph_info.dependencies@) =~= dependencies_view(deps0).push(d@));
            },
            NodeConfigs::Configs { configs, .. } => {
                let n = configs.len();
                let ghost before = configs@;
                let mut i: usize = 0;
                while i < n
                    invariant
                        n == configs.len(),
                        0 <= i <= n,
                        before.len() == n,
                        s0 == *old(self),
                        s0 matches NodeConfigs::Configs { configs: c0, .. } && c0@ == before,
                        forall|j: int| 0 <= j < i ==> #[trigger] configs[j]@ == before[j]@.map_leaves(leaf_with_dependency(DependencyKind::Before, set)),
                        forall|j: int| i <= j < n ==> #[trigger] configs[j] == before[j],
                    decreases n - i,
                {
                    let c = &mut configs[i];
                    proof {
                        broadcast use vstd::std_specs::vec::axiom_vec_index_decreases;
                        assert(decreases_to!(*old(self) => *c));
                    }
                    c.before_inner(set);
                    i += 1;
                }
                proof {
                    lemma_views_of_mapped(configs@, before, leaf_with_dependency(DependencyKind::Before, set));
                }
            },
        }
    }

    /// Adds a dependency of every node on running after `set`.
    fn after_inner(&mut self, set: InternedSystemSet)
        ensures
            final(self)@ == old(self)@.map_leaves(leaf_with_dependency(DependencyKind::After, set)),
        decreases *old(self),
    {
        let ghost s0 = *self;
        match self {
            NodeConfigs::NodeConfig(config) => {
                let ghost deps0 = config.graph_info.dependencies@;
                let d = Dependency::new(DependencyKind::After, set);
                config.graph_info.dependencies.push(d);
                assert(dependencies_view(config.graph_info.dependencies@) =~= dependencies_view(deps0).push(d@));
            },
            NodeConfigs::Configs { configs, .. } => {
                let n = configs.len();
                let ghost before = configs@;
                let mut i: usize = 0;
                while i < n
                    invariant
                        n == configs.len(),
                        0 <= i <= n,
                        before.len() == n,
                        s0 == *old(self),
                        s0 matches NodeConfigs::Configs { configs: c0, .. } && c0@ == before,
                        forall|j: int| 0 <= j < i ==> #[trigger] configs[j]@ == before[j]@.map_leaves(leaf_with_dependency(DependencyKind::After, set)),
                        forall|j: int| i <= j < n ==> #[trigger] configs[j] == before[j],
                    decreases n - i,
                {
                    let c = &mut configs[i];
                    proof {
                        broadcast use vstd::std_specs::vec::axiom_vec_index_decreases;
                        assert(decreases_to!(*old(self) => *c));
                    }
                    c.after_inner(set);
                    i += 1;
                }
                proof {
                    lemma_views_of_mapped(configs@, before, leaf_with_dependency(DependencyKind::After, set));
                }
            },
        }
    }

    /// Makes every node ignore ambiguities with `set`.
    fn ambiguous_with_inner(&mut self, set: InternedSystemSet)
        ensures
            final(self)@ == old(self)@.map_leaves(leaf_ambiguous_with(set)),
        decreases *old(self),
    {
        let ghost s0 = *self;
        match self {
            NodeConfigs::NodeConfig(config) => {
                ambiguous_with(&mut config.graph_info, set);
            },
            NodeConfigs::Configs { configs, .. } => {
                let n = configs.len();
                let ghost before = configs@;
                let mut i: usize = 0;
                while i < n
                    invariant
                        n == configs.len(),
                        0 <= i <= n,
                        before.len() == n,
                        s0 == *old(self),
                        s0 matches NodeConfigs::Configs { configs: c0, .. } && c0@ == before,
                        forall|j: int| 0 <= j < i ==> #[trigger] configs[j]@ == before[j]@.map_leaves(leaf_ambiguous_with(set)),
                        forall|j: int| i <= j < n ==> #[trigger] configs[j] == before[j],
                    decreases n - i,
                {
                    let c = &mut configs[i];
                    proof {
                        broadcast use vstd::std_specs::vec::axiom_vec_index_decreases;
                        assert(decreases_to!(*old(self) => *c));
                    }
                    c.ambiguous_with_inner(set);
                    i += 1;
                }
                proof {
                    lemma_views_of_mapped(configs@, before, leaf_ambiguous_with(set));
                }
            },
        }
    }

    /// Makes every node ignore every ambiguity.
    fn ambiguous_with_all_inner(&mut self)
        ensures
            final(self)@ == old(self)@.map_leaves(leaf_ambiguous_with_all()),
        decreases *old(self),
    {
        let ghost s0 = *self;
        match self {
            NodeConfigs::NodeConfig(config) => {
                config.graph_info.ambiguous_with = Ambiguity::IgnoreAll;
            },
            NodeConfigs::Configs { configs, .. } => {
                let n = configs.len();
                let ghost before = configs@;
                let mut i: usize = 0;
                while i < n
                    invariant
                        n == configs.len(),
                        0 <= i <= n,
                        before.len() == n,
                        s0 == *old(self),
                        s0 matches NodeConfigs::Configs { configs: c0, .. } && c0@ == before,
                        forall|j: int| 0 <= j < i ==> #[trigger] configs[j]@ == before[j]@.map_leaves(leaf_ambiguous_with_all()),
                        forall|j: int| i <= j < n ==> #[trigger] configs[j] == before[j],
                    decreases n - i,
                {
                    let c = &mut configs[i];
                    proof {
                        broadcast use vstd::std_specs::vec::axiom_vec_index_decreases;
                        assert(decreases_to!(*old(self) => *c));
                    }
                    c.ambiguous_with_all_inner();
                    i += 1;
                }
                proof {
                    lemma_views_of_mapped(configs@, before, leaf_ambiguous_with_all());
                }
            },
        }
    }

    /// Adds a clone of `condition` to the run conditions of every node.
    fn distributive_run_if_inner(&mut self, condition: Condition)
        requires
            condition.is_send || old(self)@.leaves().len() == 0,
        ensures
            final(self)@ == old(self)@.map_leaves(leaf_run_if(condition)),
        decreases *old(self),
    {
        let ghost s0 = *self;
        match self {
            NodeConfigs::NodeConfig(config) => {
                let ghost conds0 = config.conditions@;
                config.conditions.push(new_condition(condition));
                assert(conditions_view(config.conditions@) =~= conditions_view(conds0).push(condition));
            },
            NodeConfigs::Configs { configs, .. } => {
                let n = configs.len();
                let ghost before = configs@;
                proof {
                    assert forall|j: int| 0 <= j < n implies condition.is_send || (#[trigger] before[j])@.leaves().len() == 0 by {
                        lemma_leaves_of_len(views_of(before), j);
                    }
                }
                let mut i: usize = 0;
                while i < n
                    invariant
                        n == configs.len(),
                        0 <= i <= n,
                        before.len() == n,
                        s0 == *old(self),
                        s0 matches NodeConfigs::Configs { configs: c0, .. } && c0@ == before,
                        forall|j: int| 0 <= j < n ==> condition.is_send || (#[trigger] before[j])@.leaves().len() == 0,
                        forall|j: int| 0 <= j < i ==> #[trigger] configs[j]@ == before[j]@.map_leaves(leaf_run_if(condition)),
                        forall|j: int| i <= j < n ==> #[trigger] configs[j] == before[j],
                    decreases n - i,
                {
                    let c = &mut configs[i];
                    proof {
                        broadcast use vstd::std_specs::vec::axiom_vec_index_decreases;
                        assert(decreases_to!(*old(self) => *c));
                    }
                    c.distributive_run_if_inner(condition);
                    i += 1;
                }
                proof {
                    lemma_views_of_mapped(configs@, before, leaf_run_if(condition));
                }
            },
        }
    }

    /// Adds a new boxed run condition to the systems.
    ///
    /// This is useful if you have a run condition whose concrete type is unknown.
    /// Prefer `run_if` for run conditions whose type is known at compile time.
    pub fn run_if_dyn(&mut self, condition: BoxedCondition)
        ensures
            final(self)@ == old(self)@.with_run_if(*condition),
    {
        match self {
            NodeConfigs::NodeConfig(config) => {
                let ghost conds0 = config.conditions@;
                config.conditions.push(condition);
                assert(conditions_view(config.conditions@) =~= conditions_view(conds0).push(*condition));
            },
            NodeConfigs::Configs { collective_conditions, .. } => {
                let ghost conds0 = collective_conditions@;
                collective_conditions.push(condition);
                assert(conditions_view(collective_conditions@) =~= conditions_view(conds0).push(*condition));
            },
        }
    }

    /// Marks a collection as chained; a single node is left as it is.
    fn chain_inner(self) -> (r: Self)
        ensures
            r@ == self@.chained(),
    {
        let mut s = self;
        match &mut s {
            NodeConfigs::NodeConfig(_) => {},
            NodeConfigs::Configs { chained, .. } => {
                if let Chain::Unchained = chained {
                    *chained = Chain::Chained(ConfigMap::default());
                }
            },
        }
        s
    }

    /// Treats a collection as a sequence (chaining it if it is not yet) and stores
    /// `option` under `key` in the edge options between its elements; a single node
    /// is left as it is.
    fn with_chain_option_inner(&mut self, key: u64, option: O)
        ensures
            final(self)@ == old(self)@.chained().with_chain_option(key, option),
    {
        match self {
            NodeConfigs::NodeConfig(_) => {},
            NodeConfigs::Configs { chained, .. } => {
                if let Chain::Unchained = chained {
                    *chained = Chain::Chained(ConfigMap::new());
                }
                match chained {
                    Chain::Chained(config) => {
                        config.insert(key, option);
                    },
                    Chain::Unchained => {},
                }
            },
        }
    }

    /// Applies `option` to the entry for `key` in the options of every node.
    fn with_option_inner<F: Fn(ConfigMapEntry<O>)>(&mut self, key: u64, option: &F)
        requires
            forall|e: ConfigMapEntry<O>| e.key == key ==> #[trigger] option.requires((e,)),
        ensures
            final(self)@.map_leaves(leaf_without_config()) == old(self)@.map_leaves(leaf_without_config()),
            final(self)@.leaves().len() == old(self)@.leaves().len(),
            forall|k: int| #[trigger] in_bounds(old(self)@.leaves(), k) ==>
                exists|e: ConfigMapEntry<O>| {
                    &&& e.key == key
                    &&& same_options(mut_ref_current(e.map)@, old(self)@.leaves()[k].config)
                    &&& same_options(mut_ref_future(e.map)@, final(self)@.leaves()[k].config)
                    &&& #[trigger] option.ensures((e,), ())
                },
        decreases *old(self),
    {
        let ghost s0 = *self;
        match self {
            NodeConfigs::NodeConfig(config) => {
                let entry = config.config.entry(key);
                let ghost e0 = entry;
                option(entry);
                assert(option.ensures((e0,), ()));
                assert(same_options(mut_ref_current(e0.map)@, old(self)@.leaves()[0].config));
                assert(same_options(mut_ref_future(e0.map)@, final(self)@.leaves()[0].config));
            },
            NodeConfigs::Configs { configs, .. } => {
                let n = configs.len();
                let ghost before = configs@;
                let mut i: usize = 0;
                while i < n
                    invariant
                        n == configs.len(),
                        0 <= i <= n,
                        before.len() == n,
                        s0 == *old(self),
                        s0 matches NodeConfigs::Configs { configs: c0, .. } && c0@ == before,
                        forall|e: ConfigMapEntry<O>| e.key == key ==> #[trigger] option.requires((e,)),
                        forall|j: int| 0 <= j < i ==> #[trigger] configs[j]@.map_leaves(leaf_without_config()) == before[j]@.map_leaves(leaf_without_config()),
                        forall|j: int| i <= j < n ==> #[trigger] configs[j] == before[j],
                        leaves_of(views_of(configs@).take(i as int)).len() == leaves_of(views_of(before).take(i as int)).len(),
                        forall|k: int| #[trigger] in_bounds(leaves_of(views_of(before).take(i as int)), k) ==>
                            exists|e: ConfigMapEntry<O>| {
                                &&& e.key == key
                                &&& same_options(mut_ref_current(e.map)@, leaves_of(views_of(before).take(i as int))[k].config)
                                &&& same_options(mut_ref_future(e.map)@, leaves_of(views_of(configs@).take(i as int))[k].config)
                                &&& #[trigger] option.ensures((e,), ())
                            },
                    decreases n - i,
                {
                    let ghost done_old = views_of(before).take(i as int);
                    let ghost done_new = views_of(configs@).take(i as int);
                    let c = &mut configs[i];
                    proof {
                        broadcast use vstd::std_specs::vec::axiom_vec_index_decreases;
                        assert(decreases_to!(*old(self) => *c));
                    }
                    c.with_option_inner(key, option);
                    proof {
                        let child_old = before[i as int]@;
                        let child_new = configs[i as int]@;
                        let lo = leaves_of(done_old);
                        let ln = leaves_of(done_new);
                        lemma_leaves_of_push(done_old, child_old);
                        lemma_leaves_of_push(done_new, child_new);
                        let lo2 = leaves_of(done_old.push(child_old));
                        let ln2 = leaves_of(done_new.push(child_new));
                        assert forall|k: int| #[trigger] in_bounds(lo2, k) implies
                            exists|e: ConfigMapEntry<O>| {
                                &&& e.key == key
                                &&& same_options(mut_ref_current(e.map)@, lo2[k].config)
                                &&& same_options(mut_ref_future(e.map)@, ln2[k].config)
                                &&& #[trigger] option.ensures((e,), ())
                            } by {
                            if k < lo.len() {
                                assert(in_bounds(lo, k));
                                assert(lo2[k] == lo[k]);
                                assert(ln2[k] == ln[k]);
                            } else {
                                let k2 = k - lo.len();
                                assert(in_bounds(child_old.leaves(), k2));
                                assert(lo2[k] == child_old.leaves()[k2]);
                                assert(ln2[k] == child_new.leaves()[k2]);
                            }
                        }
                        assert(views_of(before).take(i + 1) =~= done_old.push(child_old));
                        assert(views_of(configs@).take(i + 1) =~= done_new.push(child_new));
                    }
                    i += 1;
                }
                proof {
                    lemma_views_of_agree(configs@, before, leaf_without_config());
                    assert(views_of(before).take(n as int) =~= views_of(before));
                    assert(views_of(configs@).take(n as int) =~= views_of(configs@));
                    lemma_leaves_map_leaves(old(self)@, leaf_without_config());
                    lemma_leaves_map_leaves(final(self)@, leaf_without_config());
                }
            },
        }
    }

    /// Applies `option` to the entry for `key` in the edge options of the last
    /// dependency of every node, and gives back the set and kind of that dependency
    /// (`None` when there is no node).
    fn with_dependency_option_inner<F: Fn(ConfigMapEntry<O>)>(
        &mut self,
        key: u64,
        option: &F,
        Ghost(target): Ghost<(InternedSystemSet, DependencyKind)>,
    ) -> (r: Option<(InternedSystemSet, DependencyKind)>)
        requires
            forall|e: ConfigMapEntry<O>| e.key == key ==> #[trigger] option.requires((e,)),
            old(self)@.all_leaves(leaf_last_dependency_is(target.0, target.1)),
        ensures
            final(self)@.map_leaves(leaf_without_last_dependency_options())
                == old(self)@.map_leaves(leaf_without_last_dependency_options()),
            r == (if old(self)@.leaves().len() > 0 { Some(target) } else { None::<(InternedSystemSet, DependencyKind)> }),
            final(self)@.leaves().len() == old(self)@.leaves().len(),
            forall|k: int| #[trigger] in_bounds(old(self)@.leaves(), k) ==>
                exists|e: ConfigMapEntry<O>| {
                    &&& e.key == key
                    &&& same_options(mut_ref_current(e.map)@, old(self)@.leaves()[k].graph_info.dependencies.last().options)
                    &&& same_options(mut_ref_future(e.map)@, final(self)@.leaves()[k].graph_info.dependencies.last().options)
                    &&& #[trigger] option.ensures((e,), ())
                },
        decreases *old(self),
    {
        let ghost s0 = *self;
        match self {
            NodeConfigs::NodeConfig(config) => {
                let deps = &mut config.graph_info.dependencies;
                let ghost deps0 = deps@;
                let n = deps.len();
                let last = &mut deps[n - 1];
                let set = last.set;
                let kind = last.kind;
                let entry = last.options.entry(key);
                let ghost e0 = entry;
                option(entry);
                proof {
                    assert(option.ensures((e0,), ()));
                    assert(same_options(mut_ref_current(e0.map)@, old(self)@.leaves()[0].graph_info.dependencies.last().options));
                    assert(same_options(mut_ref_future(e0.map)@, final(self)@.leaves()[0].graph_info.dependencies.last().options));
                    let dv0 = dependencies_view(deps0);
                    let dv1 = dependencies_view(deps@);
                    assert(dv1.update(n - 1, DependencyView { options: Map::empty(), ..dv1.last() })
                        =~= dv0.update(n - 1, DependencyView { options: Map::empty(), ..dv0.last() }));
                }
                Some((set, kind))
            },
            NodeConfigs::Configs { configs, .. } => {
                let n = configs.len();
                let ghost before = configs@;
                let mut dependency: Option<(InternedSystemSet, DependencyKind)> = None;
                proof {
                    assert forall|j: int| 0 <= j < n implies (#[trigger] before[j])@.all_leaves(leaf_last_dependency_is(target.0, target.1)) by {
                        assert(views_of(before)[j] == before[j]@);
                    }
                }
                let mut i: usize = 0;
                while i < n
                    invariant
                        n == configs.len(),
                        0 <= i <= n,
                        before.len() == n,
                        s0 == *old(self),
                        s0 matches NodeConfigs::Configs { configs: c0, .. } && c0@ == before,
                        forall|e: ConfigMapEntry<O>| e.key == key ==> #[trigger] option.requires((e,)),
                        forall|j: int| 0 <= j < n ==> (#[trigger] before[j])@.all_leaves(leaf_last_dependency_is(target.0, target.1)),
                        forall|j: int| 0 <= j < i ==> #[trigger] configs[j]@.map_leaves(leaf_without_last_dependency_options()) == before[j]@.map_leaves(leaf_without_last_dependency_options()),
                        forall|j: int| i <= j < n ==> #[trigger] configs[j] == before[j],
                        dependency == (if leaves_of(views_of(before).take(i as int)).len() > 0 { Some(target) } else { None::<(InternedSystemSet, DependencyKind)> }),
                        leaves_of(views_of(configs@).take(i as int)).len() == leaves_of(views_of(before).take(i as int)).len(),
                        forall|k: int| #[trigger] in_bounds(leaves_of(views_of(before).take(i as int)), k) ==>
                            exists|e: ConfigMapEntry<O>| {
                                &&& e.key == key
                                &&& same_options(mut_ref_current(e.map)@, leaves_of(views_of(before).take(i as int))[k].graph_info.dependencies.last().options)
                                &&& same_options(mut_ref_future(e.map)@, leaves_of(views_of(configs@).take(i as int))[k].graph_info.dependencies.last().options)
                                &&& #[trigger] option.ensures((e,), ())
                            },
                    decreases n - i,
                {
                    let ghost done_old = views_of(before).take(i as int);
                    let ghost done_new = views_of(configs@).take(i as int);
                    let c = &mut configs[i];
                    proof {
                        broadcast use vstd::std_specs::vec::axiom_vec_index_decreases;
                        assert(decreases_to!(*old(self) => *c));
                        lemma_leaves_of_push(views_of(before).take(i as int), before[i as int]@);
                        assert(views_of(before).take(i + 1) =~= views_of(before).take(i as int).push(before[i as int]@));
                    }
                    let dependency2 = c.with_dependency_option_inner(key, option, Ghost(target));
                    proof {
                        let child_old = before[i as int]@;
                        let child_new = configs[i as int]@;
                        let lo = leaves_of(done_old);
                        let ln = leaves_of(done_new);
                        lemma_leaves_of_push(done_old, child_old);
                        lemma_leaves_of_push(done_new, child_new);
                        let lo2 = leaves_of(done_old.push(child_old));
                        let ln2 = leaves_of(done_new.push(child_new));
                        assert forall|k: int| #[trigger] in_bounds(lo2, k) implies
                            exists|e: ConfigMapEntry<O>| {
                                &&& e.key == key
                                &&& same_options(mut_ref_current(e.map)@, lo2[k].graph_info.dependencies.last().options)
                                &&& same_options(mut_ref_future(e.map)@, ln2[k].graph_info.dependencies.last().options)
                                &&& #[trigger] option.ensures((e,), ())
                            } by {
                            if k < lo.len() {
                                assert(in_bounds(lo, k));
                                assert(lo2[k] == lo[k]);
                                assert(ln2[k] == ln[k]);
                            } else {
                                let k2 = k - lo.len();
                                assert(in_bounds(child_old.leaves(), k2));
                                assert(lo2[k] == child_old.leaves()[k2]);
                                assert(ln2[k] == child_new.leaves()[k2]);
                            }
                        }
                        assert(views_of(configs@).take(i + 1) =~= done_new.push(child_new));
                    }
                    if let Some(d2) = dependency2 {
                        if let Some(d1) = dependency {
                            assert(d1 == d2);
                        } else {
                            dependency = Some(d2);
                        }
                    }
                    i += 1;
                }
                proof {
                    lemma_views_of_agree(configs@, before, leaf_without_last_dependency_options());
                    assert(views_of(before).take(n as int) =~= views_of(before));
                    assert(views_of(configs@).take(n as int) =~= views_of(configs@));
                    lemma_leaves_map_leaves(old(self)@, leaf_without_last_dependency_options());
                    lemma_leaves_map_leaves(final(self)@, leaf_without_last_dependency_options());
                }
                dependency
            },
        }
    }
}

impl<T, O> NodeConfigs<T, O> {
    /// Adds these nodes to the provided `set`.
    pub fn in_set(self, set: InternedSystemSet) -> (r: Self)
        requires
            set.system_type is None,
        ensures
            r@ == self@.map_leaves(leaf_in_set(set)),
    {
        let mut s = self;
        s.in_set_inner(set);
        s
    }

    /// Runs before all nodes in `set`.
    pub fn before(self, set: InternedSystemSet) -> (r: Self)
        ensures
            r@ == self@.map_leaves(leaf_with_dependency(DependencyKind::Before, set)),
    {
        let mut s = self;
        s.before_inner(set);
        s
    }

    /// Runs after all nodes in `set`.
    pub fn after(self, set: InternedSystemSet) -> (r: Self)
        ensures
            r@ == self@.map_leaves(leaf_with_dependency(DependencyKind::After, set)),
    {
        let mut s = self;
        s.after_inner(set);
        s
    }

    /// Applies `option` to the entry for `key` in the options of every node.
    pub fn with_option<F: Fn(ConfigMapEntry<O>)>(self, key: u64, option: F) -> (r: Self)
        requires
            forall|e: ConfigMapEntry<O>| e.key == key ==> #[trigger] option.requires((e,)),
        ensures
            r@.map_leaves(leaf_without_config()) == self@.map_leaves(leaf_without_config()),
            self@.leaves().len() == r@.leaves().len(),
            forall|k: int| #[trigger] in_bounds(self@.leaves(), k) ==>
                exists|e: ConfigMapEntry<O>| {
                    &&& e.key == key
                    &&& same_options(mut_ref_current(e.map)@, self@.leaves()[k].config)
                    &&& same_options(mut_ref_future(e.map)@, r@.leaves()[k].config)
                    &&& #[trigger] option.ensures((e,), ())
                },
    {
        let mut s = self;
        s.with_option_inner(key, &option);
        s
    }

    /// Applies `option` to the entry for `key` in the edge options of the last added
    /// dependency of every node. Every node must have a last dependency, and these
    /// must all be of the same kind on the same set.
    pub fn with_dependency_option<F: Fn(ConfigMapEntry<O>)>(self, key: u64, option: F) -> (r: Self)
        requires
            forall|e: ConfigMapEntry<O>| e.key == key ==> #[trigger] option.requires((e,)),
            exists|set: InternedSystemSet, kind: DependencyKind|
                self@.all_leaves(#[trigger] leaf_last_dependency_is(set, kind)),
        ensures
            r@.map_leaves(leaf_without_last_dependency_options())
                == self@.map_leaves(leaf_without_last_dependency_options()),
            self@.leaves().len() == r@.leaves().len(),
            forall|k: int| #[trigger] in_bounds(self@.leaves(), k) ==>
                exists|e: ConfigMapEntry<O>| {
                    &&& e.key == key
                    &&& same_options(mut_ref_current(e.map)@, self@.leaves()[k].graph_info.dependencies.last().options)
                    &&& same_options(mut_ref_future(e.map)@, r@.leaves()[k].graph_info.dependencies.last().options)
                    &&& #[trigger] option.ensures((e,), ())
                },
    {
        let ghost target = choose|set: InternedSystemSet, kind: DependencyKind|
            self@.all_leaves(#[trigger] leaf_last_dependency_is(set, kind));
        let mut s = self;
        s.with_dependency_option_inner(key, &option, Ghost(target));
        s
    }

    /// Adds `condition` to the run conditions of each contained node.
    pub fn distributive_run_if(self, condition: Condition) -> (r: Self)
        requires
            condition.is_send || self@.leaves().len() == 0,
        ensures
            r@ == self@.map_leaves(leaf_run_if(condition)),
    {
        let mut s = self;
        s.distributive_run_if_inner(condition);
        s
    }

    /// Runs the nodes only if `condition` holds: the condition is added to a single
    /// node's conditions, or to the collective conditions of a collection.
    pub fn run_if(self, condition: Condition) -> (r: Self)
        requires
            condition.is_send,
        ensures
            r@ == self@.with_run_if(condition),
    {
        let mut s = self;
        s.run_if_dyn(new_condition(condition));
        s
    }

    /// Suppresses ambiguities of these nodes with the nodes of `set`.
    pub fn ambiguous_with(self, set: InternedSystemSet) -> (r: Self)
        ensures
            r@ == self@.map_leaves(leaf_ambiguous_with(set)),
    {
        let mut s = self;
        s.ambiguous_with_inner(set);
        s
    }

    /// Suppresses every ambiguity of these nodes.
    pub fn ambiguous_with_all(self) -> (r: Self)
        ensures
            r@ == self@.map_leaves(leaf_ambiguous_with_all()),
    {
        let mut s = self;
        s.ambiguous_with_all_inner();
        s
    }

    /// Treats this collection as a sequence: ordering constraints will be applied
    /// between the successive elements.
    pub fn chain(self) -> (r: Self)
        ensures
            r@ == self@.chained(),
    {
        self.chain_inner()
    }

    /// Treats this collection as a sequence, as [`chain`](Self::chain) does, and
    /// stores `option` under `key` in the edge options between its elements.
    pub fn with_chain_option(self, key: u64, option: O) -> (r: Self)
        ensures
            r@ == self@.chained().with_chain_option(key, option),
    {
        let mut s = self;
        s.with_chain_option_inner(key, option);
        s
    }
}

impl<O> NodeConfigs<BoxedSystem, O> {
    /// The configuration of a single system, in its default sets and nothing else.
    pub fn new_system(system: BoxedSystem) -> (r: Self)
        ensures
            r@ == NodeConfigsView::NodeConfig(system_config_view::<O>(system)),
    {
        let sets = system.default_system_sets();
        let config = ConfigMap::new();
        let mut graph_info = GraphInfo::default();
        graph_info.hierarchy = sets;
        let conditions: Vec<BoxedCondition> = Vec::new();
        proof {
            assert(conditions_view(conditions@) =~= Seq::<Condition>::empty());
        }
        NodeConfigs::NodeConfig(NodeConfig { node: system, config, graph_info, conditions })
    }
}

impl<O> NodeConfig<InternedSystemSet, O> {
    /// The configuration of a system set, with no metadata. System type sets are
    /// populated automatically and cannot be configured.
    pub fn new(set: InternedSystemSet) -> (r: Self)
        requires
            set.system_type is None,
        ensures
            r@ == set_config_view::<O>(set),
    {
        let conditions: Vec<BoxedCondition> = Vec::new();
        proof {
            assert(conditions_view(conditions@) =~= Seq::<Condition>::empty());
        }
        NodeConfig {
            node: set,
            config: ConfigMap::default(),
            graph_info: GraphInfo::default(),
            conditions,
        }
    }
}

/// Types that can convert into a [`SystemConfigs`].
///
/// This trait is implemented for systems and for tuples of types that implement it.
/// It is a common entry point for system configurations.
pub trait IntoSystemConfigs<Marker, O>: Sized {
    /// The configuration this value converts into.
    spec fn configs_view(&self) -> NodeConfigsView<BoxedSystem, O>;

    /// Convert into a [`SystemConfigs`].
    fn into_configs(self) -> (r: SystemConfigs<O>)
        ensures
            r@ == self.configs_view(),
    ;

    /// Adds these nodes to the provided `set`.
    fn in_set(self, set: InternedSystemSet) -> (r: SystemConfigs<O>)
        requires
            set.system_type is None,
        ensures
            r@ == self.configs_view().map_leaves(leaf_in_set(set)),
    {
        self.into_configs().in_set(set)
    }

    /// Runs before all nodes in `set`.
    fn before(self, set: InternedSystemSet) -> (r: SystemConfigs<O>)
        ensures
            r@ == self.configs_view().map_leaves(leaf_with_dependency(DependencyKind::Before, set)),
    {
        self.into_configs().before(set)
    }

    /// Runs after all nodes in `set`.
    fn after(self, set: InternedSystemSet) -> (r: SystemConfigs<O>)
        ensures
            r@ == self.configs_view().map_leaves(leaf_with_dependency(DependencyKind::After, set)),
    {
        self.into_configs().after(set)
    }

    /// Applies `option` to the entry for `key` in the options of every node.
    fn with_option<F: Fn(ConfigMapEntry<O>)>(self, key: u64, option: F) -> (r: SystemConfigs<O>)
        requires
            forall|e: ConfigMapEntry<O>| e.key == key ==> #[trigger] option.requires((e,)),
        ensures
            r@.map_leaves(leaf_without_config()) == self.configs_view().map_leaves(leaf_without_config()),
            self.configs_view().leaves().len() == r@.leaves().len(),
            forall|k: int| #[trigger] in_bounds(self.configs_view().leaves(), k) ==>
                exists|e: ConfigMapEntry<O>| {
                    &&& e.key == key
                    &&& same_options(mut_ref_current(e.map)@, self.configs_view().leaves()[k].config)
                    &&& same_options(mut_ref_future(e.map)@, r@.leaves()[k].config)
                    &&& #[trigger] option.ensures((e,), ())
                },
    {
        self.into_configs().with_option(key, option)
    }

    /// Applies `option` to the entry for `key` in the edge options of the last added
    /// dependency of every node. Must be called after [`before`](Self::before) or
    /// [`after`](Self::after).
    fn with_dependency_option<F: Fn(ConfigMapEntry<O>)>(self, key: u64, option: F) -> (r: SystemConfigs<O>)
        requires
            forall|e: ConfigMapEntry<O>| e.key == key ==> #[trigger] option.requires((e,)),
            exists|set: InternedSystemSet, kind: DependencyKind| self.configs_view().all_leaves(#[trigger] leaf_last_dependency_is(set, kind)),
        ensures
            r@.map_leaves(leaf_without_last_dependency_options())
                == self.configs_view().map_leaves(leaf_without_last_dependency_options()),
            self.configs_view().leaves().len() == r@.leaves().len(),
            forall|k: int| #[trigger] in_bounds(self.configs_view().leaves(), k) ==>
                exists|e: ConfigMapEntry<O>| {
                    &&& e.key == key
                    &&& same_options(mut_ref_current(e.map)@, self.configs_view().leaves()[k].graph_info.dependencies.last().options)
                    &&& same_options(mut_ref_future(e.map)@, r@.leaves()[k].graph_info.dependencies.last().options)
                    &&& #[trigger] option.ensures((e,), ())
                },
    {
        self.into_configs().with_dependency_option(key, option)
    }

    /// Adds a copy of `condition` to the run conditions of each contained node.
    fn distributive_run_if(self, condition: Condition) -> (r: SystemConfigs<O>)
        requires
            condition.is_send || self.configs_view().leaves().len() == 0,
        ensures
            r@ == self.configs_view().map_leaves(leaf_run_if(condition)),
    {
        self.into_configs().distributive_run_if(condition)
    }

    /// Runs the nodes only if `condition` holds; the condition is evaluated at most
    /// once per schedule run.
    fn run_if(self, condition: Condition) -> (r: SystemConfigs<O>)
        requires
            condition.is_send,
        ensures
            r@ == self.configs_view().with_run_if(condition),
    {
        self.into_configs().run_if(condition)
    }

    /// Suppresses ambiguities of these nodes with the nodes of `set`.
    fn ambiguous_with(self, set: InternedSystemSet) -> (r: SystemConfigs<O>)
        ensures
            r@ == self.configs_view().map_leaves(leaf_ambiguous_with(set)),
    {
        self.into_configs().ambiguous_with(set)
    }

    /// Suppresses every ambiguity of these nodes.
    fn ambiguous_with_all(self) -> (r: SystemConfigs<O>)
        ensures
            r@ == self.configs_view().map_leaves(leaf_ambiguous_with_all()),
    {
        self.into_configs().ambiguous_with_all()
    }

    /// Treats this collection as a sequence of nodes: ordering constraints will be
    /// applied between the successive elements.
    fn chain(self) -> (r: SystemConfigs<O>)
        ensures
            r@ == self.configs_view().chained(),
    {
        self.into_configs().chain()
    }

    /// Treats this collection as a sequence of systems, as [`chain`](Self::chain)
    /// does, and stores `option` under `key` in the edge options between its
    /// elements.
    fn with_chain_option(self, key: u64, option: O) -> (r: SystemConfigs<O>)
        ensures
            r@ == self.configs_view().chained().with_chain_option(key, option),
    {
        self.into_configs().with_chain_option(key, option)
    }
}

/// Marks the conversion of a tuple of system configurations.
pub struct SystemConfigTupleMarker;

impl<O> IntoSystemConfigs<(), O> for NodeConfigs<BoxedSystem, O> {
    open spec fn configs_view(&self) -> NodeConfigsView<BoxedSystem, O> {
        self@
    }

    fn into_configs(self) -> (r: SystemConfigs<O>) {
        self
    }
}

impl<O> IntoSystemConfigs<(), O> for BoxedSystem {
    open spec fn configs_view(&self) -> NodeConfigsView<BoxedSystem, O> {
        NodeConfigsView::NodeConfig(system_config_view::<O>(*self))
    }

    fn into_configs(self) -> (r: SystemConfigs<O>) {
        SystemConfigs::new_system(self)
    }
}

/// Types that can convert into a [`SystemSetConfigs`].
pub trait IntoSystemSetConfigs<O>: Sized {
    /// Whether the value may be configured: a system type set may not.
    spec fn can_configure(&self) -> bool;

    /// The configuration this value converts into.
    spec fn set_configs_view(&self) -> NodeConfigsView<InternedSystemSet, O>;

    /// Convert into a [`SystemSetConfigs`].
    fn into_configs(self) -> (r: SystemSetConfigs<O>)
        requires
            self.can_configure(),
        ensures
            r@ == self.set_configs_view(),
    ;

    /// Adds these nodes to the provided `set`.
    fn in_set(self, set: InternedSystemSet) -> (r: SystemSetConfigs<O>)
        requires
            self.can_configure(),
            set.system_type is None,
        ensures
            r@ == self.set_configs_view().map_leaves(leaf_in_set(set)),
    {
        self.into_configs().in_set(set)
    }

    /// Runs before all nodes in `set`.
    fn before(self, set: InternedSystemSet) -> (r: SystemSetConfigs<O>)
        requires
            self.can_configure(),
        ensures
            r@ == self.set_configs_view().map_leaves(leaf_with_dependency(DependencyKind::Before, set)),
    {
        self.into_configs().before(set)
    }

    /// Runs after all nodes in `set`.
    fn after(self, set: InternedSystemSet) -> (r: SystemSetConfigs<O>)
        requires
            self.can_configure(),
        ensures
            r@ == self.set_configs_view().map_leaves(leaf_with_dependency(DependencyKind::After, set)),
    {
        self.into_configs().after(set)
    }

    /// Applies `option` to the entry for `key` in the options of every node.
    fn with_option<F: Fn(ConfigMapEntry<O>)>(self, key: u64, option: F) -> (r: SystemSetConfigs<O>)
        requires
            self.can_configure(),
            forall|e: ConfigMapEntry<O>| e.key == key ==> #[trigger] option.requires((e,)),
        ensures
            r@.map_leaves(leaf_without_config()) == self.set_configs_view().map_leaves(leaf_without_config()),
            self.set_configs_view().leaves().len() == r@.leaves().len(),
            forall|k: int| #[trigger] in_bounds(self.set_configs_view().leaves(), k) ==>
                exists|e: ConfigMapEntry<O>| {
                    &&& e.key == key
                    &&& same_options(mut_ref_current(e.map)@, self.set_configs_view().leaves()[k].config)
                    &&& same_options(mut_ref_future(e.map)@, r@.leaves()[k].config)
                    &&& #[trigger] option.ensures((e,), ())
                },
    {
        self.into_configs().with_option(key, option)
    }

    /// Applies `option` to the entry for `key` in the edge options of the last added
    /// dependency of every node. Must be called after [`before`](Self::before) or
    /// [`after`](Self::after).
    fn with_dependency_option<F: Fn(ConfigMapEntry<O>)>(self, key: u64, option: F) -> (r: SystemSetConfigs<O>)
        requires
            self.can_configure(),
            forall|e: ConfigMapEntry<O>| e.key == key ==> #[trigger] option.requires((e,)),
            exists|set: InternedSystemSet, kind: DependencyKind| self.set_configs_view().all_leaves(#[trigger] leaf_last_dependency_is(set, kind)),
        ensures
            r@.map_leaves(leaf_without_last_dependency_options())
                == self.set_configs_view().map_leaves(leaf_without_last_dependency_options()),
            self.set_configs_view().leaves().len() == r@.leaves().len(),
            forall|k: int| #[trigger] in_bounds(self.set_configs_view().leaves(), k) ==>
                exists|e: ConfigMapEntry<O>| {
                    &&& e.key == key
                    &&& same_options(mut_ref_current(e.map)@, self.set_configs_view().leaves()[k].graph_info.dependencies.last().options)
                    &&& same_options(mut_ref_future(e.map)@, r@.leaves()[k].graph_info.dependencies.last().options)
                    &&& #[trigger] option.ensures((e,), ())
                },
    {
        self.into_configs().with_dependency_option(key, option)
    }

    /// Runs the nodes only if `condition` holds; the condition is evaluated at most
    /// once per schedule run.
    fn run_if(self, condition: Condition) -> (r: SystemSetConfigs<O>)
        requires
            self.can_configure(),
            condition.is_send,
        ensures
            r@ == self.set_configs_view().with_run_if(condition),
    {
        self.into_configs().run_if(condition)
    }

    /// Suppresses ambiguities of these nodes with the nodes of `set`.
    fn ambiguous_with(self, set: InternedSystemSet) -> (r: SystemSetConfigs<O>)
        requires
            self.can_configure(),
        ensures
            r@ == self.set_configs_view().map_leaves(leaf_ambiguous_with(set)),
    {
        self.into_configs().ambiguous_with(set)
    }

    /// Suppresses every ambiguity of these nodes.
    fn ambiguous_with_all(self) -> (r: SystemSetConfigs<O>)
        requires
            self.can_configure(),
        ensures
            r@ == self.set_configs_view().map_leaves(leaf_ambiguous_with_all()),
    {
        self.into_configs().ambiguous_with_all()
    }

    /// Treats this collection as a sequence of nodes: ordering constraints will be
    /// applied between the successive elements.
    fn chain(self) -> (r: SystemSetConfigs<O>)
        requires
            self.can_configure(),
        ensures
            r@ == self.set_configs_view().chained(),
    {
        self.into_configs().chain()
    }

    /// Stores `option` under `key` in the edge options between the elements of the
    /// sequence. Must be called after [`chain`](Self::chain).
    fn with_chain_option(self, key: u64, option: O) -> (r: SystemSetConfigs<O>)
        requires
            self.can_configure(),
            self.set_configs_view().chain_option_allowed(),
        ensures
            r@ == self.set_configs_view().with_chain_option(key, option),
    {
        self.into_configs().with_chain_option(key, option)
    }
}

impl<O> IntoSystemSetConfigs<O> for NodeConfigs<InternedSystemSet, O> {
    open spec fn can_configure(&self) -> bool {
        true
    }

    open spec fn set_configs_view(&self) -> NodeConfigsView<InternedSystemSet, O> {
        self@
    }

    fn into_configs(self) -> (r: SystemSetConfigs<O>) {
        self
    }
}

impl<O> IntoSystemSetConfigs<O> for InternedSystemSet {
    open spec fn can_configure(&self) -> bool {
        self.system_type is None
    }

    open spec fn set_configs_view(&self) -> NodeConfigsView<InternedSystemSet, O> {
        NodeConfigsView::NodeConfig(set_config_view::<O>(*self))
    }

    fn into_configs(self) -> (r: SystemSetConfigs<O>) {
        SystemSetConfigs::NodeConfig(SystemSetConfig::new(self))
    }
}

impl<O> IntoSystemSetConfigs<O> for NodeConfig<InternedSystemSet, O> {
    open spec fn can_configure(&self) -> bool {
        true
    }

    open spec fn set_configs_view(&self) -> NodeConfigsView<InternedSystemSet, O> {
        NodeConfigsView::NodeConfig(self@)
    }

    fn into_configs(self) -> (r: SystemSetConfigs<O>) {
        SystemSetConfigs::NodeConfig(self)
    }
}

} // verus!
