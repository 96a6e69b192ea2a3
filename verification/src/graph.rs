//! The scheduling metadata that configuration attaches to a node: the sets it
//! belongs to, its ordering dependencies, its ambiguity settings, and the run
//! conditions and systems that nodes carry.
use vstd::prelude::*;
use crate::config_map::ConfigMap;

verus! {

/// An interned system set: the identity of a set, and, for a set that stands for a
/// single system type, the key of that type.
#[derive(Clone, Copy, Debug, PartialEq, Eq, Structural)]
pub struct InternedSystemSet {
    pub id: u64,
    pub system_type: Option<u64>,
}

impl InternedSystemSet {
    /// The key of the system type this set stands for, if it is a system type set.
    pub fn system_type(&self) -> (r: Option<u64>)
        ensures
            r == self.system_type,
    {
        self.system_type
    }
}

/// Whether a dependency orders a node before or after a set.
#[derive(Clone, Copy, Debug, PartialEq, Eq, Structural)]
pub enum DependencyKind {
    /// The node runs before the set.
    Before,
    /// The node runs after the set.
    After,
}

/// An ordering dependency of a node on a set, with per-edge options.
pub struct Dependency<O> {
    pub kind: DependencyKind,
    pub set: InternedSystemSet,
    pub options: ConfigMap<O>,
}

/// The mathematical value of a [`Dependency`].
pub struct DependencyView<O> {
    pub kind: DependencyKind,
    pub set: InternedSystemSet,
    pub options: Map<u64, O>,
}

impl<O> View for Dependency<O> {
    type V = DependencyView<O>;

    open spec fn view(&self) -> DependencyView<O> {
        DependencyView { kind: self.kind, set: self.set, options: self.options@ }
    }
}

impl<O> Dependency<O> {
    /// A dependency of the given kind on `set`, with no edge options.
    pub fn new(kind: DependencyKind, set: InternedSystemSet) -> (r: Self)
        ensures
            r@ == (DependencyView { kind, set, options: Map::<u64, O>::empty() }),
    {
        Dependency { kind, set, options: ConfigMap::new() }
    }
}

/// How ambiguities (conflicting access with no order between them) are reported
/// for a node.
pub enum Ambiguity {
    /// Report every ambiguity.
    Check,
    /// Ignore ambiguities with the nodes of these sets.
    IgnoreWithSet(Vec<InternedSystemSet>),
    /// Ignore every ambiguity.
    IgnoreAll,
}

/// The mathematical value of an [`Ambiguity`].
pub enum AmbiguityView {
    Check,
    IgnoreWithSet(Seq<InternedSystemSet>),
    IgnoreAll,
}

impl View for Ambiguity {
    type V = AmbiguityView;

    open spec fn view(&self) -> AmbiguityView {
        match self {
            Ambiguity::Check => AmbiguityView::Check,
            Ambiguity::IgnoreWithSet(sets) => AmbiguityView::IgnoreWithSet(sets@),
            Ambiguity::IgnoreAll => AmbiguityView::IgnoreAll,
        }
    }
}

impl Default for Ambiguity {
    fn default() -> (r: Self)
        ensures
            r@ == AmbiguityView::Check,
    {
        Ambiguity::Check
    }
}

/// What ignoring ambiguities with `set` makes of an ambiguity setting.
pub open spec fn ambiguity_with_set(a: AmbiguityView, set: InternedSystemSet) -> AmbiguityView {
    match a {
        AmbiguityView::Check => AmbiguityView::IgnoreWithSet(seq![set]),
        AmbiguityView::IgnoreWithSet(sets) => AmbiguityView::IgnoreWithSet(sets.push(set)),
        AmbiguityView::IgnoreAll => AmbiguityView::IgnoreAll,
    }
}

/// Hierarchy and dependency metadata of a node.
pub struct GraphInfo<O> {
    /// The sets the node belongs to.
    pub hierarchy: Vec<InternedSystemSet>,
    /// The ordering dependencies of the node, in the order they were added.
    pub dependencies: Vec<Dependency<O>>,
    /// The node's ambiguity setting.
    pub ambiguous_with: Ambiguity,
}

/// The mathematical value of a [`GraphInfo`].
pub struct GraphInfoView<O> {
    pub hierarchy: Seq<InternedSystemSet>,
    pub dependencies: Seq<DependencyView<O>>,
    pub ambiguous_with: AmbiguityView,
}

impl<O> View for GraphInfo<O> {
    type V = GraphInfoView<O>;

    open spec fn view(&self) -> GraphInfoView<O> {
        GraphInfoView {
            hierarchy: self.hierarchy@,
            dependencies: dependencies_view(self.dependencies@),
            ambiguous_with: self.ambiguous_with@,
        }
    }
}

/// The values of a sequence of dependencies.
pub open spec fn dependencies_view<O>(deps: Seq<Dependency<O>>) -> Seq<DependencyView<O>> {
    deps.map_values(|d: Dependency<O>| d@)
}

/// Graph metadata with no sets, no dependencies and every ambiguity reported.
pub open spec fn empty_graph_info<O>() -> GraphInfoView<O> {
    GraphInfoView {
        hierarchy: Seq::empty(),
        dependencies: Seq::empty(),
        ambiguous_with: AmbiguityView::Check,
    }
}

impl<O> Default for GraphInfo<O> {
    fn default() -> (r: Self)
        ensures
            r@ == empty_graph_info::<O>(),
    {
        let r = GraphInfo {
            hierarchy: Vec::new(),
            dependencies: Vec::new(),
            ambiguous_with: Ambiguity::Check,
        };
        assert(dependencies_view(r.dependencies@) =~= Seq::<DependencyView<O>>::empty());
        r
    }
}

/// Sets `graph_info` to ignore ambiguities with `set`.
pub fn ambiguous_with<O>(graph_info: &mut GraphInfo<O>, set: InternedSystemSet)
    ensures
        final(graph_info)@ == (GraphInfoView {
            ambiguous_with: ambiguity_with_set(old(graph_info)@.ambiguous_with, set),
            ..old(graph_info)@
        }),
{
    match &mut graph_info.ambiguous_with {
        Ambiguity::Check => {
            let sets = vec![set];
            assert(sets@ =~= seq![set]);
            graph_info.ambiguous_with = Ambiguity::IgnoreWithSet(sets);
        },
        Ambiguity::IgnoreWithSet(sets) => {
            sets.push(set);
        },
        Ambiguity::IgnoreAll => {},
    }
}

/// Whether the elements of a collection are ordered one after another.
pub enum Chain<O> {
    /// No ordering is applied between the elements.
    Unchained,
    /// The elements are ordered one after another, with these edge options.
    Chained(ConfigMap<O>),
}

/// The mathematical value of a [`Chain`].
pub enum ChainView<O> {
    Unchained,
    Chained(Map<u64, O>),
}

impl<O> View for Chain<O> {
    type V = ChainView<O>;

    open spec fn view(&self) -> ChainView<O> {
        match self {
            Chain::Unchained => ChainView::Unchained,
            Chain::Chained(options) => ChainView::Chained(options@),
        }
    }
}

impl<O> Default for Chain<O> {
    fn default() -> (r: Self)
        ensures
            r@ == ChainView::<O>::Unchained,
    {
        Chain::Unchained
    }
}

/// A run condition: a read-only system returning `bool`, named by its id.
/// `is_send` tells whether it may run on any thread.
#[derive(Clone, Copy, Debug, PartialEq, Eq, Structural)]
pub struct Condition {
    pub id: u64,
    pub is_send: bool,
}

/// A boxed run condition.
pub type BoxedCondition = Box<Condition>;

/// Turns a run condition into a boxed one; the condition must be `Send`.
pub fn new_condition(condition: Condition) -> (r: BoxedCondition)
    requires
        condition.is_send,
    ensures
        *r == condition,
{
    Box::new(condition)
}

/// A system, named by its id, with the sets it belongs to by default.
pub struct System {
    pub id: u64,
    pub default_sets: Vec<InternedSystemSet>,
}

impl System {
    /// The sets the system belongs to by default.
    pub fn default_system_sets(&self) -> (r: Vec<InternedSystemSet>)
        ensures
            r@ == self.default_sets@,
    {
        let mut r: Vec<InternedSystemSet> = Vec::new();
        let n = self.default_sets.len();
        for i in 0..n
            invariant
                n == self.default_sets.len(),
                r@ == self.default_sets@.take(i as int),
        {
            r.push(self.default_sets[i]);
            assert(self.default_sets@.take(i + 1) == self.default_sets@.take(i as int).push(self.default_sets@[i as int]));
        }
        assert(self.default_sets@.take(n as int) == self.default_sets@);
        r
    }
}

/// A boxed system.
pub type BoxedSystem = Box<System>;

} // verus!
