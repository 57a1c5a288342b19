//! Sub-graphs: the providers that a sub-graph waits for, its readiness, the
//! step that deploys it into the live graph, and the node that runs it there.
use crate::keyed::KeyedStore;
use crate::named::NamedStore;
use crate::node::clone_slots;
use crate::render_graph::{
    InputSlotError, NodeLabel, NodeRunError, RenderGraphContext, RunSubGraphError, SlotInfo,
    SlotLabel, SlotValue,
};
use std::sync::atomic::AtomicBool;
use std::sync::Arc;
use vstd::prelude::*;

verus! {

/// Coarse readiness of a node provider, as the sub-graph that waits for it
/// sees it.
#[derive(Debug)]
pub enum ProviderState {
    /// Declared and never updated so far.
    Created,
    /// Some stage of the construction is still outstanding.
    Updating,
    /// The executable node exists and can be put into a graph.
    CanCreateNode,
    /// Construction failed; the message says why.
    Failed(String),
}

/// A [`ProviderState`] by value.
pub enum ProviderStateView {
    Created,
    Updating,
    CanCreateNode,
    Failed(Seq<char>),
}

impl View for ProviderState {
    type V = ProviderStateView;

    open spec fn view(&self) -> ProviderStateView {
        match *self {
            ProviderState::Created => ProviderStateView::Created,
            ProviderState::Updating => ProviderStateView::Updating,
            ProviderState::CanCreateNode => ProviderStateView::CanCreateNode,
            ProviderState::Failed(message) => ProviderStateView::Failed(message@),
        }
    }
}

impl Clone for ProviderState {
    fn clone(&self) -> (copy: Self)
        ensures
            copy == *self,
    {
        match self {
            ProviderState::Created => ProviderState::Created,
            ProviderState::Updating => ProviderState::Updating,
            ProviderState::CanCreateNode => ProviderState::CanCreateNode,
            ProviderState::Failed(message) => ProviderState::Failed(message.clone()),
        }
    }
}

impl Default for ProviderState {
    fn default() -> (state: Self)
        ensures
            state == ProviderState::Created,
    {
        ProviderState::Created
    }
}

impl ProviderState {
    /// Value equality: the same state, and for a failure the same message.
    pub fn same(&self, other: &Self) -> (same: bool)
        ensures
            same == (self@ == other@),
    {
        match (self, other) {
            (ProviderState::Created, ProviderState::Created) => true,
            (ProviderState::Updating, ProviderState::Updating) => true,
            (ProviderState::CanCreateNode, ProviderState::CanCreateNode) => true,
            (ProviderState::Failed(a), ProviderState::Failed(b)) => *a == *b,
            _ => false,
        }
    }
}

/// Two states are equal if they are the same state and, for a failure, carry
/// the same message.
impl PartialEq for ProviderState {
    fn eq(&self, other: &Self) -> (equal: bool) {
        self.same(other)
    }
}

impl Eq for ProviderState {

}

impl vstd::std_specs::cmp::PartialEqSpecImpl for ProviderState {
    open spec fn obeys_eq_spec() -> bool {
        true
    }

    open spec fn eq_spec(&self, other: &Self) -> bool {
        self@ == other@
    }
}

/// What a sub-graph knows of one provider that it waits for.
#[derive(Debug)]
pub struct ProviderDescriptor {
    /// The name of the provider's node in the sub-graph.
    pub name: String,
    /// The kind of the provider, as [`crate::NodeProvider::provider_type`]
    /// gives it.
    pub ty: u64,
    /// The readiness that was last seen.
    pub state: ProviderState,
}

impl Clone for ProviderDescriptor {
    fn clone(&self) -> (copy: Self)
        ensures
            copy == *self,
    {
        ProviderDescriptor { name: self.name.clone(), ty: self.ty, state: self.state.clone() }
    }
}

/// An edge between a sub-graph and the graph around it. It is resolved when
/// the sub-graph is deployed; the sub-graph's own end is then its runner node.
#[derive(Debug)]
pub enum Edge {
    /// From an output slot of an outer node into an input slot of the
    /// sub-graph.
    InputSlotEdge { output_node: NodeLabel, output_slot: SlotLabel, input_slot: SlotLabel },
    /// The sub-graph runs after an outer node.
    InputNodeEdge { output_node: NodeLabel },
    /// An outer node runs after the sub-graph.
    OutputNodeEdge { input_node: NodeLabel },
}

/// An edge of the live graph, between two of its nodes.
#[derive(Debug)]
pub enum ResolvedEdge {
    /// From an output slot of one node into an input slot of another.
    SlotEdge {
        output_node: NodeLabel,
        output_slot: SlotLabel,
        input_node: NodeLabel,
        input_slot: SlotLabel,
    },
    /// `input_node` runs after `output_node`.
    NodeEdge { output_node: NodeLabel, input_node: NodeLabel },
}

impl Edge {
    /// The edge of the live graph that this edge becomes once the sub-graph
    /// is deployed, with `runner` as the sub-graph's end: an edge into the
    /// sub-graph ends at the runner, and an edge out of it starts there.
    pub open spec fn spec_resolve(self, runner: NodeLabel) -> ResolvedEdge {
        match self {
            Edge::InputSlotEdge { output_node, output_slot, input_slot } => {
                ResolvedEdge::SlotEdge { output_node, output_slot, input_node: runner, input_slot }
            },
            Edge::InputNodeEdge { output_node } => ResolvedEdge::NodeEdge {
                output_node,
                input_node: runner,
            },
            Edge::OutputNodeEdge { input_node } => ResolvedEdge::NodeEdge {
                output_node: runner,
                input_node,
            },
        }
    }

    /// The edge of the live graph that this edge becomes once the sub-graph
    /// is deployed, with `runner` as the sub-graph's end.
    pub fn resolve(self, runner: NodeLabel) -> (edge: ResolvedEdge)
        ensures
            edge == self.spec_resolve(runner),
    {
        match self {
            Edge::InputSlotEdge { output_node, output_slot, input_slot } => {
                ResolvedEdge::SlotEdge { output_node, output_slot, input_node: runner, input_slot }
            },
            Edge::InputNodeEdge { output_node } => ResolvedEdge::NodeEdge {
                output_node,
                input_node: runner,
            },
            Edge::OutputNodeEdge { input_node } => ResolvedEdge::NodeEdge {
                output_node: runner,
                input_node,
            },
        }
    }
}

/// Where a sub-graph stands on its way into the live graph. It only moves
/// forward.
#[derive(Debug)]
pub enum SubGraphDeployState {
    /// Waiting for its providers, with the outer edges to resolve later.
    Queued(Vec<Edge>),
    /// The authoring side has handed the sub-graph over; this copy is done.
    MovedToRenderWorld,
    /// Part of the live graph.
    Deployed,
}

/// When a deployed sub-graph runs.
#[derive(Debug)]
pub enum SubGraphTrigger {
    /// In every run of the live graph.
    Always,
    /// Once for each time the shared flag was set.
    Manual(Arc<AtomicBool>),
}

/// `Arc::clone`: another handle to the same flag. Taken on trust.
#[verifier::external_body]
fn share_flag(flag: &Arc<AtomicBool>) -> (shared: Arc<AtomicBool>)
    ensures
        shared == *flag,
{
    flag.clone()
}

impl Clone for SubGraphTrigger {
    fn clone(&self) -> (copy: Self)
        ensures
            copy == *self,
    {
        match self {
            SubGraphTrigger::Always => SubGraphTrigger::Always,
            SubGraphTrigger::Manual(flag) => SubGraphTrigger::Manual(share_flag(flag)),
        }
    }
}

impl Default for SubGraphTrigger {
    fn default() -> (trigger: Self)
        ensures
            trigger is Always,
    {
        SubGraphTrigger::Always
    }
}

impl SubGraphTrigger {
    /// A manual trigger with a flag of its own: a new flag, made set or clear
    /// as `set` says.
    pub fn manual(set: bool) -> (trigger: Self)
        ensures
            trigger matches SubGraphTrigger::Manual(flag) && call_ensures(
                AtomicBool::new,
                (set,),
                *flag,
            ),
    {
        SubGraphTrigger::Manual(Arc::new(AtomicBool::new(set)))
    }

    /// Sets the flag of a manual trigger, for one run. Nothing happens to a
    /// trigger that always fires.
    pub fn set(&self) {
        match self {
            SubGraphTrigger::Manual(flag) => {
                flag.store(true, std::sync::atomic::Ordering::Relaxed);
            },
            SubGraphTrigger::Always => {},
        }
    }

    /// Whether `fired` is what asking the trigger may come to. A trigger that
    /// always fires does. A manual trigger fires with what the exchange of
    /// its flag for a clear one hands back.
    pub open spec fn fires_with(&self, fired: bool) -> bool {
        match self {
            SubGraphTrigger::Always => fired,
            SubGraphTrigger::Manual(flag) => call_ensures(
                AtomicBool::swap,
                (&**flag, false, std::sync::atomic::Ordering::Relaxed),
                fired,
            ),
        }
    }

    /// Whether the sub-graph runs this time. A manual trigger tests its flag
    /// and clears it in one step, so that a flag that was set once lets one
    /// run through: it fires with what the exchange of its flag for a clear
    /// one hands back. A trigger that always fires does.
    pub fn fire(&self) -> (fires: bool)
        ensures
            self is Always ==> fires,
            self.fires_with(fires),
    {
        match self {
            SubGraphTrigger::Manual(manual) => manual.swap(
                false,
                std::sync::atomic::Ordering::Relaxed,
            ),
            SubGraphTrigger::Always => true,
        }
    }
}

/// Whether some provider has failed.
pub open spec fn any_failed(providers: Map<u64, ProviderDescriptor>) -> bool {
    exists|entity: u64| #[trigger]
        providers.contains_key(entity) && providers[entity].state is Failed
}

/// Whether some provider is still updating.
pub open spec fn any_updating(providers: Map<u64, ProviderDescriptor>) -> bool {
    exists|entity: u64| #[trigger]
        providers.contains_key(entity) && providers[entity].state is Updating
}

/// Whether some provider was never updated.
pub open spec fn any_created(providers: Map<u64, ProviderDescriptor>) -> bool {
    exists|entity: u64| #[trigger]
        providers.contains_key(entity) && providers[entity].state is Created
}

/// Whether every provider can create its node.
pub open spec fn all_ready(providers: Map<u64, ProviderDescriptor>) -> bool {
    forall|entity: u64| #[trigger]
        providers.contains_key(entity) ==> providers[entity].state is CanCreateNode
}

/// The readiness of a sub-graph as a whole. A failure of any provider is the
/// failure of the sub-graph, with the state of one of the failed providers;
/// else one provider that updates makes the sub-graph update; else one that
/// was never updated leaves it created; and only where every provider can
/// create its node can the sub-graph.
pub open spec fn summarizes(
    providers: Map<u64, ProviderDescriptor>,
    summary: ProviderState,
) -> bool {
    if any_failed(providers) {
        exists|entity: u64| #[trigger]
            providers.contains_key(entity) && providers[entity].state is Failed && summary
                == providers[entity].state
    } else if any_updating(providers) {
        summary == ProviderState::Updating
    } else if any_created(providers) {
        summary == ProviderState::Created
    } else {
        summary == ProviderState::CanCreateNode
    }
}

/// A sub-graph can create its nodes if and only if every one of its providers
/// can.
pub proof fn lemma_ready_iff_all_ready(
    providers: Map<u64, ProviderDescriptor>,
    summary: ProviderState,
)
    requires
        summarizes(providers, summary),
    ensures
        summary is CanCreateNode <==> all_ready(providers),
{
    if all_ready(providers) {
        assert(!any_failed(providers));
        assert(!any_updating(providers));
        assert(!any_created(providers));
    } else {
        let entity = choose|entity: u64| #[trigger]
            providers.contains_key(entity) && !(providers[entity].state is CanCreateNode);
        match providers[entity].state {
            ProviderState::Failed(_) => {
                assert(any_failed(providers));
            },
            ProviderState::Updating => {
                assert(any_updating(providers));
            },
            ProviderState::Created => {
                assert(any_created(providers));
            },
            ProviderState::CanCreateNode => {},
        }
    }
}

/// One failed provider makes the sub-graph fail, whatever the state of the
/// others.
pub proof fn lemma_one_failure_fails_all(
    providers: Map<u64, ProviderDescriptor>,
    entity: u64,
    summary: ProviderState,
)
    requires
        providers.contains_key(entity),
        providers[entity].state is Failed,
        summarizes(providers, summary),
    ensures
        summary is Failed,
{
    assert(any_failed(providers));
}

/// A named part of the task graph that is deployed as a whole, once all its
/// providers are ready.
#[derive(Debug)]
pub struct SubGraph {
    pub name: String,
    /// The providers that the sub-graph waits for, by the bits of the entity
    /// that owns each.
    pub providers: KeyedStore<ProviderDescriptor>,
    /// The input slots of the sub-graph.
    pub inputs: Vec<SlotInfo>,
    pub graph: SubGraphDeployState,
    pub trigger: SubGraphTrigger,
}

/// A copy of the providers of a sub-graph.
pub fn clone_providers(providers: &KeyedStore<ProviderDescriptor>) -> (copy: KeyedStore<
    ProviderDescriptor,
>)
    requires
        providers.wf(),
    ensures
        copy.wf(),
        copy@ == providers@,
        copy.keys() == providers.keys(),
        copy.values() == providers.values(),
{
    let mut copy: KeyedStore<ProviderDescriptor> = KeyedStore::new();
    let mut i: usize = 0;
    proof {
        providers.lemma_view();
    }
    while i < providers.len()
        invariant
            providers.wf(),
            copy.wf(),
            i <= providers.keys().len(),
            providers.keys().len() == providers.values().len(),
            providers.keys().no_duplicates(),
            copy.keys() == providers.keys().take(i as int),
            copy.values() == providers.values().take(i as int),
        decreases providers.keys().len() - i,
    {
        let key = providers.key_at(i);
        let value = providers.value_at(i).clone();
        proof {
            copy.lemma_view();
            if copy@.contains_key(key) {
                let j = choose|j: int| 0 <= j < i && copy.keys()[j] == key;
                assert(providers.keys()[j] == providers.keys()[i as int]);
            }
            assert(providers.keys().take(i + 1) =~= providers.keys().take(i as int).push(key));
            assert(providers.values().take(i + 1) =~= providers.values().take(i as int).push(
                value,
            ));
        }
        copy.insert(key, value);
        i += 1;
    }
    proof {
        assert(providers.keys().take(i as int) =~= providers.keys());
        assert(providers.values().take(i as int) =~= providers.values());
        copy.lemma_same_slots(providers);
    }
    copy
}

impl SubGraph {
    /// The store of providers agrees with itself.
    pub open spec fn wf(&self) -> bool {
        self.providers.wf()
    }

    /// The readiness of the sub-graph as a whole, from the readiness that was
    /// last seen of each provider.
    pub fn providers_state_summary(&self) -> (summary: ProviderState)
        requires
            self.wf(),
        ensures
            summarizes(self.providers@, summary),
    {
        let mut has_created = false;
        let mut has_updating = false;
        let mut i: usize = 0;
        proof {
            self.providers.lemma_view();
        }
        while i < self.providers.len()
            invariant
                self.wf(),
                i <= self.providers.keys().len(),
                self.providers.keys().len() == self.providers.values().len(),
                forall|j: int| 0 <= j < i ==> !((#[trigger] self.providers.values()[j]).state is Failed),
                has_created <==> exists|j: int|
                    0 <= j < i && (#[trigger] self.providers.values()[j]).state is Created,
                has_updating <==> exists|j: int|
                    0 <= j < i && (#[trigger] self.providers.values()[j]).state is Updating,
            decreases self.providers.keys().len() - i,
        {
            let descriptor = self.providers.value_at(i);
            match &descriptor.state {
                ProviderState::Updating => {
                    has_updating = true;
                },
                ProviderState::Created => {
                    has_created = true;
                },
                ProviderState::Failed(_) => {
                    let summary = descriptor.state.clone();
                    proof {
                        self.providers.lemma_view();
                        let entity = self.providers.keys()[i as int];
                        assert(self.providers@.contains_key(entity));
                        assert(self.providers@[entity] == self.providers.values()[i as int]);
                    }
                    return summary;
                },
                _ => {},
            }
            i += 1;
        }
        proof {
            self.providers.lemma_view();
            let providers = self.providers@;
            assert(!any_failed(providers)) by {
                if any_failed(providers) {
                    let entity = choose|entity: u64| #[trigger]
                        providers.contains_key(entity) && providers[entity].state is Failed;
                    let j = choose|j: int|
                        0 <= j < self.providers.keys().len() && self.providers.keys()[j] == entity;
                    assert(providers[self.providers.keys()[j]] == self.providers.values()[j]);
                }
            }
            assert(has_updating == any_updating(providers)) by {
                if any_updating(providers) {
                    let entity = choose|entity: u64| #[trigger]
                        providers.contains_key(entity) && providers[entity].state is Updating;
                    let j = choose|j: int|
                        0 <= j < self.providers.keys().len() && self.providers.keys()[j] == entity;
                    assert(providers[self.providers.keys()[j]] == self.providers.values()[j]);
                }
                if has_updating {
                    let j = choose|j: int|
                        0 <= j < i && (#[trigger] self.providers.values()[j]).state is Updating;
                    assert(providers.contains_key(self.providers.keys()[j]));
                }
            }
            assert(has_created == any_created(providers)) by {
                if any_created(providers) {
                    let entity = choose|entity: u64| #[trigger]
                        providers.contains_key(entity) && providers[entity].state is Created;
                    let j = choose|j: int|
                        0 <= j < self.providers.keys().len() && self.providers.keys()[j] == entity;
                    assert(providers[self.providers.keys()[j]] == self.providers.values()[j]);
                }
                if has_created {
                    let j = choose|j: int|
                        0 <= j < i && (#[trigger] self.providers.values()[j]).state is Created;
                    assert(providers.contains_key(self.providers.keys()[j]));
                }
            }
        }
        if has_updating {
            ProviderState::Updating
        } else if has_created {
            ProviderState::Created
        } else {
            ProviderState::CanCreateNode
        }
    }
}

/// The node that stands for a deployed sub-graph in the live graph. It takes
/// the inputs of the sub-graph and hands them on when it runs.
#[derive(Debug)]
pub struct SubGraphRunnerNode {
    pub sub_graph_name: String,
    pub node_inputs: Vec<SlotInfo>,
    pub trigger: SubGraphTrigger,
}

/// What the host does to deploy one sub-graph: it registers the graph that
/// it assembled for the sub-graph of `entity` under `name`, adds `runner` as
/// a node of the same name, and resolves `edges` with that node as the
/// sub-graph's end.
#[derive(Debug)]
pub struct Deployment {
    pub entity: u64,
    pub name: String,
    pub runner: SubGraphRunnerNode,
    pub edges: Vec<Edge>,
}

impl Deployment {
    /// Whether this is the deployment of `sub_graph`, queued under `entity`.
    pub open spec fn deploys(&self, entity: u64, sub_graph: SubGraph) -> bool {
        &&& sub_graph.graph matches SubGraphDeployState::Queued(edges)
        &&& self.edges == edges
        &&& self.entity == entity
        &&& self.name == sub_graph.name
        &&& self.runner.sub_graph_name == sub_graph.name
        &&& self.runner.node_inputs@ == sub_graph.inputs@
        &&& self.runner.trigger == sub_graph.trigger
    }
}

/// The positions of the sub-graphs that are due for deployment, in order.
pub open spec fn pending(sub_graphs: Seq<SubGraph>) -> Seq<int>
    decreases sub_graphs.len(),
{
    if sub_graphs.len() == 0 {
        Seq::empty()
    } else if sub_graphs.last().deployable() {
        pending(sub_graphs.drop_last()).push(sub_graphs.len() - 1)
    } else {
        pending(sub_graphs.drop_last())
    }
}

/// Every pending position is a position of a sub-graph that is due.
pub proof fn lemma_pending_in_range(sub_graphs: Seq<SubGraph>)
    ensures
        forall|j: int|
            0 <= j < pending(sub_graphs).len() ==> 0 <= (#[trigger] pending(sub_graphs)[j])
                < sub_graphs.len() && sub_graphs[pending(sub_graphs)[j]].deployable(),
        forall|i: int|
            0 <= i < sub_graphs.len() && (#[trigger] sub_graphs[i]).deployable() ==> pending(
                sub_graphs,
            ).contains(i),
    decreases sub_graphs.len(),
{
    if sub_graphs.len() > 0 {
        let before = sub_graphs.drop_last();
        lemma_pending_in_range(before);
        assert forall|i: int|
            0 <= i < sub_graphs.len() && (#[trigger] sub_graphs[i]).deployable() implies pending(
            sub_graphs,
        ).contains(i) by {
            if i < sub_graphs.len() - 1 {
                assert(before[i].deployable());
                let j = choose|j: int| 0 <= j < pending(before).len() && pending(before)[j] == i;
                assert(pending(sub_graphs)[j] == i);
            } else {
                assert(pending(sub_graphs)[pending(sub_graphs).len() - 1] == i);
            }
        }
    }
}

/// The merge step leaves nothing to merge: once the sub-graphs that were due
/// are deployed, none is due, and a second step changes nothing and deploys
/// nothing. A sub-graph is thus deployed at most once.
pub proof fn lemma_merge_is_idempotent(before: Seq<SubGraph>, after: Seq<SubGraph>)
    requires
        after.len() == before.len(),
        forall|i: int| 0 <= i < before.len() ==> after[i] == (#[trigger] before[i]).deployed(),
    ensures
        pending(after) == Seq::<int>::empty(),
        forall|i: int| 0 <= i < after.len() ==> (#[trigger] after[i]).deployed() == after[i],
        forall|i: int|
            0 <= i < before.len() && !((#[trigger] before[i]).graph is Queued) ==> after[i]
                == before[i],
{
    lemma_pending_in_range(after);
    assert forall|i: int| 0 <= i < after.len() implies !(#[trigger] after[i]).deployable() by {
        assert(after[i] == before[i].deployed());
    }
    if pending(after).len() > 0 {
        assert(after[pending(after)[0]].deployable());
    }
    assert(pending(after) =~= Seq::<int>::empty());
}

impl SubGraph {
    /// Whether the sub-graph is due for deployment: it is queued, and every
    /// provider can create its node.
    pub open spec fn deployable(&self) -> bool {
        self.graph is Queued && all_ready(self.providers@)
    }

    /// The sub-graph after the merge step: deployed if it was due, and as it
    /// was otherwise.
    pub open spec fn deployed(self) -> SubGraph {
        if self.deployable() {
            SubGraph { graph: SubGraphDeployState::Deployed, ..self }
        } else {
            self
        }
    }

    /// Whether `copy` is the sub-graph as it was handed over: the same name,
    /// providers, inputs, trigger and queue.
    pub open spec fn handed_over_as(&self, copy: SubGraph) -> bool {
        &&& copy.wf()
        &&& copy.name == self.name
        &&& copy.providers@ == self.providers@
        &&& copy.providers.keys() == self.providers.keys()
        &&& copy.inputs@ == self.inputs@
        &&& copy.graph == self.graph
        &&& copy.trigger == self.trigger
    }

    /// Whether `after` is the cache `before` with this sub-graph handed over
    /// under `entity`, and every other sub-graph as it was.
    pub open spec fn handed_over_into(
        &self,
        entity: u64,
        before: Map<u64, SubGraph>,
        after: Map<u64, SubGraph>,
    ) -> bool {
        &&& after.dom() == before.dom().insert(entity)
        &&& self.handed_over_as(after[entity])
        &&& forall|other: u64|
            other != entity && before.contains_key(other) ==> after[other] == before[other]
    }

    /// Hands a queued sub-graph of the authoring side over to the cache of the
    /// render side, under the bits of the entity that owns it. The authoring
    /// side keeps the sub-graph without its queue. A sub-graph that is not
    /// queued stays where it is.
    pub fn extract_to_render_world(&mut self, entity: u64, sub_graph_cache: &mut SubGraphCache)
        requires
            old(self).wf(),
            old(sub_graph_cache).wf(),
        ensures
            final(self).wf(),
            final(sub_graph_cache).wf(),
            final(self).name == old(self).name,
            final(self).providers == old(self).providers,
            final(self).inputs == old(self).inputs,
            final(self).trigger == old(self).trigger,
            !(old(self).graph is Queued) ==> final(self).graph == old(self).graph,
            !(old(self).graph is Queued) ==> *final(sub_graph_cache) == *old(sub_graph_cache),
            old(self).graph is Queued ==> final(self).graph is MovedToRenderWorld,
            old(self).graph is Queued ==> old(self).handed_over_into(
                entity,
                old(sub_graph_cache).0@,
                final(sub_graph_cache).0@,
            ),
    {
        match &self.graph {
            SubGraphDeployState::Queued(_) => {},
            _ => {
                return ;
            },
        }
        let mut graph = SubGraphDeployState::MovedToRenderWorld;
        std::mem::swap(&mut self.graph, &mut graph);
        let copy = SubGraph {
            name: self.name.clone(),
            providers: clone_providers(&self.providers),
            inputs: clone_slots(&self.inputs),
            graph,
            trigger: self.trigger.clone(),
        };
        let ghost before = sub_graph_cache.0@;
        sub_graph_cache.0.insert(entity, copy);
        proof {
            assert(sub_graph_cache.0@.dom() =~= before.dom().insert(entity));
        }
    }
}

/// The sub-graphs of the render side, by the bits of the entity that owns
/// each.
#[derive(Debug)]
pub struct SubGraphCache(pub KeyedStore<SubGraph>);

impl Default for SubGraphCache {
    fn default() -> (cache: Self)
        ensures
            cache.wf(),
            cache.0@ == Map::<u64, SubGraph>::empty(),
    {
        SubGraphCache::new()
    }
}

impl SubGraphCache {
    /// The store agrees with itself, and so does every sub-graph in it.
    pub open spec fn wf(&self) -> bool {
        &&& self.0.wf()
        &&& forall|i: int| 0 <= i < self.0.values().len() ==> (#[trigger] self.0.values()[i]).wf()
    }

    /// A cache without sub-graphs.
    pub fn new() -> (cache: Self)
        ensures
            cache.wf(),
            cache.0@ == Map::<u64, SubGraph>::empty(),
    {
        SubGraphCache(KeyedStore::new())
    }

    /// The merge step. Every queued sub-graph whose providers can all create
    /// their nodes becomes deployed, and its deployment is handed out for the
    /// host to carry out; the deployments come in the order of the
    /// sub-graphs. Every other sub-graph stays as it is.
    pub fn update(&mut self) -> (deployments: Vec<Deployment>)
        requires
            old(self).wf(),
        ensures
            final(self).wf(),
            final(self).0.keys() == old(self).0.keys(),
            final(self).0.values().len() == old(self).0.values().len(),
            forall|i: int|
                0 <= i < old(self).0.values().len() ==> final(self).0.values()[i] == (
                #[trigger] old(self).0.values()[i]).deployed(),
            deployments@.len() == pending(old(self).0.values()).len(),
            forall|j: int|
                0 <= j < deployments@.len() ==> (#[trigger] deployments@[j]).deploys(
                    old(self).0.keys()[pending(old(self).0.values())[j]],
                    old(self).0.values()[pending(old(self).0.values())[j]],
                ),
    {
        let mut deployments: Vec<Deployment> = Vec::new();
        let mut i: usize = 0;
        proof {
            self.0.lemma_view();
        }
        while i < self.0.len()
            invariant
                self.0.wf(),
                old(self).wf(),
                self.0.keys() == old(self).0.keys(),
                self.0.keys().len() == self.0.values().len(),
                self.0.values().len() == old(self).0.values().len(),
                i <= self.0.keys().len(),
                forall|k: int|
                    0 <= k < i ==> self.0.values()[k] == (#[trigger] old(self).0.values()[k]).deployed(),
                forall|k: int|
                    i <= k < self.0.values().len() ==> self.0.values()[k] == old(self).0.values()[k],
                deployments@.len() == pending(old(self).0.values().take(i as int)).len(),
                forall|j: int|
                    0 <= j < deployments@.len() ==> (#[trigger] deployments@[j]).deploys(
                        old(self).0.keys()[pending(old(self).0.values().take(i as int))[j]],
                        old(self).0.values()[pending(old(self).0.values().take(i as int))[j]],
                    ),
            decreases self.0.keys().len() - i,
        {
            let entity = self.0.key_at(i);
            let ghost entry = old(self).0.values()[i as int];
            proof {
                assert(old(self).0.values().take(i + 1).drop_last() =~= old(self).0.values().take(
                    i as int,
                ));
                assert(old(self).0.values().take(i + 1).last() == entry);
                assert(entry.wf());
            }
            let sub_graph = self.0.value_mut_at(i);
            let queued = match &sub_graph.graph {
                SubGraphDeployState::Queued(_) => true,
                _ => false,
            };
            let mut ready = false;
            if queued {
                let summary = sub_graph.providers_state_summary();
                proof {
                    lemma_ready_iff_all_ready(sub_graph.providers@, summary);
                }
                ready = match summary {
                    ProviderState::CanCreateNode => true,
                    _ => false,
                };
            }
            if ready {
                let mut graph = SubGraphDeployState::Deployed;
                std::mem::swap(&mut sub_graph.graph, &mut graph);
                let edges = match graph {
                    SubGraphDeployState::Queued(edges) => edges,
                    _ => Vec::new(),
                };
                let name = sub_graph.name.clone();
                let runner = SubGraphRunnerNode {
                    sub_graph_name: name.clone(),
                    node_inputs: clone_slots(&sub_graph.inputs),
                    trigger: sub_graph.trigger.clone(),
                };
                deployments.push(Deployment { entity, name, runner, edges });
                assert(*sub_graph == entry.deployed());
            } else {
                assert(*sub_graph == entry.deployed());
            }
            i += 1;
        }
        proof {
            assert(old(self).0.values().take(i as int) =~= old(self).0.values());
            assert forall|k: int| 0 <= k < self.0.values().len() implies (
            #[trigger] self.0.values()[k]).wf() by {
                assert(self.0.values()[k] == old(self).0.values()[k].deployed());
            }
        }
        deployments
    }
}

/// What the host does after the runner node ran.
#[derive(Debug)]
pub enum SubGraphRun {
    /// The trigger did not fire: nothing to do.
    Skipped,
    /// Run the sub-graph with these values for its input slots, in the order
    /// of the slots.
    Run { sub_graph_name: String, inputs: Vec<SlotValue> },
}

/// The values that the runner has for the sub-graph after it read its own
/// input slots one after the other: each by the name of its slot, a later
/// slot of the same name taking the place of an earlier.
pub open spec fn gathered(node_inputs: Seq<SlotInfo>, read: Seq<SlotValue>) -> Map<
    Seq<char>,
    SlotValue,
>
    decreases node_inputs.len(),
{
    if node_inputs.len() == 0 {
        Map::empty()
    } else {
        gathered(node_inputs.drop_last(), read).insert(
            node_inputs.last().name@,
            read[node_inputs.len() - 1],
        )
    }
}

/// Whether slot `k` of the sub-graph gets a value: there is one under its
/// name, and no earlier slot of the same name has used it up.
pub open spec fn supplied(
    slots: Seq<SlotInfo>,
    available: Map<Seq<char>, SlotValue>,
    k: int,
) -> bool {
    available.contains_key(slots[k].name@) && forall|j: int|
        0 <= j < k ==> (#[trigger] slots[j]).name@ != slots[k].name@
}

impl SubGraphRunnerNode {
    /// The input slots of the node: those of the sub-graph.
    pub fn input(&self) -> (slots: Vec<SlotInfo>)
        ensures
            slots@ == self.node_inputs@,
    {
        clone_slots(&self.node_inputs)
    }

    /// Whether `result` is what forwarding `available` into `slots` comes to:
    /// the value of each slot by the slot's name, in the order of the slots,
    /// or the first slot that gets none.
    pub open spec fn forwards(
        &self,
        available: Map<Seq<char>, SlotValue>,
        slots: Seq<SlotInfo>,
        result: Result<Vec<SlotValue>, NodeRunError>,
    ) -> bool {
        match result {
            Ok(inputs) => {
                &&& inputs@.len() == slots.len()
                &&& forall|k: int|
                    0 <= k < slots.len() ==> supplied(slots, available, k) && (
                    #[trigger] inputs@[k]) == available[slots[k].name@]
            },
            Err(error) => {
                &&& error matches NodeRunError::RunSubGraphError(
                    RunSubGraphError::MissingInput { slot_index, slot_name, graph_name },
                )
                &&& slot_index < slots.len()
                &&& !supplied(slots, available, slot_index as int)
                &&& forall|k: int| 0 <= k < slot_index ==> supplied(slots, available, k)
                &&& slot_name == slots[slot_index as int].name
                &&& graph_name == self.sub_graph_name
            },
        }
    }

    /// Forwards the gathered values into the input slots of the sub-graph, by
    /// name. A slot for which no value is left is an error that names the
    /// slot and the sub-graph.
    pub fn forward_inputs(&self, available: NamedStore<SlotValue>, slots: &Vec<SlotInfo>) -> (result:
        Result<Vec<SlotValue>, NodeRunError>)
        requires
            available.wf(),
        ensures
            self.forwards(available@, slots@, result),
    {
        let mut left = available;
        let mut input_values: Vec<SlotValue> = Vec::new();
        let mut index: usize = 0;
        while index < slots.len()
            invariant
                left.wf(),
                index <= slots.len(),
                input_values@.len() == index,
                forall|name: Seq<char>| #[trigger]
                    left@.contains_key(name) ==> available@.contains_key(name) && left@[name]
                        == available@[name],
                forall|j: int| 0 <= j < index ==> !left@.contains_key((#[trigger] slots@[j]).name@),
                forall|name: Seq<char>|
                    #![trigger available@.contains_key(name)]
                    available@.contains_key(name) && !left@.contains_key(name) ==> exists|j: int|
                        0 <= j < index && (#[trigger] slots@[j]).name@ == name,
                forall|k: int| 0 <= k < index ==> #[trigger] supplied(slots@, available@, k),
                forall|k: int|
                    0 <= k < index ==> (#[trigger] input_values@[k]) == available@[slots@[k].name@],
            decreases slots.len() - index,
        {
            let info = &slots[index];
            let ghost name = info.name@;
            let ghost before = left@;
            match left.remove(&info.name) {
                Some(value) => {
                    proof {
                        assert(before.contains_key(name));
                        assert(supplied(slots@, available@, index as int));
                        assert forall|other: Seq<char>|
                            #![trigger available@.contains_key(other)]
                            available@.contains_key(other) && !left@.contains_key(
                                other,
                            ) implies exists|j: int|
                            0 <= j < index + 1 && (#[trigger] slots@[j]).name@ == other by {
                            if other == name {
                                assert(slots@[index as int].name@ == other);
                            } else {
                                assert(!before.contains_key(other));
                                let j = choose|j: int|
                                    0 <= j < index && (#[trigger] slots@[j]).name@ == other;
                                assert(slots@[j].name@ == other);
                            }
                        }
                    }
                    input_values.push(value);
                },
                None => {
                    proof {
                        assert(!before.contains_key(name));
                        if available@.contains_key(name) {
                            let j = choose|j: int|
                                0 <= j < index && (#[trigger] slots@[j]).name@ == name;
                            assert(slots@[j].name@ == slots@[index as int].name@);
                        }
                        assert(!supplied(slots@, available@, index as int));
                    }
                    return Err(
                        NodeRunError::RunSubGraphError(
                            RunSubGraphError::MissingInput {
                                slot_index: index,
                                slot_name: info.name.clone(),
                                graph_name: self.sub_graph_name.clone(),
                            },
                        ),
                    );
                },
            }
            index += 1;
        }
        Ok(input_values)
    }

    /// Whether `read` holds, for each of the first `upto` input slots of the
    /// node, a value that the host may hand out for it.
    pub open spec fn reads<C: RenderGraphContext>(
        &self,
        graph: &C,
        read: Seq<SlotValue>,
        upto: int,
    ) -> bool {
        &&& read.len() == upto
        &&& forall|i: int|
            0 <= i < upto ==> call_ensures(
                C::get_input,
                (graph, &self.node_inputs@[i].name),
                Ok(#[trigger] read[i]),
            )
    }

    /// Whether `result` is what a run comes to once the trigger has fired.
    /// The node reads its input slots in order; the first that the host
    /// refuses ends the run with the host's error. With all of them read,
    /// a sub-graph that the live graph does not have is an error that names
    /// it, and one that it has gets the values forwarded by name.
    pub open spec fn runs<C: RenderGraphContext>(
        &self,
        graph: &C,
        sub_graph_inputs: Option<&Vec<SlotInfo>>,
        result: Result<SubGraphRun, NodeRunError>,
    ) -> bool {
        ||| exists|i: int, refused: InputSlotError|
            {
                &&& 0 <= i < self.node_inputs@.len()
                &&& #[trigger] call_ensures(
                    C::get_input,
                    (graph, &self.node_inputs@[i].name),
                    Err(refused),
                )
                &&& exists|read: Seq<SlotValue>| #[trigger] self.reads(graph, read, i)
                &&& result == Err::<SubGraphRun, NodeRunError>(
                    NodeRunError::InputSlotError(refused),
                )
            }
        ||| exists|read: Seq<SlotValue>|
            {
                &&& #[trigger] self.reads(graph, read, self.node_inputs@.len() as int)
                &&& match sub_graph_inputs {
                    None => {
                        &&& result matches Err(
                            NodeRunError::RunSubGraphError(RunSubGraphError::MissingSubGraph(name)),
                        )
                        &&& name == self.sub_graph_name
                    },
                    Some(slots) => match result {
                        Ok(SubGraphRun::Run { sub_graph_name, inputs }) => sub_graph_name
                            == self.sub_graph_name && self.forwards(
                            gathered(self.node_inputs@, read),
                            slots@,
                            Ok(inputs),
                        ),
                        Ok(_) => false,
                        Err(error) => self.forwards(
                            gathered(self.node_inputs@, read),
                            slots@,
                            Err(error),
                        ),
                    },
                }
            }
    }

    /// The run of the node once the trigger has fired. `sub_graph_inputs` are
    /// the input slots of the sub-graph as the live graph has it, or `None`
    /// where it has no sub-graph of that name.
    pub fn run_triggered<C: RenderGraphContext>(
        &self,
        graph: &C,
        sub_graph_inputs: Option<&Vec<SlotInfo>>,
    ) -> (result: Result<SubGraphRun, NodeRunError>)
        ensures
            self.runs(graph, sub_graph_inputs, result),
    {
        let mut gathered_inputs: NamedStore<SlotValue> = NamedStore::new();
        let ghost mut read: Seq<SlotValue> = Seq::empty();
        let mut i: usize = 0;
        while i < self.node_inputs.len()
            invariant
                gathered_inputs.wf(),
                i <= self.node_inputs.len(),
                self.reads(graph, read, i as int),
                gathered_inputs@ == gathered(self.node_inputs@.take(i as int), read),
            decreases self.node_inputs.len() - i,
        {
            let node_input = &self.node_inputs[i];
            match graph.get_input(&node_input.name) {
                Ok(value) => {
                    proof {
                        let before = read;
                        read = read.push(value);
                        assert(self.node_inputs@.take(i + 1).drop_last() =~= self.node_inputs@.take(
                            i as int,
                        ));
                        lemma_gathered_prefix(self.node_inputs@.take(i as int), before, read);
                    }
                    gathered_inputs.insert(node_input.name.clone(), value);
                },
                Err(refused) => {
                    proof {
                        assert(self.reads(graph, read, i as int));
                    }
                    return Err(NodeRunError::InputSlotError(refused));
                },
            }
            i += 1;
        }
        proof {
            assert(self.node_inputs@.take(i as int) =~= self.node_inputs@);
            assert(self.reads(graph, read, self.node_inputs@.len() as int));
        }
        match sub_graph_inputs {
            Some(slots) => {
                match self.forward_inputs(gathered_inputs, slots) {
                    Ok(inputs) => Ok(
                        SubGraphRun::Run { sub_graph_name: self.sub_graph_name.clone(), inputs },
                    ),
                    Err(error) => Err(error),
                }
            },
            None => Err(
                NodeRunError::RunSubGraphError(
                    RunSubGraphError::MissingSubGraph(self.sub_graph_name.clone()),
                ),
            ),
        }
    }

    /// Whether `result` is what a run comes to once the trigger was asked
    /// and answered `fired`: a trigger that did not fire skips the run, and
    /// nothing is read or forwarded; one that fired lets the run go on as
    /// [`Self::runs`] says.
    pub open spec fn runs_after_trigger<C: RenderGraphContext>(
        &self,
        fired: bool,
        graph: &C,
        sub_graph_inputs: Option<&Vec<SlotInfo>>,
        result: Result<SubGraphRun, NodeRunError>,
    ) -> bool {
        if fired {
            self.runs(graph, sub_graph_inputs, result)
        } else {
            result == Ok::<SubGraphRun, NodeRunError>(SubGraphRun::Skipped)
        }
    }

    /// The run of the node once its trigger was asked: `fired` is the
    /// trigger's answer. Without it the run is skipped, and the host is asked
    /// nothing.
    pub fn run_after_trigger<C: RenderGraphContext>(
        &self,
        fired: bool,
        graph: &C,
        sub_graph_inputs: Option<&Vec<SlotInfo>>,
    ) -> (result: Result<SubGraphRun, NodeRunError>)
        ensures
            !fired ==> result == Ok::<SubGraphRun, NodeRunError>(SubGraphRun::Skipped),
            fired ==> self.runs(graph, sub_graph_inputs, result),
            self.runs_after_trigger(fired, graph, sub_graph_inputs, result),
    {
        if !fired {
            return Ok(SubGraphRun::Skipped);
        }
        self.run_triggered(graph, sub_graph_inputs)
    }

    /// One run of the node in the live graph. The trigger is asked once, and
    /// the run goes on or is skipped by its answer, as
    /// [`Self::run_after_trigger`] says. A trigger that always fires never
    /// skips.
    pub fn run<C: RenderGraphContext>(
        &self,
        graph: &C,
        sub_graph_inputs: Option<&Vec<SlotInfo>>,
    ) -> (result: Result<SubGraphRun, NodeRunError>)
        ensures
            self.trigger is Always ==> self.runs(graph, sub_graph_inputs, result),
            exists|fired: bool| #[trigger]
                self.trigger.fires_with(fired) && self.runs_after_trigger(
                    fired,
                    graph,
                    sub_graph_inputs,
                    result,
                ),
    {
        let fired = self.trigger.fire();
        self.run_after_trigger(fired, graph, sub_graph_inputs)
    }
}

/// What was gathered from the first slots does not depend on what is read
/// from the later ones.
pub proof fn lemma_gathered_prefix(
    node_inputs: Seq<SlotInfo>,
    read: Seq<SlotValue>,
    longer: Seq<SlotValue>,
)
    requires
        node_inputs.len() <= read.len() <= longer.len(),
        forall|i: int| 0 <= i < read.len() ==> read[i] == longer[i],
    ensures
        gathered(node_inputs, read) == gathered(node_inputs, longer),
    decreases node_inputs.len(),
{
    if node_inputs.len() > 0 {
        lemma_gathered_prefix(node_inputs.drop_last(), read, longer);
    }
}

} // verus!
