//! Deferred compute task graphs: node providers whose pipelines are built over
//! several scheduling ticks, sub-graphs that join the live graph once every
//! provider is ready, a descriptor-keyed cache of device resources and the
//! read-back of output buffers.
//!
//! The library holds the decisions. What only the host can do (compiling a
//! pipeline, making a device resource, reading a slot of the running graph)
//! is asked of it through the traits of [`render_graph`] and
//! [`render_resource`]; what the host has to carry out afterwards comes back
//! as plain values.
use crate::graph::{
    ProviderDescriptor, ProviderState, SubGraph, SubGraphCache, SubGraphDeployState,
};
use crate::keyed::KeyedStore;
use std::marker::PhantomData;
use vstd::prelude::*;

pub mod builder;
pub mod graph;
pub mod keyed;
pub mod named;
pub mod node;
pub mod render_graph;
pub mod render_resource;
pub mod resource;

verus! {

/// The entity of the authoring side that a component of the render side was
/// taken from, by its bits.
#[derive(Clone, Copy, Debug, PartialEq, Eq, Structural)]
pub struct MainWorldEntity(pub u64);

/// The request to put `node` into a graph under `name`: in place of the node
/// that has the name, or as a new node where none has it.
#[derive(Debug)]
pub struct AddNode<N> {
    pub name: String,
    pub node: N,
}

/// A source of one node of a sub-graph whose construction takes time. `W` is
/// what the host lends the provider for a tick of its construction.
pub trait NodeProvider<W>: Sized {
    /// What the provider puts into a graph.
    type Node;

    /// What has to hold of a provider for it to be used.
    spec fn provider_wf(&self) -> bool;

    /// The kind of the provider: one number for all providers of one type.
    spec fn spec_provider_type() -> u64;

    /// The kind of the provider: one number for all providers of one type.
    fn provider_type() -> (ty: u64)
        ensures
            ty == Self::spec_provider_type(),
    ;

    /// Called by the host when the component on the authoring side has
    /// changed.
    fn on_component_changed(&mut self)
        requires
            old(self).provider_wf(),
        ensures
            final(self).provider_wf(),
    ;

    /// Whether `after` is this provider one tick later.
    spec fn updated(&self, world: &W, after: Self) -> bool;

    /// One tick of the construction.
    fn update(&mut self, world: &W)
        requires
            old(self).provider_wf(),
        ensures
            final(self).provider_wf(),
            old(self).updated(world, *final(self)),
    ;

    /// The readiness of the provider.
    spec fn spec_state(&self) -> ProviderState;

    /// The readiness of the provider.
    fn state(&self) -> (state: ProviderState)
        requires
            self.provider_wf(),
        ensures
            state == self.spec_state(),
    ;

    /// Whether `node` is what the provider puts into a graph at present.
    spec fn provides(&self, node: Self::Node) -> bool;

    /// The request to put the provider's node into a graph under
    /// `node_name`.
    fn add_node_to_graph(&self, node_name: String) -> (request: AddNode<Self::Node>)
        requires
            self.provider_wf(),
        ensures
            request.name == node_name,
            self.provides(request.node),
    ;
}

/// The providers of one type on the render side, by the bits of the entity
/// on the authoring side that each was taken from.
#[derive(Debug)]
pub struct NodeProviderCache<T>(pub KeyedStore<T>);

/// The providers after the components that were taken over this tick have
/// gone in, one after the other, each in place of the provider that its
/// entity had.
pub open spec fn taken_over<T>(
    providers: Map<u64, T>,
    extracted: Seq<(T, MainWorldEntity)>,
) -> Map<u64, T>
    decreases extracted.len(),
{
    if extracted.len() == 0 {
        providers
    } else {
        taken_over(providers, extracted.drop_last()).insert(
            extracted.last().1.0,
            extracted.last().0,
        )
    }
}

impl<T> Default for NodeProviderCache<T> {
    fn default() -> (cache: Self)
        ensures
            cache.0.wf(),
            cache.0@ == Map::<u64, T>::empty(),
            cache.0.values() == Seq::<T>::empty(),
    {
        NodeProviderCache::new()
    }
}

impl<T> NodeProviderCache<T> {
    /// The store agrees with itself, and every provider in it can be used.
    pub open spec fn wf<W>(&self) -> bool where T: NodeProvider<W> {
        &&& self.0.wf()
        &&& forall|i: int|
            0 <= i < self.0.values().len() ==> (#[trigger] self.0.values()[i]).provider_wf()
    }

    /// A cache without providers.
    pub fn new() -> (cache: Self)
        ensures
            cache.0.wf(),
            cache.0@ == Map::<u64, T>::empty(),
            cache.0.values() == Seq::<T>::empty(),
    {
        NodeProviderCache(KeyedStore::new())
    }

    /// One tick of the providers of this type. The components that were taken
    /// over from the authoring side go into the cache, each in place of the
    /// provider that its entity had; then every provider in the cache gets
    /// its tick.
    pub fn update<W>(&mut self, extracted: Vec<(T, MainWorldEntity)>, world: &W) where
        T: NodeProvider<W>,

        requires
            old(self).wf::<W>(),
            forall|i: int| 0 <= i < extracted@.len() ==> (#[trigger] extracted@[i]).0.provider_wf(),
        ensures
            final(self).wf::<W>(),
            final(self).0@.dom() == taken_over(old(self).0@, extracted@).dom(),
            forall|entity: u64| #[trigger]
                final(self).0@.contains_key(entity) ==> taken_over(
                    old(self).0@,
                    extracted@,
                )[entity].updated(world, final(self).0@[entity]),
    {
        let ghost all = extracted@;
        for item in iter: extracted.into_iter()
            invariant
                iter.seq() == all,
                forall|i: int| 0 <= i < all.len() ==> (#[trigger] all[i]).0.provider_wf(),
                self.wf::<W>(),
                self.0@ == taken_over(old(self).0@, all.take(iter.index() as int)),
        {
            proof {
                let k = iter.index() as int;
                assert(all.take(k + 1).drop_last() =~= all.take(k));
                assert(all.take(k + 1).last() == all[k]);
                assert(item == all[k]);
            }
            let (provider, entity) = item;
            self.0.insert(entity.0, provider);
        }
        proof {
            assert(all.take(all.len() as int) =~= all);
        }
        let ghost start = self.0;
        let mut i: usize = 0;
        proof {
            start.lemma_view();
        }
        while i < self.0.len()
            invariant
                start.wf(),
                self.0.wf(),
                self.0.keys() == start.keys(),
                self.0.keys().len() == self.0.values().len(),
                start.keys().len() == start.values().len(),
                i <= self.0.keys().len(),
                forall|k: int|
                    0 <= k < self.0.values().len() ==> (#[trigger] self.0.values()[k]).provider_wf(),
                forall|k: int|
                    0 <= k < i ==> (#[trigger] start.values()[k]).updated(world, self.0.values()[k]),
                forall|k: int|
                    i <= k < self.0.values().len() ==> self.0.values()[k] == start.values()[k],
            decreases self.0.keys().len() - i,
        {
            let provider = self.0.value_mut_at(i);
            provider.update(world);
            i += 1;
        }
        proof {
            self.0.lemma_view();
            start.lemma_view();
            assert(self.0@.dom() =~= start@.dom()) by {
                assert forall|entity: u64| self.0@.contains_key(entity) == start@.contains_key(
                    entity,
                ) by {
                    if self.0@.contains_key(entity) {
                        let j = choose|j: int|
                            0 <= j < self.0.keys().len() && self.0.keys()[j] == entity;
                        assert(start@.contains_key(start.keys()[j]));
                    }
                    if start@.contains_key(entity) {
                        let j = choose|j: int|
                            0 <= j < start.keys().len() && start.keys()[j] == entity;
                        assert(self.0@.contains_key(self.0.keys()[j]));
                    }
                }
            }
            assert forall|entity: u64| #[trigger]
                self.0@.contains_key(entity) implies start@[entity].updated(
                world,
                self.0@[entity],
            ) by {
                let j = choose|j: int| 0 <= j < self.0.keys().len() && self.0.keys()[j] == entity;
                assert(self.0@[self.0.keys()[j]] == self.0.values()[j]);
                assert(start@[start.keys()[j]] == start.values()[j]);
            }
        }
    }
}

/// What the host does for one sub-graph after its providers were looked at:
/// it carries out `requests`, in order, on the graph that it assembles for the
/// sub-graph of `sub_graph` as long as that is queued, and on the sub-graph
/// called `sub_graph_name` of the live graph once it is deployed.
#[derive(Debug)]
pub struct SubGraphUpdate<N> {
    pub sub_graph: u64,
    pub sub_graph_name: String,
    pub deployed: bool,
    pub requests: Vec<AddNode<N>>,
}

/// Whether the provider behind `descriptor` is one of `providers`: its entity
/// is there, and the descriptor is for providers of type `T`.
pub open spec fn followed<W, T: NodeProvider<W>>(
    providers: Map<u64, T>,
    entity: u64,
    descriptor: ProviderDescriptor,
) -> bool {
    providers.contains_key(entity) && descriptor.ty == T::spec_provider_type()
}

/// Whether `descriptor` shows another readiness than its provider has by now.
pub open spec fn stale<W, T: NodeProvider<W>>(
    providers: Map<u64, T>,
    entity: u64,
    descriptor: ProviderDescriptor,
) -> bool {
    followed::<W, T>(providers, entity, descriptor) && descriptor.state@
        != providers[entity].spec_state()@
}

/// Whether the change of readiness behind `descriptor` puts a node into a
/// graph. In a queued sub-graph every change does. In a deployed one only the
/// executable node goes in, so the provider has to be able to create it. A
/// sub-graph that was handed over takes none.
pub open spec fn wants_node<W, T: NodeProvider<W>>(
    graph: SubGraphDeployState,
    providers: Map<u64, T>,
    entity: u64,
    descriptor: ProviderDescriptor,
) -> bool {
    stale::<W, T>(providers, entity, descriptor) && match graph {
        SubGraphDeployState::Queued(_) => true,
        SubGraphDeployState::MovedToRenderWorld => false,
        SubGraphDeployState::Deployed => providers[entity].spec_state() is CanCreateNode,
    }
}

/// The positions, among the providers of a sub-graph, of those whose change
/// puts a node into a graph, in order.
pub open spec fn node_requests<W, T: NodeProvider<W>>(
    graph: SubGraphDeployState,
    providers: Map<u64, T>,
    entities: Seq<u64>,
    descriptors: Seq<ProviderDescriptor>,
) -> Seq<int>
    decreases descriptors.len(),
{
    if descriptors.len() == 0 {
        Seq::empty()
    } else {
        let before = node_requests::<W, T>(
            graph,
            providers,
            entities,
            descriptors.drop_last(),
        );
        if wants_node::<W, T>(
            graph,
            providers,
            entities[descriptors.len() - 1],
            descriptors.last(),
        ) {
            before.push(descriptors.len() - 1)
        } else {
            before
        }
    }
}

/// Whether `after` is `before` brought up to date: the same name and type,
/// and the readiness of its provider where that is one of `providers`.
pub open spec fn synced<W, T: NodeProvider<W>>(
    providers: Map<u64, T>,
    entity: u64,
    before: ProviderDescriptor,
    after: ProviderDescriptor,
) -> bool {
    &&& after.name == before.name
    &&& after.ty == before.ty
    &&& after.state@ == if followed::<W, T>(providers, entity, before) {
        providers[entity].spec_state()@
    } else {
        before.state@
    }
}

/// Whether `after` is the sub-graph `before` with its descriptors brought up
/// to date, and `requests` are the nodes that the changes put into a graph.
pub open spec fn sub_graph_synced<W, T: NodeProvider<W>>(
    providers: Map<u64, T>,
    before: SubGraph,
    after: SubGraph,
    requests: Seq<AddNode<T::Node>>,
) -> bool {
    let positions = node_requests::<W, T>(
        before.graph,
        providers,
        before.providers.keys(),
        before.providers.values(),
    );
    &&& after.wf()
    &&& after.name == before.name
    &&& after.inputs == before.inputs
    &&& after.graph == before.graph
    &&& after.trigger == before.trigger
    &&& after.providers.keys() == before.providers.keys()
    &&& after.providers.values().len() == before.providers.values().len()
    &&& forall|j: int|
        0 <= j < before.providers.values().len() ==> synced::<W, T>(
            providers,
            before.providers.keys()[j],
            before.providers.values()[j],
            #[trigger] after.providers.values()[j],
        )
    &&& requests.len() == positions.len()
    &&& forall|k: int|
        0 <= k < requests.len() ==> {
            let position = positions[k];
            &&& (#[trigger] requests[k]).name == before.providers.values()[position].name
            &&& providers[before.providers.keys()[position]].provides(requests[k].node)
        }
}

/// Whether `update` is what the host gets for the sub-graph `before` of
/// `entity`, which is `after` once its descriptors are up to date.
pub open spec fn update_of<W, T: NodeProvider<W>>(
    providers: Map<u64, T>,
    entity: u64,
    before: SubGraph,
    after: SubGraph,
    update: SubGraphUpdate<T::Node>,
) -> bool {
    &&& update.sub_graph == entity
    &&& update.sub_graph_name == before.name
    &&& update.deployed == (before.graph is Deployed)
    &&& sub_graph_synced::<W, T>(providers, before, after, update.requests@)
}

/// What ties the providers of one type to the sub-graphs that wait for them.
#[derive(Debug)]
pub struct NodeProviderPlugin<T>(pub PhantomData<T>);

impl<T> Default for NodeProviderPlugin<T> {
    fn default() -> (plugin: Self) {
        NodeProviderPlugin(PhantomData)
    }
}

impl<T> NodeProviderPlugin<T> {
    /// Brings the descriptors of one sub-graph up to date with the providers
    /// of type `T`, and hands out the nodes that the changes put into a graph.
    pub fn update_sub_graph<W>(providers_cache: &NodeProviderCache<T>, sub_graph: &mut SubGraph) -> (requests:
        Vec<AddNode<T::Node>>) where T: NodeProvider<W>
        requires
            providers_cache.wf::<W>(),
            old(sub_graph).wf(),
        ensures
            sub_graph_synced::<W, T>(providers_cache.0@, *old(sub_graph), *final(sub_graph), requests@),
    {
        let mut requests: Vec<AddNode<T::Node>> = Vec::new();
        let ghost providers = providers_cache.0@;
        let ghost entities = sub_graph.providers.keys();
        let ghost descriptors = sub_graph.providers.values();
        let mut j: usize = 0;
        proof {
            sub_graph.providers.lemma_view();
            providers_cache.0.lemma_view();
        }
        while j < sub_graph.providers.len()
            invariant
                providers_cache.wf::<W>(),
                providers == providers_cache.0@,
                entities == old(sub_graph).providers.keys(),
                descriptors == old(sub_graph).providers.values(),
                sub_graph.wf(),
                sub_graph.name == old(sub_graph).name,
                sub_graph.inputs == old(sub_graph).inputs,
                sub_graph.graph == old(sub_graph).graph,
                sub_graph.trigger == old(sub_graph).trigger,
                sub_graph.providers.keys() == entities,
                sub_graph.providers.values().len() == descriptors.len(),
                entities.len() == descriptors.len(),
                j <= descriptors.len(),
                forall|k: int|
                    0 <= k < j ==> synced::<W, T>(
                        providers,
                        entities[k],
                        descriptors[k],
                        #[trigger] sub_graph.providers.values()[k],
                    ),
                forall|k: int|
                    j <= k < descriptors.len() ==> sub_graph.providers.values()[k] == descriptors[k],
                requests@.len() == node_requests::<W, T>(
                    sub_graph.graph,
                    providers,
                    entities,
                    descriptors.take(j as int),
                ).len(),
                forall|k: int|
                    0 <= k < requests@.len() ==> (#[trigger] requests@[k]).name
                        == descriptors[node_requests::<W, T>(
                        sub_graph.graph,
                        providers,
                        entities,
                        descriptors.take(j as int),
                    )[k]].name && providers[entities[node_requests::<W, T>(
                        sub_graph.graph,
                        providers,
                        entities,
                        descriptors.take(j as int),
                    )[k]]].provides(requests@[k].node),
            decreases descriptors.len() - j,
        {
            let entity = sub_graph.providers.key_at(j);
            proof {
                assert(descriptors.take(j + 1).drop_last() =~= descriptors.take(j as int));
                assert(descriptors.take(j + 1).last() == descriptors[j as int]);
                providers_cache.0.lemma_view();
            }
            let found = providers_cache.0.slot_of(entity);
            match found {
                Some(slot) => {
                    let provider = providers_cache.0.value_at(slot);
                    proof {
                        assert(providers[providers_cache.0.keys()[slot as int]]
                            == providers_cache.0.values()[slot as int]);
                        assert(provider.provider_wf());
                    }
                    let deployed = match &sub_graph.graph {
                        SubGraphDeployState::Deployed => true,
                        _ => false,
                    };
                    let queued = match &sub_graph.graph {
                        SubGraphDeployState::Queued(_) => true,
                        _ => false,
                    };
                    let descriptor = sub_graph.providers.value_mut_at(j);
                    if descriptor.ty == T::provider_type() {
                        let new_state = provider.state();
                        if !descriptor.state.same(&new_state) {
                            let ready = match &new_state {
                                ProviderState::CanCreateNode => true,
                                _ => false,
                            };
                            descriptor.state = new_state;
                            if queued || (deployed && ready) {
                                let node_name = descriptor.name.clone();
                                requests.push(provider.add_node_to_graph(node_name));
                            }
                        }
                    }
                },
                None => {},
            }
            j += 1;
        }
        proof {
            assert(descriptors.take(j as int) =~= descriptors);
        }
        requests
    }

    /// Brings every sub-graph up to date with the providers of type `T`. For
    /// each sub-graph, in their order, the host gets the nodes to put into
    /// its graph.
    pub fn update_sub_graphs<W>(
        providers_cache: &NodeProviderCache<T>,
        sub_graph_cache: &mut SubGraphCache,
    ) -> (updates: Vec<SubGraphUpdate<T::Node>>) where T: NodeProvider<W>
        requires
            providers_cache.wf::<W>(),
            old(sub_graph_cache).wf(),
        ensures
            final(sub_graph_cache).wf(),
            final(sub_graph_cache).0.keys() == old(sub_graph_cache).0.keys(),
            final(sub_graph_cache).0.values().len() == old(sub_graph_cache).0.values().len(),
            updates@.len() == old(sub_graph_cache).0.values().len(),
            forall|i: int|
                0 <= i < updates@.len() ==> update_of::<W, T>(
                    providers_cache.0@,
                    old(sub_graph_cache).0.keys()[i],
                    old(sub_graph_cache).0.values()[i],
                    final(sub_graph_cache).0.values()[i],
                    #[trigger] updates@[i],
                ),
    {
        let mut updates: Vec<SubGraphUpdate<T::Node>> = Vec::new();
        let mut i: usize = 0;
        proof {
            sub_graph_cache.0.lemma_view();
        }
        while i < sub_graph_cache.0.len()
            invariant
                providers_cache.wf::<W>(),
                old(sub_graph_cache).wf(),
                sub_graph_cache.wf(),
                sub_graph_cache.0.keys() == old(sub_graph_cache).0.keys(),
                sub_graph_cache.0.keys().len() == sub_graph_cache.0.values().len(),
                sub_graph_cache.0.values().len() == old(sub_graph_cache).0.values().len(),
                i <= sub_graph_cache.0.keys().len(),
                updates@.len() == i,
                forall|k: int|
                    i <= k < sub_graph_cache.0.values().len() ==> sub_graph_cache.0.values()[k]
                        == old(sub_graph_cache).0.values()[k],
                forall|k: int|
                    0 <= k < i ==> update_of::<W, T>(
                        providers_cache.0@,
                        old(sub_graph_cache).0.keys()[k],
                        old(sub_graph_cache).0.values()[k],
                        sub_graph_cache.0.values()[k],
                        #[trigger] updates@[k],
                    ),
            decreases sub_graph_cache.0.keys().len() - i,
        {
            let entity = sub_graph_cache.0.key_at(i);
            let ghost before = sub_graph_cache.0.values();
            proof {
                assert(before[i as int].wf());
            }
            let sub_graph = sub_graph_cache.0.value_mut_at(i);
            let requests = Self::update_sub_graph::<W>(providers_cache, sub_graph);
            let deployed = match &sub_graph.graph {
                SubGraphDeployState::Deployed => true,
                _ => false,
            };
            let sub_graph_name = sub_graph.name.clone();
            updates.push(SubGraphUpdate { sub_graph: entity, sub_graph_name, deployed, requests });
            proof {
                assert forall|k: int| 0 <= k < sub_graph_cache.0.values().len() implies (
                #[trigger] sub_graph_cache.0.values()[k]).wf() by {
                    if k != i {
                        assert(sub_graph_cache.0.values()[k] == before[k]);
                    }
                }
            }
            i += 1;
        }
        updates
    }
}

} // verus!
