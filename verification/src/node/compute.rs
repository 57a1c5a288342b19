//! The compute node provider: a pipeline that is built one stage per tick, and
//! the executable node that comes out of it.
use crate::graph::ProviderState;
use crate::node::{clone_slots, DispatchWorkgroupsStrategy, DummyNode};
use crate::render_graph::{NodeRunError, RenderGraphContext, SlotInfo, SlotOutput};
use crate::render_resource::{
    clone_label, BindGroupEntry, BindGroupLayout, CachedComputePipelineId, CachedPipelineState,
    ComputePipeline, ComputePipelineDescriptor, Pipeline, PipelineCache, RenderDevice,
};
use crate::resource::{
    clone_infos, infos_view, input_slots, output_slots, BindResourceCreationInfo, CacheView,
    NodeResources,
};
use crate::{AddNode, NodeProvider};
use vstd::prelude::*;

verus! {

/// The executable compute node: the compiled pipeline, the layout of its bind
/// group, its bind resources with their cache, and its slots.
#[derive(Debug)]
pub struct ComputeNodeImpl {
    label: Option<String>,
    bind_group_index: u32,
    layout: BindGroupLayout,
    pipeline: ComputePipeline,
    bind_resources: NodeResources,
    input_slots: Vec<SlotInfo>,
    output_slots: Vec<SlotInfo>,
    dispatch_workgroups_strategy: DispatchWorkgroupsStrategy,
}

/// Where a compute node provider stands on its way to an executable node.
#[derive(Debug)]
pub enum ComputeNodeState {
    /// Declared; nothing was asked of the compiler yet.
    Creating,
    /// The pipeline is queued with the compiler under this number.
    PipelineQueued { pipeline_id: CachedComputePipelineId },
    /// The pipeline is compiled and the layout of its bind group is known.
    PipelineCached { layout: BindGroupLayout, pipeline: ComputePipeline },
    /// The executable node exists.
    ReadyToRun { node: ComputeNodeImpl },
    /// Compilation failed; the message says why.
    Failed(String),
}

/// A compute node provider: what its author declared, and how far the
/// construction has come.
#[derive(Debug)]
pub struct ComputeNode {
    pub label: Option<String>,
    pub bind_group_index: u32,
    pub pipeline_descriptor: ComputePipelineDescriptor,
    pub binding_resource_info: Vec<BindResourceCreationInfo>,
    pub dispatch_workgroups_strategy: DispatchWorkgroupsStrategy,
    /// How far the construction has come.
    pub state: ComputeNodeState,
}

impl ComputeNodeImpl {
    /// The cache of the node agrees with itself.
    pub closed spec fn wf(&self) -> bool {
        self.bind_resources.wf()
    }

    /// The label that the author gave.
    pub closed spec fn spec_label(&self) -> Option<String> {
        self.label
    }

    /// The index of the bind group that the node binds.
    pub closed spec fn spec_bind_group_index(&self) -> u32 {
        self.bind_group_index
    }

    /// The layout of the bind group.
    pub closed spec fn spec_layout(&self) -> BindGroupLayout {
        self.layout
    }

    /// The compiled pipeline.
    pub closed spec fn spec_pipeline(&self) -> ComputePipeline {
        self.pipeline
    }

    /// The bind resources with their cache.
    pub closed spec fn spec_bind_resources(&self) -> NodeResources {
        self.bind_resources
    }

    /// The input slots.
    pub closed spec fn spec_input(&self) -> Seq<SlotInfo> {
        self.input_slots@
    }

    /// The output slots.
    pub closed spec fn spec_output(&self) -> Seq<SlotInfo> {
        self.output_slots@
    }

    /// How the workgroup counts are found.
    pub closed spec fn spec_dispatch_workgroups_strategy(&self) -> DispatchWorkgroupsStrategy {
        self.dispatch_workgroups_strategy
    }

    /// Whether this is the node that is built for `provider` from a compiled
    /// `pipeline` and its `layout`: it carries the provider's label, bind group
    /// index, bind resources and dispatch strategy, has the slots that the
    /// bind resources give, and starts with an empty cache.
    pub open spec fn built_for(
        &self,
        provider: &ComputeNode,
        layout: BindGroupLayout,
        pipeline: ComputePipeline,
    ) -> bool {
        &&& self.wf()
        &&& self.spec_label() == provider.label
        &&& self.spec_bind_group_index() == provider.bind_group_index
        &&& self.spec_layout() == layout
        &&& self.spec_pipeline() == pipeline
        &&& infos_view(self.spec_bind_resources().infos()) == infos_view(
            provider.binding_resource_info@,
        )
        &&& self.spec_bind_resources().cache() == CacheView::empty()
        &&& self.spec_input() == input_slots(provider.binding_resource_info@)
        &&& self.spec_output() == output_slots(provider.binding_resource_info@)
        &&& self.spec_dispatch_workgroups_strategy() == provider.dispatch_workgroups_strategy
    }

    /// The input slots.
    pub fn input(&self) -> (slots: Vec<SlotInfo>)
        ensures
            slots@ == self.spec_input(),
    {
        clone_slots(&self.input_slots)
    }

    /// The output slots.
    pub fn output(&self) -> (slots: Vec<SlotInfo>)
        ensures
            slots@ == self.spec_output(),
    {
        clone_slots(&self.output_slots)
    }
}

impl ComputeNodeState {
    /// The stage of the construction, counted from the declaration.
    pub open spec fn stage(&self) -> nat {
        match self {
            ComputeNodeState::Creating => 0,
            ComputeNodeState::PipelineQueued { .. } => 1,
            ComputeNodeState::PipelineCached { .. } => 2,
            ComputeNodeState::ReadyToRun { .. } => 3,
            ComputeNodeState::Failed(_) => 4,
        }
    }

    /// Whether the construction has come to its end, with a node or with a
    /// failure.
    pub open spec fn is_final(&self) -> bool {
        self is ReadyToRun || self is Failed
    }

    /// Whether `after` is where one tick can take the construction from
    /// here. A declared provider is queued. A queued one waits, gets its
    /// compiled pipeline, or fails. One with a compiled pipeline gets its
    /// node. Where the construction has come to its end, nothing changes.
    pub open spec fn steps_to(&self, after: ComputeNodeState) -> bool {
        match self {
            ComputeNodeState::Creating => after is PipelineQueued,
            ComputeNodeState::PipelineQueued { .. } => after == *self || after is PipelineCached
                || after is Failed,
            ComputeNodeState::PipelineCached { .. } => after is ReadyToRun,
            ComputeNodeState::ReadyToRun { .. } => after == *self,
            ComputeNodeState::Failed(_) => after == *self,
        }
    }
}

/// One tick takes the construction one stage onward or leaves it where it
/// is, unless it fails: no stage is skipped, and none is gone back to. It
/// leaves a provider where it is only while the compiler has no answer, or at
/// the end.
pub proof fn lemma_one_stage_per_tick(before: ComputeNodeState, after: ComputeNodeState)
    requires
        before.steps_to(after),
    ensures
        after.stage() >= before.stage(),
        after is Failed || after.stage() <= before.stage() + 1,
        after.stage() == before.stage() ==> after == before && (before is PipelineQueued
            || before.is_final()),
        before.is_final() ==> after == before,
{
}

impl ComputeNode {
    /// A provider in its first stage.
    pub fn new(
        label: Option<String>,
        bind_group_index: u32,
        pipeline_descriptor: ComputePipelineDescriptor,
        binding_resource_info: Vec<BindResourceCreationInfo>,
        dispatch_workgroups_strategy: DispatchWorkgroupsStrategy,
    ) -> (provider: Self)
        ensures
            provider.label == label,
            provider.bind_group_index == bind_group_index,
            provider.pipeline_descriptor == pipeline_descriptor,
            provider.binding_resource_info == binding_resource_info,
            provider.dispatch_workgroups_strategy == dispatch_workgroups_strategy,
            provider.state is Creating,
            provider.wf(),
    {
        ComputeNode {
            label,
            bind_group_index,
            pipeline_descriptor,
            binding_resource_info,
            dispatch_workgroups_strategy,
            state: ComputeNodeState::Creating,
        }
    }

    /// The node of a provider that has one agrees with itself, and has the
    /// slots that the bind resources of the provider give.
    pub open spec fn wf(&self) -> bool {
        self.state matches ComputeNodeState::ReadyToRun { node } ==> {
            &&& node.wf()
            &&& node.spec_input() == input_slots(self.binding_resource_info@)
            &&& node.spec_output() == output_slots(self.binding_resource_info@)
        }
    }

    /// Whether the author declared a layout for the bind group of this
    /// provider.
    pub open spec fn declares_layout(&self) -> bool {
        self.bind_group_index < self.pipeline_descriptor.layout.len()
    }

    /// The layout that a freshly compiled pipeline is used with: the one that
    /// the author declared for the bind group of this provider, or, where
    /// none is declared, `reflected`, the one that the pipeline has.
    pub open spec fn resolved_layout(&self, reflected: BindGroupLayout) -> BindGroupLayout {
        if self.declares_layout() {
            self.pipeline_descriptor.layout[self.bind_group_index as int]
        } else {
            reflected
        }
    }

    /// What the answer `polled` of the compiler makes of a queued pipeline:
    /// a compiled compute pipeline goes on to the next stage with its layout,
    /// a failure ends the construction with the compiler's message, and any
    /// other answer leaves the provider waiting.
    pub open spec fn follows_poll<P: PipelineCache>(
        &self,
        pipeline_cache: &P,
        polled: CachedPipelineState,
        after: ComputeNodeState,
    ) -> bool {
        match polled {
            CachedPipelineState::Ready(Pipeline::ComputePipeline(compiled)) => {
                &&& after matches ComputeNodeState::PipelineCached { layout, pipeline }
                &&& pipeline == compiled
                &&& exists|reflected: BindGroupLayout|
                    {
                        &&& layout == #[trigger] self.resolved_layout(reflected)
                        &&& !self.declares_layout() ==> call_ensures(
                            P::get_bind_group_layout,
                            (pipeline_cache, &compiled, self.bind_group_index),
                            reflected,
                        )
                    }
            },
            CachedPipelineState::Failed(message) => after == ComputeNodeState::Failed(message),
            _ => after == self.state,
        }
    }

    /// One tick of the construction, as a relation between the provider
    /// before the tick and its state after it.
    pub open spec fn ticked<P: PipelineCache>(
        &self,
        pipeline_cache: &P,
        after: ComputeNodeState,
    ) -> bool {
        match self.state {
            ComputeNodeState::Creating => {
                &&& after matches ComputeNodeState::PipelineQueued { pipeline_id }
                &&& call_ensures(
                    P::queue_compute_pipeline,
                    (pipeline_cache, &self.pipeline_descriptor),
                    pipeline_id,
                )
            },
            ComputeNodeState::PipelineQueued { pipeline_id } => exists|
                polled: CachedPipelineState,
            |
                #![trigger self.follows_poll(pipeline_cache, polled, after)]
                call_ensures(
                    P::get_compute_pipeline_state,
                    (pipeline_cache, pipeline_id),
                    polled,
                ) && self.follows_poll(pipeline_cache, polled, after),
            ComputeNodeState::PipelineCached { layout, pipeline } => {
                &&& after matches ComputeNodeState::ReadyToRun { node }
                &&& node.built_for(self, layout, pipeline)
            },
            ComputeNodeState::ReadyToRun { .. } => after == self.state,
            ComputeNodeState::Failed(_) => after == self.state,
        }
    }

    /// Advances the construction by one stage. A declared provider queues its
    /// pipeline with the compiler; a queued one asks the compiler once and
    /// goes on, fails or keeps waiting by its answer; one with a compiled
    /// pipeline builds its node. A provider that has its node, or that has
    /// failed, stays as it is.
    pub fn update<P: PipelineCache>(&mut self, pipeline_cache: &P)
        requires
            old(self).wf(),
        ensures
            final(self).wf(),
            final(self).label == old(self).label,
            final(self).bind_group_index == old(self).bind_group_index,
            final(self).pipeline_descriptor == old(self).pipeline_descriptor,
            final(self).binding_resource_info == old(self).binding_resource_info,
            final(self).dispatch_workgroups_strategy == old(self).dispatch_workgroups_strategy,
            old(self).ticked(pipeline_cache, final(self).state),
            old(self).state.steps_to(final(self).state),
    {
        let new_state = match &self.state {
            ComputeNodeState::Creating => ComputeNodeState::PipelineQueued {
                pipeline_id: pipeline_cache.queue_compute_pipeline(&self.pipeline_descriptor),
            },
            ComputeNodeState::PipelineQueued { pipeline_id } => {
                let polled = pipeline_cache.get_compute_pipeline_state(*pipeline_id);
                match polled {
                    CachedPipelineState::Ready(Pipeline::ComputePipeline(pipeline)) => {
                        let index = self.bind_group_index as usize;
                        let layout = if index < self.pipeline_descriptor.layout.len() {
                            self.pipeline_descriptor.layout[index]
                        } else {
                            pipeline_cache.get_bind_group_layout(&pipeline, self.bind_group_index)
                        };
                        let after = ComputeNodeState::PipelineCached { layout, pipeline };
                        assert(layout == self.resolved_layout(layout));
                        assert(self.follows_poll(pipeline_cache, polled, after));
                        after
                    },
                    CachedPipelineState::Failed(message) => {
                        let after = ComputeNodeState::Failed(message);
                        assert(self.follows_poll(pipeline_cache, polled, after));
                        after
                    },
                    _ => {
                        assert(self.follows_poll(pipeline_cache, polled, self.state));
                        return ;
                    },
                }
            },
            ComputeNodeState::PipelineCached { layout, pipeline } => {
                let (input_slots, output_slots) = BindResourceCreationInfo::input_output_slot_info(
                    &self.binding_resource_info,
                );
                ComputeNodeState::ReadyToRun {
                    node: ComputeNodeImpl {
                        label: clone_label(&self.label),
                        bind_group_index: self.bind_group_index,
                        layout: *layout,
                        pipeline: *pipeline,
                        bind_resources: NodeResources::from_bind_resource_info(
                            clone_infos(&self.binding_resource_info),
                        ),
                        input_slots,
                        output_slots,
                        dispatch_workgroups_strategy: self.dispatch_workgroups_strategy,
                    },
                }
            },
            _ => {
                return ;
            },
        };
        self.state = new_state;
    }

    /// The provider's readiness as a sub-graph sees it: ready once the node
    /// exists, failed with the compiler's message, and updating in every
    /// other stage.
    pub open spec fn spec_state(&self) -> ProviderState {
        match self.state {
            ComputeNodeState::ReadyToRun { .. } => ProviderState::CanCreateNode,
            ComputeNodeState::Failed(message) => ProviderState::Failed(message),
            _ => ProviderState::Updating,
        }
    }

    /// Whether `node` is what the provider puts into a graph at present. A
    /// provider that has its node puts that node into the graph; any other
    /// puts the placeholder. Either has the slots that the bind resources of
    /// the provider give.
    pub open spec fn offers(&self, node: ComputeGraphNode) -> bool {
        &&& node.spec_input() == input_slots(self.binding_resource_info@)
        &&& node.spec_output() == output_slots(self.binding_resource_info@)
        &&& match self.state {
            ComputeNodeState::ReadyToRun { node: built } => {
                &&& node matches ComputeGraphNode::Node(copy)
                &&& built.installed_as(copy)
            },
            _ => node is Placeholder,
        }
    }

    /// The request to put the provider's node into a graph under
    /// `node_name`: the node itself once it exists, and until then the
    /// placeholder, which carries the name.
    pub fn add_node_to_graph(&self, node_name: String) -> (request: AddNode<ComputeGraphNode>)
        requires
            self.wf(),
        ensures
            request.name == node_name,
            self.offers(request.node),
            request.node matches ComputeGraphNode::Placeholder(placeholder)
                ==> placeholder.spec_name() == node_name,
    {
        match &self.state {
            ComputeNodeState::ReadyToRun { node } => {
                AddNode { name: node_name, node: ComputeGraphNode::Node(node.instance()) }
            },
            _ => {
                let node = DummyNode::from_bind_resource_info(&self.binding_resource_info).named(
                    node_name.clone(),
                );
                AddNode { name: node_name, node: ComputeGraphNode::Placeholder(node) }
            },
        }
    }

    /// The provider's readiness as a sub-graph sees it.
    pub fn state(&self) -> (state: ProviderState)
        ensures
            state == self.spec_state(),
    {
        match &self.state {
            ComputeNodeState::ReadyToRun { .. } => ProviderState::CanCreateNode,
            ComputeNodeState::Failed(s) => ProviderState::Failed(s.clone()),
            _ => ProviderState::Updating,
        }
    }
}

/// What a compute node provider puts into a graph.
#[derive(Debug)]
pub enum ComputeGraphNode {
    /// The executable node.
    Node(ComputeNodeImpl),
    /// The placeholder, as long as the executable node does not exist.
    Placeholder(DummyNode),
}

impl ComputeGraphNode {
    /// The input slots of the node.
    pub open spec fn spec_input(&self) -> Seq<SlotInfo> {
        match self {
            ComputeGraphNode::Node(node) => node.spec_input(),
            ComputeGraphNode::Placeholder(node) => node.spec_input(),
        }
    }

    /// The output slots of the node.
    pub open spec fn spec_output(&self) -> Seq<SlotInfo> {
        match self {
            ComputeGraphNode::Node(node) => node.spec_output(),
            ComputeGraphNode::Placeholder(node) => node.spec_output(),
        }
    }

    /// The input slots of the node.
    pub fn input(&self) -> (slots: Vec<SlotInfo>)
        ensures
            slots@ == self.spec_input(),
    {
        match self {
            ComputeGraphNode::Node(node) => node.input(),
            ComputeGraphNode::Placeholder(node) => node.input(),
        }
    }

    /// The output slots of the node.
    pub fn output(&self) -> (slots: Vec<SlotInfo>)
        ensures
            slots@ == self.spec_output(),
    {
        match self {
            ComputeGraphNode::Node(node) => node.output(),
            ComputeGraphNode::Placeholder(node) => node.output(),
        }
    }
}

impl ComputeNodeImpl {
    /// Whether `copy` is this node as it is put into a graph: the same
    /// pipeline, layout, slots and bind resources, with a cache of its own
    /// that starts empty.
    pub open spec fn installed_as(&self, copy: ComputeNodeImpl) -> bool {
        &&& copy.wf()
        &&& copy.spec_label() == self.spec_label()
        &&& copy.spec_bind_group_index() == self.spec_bind_group_index()
        &&& copy.spec_layout() == self.spec_layout()
        &&& copy.spec_pipeline() == self.spec_pipeline()
        &&& infos_view(copy.spec_bind_resources().infos()) == infos_view(
            self.spec_bind_resources().infos(),
        )
        &&& copy.spec_bind_resources().cache() == CacheView::empty()
        &&& copy.spec_input() == self.spec_input()
        &&& copy.spec_output() == self.spec_output()
        &&& copy.spec_dispatch_workgroups_strategy() == self.spec_dispatch_workgroups_strategy()
    }

    /// The node as it is put into a graph.
    pub fn instance(&self) -> (copy: Self)
        ensures
            self.installed_as(copy),
    {
        ComputeNodeImpl {
            label: clone_label(&self.label),
            bind_group_index: self.bind_group_index,
            layout: self.layout,
            pipeline: self.pipeline,
            bind_resources: NodeResources::from_bind_resource_info(
                clone_infos(self.bind_resources.bind_resource_info()),
            ),
            input_slots: clone_slots(&self.input_slots),
            output_slots: clone_slots(&self.output_slots),
            dispatch_workgroups_strategy: self.dispatch_workgroups_strategy,
        }
    }
}

/// What a provider puts into a graph keeps its slots as long as the bind
/// resources of the provider stay as they are: the node that takes the place
/// of the placeholder, or of an earlier node, has the slots of what it
/// replaces, so that the edges that were checked against the one hold for
/// the other.
pub proof fn lemma_node_keeps_the_slots_of_its_placeholder(
    earlier: ComputeNode,
    later: ComputeNode,
    replaced: ComputeGraphNode,
    node: ComputeGraphNode,
)
    requires
        later.binding_resource_info == earlier.binding_resource_info,
        earlier.offers(replaced),
        later.offers(node),
    ensures
        node.spec_input() == replaced.spec_input(),
        node.spec_output() == replaced.spec_output(),
{
}

/// The number that stands for compute node providers in
/// [`NodeProvider::provider_type`].
pub const COMPUTE_NODE_PROVIDER: u64 = 1;

impl<P: PipelineCache> NodeProvider<P> for ComputeNode {
    type Node = ComputeGraphNode;

    open spec fn provider_wf(&self) -> bool {
        self.wf()
    }

    open spec fn spec_provider_type() -> u64 {
        COMPUTE_NODE_PROVIDER
    }

    fn provider_type() -> (ty: u64) {
        COMPUTE_NODE_PROVIDER
    }

    /// A compute node provider has nothing to do when its component changes:
    /// the changed component reaches the render side as a new provider in its
    /// first stage.
    fn on_component_changed(&mut self) {
    }

    open spec fn updated(&self, world: &P, after: Self) -> bool {
        &&& after.label == self.label
        &&& after.bind_group_index == self.bind_group_index
        &&& after.pipeline_descriptor == self.pipeline_descriptor
        &&& after.binding_resource_info == self.binding_resource_info
        &&& after.dispatch_workgroups_strategy == self.dispatch_workgroups_strategy
        &&& self.ticked(world, after.state)
    }

    fn update(&mut self, world: &P) {
        ComputeNode::update(self, world)
    }

    open spec fn spec_state(&self) -> ProviderState {
        ComputeNode::spec_state(self)
    }

    fn state(&self) -> (state: ProviderState) {
        ComputeNode::state(self)
    }

    open spec fn provides(&self, node: ComputeGraphNode) -> bool {
        self.offers(node)
    }

    fn add_node_to_graph(&self, node_name: String) -> (request: AddNode<ComputeGraphNode>) {
        ComputeNode::add_node_to_graph(self, node_name)
    }
}

/// What the host encodes after a compute node ran: one compute pass that
/// binds `entries`, laid out as `layout`, as bind group `bind_group_index`,
/// sets `pipeline` and dispatches `workgroups`. Before that it puts `outputs`
/// into the output slots of the node.
#[derive(Debug)]
pub struct ComputePass {
    pub bind_group_index: u32,
    pub layout: BindGroupLayout,
    pub entries: Vec<BindGroupEntry>,
    pub pipeline: ComputePipeline,
    pub workgroups: (u32, u32, u32),
    pub outputs: Vec<SlotOutput>,
}

impl ComputeNodeImpl {
    /// Whether `result` is what a run of the node comes to, with the node
    /// going from `before` to `self`. The bind resources are bound first and
    /// the output slots filled after, both through the cache; the first
    /// error of either ends the run.
    pub open spec fn ran<C: RenderGraphContext, D: RenderDevice>(
        &self,
        before: ComputeNodeImpl,
        graph: &C,
        render_device: &D,
        result: Result<ComputePass, NodeRunError>,
    ) -> bool {
        match result {
            Ok(pass) => {
                &&& pass.bind_group_index == self.spec_bind_group_index()
                &&& pass.layout == self.spec_layout()
                &&& pass.pipeline == self.spec_pipeline()
                &&& self.spec_dispatch_workgroups_strategy().dispatches(graph, pass.workgroups)
                &&& exists|bound: NodeResources|
                    {
                        &&& bound.infos() == self.spec_bind_resources().infos()
                        &&& #[trigger] bound.binds(
                            before.spec_bind_resources().cache(),
                            graph,
                            render_device,
                            Ok(pass.entries),
                        )
                        &&& self.spec_bind_resources().hands_on(
                            bound.cache(),
                            graph,
                            render_device,
                            Ok(pass.outputs),
                        )
                    }
            },
            Err(error) => {
                ||| self.spec_bind_resources().binds(
                    before.spec_bind_resources().cache(),
                    graph,
                    render_device,
                    Err(error),
                )
                ||| exists|bound: NodeResources, entries: Vec<BindGroupEntry>|
                    {
                        &&& bound.infos() == self.spec_bind_resources().infos()
                        &&& #[trigger] bound.binds(
                            before.spec_bind_resources().cache(),
                            graph,
                            render_device,
                            Ok(entries),
                        )
                        &&& self.spec_bind_resources().hands_on(
                            bound.cache(),
                            graph,
                            render_device,
                            Err(error),
                        )
                    }
            },
        }
    }

    /// One run of the node: the compute pass for the host to encode, and the
    /// values for the output slots.
    pub fn run<C: RenderGraphContext, D: RenderDevice>(
        &mut self,
        graph: &C,
        render_device: &D,
    ) -> (result: Result<ComputePass, NodeRunError>)
        requires
            old(self).wf(),
        ensures
            final(self).wf(),
            final(self).spec_label() == old(self).spec_label(),
            final(self).spec_bind_group_index() == old(self).spec_bind_group_index(),
            final(self).spec_layout() == old(self).spec_layout(),
            final(self).spec_pipeline() == old(self).spec_pipeline(),
            final(self).spec_input() == old(self).spec_input(),
            final(self).spec_output() == old(self).spec_output(),
            final(self).spec_dispatch_workgroups_strategy() == old(self).spec_dispatch_workgroups_strategy(),
            final(self).spec_bind_resources().infos() == old(self).spec_bind_resources().infos(),
            final(self).ran(*old(self), graph, render_device, result),
    {
        let entries = match self.bind_resources.set_bind_group(render_device, graph) {
            Ok(entries) => entries,
            Err(error) => {
                return Err(error);
            },
        };
        let ghost bound = self.bind_resources;
        let workgroups = self.dispatch_workgroups_strategy.workgroups_to_dispatch(graph);
        let outputs = match self.bind_resources.set_output_slots(graph, render_device) {
            Ok(outputs) => outputs,
            Err(error) => {
                proof {
                    assert(bound.binds(
                        old(self).spec_bind_resources().cache(),
                        graph,
                        render_device,
                        Ok(entries),
                    ));
                }
                return Err(error);
            },
        };
        let pass = ComputePass {
            bind_group_index: self.bind_group_index,
            layout: self.layout,
            entries,
            pipeline: self.pipeline,
            workgroups,
            outputs,
        };
        proof {
            assert(bound.infos() == self.bind_resources.infos());
            assert(bound.binds(
                old(self).spec_bind_resources().cache(),
                graph,
                render_device,
                Ok(pass.entries),
            ));
            assert(self.bind_resources.hands_on(
                bound.cache(),
                graph,
                render_device,
                Ok(pass.outputs),
            ));
        }
        Ok(pass)
    }
}

} // verus!
