use bevy_node_plumber::graph::ProviderState;
use bevy_node_plumber::node::compute::{
    ComputeGraphNode, ComputeNode, ComputeNodeState, COMPUTE_NODE_PROVIDER,
};
use bevy_node_plumber::node::DispatchWorkgroupsStrategy;
use bevy_node_plumber::render_graph::{NodeRunError, SlotInfo, SlotType};
use bevy_node_plumber::render_resource::{
    BindGroupLayout, BufferDescriptor, CachedComputePipelineId, CachedPipelineState,
    ComputePipeline, ComputePipelineDescriptor, Pipeline, PipelineCache, ShaderHandle,
};
use bevy_node_plumber::resource::{
    BindResourceCreationDescriptor, BindResourceCreationInfo, BindResourceCreationStrategy,
    BindResourceDirection,
};
use bevy_node_plumber::{MainWorldEntity, NodeProvider, NodeProviderCache};
use std::cell::{Cell, RefCell};

/// A compiler that answers what the test tells it to.
struct Compiler {
    next_id: Cell<usize>,
    queued: RefCell<Vec<String>>,
    polled: Cell<usize>,
    reflected: Cell<usize>,
    answer: RefCell<Answer>,
}

#[derive(Clone)]
enum Answer {
    Pending,
    Compute(u64),
    Render(u64),
    Failed(String),
}

impl Compiler {
    fn new(answer: Answer) -> Self {
        Compiler {
            next_id: Cell::new(40),
            queued: RefCell::new(Vec::new()),
            polled: Cell::new(0),
            reflected: Cell::new(0),
            answer: RefCell::new(answer),
        }
    }

    fn answer(&self, answer: Answer) {
        *self.answer.borrow_mut() = answer;
    }
}

impl PipelineCache for Compiler {
    fn queue_compute_pipeline(
        &self,
        descriptor: &ComputePipelineDescriptor,
    ) -> CachedComputePipelineId {
        self.queued.borrow_mut().push(descriptor.entry_point.clone());
        let id = self.next_id.get();
        self.next_id.set(id + 1);
        CachedComputePipelineId { id }
    }

    fn get_compute_pipeline_state(&self, _id: CachedComputePipelineId) -> CachedPipelineState {
        self.polled.set(self.polled.get() + 1);
        match self.answer.borrow().clone() {
            Answer::Pending => CachedPipelineState::Queued,
            Answer::Compute(id) => {
                CachedPipelineState::Ready(Pipeline::ComputePipeline(ComputePipeline { id }))
            }
            Answer::Render(id) => CachedPipelineState::Ready(Pipeline::RenderPipeline(id)),
            Answer::Failed(message) => CachedPipelineState::Failed(message),
        }
    }

    fn get_bind_group_layout(&self, pipeline: &ComputePipeline, index: u32) -> BindGroupLayout {
        self.reflected.set(self.reflected.get() + 1);
        BindGroupLayout { id: pipeline.id * 100 + index as u64 }
    }
}

fn descriptor(layout: Vec<BindGroupLayout>) -> ComputePipelineDescriptor {
    ComputePipelineDescriptor {
        label: Some("fill".to_string()),
        layout,
        push_constant_ranges: Vec::new(),
        shader: ShaderHandle { id: 9 },
        shader_defs: Vec::new(),
        entry_point: "main".to_string(),
    }
}

fn infos() -> Vec<BindResourceCreationInfo> {
    vec![
        BindResourceCreationInfo {
            name: "source".to_string(),
            binding: 0,
            direction: BindResourceDirection::Input(SlotType::Buffer),
        },
        BindResourceCreationInfo {
            name: "result".to_string(),
            binding: 1,
            direction: BindResourceDirection::Output(BindResourceCreationDescriptor::Buffer(
                BindResourceCreationStrategy::Static(BufferDescriptor {
                    label: Some("result".to_string()),
                    size: 64,
                    usage: 128,
                    mapped_at_creation: false,
                }),
            )),
        },
        BindResourceCreationInfo {
            name: "both".to_string(),
            binding: 2,
            direction: BindResourceDirection::InputOutput(SlotType::TextureView),
        },
    ]
}

fn provider(layout: Vec<BindGroupLayout>, bind_group_index: u32) -> ComputeNode {
    ComputeNode::new(
        Some("fill".to_string()),
        bind_group_index,
        descriptor(layout),
        infos(),
        DispatchWorkgroupsStrategy::Static(4, 2, 1),
    )
}

fn names(slots: &[SlotInfo]) -> Vec<(String, SlotType)> {
    slots.iter().map(|slot| (slot.name.clone(), slot.slot_type)).collect()
}

#[test]
fn provider_starts_in_creating() {
    let node = provider(Vec::new(), 0);
    assert!(matches!(node.state, ComputeNodeState::Creating));
    assert!(matches!(node.state(), ProviderState::Updating));
}

#[test]
fn first_tick_queues_the_pipeline() {
    let compiler = Compiler::new(Answer::Pending);
    let mut node = provider(Vec::new(), 0);
    node.update(&compiler);
    match &node.state {
        ComputeNodeState::PipelineQueued { pipeline_id } => assert_eq!(pipeline_id.id, 40),
        other => panic!("unexpected state {:?}", other),
    }
    assert_eq!(*compiler.queued.borrow(), vec!["main".to_string()]);
    assert_eq!(compiler.polled.get(), 0);
}

#[test]
fn queued_provider_waits_while_the_compiler_is_busy() {
    let compiler = Compiler::new(Answer::Pending);
    let mut node = provider(Vec::new(), 0);
    node.update(&compiler);
    for _ in 0..3 {
        node.update(&compiler);
        match &node.state {
            ComputeNodeState::PipelineQueued { pipeline_id } => assert_eq!(pipeline_id.id, 40),
            other => panic!("unexpected state {:?}", other),
        }
    }
    assert_eq!(compiler.polled.get(), 3);
    assert_eq!(compiler.queued.borrow().len(), 1);
}

#[test]
fn queued_provider_ignores_a_render_pipeline() {
    let compiler = Compiler::new(Answer::Render(5));
    let mut node = provider(Vec::new(), 0);
    node.update(&compiler);
    node.update(&compiler);
    assert!(matches!(node.state, ComputeNodeState::PipelineQueued { .. }));
}

#[test]
fn compiled_pipeline_takes_the_reflected_layout_when_none_is_declared() {
    let compiler = Compiler::new(Answer::Compute(3));
    let mut node = provider(Vec::new(), 2);
    node.update(&compiler);
    node.update(&compiler);
    match &node.state {
        ComputeNodeState::PipelineCached { layout, pipeline } => {
            assert_eq!(*pipeline, ComputePipeline { id: 3 });
            assert_eq!(*layout, BindGroupLayout { id: 302 });
        }
        other => panic!("unexpected state {:?}", other),
    }
    assert_eq!(compiler.reflected.get(), 1);
}

#[test]
fn declared_layout_takes_precedence_over_the_reflected_one() {
    let compiler = Compiler::new(Answer::Compute(3));
    let declared = vec![BindGroupLayout { id: 70 }, BindGroupLayout { id: 71 }];
    let mut node = provider(declared, 1);
    node.update(&compiler);
    node.update(&compiler);
    match &node.state {
        ComputeNodeState::PipelineCached { layout, pipeline } => {
            assert_eq!(*pipeline, ComputePipeline { id: 3 });
            assert_eq!(*layout, BindGroupLayout { id: 71 });
        }
        other => panic!("unexpected state {:?}", other),
    }
    assert_eq!(compiler.reflected.get(), 0);
}

#[test]
fn declared_layouts_that_do_not_reach_the_bind_group_are_not_used() {
    let compiler = Compiler::new(Answer::Compute(3));
    let declared = vec![BindGroupLayout { id: 70 }];
    let mut node = provider(declared, 1);
    node.update(&compiler);
    node.update(&compiler);
    match &node.state {
        ComputeNodeState::PipelineCached { layout, .. } => {
            assert_eq!(*layout, BindGroupLayout { id: 301 });
        }
        other => panic!("unexpected state {:?}", other),
    }
}

#[test]
fn compile_failure_is_kept() {
    let compiler = Compiler::new(Answer::Failed("no entry point".to_string()));
    let mut node = provider(Vec::new(), 0);
    node.update(&compiler);
    node.update(&compiler);
    match &node.state {
        ComputeNodeState::Failed(message) => assert_eq!(message, "no entry point"),
        other => panic!("unexpected state {:?}", other),
    }
    match node.state() {
        ProviderState::Failed(message) => assert_eq!(message, "no entry point"),
        other => panic!("unexpected state {:?}", other),
    }
    compiler.answer(Answer::Compute(3));
    node.update(&compiler);
    node.update(&compiler);
    assert!(matches!(node.state, ComputeNodeState::Failed(_)));
    assert_eq!(compiler.polled.get(), 1);
}

#[test]
fn three_ticks_make_the_node() {
    let compiler = Compiler::new(Answer::Compute(3));
    let mut node = provider(Vec::new(), 0);
    node.update(&compiler);
    assert!(matches!(node.state, ComputeNodeState::PipelineQueued { .. }));
    assert!(matches!(node.state(), ProviderState::Updating));
    node.update(&compiler);
    assert!(matches!(node.state, ComputeNodeState::PipelineCached { .. }));
    assert!(matches!(node.state(), ProviderState::Updating));
    node.update(&compiler);
    assert!(matches!(node.state, ComputeNodeState::ReadyToRun { .. }));
    assert!(matches!(node.state(), ProviderState::CanCreateNode));
}

#[test]
fn built_node_has_the_slots_of_its_bind_resources() {
    let compiler = Compiler::new(Answer::Compute(3));
    let mut node = provider(Vec::new(), 0);
    node.update(&compiler);
    node.update(&compiler);
    node.update(&compiler);
    match &node.state {
        ComputeNodeState::ReadyToRun { node } => {
            assert_eq!(
                names(&node.input()),
                vec![
                    ("source".to_string(), SlotType::Buffer),
                    ("both".to_string(), SlotType::TextureView),
                ]
            );
            assert_eq!(
                names(&node.output()),
                vec![
                    ("result".to_string(), SlotType::Buffer),
                    ("both".to_string(), SlotType::TextureView),
                ]
            );
        }
        other => panic!("unexpected state {:?}", other),
    }
}

#[test]
fn ready_provider_stays_ready() {
    let compiler = Compiler::new(Answer::Compute(3));
    let mut node = provider(Vec::new(), 0);
    for _ in 0..6 {
        node.update(&compiler);
    }
    assert!(matches!(node.state, ComputeNodeState::ReadyToRun { .. }));
    assert_eq!(compiler.queued.borrow().len(), 1);
    assert_eq!(compiler.polled.get(), 1);
}

#[test]
fn update_keeps_what_the_author_declared() {
    let compiler = Compiler::new(Answer::Compute(3));
    let mut node = provider(vec![BindGroupLayout { id: 70 }], 0);
    for _ in 0..3 {
        node.update(&compiler);
    }
    assert_eq!(node.label, Some("fill".to_string()));
    assert_eq!(node.bind_group_index, 0);
    assert_eq!(node.pipeline_descriptor.entry_point, "main");
    assert_eq!(node.pipeline_descriptor.layout, vec![BindGroupLayout { id: 70 }]);
    assert_eq!(node.binding_resource_info.len(), 3);
    assert_eq!(node.dispatch_workgroups_strategy, DispatchWorkgroupsStrategy::Static(4, 2, 1));
}

#[test]
fn explicit_reset_starts_the_construction_again() {
    let compiler = Compiler::new(Answer::Compute(3));
    let mut node = provider(Vec::new(), 0);
    for _ in 0..3 {
        node.update(&compiler);
    }
    node.state = ComputeNodeState::Creating;
    assert!(matches!(node.state(), ProviderState::Updating));
    node.update(&compiler);
    match &node.state {
        ComputeNodeState::PipelineQueued { pipeline_id } => assert_eq!(pipeline_id.id, 41),
        other => panic!("unexpected state {:?}", other),
    }
}

#[test]
fn provider_without_node_offers_a_placeholder_with_its_slots() {
    let node = provider(Vec::new(), 0);
    let request =
        <ComputeNode as NodeProvider<Compiler>>::add_node_to_graph(&node, "fill".to_string());
    assert_eq!(request.name, "fill");
    match request.node {
        ComputeGraphNode::Placeholder(dummy) => {
            assert_eq!(
                names(&dummy.input()),
                vec![
                    ("source".to_string(), SlotType::Buffer),
                    ("both".to_string(), SlotType::TextureView),
                ]
            );
            assert_eq!(
                names(&dummy.output()),
                vec![
                    ("result".to_string(), SlotType::Buffer),
                    ("both".to_string(), SlotType::TextureView),
                ]
            );
            assert_eq!(dummy.name(), "fill");
            match dummy.run() {
                Err(NodeRunError::PlaceholderRun { node_name }) => assert_eq!(node_name, "fill"),
                other => panic!("unexpected result {:?}", other),
            }
        }
        other => panic!("unexpected node {:?}", other),
    }
}

#[test]
fn ready_provider_offers_its_node() {
    let compiler = Compiler::new(Answer::Compute(3));
    let mut node = provider(Vec::new(), 0);
    for _ in 0..3 {
        node.update(&compiler);
    }
    let request =
        <ComputeNode as NodeProvider<Compiler>>::add_node_to_graph(&node, "fill".to_string());
    assert_eq!(request.name, "fill");
    match request.node {
        ComputeGraphNode::Node(node) => {
            assert_eq!(names(&node.input()).len(), 2);
            assert_eq!(names(&node.output()).len(), 2);
        }
        other => panic!("unexpected node {:?}", other),
    }
}

#[test]
fn node_has_the_slots_of_the_placeholder_that_it_replaces() {
    let compiler = Compiler::new(Answer::Compute(3));
    let mut node = provider(Vec::new(), 0);
    let placeholder =
        <ComputeNode as NodeProvider<Compiler>>::add_node_to_graph(&node, "fill".to_string()).node;
    assert!(matches!(placeholder, ComputeGraphNode::Placeholder(_)));
    for _ in 0..3 {
        node.update(&compiler);
    }
    let real =
        <ComputeNode as NodeProvider<Compiler>>::add_node_to_graph(&node, "fill".to_string()).node;
    assert!(matches!(real, ComputeGraphNode::Node(_)));
    assert_eq!(names(&real.input()), names(&placeholder.input()));
    assert_eq!(names(&real.output()), names(&placeholder.output()));
    assert_eq!(names(&real.input()).len(), 2);
}

#[test]
fn compute_providers_share_one_type_number() {
    assert_eq!(<ComputeNode as NodeProvider<Compiler>>::provider_type(), COMPUTE_NODE_PROVIDER);
    assert_eq!(COMPUTE_NODE_PROVIDER, 1);
}

#[test]
fn provider_cache_ticks_every_provider_once() {
    let compiler = Compiler::new(Answer::Compute(3));
    let mut cache: NodeProviderCache<ComputeNode> = NodeProviderCache::new();
    cache.update(
        vec![
            (provider(Vec::new(), 0), MainWorldEntity(1)),
            (provider(Vec::new(), 0), MainWorldEntity(2)),
        ],
        &compiler,
    );
    assert_eq!(cache.0.len(), 2);
    assert!(matches!(cache.0.get(1).unwrap().state, ComputeNodeState::PipelineQueued { .. }));
    assert!(matches!(cache.0.get(2).unwrap().state, ComputeNodeState::PipelineQueued { .. }));
    cache.update(Vec::new(), &compiler);
    assert!(matches!(cache.0.get(1).unwrap().state, ComputeNodeState::PipelineCached { .. }));
    cache.update(Vec::new(), &compiler);
    assert!(matches!(cache.0.get(1).unwrap().state, ComputeNodeState::ReadyToRun { .. }));
    assert!(matches!(cache.0.get(2).unwrap().state, ComputeNodeState::ReadyToRun { .. }));
}

#[test]
fn changed_component_takes_the_place_of_its_provider() {
    let compiler = Compiler::new(Answer::Compute(3));
    let mut cache: NodeProviderCache<ComputeNode> = NodeProviderCache::new();
    cache.update(vec![(provider(Vec::new(), 0), MainWorldEntity(1))], &compiler);
    cache.update(Vec::new(), &compiler);
    cache.update(Vec::new(), &compiler);
    assert!(matches!(cache.0.get(1).unwrap().state, ComputeNodeState::ReadyToRun { .. }));
    cache.update(vec![(provider(Vec::new(), 5), MainWorldEntity(1))], &compiler);
    assert_eq!(cache.0.len(), 1);
    assert_eq!(cache.0.get(1).unwrap().bind_group_index, 5);
    assert!(matches!(cache.0.get(1).unwrap().state, ComputeNodeState::PipelineQueued { .. }));
}

#[test]
fn later_component_of_one_entity_wins() {
    let compiler = Compiler::new(Answer::Pending);
    let mut cache: NodeProviderCache<ComputeNode> = NodeProviderCache::new();
    cache.update(
        vec![
            (provider(Vec::new(), 1), MainWorldEntity(9)),
            (provider(Vec::new(), 2), MainWorldEntity(9)),
        ],
        &compiler,
    );
    assert_eq!(cache.0.len(), 1);
    assert_eq!(cache.0.get(9).unwrap().bind_group_index, 2);
}
