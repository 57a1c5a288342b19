use bevy_node_plumber::graph::{
    Edge, ProviderDescriptor, ProviderState, ResolvedEdge, SubGraph, SubGraphCache,
    SubGraphDeployState, SubGraphRun, SubGraphRunnerNode, SubGraphTrigger,
};
use bevy_node_plumber::keyed::KeyedStore;
use bevy_node_plumber::named::NamedStore;
use bevy_node_plumber::node::compute::{
    ComputeGraphNode, ComputeNode, ComputeNodeState, COMPUTE_NODE_PROVIDER,
};
use bevy_node_plumber::node::DispatchWorkgroupsStrategy;
use bevy_node_plumber::render_graph::{
    InputSlotError, NodeLabel, NodeRunError, RenderGraphContext, RunSubGraphError, SlotInfo,
    SlotLabel, SlotType, SlotValue,
};
use bevy_node_plumber::render_resource::{
    BindGroupLayout, Buffer, BufferDescriptor, CachedComputePipelineId, CachedPipelineState,
    ComputePipeline, ComputePipelineDescriptor, GraphContextFn, Pipeline, PipelineCache, Sampler,
    SamplerDescriptor, ShaderHandle, TextureDescriptor, TextureView,
};
use bevy_node_plumber::resource::{BindResourceCreationInfo, BindResourceDirection};
use bevy_node_plumber::{MainWorldEntity, NodeProviderCache, NodeProviderPlugin};
use std::cell::{Cell, RefCell};

struct Compiler {
    answer: RefCell<Option<Result<u64, String>>>,
}

impl PipelineCache for Compiler {
    fn queue_compute_pipeline(
        &self,
        _descriptor: &ComputePipelineDescriptor,
    ) -> CachedComputePipelineId {
        CachedComputePipelineId { id: 1 }
    }

    fn get_compute_pipeline_state(&self, _id: CachedComputePipelineId) -> CachedPipelineState {
        match self.answer.borrow().clone() {
            None => CachedPipelineState::Queued,
            Some(Ok(id)) => {
                CachedPipelineState::Ready(Pipeline::ComputePipeline(ComputePipeline { id }))
            }
            Some(Err(message)) => CachedPipelineState::Failed(message),
        }
    }

    fn get_bind_group_layout(&self, _pipeline: &ComputePipeline, _index: u32) -> BindGroupLayout {
        BindGroupLayout { id: 5 }
    }
}

/// A running graph that hands out the values it was given, by name, and
/// counts how often it was asked.
struct Context {
    inputs: Vec<(String, SlotValue)>,
    asked: Cell<usize>,
}

impl Context {
    fn new(inputs: Vec<(&str, SlotValue)>) -> Self {
        Context {
            inputs: inputs.into_iter().map(|(name, value)| (name.to_string(), value)).collect(),
            asked: Cell::new(0),
        }
    }
}

impl RenderGraphContext for Context {
    fn get_input(&self, name: &String) -> Result<SlotValue, InputSlotError> {
        self.asked.set(self.asked.get() + 1);
        for (known, value) in &self.inputs {
            if known == name {
                return Ok(*value);
            }
        }
        Err(InputSlotError::InvalidSlot(SlotLabel::Name(name.clone())))
    }

    fn buffer_descriptor(&self, _f: GraphContextFn) -> BufferDescriptor {
        unreachable!()
    }

    fn sampler_descriptor(&self, _f: GraphContextFn) -> SamplerDescriptor {
        unreachable!()
    }

    fn texture_descriptor(&self, _f: GraphContextFn) -> TextureDescriptor {
        unreachable!()
    }

    fn workgroups(&self, _f: GraphContextFn) -> (u32, u32, u32) {
        unreachable!()
    }
}

fn descriptor(name: &str, ty: u64, state: ProviderState) -> ProviderDescriptor {
    ProviderDescriptor { name: name.to_string(), ty, state }
}

fn sub_graph(
    name: &str,
    providers: Vec<(u64, ProviderDescriptor)>,
    graph: SubGraphDeployState,
    trigger: SubGraphTrigger,
) -> SubGraph {
    let mut store = KeyedStore::new();
    for (entity, provider) in providers {
        store.insert(entity, provider);
    }
    SubGraph {
        name: name.to_string(),
        providers: store,
        inputs: vec![
            SlotInfo::new("a".to_string(), SlotType::Buffer),
            SlotInfo::new("b".to_string(), SlotType::Sampler),
        ],
        graph,
        trigger,
    }
}

fn with_states(states: Vec<ProviderState>) -> SubGraph {
    let providers = states
        .into_iter()
        .enumerate()
        .map(|(i, state)| (i as u64 + 1, descriptor("node", COMPUTE_NODE_PROVIDER, state)))
        .collect();
    sub_graph("g", providers, SubGraphDeployState::Queued(Vec::new()), SubGraphTrigger::Always)
}

fn compute_provider() -> ComputeNode {
    ComputeNode::new(
        None,
        0,
        ComputePipelineDescriptor {
            label: None,
            layout: Vec::new(),
            push_constant_ranges: Vec::new(),
            shader: ShaderHandle { id: 1 },
            shader_defs: Vec::new(),
            entry_point: "main".to_string(),
        },
        vec![BindResourceCreationInfo {
            name: "data".to_string(),
            binding: 0,
            direction: BindResourceDirection::InputOutput(SlotType::Buffer),
        }],
        DispatchWorkgroupsStrategy::Static(1, 1, 1),
    )
}

fn buffer(id: u64) -> SlotValue {
    SlotValue::Buffer(Buffer { id, size: 16 })
}

#[test]
fn provider_state_defaults_to_created() {
    assert!(matches!(ProviderState::default(), ProviderState::Created));
}

#[test]
fn provider_states_compare_by_value() {
    assert!(ProviderState::Created.same(&ProviderState::Created));
    assert!(ProviderState::Updating.same(&ProviderState::Updating));
    assert!(ProviderState::CanCreateNode.same(&ProviderState::CanCreateNode));
    assert!(ProviderState::Failed("x".to_string()).same(&ProviderState::Failed("x".to_string())));
    assert!(!ProviderState::Failed("x".to_string()).same(&ProviderState::Failed("y".to_string())));
    assert!(!ProviderState::Created.same(&ProviderState::Updating));
    assert!(!ProviderState::CanCreateNode.same(&ProviderState::Failed(String::new())));
}

#[test]
fn provider_states_are_equal_by_value() {
    assert!(ProviderState::Created == ProviderState::Created);
    assert!(ProviderState::Failed("x".to_string()) == ProviderState::Failed("x".to_string()));
    assert!(ProviderState::Failed("x".to_string()) != ProviderState::Failed("y".to_string()));
    assert!(ProviderState::Updating != ProviderState::CanCreateNode);
    assert_eq!(ProviderState::default(), ProviderState::Created);
}

#[test]
fn summary_of_no_providers_is_ready() {
    let graph = with_states(Vec::new());
    assert!(matches!(graph.providers_state_summary(), ProviderState::CanCreateNode));
}

#[test]
fn summary_is_ready_when_every_provider_is() {
    let graph = with_states(vec![
        ProviderState::CanCreateNode,
        ProviderState::CanCreateNode,
        ProviderState::CanCreateNode,
    ]);
    assert!(matches!(graph.providers_state_summary(), ProviderState::CanCreateNode));
}

#[test]
fn one_updating_provider_keeps_the_sub_graph_updating() {
    let graph = with_states(vec![
        ProviderState::CanCreateNode,
        ProviderState::Updating,
        ProviderState::CanCreateNode,
    ]);
    assert!(matches!(graph.providers_state_summary(), ProviderState::Updating));
}

#[test]
fn one_created_provider_keeps_the_sub_graph_created() {
    let graph = with_states(vec![ProviderState::CanCreateNode, ProviderState::Created]);
    assert!(matches!(graph.providers_state_summary(), ProviderState::Created));
}

#[test]
fn updating_comes_before_created() {
    let graph = with_states(vec![
        ProviderState::Created,
        ProviderState::Updating,
        ProviderState::Created,
    ]);
    assert!(matches!(graph.providers_state_summary(), ProviderState::Updating));
    let graph = with_states(vec![ProviderState::Updating, ProviderState::Created]);
    assert!(matches!(graph.providers_state_summary(), ProviderState::Updating));
}

#[test]
fn one_failed_provider_fails_the_sub_graph() {
    for position in 0..4 {
        let mut states = vec![
            ProviderState::CanCreateNode,
            ProviderState::Updating,
            ProviderState::Created,
        ];
        states.insert(position, ProviderState::Failed("broken shader".to_string()));
        let graph = with_states(states);
        match graph.providers_state_summary() {
            ProviderState::Failed(message) => assert_eq!(message, "broken shader"),
            other => panic!("unexpected summary {:?}", other),
        }
    }
}

#[test]
fn summary_of_several_failures_is_one_of_them() {
    let graph = with_states(vec![
        ProviderState::Failed("one".to_string()),
        ProviderState::Failed("two".to_string()),
    ]);
    match graph.providers_state_summary() {
        ProviderState::Failed(message) => assert!(message == "one" || message == "two"),
        other => panic!("unexpected summary {:?}", other),
    }
}

#[test]
fn always_trigger_fires_every_time() {
    let trigger = SubGraphTrigger::Always;
    for _ in 0..5 {
        assert!(trigger.fire());
    }
    trigger.set();
    assert!(trigger.fire());
}

#[test]
fn default_trigger_is_always() {
    assert!(matches!(SubGraphTrigger::default(), SubGraphTrigger::Always));
}

#[test]
fn manual_trigger_fires_once_per_set() {
    let trigger = SubGraphTrigger::manual(true);
    assert!(trigger.fire());
    assert!(!trigger.fire());
    assert!(!trigger.fire());
    trigger.set();
    trigger.set();
    assert!(trigger.fire());
    assert!(!trigger.fire());
}

#[test]
fn manual_trigger_that_was_never_set_does_not_fire() {
    let trigger = SubGraphTrigger::manual(false);
    assert!(!trigger.fire());
}

#[test]
fn copies_of_a_manual_trigger_share_the_flag() {
    let authoring = SubGraphTrigger::manual(false);
    let runner = authoring.clone();
    authoring.set();
    assert!(runner.fire());
    assert!(!authoring.fire());
    assert!(!runner.fire());
}

#[test]
fn queued_sub_graph_is_handed_over_once() {
    let mut cache = SubGraphCache::new();
    let edges = vec![Edge::InputNodeEdge { output_node: NodeLabel::Name("camera".to_string()) }];
    let mut graph = sub_graph(
        "g",
        vec![(7, descriptor("n", COMPUTE_NODE_PROVIDER, ProviderState::Created))],
        SubGraphDeployState::Queued(edges),
        SubGraphTrigger::manual(false),
    );
    graph.extract_to_render_world(42, &mut cache);
    assert!(matches!(graph.graph, SubGraphDeployState::MovedToRenderWorld));
    assert_eq!(graph.name, "g");
    assert_eq!(cache.0.len(), 1);
    let copy = cache.0.get(42).unwrap();
    assert_eq!(copy.name, "g");
    assert_eq!(copy.inputs.len(), 2);
    assert_eq!(copy.inputs[0].name, "a");
    assert_eq!(copy.inputs[1].slot_type, SlotType::Sampler);
    assert_eq!(copy.providers.len(), 1);
    assert_eq!(copy.providers.get(7).unwrap().name, "n");
    match &copy.graph {
        SubGraphDeployState::Queued(edges) => assert_eq!(edges.len(), 1),
        other => panic!("unexpected state {:?}", other),
    }
    graph.trigger.set();
    assert!(copy.trigger.fire());

    graph.extract_to_render_world(43, &mut cache);
    assert_eq!(cache.0.len(), 1);
    assert!(matches!(graph.graph, SubGraphDeployState::MovedToRenderWorld));
}

#[test]
fn deployed_sub_graph_is_not_handed_over() {
    let mut cache = SubGraphCache::new();
    let mut graph =
        sub_graph("g", Vec::new(), SubGraphDeployState::Deployed, SubGraphTrigger::Always);
    graph.extract_to_render_world(1, &mut cache);
    assert_eq!(cache.0.len(), 0);
    assert!(matches!(graph.graph, SubGraphDeployState::Deployed));
}

#[test]
fn merge_deploys_ready_sub_graphs_in_order() {
    let mut cache = SubGraphCache::new();
    let ready = |name: &str, edges: Vec<Edge>| {
        sub_graph(
            name,
            vec![(1, descriptor("n", COMPUTE_NODE_PROVIDER, ProviderState::CanCreateNode))],
            SubGraphDeployState::Queued(edges),
            SubGraphTrigger::Always,
        )
    };
    cache.0.insert(
        10,
        ready(
            "first",
            vec![
                Edge::InputSlotEdge {
                    output_node: NodeLabel::Name("source".to_string()),
                    output_slot: SlotLabel::Index(0),
                    input_slot: SlotLabel::Name("a".to_string()),
                },
                Edge::OutputNodeEdge { input_node: NodeLabel::Id(77) },
            ],
        ),
    );
    cache.0.insert(
        20,
        sub_graph(
            "waiting",
            vec![(2, descriptor("n", COMPUTE_NODE_PROVIDER, ProviderState::Updating))],
            SubGraphDeployState::Queued(Vec::new()),
            SubGraphTrigger::Always,
        ),
    );
    cache.0.insert(30, ready("second", Vec::new()));

    let deployments = cache.update();
    assert_eq!(deployments.len(), 2);
    assert_eq!(deployments[0].entity, 10);
    assert_eq!(deployments[0].name, "first");
    assert_eq!(deployments[0].runner.sub_graph_name, "first");
    assert_eq!(deployments[0].edges.len(), 2);
    assert!(matches!(deployments[0].edges[0], Edge::InputSlotEdge { .. }));
    assert!(matches!(deployments[0].edges[1], Edge::OutputNodeEdge { .. }));
    let inputs = deployments[0].runner.input();
    assert_eq!(inputs.len(), 2);
    assert_eq!(inputs[0].name, "a");
    assert_eq!(inputs[0].slot_type, SlotType::Buffer);
    assert_eq!(inputs[1].name, "b");
    assert_eq!(inputs[1].slot_type, SlotType::Sampler);
    assert_eq!(deployments[1].entity, 30);
    assert_eq!(deployments[1].name, "second");
    assert!(deployments[1].edges.is_empty());

    assert!(matches!(cache.0.get(10).unwrap().graph, SubGraphDeployState::Deployed));
    assert!(matches!(cache.0.get(20).unwrap().graph, SubGraphDeployState::Queued(_)));
    assert!(matches!(cache.0.get(30).unwrap().graph, SubGraphDeployState::Deployed));
}

#[test]
fn caches_start_empty() {
    assert_eq!(SubGraphCache::default().0.len(), 0);
    assert_eq!(SubGraphCache::new().0.len(), 0);
    assert_eq!(NodeProviderCache::<ComputeNode>::default().0.len(), 0);
    assert!(SubGraphCache::default().update().is_empty());
}

#[test]
fn merge_is_idempotent() {
    let mut cache = SubGraphCache::new();
    cache.0.insert(
        1,
        sub_graph(
            "g",
            vec![(1, descriptor("n", COMPUTE_NODE_PROVIDER, ProviderState::CanCreateNode))],
            SubGraphDeployState::Queued(Vec::new()),
            SubGraphTrigger::Always,
        ),
    );
    assert_eq!(cache.update().len(), 1);
    for _ in 0..3 {
        assert!(cache.update().is_empty());
        assert!(matches!(cache.0.get(1).unwrap().graph, SubGraphDeployState::Deployed));
    }
}

#[test]
fn merge_leaves_failed_and_handed_over_sub_graphs_alone() {
    let mut cache = SubGraphCache::new();
    cache.0.insert(
        1,
        sub_graph(
            "failed",
            vec![
                (1, descriptor("n", COMPUTE_NODE_PROVIDER, ProviderState::CanCreateNode)),
                (2, descriptor("m", COMPUTE_NODE_PROVIDER, ProviderState::Failed("x".to_string()))),
            ],
            SubGraphDeployState::Queued(Vec::new()),
            SubGraphTrigger::Always,
        ),
    );
    cache.0.insert(
        2,
        sub_graph(
            "moved",
            Vec::new(),
            SubGraphDeployState::MovedToRenderWorld,
            SubGraphTrigger::Always,
        ),
    );
    assert!(cache.update().is_empty());
    assert!(matches!(cache.0.get(1).unwrap().graph, SubGraphDeployState::Queued(_)));
    assert!(matches!(cache.0.get(2).unwrap().graph, SubGraphDeployState::MovedToRenderWorld));
}

#[test]
fn runner_of_a_deployment_shares_the_trigger() {
    let mut cache = SubGraphCache::new();
    let trigger = SubGraphTrigger::manual(false);
    cache.0.insert(
        1,
        sub_graph("g", Vec::new(), SubGraphDeployState::Queued(Vec::new()), trigger.clone()),
    );
    let deployments = cache.update();
    assert_eq!(deployments.len(), 1);
    trigger.set();
    assert!(deployments[0].runner.trigger.fire());
    assert!(!trigger.fire());
}

#[test]
fn one_provider_deploys_its_sub_graph_on_the_third_tick() {
    let compiler = Compiler { answer: RefCell::new(Some(Ok(3))) };
    let mut providers: NodeProviderCache<ComputeNode> = NodeProviderCache::new();
    let mut sub_graphs = SubGraphCache::new();
    sub_graphs.0.insert(
        100,
        sub_graph(
            "g",
            vec![(1, descriptor("fill", COMPUTE_NODE_PROVIDER, ProviderState::Created))],
            SubGraphDeployState::Queued(Vec::new()),
            SubGraphTrigger::Always,
        ),
    );

    // tick 1
    providers.update(vec![(compute_provider(), MainWorldEntity(1))], &compiler);
    assert!(matches!(providers.0.get(1).unwrap().state, ComputeNodeState::PipelineQueued { .. }));
    let updates = NodeProviderPlugin::<ComputeNode>::update_sub_graphs::<Compiler>(
        &providers,
        &mut sub_graphs,
    );
    assert_eq!(updates.len(), 1);
    assert_eq!(updates[0].requests.len(), 1);
    assert!(matches!(updates[0].requests[0].node, ComputeGraphNode::Placeholder(_)));
    assert!(matches!(
        sub_graphs.0.get(100).unwrap().providers_state_summary(),
        ProviderState::Updating
    ));
    assert!(sub_graphs.update().is_empty());

    // tick 2
    providers.update(Vec::new(), &compiler);
    assert!(matches!(providers.0.get(1).unwrap().state, ComputeNodeState::PipelineCached { .. }));
    let updates = NodeProviderPlugin::<ComputeNode>::update_sub_graphs::<Compiler>(
        &providers,
        &mut sub_graphs,
    );
    assert!(updates[0].requests.is_empty());
    assert!(matches!(
        sub_graphs.0.get(100).unwrap().providers_state_summary(),
        ProviderState::Updating
    ));
    assert!(sub_graphs.update().is_empty());

    // tick 3
    providers.update(Vec::new(), &compiler);
    assert!(matches!(providers.0.get(1).unwrap().state, ComputeNodeState::ReadyToRun { .. }));
    let updates = NodeProviderPlugin::<ComputeNode>::update_sub_graphs::<Compiler>(
        &providers,
        &mut sub_graphs,
    );
    assert_eq!(updates[0].requests.len(), 1);
    assert!(!updates[0].deployed);
    assert_eq!(updates[0].sub_graph, 100);
    assert_eq!(updates[0].sub_graph_name, "g");
    assert_eq!(updates[0].requests[0].name, "fill");
    assert!(matches!(updates[0].requests[0].node, ComputeGraphNode::Node(_)));
    assert!(matches!(
        sub_graphs.0.get(100).unwrap().providers_state_summary(),
        ProviderState::CanCreateNode
    ));
    let deployments = sub_graphs.update();
    assert_eq!(deployments.len(), 1);
    assert_eq!(deployments[0].entity, 100);
    assert!(matches!(sub_graphs.0.get(100).unwrap().graph, SubGraphDeployState::Deployed));

    // tick 4
    providers.update(Vec::new(), &compiler);
    let updates = NodeProviderPlugin::<ComputeNode>::update_sub_graphs::<Compiler>(
        &providers,
        &mut sub_graphs,
    );
    assert!(updates[0].deployed);
    assert!(updates[0].requests.is_empty());
    assert!(sub_graphs.update().is_empty());
}

#[test]
fn failed_provider_shows_in_its_sub_graph() {
    let compiler = Compiler { answer: RefCell::new(Some(Err("bad".to_string()))) };
    let mut providers: NodeProviderCache<ComputeNode> = NodeProviderCache::new();
    let mut sub_graphs = SubGraphCache::new();
    sub_graphs.0.insert(
        100,
        sub_graph(
            "g",
            vec![(1, descriptor("fill", COMPUTE_NODE_PROVIDER, ProviderState::Created))],
            SubGraphDeployState::Queued(Vec::new()),
            SubGraphTrigger::Always,
        ),
    );
    providers.update(vec![(compute_provider(), MainWorldEntity(1))], &compiler);
    providers.update(Vec::new(), &compiler);
    let updates = NodeProviderPlugin::<ComputeNode>::update_sub_graphs::<Compiler>(
        &providers,
        &mut sub_graphs,
    );
    assert_eq!(updates[0].requests.len(), 1);
    assert!(matches!(updates[0].requests[0].node, ComputeGraphNode::Placeholder(_)));
    match sub_graphs.0.get(100).unwrap().providers_state_summary() {
        ProviderState::Failed(message) => assert_eq!(message, "bad"),
        other => panic!("unexpected summary {:?}", other),
    }
    assert!(sub_graphs.update().is_empty());
}

#[test]
fn deployed_sub_graph_takes_only_real_nodes() {
    let compiler = Compiler { answer: RefCell::new(None) };
    let mut providers: NodeProviderCache<ComputeNode> = NodeProviderCache::new();
    let mut sub_graphs = SubGraphCache::new();
    sub_graphs.0.insert(
        100,
        sub_graph(
            "g",
            vec![(1, descriptor("fill", COMPUTE_NODE_PROVIDER, ProviderState::CanCreateNode))],
            SubGraphDeployState::Deployed,
            SubGraphTrigger::Always,
        ),
    );
    providers.update(vec![(compute_provider(), MainWorldEntity(1))], &compiler);
    let updates = NodeProviderPlugin::<ComputeNode>::update_sub_graphs::<Compiler>(
        &providers,
        &mut sub_graphs,
    );
    assert!(updates[0].deployed);
    assert!(updates[0].requests.is_empty());
    assert!(matches!(
        sub_graphs.0.get(100).unwrap().providers.get(1).unwrap().state,
        ProviderState::Updating
    ));

    *compiler.answer.borrow_mut() = Some(Ok(3));
    providers.update(Vec::new(), &compiler);
    providers.update(Vec::new(), &compiler);
    let updates = NodeProviderPlugin::<ComputeNode>::update_sub_graphs::<Compiler>(
        &providers,
        &mut sub_graphs,
    );
    assert_eq!(updates[0].requests.len(), 1);
    assert!(matches!(updates[0].requests[0].node, ComputeGraphNode::Node(_)));
}

#[test]
fn handed_over_sub_graph_takes_no_nodes() {
    let compiler = Compiler { answer: RefCell::new(None) };
    let mut providers: NodeProviderCache<ComputeNode> = NodeProviderCache::new();
    let mut sub_graphs = SubGraphCache::new();
    sub_graphs.0.insert(
        100,
        sub_graph(
            "g",
            vec![(1, descriptor("fill", COMPUTE_NODE_PROVIDER, ProviderState::Created))],
            SubGraphDeployState::MovedToRenderWorld,
            SubGraphTrigger::Always,
        ),
    );
    providers.update(vec![(compute_provider(), MainWorldEntity(1))], &compiler);
    let updates = NodeProviderPlugin::<ComputeNode>::update_sub_graphs::<Compiler>(
        &providers,
        &mut sub_graphs,
    );
    assert!(updates[0].requests.is_empty());
    assert!(matches!(
        sub_graphs.0.get(100).unwrap().providers.get(1).unwrap().state,
        ProviderState::Updating
    ));
}

#[test]
fn descriptors_of_other_providers_are_left_alone() {
    let compiler = Compiler { answer: RefCell::new(None) };
    let mut providers: NodeProviderCache<ComputeNode> = NodeProviderCache::new();
    let mut sub_graphs = SubGraphCache::new();
    sub_graphs.0.insert(
        100,
        sub_graph(
            "g",
            vec![
                (1, descriptor("other type", COMPUTE_NODE_PROVIDER + 1, ProviderState::Created)),
                (2, descriptor("not extracted", COMPUTE_NODE_PROVIDER, ProviderState::Created)),
                (3, descriptor("mine", COMPUTE_NODE_PROVIDER, ProviderState::Created)),
            ],
            SubGraphDeployState::Queued(Vec::new()),
            SubGraphTrigger::Always,
        ),
    );
    providers.update(
        vec![(compute_provider(), MainWorldEntity(1)), (compute_provider(), MainWorldEntity(3))],
        &compiler,
    );
    let updates = NodeProviderPlugin::<ComputeNode>::update_sub_graphs::<Compiler>(
        &providers,
        &mut sub_graphs,
    );
    assert_eq!(updates[0].requests.len(), 1);
    assert_eq!(updates[0].requests[0].name, "mine");
    let graph = sub_graphs.0.get(100).unwrap();
    assert!(matches!(graph.providers.get(1).unwrap().state, ProviderState::Created));
    assert!(matches!(graph.providers.get(2).unwrap().state, ProviderState::Created));
    assert!(matches!(graph.providers.get(3).unwrap().state, ProviderState::Updating));
    assert_eq!(graph.providers.get(1).unwrap().name, "other type");
}

fn runner(trigger: SubGraphTrigger) -> SubGraphRunnerNode {
    SubGraphRunnerNode {
        sub_graph_name: "g".to_string(),
        node_inputs: vec![
            SlotInfo::new("a".to_string(), SlotType::Buffer),
            SlotInfo::new("b".to_string(), SlotType::Buffer),
            SlotInfo::new("c".to_string(), SlotType::Sampler),
        ],
        trigger,
    }
}

#[test]
fn runner_forwards_inputs_by_name() {
    let context = Context::new(vec![
        ("a", buffer(1)),
        ("b", buffer(2)),
        ("c", SlotValue::Sampler(Sampler { id: 3 })),
    ]);
    let slots = vec![
        SlotInfo::new("c".to_string(), SlotType::Sampler),
        SlotInfo::new("a".to_string(), SlotType::Buffer),
        SlotInfo::new("b".to_string(), SlotType::Buffer),
    ];
    match runner(SubGraphTrigger::Always).run(&context, Some(&slots)) {
        Ok(SubGraphRun::Run { sub_graph_name, inputs }) => {
            assert_eq!(sub_graph_name, "g");
            assert_eq!(inputs, vec![SlotValue::Sampler(Sampler { id: 3 }), buffer(1), buffer(2)]);
        }
        other => panic!("unexpected result {:?}", other),
    }
}

#[test]
fn runner_forwards_to_fewer_slots_than_it_has() {
    let context = Context::new(vec![
        ("a", buffer(1)),
        ("b", buffer(2)),
        ("c", SlotValue::TextureView(TextureView { id: 3 })),
    ]);
    let slots = vec![SlotInfo::new("b".to_string(), SlotType::Buffer)];
    match runner(SubGraphTrigger::Always).run(&context, Some(&slots)) {
        Ok(SubGraphRun::Run { inputs, .. }) => assert_eq!(inputs, vec![buffer(2)]),
        other => panic!("unexpected result {:?}", other),
    }
    let none: Vec<SlotInfo> = Vec::new();
    match runner(SubGraphTrigger::Always).run(&context, Some(&none)) {
        Ok(SubGraphRun::Run { inputs, .. }) => assert!(inputs.is_empty()),
        other => panic!("unexpected result {:?}", other),
    }
}

#[test]
fn runner_names_the_slot_that_gets_no_value() {
    let context = Context::new(vec![
        ("a", buffer(1)),
        ("b", buffer(2)),
        ("c", SlotValue::Entity(3)),
    ]);
    let slots = vec![
        SlotInfo::new("a".to_string(), SlotType::Buffer),
        SlotInfo::new("missing".to_string(), SlotType::Buffer),
        SlotInfo::new("also missing".to_string(), SlotType::Buffer),
    ];
    match runner(SubGraphTrigger::Always).run(&context, Some(&slots)) {
        Err(NodeRunError::RunSubGraphError(RunSubGraphError::MissingInput {
            slot_index,
            slot_name,
            graph_name,
        })) => {
            assert_eq!(slot_index, 1);
            assert_eq!(slot_name, "missing");
            assert_eq!(graph_name, "g");
        }
        other => panic!("unexpected result {:?}", other),
    }
}

#[test]
fn runner_gives_a_value_to_one_slot_only() {
    let context = Context::new(vec![
        ("a", buffer(1)),
        ("b", buffer(2)),
        ("c", SlotValue::Entity(3)),
    ]);
    let slots = vec![
        SlotInfo::new("a".to_string(), SlotType::Buffer),
        SlotInfo::new("a".to_string(), SlotType::Buffer),
    ];
    match runner(SubGraphTrigger::Always).run(&context, Some(&slots)) {
        Err(NodeRunError::RunSubGraphError(RunSubGraphError::MissingInput {
            slot_index,
            slot_name,
            ..
        })) => {
            assert_eq!(slot_index, 1);
            assert_eq!(slot_name, "a");
        }
        other => panic!("unexpected result {:?}", other),
    }
}

#[test]
fn runner_takes_the_later_of_two_inputs_of_one_name() {
    let context = Context::new(vec![("a", buffer(1))]);
    let node = SubGraphRunnerNode {
        sub_graph_name: "g".to_string(),
        node_inputs: vec![
            SlotInfo::new("a".to_string(), SlotType::Buffer),
            SlotInfo::new("a".to_string(), SlotType::Buffer),
        ],
        trigger: SubGraphTrigger::Always,
    };
    let mut available = NamedStore::new();
    available.insert("a".to_string(), buffer(1));
    available.insert("a".to_string(), buffer(9));
    let slots = vec![SlotInfo::new("a".to_string(), SlotType::Buffer)];
    assert_eq!(node.forward_inputs(available, &slots).unwrap(), vec![buffer(9)]);
    match node.run(&context, Some(&slots)) {
        Ok(SubGraphRun::Run { inputs, .. }) => assert_eq!(inputs, vec![buffer(1)]),
        other => panic!("unexpected result {:?}", other),
    }
}

#[test]
fn runner_fails_when_the_host_refuses_an_input() {
    let context = Context::new(vec![("a", buffer(1)), ("c", buffer(3))]);
    let slots = vec![SlotInfo::new("a".to_string(), SlotType::Buffer)];
    match runner(SubGraphTrigger::Always).run(&context, Some(&slots)) {
        Err(NodeRunError::InputSlotError(InputSlotError::InvalidSlot(SlotLabel::Name(name)))) => {
            assert_eq!(name, "b");
        }
        other => panic!("unexpected result {:?}", other),
    }
    assert_eq!(context.asked.get(), 2);
}

#[test]
fn runner_fails_for_a_sub_graph_that_is_not_there() {
    let context = Context::new(vec![("a", buffer(1)), ("b", buffer(2)), ("c", buffer(3))]);
    match runner(SubGraphTrigger::Always).run(&context, None) {
        Err(NodeRunError::RunSubGraphError(RunSubGraphError::MissingSubGraph(name))) => {
            assert_eq!(name, "g");
        }
        other => panic!("unexpected result {:?}", other),
    }
    let empty = Context::new(Vec::new());
    assert!(matches!(
        runner(SubGraphTrigger::Always).run(&empty, None),
        Err(NodeRunError::InputSlotError(_))
    ));
}

#[test]
fn runner_names_the_first_input_that_the_host_refuses() {
    let context = Context::new(vec![("b", buffer(2))]);
    let slots = vec![SlotInfo::new("b".to_string(), SlotType::Buffer)];
    match runner(SubGraphTrigger::Always).run(&context, Some(&slots)) {
        Err(NodeRunError::InputSlotError(InputSlotError::InvalidSlot(SlotLabel::Name(name)))) => {
            assert_eq!(name, "a");
        }
        other => panic!("unexpected result {:?}", other),
    }
    assert_eq!(context.asked.get(), 1);
}

#[test]
fn run_after_trigger_goes_by_the_answer_of_the_trigger() {
    let context = Context::new(vec![("a", buffer(1)), ("b", buffer(2)), ("c", buffer(3))]);
    let slots = vec![SlotInfo::new("c".to_string(), SlotType::Buffer)];
    for trigger in [SubGraphTrigger::Always, SubGraphTrigger::manual(true)] {
        let node = runner(trigger);
        assert!(matches!(
            node.run_after_trigger(false, &context, Some(&slots)),
            Ok(SubGraphRun::Skipped)
        ));
        assert!(matches!(node.run_after_trigger(false, &context, None), Ok(SubGraphRun::Skipped)));
        assert_eq!(context.asked.get(), 0);
        match node.run_after_trigger(true, &context, Some(&slots)) {
            Ok(SubGraphRun::Run { sub_graph_name, inputs }) => {
                assert_eq!(sub_graph_name, "g");
                assert_eq!(inputs, vec![buffer(3)]);
            }
            other => panic!("unexpected result {:?}", other),
        }
        assert!(matches!(
            node.run_after_trigger(true, &context, None),
            Err(NodeRunError::RunSubGraphError(RunSubGraphError::MissingSubGraph(_)))
        ));
        context.asked.set(0);
    }
}

#[test]
fn outer_edges_end_at_the_runner() {
    let runner = || NodeLabel::Name("g".to_string());
    match (Edge::InputSlotEdge {
        output_node: NodeLabel::Name("camera".to_string()),
        output_slot: SlotLabel::Index(2),
        input_slot: SlotLabel::Name("picture".to_string()),
    })
    .resolve(runner())
    {
        ResolvedEdge::SlotEdge {
            output_node: NodeLabel::Name(from),
            output_slot: SlotLabel::Index(2),
            input_node: NodeLabel::Name(to),
            input_slot: SlotLabel::Name(slot),
        } => {
            assert_eq!(from, "camera");
            assert_eq!(to, "g");
            assert_eq!(slot, "picture");
        }
        other => panic!("unexpected edge {:?}", other),
    }
    match (Edge::InputNodeEdge { output_node: NodeLabel::Id(7) }).resolve(runner()) {
        ResolvedEdge::NodeEdge { output_node: NodeLabel::Id(7), input_node: NodeLabel::Name(to) } => {
            assert_eq!(to, "g");
        }
        other => panic!("unexpected edge {:?}", other),
    }
    match (Edge::OutputNodeEdge { input_node: NodeLabel::Name("after".to_string()) })
        .resolve(runner())
    {
        ResolvedEdge::NodeEdge {
            output_node: NodeLabel::Name(from),
            input_node: NodeLabel::Name(to),
        } => {
            assert_eq!(from, "g");
            assert_eq!(to, "after");
        }
        other => panic!("unexpected edge {:?}", other),
    }
}

#[test]
fn manual_runner_runs_once_per_set() {
    let context = Context::new(vec![("a", buffer(1)), ("b", buffer(2)), ("c", buffer(3))]);
    let slots = vec![SlotInfo::new("a".to_string(), SlotType::Buffer)];
    let trigger = SubGraphTrigger::manual(false);
    let node = runner(trigger.clone());
    assert!(matches!(node.run(&context, Some(&slots)), Ok(SubGraphRun::Skipped)));
    assert_eq!(context.asked.get(), 0);
    trigger.set();
    assert!(matches!(node.run(&context, Some(&slots)), Ok(SubGraphRun::Run { .. })));
    assert_eq!(context.asked.get(), 3);
    assert!(matches!(node.run(&context, Some(&slots)), Ok(SubGraphRun::Skipped)));
    assert_eq!(context.asked.get(), 3);
}

#[test]
fn always_runner_runs_every_time() {
    let context = Context::new(vec![("a", buffer(1)), ("b", buffer(2)), ("c", buffer(3))]);
    let slots = vec![SlotInfo::new("a".to_string(), SlotType::Buffer)];
    let node = runner(SubGraphTrigger::Always);
    for _ in 0..3 {
        assert!(matches!(node.run(&context, Some(&slots)), Ok(SubGraphRun::Run { .. })));
    }
    assert_eq!(context.asked.get(), 9);
}

#[test]
fn skipped_run_does_not_touch_a_failing_host() {
    let context = Context::new(Vec::new());
    let node = runner(SubGraphTrigger::manual(false));
    assert!(matches!(node.run(&context, None), Ok(SubGraphRun::Skipped)));
    assert_eq!(context.asked.get(), 0);
    assert!(matches!(node.run_triggered(&context, None), Err(NodeRunError::InputSlotError(_))));
}
