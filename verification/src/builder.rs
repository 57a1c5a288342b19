//! Builders for compute node providers and for sub-graphs. A builder takes
//! its values one by one; `build` says which mandatory value is missing.
use crate::graph::{
    Edge, ProviderDescriptor, ProviderState, SubGraph, SubGraphDeployState, SubGraphTrigger,
};
use crate::keyed::KeyedStore;
use crate::named::NamedStore;
use crate::node::compute::ComputeNode;
use crate::node::{clone_slots, DispatchWorkgroupsStrategy};
use crate::render_graph::{NodeLabel, RenderGraphError, SlotInfo, SlotLabel, SlotType};
use crate::render_resource::{
    clone_label, BindGroupLayout, BufferDescriptor, ComputePipelineDescriptor, GraphContextFn,
    PushConstantRange, ShaderDefVal, ShaderHandle,
};
use crate::resource::{
    BindResourceCreationDescriptor, BindResourceCreationInfo, BindResourceCreationStrategy,
    BindResourceDirection,
};
use crate::{AddNode, NodeProvider};
use vstd::prelude::*;
use vstd::string::StringExecFns;

verus! {

/// Why a builder could not build.
#[derive(Debug)]
pub enum BuilderError {
    /// A mandatory value was not given; this is its name.
    ValueNotDefined(&'static str),
    /// A value was given that cannot be used.
    ValidationError(String),
    /// The host's graph refused a node or an edge.
    RenderGraphError(RenderGraphError),
}

impl BuilderError {
    /// The error in words.
    pub fn message(&self) -> (text: String)
        ensures
            self matches BuilderError::ValueNotDefined(name) ==> text@
                == "Builder value `"@ + name@ + "` is mandatory, but was not defined"@,
            self matches BuilderError::ValidationError(inner) ==> text@
                == "Builder validation error: `"@ + inner@ + "`"@,
            self matches BuilderError::RenderGraphError(inner) ==> text@
                == "Render graph error: `"@ + inner.message@ + "`"@,
    {
        match self {
            BuilderError::ValueNotDefined(name) => String::from_str("Builder value `").concat(
                name,
            ).concat("` is mandatory, but was not defined"),
            BuilderError::ValidationError(inner) => String::from_str(
                "Builder validation error: `",
            ).concat(inner.as_str()).concat("`"),
            BuilderError::RenderGraphError(inner) => String::from_str(
                "Render graph error: `",
            ).concat(inner.message.as_str()).concat("`"),
        }
    }

}

/// The name of a mandatory value stands for the error that it was not given.
impl From<&'static str> for BuilderError {
    fn from(value: &'static str) -> (error: Self) {
        BuilderError::ValueNotDefined(value)
    }
}

impl vstd::std_specs::convert::FromSpecImpl<&'static str> for BuilderError {
    open spec fn obeys_from_spec() -> bool {
        true
    }

    open spec fn from_spec(value: &'static str) -> Self {
        BuilderError::ValueNotDefined(value)
    }
}

/// What a builder hands back.
pub type BuildResult<T> = Result<T, BuilderError>;

/// The first error among the results, if there is one.
pub open spec fn first_error(results: Seq<BuildResult<BindResourceCreationInfo>>) -> Option<
    BuilderError,
>
    decreases results.len(),
{
    if results.len() == 0 {
        None
    } else {
        match first_error(results.drop_last()) {
            Some(error) => Some(error),
            None => match results.last() {
                Ok(_) => None,
                Err(error) => Some(error),
            },
        }
    }
}

/// The values of the results that are no errors, in order.
pub open spec fn collected(results: Seq<BuildResult<BindResourceCreationInfo>>) -> Seq<
    BindResourceCreationInfo,
>
    decreases results.len(),
{
    if results.len() == 0 {
        Seq::empty()
    } else {
        match results.last() {
            Ok(info) => collected(results.drop_last()).push(info),
            Err(_) => collected(results.drop_last()),
        }
    }
}

/// Builds a compute node provider.
#[derive(Debug)]
pub struct ComputeNodeBuilder {
    pub label: Option<String>,
    pub bind_group_index: Option<u32>,
    pub bind_group_layout: Option<Vec<BindGroupLayout>>,
    pub push_constant_ranges: Option<Vec<PushConstantRange>>,
    pub shader: Option<ShaderHandle>,
    pub shader_defs: Option<Vec<ShaderDefVal>>,
    pub entry_point: Option<String>,
    pub bind_resources: Vec<BuildResult<BindResourceCreationInfo>>,
    pub dispatch_workgroups_strategy: Option<DispatchWorkgroupsStrategy>,
}

impl Default for ComputeNodeBuilder {
    fn default() -> (builder: Self)
        ensures
            builder.label is None,
            builder.bind_group_index is None,
            builder.bind_group_layout is None,
            builder.push_constant_ranges is None,
            builder.shader is None,
            builder.shader_defs is None,
            builder.entry_point is None,
            builder.bind_resources@.len() == 0,
            builder.dispatch_workgroups_strategy is None,
    {
        ComputeNodeBuilder {
            label: None,
            bind_group_index: None,
            bind_group_layout: None,
            push_constant_ranges: None,
            shader: None,
            shader_defs: None,
            entry_point: None,
            bind_resources: Vec::new(),
            dispatch_workgroups_strategy: None,
        }
    }
}

impl ComputeNodeBuilder {
    /// Sets the label.
    pub fn label(self, label: String) -> (builder: Self)
        ensures
            builder == (ComputeNodeBuilder { label: Some(label), ..self }),
    {
        let mut builder = self;
        builder.label = Some(label);
        builder
    }

    /// Sets the index of the bind group that the node binds.
    pub fn bind_group_index(self, bind_group_index: u32) -> (builder: Self)
        ensures
            builder == (ComputeNodeBuilder { bind_group_index: Some(bind_group_index), ..self }),
    {
        let mut builder = self;
        builder.bind_group_index = Some(bind_group_index);
        builder
    }

    /// Sets the declared layouts of the pipeline, by bind group index.
    pub fn bind_group_layout(self, bind_group_layout: Vec<BindGroupLayout>) -> (builder: Self)
        ensures
            builder == (ComputeNodeBuilder { bind_group_layout: Some(bind_group_layout), ..self }),
    {
        let mut builder = self;
        builder.bind_group_layout = Some(bind_group_layout);
        builder
    }

    /// Sets the push constant ranges of the pipeline.
    pub fn push_constant_ranges(self, push_constant_ranges: Vec<PushConstantRange>) -> (builder:
        Self)
        ensures
            builder == (ComputeNodeBuilder {
                push_constant_ranges: Some(push_constant_ranges),
                ..self
            }),
    {
        let mut builder = self;
        builder.push_constant_ranges = Some(push_constant_ranges);
        builder
    }

    /// Sets the shader program.
    pub fn shader(self, shader: ShaderHandle) -> (builder: Self)
        ensures
            builder == (ComputeNodeBuilder { shader: Some(shader), ..self }),
    {
        let mut builder = self;
        builder.shader = Some(shader);
        builder
    }

    /// Sets the definitions for the shader's preprocessor.
    pub fn shader_defs(self, shader_defs: Vec<ShaderDefVal>) -> (builder: Self)
        ensures
            builder == (ComputeNodeBuilder { shader_defs: Some(shader_defs), ..self }),
    {
        let mut builder = self;
        builder.shader_defs = Some(shader_defs);
        builder
    }

    /// Sets the entry point of the shader.
    pub fn entry_point(self, entry_point: String) -> (builder: Self)
        ensures
            builder == (ComputeNodeBuilder { entry_point: Some(entry_point), ..self }),
    {
        let mut builder = self;
        builder.entry_point = Some(entry_point);
        builder
    }

    /// Sets how the workgroup counts are found.
    pub fn dispatch_workgroups_strategy(
        self,
        dispatch_workgroups_strategy: DispatchWorkgroupsStrategy,
    ) -> (builder: Self)
        ensures
            builder == (ComputeNodeBuilder {
                dispatch_workgroups_strategy: Some(dispatch_workgroups_strategy),
                ..self
            }),
    {
        let mut builder = self;
        builder.dispatch_workgroups_strategy = Some(dispatch_workgroups_strategy);
        builder
    }

    /// Starts a bind resource of the node.
    pub fn bind_resource(self) -> (builder: AddBindResourceInfoBuilder)
        ensures
            builder.parent == self,
            builder.name is None,
            builder.binding is None,
            builder.direction is None,
    {
        AddBindResourceInfoBuilder::new(self)
    }

    /// What `build` comes to. A provider needs its shader, the entry point
    /// and the dispatch strategy, and each of its bind resources has to be
    /// complete; the first of these that is missing, in this order (the bind
    /// resources before the dispatch strategy), is the error. Whatever else
    /// was not given gets its default: bind group 0, no declared layouts, no
    /// push constants, no definitions. The provider starts in its first
    /// stage.
    pub open spec fn builds(self, result: BuildResult<ComputeNode>) -> bool {
        if self.shader is None {
            result matches Err(BuilderError::ValueNotDefined(name)) && name@ == "shader"@
        } else if self.entry_point is None {
            result matches Err(BuilderError::ValueNotDefined(name)) && name@ == "entry_point"@
        } else if first_error(self.bind_resources@) is Some {
            result == Err::<ComputeNode, BuilderError>(first_error(self.bind_resources@)->0)
        } else if self.dispatch_workgroups_strategy is None {
            result matches Err(BuilderError::ValueNotDefined(name)) && name@
                == "dispatch_workgroups_strategy"@
        } else {
            &&& result matches Ok(provider)
            &&& provider.wf()
            &&& provider.label == self.label
            &&& provider.bind_group_index == (match self.bind_group_index {
                Some(index) => index,
                None => 0,
            })
            &&& provider.pipeline_descriptor.label == self.label
            &&& provider.pipeline_descriptor.layout@ == (match self.bind_group_layout {
                Some(layout) => layout@,
                None => Seq::empty(),
            })
            &&& provider.pipeline_descriptor.push_constant_ranges@ == (
            match self.push_constant_ranges {
                Some(ranges) => ranges@,
                None => Seq::empty(),
            })
            &&& provider.pipeline_descriptor.shader == self.shader->0
            &&& provider.pipeline_descriptor.shader_defs@ == (match self.shader_defs {
                Some(defs) => defs@,
                None => Seq::empty(),
            })
            &&& provider.pipeline_descriptor.entry_point == self.entry_point->0
            &&& provider.binding_resource_info@ == collected(self.bind_resources@)
            &&& provider.dispatch_workgroups_strategy == self.dispatch_workgroups_strategy->0
            &&& provider.state is Creating
        }
    }

    /// Builds the provider, or says what is missing.
    pub fn build(self) -> (result: BuildResult<ComputeNode>)
        ensures
            self.builds(result),
    {
        let ghost all = self.bind_resources@;
        let mut infos: Vec<BindResourceCreationInfo> = Vec::new();
        let mut failure: Option<BuilderError> = None;
        for item in iter: self.bind_resources.into_iter()
            invariant
                iter.seq() == all,
                failure == first_error(all.take(iter.index() as int)),
                infos@ == collected(all.take(iter.index() as int)),
        {
            proof {
                let k = iter.index() as int;
                assert(all.take(k + 1).drop_last() =~= all.take(k));
                assert(all.take(k + 1).last() == all[k]);
            }
            match item {
                Ok(info) => {
                    infos.push(info);
                },
                Err(error) => {
                    if failure.is_none() {
                        failure = Some(error);
                    }
                },
            }
        }
        proof {
            assert(all.take(all.len() as int) =~= all);
        }
        let shader = match self.shader {
            Some(shader) => shader,
            None => {
                return Err(BuilderError::ValueNotDefined("shader"));
            },
        };
        let entry_point = match self.entry_point {
            Some(entry_point) => entry_point,
            None => {
                return Err(BuilderError::ValueNotDefined("entry_point"));
            },
        };
        if let Some(error) = failure {
            return Err(error);
        }
        let dispatch_workgroups_strategy = match self.dispatch_workgroups_strategy {
            Some(strategy) => strategy,
            None => {
                return Err(BuilderError::ValueNotDefined("dispatch_workgroups_strategy"));
            },
        };
        let label = clone_label(&self.label);
        Ok(
            ComputeNode::new(
                label,
                match self.bind_group_index {
                    Some(index) => index,
                    None => 0,
                },
                ComputePipelineDescriptor {
                    label: self.label,
                    layout: match self.bind_group_layout {
                        Some(layout) => layout,
                        None => Vec::new(),
                    },
                    push_constant_ranges: match self.push_constant_ranges {
                        Some(ranges) => ranges,
                        None => Vec::new(),
                    },
                    shader,
                    shader_defs: match self.shader_defs {
                        Some(defs) => defs,
                        None => Vec::new(),
                    },
                    entry_point,
                },
                infos,
                dispatch_workgroups_strategy,
            ),
        )
    }
}

/// Builds one bind resource of a compute node.
#[derive(Debug)]
pub struct AddBindResourceInfoBuilder {
    pub parent: ComputeNodeBuilder,
    pub name: Option<String>,
    pub binding: Option<u32>,
    pub direction: Option<BuildResult<BindResourceDirection>>,
}

impl AddBindResourceInfoBuilder {
    /// A bind resource of `parent` without any value yet.
    pub fn new(parent: ComputeNodeBuilder) -> (builder: Self)
        ensures
            builder.parent == parent,
            builder.name is None,
            builder.binding is None,
            builder.direction is None,
    {
        AddBindResourceInfoBuilder { parent, name: None, binding: None, direction: None }
    }

    /// Sets the name of the bind resource, which is the name of its slots.
    pub fn name(self, name: String) -> (builder: Self)
        ensures
            builder == (AddBindResourceInfoBuilder { name: Some(name), ..self }),
    {
        let mut builder = self;
        builder.name = Some(name);
        builder
    }

    /// Sets the binding index.
    pub fn binding(self, binding: u32) -> (builder: Self)
        ensures
            builder == (AddBindResourceInfoBuilder { binding: Some(binding), ..self }),
    {
        let mut builder = self;
        builder.binding = Some(binding);
        builder
    }

    /// The bind resource as far as it was given: it needs a name and a
    /// direction, in this order; the binding index defaults to 0.
    pub open spec fn given(self, result: BuildResult<BindResourceCreationInfo>) -> bool {
        match (self.name, self.direction) {
            (None, _) => result matches Err(BuilderError::ValueNotDefined(name)) && name@
                == "name"@,
            (Some(_), None) => result matches Err(BuilderError::ValueNotDefined(name)) && name@
                == "direction"@,
            (Some(_), Some(Err(error))) => result == Err::<BindResourceCreationInfo, BuilderError>(
                error,
            ),
            (Some(name), Some(Ok(direction))) => result == Ok::<
                BindResourceCreationInfo,
                BuilderError,
            >(
                BindResourceCreationInfo {
                    name,
                    binding: match self.binding {
                        Some(binding) => binding,
                        None => 0,
                    },
                    direction,
                },
            ),
        }
    }

    /// Adds the bind resource to the node, complete or not, and goes back
    /// to the builder of the node.
    pub fn add(self) -> (parent: ComputeNodeBuilder)
        ensures
            parent.bind_resources@.len() == self.parent.bind_resources@.len() + 1,
            parent.bind_resources@.drop_last() == self.parent.bind_resources@,
            self.given(parent.bind_resources@.last()),
            parent == (ComputeNodeBuilder {
                bind_resources: parent.bind_resources,
                ..self.parent
            }),
    {
        let result = match self.name {
            None => Err(BuilderError::ValueNotDefined("name")),
            Some(name) => match self.direction {
                None => Err(BuilderError::ValueNotDefined("direction")),
                Some(Err(error)) => Err(error),
                Some(Ok(direction)) => Ok(
                    BindResourceCreationInfo {
                        name,
                        binding: match self.binding {
                            Some(binding) => binding,
                            None => 0,
                        },
                        direction,
                    },
                ),
            },
        };
        let mut parent = self.parent;
        parent.bind_resources.push(result);
        assert(parent.bind_resources@.drop_last() =~= self.parent.bind_resources@);
        parent
    }

    /// Goes on to the kind of slot of a bind resource that is read from an
    /// input slot.
    pub fn input(self) -> (builder: SetSlotTypeBuilder)
        ensures
            builder.parent == self,
            !builder.handed_on,
    {
        SetSlotTypeBuilder { parent: self, handed_on: false }
    }

    /// Gives the bind resource up and goes back to the builder of the node,
    /// which is as it was: a bind resource reaches the node through
    /// [`Self::add`] alone.
    pub fn add_input(self, slot_type: SlotType) -> (parent: ComputeNodeBuilder)
        ensures
            parent == self.parent,
    {
        self.parent
    }

    /// Goes on to the kind of slot of a bind resource that is read from an
    /// input slot and handed on through an output slot.
    pub fn input_output(self) -> (builder: SetSlotTypeBuilder)
        ensures
            builder.parent == self,
            builder.handed_on,
    {
        SetSlotTypeBuilder { parent: self, handed_on: true }
    }

    /// Gives the bind resource up and goes back to the builder of the node,
    /// which is as it was: a bind resource reaches the node through
    /// [`Self::add`] alone.
    pub fn add_input_output(self, slot_type: SlotType) -> (parent: ComputeNodeBuilder)
        ensures
            parent == self.parent,
    {
        self.parent
    }

    /// Goes on to the descriptor of a bind resource that the node makes.
    pub fn output(self) -> (builder: SetBindResourceDescriptorBuilder)
        ensures
            builder.parent == self,
    {
        SetBindResourceDescriptorBuilder { parent: self }
    }
}

/// Sets the descriptor of an output.
#[derive(Debug)]
pub struct SetBindResourceDescriptorBuilder {
    pub parent: AddBindResourceInfoBuilder,
}

impl SetBindResourceDescriptorBuilder {
    /// Goes on to the values of a buffer descriptor.
    pub fn buffer(self) -> (builder: SetBufferDescriptorBuilder)
        ensures
            builder.parent == self.parent,
            builder.label is None,
            builder.size is None,
            builder.usage is None,
            builder.mapped_at_creation is None,
    {
        SetBufferDescriptorBuilder::new(self.parent)
    }

    /// Makes the bind resource an output with a fixed buffer descriptor of
    /// these values.
    pub fn build_buffer(
        self,
        label: &'static str,
        size: u64,
        usage: u32,
        mapped_at_creation: bool,
    ) -> (parent: AddBindResourceInfoBuilder)
        ensures
            parent.parent == self.parent.parent,
            parent.name == self.parent.name,
            parent.binding == self.parent.binding,
            parent.direction matches Some(
                Ok(
                    BindResourceDirection::Output(
                        BindResourceCreationDescriptor::Buffer(
                            BindResourceCreationStrategy::Static(descriptor),
                        ),
                    ),
                ),
            ) && descriptor.label matches Some(text) && text@ == label@ && descriptor.size == size
                && descriptor.usage == usage && descriptor.mapped_at_creation
                == mapped_at_creation,
    {
        let builder = SetBufferDescriptorBuilder {
            parent: self.parent,
            label: Some(String::from_str(label)),
            size: Some(size),
            usage: Some(usage),
            mapped_at_creation: Some(mapped_at_creation),
        };
        builder.build()
    }

    /// Makes the bind resource an output whose buffer descriptor the host's
    /// function computes in every run.
    pub fn buffer_from_graph_context(self, buffer_from_graph_context: GraphContextFn) -> (parent:
        AddBindResourceInfoBuilder)
        ensures
            parent == (AddBindResourceInfoBuilder {
                direction: Some(
                    Ok(
                        BindResourceDirection::Output(
                            BindResourceCreationDescriptor::Buffer(
                                BindResourceCreationStrategy::FromGraphContext(
                                    buffer_from_graph_context,
                                ),
                            ),
                        ),
                    ),
                ),
                ..self.parent
            }),
    {
        let mut parent = self.parent;
        parent.direction = Some(
            Ok(
                BindResourceDirection::Output(
                    BindResourceCreationDescriptor::Buffer(
                        BindResourceCreationStrategy::FromGraphContext(buffer_from_graph_context),
                    ),
                ),
            ),
        );
        parent
    }
}

/// Sets the values of a buffer descriptor.
#[derive(Debug)]
pub struct SetBufferDescriptorBuilder {
    pub parent: AddBindResourceInfoBuilder,
    pub label: Option<String>,
    pub size: Option<u64>,
    pub usage: Option<u32>,
    pub mapped_at_creation: Option<bool>,
}

impl SetBufferDescriptorBuilder {
    /// A buffer descriptor for a bind resource of `parent`, without any value
    /// yet.
    pub fn new(parent: AddBindResourceInfoBuilder) -> (builder: Self)
        ensures
            builder.parent == parent,
            builder.label is None,
            builder.size is None,
            builder.usage is None,
            builder.mapped_at_creation is None,
    {
        SetBufferDescriptorBuilder {
            parent,
            label: None,
            size: None,
            usage: None,
            mapped_at_creation: None,
        }
    }

    /// Sets the label.
    pub fn label(self, label: String) -> (builder: Self)
        ensures
            builder == (SetBufferDescriptorBuilder { label: Some(label), ..self }),
    {
        let mut builder = self;
        builder.label = Some(label);
        builder
    }

    /// Sets the size in bytes.
    pub fn size(self, size: u64) -> (builder: Self)
        ensures
            builder == (SetBufferDescriptorBuilder { size: Some(size), ..self }),
    {
        let mut builder = self;
        builder.size = Some(size);
        builder
    }

    /// Sets the allowed usages, one bit each.
    pub fn usage(self, usage: u32) -> (builder: Self)
        ensures
            builder == (SetBufferDescriptorBuilder { usage: Some(usage), ..self }),
    {
        let mut builder = self;
        builder.usage = Some(usage);
        builder
    }

    /// Sets whether the buffer is mapped when it is made.
    pub fn mapped_at_creation(self, mapped_at_creation: bool) -> (builder: Self)
        ensures
            builder == (SetBufferDescriptorBuilder {
                mapped_at_creation: Some(mapped_at_creation),
                ..self
            }),
    {
        let mut builder = self;
        builder.mapped_at_creation = Some(mapped_at_creation);
        builder
    }

    /// The descriptor as far as it was given: it needs a label and the
    /// usages, in this order; the size defaults to 0, and the buffer is not
    /// mapped when it is made unless that was asked for.
    pub open spec fn given(self, result: BuildResult<BindResourceDirection>) -> bool {
        match (self.label, self.usage) {
            (None, _) => result matches Err(BuilderError::ValueNotDefined(name)) && name@
                == "label"@,
            (Some(_), None) => result matches Err(BuilderError::ValueNotDefined(name)) && name@
                == "usage"@,
            (Some(label), Some(usage)) => result == Ok::<BindResourceDirection, BuilderError>(
                BindResourceDirection::Output(
                    BindResourceCreationDescriptor::Buffer(
                        BindResourceCreationStrategy::Static(
                            BufferDescriptor {
                                label: Some(label),
                                size: match self.size {
                                    Some(size) => size,
                                    None => 0,
                                },
                                usage,
                                mapped_at_creation: match self.mapped_at_creation {
                                    Some(mapped) => mapped,
                                    None => false,
                                },
                            },
                        ),
                    ),
                ),
            ),
        }
    }

    /// Makes the bind resource an output with this buffer descriptor, fixed,
    /// or with the error that says what the descriptor lacks.
    pub fn build(self) -> (parent: AddBindResourceInfoBuilder)
        ensures
            parent.parent == self.parent.parent,
            parent.name == self.parent.name,
            parent.binding == self.parent.binding,
            parent.direction matches Some(result) && self.given(result),
    {
        let result = match self.label {
            None => Err(BuilderError::ValueNotDefined("label")),
            Some(label) => match self.usage {
                None => Err(BuilderError::ValueNotDefined("usage")),
                Some(usage) => Ok(
                    BindResourceDirection::Output(
                        BindResourceCreationDescriptor::Buffer(
                            BindResourceCreationStrategy::Static(
                                BufferDescriptor {
                                    label: Some(label),
                                    size: match self.size {
                                        Some(size) => size,
                                        None => 0,
                                    },
                                    usage,
                                    mapped_at_creation: match self.mapped_at_creation {
                                        Some(mapped) => mapped,
                                        None => false,
                                    },
                                },
                            ),
                        ),
                    ),
                ),
            },
        };
        let mut parent = self.parent;
        parent.direction = Some(result);
        parent
    }
}

/// Sets the kind of slot of a bind resource that is read from an input slot.
#[derive(Debug)]
pub struct SetSlotTypeBuilder {
    pub parent: AddBindResourceInfoBuilder,
    /// Whether the bind resource is also handed on through an output slot.
    pub handed_on: bool,
}

impl SetSlotTypeBuilder {
    /// The direction that a slot of kind `slot_type` gives the bind resource.
    pub open spec fn direction(self, slot_type: SlotType) -> BindResourceDirection {
        if self.handed_on {
            BindResourceDirection::InputOutput(slot_type)
        } else {
            BindResourceDirection::Input(slot_type)
        }
    }

    /// Goes back to the bind resource with its direction set for a slot of
    /// kind `slot_type`.
    pub fn slot(self, slot_type: SlotType) -> (parent: AddBindResourceInfoBuilder)
        ensures
            parent == (AddBindResourceInfoBuilder {
                direction: Some(Ok(self.direction(slot_type))),
                ..self.parent
            }),
    {
        let direction = if self.handed_on {
            BindResourceDirection::InputOutput(slot_type)
        } else {
            BindResourceDirection::Input(slot_type)
        };
        let mut parent = self.parent;
        parent.direction = Some(Ok(direction));
        parent
    }

    /// The slot carries a buffer.
    pub fn buffer(self) -> (parent: AddBindResourceInfoBuilder)
        ensures
            parent == (AddBindResourceInfoBuilder {
                direction: Some(Ok(self.direction(SlotType::Buffer))),
                ..self.parent
            }),
    {
        self.slot(SlotType::Buffer)
    }

    /// The slot carries a texture view.
    pub fn texture_view(self) -> (parent: AddBindResourceInfoBuilder)
        ensures
            parent == (AddBindResourceInfoBuilder {
                direction: Some(Ok(self.direction(SlotType::TextureView))),
                ..self.parent
            }),
    {
        self.slot(SlotType::TextureView)
    }

    /// The slot carries a sampler.
    pub fn sampler(self) -> (parent: AddBindResourceInfoBuilder)
        ensures
            parent == (AddBindResourceInfoBuilder {
                direction: Some(Ok(self.direction(SlotType::Sampler))),
                ..self.parent
            }),
    {
        self.slot(SlotType::Sampler)
    }

    /// The slot carries an entity.
    pub fn entity(self) -> (parent: AddBindResourceInfoBuilder)
        ensures
            parent == (AddBindResourceInfoBuilder {
                direction: Some(Ok(self.direction(SlotType::Entity))),
                ..self.parent
            }),
    {
        self.slot(SlotType::Entity)
    }
}

/// What the host puts into the graph that it assembles for a sub-graph: the
/// input slots of the graph, and the edges between its nodes.
#[derive(Debug)]
pub struct GraphAssembly {
    pub inputs: Vec<SlotInfo>,
    pub node_edges: Vec<(NodeLabel, NodeLabel)>,
    pub slot_edges: Vec<(NodeLabel, SlotLabel, NodeLabel, SlotLabel)>,
}

/// The input slots that were declared for a sub-graph, one for each name, in
/// the order in which the names first came.
pub open spec fn declared_inputs(names: Seq<String>, kinds: Seq<Option<SlotType>>) -> Seq<
    SlotInfo,
>
    decreases names.len(),
{
    if names.len() == 0 {
        Seq::empty()
    } else {
        let before = declared_inputs(names.drop_last(), kinds);
        match kinds[names.len() - 1] {
            Some(slot_type) => before.push(SlotInfo { name: names.last(), slot_type }),
            None => before,
        }
    }
}

/// Builds a sub-graph.
#[derive(Debug)]
pub struct SubGraphBuilder {
    pub name: Option<String>,
    pub providers: KeyedStore<ProviderDescriptor>,
    pub node_edges: Vec<(NodeLabel, NodeLabel)>,
    pub slot_edges: Vec<(NodeLabel, SlotLabel, NodeLabel, SlotLabel)>,
    /// The kind of each input slot of the sub-graph, by the slot's name.
    pub graph_inputs: NamedStore<SlotType>,
    pub outer_edges: Vec<Edge>,
    pub trigger: Option<SubGraphTrigger>,
}

impl Default for SubGraphBuilder {
    fn default() -> (builder: Self)
        ensures
            builder.wf(),
            builder.name is None,
            builder.providers@ == Map::<u64, ProviderDescriptor>::empty(),
            builder.node_edges@.len() == 0,
            builder.slot_edges@.len() == 0,
            builder.graph_inputs@ == Map::<Seq<char>, SlotType>::empty(),
            builder.outer_edges@.len() == 0,
            builder.trigger is None,
    {
        SubGraphBuilder {
            name: None,
            providers: KeyedStore::new(),
            node_edges: Vec::new(),
            slot_edges: Vec::new(),
            graph_inputs: NamedStore::new(),
            outer_edges: Vec::new(),
            trigger: None,
        }
    }
}

impl SubGraphBuilder {
    /// The two stores of the builder agree with themselves.
    pub open spec fn wf(&self) -> bool {
        self.providers.wf() && self.graph_inputs.wf()
    }

    /// Sets the name of the sub-graph.
    pub fn name(self, name: String) -> (builder: Self)
        ensures
            builder == (SubGraphBuilder { name: Some(name), ..self }),
    {
        let mut builder = self;
        builder.name = Some(name);
        builder
    }

    /// Sets the trigger of the sub-graph.
    pub fn trigger(self, trigger: SubGraphTrigger) -> (builder: Self)
        ensures
            builder == (SubGraphBuilder { trigger: Some(trigger), ..self }),
    {
        let mut builder = self;
        builder.trigger = Some(trigger);
        builder
    }

    /// Adds a provider, owned by `provider_entity`, whose node is called
    /// `node_name` in the sub-graph. The sub-graph knows the provider as
    /// created and not yet updated. The provider's present node comes back as
    /// a request for the host to carry out on the graph that it assembles.
    pub fn add_node_provider<W, T: NodeProvider<W>>(
        self,
        node_name: String,
        provider_entity: u64,
        provider: &T,
    ) -> (added: (Self, AddNode<T::Node>))
        requires
            self.wf(),
            provider.provider_wf(),
        ensures
            added.0.wf(),
            added.0.providers@ == self.providers@.insert(
                provider_entity,
                ProviderDescriptor {
                    name: node_name,
                    ty: T::spec_provider_type(),
                    state: ProviderState::Created,
                },
            ),
            added.0 == (SubGraphBuilder { providers: added.0.providers, ..self }),
            added.1.name == node_name,
            provider.provides(added.1.node),
    {
        let request = provider.add_node_to_graph(node_name.clone());
        let mut builder = self;
        builder.providers.insert(
            provider_entity,
            ProviderDescriptor {
                name: node_name,
                ty: T::provider_type(),
                state: ProviderState::Created,
            },
        );
        (builder, request)
    }

    /// Adds an edge that makes `input_node` run after `output_node`.
    pub fn add_node_edge(self, output_node: NodeLabel, input_node: NodeLabel) -> (builder: Self)
        ensures
            builder.node_edges@ == self.node_edges@.push((output_node, input_node)),
            builder == (SubGraphBuilder { node_edges: builder.node_edges, ..self }),
    {
        let mut builder = self;
        builder.node_edges.push((output_node, input_node));
        builder
    }

    /// Adds an edge from an output slot of one node to an input slot of
    /// another.
    pub fn add_slot_edge(
        self,
        output_node: NodeLabel,
        output_slot: SlotLabel,
        input_node: NodeLabel,
        input_slot: SlotLabel,
    ) -> (builder: Self)
        ensures
            builder.slot_edges@ == self.slot_edges@.push(
                (output_node, output_slot, input_node, input_slot),
            ),
            builder == (SubGraphBuilder { slot_edges: builder.slot_edges, ..self }),
    {
        let mut builder = self;
        builder.slot_edges.push((output_node, output_slot, input_node, input_slot));
        builder
    }

    /// Makes the sub-graph run after a node of the graph around it.
    pub fn add_outer_input_node_edge(self, output_node: NodeLabel) -> (builder: Self)
        ensures
            builder.outer_edges@ == self.outer_edges@.push(Edge::InputNodeEdge { output_node }),
            builder == (SubGraphBuilder { outer_edges: builder.outer_edges, ..self }),
    {
        let mut builder = self;
        builder.outer_edges.push(Edge::InputNodeEdge { output_node });
        builder
    }

    /// Gives the sub-graph an input slot of this name and kind, fed from an
    /// output slot of a node of the graph around it. A slot that was declared
    /// before under the same name takes the new kind.
    pub fn add_outer_input_slot_edge(
        self,
        output_node: NodeLabel,
        output_slot: SlotLabel,
        input_slot_name: String,
        input_slot_type: SlotType,
    ) -> (builder: Self)
        requires
            self.wf(),
        ensures
            builder.wf(),
            builder.graph_inputs@ == self.graph_inputs@.insert(input_slot_name@, input_slot_type),
            builder.outer_edges@ == self.outer_edges@.push(
                Edge::InputSlotEdge {
                    output_node,
                    output_slot,
                    input_slot: SlotLabel::Name(input_slot_name),
                },
            ),
            builder == (SubGraphBuilder {
                graph_inputs: builder.graph_inputs,
                outer_edges: builder.outer_edges,
                ..self
            }),
    {
        let mut builder = self;
        builder.graph_inputs.insert(input_slot_name.clone(), input_slot_type);
        builder.outer_edges.push(
            Edge::InputSlotEdge {
                output_node,
                output_slot,
                input_slot: SlotLabel::Name(input_slot_name),
            },
        );
        builder
    }

    /// Makes a node of the graph around the sub-graph run after it.
    pub fn add_outer_output_node_edge(self, input_node: NodeLabel) -> (builder: Self)
        ensures
            builder.outer_edges@ == self.outer_edges@.push(Edge::OutputNodeEdge { input_node }),
            builder == (SubGraphBuilder { outer_edges: builder.outer_edges, ..self }),
    {
        let mut builder = self;
        builder.outer_edges.push(Edge::OutputNodeEdge { input_node });
        builder
    }

    /// The input slots that were declared, for the host's graph and for the
    /// sub-graph.
    pub fn inputs(&self) -> (slots: Vec<SlotInfo>)
        requires
            self.wf(),
        ensures
            slots@ == declared_inputs(self.graph_inputs.names(), self.graph_inputs.values()),
    {
        let mut slots: Vec<SlotInfo> = Vec::new();
        let mut i: usize = 0;
        proof {
            self.graph_inputs.lemma_view();
        }
        while i < self.graph_inputs.len()
            invariant
                self.wf(),
                i <= self.graph_inputs.names().len(),
                self.graph_inputs.names().len() == self.graph_inputs.values().len(),
                slots@ == declared_inputs(
                    self.graph_inputs.names().take(i as int),
                    self.graph_inputs.values(),
                ),
            decreases self.graph_inputs.names().len() - i,
        {
            proof {
                assert(self.graph_inputs.names().take(i + 1).drop_last()
                    =~= self.graph_inputs.names().take(i as int));
                assert(self.graph_inputs.names().take(i + 1).last()
                    == self.graph_inputs.names()[i as int]);
            }
            match self.graph_inputs.value_at(i) {
                Some(slot_type) => {
                    slots.push(SlotInfo::new(self.graph_inputs.name_at(i).clone(), *slot_type));
                },
                None => {},
            }
            i += 1;
        }
        proof {
            assert(self.graph_inputs.names().take(i as int) =~= self.graph_inputs.names());
        }
        slots
    }

    /// Whether `assembly` is what this builder hands the host: the declared
    /// input slots and the edges, as they were added.
    pub open spec fn assembles(self, assembly: GraphAssembly) -> bool {
        &&& assembly.inputs@ == declared_inputs(
            self.graph_inputs.names(),
            self.graph_inputs.values(),
        )
        &&& assembly.node_edges == self.node_edges
        &&& assembly.slot_edges == self.slot_edges
    }

    /// What `build` comes to once the host has answered `outcome` to the
    /// assembly. The host's refusal of an edge is the error, as it stands.
    /// Else a sub-graph needs its name. The sub-graph that is built is queued
    /// with its outer edges, knows its providers and input slots, and fires
    /// always unless a trigger was given.
    pub open spec fn builds(
        self,
        outcome: Result<(), RenderGraphError>,
        result: BuildResult<SubGraph>,
    ) -> bool {
        match outcome {
            Err(refused) => result == Err::<SubGraph, BuilderError>(
                BuilderError::RenderGraphError(refused),
            ),
            Ok(_) => match self.name {
                None => result matches Err(BuilderError::ValueNotDefined(name)) && name@
                    == "name"@,
                Some(name) => {
                    &&& result matches Ok(sub_graph)
                    &&& sub_graph.wf()
                    &&& sub_graph.name == name
                    &&& sub_graph.providers == self.providers
                    &&& sub_graph.inputs@ == declared_inputs(
                        self.graph_inputs.names(),
                        self.graph_inputs.values(),
                    )
                    &&& sub_graph.graph == SubGraphDeployState::Queued(self.outer_edges)
                    &&& match self.trigger {
                        Some(trigger) => sub_graph.trigger == trigger,
                        None => sub_graph.trigger is Always,
                    }
                },
            },
        }
    }

    /// Builds the sub-graph. `assemble` is the host's part: it gives its
    /// graph the input slots, adds the edges, and says which of them, if any,
    /// the graph refused.
    pub fn build<F: FnOnce(GraphAssembly) -> Result<(), RenderGraphError>>(
        self,
        assemble: F,
    ) -> (result: BuildResult<SubGraph>)
        requires
            self.wf(),
            forall|assembly: GraphAssembly| call_requires(assemble, (assembly,)),
        ensures
            exists|assembly: GraphAssembly, outcome: Result<(), RenderGraphError>|
                #![trigger call_ensures(assemble, (assembly,), outcome)]
                self.assembles(assembly) && call_ensures(assemble, (assembly,), outcome)
                    && self.builds(outcome, result),
    {
        let inputs = self.inputs();
        let assembly = GraphAssembly {
            inputs: clone_slots(&inputs),
            node_edges: self.node_edges,
            slot_edges: self.slot_edges,
        };
        let ghost handed = assembly;
        let outcome = assemble(assembly);
        proof {
            assert(self.assembles(handed));
            assert(call_ensures(assemble, (handed,), outcome));
        }
        match outcome {
            Err(refused) => Err(BuilderError::RenderGraphError(refused)),
            Ok(_) => match self.name {
                None => Err(BuilderError::ValueNotDefined("name")),
                Some(name) => Ok(
                    SubGraph {
                        name,
                        providers: self.providers,
                        inputs,
                        graph: SubGraphDeployState::Queued(self.outer_edges),
                        trigger: match self.trigger {
                            Some(trigger) => trigger,
                            None => SubGraphTrigger::default(),
                        },
                    },
                ),
            },
        }
    }
}

} // verus!
