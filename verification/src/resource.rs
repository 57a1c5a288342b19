//! Bind resources of a node: what each binding is, how an output resource is
//! described, and the cache that keeps the instance made from a descriptor
//! until the descriptor changes.
use crate::keyed::KeyedStore;
use crate::render_graph::{
    InputSlotError, NodeRunError, OutputSlotError, RenderGraphContext, SlotInfo, SlotLabel,
    SlotOutput, SlotType, SlotValue,
};
use crate::render_resource::{
    buffer_made, create_buffer, BindGroupEntry, BindingResource, Buffer, BufferDescriptor,
    BufferDescriptorView, GraphContextFn, RenderDevice, Sampler, SamplerDescriptor,
    SamplerDescriptorView, Texture, TextureDescriptor, TextureDescriptorView, TextureView,
};
use vstd::prelude::*;

verus! {

/// Where the descriptor of an output resource comes from.
#[derive(Debug)]
pub enum BindResourceCreationStrategy<T> {
    /// The descriptor is fixed.
    Static(T),
    /// The descriptor is computed anew in every run, by a function of the host.
    FromGraphContext(GraphContextFn),
}

/// How an output resource is described, by kind.
#[derive(Debug)]
pub enum BindResourceCreationDescriptor {
    Buffer(BindResourceCreationStrategy<BufferDescriptor>),
    Sampler(BindResourceCreationStrategy<SamplerDescriptor>),
    Texture(BindResourceCreationStrategy<TextureDescriptor>),
}

/// A [`BindResourceCreationDescriptor`] by value.
pub enum BindResourceCreationDescriptorView {
    Buffer(BindResourceCreationStrategy<BufferDescriptorView>),
    Sampler(BindResourceCreationStrategy<SamplerDescriptorView>),
    Texture(BindResourceCreationStrategy<TextureDescriptorView>),
}

impl View for BindResourceCreationDescriptor {
    type V = BindResourceCreationDescriptorView;

    open spec fn view(&self) -> BindResourceCreationDescriptorView {
        match *self {
            BindResourceCreationDescriptor::Buffer(BindResourceCreationStrategy::Static(d)) => {
                BindResourceCreationDescriptorView::Buffer(
                    BindResourceCreationStrategy::Static(d@),
                )
            },
            BindResourceCreationDescriptor::Buffer(
                BindResourceCreationStrategy::FromGraphContext(f),
            ) => BindResourceCreationDescriptorView::Buffer(
                BindResourceCreationStrategy::FromGraphContext(f),
            ),
            BindResourceCreationDescriptor::Sampler(BindResourceCreationStrategy::Static(d)) => {
                BindResourceCreationDescriptorView::Sampler(
                    BindResourceCreationStrategy::Static(d@),
                )
            },
            BindResourceCreationDescriptor::Sampler(
                BindResourceCreationStrategy::FromGraphContext(f),
            ) => BindResourceCreationDescriptorView::Sampler(
                BindResourceCreationStrategy::FromGraphContext(f),
            ),
            BindResourceCreationDescriptor::Texture(BindResourceCreationStrategy::Static(d)) => {
                BindResourceCreationDescriptorView::Texture(
                    BindResourceCreationStrategy::Static(d@),
                )
            },
            BindResourceCreationDescriptor::Texture(
                BindResourceCreationStrategy::FromGraphContext(f),
            ) => BindResourceCreationDescriptorView::Texture(
                BindResourceCreationStrategy::FromGraphContext(f),
            ),
        }
    }
}

impl Clone for BindResourceCreationDescriptor {
    fn clone(&self) -> (copy: Self)
        ensures
            copy@ == self@,
    {
        match self {
            BindResourceCreationDescriptor::Buffer(BindResourceCreationStrategy::Static(d)) => {
                BindResourceCreationDescriptor::Buffer(
                    BindResourceCreationStrategy::Static(d.clone()),
                )
            },
            BindResourceCreationDescriptor::Buffer(
                BindResourceCreationStrategy::FromGraphContext(f),
            ) => BindResourceCreationDescriptor::Buffer(
                BindResourceCreationStrategy::FromGraphContext(*f),
            ),
            BindResourceCreationDescriptor::Sampler(BindResourceCreationStrategy::Static(d)) => {
                BindResourceCreationDescriptor::Sampler(
                    BindResourceCreationStrategy::Static(d.clone()),
                )
            },
            BindResourceCreationDescriptor::Sampler(
                BindResourceCreationStrategy::FromGraphContext(f),
            ) => BindResourceCreationDescriptor::Sampler(
                BindResourceCreationStrategy::FromGraphContext(*f),
            ),
            BindResourceCreationDescriptor::Texture(BindResourceCreationStrategy::Static(d)) => {
                BindResourceCreationDescriptor::Texture(
                    BindResourceCreationStrategy::Static(d.clone()),
                )
            },
            BindResourceCreationDescriptor::Texture(
                BindResourceCreationStrategy::FromGraphContext(f),
            ) => BindResourceCreationDescriptor::Texture(
                BindResourceCreationStrategy::FromGraphContext(*f),
            ),
        }
    }
}

/// A descriptor with nothing left to compute: what the device is asked to make.
#[derive(Debug)]
pub enum StaticBindResourceCreationDescriptor {
    Buffer(BufferDescriptor),
    Sampler(SamplerDescriptor),
    Texture(TextureDescriptor),
}

/// A [`StaticBindResourceCreationDescriptor`] by value.
pub enum StaticBindResourceCreationDescriptorView {
    Buffer(BufferDescriptorView),
    Sampler(SamplerDescriptorView),
    Texture(TextureDescriptorView),
}

impl View for StaticBindResourceCreationDescriptor {
    type V = StaticBindResourceCreationDescriptorView;

    open spec fn view(&self) -> StaticBindResourceCreationDescriptorView {
        match *self {
            StaticBindResourceCreationDescriptor::Buffer(d) => {
                StaticBindResourceCreationDescriptorView::Buffer(d@)
            },
            StaticBindResourceCreationDescriptor::Sampler(d) => {
                StaticBindResourceCreationDescriptorView::Sampler(d@)
            },
            StaticBindResourceCreationDescriptor::Texture(d) => {
                StaticBindResourceCreationDescriptorView::Texture(d@)
            },
        }
    }
}

/// A resource that a node made for one of its outputs.
#[derive(Clone, Copy, Debug, PartialEq, Eq, Structural)]
pub enum OwnBindResource {
    Buffer(Buffer),
    Sampler(Sampler),
    /// A texture with its default view.
    Texture(Texture, TextureView),
}

impl StaticBindResourceCreationDescriptor {
    /// Value equality: the same kind, and every field reads the same.
    pub fn same(&self, other: &Self) -> (same: bool)
        ensures
            same == (self@ == other@),
    {
        match (self, other) {
            (
                StaticBindResourceCreationDescriptor::Buffer(a),
                StaticBindResourceCreationDescriptor::Buffer(b),
            ) => a.same(b),
            (
                StaticBindResourceCreationDescriptor::Sampler(a),
                StaticBindResourceCreationDescriptor::Sampler(b),
            ) => a.same(b),
            (
                StaticBindResourceCreationDescriptor::Texture(a),
                StaticBindResourceCreationDescriptor::Texture(b),
            ) => a.same(b),
            _ => false,
        }
    }

    /// Whether `resource` is what `render_device` may hand back when asked to
    /// make this descriptor: a buffer of the size asked for, for a buffer
    /// descriptor, a sampler for a sampler descriptor, a texture with its
    /// default view for a texture descriptor.
    pub open spec fn makes<D: RenderDevice>(
        &self,
        render_device: &D,
        resource: OwnBindResource,
    ) -> bool {
        match *self {
            StaticBindResourceCreationDescriptor::Buffer(d) => resource matches OwnBindResource::Buffer(
                buffer,
            ) && buffer_made(render_device, d, buffer),
            StaticBindResourceCreationDescriptor::Sampler(d) => resource matches OwnBindResource::Sampler(
                sampler,
            ) && call_ensures(D::create_sampler, (render_device, &d), sampler),
            StaticBindResourceCreationDescriptor::Texture(d) => resource matches OwnBindResource::Texture(
                texture,
                view,
            ) && call_ensures(D::create_texture, (render_device, &d), texture) && call_ensures(
                D::create_texture_view,
                (render_device, &texture),
                view,
            ),
        }
    }

    /// Has the device make the resource that this descriptor describes.
    pub fn create_resource<D: RenderDevice>(&self, render_device: &D) -> (resource:
        OwnBindResource)
        ensures
            self.makes(render_device, resource),
    {
        match self {
            StaticBindResourceCreationDescriptor::Buffer(buffer_descriptor) => {
                OwnBindResource::Buffer(create_buffer(render_device, buffer_descriptor))
            },
            StaticBindResourceCreationDescriptor::Sampler(sampler_descriptor) => {
                OwnBindResource::Sampler(render_device.create_sampler(sampler_descriptor))
            },
            StaticBindResourceCreationDescriptor::Texture(texture_descriptor) => {
                let texture = render_device.create_texture(texture_descriptor);
                let default_view = render_device.create_texture_view(&texture);
                OwnBindResource::Texture(texture, default_view)
            },
        }
    }
}

impl BindResourceCreationDescriptor {
    /// Whether `resolved` is what this descriptor may come to in the run that
    /// `graph_context` shows: a fixed descriptor comes to itself, a computed
    /// one to what the host's function hands back.
    pub open spec fn resolves_to<C: RenderGraphContext>(
        &self,
        graph_context: &C,
        resolved: StaticBindResourceCreationDescriptor,
    ) -> bool {
        match *self {
            BindResourceCreationDescriptor::Buffer(BindResourceCreationStrategy::Static(d)) => {
                resolved@ == StaticBindResourceCreationDescriptorView::Buffer(d@)
            },
            BindResourceCreationDescriptor::Buffer(
                BindResourceCreationStrategy::FromGraphContext(f),
            ) => resolved matches StaticBindResourceCreationDescriptor::Buffer(d) && call_ensures(
                C::buffer_descriptor,
                (graph_context, f),
                d,
            ),
            BindResourceCreationDescriptor::Sampler(BindResourceCreationStrategy::Static(d)) => {
                resolved@ == StaticBindResourceCreationDescriptorView::Sampler(d@)
            },
            BindResourceCreationDescriptor::Sampler(
                BindResourceCreationStrategy::FromGraphContext(f),
            ) => resolved matches StaticBindResourceCreationDescriptor::Sampler(d) && call_ensures(
                C::sampler_descriptor,
                (graph_context, f),
                d,
            ),
            BindResourceCreationDescriptor::Texture(BindResourceCreationStrategy::Static(d)) => {
                resolved@ == StaticBindResourceCreationDescriptorView::Texture(d@)
            },
            BindResourceCreationDescriptor::Texture(
                BindResourceCreationStrategy::FromGraphContext(f),
            ) => resolved matches StaticBindResourceCreationDescriptor::Texture(d) && call_ensures(
                C::texture_descriptor,
                (graph_context, f),
                d,
            ),
        }
    }

    /// Resolves the descriptor against the running graph.
    pub fn into_static<C: RenderGraphContext>(self, graph_context: &C) -> (resolved:
        StaticBindResourceCreationDescriptor)
        ensures
            self.resolves_to(graph_context, resolved),
    {
        match self {
            BindResourceCreationDescriptor::Buffer(b) => {
                StaticBindResourceCreationDescriptor::Buffer(
                    match b {
                        BindResourceCreationStrategy::Static(s) => s,
                        BindResourceCreationStrategy::FromGraphContext(f) => {
                            graph_context.buffer_descriptor(f)
                        },
                    },
                )
            },
            BindResourceCreationDescriptor::Sampler(s) => {
                StaticBindResourceCreationDescriptor::Sampler(
                    match s {
                        BindResourceCreationStrategy::Static(s) => s,
                        BindResourceCreationStrategy::FromGraphContext(f) => {
                            graph_context.sampler_descriptor(f)
                        },
                    },
                )
            },
            BindResourceCreationDescriptor::Texture(t) => {
                StaticBindResourceCreationDescriptor::Texture(
                    match t {
                        BindResourceCreationStrategy::Static(s) => s,
                        BindResourceCreationStrategy::FromGraphContext(f) => {
                            graph_context.texture_descriptor(f)
                        },
                    },
                )
            },
        }
    }

    /// The kind of slot through which a resource of this kind leaves the node.
    pub open spec fn spec_to_slot_type(&self) -> SlotType {
        match self {
            BindResourceCreationDescriptor::Buffer(_) => SlotType::Buffer,
            BindResourceCreationDescriptor::Sampler(_) => SlotType::Sampler,
            BindResourceCreationDescriptor::Texture(_) => SlotType::TextureView,
        }
    }

    /// The kind of slot through which a resource of this kind leaves the node.
    pub fn to_slot_type(&self) -> (kind: SlotType)
        ensures
            kind == self.spec_to_slot_type(),
    {
        match self {
            BindResourceCreationDescriptor::Buffer(_) => SlotType::Buffer,
            BindResourceCreationDescriptor::Sampler(_) => SlotType::Sampler,
            BindResourceCreationDescriptor::Texture(_) => SlotType::TextureView,
        }
    }
}

impl OwnBindResource {
    /// The value that goes into the output slot: a texture goes by its view.
    pub open spec fn spec_to_slot_value(&self) -> SlotValue {
        match *self {
            OwnBindResource::Buffer(buffer) => SlotValue::Buffer(buffer),
            OwnBindResource::Sampler(sampler) => SlotValue::Sampler(sampler),
            OwnBindResource::Texture(_, view) => SlotValue::TextureView(view),
        }
    }

    /// The value that goes into the output slot: a texture goes by its view.
    pub fn to_slot_value(&self) -> (value: SlotValue)
        ensures
            value == self.spec_to_slot_value(),
    {
        match self {
            OwnBindResource::Buffer(buffer) => SlotValue::Buffer(*buffer),
            OwnBindResource::Sampler(sampler) => SlotValue::Sampler(*sampler),
            OwnBindResource::Texture(_, view) => SlotValue::TextureView(*view),
        }
    }

    /// What a binding of the bind group refers to: a buffer as a whole, a
    /// texture by its view.
    pub open spec fn spec_as_binding_resource(&self) -> BindingResource {
        match *self {
            OwnBindResource::Buffer(buffer) => BindingResource::Buffer(buffer),
            OwnBindResource::Sampler(sampler) => BindingResource::Sampler(sampler),
            OwnBindResource::Texture(_, view) => BindingResource::TextureView(view),
        }
    }

    /// What a binding of the bind group refers to: a buffer as a whole, a
    /// texture by its view.
    pub fn as_binding_resource(&self) -> (resource: BindingResource)
        ensures
            resource == self.spec_as_binding_resource(),
    {
        match self {
            OwnBindResource::Buffer(buffer) => BindingResource::Buffer(*buffer),
            OwnBindResource::Sampler(sampler) => BindingResource::Sampler(*sampler),
            OwnBindResource::Texture(_, view) => BindingResource::TextureView(*view),
        }
    }
}

/// What a value from an input slot is bound as, where it can be bound: an
/// entity cannot.
pub open spec fn bindable(slot_value: SlotValue) -> Option<BindingResource> {
    match slot_value {
        SlotValue::Buffer(buffer) => Some(BindingResource::Buffer(buffer)),
        SlotValue::TextureView(view) => Some(BindingResource::TextureView(view)),
        SlotValue::Sampler(sampler) => Some(BindingResource::Sampler(sampler)),
        SlotValue::Entity(_) => None,
    }
}

/// What a value from an input slot is bound as, where it can be bound.
pub fn slot_value_to_bind_resource(slot_value: &SlotValue) -> (resource: Option<BindingResource>)
    ensures
        resource == bindable(*slot_value),
{
    match slot_value {
        SlotValue::Buffer(buffer) => Some(BindingResource::Buffer(*buffer)),
        SlotValue::TextureView(texture_view) => Some(BindingResource::TextureView(*texture_view)),
        SlotValue::Sampler(sampler) => Some(BindingResource::Sampler(*sampler)),
        SlotValue::Entity(_) => None,
    }
}

/// The kind of slot that a bind resource is read from, where it is read from
/// one.
pub open spec fn declared_slot_type(info: BindResourceCreationInfo) -> SlotType {
    match info.direction {
        BindResourceDirection::Input(slot_type) => slot_type,
        BindResourceDirection::InputOutput(slot_type) => slot_type,
        BindResourceDirection::Output(descriptor) => descriptor.spec_to_slot_type(),
    }
}

/// What a bind resource is to its node.
#[derive(Debug)]
pub enum BindResourceDirection {
    /// Read from the input slot of the same name.
    Input(SlotType),
    /// Made by the node, and handed on through the output slot of the same name.
    Output(BindResourceCreationDescriptor),
    /// Read from the input slot and handed on, unchanged, through the output
    /// slot of the same name.
    InputOutput(SlotType),
}

/// A [`BindResourceDirection`] by value.
pub enum BindResourceDirectionView {
    Input(SlotType),
    Output(BindResourceCreationDescriptorView),
    InputOutput(SlotType),
}

impl View for BindResourceDirection {
    type V = BindResourceDirectionView;

    open spec fn view(&self) -> BindResourceDirectionView {
        match *self {
            BindResourceDirection::Input(slot_type) => BindResourceDirectionView::Input(slot_type),
            BindResourceDirection::Output(descriptor) => BindResourceDirectionView::Output(
                descriptor@,
            ),
            BindResourceDirection::InputOutput(slot_type) => BindResourceDirectionView::InputOutput(
                slot_type,
            ),
        }
    }
}

impl Clone for BindResourceDirection {
    fn clone(&self) -> (copy: Self)
        ensures
            copy@ == self@,
    {
        match self {
            BindResourceDirection::Input(slot_type) => BindResourceDirection::Input(*slot_type),
            BindResourceDirection::Output(descriptor) => BindResourceDirection::Output(
                descriptor.clone(),
            ),
            BindResourceDirection::InputOutput(slot_type) => BindResourceDirection::InputOutput(
                *slot_type,
            ),
        }
    }
}

/// One bind resource of a node: its name, which is also the name of its
/// slots, its binding index in the bind group, and its direction.
#[derive(Debug)]
pub struct BindResourceCreationInfo {
    pub name: String,
    pub binding: u32,
    pub direction: BindResourceDirection,
}

/// A [`BindResourceCreationInfo`] by value.
pub struct BindResourceCreationInfoView {
    pub name: Seq<char>,
    pub binding: u32,
    pub direction: BindResourceDirectionView,
}

impl View for BindResourceCreationInfo {
    type V = BindResourceCreationInfoView;

    open spec fn view(&self) -> BindResourceCreationInfoView {
        BindResourceCreationInfoView {
            name: self.name@,
            binding: self.binding,
            direction: self.direction@,
        }
    }
}

impl Clone for BindResourceCreationInfo {
    fn clone(&self) -> (copy: Self)
        ensures
            copy@ == self@,
            copy.name == self.name,
    {
        BindResourceCreationInfo {
            name: self.name.clone(),
            binding: self.binding,
            direction: self.direction.clone(),
        }
    }
}

/// A list of bind resources by value.
pub open spec fn infos_view(infos: Seq<BindResourceCreationInfo>) -> Seq<
    BindResourceCreationInfoView,
> {
    infos.map_values(|info: BindResourceCreationInfo| info@)
}

/// A copy of a list of bind resources.
pub fn clone_infos(infos: &Vec<BindResourceCreationInfo>) -> (copy: Vec<BindResourceCreationInfo>)
    ensures
        infos_view(copy@) == infos_view(infos@),
{
    let mut copy: Vec<BindResourceCreationInfo> = Vec::new();
    let mut i: usize = 0;
    while i < infos.len()
        invariant
            i <= infos.len(),
            copy.len() == i,
            forall|j: int| 0 <= j < i ==> copy@[j]@ == infos@[j]@,
        decreases infos.len() - i,
    {
        copy.push(infos[i].clone());
        i += 1;
    }
    assert(infos_view(copy@) =~= infos_view(infos@));
    copy
}

/// The input slot that a bind resource gives its node, if it gives one.
pub open spec fn input_slot_of(info: BindResourceCreationInfo) -> Option<SlotInfo> {
    match info.direction {
        BindResourceDirection::Input(slot_type) => Some(SlotInfo { name: info.name, slot_type }),
        BindResourceDirection::Output(_) => None,
        BindResourceDirection::InputOutput(slot_type) => Some(
            SlotInfo { name: info.name, slot_type },
        ),
    }
}

/// The output slot that a bind resource gives its node, if it gives one.
pub open spec fn output_slot_of(info: BindResourceCreationInfo) -> Option<SlotInfo> {
    match info.direction {
        BindResourceDirection::Input(_) => None,
        BindResourceDirection::Output(descriptor) => Some(
            SlotInfo { name: info.name, slot_type: descriptor.spec_to_slot_type() },
        ),
        BindResourceDirection::InputOutput(slot_type) => Some(
            SlotInfo { name: info.name, slot_type },
        ),
    }
}

/// The input slots of a node with these bind resources, in their order.
pub open spec fn input_slots(infos: Seq<BindResourceCreationInfo>) -> Seq<SlotInfo>
    decreases infos.len(),
{
    if infos.len() == 0 {
        Seq::empty()
    } else {
        let before = input_slots(infos.drop_last());
        match input_slot_of(infos.last()) {
            Some(slot) => before.push(slot),
            None => before,
        }
    }
}

/// The output slots of a node with these bind resources, in their order.
pub open spec fn output_slots(infos: Seq<BindResourceCreationInfo>) -> Seq<SlotInfo>
    decreases infos.len(),
{
    if infos.len() == 0 {
        Seq::empty()
    } else {
        let before = output_slots(infos.drop_last());
        match output_slot_of(infos.last()) {
            Some(slot) => before.push(slot),
            None => before,
        }
    }
}

impl BindResourceCreationInfo {
    /// The input and the output slots of a node with these bind resources: an
    /// input gives an input slot, an output an output slot of the kind of its
    /// resource, and one that is both gives one of each.
    pub fn input_output_slot_info(infos: &Vec<BindResourceCreationInfo>) -> (slots: (
        Vec<SlotInfo>,
        Vec<SlotInfo>,
    ))
        ensures
            slots.0@ == input_slots(infos@),
            slots.1@ == output_slots(infos@),
    {
        let mut input_slots_vec: Vec<SlotInfo> = Vec::new();
        let mut output_slots_vec: Vec<SlotInfo> = Vec::new();
        let mut i: usize = 0;
        while i < infos.len()
            invariant
                i <= infos.len(),
                input_slots_vec@ == input_slots(infos@.take(i as int)),
                output_slots_vec@ == output_slots(infos@.take(i as int)),
            decreases infos.len() - i,
        {
            let bind_resource_info = &infos[i];
            proof {
                assert(infos@.take(i + 1).drop_last() =~= infos@.take(i as int));
                assert(infos@.take(i + 1).last() == infos@[i as int]);
            }
            match &bind_resource_info.direction {
                BindResourceDirection::Input(slot_type) => {
                    input_slots_vec.push(SlotInfo::new(bind_resource_info.name.clone(), *slot_type));
                },
                BindResourceDirection::Output(bind_resource_descriptor) => {
                    let slot_info = SlotInfo::new(
                        bind_resource_info.name.clone(),
                        bind_resource_descriptor.to_slot_type(),
                    );
                    output_slots_vec.push(slot_info);
                },
                BindResourceDirection::InputOutput(slot_type) => {
                    let slot_info = SlotInfo::new(bind_resource_info.name.clone(), *slot_type);
                    input_slots_vec.push(slot_info.clone());
                    output_slots_vec.push(slot_info);
                },
            }
            i += 1;
        }
        assert(infos@.take(i as int) =~= infos@);
        (input_slots_vec, output_slots_vec)
    }
}

/// What the cache keeps for one output: the descriptor that was last asked
/// for, and the instance that the device made from it.
#[derive(Debug)]
pub struct CachedResource {
    pub descriptor: StaticBindResourceCreationDescriptor,
    pub resource: OwnBindResource,
}

/// The bind resources of a node together with the cache of the instances made
/// for its outputs. The cache is keyed by the position of the output among the
/// bind resources.
#[derive(Debug)]
pub struct NodeResources {
    bind_resource_info: Vec<BindResourceCreationInfo>,
    bind_resource_cache: KeyedStore<CachedResource>,
}

/// The cache of a node as a map: for the position of an output, the
/// descriptor that was last asked for, by value, and the instance that was
/// made from it.
pub type CacheView = Map<int, (StaticBindResourceCreationDescriptorView, OwnBindResource)>;

/// Whether position `index` of `infos` holds an output.
pub open spec fn is_output(infos: Seq<BindResourceCreationInfo>, index: int) -> bool {
    0 <= index < infos.len() && infos[index].direction is Output
}

/// One request served by the cache. Where the cache holds, at `index`, an
/// instance made from a descriptor equal in value to `resolved`, that instance
/// is the answer and the cache stays as it was. Otherwise the answer is what
/// the device makes from `resolved`, and it takes the place at `index`
/// together with `resolved`.
pub open spec fn served<D: RenderDevice>(
    before: CacheView,
    index: int,
    resolved: StaticBindResourceCreationDescriptor,
    render_device: &D,
    resource: OwnBindResource,
    after: CacheView,
) -> bool {
    if before.contains_key(index) && before[index].0 == resolved@ {
        resource == before[index].1 && after == before
    } else {
        resolved.makes(render_device, resource) && after == before.insert(
            index,
            (resolved@, resource),
        )
    }
}

/// One request for an output whose descriptor is first resolved against the
/// running graph and then served as [`served`] says.
pub open spec fn resolved_and_served<C: RenderGraphContext, D: RenderDevice>(
    before: CacheView,
    index: int,
    descriptor: BindResourceCreationDescriptor,
    graph: &C,
    render_device: &D,
    resource: OwnBindResource,
    after: CacheView,
) -> bool {
    exists|resolved: StaticBindResourceCreationDescriptor| #[trigger]
        descriptor.resolves_to(graph, resolved) && served(
            before,
            index,
            resolved,
            render_device,
            resource,
            after,
        )
}

/// Two requests in succession at one place of the cache. With a descriptor
/// of the same value the second request is answered by the instance that
/// answered the first, and the cache does not change. With any other
/// descriptor the second answer is made by the device, and from then on the
/// cache holds it, with the new descriptor, in place of the first.
pub proof fn lemma_cache_round_trip<D: RenderDevice>(
    start: CacheView,
    index: int,
    render_device: &D,
    first: StaticBindResourceCreationDescriptor,
    first_resource: OwnBindResource,
    between: CacheView,
    second: StaticBindResourceCreationDescriptor,
    second_resource: OwnBindResource,
    end: CacheView,
)
    requires
        served(start, index, first, render_device, first_resource, between),
        served(between, index, second, render_device, second_resource, end),
    ensures
        between.contains_key(index) && between[index] == (first@, first_resource),
        second@ == first@ ==> second_resource == first_resource && end == between,
        second@ != first@ ==> second.makes(render_device, second_resource),
        end.contains_key(index) && end[index] == (second@, second_resource),
        forall|other: int| other != index ==> (end.contains_key(other) == start.contains_key(other)),
        forall|other: int| other != index && start.contains_key(other) ==> end[other] == start[other],
{
}

impl NodeResources {
    /// The cache agrees with itself.
    pub closed spec fn wf(&self) -> bool {
        self.bind_resource_cache.wf()
    }

    /// The bind resources of the node.
    pub closed spec fn infos(&self) -> Seq<BindResourceCreationInfo> {
        self.bind_resource_info@
    }

    /// The cache: for the position of an output, the descriptor last asked
    /// for, by value, and the instance made from it.
    pub closed spec fn cache(&self) -> CacheView {
        Map::new(
            |i: int| 0 <= i <= u64::MAX && self.bind_resource_cache@.contains_key(i as u64),
            |i: int|
                (
                    self.bind_resource_cache@[i as u64].descriptor@,
                    self.bind_resource_cache@[i as u64].resource,
                ),
        )
    }

    /// The resources of a node with these bind resources, and an empty cache.
    pub fn from_bind_resource_info(bind_resource_info: Vec<BindResourceCreationInfo>) -> (resources:
        Self)
        ensures
            resources.wf(),
            resources.infos() == bind_resource_info@,
            resources.cache() == CacheView::empty(),
    {
        let resources = NodeResources {
            bind_resource_info,
            bind_resource_cache: KeyedStore::new(),
        };
        assert(resources.cache() =~= CacheView::empty());
        resources
    }

    /// The bind resources of the node.
    pub fn bind_resource_info(&self) -> (infos: &Vec<BindResourceCreationInfo>)
        ensures
            infos@ == self.infos(),
    {
        &self.bind_resource_info
    }

    /// Serves one request from the cache, for the output at `index` and a
    /// descriptor that is already resolved: reuses the cached instance where
    /// the descriptor is equal in value to the cached one, and has the device
    /// make a new instance otherwise.
    pub fn reuse_or_create<D: RenderDevice>(
        &mut self,
        index: usize,
        resolved: StaticBindResourceCreationDescriptor,
        render_device: &D,
    ) -> (resource: OwnBindResource)
        requires
            old(self).wf(),
        ensures
            final(self).wf(),
            final(self).infos() == old(self).infos(),
            served(
                old(self).cache(),
                index as int,
                resolved,
                render_device,
                resource,
                final(self).cache(),
            ),
    {
        let key = index as u64;
        if let Some(cached) = self.bind_resource_cache.get(key) {
            if cached.descriptor.same(&resolved) {
                return cached.resource;
            }
        }
        let resource = resolved.create_resource(render_device);
        self.bind_resource_cache.insert(key, CachedResource { descriptor: resolved, resource });
        assert(self.cache() =~= old(self).cache().insert(index as int, (resolved@, resource)));
        resource
    }

    /// The instance for the output at `index`: the cached one as long as the
    /// descriptor, resolved against the running graph, keeps its value, a new
    /// one from the device as soon as it differs. A position that holds no
    /// output is refused.
    pub fn get_output_resource<C: RenderGraphContext, D: RenderDevice>(
        &mut self,
        index: usize,
        graph: &C,
        render_device: &D,
    ) -> (result: Result<OwnBindResource, NodeRunError>)
        requires
            old(self).wf(),
        ensures
            final(self).wf(),
            final(self).infos() == old(self).infos(),
            !is_output(old(self).infos(), index as int) ==> final(self).cache() == old(self).cache(),
            !is_output(old(self).infos(), index as int) ==> (result matches Err(
                NodeRunError::OutputSlotError(OutputSlotError::InvalidSlot(SlotLabel::Index(i))),
            ) && i == index),
            is_output(old(self).infos(), index as int) ==> (result matches Ok(resource)
                && resolved_and_served(
                old(self).cache(),
                index as int,
                old(self).infos()[index as int].direction->Output_0,
                graph,
                render_device,
                resource,
                final(self).cache(),
            )),
    {
        if index >= self.bind_resource_info.len() {
            return Err(
                NodeRunError::OutputSlotError(OutputSlotError::InvalidSlot(SlotLabel::Index(index))),
            );
        }
        let static_descriptor = match &self.bind_resource_info[index].direction {
            BindResourceDirection::Output(descriptor) => descriptor.clone().into_static(graph),
            _ => {
                return Err(
                    NodeRunError::OutputSlotError(
                        OutputSlotError::InvalidSlot(SlotLabel::Index(index)),
                    ),
                );
            },
        };
        let resource = self.reuse_or_create(index, static_descriptor, render_device);
        Ok(resource)
    }
}

/// Whether position `index` of `infos` holds a bind resource that is read
/// from an input slot.
pub open spec fn is_input(infos: Seq<BindResourceCreationInfo>, index: int) -> bool {
    0 <= index < infos.len() && !(infos[index].direction is Output)
}

/// Whether the cache entry at `index` is, in `after`, what one request for
/// `descriptor` leaves there: the descriptor as resolved in this run,
/// together with the instance that `before` held for a descriptor of the same
/// value, or else with an instance that the device made.
pub open spec fn entry_refreshed<C: RenderGraphContext, D: RenderDevice>(
    before: CacheView,
    after: CacheView,
    index: int,
    descriptor: BindResourceCreationDescriptor,
    graph: &C,
    render_device: &D,
) -> bool {
    after.contains_key(index) && exists|resolved: StaticBindResourceCreationDescriptor| #[trigger]
        descriptor.resolves_to(graph, resolved) && after[index].0 == resolved@ && if before.contains_key(
            index,
        ) && before[index].0 == resolved@ {
            after[index].1 == before[index].1
        } else {
            resolved.makes(render_device, after[index].1)
        }
}

/// What holds of the cache entry at `index` once the outputs before position
/// `upto` were asked for, each once: the entry of such an output is
/// refreshed, and every other entry is as it was.
pub open spec fn refreshed_at<C: RenderGraphContext, D: RenderDevice>(
    infos: Seq<BindResourceCreationInfo>,
    before: CacheView,
    after: CacheView,
    graph: &C,
    render_device: &D,
    upto: int,
    index: int,
) -> bool {
    if index < upto && is_output(infos, index) {
        entry_refreshed(
            before,
            after,
            index,
            infos[index].direction->Output_0,
            graph,
            render_device,
        )
    } else {
        after.contains_key(index) == before.contains_key(index) && (before.contains_key(index)
            ==> after[index] == before[index])
    }
}

/// The cache after the outputs before position `upto` were asked for, each
/// once.
pub open spec fn outputs_refreshed<C: RenderGraphContext, D: RenderDevice>(
    infos: Seq<BindResourceCreationInfo>,
    before: CacheView,
    after: CacheView,
    graph: &C,
    render_device: &D,
    upto: int,
) -> bool {
    forall|index: int| #[trigger]
        refreshed_at(infos, before, after, graph, render_device, upto, index)
}

/// The bindings of the bind resources that are read from input slots, in
/// their order; `read[i]` is the value in the slot of the bind resource at
/// position `i`.
pub open spec fn input_entries(
    infos: Seq<BindResourceCreationInfo>,
    read: Seq<SlotValue>,
) -> Seq<BindGroupEntry>
    decreases infos.len(),
{
    if infos.len() == 0 {
        Seq::empty()
    } else {
        let before = input_entries(infos.drop_last(), read);
        if infos.last().direction is Output {
            before
        } else {
            before.push(
                BindGroupEntry {
                    binding: infos.last().binding,
                    resource: bindable(read[infos.len() - 1])->0,
                },
            )
        }
    }
}

/// The bindings of the outputs, in their order, each to the instance that the
/// cache holds for it.
pub open spec fn output_entries(
    infos: Seq<BindResourceCreationInfo>,
    cache: CacheView,
) -> Seq<BindGroupEntry>
    decreases infos.len(),
{
    if infos.len() == 0 {
        Seq::empty()
    } else {
        let before = output_entries(infos.drop_last(), cache);
        if infos.last().direction is Output {
            before.push(
                BindGroupEntry {
                    binding: infos.last().binding,
                    resource: cache[infos.len() - 1].1.spec_as_binding_resource(),
                },
            )
        } else {
            before
        }
    }
}

/// The values for the output slots, in the order of the bind resources: for
/// an output the instance that the cache holds for it, and for a bind
/// resource that is input and output the value `read[i]` of its input slot.
pub open spec fn slot_outputs(
    infos: Seq<BindResourceCreationInfo>,
    read: Seq<SlotValue>,
    cache: CacheView,
) -> Seq<SlotOutput>
    decreases infos.len(),
{
    if infos.len() == 0 {
        Seq::empty()
    } else {
        let before = slot_outputs(infos.drop_last(), read, cache);
        match infos.last().direction {
            BindResourceDirection::Input(_) => before,
            BindResourceDirection::Output(_) => before.push(
                SlotOutput {
                    name: infos.last().name,
                    value: cache[infos.len() - 1].1.spec_to_slot_value(),
                },
            ),
            BindResourceDirection::InputOutput(_) => before.push(
                SlotOutput { name: infos.last().name, value: read[infos.len() - 1] },
            ),
        }
    }
}

/// The bindings of the inputs do not depend on what is read later.
pub proof fn lemma_input_entries_prefix(
    infos: Seq<BindResourceCreationInfo>,
    read: Seq<SlotValue>,
    longer: Seq<SlotValue>,
)
    requires
        infos.len() <= read.len() <= longer.len(),
        forall|i: int| 0 <= i < read.len() ==> read[i] == longer[i],
    ensures
        input_entries(infos, read) == input_entries(infos, longer),
    decreases infos.len(),
{
    if infos.len() > 0 {
        lemma_input_entries_prefix(infos.drop_last(), read, longer);
    }
}

/// The bindings of the outputs depend on the cache only at their positions.
pub proof fn lemma_output_entries_frame(
    infos: Seq<BindResourceCreationInfo>,
    cache: CacheView,
    other: CacheView,
)
    requires
        forall|i: int| 0 <= i < infos.len() && is_output(infos, i) ==> cache[i] == other[i],
    ensures
        output_entries(infos, cache) == output_entries(infos, other),
    decreases infos.len(),
{
    if infos.len() > 0 {
        let shorter = infos.drop_last();
        assert forall|i: int| 0 <= i < shorter.len() && is_output(shorter, i) implies cache[i]
            == other[i] by {
            assert(is_output(infos, i));
        }
        lemma_output_entries_frame(shorter, cache, other);
        if infos.last().direction is Output {
            assert(is_output(infos, infos.len() - 1));
        }
    }
}

/// The values for the output slots depend on what was read and on the cache
/// only at the positions before the end of the list.
pub proof fn lemma_slot_outputs_frame(
    infos: Seq<BindResourceCreationInfo>,
    read: Seq<SlotValue>,
    longer: Seq<SlotValue>,
    cache: CacheView,
    other: CacheView,
)
    requires
        infos.len() <= read.len() <= longer.len(),
        forall|i: int| 0 <= i < read.len() ==> read[i] == longer[i],
        forall|i: int| 0 <= i < infos.len() && is_output(infos, i) ==> cache[i] == other[i],
    ensures
        slot_outputs(infos, read, cache) == slot_outputs(infos, longer, other),
    decreases infos.len(),
{
    if infos.len() > 0 {
        let shorter = infos.drop_last();
        assert forall|i: int| 0 <= i < shorter.len() && is_output(shorter, i) implies cache[i]
            == other[i] by {
            assert(is_output(infos, i));
        }
        lemma_slot_outputs_frame(shorter, read, longer, cache, other);
        if infos.last().direction is Output {
            assert(is_output(infos, infos.len() - 1));
        }
    }
}

/// One more output asked for: the cache that served the request at position
/// `upto` is refreshed up to and including that position.
pub proof fn lemma_refresh_step<C: RenderGraphContext, D: RenderDevice>(
    infos: Seq<BindResourceCreationInfo>,
    start: CacheView,
    before: CacheView,
    after: CacheView,
    graph: &C,
    render_device: &D,
    upto: int,
    resource: OwnBindResource,
)
    requires
        is_output(infos, upto),
        outputs_refreshed(infos, start, before, graph, render_device, upto),
        resolved_and_served(
            before,
            upto,
            infos[upto].direction->Output_0,
            graph,
            render_device,
            resource,
            after,
        ),
    ensures
        outputs_refreshed(infos, start, after, graph, render_device, upto + 1),
        after.contains_key(upto),
        after[upto].1 == resource,
        forall|i: int| i != upto ==> after.contains_key(i) == before.contains_key(i),
        forall|i: int| i != upto ==> after[i] == before[i],
{
    let descriptor = infos[upto].direction->Output_0;
    let resolved = choose|resolved: StaticBindResourceCreationDescriptor| #[trigger]
        descriptor.resolves_to(graph, resolved) && served(
            before,
            upto,
            resolved,
            render_device,
            resource,
            after,
        );
    assert(refreshed_at(infos, start, before, graph, render_device, upto, upto));
    assert forall|index: int| #[trigger]
        refreshed_at(infos, start, after, graph, render_device, upto + 1, index) by {
        assert(refreshed_at(infos, start, before, graph, render_device, upto, index));
        if index == upto {
            assert(descriptor.resolves_to(graph, resolved));
            assert(entry_refreshed(start, after, upto, descriptor, graph, render_device));
        } else if index < upto && is_output(infos, index) {
            let earlier = infos[index].direction->Output_0;
            let witness = choose|witness: StaticBindResourceCreationDescriptor| #[trigger]
                earlier.resolves_to(graph, witness) && before[index].0 == witness@
                    && if start.contains_key(index) && start[index].0 == witness@ {
                    before[index].1 == start[index].1
                } else {
                    witness.makes(render_device, before[index].1)
                };
            assert(earlier.resolves_to(graph, witness));
            assert(after[index] == before[index]);
        }
    }
}

/// A position that holds no output leaves the cache refreshed as far as it
/// was.
pub proof fn lemma_refresh_skip<C: RenderGraphContext, D: RenderDevice>(
    infos: Seq<BindResourceCreationInfo>,
    start: CacheView,
    cache: CacheView,
    graph: &C,
    render_device: &D,
    upto: int,
)
    requires
        !is_output(infos, upto),
        outputs_refreshed(infos, start, cache, graph, render_device, upto),
    ensures
        outputs_refreshed(infos, start, cache, graph, render_device, upto + 1),
{
    assert forall|index: int| #[trigger]
        refreshed_at(infos, start, cache, graph, render_device, upto + 1, index) by {
        assert(refreshed_at(infos, start, cache, graph, render_device, upto, index));
    }
}

impl NodeResources {
    /// Whether `read` holds, for every bind resource at a position before
    /// `upto` that is read from an input slot, a value that the host may hand
    /// out for that slot, and that can be bound.
    pub open spec fn inputs_read<C: RenderGraphContext>(
        &self,
        graph: &C,
        read: Seq<SlotValue>,
        upto: int,
    ) -> bool {
        forall|i: int|
            0 <= i < upto && is_input(self.infos(), i) ==> call_ensures(
                C::get_input,
                (graph, &self.infos()[i].name),
                Ok(#[trigger] read[i]),
            ) && !(read[i] is Entity)
    }

    /// Whether `error` is how binding fails at the input slot of the bind
    /// resource at position `index`, given what the host may answer for the
    /// slot. A slot that the host refuses is named as an invalid slot. A slot
    /// that holds an entity is named as a slot of the wrong kind, since an
    /// entity cannot be bound.
    pub open spec fn input_fails<C: RenderGraphContext>(
        &self,
        graph: &C,
        index: int,
        answer: Result<SlotValue, InputSlotError>,
        error: NodeRunError,
    ) -> bool {
        &&& is_input(self.infos(), index)
        &&& call_ensures(C::get_input, (graph, &self.infos()[index].name), answer)
        &&& match answer {
            Err(_) => {
                &&& error matches NodeRunError::InputSlotError(
                    InputSlotError::InvalidSlot(SlotLabel::Name(name)),
                )
                &&& name == self.infos()[index].name
            },
            Ok(SlotValue::Entity(_)) => {
                &&& error matches NodeRunError::InputSlotError(
                    InputSlotError::MismatchedSlotType {
                        label: SlotLabel::Name(name),
                        expected,
                        actual,
                    },
                )
                &&& name == self.infos()[index].name
                &&& expected == declared_slot_type(self.infos()[index])
                &&& actual == SlotType::Entity
            },
            Ok(_) => false,
        }
    }

    /// Whether `result` is what binding the resources comes to, with the
    /// cache going from `before` to the cache of `self`. Where the host
    /// hands out a value that can be bound for every input, the bindings are
    /// those of the inputs, in their order, followed by those of the outputs,
    /// in theirs, and every output was asked of the cache once. Else binding
    /// fails at the first input without such a value: every input before it
    /// was read and can be bound, and the outputs before it were asked for.
    pub open spec fn binds<C: RenderGraphContext, D: RenderDevice>(
        &self,
        before: CacheView,
        graph: &C,
        render_device: &D,
        result: Result<Vec<BindGroupEntry>, NodeRunError>,
    ) -> bool {
        match result {
            Ok(entries) => exists|read: Seq<SlotValue>|
                {
                    &&& read.len() == self.infos().len()
                    &&& self.inputs_read(graph, read, self.infos().len() as int)
                    &&& entries@ == #[trigger] input_entries(self.infos(), read) + output_entries(
                        self.infos(),
                        self.cache(),
                    )
                    &&& outputs_refreshed(
                        self.infos(),
                        before,
                        self.cache(),
                        graph,
                        render_device,
                        self.infos().len() as int,
                    )
                },
            Err(error) => exists|index: int, answer: Result<SlotValue, InputSlotError>|
                {
                    &&& #[trigger] self.input_fails(graph, index, answer, error)
                    &&& exists|read: Seq<SlotValue>|
                        read.len() == index && #[trigger] self.inputs_read(graph, read, index)
                    &&& outputs_refreshed(
                        self.infos(),
                        before,
                        self.cache(),
                        graph,
                        render_device,
                        index,
                    )
                },
        }
    }

    /// The bindings of the node's bind group for this run: every input bound
    /// to the value in its slot, every output to its instance from the cache.
    pub fn set_bind_group<C: RenderGraphContext, D: RenderDevice>(
        &mut self,
        render_device: &D,
        graph: &C,
    ) -> (result: Result<Vec<BindGroupEntry>, NodeRunError>)
        requires
            old(self).wf(),
        ensures
            final(self).wf(),
            final(self).infos() == old(self).infos(),
            final(self).binds(old(self).cache(), graph, render_device, result),
    {
        let mut entries: Vec<BindGroupEntry> = Vec::new();
        let mut output_resources: Vec<BindGroupEntry> = Vec::new();
        let ghost mut read: Seq<SlotValue> = Seq::empty();
        let ghost infos = self.infos();
        let ghost start = self.cache();
        let n = self.bind_resource_info.len();
        let mut index: usize = 0;
        proof {
            assert forall|i: int| #[trigger]
                refreshed_at(infos, start, self.cache(), graph, render_device, 0, i) by {}
        }
        while index < n
            invariant
                self.wf(),
                self.infos() == infos,
                infos == old(self).infos(),
                start == old(self).cache(),
                n == infos.len(),
                index <= n,
                read.len() == index,
                self.inputs_read(graph, read, index as int),
                entries@ == input_entries(infos.take(index as int), read),
                output_resources@ == output_entries(infos.take(index as int), self.cache()),
                outputs_refreshed(infos, start, self.cache(), graph, render_device, index as int),
            decreases n - index,
        {
            let ghost before = self.cache();
            let ghost read_before = read;
            proof {
                assert(infos.take(index + 1).drop_last() =~= infos.take(index as int));
                assert(infos.take(index + 1).last() == infos[index as int]);
            }
            let is_output_here = match &self.bind_resource_info[index].direction {
                BindResourceDirection::Output(_) => true,
                _ => false,
            };
            if is_output_here {
                let binding = self.bind_resource_info[index].binding;
                match self.get_output_resource(index, graph, render_device) {
                    Ok(resource) => {
                        proof {
                            read = read.push(SlotValue::Entity(0));
                            lemma_refresh_step(
                                infos,
                                start,
                                before,
                                self.cache(),
                                graph,
                                render_device,
                                index as int,
                                resource,
                            );
                            lemma_input_entries_prefix(
                                infos.take(index as int),
                                read_before,
                                read,
                            );
                            assert forall|i: int|
                                0 <= i < infos.take(index as int).len() && is_output(
                                    infos.take(index as int),
                                    i,
                                ) implies before[i] == self.cache()[i] by {}
                            lemma_output_entries_frame(
                                infos.take(index as int),
                                before,
                                self.cache(),
                            );
                        }
                        output_resources.push(
                            BindGroupEntry { binding, resource: resource.as_binding_resource() },
                        );
                    },
                    Err(error) => {
                        proof {
                            assert(is_output(infos, index as int));
                        }
                        return Err(error);
                    },
                }
            } else {
                let info = &self.bind_resource_info[index];
                let answer = graph.get_input(&info.name);
                let bound = match &answer {
                    Ok(value) => slot_value_to_bind_resource(value),
                    Err(_) => None,
                };
                match bound {
                    Some(resource) => {
                        proof {
                            assert(is_input(infos, index as int));
                            read = read.push(answer->Ok_0);
                            lemma_refresh_skip(
                                infos,
                                start,
                                self.cache(),
                                graph,
                                render_device,
                                index as int,
                            );
                            lemma_input_entries_prefix(
                                infos.take(index as int),
                                read_before,
                                read,
                            );
                        }
                        entries.push(BindGroupEntry { binding: info.binding, resource });
                    },
                    None => {
                        let error = match answer {
                            Ok(_) => NodeRunError::InputSlotError(
                                InputSlotError::MismatchedSlotType {
                                    label: SlotLabel::Name(info.name.clone()),
                                    expected: match &info.direction {
                                        BindResourceDirection::Input(slot_type) => *slot_type,
                                        BindResourceDirection::InputOutput(slot_type) => *slot_type,
                                        BindResourceDirection::Output(descriptor) => {
                                            descriptor.to_slot_type()
                                        },
                                    },
                                    actual: SlotType::Entity,
                                },
                            ),
                            Err(_) => NodeRunError::InputSlotError(
                                InputSlotError::InvalidSlot(SlotLabel::Name(info.name.clone())),
                            ),
                        };
                        proof {
                            assert(self.input_fails(graph, index as int, answer, error));
                            assert(self.inputs_read(graph, read, index as int));
                        }
                        return Err(error);
                    },
                }
            }
            index += 1;
        }
        proof {
            assert(infos.take(index as int) =~= infos);
        }
        entries.append(&mut output_resources);
        Ok(entries)
    }
}

impl NodeResources {
    /// Whether `read` holds, for every bind resource at a position before
    /// `upto` that is input and output at once, a value that the host may
    /// hand out for its input slot.
    pub open spec fn pass_through_read<C: RenderGraphContext>(
        &self,
        graph: &C,
        read: Seq<SlotValue>,
        upto: int,
    ) -> bool {
        forall|i: int|
            0 <= i < upto && self.infos()[i].direction is InputOutput ==> call_ensures(
                C::get_input,
                (graph, &self.infos()[i].name),
                Ok(#[trigger] read[i]),
            )
    }

    /// Whether the host may refuse, with `refused`, the input slot of the
    /// bind resource at position `index`, which is input and output at once.
    pub open spec fn pass_through_refused<C: RenderGraphContext>(
        &self,
        graph: &C,
        index: int,
        refused: InputSlotError,
    ) -> bool {
        0 <= index < self.infos().len() && self.infos()[index].direction is InputOutput
            && call_ensures(C::get_input, (graph, &self.infos()[index].name), Err(refused))
    }

    /// Whether `result` is what filling the output slots comes to, with the
    /// cache going from `before` to the cache of `self`. An output hands on
    /// its instance from the cache, asked for once; a bind resource that is
    /// input and output hands on, unchanged, the value of its input slot.
    /// The first such input slot that the host refuses ends the run with the
    /// host's error: those before it were read, and the outputs before it
    /// were asked for.
    pub open spec fn hands_on<C: RenderGraphContext, D: RenderDevice>(
        &self,
        before: CacheView,
        graph: &C,
        render_device: &D,
        result: Result<Vec<SlotOutput>, NodeRunError>,
    ) -> bool {
        match result {
            Ok(outputs) => exists|read: Seq<SlotValue>|
                {
                    &&& read.len() == self.infos().len()
                    &&& self.pass_through_read(graph, read, self.infos().len() as int)
                    &&& outputs@ == #[trigger] slot_outputs(self.infos(), read, self.cache())
                    &&& outputs_refreshed(
                        self.infos(),
                        before,
                        self.cache(),
                        graph,
                        render_device,
                        self.infos().len() as int,
                    )
                },
            Err(error) => exists|index: int, refused: InputSlotError|
                {
                    &&& #[trigger] self.pass_through_refused(graph, index, refused)
                    &&& error == NodeRunError::InputSlotError(refused)
                    &&& exists|read: Seq<SlotValue>|
                        read.len() == index && #[trigger] self.pass_through_read(
                            graph,
                            read,
                            index,
                        )
                    &&& outputs_refreshed(
                        self.infos(),
                        before,
                        self.cache(),
                        graph,
                        render_device,
                        index,
                    )
                },
        }
    }

    /// The values for the output slots of the node in this run, for the host
    /// to put into the slots.
    pub fn set_output_slots<C: RenderGraphContext, D: RenderDevice>(
        &mut self,
        graph: &C,
        render_device: &D,
    ) -> (result: Result<Vec<SlotOutput>, NodeRunError>)
        requires
            old(self).wf(),
        ensures
            final(self).wf(),
            final(self).infos() == old(self).infos(),
            final(self).hands_on(old(self).cache(), graph, render_device, result),
    {
        let mut outputs: Vec<SlotOutput> = Vec::new();
        let ghost mut read: Seq<SlotValue> = Seq::empty();
        let ghost infos = self.infos();
        let ghost start = self.cache();
        let n = self.bind_resource_info.len();
        let mut index: usize = 0;
        proof {
            assert forall|i: int| #[trigger]
                refreshed_at(infos, start, self.cache(), graph, render_device, 0, i) by {}
        }
        while index < n
            invariant
                self.wf(),
                self.infos() == infos,
                infos == old(self).infos(),
                start == old(self).cache(),
                n == infos.len(),
                index <= n,
                read.len() == index,
                self.pass_through_read(graph, read, index as int),
                outputs@ == slot_outputs(infos.take(index as int), read, self.cache()),
                outputs_refreshed(infos, start, self.cache(), graph, render_device, index as int),
            decreases n - index,
        {
            let ghost before = self.cache();
            let ghost read_before = read;
            proof {
                assert(infos.take(index + 1).drop_last() =~= infos.take(index as int));
                assert(infos.take(index + 1).last() == infos[index as int]);
            }
            let kind: u8 = match &self.bind_resource_info[index].direction {
                BindResourceDirection::Input(_) => 0,
                BindResourceDirection::Output(_) => 1,
                BindResourceDirection::InputOutput(_) => 2,
            };
            if kind == 1 {
                let name = self.bind_resource_info[index].name.clone();
                match self.get_output_resource(index, graph, render_device) {
                    Ok(resource) => {
                        proof {
                            read = read.push(SlotValue::Entity(0));
                            lemma_refresh_step(
                                infos,
                                start,
                                before,
                                self.cache(),
                                graph,
                                render_device,
                                index as int,
                                resource,
                            );
                            assert forall|i: int|
                                0 <= i < infos.take(index as int).len() && is_output(
                                    infos.take(index as int),
                                    i,
                                ) implies before[i] == self.cache()[i] by {}
                            lemma_slot_outputs_frame(
                                infos.take(index as int),
                                read_before,
                                read,
                                before,
                                self.cache(),
                            );
                        }
                        outputs.push(SlotOutput { name, value: resource.to_slot_value() });
                    },
                    Err(error) => {
                        proof {
                            assert(is_output(infos, index as int));
                        }
                        return Err(error);
                    },
                }
            } else if kind == 2 {
                let info = &self.bind_resource_info[index];
                match graph.get_input(&info.name) {
                    Ok(value) => {
                        proof {
                            read = read.push(value);
                            lemma_refresh_skip(
                                infos,
                                start,
                                self.cache(),
                                graph,
                                render_device,
                                index as int,
                            );
                            lemma_slot_outputs_frame(
                                infos.take(index as int),
                                read_before,
                                read,
                                self.cache(),
                                self.cache(),
                            );
                        }
                        outputs.push(SlotOutput { name: info.name.clone(), value });
                    },
                    Err(refused) => {
                        proof {
                            assert(self.pass_through_refused(graph, index as int, refused));
                            assert(self.pass_through_read(graph, read, index as int));
                        }
                        return Err(NodeRunError::InputSlotError(refused));
                    },
                }
            } else {
                proof {
                    read = read.push(SlotValue::Entity(0));
                    lemma_refresh_skip(
                        infos,
                        start,
                        self.cache(),
                        graph,
                        render_device,
                        index as int,
                    );
                    lemma_slot_outputs_frame(
                        infos.take(index as int),
                        read_before,
                        read,
                        self.cache(),
                        self.cache(),
                    );
                }
            }
            index += 1;
        }
        proof {
            assert(infos.take(index as int) =~= infos);
        }
        Ok(outputs)
    }
}

} // verus!
