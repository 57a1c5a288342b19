//! The vocabulary of the host's render graph: slots, labels, the values that
//! flow through slots, the errors of a node's run, and the running graph as a
//! node sees it.
use crate::render_resource::{
    Buffer, BufferDescriptor, GraphContextFn, Sampler, SamplerDescriptor, TextureDescriptor,
    TextureView,
};
use vstd::prelude::*;

verus! {

/// The kind of value that a slot carries.
#[derive(Clone, Copy, Debug, PartialEq, Eq, Structural)]
pub enum SlotType {
    Buffer,
    TextureView,
    Sampler,
    Entity,
}

/// A value in a slot.
#[derive(Clone, Copy, Debug, PartialEq, Eq, Structural)]
pub enum SlotValue {
    Buffer(Buffer),
    TextureView(TextureView),
    Sampler(Sampler),
    /// An entity by its bits.
    Entity(u64),
}

impl SlotValue {
    /// The kind of this value.
    pub open spec fn spec_slot_type(self) -> SlotType {
        match self {
            SlotValue::Buffer(_) => SlotType::Buffer,
            SlotValue::TextureView(_) => SlotType::TextureView,
            SlotValue::Sampler(_) => SlotType::Sampler,
            SlotValue::Entity(_) => SlotType::Entity,
        }
    }

    /// The kind of this value.
    pub fn slot_type(&self) -> (kind: SlotType)
        ensures
            kind == self.spec_slot_type(),
    {
        match self {
            SlotValue::Buffer(_) => SlotType::Buffer,
            SlotValue::TextureView(_) => SlotType::TextureView,
            SlotValue::Sampler(_) => SlotType::Sampler,
            SlotValue::Entity(_) => SlotType::Entity,
        }
    }
}

/// A named slot of a node or of a graph.
#[derive(Debug)]
pub struct SlotInfo {
    pub name: String,
    pub slot_type: SlotType,
}

impl Clone for SlotInfo {
    fn clone(&self) -> (copy: Self)
        ensures
            copy == *self,
    {
        SlotInfo { name: self.name.clone(), slot_type: self.slot_type }
    }
}

impl SlotInfo {
    /// A slot called `name` that carries `slot_type`.
    pub fn new(name: String, slot_type: SlotType) -> (info: Self)
        ensures
            info == (SlotInfo { name, slot_type }),
    {
        SlotInfo { name, slot_type }
    }
}

/// A slot named by its position or by its name.
#[derive(Debug)]
pub enum SlotLabel {
    Index(usize),
    Name(String),
}

impl Clone for SlotLabel {
    fn clone(&self) -> (copy: Self)
        ensures
            copy == *self,
    {
        match self {
            SlotLabel::Index(index) => SlotLabel::Index(*index),
            SlotLabel::Name(name) => SlotLabel::Name(name.clone()),
        }
    }
}

/// A node of the host's graph, named by the number the graph gave it or by
/// its name.
#[derive(Debug)]
pub enum NodeLabel {
    Id(u128),
    Name(String),
}

impl Clone for NodeLabel {
    fn clone(&self) -> (copy: Self)
        ensures
            copy == *self,
    {
        match self {
            NodeLabel::Id(id) => NodeLabel::Id(*id),
            NodeLabel::Name(name) => NodeLabel::Name(name.clone()),
        }
    }
}

/// Why an input slot could not be read.
#[derive(Debug)]
pub enum InputSlotError {
    /// The node has no such input slot.
    InvalidSlot(SlotLabel),
    /// The slot carries another kind of value than was asked for.
    MismatchedSlotType { label: SlotLabel, expected: SlotType, actual: SlotType },
}

/// Why an output slot could not be served.
#[derive(Debug)]
pub enum OutputSlotError {
    /// The node has no such output slot.
    InvalidSlot(SlotLabel),
    /// The slot carries another kind of value than was given.
    MismatchedSlotType { label: SlotLabel, expected: SlotType, actual: SlotType },
}

/// Why a sub-graph could not be run.
#[derive(Debug)]
pub enum RunSubGraphError {
    /// No sub-graph of that name.
    MissingSubGraph(String),
    /// Inputs were passed to a sub-graph that declares none.
    SubGraphHasNoInputs(String),
    /// No value was given for an input slot of the sub-graph.
    MissingInput { slot_index: usize, slot_name: String, graph_name: String },
    /// The value for an input slot is of another kind than the slot.
    MismatchedInputSlotType {
        graph_name: String,
        slot_index: usize,
        label: SlotLabel,
        expected: SlotType,
        actual: SlotType,
    },
}

/// Why the run of a node failed.
#[derive(Debug)]
pub enum NodeRunError {
    InputSlotError(InputSlotError),
    OutputSlotError(OutputSlotError),
    RunSubGraphError(RunSubGraphError),
    /// A placeholder was run: the node of this name was never replaced by
    /// the node that it holds the place of.
    PlaceholderRun { node_name: String },
}

/// The running graph as the host shows it to a node: the node's input slots,
/// and the functions that compute descriptors and workgroup counts from the
/// state of the run.
pub trait RenderGraphContext {
    /// The value in the input slot called `name`.
    fn get_input(&self, name: &String) -> Result<SlotValue, InputSlotError>;

    /// The buffer descriptor that the function `f` computes in this run.
    fn buffer_descriptor(&self, f: GraphContextFn) -> BufferDescriptor;

    /// The sampler descriptor that the function `f` computes in this run.
    fn sampler_descriptor(&self, f: GraphContextFn) -> SamplerDescriptor;

    /// The texture descriptor that the function `f` computes in this run.
    fn texture_descriptor(&self, f: GraphContextFn) -> TextureDescriptor;

    /// The workgroup counts that the function `f` computes in this run.
    fn workgroups(&self, f: GraphContextFn) -> (u32, u32, u32);
}

/// A value for an output slot of a node, by the slot's name.
#[derive(Debug)]
pub struct SlotOutput {
    pub name: String,
    pub value: SlotValue,
}

/// A fault in the structure of the host's graph (a name that is taken, an
/// edge to a node or slot that is not there), in the host's words.
#[derive(Debug)]
pub struct RenderGraphError {
    pub message: String,
}

} // verus!
