//! Nodes that the library puts into a graph.
use crate::render_graph::{NodeRunError, RenderGraphContext, SlotInfo};
use crate::render_resource::GraphContextFn;
use crate::resource::{input_slots, output_slots, BindResourceCreationInfo};
use vstd::prelude::*;

pub mod compute;
pub mod input;
pub mod output;

verus! {

/// A copy of a list of slots.
pub fn clone_slots(slots: &Vec<SlotInfo>) -> (copy: Vec<SlotInfo>)
    ensures
        copy@ == slots@,
{
    let mut copy: Vec<SlotInfo> = Vec::new();
    let mut i: usize = 0;
    while i < slots.len()
        invariant
            i <= slots.len(),
            copy@ == slots@.take(i as int),
        decreases slots.len() - i,
    {
        copy.push(slots[i].clone());
        assert(slots@.take(i + 1) =~= slots@.take(i as int).push(slots@[i as int]));
        i += 1;
    }
    assert(slots@.take(i as int) =~= slots@);
    copy
}

/// A node that holds the place of one that is not built yet. It has the slots
/// that the real node will have, so that edges can be checked against it, and
/// cannot be run: its run fails.
#[derive(Debug)]
pub struct DummyNode {
    name: String,
    input: Vec<SlotInfo>,
    output: Vec<SlotInfo>,
}

impl DummyNode {
    /// The name of the node whose place is held; empty as long as none was
    /// given.
    pub closed spec fn spec_name(&self) -> String {
        self.name
    }

    /// The input slots.
    pub closed spec fn spec_input(&self) -> Seq<SlotInfo> {
        self.input@
    }

    /// The output slots.
    pub closed spec fn spec_output(&self) -> Seq<SlotInfo> {
        self.output@
    }

    /// The placeholder for a node with these bind resources: it has the slots
    /// that the bind resources give.
    pub fn from_bind_resource_info(info: &Vec<BindResourceCreationInfo>) -> (node: Self)
        ensures
            node.spec_name()@ == Seq::<char>::empty(),
            node.spec_input() == input_slots(info@),
            node.spec_output() == output_slots(info@),
    {
        let (input, output) = BindResourceCreationInfo::input_output_slot_info(info);
        DummyNode { name: String::new(), input, output }
    }

    /// The placeholder under the name of the node whose place it holds.
    pub fn named(self, name: String) -> (node: Self)
        ensures
            node.spec_name() == name,
            node.spec_input() == self.spec_input(),
            node.spec_output() == self.spec_output(),
    {
        DummyNode { name, input: self.input, output: self.output }
    }

    /// The name of the node whose place is held.
    pub fn name(&self) -> (name: &String)
        ensures
            *name == self.spec_name(),
    {
        &self.name
    }

    /// The input slots.
    pub fn input(&self) -> (slots: Vec<SlotInfo>)
        ensures
            slots@ == self.spec_input(),
    {
        clone_slots(&self.input)
    }

    /// The output slots.
    pub fn output(&self) -> (slots: Vec<SlotInfo>)
        ensures
            slots@ == self.spec_output(),
    {
        clone_slots(&self.output)
    }

    /// Running a placeholder fails: that it is run at all means that the
    /// real node never took its place. The error names the node. Nothing is
    /// read, bound or handed on.
    pub fn run(&self) -> (result: Result<(), NodeRunError>)
        ensures
            result matches Err(NodeRunError::PlaceholderRun { node_name }) && node_name
                == self.spec_name(),
    {
        Err(NodeRunError::PlaceholderRun { node_name: self.name.clone() })
    }
}

/// How many workgroups a compute node dispatches.
#[derive(Clone, Copy, Debug, PartialEq, Eq, Structural)]
pub enum DispatchWorkgroupsStrategy {
    /// Always the same counts.
    Static(u32, u32, u32),
    /// The counts are computed anew in every run, by a function of the host.
    FromGraphContext(GraphContextFn),
}

impl Default for DispatchWorkgroupsStrategy {
    fn default() -> (strategy: Self)
        ensures
            strategy == DispatchWorkgroupsStrategy::Static(1, 1, 1),
    {
        DispatchWorkgroupsStrategy::Static(1, 1, 1)
    }
}

impl DispatchWorkgroupsStrategy {
    /// Whether `counts` is what this strategy may come to in the run that
    /// `graph` shows.
    pub open spec fn dispatches<C: RenderGraphContext>(
        &self,
        graph: &C,
        counts: (u32, u32, u32),
    ) -> bool {
        match *self {
            DispatchWorkgroupsStrategy::Static(x, y, z) => counts == (x, y, z),
            DispatchWorkgroupsStrategy::FromGraphContext(f) => call_ensures(
                C::workgroups,
                (graph, f),
                counts,
            ),
        }
    }

    /// The workgroup counts for this run.
    pub fn workgroups_to_dispatch<C: RenderGraphContext>(&self, graph: &C) -> (counts: (
        u32,
        u32,
        u32,
    ))
        ensures
            self.dispatches(graph, counts),
    {
        match self {
            DispatchWorkgroupsStrategy::Static(x, y, z) => (*x, *y, *z),
            DispatchWorkgroupsStrategy::FromGraphContext(from_graph) => graph.workgroups(
                *from_graph,
            ),
        }
    }
}

} // verus!
