//! Input buffers: nodes that bring a buffer of the host's making into the
//! graph, through one output slot.
use crate::render_graph::{SlotInfo, SlotOutput, SlotType, SlotValue};
use crate::render_resource::Buffer;
use vstd::prelude::*;
use vstd::string::StringExecFns;

verus! {

/// The name of the output slot of an input buffer node.
pub const SLOT_NAME: &'static str = "out";

/// A buffer that the host fills and uploads. `D` and `Q` are the host's
/// device and queue.
pub trait InputBuffer<D, Q> {
    /// The size in bytes of the buffer on the device, 0 as long as there is
    /// none.
    fn size(&self) -> u64;

    /// Uploads the content and hands out the buffer on the device, if there
    /// is one.
    fn write_buffer(&self, device: &D, queue: &Q) -> Option<Buffer>;
}

/// The output slots of an input buffer node: one buffer.
pub fn output() -> (slots: Vec<SlotInfo>)
    ensures
        slots@.len() == 1,
        slots@[0].name@ == SLOT_NAME@,
        slots@[0].slot_type == SlotType::Buffer,
{
    let mut slots: Vec<SlotInfo> = Vec::new();
    slots.push(SlotInfo::new(String::from_str(SLOT_NAME), SlotType::Buffer));
    slots
}

/// Whether `output` is what a run hands on for an upload that came to
/// `written`: the buffer, through the output slot, or nothing where the
/// device has no buffer.
pub open spec fn hands_on(written: Option<Buffer>, output: Option<SlotOutput>) -> bool {
    match written {
        Some(buffer) => output matches Some(slot) && slot.name@ == SLOT_NAME@ && slot.value
            == SlotValue::Buffer(buffer),
        None => output is None,
    }
}

/// One run of an input buffer node: uploads the content and hands the buffer
/// on through the output slot. Without a buffer on the device nothing is
/// handed on, which the host should report.
pub fn run<D, Q, B: InputBuffer<D, Q>>(input: &B, device: &D, queue: &Q) -> (output: Option<
    SlotOutput,
>)
    ensures
        exists|written: Option<Buffer>| #[trigger]
            call_ensures(B::write_buffer, (input, device, queue), written) && hands_on(
                written,
                output,
            ),
{
    match input.write_buffer(device, queue) {
        Some(buffer) => Some(
            SlotOutput { name: String::from_str(SLOT_NAME), value: SlotValue::Buffer(buffer) },
        ),
        None => None,
    }
}

} // verus!
