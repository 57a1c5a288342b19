//! Read-back of an output buffer: a node that copies its input buffer into a
//! buffer the host can map, and the state that takes the copy from "queued"
//! to "mapped and ready to be taken".
use crate::render_graph::{
    InputSlotError, NodeRunError, RenderGraphContext, SlotInfo, SlotLabel, SlotType, SlotValue,
};
use crate::render_resource::{
    buffer_made, create_buffer, Buffer, BufferDescriptor, BufferDescriptorView, RenderDevice,
    BUFFER_USAGE_COPY_DST, BUFFER_USAGE_MAP_READ,
};
use vstd::prelude::*;
use vstd::string::StringExecFns;

verus! {

/// The name of the input slot of the node.
pub const SLOT_NAME: &'static str = "in";

/// The label of the buffers that the node makes.
pub const OUTPUT_BUFFER_LABEL: &'static str = "output_buffer";

/// Why an output buffer could not be taken.
#[derive(Debug)]
pub enum OutputError {
    /// The buffer was taken already, or is not mapped, or was never made.
    MappedBufferNotFound,
    /// Someone else holds the state at this moment.
    CannotLock,
    /// The device failed to map the buffer.
    AsyncMapError,
    /// The mapped bytes do not have the layout that was asked for.
    BufferReadWriteError(String),
}

impl OutputError {
    /// The error in words.
    pub fn message(&self) -> (text: String)
        ensures
            self is MappedBufferNotFound ==> text@
                == "Buffer already consumed, not mapped or not created"@,
            self is CannotLock ==> text@ == "The state is locked and cannot be used right now"@,
            self is AsyncMapError ==> text@
                == "An async error occurred while trying to map the buffer"@,
            self matches OutputError::BufferReadWriteError(inner) ==> text@
                == "Buffer read-write error: "@ + inner@,
    {
        match self {
            OutputError::MappedBufferNotFound => String::from_str(
                "Buffer already consumed, not mapped or not created",
            ),
            OutputError::CannotLock => String::from_str(
                "The state is locked and cannot be used right now",
            ),
            OutputError::AsyncMapError => String::from_str(
                "An async error occurred while trying to map the buffer",
            ),
            OutputError::BufferReadWriteError(inner) => String::from_str(
                "Buffer read-write error: ",
            ).concat(inner.as_str()),
        }
    }
}

/// Where the read-back of one output stands.
#[derive(Clone, Copy, Debug, PartialEq, Eq, Structural)]
pub enum OutputBufferState {
    /// No buffer: none was made yet, or the last was taken.
    NotCreated,
    /// The copy into the buffer is queued; the buffer waits to be mapped.
    ReadyToMap(Buffer),
    /// The device was asked to map the buffer and has not answered.
    WaitingForMap(Buffer),
    /// The buffer is mapped and can be taken.
    Mapped(Buffer),
    /// The device could not map the buffer.
    MappingError,
}

impl OutputBufferState {
    /// The state after an attempt to take the buffer: a mapped buffer leaves
    /// nothing behind, any other state stays.
    pub open spec fn after_take(self) -> OutputBufferState {
        match self {
            OutputBufferState::Mapped(_) => OutputBufferState::NotCreated,
            _ => self,
        }
    }

    /// The state after the scan for buffers to map: a buffer that was ready
    /// to be mapped now waits for the device.
    pub open spec fn after_map_request(self) -> OutputBufferState {
        match self {
            OutputBufferState::ReadyToMap(buffer) => OutputBufferState::WaitingForMap(buffer),
            _ => self,
        }
    }

    /// The state after the device has answered a request to map. The buffer
    /// that waited is mapped, or in error. Where no buffer waits (the node
    /// ran again in between, or the buffer was taken), the answer is out of
    /// date and changes nothing: a newer copy stays ready to be mapped, and a
    /// mapped buffer stays until it is taken.
    pub open spec fn after_map_answer(self, mapped: bool) -> OutputBufferState {
        match self {
            OutputBufferState::WaitingForMap(buffer) => if mapped {
                OutputBufferState::Mapped(buffer)
            } else {
                OutputBufferState::MappingError
            },
            _ => self,
        }
    }

    /// The buffer of an earlier run that the next run may copy into: one that
    /// is mapped or still ready to be mapped. A buffer that the device is
    /// about to map is left alone.
    pub open spec fn reusable(self) -> Option<Buffer> {
        match self {
            OutputBufferState::Mapped(buffer) => Some(buffer),
            OutputBufferState::ReadyToMap(buffer) => Some(buffer),
            _ => None,
        }
    }

    /// The buffer that has to be unmapped before the next copy: the mapped
    /// one.
    pub open spec fn to_unmap(self) -> Option<Buffer> {
        match self {
            OutputBufferState::Mapped(buffer) => Some(buffer),
            _ => None,
        }
    }
}

/// A mapped buffer is taken once: the state that a take leaves behind holds
/// no mapped buffer, and a further take changes nothing.
pub proof fn lemma_taken_at_most_once(state: OutputBufferState)
    ensures
        !(state.after_take() is Mapped),
        state.after_take().after_take() == state.after_take(),
{
}

/// A read-back from the copy to the take: once the copy is queued, the scan
/// asks the device to map the buffer, a good answer makes it mapped, and the
/// take then leaves nothing behind.
pub proof fn lemma_read_back_round_trip(buffer: Buffer)
    ensures
        OutputBufferState::ReadyToMap(buffer).after_map_request().after_map_answer(true)
            == OutputBufferState::Mapped(buffer),
        OutputBufferState::Mapped(buffer).after_take() == OutputBufferState::NotCreated,
        OutputBufferState::ReadyToMap(buffer).after_map_request().after_map_answer(false)
            == OutputBufferState::MappingError,
{
}

/// What the host encodes after the node ran: `unmap` first, where there is
/// one, then the copy of `size` bytes from the start of `source` to the start
/// of `destination`.
#[derive(Clone, Copy, Debug, PartialEq, Eq, Structural)]
pub struct BufferCopy {
    pub unmap: Option<Buffer>,
    pub source: Buffer,
    pub destination: Buffer,
    pub size: u64,
}

/// The node that reads an output back, with the state of its read-back.
#[derive(Clone, Copy, Debug, PartialEq, Eq, Structural)]
pub struct OutputBuffer {
    pub state: OutputBufferState,
}

/// What describes a buffer of `size` bytes to copy into and map for reading.
pub open spec fn output_buffer_descriptor(size: u64) -> BufferDescriptorView {
    BufferDescriptorView {
        label: Some(OUTPUT_BUFFER_LABEL@),
        size,
        usage: BUFFER_USAGE_COPY_DST | BUFFER_USAGE_MAP_READ,
        mapped_at_creation: false,
    }
}

/// Whether `buffer` is what the device may hand back when asked for a buffer
/// of `size` bytes to copy into and map for reading.
pub open spec fn makes_output_buffer<D: RenderDevice>(
    render_device: &D,
    size: u64,
    buffer: Buffer,
) -> bool {
    exists|descriptor: BufferDescriptor|
        descriptor@ == output_buffer_descriptor(size) && #[trigger] buffer_made(
            render_device,
            descriptor,
            buffer,
        )
}

/// Whether `answer` is what the host may say of the input slot of the node.
pub open spec fn input_read<C: RenderGraphContext>(
    graph: &C,
    answer: Result<SlotValue, InputSlotError>,
) -> bool {
    exists|name: String|
        name@ == SLOT_NAME@ && #[trigger] call_ensures(C::get_input, (graph, &name), answer)
}

impl Default for OutputBuffer {
    fn default() -> (node: Self)
        ensures
            node.state == OutputBufferState::NotCreated,
    {
        OutputBuffer { state: OutputBufferState::NotCreated }
    }
}

impl OutputBuffer {
    /// Takes the mapped buffer. `lock` is the node as far as it could be
    /// had without waiting: `None` where someone else holds it. A mapped
    /// buffer is handed out and leaves nothing behind, so that it is handed
    /// out once.
    pub fn take_buffer(lock: Option<&mut OutputBuffer>) -> (result: Result<Buffer, OutputError>)
        ensures
            lock is None ==> result == Err::<Buffer, OutputError>(OutputError::CannotLock),
            lock matches Some(node) ==> final(node).state == node.state.after_take()
                && result == (match node.state {
                OutputBufferState::Mapped(buffer) => Ok::<Buffer, OutputError>(buffer),
                _ => Err::<Buffer, OutputError>(OutputError::MappedBufferNotFound),
            }),
    {
        match lock {
            Some(node) => {
                match node.state {
                    OutputBufferState::Mapped(buffer) => {
                        node.state = OutputBufferState::NotCreated;
                        Ok(buffer)
                    },
                    _ => Err(OutputError::MappedBufferNotFound),
                }
            },
            None => Err(OutputError::CannotLock),
        }
    }

    /// Whether a mapped buffer is there to be taken. `lock` is the node as
    /// far as it could be had without waiting.
    pub fn buffer_ready(lock: Option<&OutputBuffer>) -> (ready: bool)
        ensures
            ready == (lock matches Some(node) && node.state is Mapped),
    {
        match lock {
            Some(node) => match node.state {
                OutputBufferState::Mapped(_) => true,
                _ => false,
            },
            None => false,
        }
    }

    /// The input slots of the node: one buffer.
    pub fn input(&self) -> (slots: Vec<SlotInfo>)
        ensures
            slots@.len() == 1,
            slots@[0].name@ == SLOT_NAME@,
            slots@[0].slot_type == SlotType::Buffer,
    {
        let mut slots: Vec<SlotInfo> = Vec::new();
        slots.push(SlotInfo::new(String::from_str(SLOT_NAME), SlotType::Buffer));
        slots
    }

    /// Has the device make a buffer of `size` bytes to copy into and map for
    /// reading.
    pub fn create_output_buffer<D: RenderDevice>(render_device: &D, size: u64) -> (buffer: Buffer)
        ensures
            makes_output_buffer(render_device, size, buffer),
            buffer.size == size,
    {
        let descriptor = BufferDescriptor {
            label: Some(String::from_str(OUTPUT_BUFFER_LABEL)),
            size,
            usage: BUFFER_USAGE_COPY_DST | BUFFER_USAGE_MAP_READ,
            mapped_at_creation: false,
        };
        let buffer = create_buffer(render_device, &descriptor);
        proof {
            assert(buffer_made(render_device, descriptor, buffer));
        }
        buffer
    }

    /// Whether `result` and `after` are what a run of the node in state
    /// `self` comes to when the host answers `answer` for the input slot.
    /// Without a buffer in the slot the run fails and the state stays. With
    /// one, the copy goes into the buffer of an earlier run if that has the
    /// size of the input, and into a new buffer of that size otherwise, so
    /// that the buffer copied into always has the size of the input; a
    /// mapped buffer is unmapped first; and the state is then ready to map
    /// the buffer that was copied into.
    pub open spec fn run_comes_to<D: RenderDevice>(
        &self,
        render_device: &D,
        answer: Result<SlotValue, InputSlotError>,
        result: Result<BufferCopy, NodeRunError>,
        after: OutputBuffer,
    ) -> bool {
        match answer {
            Err(refused) => after == *self && result == Err::<BufferCopy, NodeRunError>(
                NodeRunError::InputSlotError(refused),
            ),
            Ok(SlotValue::Buffer(input)) => {
                &&& result matches Ok(copy)
                &&& copy.unmap == self.state.to_unmap()
                &&& copy.source == input
                &&& copy.size == input.size
                &&& copy.destination.size == input.size
                &&& after.state == OutputBufferState::ReadyToMap(copy.destination)
                &&& match self.state.reusable() {
                    Some(earlier) if earlier.size == input.size => copy.destination == earlier,
                    _ => makes_output_buffer(render_device, input.size, copy.destination),
                }
            },
            Ok(other) => {
                &&& after == *self
                &&& result matches Err(
                    NodeRunError::InputSlotError(
                        InputSlotError::MismatchedSlotType { label, expected, actual },
                    ),
                )
                &&& label matches SlotLabel::Name(name)
                &&& name@ == SLOT_NAME@
                &&& expected == SlotType::Buffer
                &&& actual == other.spec_slot_type()
            },
        }
    }

    /// One run of the node: queues the copy of the input buffer into a buffer
    /// that can be mapped for reading.
    pub fn run<C: RenderGraphContext, D: RenderDevice>(
        &mut self,
        graph: &C,
        render_device: &D,
    ) -> (result: Result<BufferCopy, NodeRunError>)
        ensures
            exists|answer: Result<SlotValue, InputSlotError>| #[trigger]
                input_read(graph, answer) && old(self).run_comes_to(
                    render_device,
                    answer,
                    result,
                    *final(self),
                ),
    {
        let name = String::from_str(SLOT_NAME);
        let answer = graph.get_input(&name);
        assert(input_read(graph, answer));
        let input = match answer {
            Ok(SlotValue::Buffer(buffer)) => buffer,
            Ok(other) => {
                return Err(
                    NodeRunError::InputSlotError(
                        InputSlotError::MismatchedSlotType {
                            label: SlotLabel::Name(name),
                            expected: SlotType::Buffer,
                            actual: other.slot_type(),
                        },
                    ),
                );
            },
            Err(refused) => {
                return Err(NodeRunError::InputSlotError(refused));
            },
        };
        let size = input.size;
        let (unmap, earlier) = match self.state {
            OutputBufferState::NotCreated => (None, None),
            OutputBufferState::Mapped(buffer) => (Some(buffer), Some(buffer)),
            OutputBufferState::MappingError => (None, None),
            OutputBufferState::ReadyToMap(buffer) => (None, Some(buffer)),
            OutputBufferState::WaitingForMap(_) => (None, None),
        };
        let destination = match earlier {
            Some(buffer) if buffer.size == size => buffer,
            _ => OutputBuffer::create_output_buffer(render_device, size),
        };
        self.state = OutputBufferState::ReadyToMap(destination);
        Ok(BufferCopy { unmap, source: input, destination, size })
    }

    /// The scan for buffers to map, for this node: a buffer that is ready is
    /// handed to the host, which asks the device to map it for reading, and
    /// the node waits for the answer. In any other state nothing happens.
    pub fn map_output_buffer(&mut self) -> (request: Option<Buffer>)
        ensures
            final(self).state == old(self).state.after_map_request(),
            request == (match old(self).state {
                OutputBufferState::ReadyToMap(buffer) => Some(buffer),
                _ => None,
            }),
    {
        match self.state {
            OutputBufferState::ReadyToMap(buffer) => {
                self.state = OutputBufferState::WaitingForMap(buffer);
                Some(buffer)
            },
            _ => None,
        }
    }

    /// The device's answer to a request to map: `mapped` says whether it
    /// succeeded.
    pub fn on_buffer_mapped(&mut self, mapped: bool)
        ensures
            final(self).state == old(self).state.after_map_answer(mapped),
    {
        match self.state {
            OutputBufferState::WaitingForMap(buffer) => {
                self.state = if mapped {
                    OutputBufferState::Mapped(buffer)
                } else {
                    OutputBufferState::MappingError
                };
            },
            _ => {},
        }
    }
}

} // verus!
