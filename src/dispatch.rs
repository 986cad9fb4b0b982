//! The command sequence of one dispatch: bind, dispatch over enough
//! workgroups to cover the buffer, then copy it to the staging buffer.
use vstd::prelude::*;
use crate::codec::{encode_words, le_bytes};
use crate::pipeline::{ELEMENT_STRIDE, WORKGROUP_SIZE};

verus! {

/// One recorded command.
#[derive(Debug, Clone, Copy, PartialEq, Eq, Structural)]
pub enum Command {
    BeginComputePass,
    /// Bind the storage buffer's bind group at this index.
    SetBindGroup { index: u32 },
    SetPipeline,
    /// Run this many workgroups along each axis.
    Dispatch { x: u32, y: u32, z: u32 },
    EndComputePass,
    /// Copy this many bytes from the storage to the staging buffer.
    CopyToStaging { size: u64 },
}

/// The number of workgroups that cover `n` elements.
pub open spec fn workgroups_spec(n: nat) -> nat {
    ((n + WORKGROUP_SIZE - 1) / (WORKGROUP_SIZE as int)) as nat
}

/// The size in bytes of a buffer of `n` elements.
pub open spec fn buffer_size_spec(n: nat) -> nat {
    (n * ELEMENT_STRIDE) as nat
}

/// The commands of a dispatch over `n` elements, in submission order.
pub open spec fn commands_spec(n: nat) -> Seq<Command> {
    seq![
        Command::BeginComputePass,
        Command::SetBindGroup { index: 0 },
        Command::SetPipeline,
        Command::Dispatch { x: workgroups_spec(n) as u32, y: 1, z: 1 },
        Command::EndComputePass,
        Command::CopyToStaging { size: buffer_size_spec(n) as u64 },
    ]
}

/// The workgroup count along X for `element_count` elements, rounded up:
/// a partial last workgroup runs past the buffer's end.
pub fn workgroup_count(element_count: u32) -> (r: u32)
    ensures
        r == workgroups_spec(element_count as nat),
        r * WORKGROUP_SIZE >= element_count,
        r * WORKGROUP_SIZE < element_count + WORKGROUP_SIZE,
{
    let q = element_count / WORKGROUP_SIZE;
    if element_count % WORKGROUP_SIZE == 0 {
        q
    } else {
        q + 1
    }
}

/// The size in bytes of the storage and staging buffers.
pub fn buffer_size(element_count: u32) -> (r: u64)
    ensures
        r == buffer_size_spec(element_count as nat),
{
    element_count as u64 * ELEMENT_STRIDE
}

/// Records the one-shot command sequence of a dispatch over
/// `element_count` elements.
pub fn record_commands(element_count: u32) -> (r: Vec<Command>)
    ensures
        r@ == commands_spec(element_count as nat),
{
    let mut r: Vec<Command> = Vec::new();
    r.push(Command::BeginComputePass);
    r.push(Command::SetBindGroup { index: 0 });
    r.push(Command::SetPipeline);
    r.push(Command::Dispatch { x: workgroup_count(element_count), y: 1, z: 1 });
    r.push(Command::EndComputePass);
    r.push(Command::CopyToStaging { size: buffer_size(element_count) });
    assert(r@ =~= commands_spec(element_count as nat));
    r
}

/// Everything the host prepares for one dispatch: the storage buffer's
/// initial bytes, the element count and the commands to submit.
pub struct DispatchPlan {
    pub bytes: Vec<u8>,
    pub element_count: u32,
    pub commands: Vec<Command>,
}

/// A word sequence that one dispatch can take: its count fits the
/// dispatch's 32-bit element count and its bytes fit in memory.
pub open spec fn dispatchable(n: nat) -> bool {
    n <= u32::MAX && 4 * n <= usize::MAX
}

/// Prepares the dispatch of `words`, or `None` where there are too many
/// of them for one dispatch.
pub fn plan_dispatch(words: &[u32]) -> (r: Option<DispatchPlan>)
    ensures
        r is Some <==> dispatchable(words@.len()),
        r matches Some(p) ==> {
            &&& p.bytes@ == le_bytes(words@)
            &&& p.bytes@.len() == buffer_size_spec(words@.len())
            &&& p.element_count == words@.len()
            &&& p.commands@ == commands_spec(words@.len())
        },
{
    if words.len() > u32::MAX as usize || words.len() > usize::MAX / 4 {
        None
    } else {
        let element_count = words.len() as u32;
        Some(
            DispatchPlan {
                bytes: encode_words(words),
                element_count,
                commands: record_commands(element_count),
            },
        )
    }
}

} // verus!
