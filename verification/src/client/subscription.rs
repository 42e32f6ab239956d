//! Topics of the beacon node's event stream.

use crate::error::IndexError;
use vstd::prelude::*;
use vstd::slice::*;
use vstd::string::*;

verus! {

/// A kind of value that the event stream can deliver.
pub trait Subscribable {
    /// The topic under which the stream delivers values of this kind.
    fn subscribe_event() -> SubscribeEvent;
}

/// A topic of the event stream.
#[derive(Clone, Copy, Debug, PartialEq, Eq, Structural)]
pub enum SubscribeEvent {
    Head,
    Block,
    Attestation,
    VoluntaryExit,
    FinalizedCheckpoint,
    ChainReorg,
    ContributionAndProof,
}

impl SubscribeEvent {
    /// The name of the topic on the wire.
    pub open spec fn topic(self) -> Seq<char> {
        match self {
            SubscribeEvent::Head => "head"@,
            SubscribeEvent::Block => "block"@,
            SubscribeEvent::Attestation => "attestation"@,
            SubscribeEvent::VoluntaryExit => "voluntary_exit"@,
            SubscribeEvent::FinalizedCheckpoint => "finalized_checkpoint"@,
            SubscribeEvent::ChainReorg => "chain_reorg"@,
            SubscribeEvent::ContributionAndProof => "contribution_and_proof"@,
        }
    }

    /// Formats the topic as the value of the `topics` query parameter.
    pub fn to_string(&self) -> (s: String)
        ensures
            s@ == self.topic(),
    {
        match self {
            SubscribeEvent::Head => String::from_str("head"),
            SubscribeEvent::Block => String::from_str("block"),
            SubscribeEvent::Attestation => String::from_str("attestation"),
            SubscribeEvent::VoluntaryExit => String::from_str("voluntary_exit"),
            SubscribeEvent::FinalizedCheckpoint => String::from_str("finalized_checkpoint"),
            SubscribeEvent::ChainReorg => String::from_str("chain_reorg"),
            SubscribeEvent::ContributionAndProof => String::from_str("contribution_and_proof"),
        }
    }
}

/// The number of bytes that stand before the data on the data line of a
/// frame: the field name, the colon and a space.
pub const DATA_OFFSET: usize = 6;

/// Where the line that starts at `from` ends: at the first line feed at or
/// after `from`, or at the end of the frame.
pub open spec fn line_end(frame: Seq<u8>, from: int) -> int
    decreases frame.len() - from,
{
    if from < 0 || from >= frame.len() {
        frame.len() as int
    } else if frame[from] == 0x0a {
        from
    } else {
        line_end(frame, from + 1)
    }
}

/// The data of a frame of the event stream.
///
/// A frame is a chunk of lines that line feeds end, each with or without a
/// carriage return before the line feed.  The second line carries the data,
/// after `DATA_OFFSET` bytes.  A frame without a second line, or with a
/// second line shorter than that, has no data.
pub open spec fn frame_data(frame: Seq<u8>) -> Option<Seq<u8>> {
    let start = line_end(frame, 0) + 1;
    if start >= frame.len() {
        None
    } else {
        let end = line_end(frame, start);
        let stop = if start < end < frame.len() && frame[end - 1] == 0x0d {
            end - 1
        } else {
            end
        };
        if stop - start < DATA_OFFSET {
            None
        } else {
            Some(frame.subrange(start + DATA_OFFSET, stop))
        }
    }
}

fn find_line_end(frame: &[u8], from: usize) -> (end: usize)
    requires
        from <= frame.len(),
    ensures
        end == line_end(frame@, from as int),
        from <= end <= frame.len(),
{
    let mut i: usize = from;
    while i < frame.len() && frame[i] != 0x0a
        invariant
            from <= i <= frame.len(),
            line_end(frame@, from as int) == line_end(frame@, i as int),
        decreases frame.len() - i,
    {
        i = i + 1;
    }
    i
}

/// Takes the data out of a frame of the event stream.  A frame without data
/// is a `Format` error.
pub fn event_data(frame: &[u8]) -> (res: Result<&[u8], IndexError>)
    ensures
        match frame_data(frame@) {
            Some(data) => res matches Ok(found) && found@ == data,
            None => res == Err::<&[u8], IndexError>(IndexError::Format),
        },
{
    let first = find_line_end(frame, 0);
    if first >= frame.len() || first + 1 >= frame.len() {
        return Err(IndexError::Format);
    }
    let start = first + 1;
    let end = find_line_end(frame, start);
    let stop = if start < end && end < frame.len() && frame[end - 1] == 0x0d {
        end - 1
    } else {
        end
    };
    if stop - start < DATA_OFFSET {
        return Err(IndexError::Format);
    }
    Ok(slice_subrange(frame, start + DATA_OFFSET, stop))
}

} // verus!
