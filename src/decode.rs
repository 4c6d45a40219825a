use vstd::prelude::*;

verus! {

/// What the decode loop has just observed.
#[derive(Clone, Copy, Debug, PartialEq, Eq, Structural)]
pub enum DecodeEvent {
    /// The reader handed out a packet of the track `track_id`.
    Packet { track_id: u32 },
    /// Reading the next packet failed with an I/O error: the end of the stream.
    ReadIoError,
    /// The reader's track list changed; this decoder goes no further.
    ReadResetRequired,
    /// Reading the next packet failed in another way; what was decoded so far stands.
    ReadOtherError,
    /// A packet decoded into `frames` frames.
    Decoded { frames: usize },
    /// A packet held invalid data.
    DecodeError,
    /// A packet failed to decode with an I/O error.
    DecodeIoError,
    /// A packet failed to decode in another way.
    DecodeOtherError,
}

/// What the decode loop does next.
#[derive(Clone, Copy, Debug, PartialEq, Eq, Structural)]
pub enum DecodeAction {
    /// Decode the packet just read.
    Decode,
    /// Drop it and read the next packet.
    Skip,
    /// Append the decoded samples, then read the next packet.
    Append,
    /// Stop: the whole track is decoded.
    Finish,
    /// Stop with a decoding error.
    Abort,
}

/// The decoding policy, for the track `selected`: packets of other tracks and
/// packets that fail with invalid data or an I/O error are skipped, decoded
/// buffers with frames are kept, any error on reading ends the stream with
/// what was decoded so far, and any other decoding error aborts.
pub fn decode_step(selected: u32, ev: DecodeEvent) -> (r: DecodeAction)
    ensures
        r == match ev {
            DecodeEvent::Packet { track_id } => if track_id == selected {
                DecodeAction::Decode
            } else {
                DecodeAction::Skip
            },
            DecodeEvent::ReadIoError => DecodeAction::Finish,
            DecodeEvent::ReadResetRequired => DecodeAction::Finish,
            DecodeEvent::ReadOtherError => DecodeAction::Finish,
            DecodeEvent::Decoded { frames } => if frames > 0 {
                DecodeAction::Append
            } else {
                DecodeAction::Skip
            },
            DecodeEvent::DecodeError => DecodeAction::Skip,
            DecodeEvent::DecodeIoError => DecodeAction::Skip,
            DecodeEvent::DecodeOtherError => DecodeAction::Abort,
        },
{
    match ev {
        DecodeEvent::Packet { track_id } => {
            if track_id == selected {
                DecodeAction::Decode
            } else {
                DecodeAction::Skip
            }
        },
        DecodeEvent::ReadIoError => DecodeAction::Finish,
        DecodeEvent::ReadResetRequired => DecodeAction::Finish,
        DecodeEvent::ReadOtherError => DecodeAction::Finish,
        DecodeEvent::Decoded { frames } => {
            if frames > 0 {
                DecodeAction::Append
            } else {
                DecodeAction::Skip
            }
        },
        DecodeEvent::DecodeError => DecodeAction::Skip,
        DecodeEvent::DecodeIoError => DecodeAction::Skip,
        DecodeEvent::DecodeOtherError => DecodeAction::Abort,
    }
}

} // verus!
