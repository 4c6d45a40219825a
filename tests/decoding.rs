use dizi::decode::{decode_step, DecodeAction, DecodeEvent};

#[test]
fn packets_of_other_tracks_are_skipped() {
    assert_eq!(decode_step(3, DecodeEvent::Packet { track_id: 3 }), DecodeAction::Decode);
    assert_eq!(decode_step(3, DecodeEvent::Packet { track_id: 4 }), DecodeAction::Skip);
}

#[test]
fn read_errors_end_the_stream() {
    assert_eq!(decode_step(0, DecodeEvent::ReadIoError), DecodeAction::Finish);
    assert_eq!(decode_step(0, DecodeEvent::ReadResetRequired), DecodeAction::Finish);
    assert_eq!(decode_step(0, DecodeEvent::ReadOtherError), DecodeAction::Finish);
}

#[test]
fn decode_results() {
    assert_eq!(decode_step(0, DecodeEvent::Decoded { frames: 1152 }), DecodeAction::Append);
    assert_eq!(decode_step(0, DecodeEvent::Decoded { frames: 0 }), DecodeAction::Skip);
    assert_eq!(decode_step(0, DecodeEvent::DecodeError), DecodeAction::Skip);
    assert_eq!(decode_step(0, DecodeEvent::DecodeIoError), DecodeAction::Skip);
    assert_eq!(decode_step(0, DecodeEvent::DecodeOtherError), DecodeAction::Abort);
}
