use vstd::prelude::*;

use crate::error::{DiziError, DiziErrorKind, DiziResult};

verus! {

/// A request that a client sends to the server, one variant per route.
#[derive(Debug)]
pub enum ClientRequest {
    Leave { uuid: String },
    ServerQuit,
    PlayerState,
    PlayerFilePlay { path: String },
    PlayerPlayNext,
    PlayerPlayPrevious,
    PlayerPause,
    PlayerResume,
    PlayerGetVolume,
    PlayerRewind { amount_ms: u64 },
    PlayerFastForward { amount_ms: u64 },
    PlayerTogglePlay,
    PlayerToggleNext,
    PlayerToggleRepeat,
    PlayerToggleShuffle,
    PlayerVolumeUp { amount: usize },
    PlayerVolumeDown { amount: usize },
    PlaylistState,
    PlaylistOpen { path: String },
    PlaylistPlay { index: usize },
    PlaylistAppend { path: String },
    PlaylistRemove { index: usize },
    PlaylistMoveUp { index: usize },
    PlaylistMoveDown { index: usize },
}

/// The route that names a request on the wire.
pub open spec fn route_of(r: ClientRequest) -> Seq<char> {
    match r {
        ClientRequest::Leave { .. } => "/client/leave"@,
        ClientRequest::ServerQuit => "/server/quit"@,
        ClientRequest::PlayerState => "/player/state"@,
        ClientRequest::PlayerFilePlay { .. } => "/player/play/file"@,
        ClientRequest::PlayerPlayNext => "/player/play/next"@,
        ClientRequest::PlayerPlayPrevious => "/player/play/previous"@,
        ClientRequest::PlayerPause => "/player/pause"@,
        ClientRequest::PlayerResume => "/player/resume"@,
        ClientRequest::PlayerGetVolume => "/player/volume/get"@,
        ClientRequest::PlayerRewind { .. } => "/player/rewind"@,
        ClientRequest::PlayerFastForward { .. } => "/player/fast_forward"@,
        ClientRequest::PlayerTogglePlay => "/player/toggle/play"@,
        ClientRequest::PlayerToggleNext => "/player/toggle/next"@,
        ClientRequest::PlayerToggleRepeat => "/player/toggle/repeat"@,
        ClientRequest::PlayerToggleShuffle => "/player/toggle/shuffle"@,
        ClientRequest::PlayerVolumeUp { .. } => "/player/volume/increase"@,
        ClientRequest::PlayerVolumeDown { .. } => "/player/volume/decrease"@,
        ClientRequest::PlaylistState => "/playlist/state"@,
        ClientRequest::PlaylistOpen { .. } => "/playlist/open"@,
        ClientRequest::PlaylistPlay { .. } => "/playlist/play"@,
        ClientRequest::PlaylistAppend { .. } => "/playlist/append"@,
        ClientRequest::PlaylistRemove { .. } => "/playlist/remove"@,
        ClientRequest::PlaylistMoveUp { .. } => "/playlist/move_up"@,
        ClientRequest::PlaylistMoveDown { .. } => "/playlist/move_down"@,
    }
}

/// Whether `s` is one of the routes.
pub open spec fn is_route(s: Seq<char>) -> bool {
    s == "/client/leave"@
    || s == "/server/quit"@
    || s == "/player/state"@
    || s == "/player/play/file"@
    || s == "/player/play/next"@
    || s == "/player/play/previous"@
    || s == "/player/pause"@
    || s == "/player/resume"@
    || s == "/player/volume/get"@
    || s == "/player/rewind"@
    || s == "/player/fast_forward"@
    || s == "/player/toggle/play"@
    || s == "/player/toggle/next"@
    || s == "/player/toggle/repeat"@
    || s == "/player/toggle/shuffle"@
    || s == "/player/volume/increase"@
    || s == "/player/volume/decrease"@
    || s == "/playlist/state"@
    || s == "/playlist/open"@
    || s == "/playlist/play"@
    || s == "/playlist/append"@
    || s == "/playlist/remove"@
    || s == "/playlist/move_up"@
    || s == "/playlist/move_down"@
}

/// The arguments that a request parsed from its route alone carries: an empty
/// identifier or path, a step of one second (in milliseconds) or one percent, the index `0`.
pub open spec fn has_default_args(r: ClientRequest) -> bool {
    match r {
        ClientRequest::Leave { uuid } => uuid@.len() == 0,
        ClientRequest::PlayerFilePlay { path } => path@.len() == 0,
        ClientRequest::PlayerRewind { amount_ms } => amount_ms == 1000,
        ClientRequest::PlayerFastForward { amount_ms } => amount_ms == 1000,
        ClientRequest::PlayerVolumeUp { amount } => amount == 1,
        ClientRequest::PlayerVolumeDown { amount } => amount == 1,
        ClientRequest::PlaylistOpen { path } => path@.len() == 0,
        ClientRequest::PlaylistPlay { index } => index == 0,
        ClientRequest::PlaylistAppend { path } => path@.len() == 0,
        ClientRequest::PlaylistRemove { index } => index == 0,
        ClientRequest::PlaylistMoveUp { index } => index == 0,
        ClientRequest::PlaylistMoveDown { index } => index == 0,
        _ => true,
    }
}

fn same_text(a: &str, b: &str) -> (r: bool)
    ensures
        r == (a@ == b@),
{
    a.to_owned() == b.to_owned()
}

impl ClientRequest {
    /// The route of this request.
    pub fn api_path(&self) -> (r: &'static str)
        ensures
            r@ == route_of(*self),
    {
        match self {
            Self::Leave { .. } => "/client/leave",
            Self::ServerQuit => "/server/quit",
            Self::PlayerState => "/player/state",
            Self::PlayerFilePlay { .. } => "/player/play/file",
            Self::PlayerPlayNext => "/player/play/next",
            Self::PlayerPlayPrevious => "/player/play/previous",
            Self::PlayerPause => "/player/pause",
            Self::PlayerResume => "/player/resume",
            Self::PlayerGetVolume => "/player/volume/get",
            Self::PlayerRewind { .. } => "/player/rewind",
            Self::PlayerFastForward { .. } => "/player/fast_forward",
            Self::PlayerTogglePlay => "/player/toggle/play",
            Self::PlayerToggleNext => "/player/toggle/next",
            Self::PlayerToggleRepeat => "/player/toggle/repeat",
            Self::PlayerToggleShuffle => "/player/toggle/shuffle",
            Self::PlayerVolumeUp { .. } => "/player/volume/increase",
            Self::PlayerVolumeDown { .. } => "/player/volume/decrease",
            Self::PlaylistState => "/playlist/state",
            Self::PlaylistOpen { .. } => "/playlist/open",
            Self::PlaylistPlay { .. } => "/playlist/play",
            Self::PlaylistAppend { .. } => "/playlist/append",
            Self::PlaylistRemove { .. } => "/playlist/remove",
            Self::PlaylistMoveUp { .. } => "/playlist/move_up",
            Self::PlaylistMoveDown { .. } => "/playlist/move_down",
        }
    }

    /// The request that the route `s` names, with default arguments; `args` is
    /// not read. An unknown route is refused.
    pub fn parse_str(s: &str, args: &str) -> (r: DiziResult<Self>)
        ensures
            r is Ok <==> is_route(s@),
            r matches Ok(q) ==> route_of(q) == s@ && has_default_args(q),
            r matches Err(e) ==> e.kind == DiziErrorKind::UnrecognizedCommand && e.msg@
                == "Unrecognized command: '"@ + s@ + "'"@,
    {
        if same_text(s, "/client/leave") {
            Ok(Self::Leave { uuid: String::new() })
        } else if same_text(s, "/server/quit") {
            Ok(Self::ServerQuit)
        } else if same_text(s, "/player/state") {
            Ok(Self::PlayerState)
        } else if same_text(s, "/player/play/file") {
            Ok(Self::PlayerFilePlay { path: String::new() })
        } else if same_text(s, "/player/play/next") {
            Ok(Self::PlayerPlayNext)
        } else if same_text(s, "/player/play/previous") {
            Ok(Self::PlayerPlayPrevious)
        } else if same_text(s, "/player/pause") {
            Ok(Self::PlayerPause)
        } else if same_text(s, "/player/resume") {
            Ok(Self::PlayerResume)
        } else if same_text(s, "/player/volume/get") {
            Ok(Self::PlayerGetVolume)
        } else if same_text(s, "/player/rewind") {
            Ok(Self::PlayerRewind { amount_ms: 1000 })
        } else if same_text(s, "/player/fast_forward") {
            Ok(Self::PlayerFastForward { amount_ms: 1000 })
        } else if same_text(s, "/player/toggle/play") {
            Ok(Self::PlayerTogglePlay)
        } else if same_text(s, "/player/toggle/next") {
            Ok(Self::PlayerToggleNext)
        } else if same_text(s, "/player/toggle/repeat") {
            Ok(Self::PlayerToggleRepeat)
        } else if same_text(s, "/player/toggle/shuffle") {
            Ok(Self::PlayerToggleShuffle)
        } else if same_text(s, "/player/volume/increase") {
            Ok(Self::PlayerVolumeUp { amount: 1 })
        } else if same_text(s, "/player/volume/decrease") {
            Ok(Self::PlayerVolumeDown { amount: 1 })
        } else if same_text(s, "/playlist/state") {
            Ok(Self::PlaylistState)
        } else if same_text(s, "/playlist/open") {
            Ok(Self::PlaylistOpen { path: String::new() })
        } else if same_text(s, "/playlist/play") {
            Ok(Self::PlaylistPlay { index: 0 })
        } else if same_text(s, "/playlist/append") {
            Ok(Self::PlaylistAppend { path: String::new() })
        } else if same_text(s, "/playlist/remove") {
            Ok(Self::PlaylistRemove { index: 0 })
        } else if same_text(s, "/playlist/move_up") {
            Ok(Self::PlaylistMoveUp { index: 0 })
        } else if same_text(s, "/playlist/move_down") {
            Ok(Self::PlaylistMoveDown { index: 0 })
        } else {
            let mut msg = String::from_str("Unrecognized command: '");
            msg.append(s);
            msg.append("'");
            Err(DiziError::new(DiziErrorKind::UnrecognizedCommand, msg))
        }
    }
}

} // verus!
