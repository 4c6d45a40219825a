use dizi::error::DiziErrorKind;
use dizi::request::ClientRequest;

const ROUTES: [&str; 24] = [
    "/client/leave",
    "/server/quit",
    "/player/state",
    "/player/play/file",
    "/player/play/next",
    "/player/play/previous",
    "/player/pause",
    "/player/resume",
    "/player/volume/get",
    "/player/rewind",
    "/player/fast_forward",
    "/player/toggle/play",
    "/player/toggle/next",
    "/player/toggle/repeat",
    "/player/toggle/shuffle",
    "/player/volume/increase",
    "/player/volume/decrease",
    "/playlist/state",
    "/playlist/open",
    "/playlist/play",
    "/playlist/append",
    "/playlist/remove",
    "/playlist/move_up",
    "/playlist/move_down",
];

#[test]
fn every_route_parses_to_itself() {
    for route in ROUTES {
        let req = ClientRequest::parse_str(route, "").unwrap();
        assert_eq!(req.api_path(), route);
    }
}

#[test]
fn parsed_requests_carry_defaults() {
    match ClientRequest::parse_str("/player/volume/increase", "").unwrap() {
        ClientRequest::PlayerVolumeUp { amount } => assert_eq!(amount, 1),
        other => panic!("unexpected {:?}", other),
    }
    match ClientRequest::parse_str("/player/rewind", "").unwrap() {
        ClientRequest::PlayerRewind { amount_ms } => assert_eq!(amount_ms, 1000),
        other => panic!("unexpected {:?}", other),
    }
    match ClientRequest::parse_str("/playlist/play", "").unwrap() {
        ClientRequest::PlaylistPlay { index } => assert_eq!(index, 0),
        other => panic!("unexpected {:?}", other),
    }
    match ClientRequest::parse_str("/player/play/file", "").unwrap() {
        ClientRequest::PlayerFilePlay { path } => assert!(path.is_empty()),
        other => panic!("unexpected {:?}", other),
    }
}

#[test]
fn unknown_route_is_refused() {
    let e = ClientRequest::parse_str("/player/explode", "").unwrap_err();
    assert_eq!(e.kind, DiziErrorKind::UnrecognizedCommand);
    assert_eq!(e.msg, "Unrecognized command: '/player/explode'");
    assert!(ClientRequest::parse_str("", "").is_err());
    assert!(ClientRequest::parse_str("/player/pause/", "").is_err());
}

#[test]
fn api_path_of_built_request() {
    let r = ClientRequest::PlaylistAppend { path: "/t/a.flac".to_string() };
    assert_eq!(r.api_path(), "/playlist/append");
    let r = ClientRequest::Leave { uuid: "x".to_string() };
    assert_eq!(r.api_path(), "/client/leave");
}
