use mediasnare::portal::screencast::{
    get_pair_prop, handle_token, is_request_response, parse_streams, response_outcome,
    source_selection, RequestKind, ResponseOutcome, Variant,
};
use mediasnare::portal::shell_screenshot::{capture, capture_region, read_reply, ShellCall, ShellError};
use mediasnare::portal::types::{CursorMode, PersistMode, PortalResponse, SourceType};
use mediasnare::window::main_window::Scope;

#[test]
fn portal_response_from_code() {
    assert_eq!(PortalResponse::from(0), PortalResponse::Success);
    assert_eq!(PortalResponse::from(1), PortalResponse::UserCancelled);
    assert_eq!(PortalResponse::from(2), PortalResponse::Other);
    assert_eq!(PortalResponse::from(u32::MAX), PortalResponse::Other);
}

#[test]
fn response_outcome_by_code() {
    assert_eq!(response_outcome(0), ResponseOutcome::Results);
    assert_eq!(response_outcome(1), ResponseOutcome::Cancelled);
    assert_eq!(response_outcome(7), ResponseOutcome::Failed);
}

#[test]
fn portal_codes() {
    assert_eq!(CursorMode::Hidden.code(), 1);
    assert_eq!(CursorMode::Embedded.code(), 2);
    assert_eq!(CursorMode::Metadata.code(), 4);
    assert_eq!(SourceType::Monitor.code(), 1);
    assert_eq!(SourceType::Window.code(), 2);
    assert_eq!(SourceType::Virtual.code(), 4);
    assert_eq!(PersistMode::DoNotPersist.code(), 0);
    assert_eq!(PersistMode::TransientOnly.code(), 1);
    assert_eq!(PersistMode::Persistent.code(), 2);
}

#[test]
fn source_type_code_round_trip() {
    for t in [SourceType::Monitor, SourceType::Window, SourceType::Virtual] {
        assert_eq!(SourceType::from_code(t.code()), t);
    }
    assert_eq!(SourceType::from_code(9), SourceType::Virtual);
}

fn pair(x: i32, y: i32) -> Variant {
    Variant::Structure(vec![Variant::I32(x), Variant::I32(y)])
}

fn props(entries: Vec<(&str, Variant)>) -> Variant {
    Variant::Dict(entries.into_iter().map(|(k, v)| (k.to_string(), v)).collect())
}

#[test]
fn parse_streams_reads_well_formed_entries() {
    let raw = Variant::Array(vec![
        Variant::Structure(vec![
            Variant::U32(42),
            props(vec![
                ("position", pair(1920, 0)),
                ("size", pair(1280, 1024)),
                ("source_type", Variant::U32(2)),
            ]),
        ]),
        Variant::Other,
        Variant::Structure(vec![Variant::U32(7)]),
        Variant::Structure(vec![Variant::I32(8), props(vec![])]),
        Variant::Structure(vec![Variant::U32(9), Variant::Other]),
        Variant::Structure(vec![Variant::U32(10), props(vec![("position", Variant::U32(3))])]),
    ]);
    let streams = parse_streams(Some(&raw)).ok().unwrap();
    assert_eq!(streams.len(), 3);
    assert_eq!(streams[0].node_id, 42);
    assert_eq!(streams[0].position, (1920, 0));
    assert_eq!(streams[0].size, (1280, 1024));
    assert_eq!(streams[0].source_type, SourceType::Window);
    assert_eq!(streams[1].node_id, 9);
    assert_eq!(streams[1].position, (0, 0));
    assert_eq!(streams[1].source_type, SourceType::Monitor);
    assert_eq!(streams[2].node_id, 10);
    assert_eq!(streams[2].position, (0, 0));
    assert_eq!(streams[2].size, (0, 0));
    assert_eq!(streams[2].source_type, SourceType::Monitor);
}

#[test]
fn parse_streams_missing_or_not_array() {
    let missing = parse_streams(None);
    assert!(missing.is_err());
    assert_eq!(missing.err().unwrap().message(), "portal response missing streams");
    let not_array = Variant::U32(3);
    assert_eq!(parse_streams(Some(&not_array)).ok().unwrap().len(), 0);
}

#[test]
fn get_pair_prop_first_matching_key() {
    let dict = vec![
        ("size".to_string(), pair(5, 6)),
        ("position".to_string(), pair(-3, 4)),
        ("position".to_string(), pair(9, 9)),
    ];
    assert_eq!(get_pair_prop(&dict, "position"), Some((-3, 4)));
    assert_eq!(get_pair_prop(&dict, "size"), Some((5, 6)));
    assert_eq!(get_pair_prop(&dict, "other"), None);
    let short = vec![("position".to_string(), Variant::Structure(vec![Variant::I32(1)]))];
    assert_eq!(get_pair_prop(&short, "position"), None);
}

#[test]
fn handle_tokens() {
    assert_eq!(handle_token(RequestKind::CreateSession, 1234), "mediasnare_1234");
    assert_eq!(handle_token(RequestKind::SelectSources, 1234), "mediasnare_sel_1234");
    assert_eq!(handle_token(RequestKind::Start, 7), "mediasnare_start_7");
}

#[test]
fn source_selection_options() {
    let sel = source_selection(SourceType::Window, CursorMode::Embedded, PersistMode::Persistent, Some("tok"));
    assert_eq!(sel.types, 2);
    assert!(sel.multiple);
    assert_eq!(sel.cursor_mode, 2);
    assert_eq!(sel.persist_mode, 2);
    assert_eq!(sel.restore_token.as_deref(), Some("tok"));
    let sel = source_selection(SourceType::Monitor, CursorMode::Hidden, PersistMode::DoNotPersist, None);
    assert_eq!(sel.types, 1);
    assert_eq!(sel.cursor_mode, 1);
    assert_eq!(sel.persist_mode, 0);
    assert!(sel.restore_token.is_none());
}

#[test]
fn request_response_matching() {
    let req = "/org/freedesktop/portal/desktop/request/1_2/mediasnare_5";
    assert!(is_request_response(Some(req), Some("Response"), req));
    assert!(!is_request_response(Some(req), Some("Closed"), req));
    assert!(!is_request_response(Some("/other"), Some("Response"), req));
    assert!(!is_request_response(None, Some("Response"), req));
    assert!(!is_request_response(Some(req), None, req));
}

#[test]
fn shell_calls_per_scope() {
    assert_eq!(
        capture(Scope::Full, true),
        Ok(ShellCall::Screenshot { include_frame: false, flash: true })
    );
    assert_eq!(
        capture(Scope::Window, false),
        Ok(ShellCall::ScreenshotWindow { include_frame: true, include_cursor: false, flash: true })
    );
    assert_eq!(capture(Scope::Region, true), Err(ShellError::RegionScope));
    assert_eq!(ShellError::RegionScope.message(), "internal: region scope uses capture_region()");
    let area = capture_region(10, 20, 300, 200);
    assert_eq!(area, ShellCall::ScreenshotArea { x: 10, y: 20, w: 300, h: 200, flash: true });
    assert_eq!(area.method(), "ScreenshotArea");
    assert_eq!(capture(Scope::Full, false).unwrap().method(), "Screenshot");
}

#[test]
fn shell_reply_reading() {
    let full = ShellCall::Screenshot { include_frame: false, flash: true };
    let area = capture_region(0, 0, 10, 10);
    assert_eq!(read_reply(full, true, "/tmp/a.png".to_string()), Ok("/tmp/a.png".to_string()));
    assert_eq!(read_reply(full, false, String::new()), Err(ShellError::ScreenshotFailed));
    assert_eq!(read_reply(area, false, String::new()), Err(ShellError::AreaFailed));
    assert_eq!(ShellError::AreaFailed.message(), "Cinnamon ScreenshotArea reported failure");
}
